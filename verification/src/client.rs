//! The client orchestrator: a generic dispatch loop pairing the backend's
//! `poll` with a caller-supplied command handler, and convenience senders
//! for the common outgoing commands.

use vstd::prelude::*;

use crate::backend::SerialBackend;
use crate::commands::CommandIn;
use crate::commands::CommandOut;
use crate::error::Error;
use crate::keys::KeyState;

verus! {

/// A way of reaching a device: what the orchestrator needs from a
/// transport. The serial backend of this crate implements it; an embedding
/// may implement others.
pub trait Backend {
    /// Whether a connection is live.
    spec fn connected(&self) -> bool;

    fn is_connected(&self) -> (r: bool)
        ensures
            r == self.connected(),
    ;

    /// Polls decoded commands; without a live connection this is the "not
    /// connected" error, never a command list. After any error the
    /// connection is no longer valid and the owner should disconnect.
    fn poll(&mut self) -> (r: Result<Vec<CommandIn>, Error>)
        ensures
            !old(self).connected() ==> (r matches Err(e) && e is DeviceNotConnected),
    ;

    /// Sends one command; without a live connection this is the "not
    /// connected" error.
    fn send_command(&mut self, command: CommandOut) -> (r: Result<(), Error>)
        ensures
            !old(self).connected() ==> (r matches Err(e) && e is DeviceNotConnected),
    ;

    /// Closes the connection; fails without one.
    fn disconnect(&mut self) -> (r: Result<(), Error>)
        ensures
            !old(self).connected() ==> r is Err,
            old(self).connected() ==> (r is Ok ==> !final(self).connected()),
    ;
}

impl Backend for SerialBackend {
    open spec fn connected(&self) -> bool {
        SerialBackend::connected(self)
    }

    fn is_connected(&self) -> (r: bool) {
        SerialBackend::is_connected(self)
    }

    fn poll(&mut self) -> (r: Result<Vec<CommandIn>, Error>) {
        SerialBackend::poll(self)
    }

    fn send_command(&mut self, command: CommandOut) -> (r: Result<(), Error>) {
        SerialBackend::send_command(self, command)
    }

    fn disconnect(&mut self) -> (r: Result<(), Error>) {
        SerialBackend::disconnect(self)
    }
}

/// A client of the device: owns (or not) a backend and handles the commands
/// that arrive. Everything but the backend accessor and the handler comes
/// for free; without a backend attached, every operation is false or the
/// "no backend" error.
pub trait Client {
    /// Whether a backend is attached.
    spec fn spec_has_backend(&self) -> bool;

    /// The backend used to communicate with the device, present exactly
    /// when one is attached.
    fn backend(&mut self) -> (r: Option<&mut dyn Backend>)
        ensures
            (r is Some) == old(self).spec_has_backend(),
    ;

    /// Processes one incoming command. A failure aborts the remaining
    /// dispatch of that poll and propagates.
    fn handle_command(&mut self, command: CommandIn) -> Result<(), Error>;

    /// Whether the attached backend has a live connection; with no backend,
    /// false, never an error.
    fn is_connected(&mut self) -> (r: bool)
        ensures
            !old(self).spec_has_backend() ==> r == false,
    {
        match self.backend() {
            Some(backend) => backend.is_connected(),
            None => false,
        }
    }

    /// Polls incoming commands and hands each to `handle_command`, in
    /// arrival order; with no backend, the "no backend" error and no
    /// dispatch.
    fn poll(&mut self) -> (r: Result<(), Error>)
        ensures
            !old(self).spec_has_backend() ==> (r matches Err(e) && e is NoBackend),
    {
        let commands = match self.backend() {
            Some(backend) => match backend.poll() {
                Ok(commands) => commands,
                Err(e) => {
                    return Err(e);
                },
            },
            None => {
                return Err(Error::NoBackend);
            },
        };
        let mut i: usize = 0;
        while i < commands.len()
            invariant
                old(self).spec_has_backend(),
            decreases commands@.len() - i,
        {
            match self.handle_command(commands[i].clone()) {
                Ok(_) => {},
                Err(e) => {
                    return Err(e);
                },
            }
            i = i + 1;
        }
        Ok(())
    }

    /// Sends one command to the device; with no backend, the "no backend"
    /// error.
    fn send_command(&mut self, command: CommandOut) -> (r: Result<(), Error>)
        ensures
            !old(self).spec_has_backend() ==> (r matches Err(e) && e is NoBackend),
    {
        match self.backend() {
            Some(backend) => backend.send_command(command),
            None => Err(Error::NoBackend),
        }
    }

    /// Sets the pressed state of the keys.
    fn set_keys(&mut self, keystate: &KeyState) -> (r: Result<(), Error>)
        ensures
            !old(self).spec_has_backend() ==> (r matches Err(e) && e is NoBackend),
    {
        self.send_command(CommandOut::ControlKeys { keybits: keystate.to_byte() })
    }

    /// Plays a note at a velocity.
    fn play_note(&mut self, note: u8, velocity: u8) -> (r: Result<(), Error>)
        ensures
            !old(self).spec_has_backend() ==> (r matches Err(e) && e is NoBackend),
    {
        self.send_command(CommandOut::KeyJazz { note, velocity })
    }

    /// Tells the device to start sending display updates.
    fn enable_display(&mut self) -> (r: Result<(), Error>)
        ensures
            !old(self).spec_has_backend() ==> (r matches Err(e) && e is NoBackend),
    {
        self.send_command(CommandOut::EnableDisplay)
    }

    /// Tells the device to redraw the entire display.
    fn reset_display(&mut self) -> (r: Result<(), Error>)
        ensures
            !old(self).spec_has_backend() ==> (r matches Err(e) && e is NoBackend),
    {
        self.send_command(CommandOut::ResetDisplay)
    }

    /// Sets one theme color.
    fn set_theme_color(&mut self, index: u8, r: u8, g: u8, b: u8) -> (res: Result<(), Error>)
        ensures
            !old(self).spec_has_backend() ==> (res matches Err(e) && e is NoBackend),
    {
        self.send_command(CommandOut::ThemeColor { index, r, g, b })
    }

    fn ping(&mut self) -> (r: Result<(), Error>)
        ensures
            !old(self).spec_has_backend() ==> (r matches Err(e) && e is NoBackend),
    {
        self.send_command(CommandOut::Ping)
    }
}

} // verus!
