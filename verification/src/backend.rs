//! The serial transport backend: owns the physical connection and the
//! framer, drains the background reader's channels, and exposes the
//! connect / poll / send / disconnect contract.
//!
//! The background reader itself must run on its own thread, which a
//! verified library cannot spawn; `connect` therefore returns a
//! [`ReaderHandoff`] with everything the reader needs, and the caller spawns
//! the thread, taking each step's decision from [`reader_step`]. Likewise
//! `disconnect` signals the reader and clears the connection, and the caller
//! joins the thread afterwards.

use vstd::prelude::*;

use std::sync::Arc;
use std::sync::atomic::AtomicBool;
use std::sync::mpsc::Receiver;
use std::sync::mpsc::Sender;
use std::sync::mpsc::SyncSender;

use crate::commands::CommandIn;
use crate::commands::CommandOut;
use crate::commands::decoded_commands;
use crate::error::Error;
use crate::ports::get_serial_ports;
use crate::ports::names_contain;
use crate::serial_io::Chunk;
use crate::serial_io::ChunkRecv;
use crate::serial_io::chunk_channel;
use crate::serial_io::clone_port;
use crate::serial_io::error_channel;
use crate::serial_io::flag_clone;
use crate::serial_io::flag_store;
use crate::serial_io::open_port;
use crate::serial_io::port_write_all;
use crate::serial_io::try_recv_chunk;
use crate::serial_io::try_recv_error;
use crate::slip::FramerState;
use crate::slip::SlipDecoder;
use crate::slip::slip_run;

verus! {

/// Size of the reader's buffer: the most bytes one read may return.
pub const SERIAL_BUFFER_SIZE: usize = 1024;

/// Line rate of the device's serial interface.
pub const SERIAL_BAUD: u32 = 115200;

/// Read timeout of the transport; also bounds how long a disconnect waits
/// for the reader to notice the stop flag.
pub const SERIAL_READ_TIMEOUT_MS: u64 = 1000;

/// The outcome of one read on the reader's port handle, as plain values.
pub enum ReadEvent {
    /// The read returned this many bytes.
    Data(usize),
    /// The read timed out; normal between frames.
    TimedOut,
    /// The read was interrupted.
    Interrupted,
    /// Any other failure, with its description.
    Failed(String),
}

/// What the reader does next.
pub enum ReaderAction {
    /// Hand this many bytes to the consumer and keep reading.
    Forward(usize),
    /// Try the next read; nothing to report.
    Retry,
    /// Forward this failure's description once and exit the loop.
    Fail(String),
    /// The stop flag was observed: exit the loop cleanly.
    Stop,
}

/// The reader loop's decision for one iteration: stop when asked to,
/// forward data, retry silently on a timeout or interruption, and treat
/// every other failure as fatal for the connection.
pub fn reader_step(running: bool, event: ReadEvent) -> (a: ReaderAction)
    ensures
        !running ==> a is Stop,
        running ==> match event {
            ReadEvent::Data(n) => a matches ReaderAction::Forward(m) && m == n,
            ReadEvent::TimedOut => a is Retry,
            ReadEvent::Interrupted => a is Retry,
            ReadEvent::Failed(msg) => a matches ReaderAction::Fail(m) && m@ == msg@,
        },
{
    if !running {
        return ReaderAction::Stop;
    }
    match event {
        ReadEvent::Data(n) => ReaderAction::Forward(n),
        ReadEvent::TimedOut => ReaderAction::Retry,
        ReadEvent::Interrupted => ReaderAction::Retry,
        ReadEvent::Failed(msg) => ReaderAction::Fail(msg),
    }
}

/// The whole receive pipeline, end to end: a non-empty frame that fits the
/// accumulator, framed for the wire and fed back through the framer, decodes
/// to exactly the command the codec gives for it — one command when the
/// frame is a valid command, none when it is not, and never anything else.
pub proof fn lemma_wire_round_trip(frame: Seq<u8>)
    requires
        0 < frame.len() <= crate::slip::COMMAND_BUFFER_SIZE,
    ensures
        decoded_commands(
            slip_run(FramerState::initial(), crate::slip::slip_encode_spec(frame)).frames,
        ) == (match crate::commands::decode_spec(frame) {
            Some(c) => seq![c],
            None => Seq::<crate::commands::CommandModel>::empty(),
        }),
        slip_run(FramerState::initial(), crate::slip::slip_encode_spec(frame)).st
            == FramerState::initial(),
{
    crate::slip::lemma_slip_round_trip(frame);
    let frames = seq![frame];
    assert(frames.drop_first() =~= Seq::<Seq<u8>>::empty());
    assert(decoded_commands(frames.drop_first()) == Seq::<crate::commands::CommandModel>::empty());
    match crate::commands::decode_spec(frame) {
        Some(c) => {
            assert(decoded_commands(frames) =~= seq![c]);
        },
        None => {
            assert(decoded_commands(frames) =~= Seq::<crate::commands::CommandModel>::empty());
        },
    }
}

/// Everything the background reader needs: a cloned port handle, the
/// sending ends of the two channels, and its handle on the stop flag.
pub struct ReaderHandoff {
    pub port: serialport::TTYPort,
    pub chunk_sender: SyncSender<Chunk>,
    pub error_sender: Sender<String>,
    pub running: Arc<AtomicBool>,
}

/// A transport backend over a serial port. At most one live connection:
/// the port handle and path are present exactly while connected, set and
/// cleared together.
pub struct SerialBackend {
    preferred_path: Option<String>,
    path: Option<String>,
    port: Option<serialport::TTYPort>,
    read_receiver: Option<Receiver<Chunk>>,
    error_receiver: Option<Receiver<String>>,
    running: Option<Arc<AtomicBool>>,
    is_connected: bool,
    framer: SlipDecoder,
}

impl SerialBackend {
    /// Whether a connection is live: the flag is set and the port handle is
    /// present. The two are set and cleared together.
    pub closed spec fn connected(&self) -> bool {
        self.is_connected && self.port is Some
    }

    /// The framer's abstract state: partial frame and escape flag.
    pub closed spec fn framer_state(&self) -> FramerState {
        self.framer@
    }

    /// The preferred path, if one was set.
    pub closed spec fn preferred(&self) -> Option<Seq<char>> {
        match self.preferred_path {
            Some(p) => Some(p@),
            None => None,
        }
    }

    /// The path of the live connection: present exactly while connected,
    /// set at connect to the resolved target and cleared at disconnect.
    pub closed spec fn connection_path(&self) -> Option<Seq<char>> {
        match self.path {
            Some(p) => Some(p@),
            None => None,
        }
    }

    /// A fresh, unconnected backend.
    pub fn new() -> (r: Box<SerialBackend>)
        ensures
            !r.connected(),
            r.framer_state() == FramerState::initial(),
            r.preferred() is None,
            r.connection_path() is None,
    {
        Box::new(
            SerialBackend {
                preferred_path: None,
                path: None,
                port: None,
                read_receiver: None,
                error_receiver: None,
                running: None,
                is_connected: false,
                framer: SlipDecoder::new(),
            },
        )
    }

    /// Sets the preferred serial port path. With no path, the first
    /// available device is used at connect time. A given path is accepted
    /// only if it names a port that exists right now (a device port, when
    /// `check_if_valid` is set); one that does not is the "not found"
    /// condition.
    pub fn set_preferred_path(&mut self, preferred_path: Option<&str>, check_if_valid: bool) -> (r:
        Result<(), Error>)
        ensures
            final(self).connected() == old(self).connected(),
            final(self).framer_state() == old(self).framer_state(),
            final(self).connection_path() == old(self).connection_path(),
            preferred_path is None ==> r is Ok && final(self).preferred() is None,
            preferred_path matches Some(p) ==> (r is Ok ==> final(self).preferred() == Some(p@)),
            r matches Err(e) ==> e is DeviceNotFound && final(self).preferred() == old(
                self,
            ).preferred(),
    {
        match preferred_path {
            None => {
                self.preferred_path = None;
                Ok(())
            },
            Some(p) => {
                let names = get_serial_ports(check_if_valid);
                let owned = p.to_owned();
                if names_contain(&names, &owned) {
                    self.preferred_path = Some(owned);
                    Ok(())
                } else {
                    Err(Error::DeviceNotFound)
                }
            },
        }
    }

    /// The connection path to use: the preferred path when one is set,
    /// otherwise the first candidate; with neither, the "not found"
    /// condition.
    pub fn resolve_target(preferred: &Option<String>, candidates: &Vec<String>) -> (r: Result<
        String,
        Error,
    >)
        ensures
            preferred matches Some(p) ==> (r matches Ok(q) && q@ == p@),
            (preferred is None && candidates@.len() > 0) ==> (r matches Ok(q) && q@
                == candidates@[0]@),
            (preferred is None && candidates@.len() == 0) ==> (r matches Err(e) && e
                is DeviceNotFound),
    {
        match preferred {
            Some(p) => Ok(p.clone()),
            None => {
                if candidates.len() == 0 {
                    Err(Error::DeviceNotFound)
                } else {
                    Ok(candidates[0].clone())
                }
            },
        }
    }

    /// Drops every piece of connection state and resets the framer.
    fn clear_connection(&mut self)
        ensures
            !final(self).connected(),
            final(self).framer_state() == FramerState::initial(),
            final(self).preferred() == old(self).preferred(),
            final(self).connection_path() is None,
    {
        self.is_connected = false;
        self.port = None;
        self.path = None;
        self.read_receiver = None;
        self.error_receiver = None;
        self.running = None;
        self.framer.reset();
    }

    /// Opens a connection: fails when already connected; otherwise resolves
    /// the target path, opens the port at the fixed line configuration,
    /// prepares the reader's channels and stop flag, marks the connection
    /// live, and sends the first handshake command (disable display) so the
    /// device stops streaming while the caller pauses and finishes the
    /// handshake. On success the caller must spawn the background reader
    /// with the returned handoff, then call `finish_handshake`. If the
    /// first handshake write fails, the connection is rolled back and the
    /// backend stays unconnected.
    pub fn connect(&mut self) -> (r: Result<ReaderHandoff, Error>)
        ensures
            final(self).preferred() == old(self).preferred(),
            old(self).connected() ==> (r matches Err(e) && e is DeviceConnectionError && *final(self) == *old(self)),
            r is Ok ==> final(self).connected() && final(self).framer_state() == old(
                self,
            ).framer_state(),
            r is Ok ==> final(self).connection_path() is Some,
            old(self).preferred() matches Some(p) ==> (r is Ok ==> final(self).connection_path()
                == Some(p)),
            r is Err ==> final(self).connected() == old(self).connected(),
    {
        if self.is_connected() {
            return Err(Error::DeviceConnectionError("Already connected to a device".to_owned()));
        }
        let path = match &self.preferred_path {
            Some(p) => p.clone(),
            None => {
                let ports = get_serial_ports(true);
                match Self::resolve_target(&None, &ports) {
                    Ok(p) => p,
                    Err(e) => {
                        return Err(e);
                    },
                }
            },
        };
        let port = match open_port(&path, SERIAL_BAUD, SERIAL_READ_TIMEOUT_MS) {
            Ok(p) => p,
            Err(msg) => {
                return Err(
                    Error::DeviceConnectionError(
                        "Failed to open serial port: ".to_owned().concat(msg.as_str()),
                    ),
                );
            },
        };
        let port_clone = match clone_port(&port) {
            Ok(p) => p,
            Err(msg) => {
                return Err(
                    Error::DeviceConnectionError(
                        "Failed to clone serial port: ".to_owned().concat(msg.as_str()),
                    ),
                );
            },
        };
        let (chunk_sender, chunk_receiver) = chunk_channel(0);
        let (error_sender, error_receiver) = error_channel();
        let running = Arc::new(AtomicBool::new(true));
        let running_clone = flag_clone(&running);
        self.read_receiver = Some(chunk_receiver);
        self.error_receiver = Some(error_receiver);
        self.path = Some(path);
        self.port = Some(port);
        self.running = Some(running);
        self.is_connected = true;
        match self.send_command(CommandOut::DisableDisplay) {
            Ok(_) => {},
            Err(e) => {
                self.clear_connection();
                return Err(e);
            },
        }
        Ok(
            ReaderHandoff {
                port: port_clone,
                chunk_sender,
                error_sender,
                running: running_clone,
            },
        )
    }

    /// The second half of the init handshake, sent after the caller's
    /// pause: enable display, then reset display, so the device starts
    /// streaming from a known state.
    pub fn finish_handshake(&mut self) -> (r: Result<(), Error>)
        ensures
            final(self).connected() == old(self).connected(),
            final(self).framer_state() == old(self).framer_state(),
            final(self).preferred() == old(self).preferred(),
            final(self).connection_path() == old(self).connection_path(),
            !old(self).connected() ==> (r matches Err(e) && e is DeviceNotConnected),
    {
        match self.send_command(CommandOut::EnableDisplay) {
            Ok(_) => {},
            Err(e) => {
                return Err(e);
            },
        }
        self.send_command(CommandOut::ResetDisplay)
    }

    /// Closes the connection: fails when not connected; otherwise signals
    /// the background reader to stop, best-effort sends a disable-display
    /// command, and clears all connection state, whatever else happens —
    /// disconnect never leaves a half-connected backend. The caller joins
    /// the reader thread afterwards; its exit is bounded by the read
    /// timeout.
    pub fn disconnect(&mut self) -> (r: Result<(), Error>)
        ensures
            final(self).preferred() == old(self).preferred(),
            !old(self).connected() ==> (r matches Err(e) && e is DeviceConnectionError && *final(self) == *old(self)),
            old(self).connected() ==> r is Ok,
            old(self).connected() ==> !final(self).connected() && final(self).framer_state()
                == FramerState::initial() && final(self).connection_path() is None,
    {
        if !self.is_connected() {
            return Err(Error::DeviceConnectionError("Not connected to any device".to_owned()));
        }
        match &self.running {
            Some(flag) => flag_store(flag, false),
            None => {},
        }
        let _ = self.send_command(CommandOut::DisableDisplay);
        self.clear_connection();
        Ok(())
    }

    /// Whether a connection is live: the port handle and path are present
    /// exactly then.
    pub fn is_connected(&self) -> (r: bool)
        ensures
            r == self.connected(),
    {
        self.is_connected && self.port.is_some()
    }

    /// Sends one command: fails with "not connected" without a live
    /// connection; otherwise encodes it and writes the bytes synchronously
    /// and fully, surfacing any write failure as a connection error.
    pub fn send_command(&mut self, command: CommandOut) -> (r: Result<(), Error>)
        ensures
            final(self).connected() == old(self).connected(),
            final(self).framer_state() == old(self).framer_state(),
            final(self).preferred() == old(self).preferred(),
            final(self).connection_path() == old(self).connection_path(),
            !old(self).connected() ==> (r matches Err(e) && e is DeviceNotConnected),
            old(self).connected() ==> (r is Ok || (r matches Err(e) && e
                is DeviceConnectionError)),
    {
        if !self.is_connected {
            return Err(Error::DeviceNotConnected("Not connected to any device".to_owned()));
        }
        let bytes = command.to_bytes();
        match &mut self.port {
            Some(port) => match port_write_all(port, &bytes) {
                Ok(_) => Ok(()),
                Err(msg) => Err(
                    Error::DeviceConnectionError(
                        "Failed to send command: ".to_owned().concat(msg.as_str()),
                    ),
                ),
            },
            None => Err(Error::DeviceNotConnected("Not connected to any device".to_owned())),
        }
    }

    /// Feeds the valid bytes of one received chunk through the framer, and
    /// each completed frame through the codec. Decoded commands accumulate
    /// in frame arrival order; frames that do not decode, and frames
    /// aborted by an invalid escape, are dropped and polling goes on. Only
    /// a frame outgrowing the accumulator fails the call.
    pub fn process_chunk(&mut self, bytes: &[u8], n: usize) -> (r: Result<Vec<CommandIn>, Error>)
        requires
            n <= bytes@.len(),
        ensures
            final(self).connected() == old(self).connected(),
            final(self).preferred() == old(self).preferred(),
            final(self).connection_path() == old(self).connection_path(),
            final(self).framer_state() == slip_run(
                old(self).framer_state(),
                bytes@.subrange(0, n as int),
            ).st,
            r matches Ok(cmds) ==> cmds.deep_view() == decoded_commands(
                slip_run(old(self).framer_state(), bytes@.subrange(0, n as int)).frames,
            ) && !slip_run(old(self).framer_state(), bytes@.subrange(0, n as int)).overflow,
            r matches Err(e) ==> e is BufferOverflow && slip_run(
                old(self).framer_state(),
                bytes@.subrange(0, n as int),
            ).overflow,
    {
        let frames = match self.framer.feed_chunk(bytes, n) {
            Ok(f) => f,
            Err(e) => {
                return Err(e);
            },
        };
        let ghost fs = frames.deep_view();
        let mut cmds: Vec<CommandIn> = Vec::new();
        let mut i: usize = 0;
        proof {
            assert(fs.subrange(0, 0) =~= Seq::<Seq<u8>>::empty());
            assert(cmds.deep_view() =~= Seq::<crate::commands::CommandModel>::empty());
        }
        while i < frames.len()
            invariant
                i <= frames@.len(),
                fs == frames.deep_view(),
                fs.len() == frames@.len(),
                cmds.deep_view() == decoded_commands(fs.subrange(0, i as int)),
            decreases frames@.len() - i,
        {
            let ghost old_cmds = cmds.deep_view();
            proof {
                assert(frames@[i as int].deep_view() =~= frames@[i as int]@);
                assert(fs[i as int] == frames@[i as int]@);
            }
            match CommandIn::from_bytes(frames[i].as_slice()) {
                Some(c) => {
                    let ghost cv = c@;
                    cmds.push(c);
                    proof {
                        assert(cmds.deep_view() =~= old_cmds.push(cv));
                    }
                },
                None => {},
            }
            proof {
                assert(fs.subrange(0, i + 1) =~= fs.subrange(0, i as int).push(fs[i as int]));
                crate::commands::lemma_decoded_snoc(fs.subrange(0, i as int), fs[i as int]);
            }
            i = i + 1;
        }
        proof {
            assert(fs.subrange(0, fs.len() as int) =~= fs);
        }
        Ok(cmds)
    }

    /// Polls decoded commands. Without a live connection this is the "not
    /// connected" error, never a command list. While connected: a pending
    /// fatal failure from the reader disconnects the backend and is returned
    /// as the read error it is;
    /// a closed byte channel means the reader is gone, so the backend
    /// disconnects and reports "not connected"; no pending chunk is an
    /// empty list; and a chunk is processed as `process_chunk` says. Any
    /// error except a buffer overflow leaves the backend disconnected.
    pub fn poll(&mut self) -> (r: Result<Vec<CommandIn>, Error>)
        ensures
            final(self).preferred() == old(self).preferred(),
            !old(self).connected() ==> (r matches Err(e) && e is DeviceNotConnected && *final(self)
                == *old(self)),
            (old(self).connected() && r is Ok) ==> final(self).connected() && final(self).connection_path() == old(self).connection_path(),
            (old(self).connected() && (r matches Err(e) && e is BufferOverflow)) ==> final(self).connected(),
            (old(self).connected() && (r matches Err(e) && !(e is BufferOverflow))) ==> !final(self).connected(),
            r matches Err(e) ==> (e is DeviceNotConnected || e is DeviceReadError || e
                is BufferOverflow),
            r matches Ok(cmds) ==> exists|input: Seq<u8>|
                {
                    &&& cmds.deep_view() == decoded_commands(
                        slip_run(old(self).framer_state(), input).frames,
                    )
                    &&& final(self).framer_state() == slip_run(old(self).framer_state(), input).st
                    &&& !slip_run(old(self).framer_state(), input).overflow
                },
    {
        if !self.is_connected() {
            return Err(Error::DeviceNotConnected("Not connected to any device".to_owned()));
        }
        let pending = match &self.error_receiver {
            Some(rx) => try_recv_error(rx),
            None => None,
        };
        match pending {
            Some(msg) => {
                let _ = self.disconnect();
                return Err(Error::DeviceReadError(msg));
            },
            None => {},
        }
        let received = match &self.read_receiver {
            Some(rx) => try_recv_chunk(rx),
            None => ChunkRecv::Empty,
        };
        match received {
            ChunkRecv::Empty => {
                let cmds: Vec<CommandIn> = Vec::new();
                proof {
                    let input = Seq::<u8>::empty();
                    assert(slip_run(self.framer_state(), input) == (crate::slip::SlipRun {
                        st: self.framer_state(),
                        frames: Seq::<Seq<u8>>::empty(),
                        overflow: false,
                    }));
                    assert(decoded_commands(Seq::<Seq<u8>>::empty())
                        == Seq::<crate::commands::CommandModel>::empty());
                    assert(cmds.deep_view() =~= Seq::<crate::commands::CommandModel>::empty());
                }
                Ok(cmds)
            },
            ChunkRecv::Closed => {
                let _ = self.disconnect();
                Err(Error::DeviceNotConnected("Device disconnected".to_owned()))
            },
            ChunkRecv::Chunk(bytes, n) => {
                let valid = if n <= bytes.len() {
                    n
                } else {
                    bytes.len()
                };
                let r = self.process_chunk(bytes.as_slice(), valid);
                proof {
                    if r is Ok {
                        let input = bytes@.subrange(0, valid as int);
                        assert(r matches Ok(cmds) ==> cmds.deep_view() == decoded_commands(
                            slip_run(old(self).framer_state(), input).frames,
                        ));
                    }
                }
                r
            },
        }
    }
}

} // verus!
