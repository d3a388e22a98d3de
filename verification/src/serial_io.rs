//! Trusted bridge to the physical transport and to the handoff machinery a
//! live connection needs: the serial port itself, the rendezvous byte
//! channel and the error channel from the background reader, and the shared
//! stop flag. Everything here only moves values across that boundary; the
//! decisions taken on those values live in the verified backend.

use vstd::prelude::*;

use std::sync::Arc;
use std::sync::atomic::AtomicBool;
use std::sync::mpsc::Receiver;
use std::sync::mpsc::Sender;
use std::sync::mpsc::SyncSender;

verus! {

#[verifier::external_type_specification]
#[verifier::external_body]
pub struct ExTTYPort(serialport::TTYPort);

#[verifier::external_type_specification]
#[verifier::external_body]
#[verifier::reject_recursive_types(T)]
pub struct ExReceiver<T>(Receiver<T>);

#[verifier::external_type_specification]
#[verifier::external_body]
#[verifier::reject_recursive_types(T)]
pub struct ExSender<T>(Sender<T>);

#[verifier::external_type_specification]
#[verifier::external_body]
#[verifier::reject_recursive_types(T)]
pub struct ExSyncSender<T>(SyncSender<T>);

/// One read's worth of bytes: a buffer and how many of its leading bytes
/// are valid.
pub type Chunk = (Vec<u8>, usize);

/// Relies on serialport::new followed by SerialPortBuilder::open_native:
/// opens the port at the given baud rate with eight data bits, no parity,
/// one stop bit, no flow control, and the given read timeout.
#[verifier::external_body]
pub(crate) fn open_port(path: &String, baud: u32, timeout_ms: u64) -> (r: Result<
    serialport::TTYPort,
    String,
>) {
    serialport::new(path.as_str(), baud)
        .data_bits(serialport::DataBits::Eight)
        .parity(serialport::Parity::None)
        .stop_bits(serialport::StopBits::One)
        .flow_control(serialport::FlowControl::None)
        .timeout(core::time::Duration::from_millis(timeout_ms))
        .open_native()
        .map_err(|e| e.to_string())
}

/// Relies on serialport::TTYPort::try_clone_native: a second handle to the
/// same port, for the background reader.
#[verifier::external_body]
pub(crate) fn clone_port(port: &serialport::TTYPort) -> (r: Result<serialport::TTYPort, String>) {
    port.try_clone_native().map_err(|e| e.to_string())
}

/// Relies on std::io::Write::write_all for serialport::TTYPort: on success
/// the whole buffer was written; any shortfall or failure comes back as an
/// error.
#[verifier::external_body]
pub(crate) fn port_write_all(port: &mut serialport::TTYPort, bytes: &Vec<u8>) -> (r: Result<
    (),
    String,
>) {
    std::io::Write::write_all(port, bytes.as_slice()).map_err(|e| e.to_string())
}

/// Relies on std::sync::mpsc::sync_channel: a bounded channel of the given
/// capacity; capacity zero makes every send block until a matching receive,
/// which is the rendezvous handoff this core uses for backpressure.
#[verifier::external_body]
pub(crate) fn chunk_channel(bound: usize) -> (r: (SyncSender<Chunk>, Receiver<Chunk>)) {
    std::sync::mpsc::sync_channel(bound)
}

/// Relies on std::sync::mpsc::channel: an unbounded channel, used for the
/// description of the single fatal failure the reader may forward.
#[verifier::external_body]
pub(crate) fn error_channel() -> (r: (Sender<String>, Receiver<String>)) {
    std::sync::mpsc::channel()
}

/// What a non-blocking receive on the byte channel found.
pub enum ChunkRecv {
    /// Nothing pending: absence of data is normal, not an error.
    Empty,
    /// The sender is gone: the reader thread has exited.
    Closed,
    /// One chunk, ownership transferred from the reader.
    Chunk(Vec<u8>, usize),
}

/// Relies on std::sync::mpsc::Receiver::try_recv: returns a pending chunk
/// without blocking, or reports the channel empty, or its sender gone.
#[verifier::external_body]
pub(crate) fn try_recv_chunk(rx: &Receiver<Chunk>) -> (r: ChunkRecv) {
    match rx.try_recv() {
        Ok((bytes, n)) => ChunkRecv::Chunk(bytes, n),
        Err(std::sync::mpsc::TryRecvError::Empty) => ChunkRecv::Empty,
        Err(std::sync::mpsc::TryRecvError::Disconnected) => ChunkRecv::Closed,
    }
}

/// Relies on std::sync::mpsc::Receiver::try_recv: returns a pending failure
/// description without blocking; an empty channel, or one whose sender is
/// gone, yields nothing.
#[verifier::external_body]
pub(crate) fn try_recv_error(rx: &Receiver<String>) -> (r: Option<String>) {
    match rx.try_recv() {
        Ok(e) => Some(e),
        Err(_) => None,
    }
}

/// Relies on std::sync::atomic::AtomicBool::store through the Arc: makes
/// the new value visible to the reader thread holding the other handle.
#[verifier::external_body]
pub(crate) fn flag_store(flag: &Arc<AtomicBool>, v: bool) {
    flag.store(v, core::sync::atomic::Ordering::Relaxed);
}

/// Relies on Arc::clone: another handle to the same flag.
#[verifier::external_body]
pub(crate) fn flag_clone(flag: &Arc<AtomicBool>) -> (r: Arc<AtomicBool>) {
    Arc::clone(flag)
}

} // verus!
