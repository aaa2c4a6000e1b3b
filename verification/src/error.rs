//! The closed error taxonomy of the adapter layer.
//!
//! Every engine-level failure is wrapped, never dropped. A failure that
//! carries a peer-delivered wire code passes that code through the
//! translator: the application code is attached when the wire value lies in
//! the WebTransport sub-space, and left out (`None`) when the peer used a
//! code outside it — that absence is a policy, not an error.
//!
//! The `Engine*` types state, as plain values, exactly what this layer reads
//! of the engine's own error values; the boundary that drives the engine
//! converts into them one variant at a time.

use crate::proto::app_of;
use crate::proto::from_wire;
use vstd::prelude::*;

verus! {

/// Engine-level failure of a write or finish operation, as plain values.
#[derive(Debug, Clone, Copy, PartialEq, Eq)]
pub enum EngineWriteError {
    /// The peer sent stop-sending carrying this wire code.
    Stopped(u64),
    /// The connection was lost.
    ConnectionLost,
    /// The stream was already finished or reset.
    UnknownStream,
    /// The stream was sent as 0-RTT data and the server rejected it.
    ZeroRttRejected,
}

/// Engine-level failure of a read operation, as plain values.
#[derive(Debug, Clone, Copy, PartialEq, Eq)]
pub enum EngineReadError {
    /// The peer reset its send side carrying this wire code.
    Reset(u64),
    /// The connection was lost.
    ConnectionLost,
    /// The stream was already stopped, finished, or reset.
    UnknownStream,
    /// An ordered read followed an unordered read.
    IllegalOrderedRead,
    /// The stream was sent as 0-RTT data and the server rejected it.
    ZeroRttRejected,
}

/// Engine-level failure while awaiting the peer's stop-sending signal.
#[derive(Debug, Clone, Copy, PartialEq, Eq)]
pub enum EngineStoppedError {
    /// The connection was lost.
    ConnectionLost,
    /// The stream was already finished or reset.
    UnknownStream,
    /// The stream was sent as 0-RTT data and the server rejected it.
    ZeroRttRejected,
}

/// Engine-level failure of a bounded read-to-end operation.
#[derive(Debug, Clone, Copy, PartialEq, Eq)]
pub enum EngineReadToEndError {
    /// A read failed underneath.
    Read(EngineReadError),
    /// The stream held more bytes than the caller's limit.
    TooLong,
}

/// Failure of a write or finish operation.
#[derive(Debug, Clone, Copy, PartialEq, Eq)]
pub enum WriteError {
    /// The peer stopped the stream; carries the translated application code
    /// when the peer's wire code lies in the WebTransport sub-space.
    Stopped(Option<u32>),
    /// The connection was lost.
    ConnectionLost,
    /// The stream is closed locally: already finished or reset.
    ClosedStream,
    /// The stream was sent as 0-RTT data and the server rejected it.
    ZeroRttRejected,
}

/// Failure of a read operation.
#[derive(Debug, Clone, Copy, PartialEq, Eq)]
pub enum ReadError {
    /// The peer reset the stream; carries the translated application code
    /// when the peer's wire code lies in the WebTransport sub-space.
    Reset(Option<u32>),
    /// The connection was lost.
    ConnectionLost,
    /// The stream is closed locally: already stopped, finished, or reset.
    ClosedStream,
    /// An ordered read followed an unordered read.
    IllegalOrderedRead,
    /// The stream was sent as 0-RTT data and the server rejected it.
    ZeroRttRejected,
}

/// Failure of a read-exact operation: an early clean end is distinguished
/// from the general read failures and carries how many bytes had arrived.
#[derive(Debug, Clone, Copy, PartialEq, Eq)]
pub enum ReadExactError {
    /// The stream ended cleanly after this many of the requested bytes.
    FinishedEarly(usize),
    /// A read failed underneath.
    Read(ReadError),
}

/// Failure of a bounded read-to-end operation: exceeding the caller's limit
/// is distinguished from the general read failures.
#[derive(Debug, Clone, Copy, PartialEq, Eq)]
pub enum ReadToEndError {
    /// The stream held more bytes than the caller's limit.
    TooLong,
    /// A read failed underneath.
    Read(ReadError),
}

/// Failure while awaiting the peer's stop-sending signal. No application
/// code is carried: this path is itself the code-delivery path.
#[derive(Debug, Clone, Copy, PartialEq, Eq)]
pub enum StoppedError {
    /// The connection was lost.
    ConnectionLost,
    /// The stream is closed locally: already finished or reset.
    ClosedStream,
    /// The stream was sent as 0-RTT data and the server rejected it.
    ZeroRttRejected,
}

/// Failure of an operation — reset, stop, priority get or set — attempted
/// after the stream handle is no longer controllable locally.
#[derive(Debug, Clone, Copy, PartialEq, Eq)]
pub struct StreamClosed;

/// What a write failure surfaces as: the peer's stop code is translated,
/// every other cause is passed through unchanged.
pub open spec fn spec_write_error(e: EngineWriteError) -> WriteError {
    match e {
        EngineWriteError::Stopped(w) => WriteError::Stopped(app_of(w as int)),
        EngineWriteError::ConnectionLost => WriteError::ConnectionLost,
        EngineWriteError::UnknownStream => WriteError::ClosedStream,
        EngineWriteError::ZeroRttRejected => WriteError::ZeroRttRejected,
    }
}

/// What a read failure surfaces as: the peer's reset code is translated,
/// every other cause is passed through unchanged.
pub open spec fn spec_read_error(e: EngineReadError) -> ReadError {
    match e {
        EngineReadError::Reset(w) => ReadError::Reset(app_of(w as int)),
        EngineReadError::ConnectionLost => ReadError::ConnectionLost,
        EngineReadError::UnknownStream => ReadError::ClosedStream,
        EngineReadError::IllegalOrderedRead => ReadError::IllegalOrderedRead,
        EngineReadError::ZeroRttRejected => ReadError::ZeroRttRejected,
    }
}

/// What a stopped-await failure surfaces as: no code is ever attached.
pub open spec fn spec_stopped_error(e: EngineStoppedError) -> StoppedError {
    match e {
        EngineStoppedError::ConnectionLost => StoppedError::ConnectionLost,
        EngineStoppedError::UnknownStream => StoppedError::ClosedStream,
        EngineStoppedError::ZeroRttRejected => StoppedError::ZeroRttRejected,
    }
}

/// What a read-to-end failure surfaces as: the limit case stays the limit
/// case, a read failure underneath is translated like any read failure.
pub open spec fn spec_read_to_end_error(e: EngineReadToEndError) -> ReadToEndError {
    match e {
        EngineReadToEndError::Read(inner) => ReadToEndError::Read(spec_read_error(inner)),
        EngineReadToEndError::TooLong => ReadToEndError::TooLong,
    }
}

impl WriteError {
    /// Wrap an engine write failure, translating a peer-delivered stop code
    /// into the application domain.
    pub fn from_engine(e: EngineWriteError) -> (r: WriteError)
        ensures
            r == spec_write_error(e),
    {
        match e {
            EngineWriteError::Stopped(w) => WriteError::Stopped(from_wire(w)),
            EngineWriteError::ConnectionLost => WriteError::ConnectionLost,
            EngineWriteError::UnknownStream => WriteError::ClosedStream,
            EngineWriteError::ZeroRttRejected => WriteError::ZeroRttRejected,
        }
    }
}

impl ReadError {
    /// Wrap an engine read failure, translating a peer-delivered reset code
    /// into the application domain.
    pub fn from_engine(e: EngineReadError) -> (r: ReadError)
        ensures
            r == spec_read_error(e),
    {
        match e {
            EngineReadError::Reset(w) => ReadError::Reset(from_wire(w)),
            EngineReadError::ConnectionLost => ReadError::ConnectionLost,
            EngineReadError::UnknownStream => ReadError::ClosedStream,
            EngineReadError::IllegalOrderedRead => ReadError::IllegalOrderedRead,
            EngineReadError::ZeroRttRejected => ReadError::ZeroRttRejected,
        }
    }
}

impl StoppedError {
    /// Wrap an engine failure of the stopped-await path.
    pub fn from_engine(e: EngineStoppedError) -> (r: StoppedError)
        ensures
            r == spec_stopped_error(e),
    {
        match e {
            EngineStoppedError::ConnectionLost => StoppedError::ConnectionLost,
            EngineStoppedError::UnknownStream => StoppedError::ClosedStream,
            EngineStoppedError::ZeroRttRejected => StoppedError::ZeroRttRejected,
        }
    }
}

impl ReadToEndError {
    /// Wrap an engine read-to-end failure, keeping the limit case distinct.
    pub fn from_engine(e: EngineReadToEndError) -> (r: ReadToEndError)
        ensures
            r == spec_read_to_end_error(e),
    {
        match e {
            EngineReadToEndError::Read(inner) => ReadToEndError::Read(ReadError::from_engine(inner)),
            EngineReadToEndError::TooLong => ReadToEndError::TooLong,
        }
    }
}

} // verus!
