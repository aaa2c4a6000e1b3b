//! Send and receive stream adapters over the engine's stream handles.
//!
//! Each adapter exclusively owns one underlying stream handle and is a
//! stateless facade: terminal states (finished, reset, stopped) are owned
//! and enforced by the engine. The operations that never suspend — reset,
//! stop, priority get and set — live here in full; the suspending byte
//! transfers are driven by the embedding runtime through the public handle,
//! and hand their engine outcomes back to the verified decision and
//! translation functions of this crate.

use crate::engine::{EngineRecvHandle, EngineSendHandle};
use crate::engine::{engine_priority, engine_reset, engine_set_priority, engine_stop};
use crate::error::{EngineReadError, EngineStoppedError, ReadExactError, StoppedError, StreamClosed};
use crate::error::{ReadError, spec_read_error, spec_stopped_error};
use crate::proto::{app_of, from_wire, to_wire};
use vstd::prelude::*;

verus! {

/// A stream that sends bytes: exclusively owns the engine's outbound handle.
pub struct SendStream {
    /// The engine's outbound handle, exposed for the suspending
    /// byte-transfer operations that an embedding runtime drives directly.
    pub inner: EngineSendHandle,
}

impl SendStream {
    /// Wrap an engine outbound handle.
    pub fn new(stream: EngineSendHandle) -> SendStream {
        SendStream { inner: stream }
    }

    /// Abruptly reset the stream. The application code is translated into
    /// the HTTP/3 reserved sub-space before it reaches the wire; the
    /// translation is total, so this never fails on the code itself, only
    /// when the stream can no longer be reset.
    pub fn reset(&mut self, code: u32) -> Result<(), StreamClosed> {
        let wire = to_wire(code);
        engine_reset(&mut self.inner, wire)
    }

    /// Set the priority with which the engine schedules this stream.
    pub fn set_priority(&mut self, order: i32) -> Result<(), StreamClosed> {
        engine_set_priority(&self.inner, order)
    }

    /// The priority with which the engine schedules this stream.
    pub fn priority(&self) -> Result<i32, StreamClosed> {
        engine_priority(&self.inner)
    }
}

/// A stream that receives bytes: exclusively owns the engine's inbound
/// handle.
pub struct RecvStream {
    /// The engine's inbound handle, exposed for the suspending
    /// byte-transfer operations that an embedding runtime drives directly.
    pub inner: EngineRecvHandle,
}

impl RecvStream {
    /// Wrap an engine inbound handle.
    pub fn new(stream: EngineRecvHandle) -> RecvStream {
        RecvStream { inner: stream }
    }

    /// Tell the peer to stop sending. The application code is translated
    /// into the HTTP/3 reserved sub-space before it reaches the wire; the
    /// translation is total, so this never fails on the code itself, only
    /// when stop-sending is no longer meaningful for the stream.
    pub fn stop(&mut self, code: u32) -> Result<(), StreamClosed> {
        let wire = to_wire(code);
        engine_stop(&mut self.inner, wire)
    }
}

/// What a completed stopped-await surfaces: on success the peer's stop code
/// translated into the application domain, with `None` for a code outside
/// the WebTransport sub-space; on failure the wrapped cause, which never
/// carries a code.
pub open spec fn spec_stopped_outcome(res: Result<u64, EngineStoppedError>) -> Result<
    Option<u32>,
    StoppedError,
> {
    match res {
        Ok(w) => Ok(app_of(w as int)),
        Err(e) => Err(spec_stopped_error(e)),
    }
}

/// Decide what a stopped-await returns once the engine has resolved it:
/// the translated application code on success, the wrapped failure
/// otherwise.
pub fn stopped_outcome(res: Result<u64, EngineStoppedError>) -> (r: Result<
    Option<u32>,
    StoppedError,
>)
    ensures
        r == spec_stopped_outcome(res),
{
    match res {
        Ok(w) => Ok(from_wire(w)),
        Err(e) => Err(StoppedError::from_engine(e)),
    }
}

/// One engine outcome while a read-exact operation fills its buffer.
#[derive(Debug, Clone, Copy, PartialEq, Eq)]
pub enum ReadEvent {
    /// A read delivered this many bytes.
    Data(usize),
    /// The stream ended cleanly.
    End,
    /// The engine failed the read.
    Fail(EngineReadError),
}

/// The decision after one read-exact event.
#[derive(Debug, Clone, Copy, PartialEq, Eq)]
pub enum ReadExactStep {
    /// Keep reading: this many bytes are now filled.
    More(usize),
    /// The buffer is full.
    Done,
    /// The operation failed.
    Fail(ReadExactError),
}

/// The outcome a read-exact operation owes after `filled` of `target`
/// bytes have arrived and the engine reports `ev`: a clean end before the
/// buffer is full becomes the early-finish failure carrying the count of
/// bytes that did arrive, and an engine failure is translated like any
/// read failure.
pub open spec fn spec_read_exact_step(filled: int, target: int, ev: ReadEvent) -> ReadExactStep {
    match ev {
        ReadEvent::Data(n) => {
            if filled + n == target {
                ReadExactStep::Done
            } else {
                ReadExactStep::More((filled + n) as usize)
            }
        },
        ReadEvent::End => ReadExactStep::Fail(ReadExactError::FinishedEarly(filled as usize)),
        ReadEvent::Fail(e) => ReadExactStep::Fail(ReadExactError::Read(spec_read_error(e))),
    }
}

/// Decide how a read-exact operation proceeds after one engine outcome.
///
/// The driving loop starts at `filled == 0`, reads into the unfilled part
/// of its buffer, and follows the decision: `More` continues at the new
/// fill count, `Done` and `Fail` end the operation.
pub fn read_exact_step(filled: usize, target: usize, ev: ReadEvent) -> (r: ReadExactStep)
    requires
        filled < target,
        ev matches ReadEvent::Data(n) ==> 0 < n <= target - filled,
    ensures
        r == spec_read_exact_step(filled as int, target as int, ev),
{
    match ev {
        ReadEvent::Data(n) => {
            let now: usize = filled + n;
            if now == target {
                ReadExactStep::Done
            } else {
                ReadExactStep::More(now)
            }
        },
        ReadEvent::End => ReadExactStep::Fail(ReadExactError::FinishedEarly(filled)),
        ReadEvent::Fail(e) => ReadExactStep::Fail(ReadExactError::Read(ReadError::from_engine(e))),
    }
}

} // verus!
