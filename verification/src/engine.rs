//! Trusted boundary to the engine's stream primitives.
//!
//! Each handle struct here is opaque to verification and holds the engine's
//! own stream handle; the embedding runtime reaches the engine through the
//! public field. Each primitive that this layer calls without suspending
//! stands behind one wrapper whose contract is what the engine's own source
//! shows of it.

use crate::error::StreamClosed;
use vstd::prelude::*;

verus! {

/// The engine's outbound stream handle. Opaque to verification; the field
/// is public so that the embedding runtime can wrap a handle and drive the
/// suspending byte-transfer operations directly.
#[verifier::external_body]
pub struct EngineSendHandle {
    /// The engine's own handle.
    pub handle: quinn::SendStream,
}

/// The engine's inbound stream handle. Opaque to verification; the field
/// is public so that the embedding runtime can wrap a handle and drive the
/// suspending byte-transfer operations directly.
#[verifier::external_body]
pub struct EngineRecvHandle {
    /// The engine's own handle.
    pub handle: quinn::RecvStream,
}

/// Relies on quinn::SendStream::reset: issues a stream reset carrying the
/// given wire code. Fails when the stream was already finished or reset; on
/// a stream whose 0-RTT data was rejected the engine reports success
/// without resetting. quinn::VarInt::try_from accepts every value below
/// 2^62.
#[verifier::external_body]
pub(crate) fn engine_reset(stream: &mut EngineSendHandle, code: u64) -> (r: Result<
    (),
    StreamClosed,
>)
    requires
        code < 0x4000000000000000,
{
    let code = quinn::VarInt::try_from(code).unwrap();
    match stream.handle.reset(code) {
        Ok(()) => Ok(()),
        Err(_) => Err(StreamClosed),
    }
}

/// Relies on quinn::SendStream::set_priority: records the new priority,
/// and fails exactly when the stream is no longer controllable.
#[verifier::external_body]
pub(crate) fn engine_set_priority(stream: &EngineSendHandle, order: i32) -> (r: Result<
    (),
    StreamClosed,
>) {
    match stream.handle.set_priority(order) {
        Ok(()) => Ok(()),
        Err(_) => Err(StreamClosed),
    }
}

/// Relies on quinn::SendStream::priority: returns the current priority,
/// and fails exactly when the stream is no longer controllable.
#[verifier::external_body]
pub(crate) fn engine_priority(stream: &EngineSendHandle) -> (r: Result<i32, StreamClosed>) {
    match stream.handle.priority() {
        Ok(order) => Ok(order),
        Err(_) => Err(StreamClosed),
    }
}

/// Relies on quinn::RecvStream::stop: asks the peer to cease sending,
/// carrying the given wire code, and discards unread data. Fails when the
/// stream was already stopped, fully read, or reset; on a stream whose
/// 0-RTT data was rejected the engine reports success without stopping.
/// quinn::VarInt::try_from accepts every value below 2^62.
#[verifier::external_body]
pub(crate) fn engine_stop(stream: &mut EngineRecvHandle, code: u64) -> (r: Result<
    (),
    StreamClosed,
>)
    requires
        code < 0x4000000000000000,
{
    let code = quinn::VarInt::try_from(code).unwrap();
    match stream.handle.stop(code) {
        Ok(()) => Ok(()),
        Err(_) => Err(StreamClosed),
    }
}

} // verus!
