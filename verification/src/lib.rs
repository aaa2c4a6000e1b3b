//! Stream adapter layer between a generic QUIC engine and the
//! WebTransport-over-HTTP/3 application layer.
//!
//! WebTransport applications attach 32-bit error codes to stream resets and
//! stop-sending signals, but the wire carries QUIC variable-length integers
//! drawn from an HTTP/3-reserved sub-space. This crate translates between the
//! two domains, wraps the engine's send and receive stream handles, and
//! surfaces every failure through a closed error taxonomy.

pub mod engine;
pub mod error;
pub mod proto;
pub mod stream;

pub use error::{
    EngineReadError, EngineReadToEndError, EngineStoppedError, EngineWriteError, ReadError,
    ReadExactError, ReadToEndError, StoppedError, StreamClosed, WriteError,
};
pub use engine::{EngineRecvHandle, EngineSendHandle};
pub use proto::{from_wire, to_wire};
pub use stream::{ReadEvent, ReadExactStep, RecvStream, SendStream};
