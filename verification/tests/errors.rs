use webtransport_quinn::{
    to_wire, EngineReadError, EngineReadToEndError, EngineStoppedError, EngineWriteError,
    ReadError, ReadToEndError, StoppedError, WriteError,
};
use webtransport_quinn::stream::stopped_outcome;

#[test]
fn write_stopped_code_in_space_is_translated() {
    let wire = to_wire(7);
    assert_eq!(
        WriteError::from_engine(EngineWriteError::Stopped(wire)),
        WriteError::Stopped(Some(7))
    );
}

#[test]
fn write_stopped_code_outside_space_is_bare() {
    // 0x10 is far below the reserved sub-space
    assert_eq!(
        WriteError::from_engine(EngineWriteError::Stopped(0x10)),
        WriteError::Stopped(None)
    );
    // a GREASE position inside the sub-space maps to no code either
    assert_eq!(
        WriteError::from_engine(EngineWriteError::Stopped(0x52e4a40fa8db + 0x1e)),
        WriteError::Stopped(None)
    );
}

#[test]
fn write_error_plain_causes_pass_through() {
    assert_eq!(
        WriteError::from_engine(EngineWriteError::ConnectionLost),
        WriteError::ConnectionLost
    );
    assert_eq!(
        WriteError::from_engine(EngineWriteError::UnknownStream),
        WriteError::ClosedStream
    );
    assert_eq!(
        WriteError::from_engine(EngineWriteError::ZeroRttRejected),
        WriteError::ZeroRttRejected
    );
}

#[test]
fn read_reset_by_stopping_peer_carries_the_code() {
    // the application stopped its receive side with code 42; the peer answers
    // by resetting its send side with the translated wire code; the pending
    // read surfaces the original application code
    let wire = to_wire(42);
    assert_eq!(
        ReadError::from_engine(EngineReadError::Reset(wire)),
        ReadError::Reset(Some(42))
    );
}

#[test]
fn read_reset_outside_space_carries_no_code() {
    // a peer that is not WebTransport-aware resets with a code of its own
    assert_eq!(
        ReadError::from_engine(EngineReadError::Reset(0x10)),
        ReadError::Reset(None)
    );
    assert_eq!(
        ReadError::from_engine(EngineReadError::Reset(u64::MAX)),
        ReadError::Reset(None)
    );
}

#[test]
fn read_error_plain_causes_pass_through() {
    assert_eq!(
        ReadError::from_engine(EngineReadError::ConnectionLost),
        ReadError::ConnectionLost
    );
    assert_eq!(
        ReadError::from_engine(EngineReadError::UnknownStream),
        ReadError::ClosedStream
    );
    assert_eq!(
        ReadError::from_engine(EngineReadError::IllegalOrderedRead),
        ReadError::IllegalOrderedRead
    );
    assert_eq!(
        ReadError::from_engine(EngineReadError::ZeroRttRejected),
        ReadError::ZeroRttRejected
    );
}

#[test]
fn stopped_error_pass_through() {
    assert_eq!(
        StoppedError::from_engine(EngineStoppedError::ConnectionLost),
        StoppedError::ConnectionLost
    );
    assert_eq!(
        StoppedError::from_engine(EngineStoppedError::UnknownStream),
        StoppedError::ClosedStream
    );
    assert_eq!(
        StoppedError::from_engine(EngineStoppedError::ZeroRttRejected),
        StoppedError::ZeroRttRejected
    );
}

#[test]
fn read_to_end_limit_exceeded_stays_distinct() {
    assert_eq!(
        ReadToEndError::from_engine(EngineReadToEndError::TooLong),
        ReadToEndError::TooLong
    );
}

#[test]
fn read_to_end_reset_is_translated() {
    let wire = to_wire(3);
    assert_eq!(
        ReadToEndError::from_engine(EngineReadToEndError::Read(EngineReadError::Reset(wire))),
        ReadToEndError::Read(ReadError::Reset(Some(3)))
    );
}

#[test]
fn stopped_outcome_translates_the_peer_code() {
    let wire = to_wire(42);
    assert_eq!(stopped_outcome(Ok(wire)), Ok(Some(42)));
    // a peer outside the WebTransport space delivers no application code
    assert_eq!(stopped_outcome(Ok(0x10)), Ok(None));
    assert_eq!(
        stopped_outcome(Err(EngineStoppedError::ConnectionLost)),
        Err(StoppedError::ConnectionLost)
    );
}
