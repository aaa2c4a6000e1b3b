use webtransport_quinn::proto::{ERROR_FIRST, ERROR_LAST};
use webtransport_quinn::{from_wire, to_wire};

#[test]
fn round_trip_small_codes() {
    for c in 0u32..200 {
        assert_eq!(from_wire(to_wire(c)), Some(c));
    }
}

#[test]
fn round_trip_edge_codes() {
    for c in [
        0u32,
        1,
        29,
        30,
        31,
        59,
        60,
        61,
        0x1e,
        0x1f,
        42,
        0xffff,
        0x7fff_ffff,
        u32::MAX - 1,
        u32::MAX,
    ] {
        assert_eq!(from_wire(to_wire(c)), Some(c));
    }
}

#[test]
fn to_wire_exact_values() {
    assert_eq!(to_wire(0), 0x52e4a40fa8db);
    assert_eq!(to_wire(1), 0x52e4a40fa8db + 1);
    // code 0x1e steps over the first GREASE position of the sub-space
    assert_eq!(to_wire(0x1e), 0x52e4a40fa8db + 0x1f);
    assert_eq!(to_wire(u32::MAX), 0x52e5ac983162);
}

#[test]
fn to_wire_matches_engine_encoding() {
    // the published WebTransport encoding must be reproduced on the wire
    for c in [0u32, 1, 29, 30, 31, 42, 0x1e, 0xffff, u32::MAX] {
        assert_eq!(to_wire(c), webtransport_proto::error_to_http3(c));
    }
}

#[test]
fn to_wire_stays_in_reserved_space() {
    for c in [0u32, 1, 42, 0x1e, 0xffff_ffff] {
        let w = to_wire(c);
        assert!((ERROR_FIRST..=ERROR_LAST).contains(&w));
        // never a GREASE position
        assert_ne!((w - ERROR_FIRST) % 0x1f, 0x1e);
    }
}

#[test]
fn from_wire_outside_space_is_none() {
    assert_eq!(from_wire(0), None);
    assert_eq!(from_wire(1), None);
    assert_eq!(from_wire(ERROR_FIRST - 1), None);
    assert_eq!(from_wire(ERROR_LAST + 1), None);
    assert_eq!(from_wire(u64::MAX), None);
}

#[test]
fn from_wire_grease_positions_are_none() {
    assert_eq!(from_wire(ERROR_FIRST + 0x1e), None);
    assert_eq!(from_wire(ERROR_FIRST + 0x1e + 0x1f), None);
    assert_eq!(from_wire(ERROR_FIRST + 0x1e + 2 * 0x1f), None);
}

#[test]
fn from_wire_bounds_decode() {
    assert_eq!(from_wire(ERROR_FIRST), Some(0));
    assert_eq!(from_wire(ERROR_LAST), Some(u32::MAX));
}
