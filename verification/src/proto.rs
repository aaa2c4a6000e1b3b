//! Translation between WebTransport application error codes and the HTTP/3
//! reserved error sub-space carried on the QUIC wire.
//!
//! The mapping is a closed-form bijection from the full `u32` space onto the
//! non-GREASE positions of `[ERROR_FIRST, ERROR_LAST]`: an offset plus one
//! extra step for every `0x1e` codes, so that the GREASE positions (every
//! `0x1f`-th value of the sub-space) are skipped.

use vstd::arithmetic::div_mod::{
    lemma_div_is_ordered, lemma_fundamental_div_mod, lemma_fundamental_div_mod_converse,
};
use vstd::prelude::*;

verus! {

/// First wire value of the HTTP/3 reserved sub-space that carries
/// WebTransport application error codes.
pub const ERROR_FIRST: u64 = 0x52e4a40fa8db;

/// Last wire value of that sub-space: the image of `u32::MAX`.
pub const ERROR_LAST: u64 = 0x52e5ac983162;

/// The wire value that encodes application code `c`: the sub-space offset
/// plus `c`, stepped up once more for every `0x1e` codes so that GREASE
/// positions are never produced.
pub open spec fn wire_of(c: int) -> int {
    ERROR_FIRST + c + c / 0x1e
}

/// The application code that wire value `w` decodes to: `None` outside the
/// reserved sub-space and on its GREASE positions (where the offset from
/// `ERROR_FIRST` is `0x1e` modulo `0x1f`).
pub open spec fn app_of(w: int) -> Option<u32> {
    if w < ERROR_FIRST || ERROR_LAST < w {
        None
    } else {
        let s = w - ERROR_FIRST;
        if s % 0x1f == 0x1e {
            None
        } else {
            Some((s - s / 0x1f) as u32)
        }
    }
}

/// Translate a WebTransport application error code into the HTTP/3 wire
/// code that a QUIC stream reset or stop-sending signal carries.
///
/// Total and never failing: every `u32` has a wire image inside the
/// reserved sub-space.
pub fn to_wire(code: u32) -> (w: u64)
    ensures
        w as int == wire_of(code as int),
        ERROR_FIRST <= w <= ERROR_LAST,
        (w - ERROR_FIRST) % 0x1f != 0x1e,
        app_of(w as int) == Some(code),
{
    proof {
        lemma_wire_in_space(code);
        lemma_round_trip(code);
    }
    ERROR_FIRST + code as u64 + code as u64 / 0x1e
}

/// Translate an HTTP/3 wire code back to the WebTransport application code,
/// or `None` when the value lies outside the reserved sub-space or on a
/// GREASE position — the peer then used a code this layer does not map.
///
/// Total and never failing: absence of a mapping is `None`, not an error.
pub fn from_wire(wire: u64) -> (r: Option<u32>)
    ensures
        r == app_of(wire as int),
        r is Some <==> (ERROR_FIRST <= wire <= ERROR_LAST && (wire - ERROR_FIRST) % 0x1f
            != 0x1e),
        r matches Some(c) ==> wire_of(c as int) == wire as int,
{
    if wire < ERROR_FIRST || ERROR_LAST < wire {
        return None;
    }
    let s = wire - ERROR_FIRST;
    if s % 0x1f == 0x1e {
        return None;
    }
    proof {
        lemma_wire_round_trip(wire);
    }
    Some((s - s / 0x1f) as u32)
}

/// Translation lands inside the reserved sub-space and never on a GREASE
/// position.
pub proof fn lemma_wire_in_space(c: u32)
    ensures
        ERROR_FIRST <= wire_of(c as int) <= ERROR_LAST,
        (wire_of(c as int) - ERROR_FIRST) % 0x1f != 0x1e,
{
    let ci = c as int;
    lemma_fundamental_div_mod(ci, 0x1e);
    let d = ci / 0x1e;
    let r = ci % 0x1e;
    let s = ci + d;
    assert(s == 0x1f * d + r);
    lemma_fundamental_div_mod_converse(s, 0x1f, d, r);
    lemma_div_is_ordered(ci, 0xffffffff, 0x1e);
}

/// Round-trip law: decoding the translation of any application code gives
/// that code back.
pub proof fn lemma_round_trip(c: u32)
    ensures
        app_of(wire_of(c as int)) == Some(c),
{
    let ci = c as int;
    lemma_wire_in_space(c);
    lemma_fundamental_div_mod(ci, 0x1e);
    let d = ci / 0x1e;
    let r = ci % 0x1e;
    let s = ci + d;
    assert(s == 0x1f * d + r);
    lemma_fundamental_div_mod_converse(s, 0x1f, d, r);
    assert(s - s / 0x1f == ci);
}

/// Domain exclusion: a wire value outside the reserved sub-space never
/// decodes to an application code.
pub proof fn lemma_outside_space(w: u64)
    requires
        w < ERROR_FIRST || ERROR_LAST < w,
    ensures
        app_of(w as int) is None,
{
}

/// The decoded value of any in-space, non-GREASE wire code fits in 32 bits,
/// and encoding it again restores the wire code: decoding is exactly the
/// partial inverse of `to_wire`, so `from_wire` answers `Some` only on the
/// image of `to_wire`.
pub proof fn lemma_wire_round_trip(w: u64)
    requires
        ERROR_FIRST <= w <= ERROR_LAST,
        (w - ERROR_FIRST) % 0x1f != 0x1e,
    ensures
        app_of(w as int) is Some,
        wire_of(app_of(w as int)->Some_0 as int) == w as int,
{
    let s = w as int - ERROR_FIRST;
    lemma_fundamental_div_mod(s, 0x1f);
    let q = s / 0x1f;
    let t = s % 0x1f;
    let c = s - q;
    assert(c == 0x1e * q + t);
    if q == 143165576 {
        assert(t <= 15);
    } else {
        assert(q <= 143165575);
    }
    assert(0 <= c < 0x100000000);
    assert(t < 0x1e);
    lemma_fundamental_div_mod_converse(c, 0x1e, q, t);
    assert(wire_of(c) == w as int);
}

} // verus!
