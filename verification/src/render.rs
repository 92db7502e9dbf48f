//! The header renderer: turns a record into its deterministic byte sequence
//! of timestamp, fixed-width level tag, optional source location, and the
//! raw message bytes.

use vstd::prelude::*;
use crate::record::LogRecord;
use crate::record::LocationModel;
use crate::record::RecordModel;
use crate::record::Timestamp;

verus! {

/// ASCII space.
pub const SPACE: u8 = 32;

/// ASCII `[`.
pub const OPEN_BRACKET: u8 = 91;

/// ASCII `]`.
pub const CLOSE_BRACKET: u8 = 93;

/// ASCII `:`.
pub const COLON: u8 = 58;

/// ASCII `-`.
pub const DASH: u8 = 45;

/// ASCII `.`.
pub const DOT: u8 = 46;

/// ASCII `0`.
pub const ZERO: u8 = 48;

/// Decimal digits of `n`, most significant first, without leading zeroes
/// (a single `0` digit for zero).
pub open spec fn dec_rep(n: nat) -> Seq<u8>
    decreases n,
{
    if n < 10 {
        seq![(ZERO + n) as u8]
    } else {
        dec_rep(n / 10).push((ZERO + n % 10) as u8)
    }
}

/// `k` ASCII `0` bytes.
pub open spec fn zero_bytes(k: nat) -> Seq<u8> {
    Seq::new(k, |i: int| ZERO)
}

/// Decimal digits of `n`, zero-padded on the left to at least `width` bytes.
pub open spec fn dec_pad(n: nat, width: nat) -> Seq<u8> {
    if dec_rep(n).len() >= width {
        dec_rep(n)
    } else {
        zero_bytes((width - dec_rep(n).len()) as nat) + dec_rep(n)
    }
}

/// A decimal representation has at least one digit.
pub proof fn lemma_dec_rep_len(n: nat)
    ensures
        dec_rep(n).len() >= 1,
    decreases n,
{
    if n >= 10 {
        lemma_dec_rep_len(n / 10);
    }
}

/// Appends the decimal digits of `n`, zero-padded on the left to `width`.
pub fn push_decimal(out: &mut Vec<u8>, n: u64, width: usize)
    ensures
        final(out)@ == old(out)@ + dec_pad(n as nat, width as nat),
{
    let mut digits: Vec<u8> = Vec::new();
    let mut m: u64 = n;
    while m >= 10
        invariant
            dec_rep(n as nat) == dec_rep(m as nat) + digits@,
        decreases m,
    {
        let ghost pre_m = m as nat;
        let ghost pre_digits = digits@;
        let d: u8 = ZERO + (m % 10) as u8;
        digits.insert(0, d);
        m = m / 10;
        proof {
            assert(m as nat == pre_m / 10);
            assert(d == (ZERO + pre_m % 10) as u8);
            assert(dec_rep(pre_m) == dec_rep(pre_m / 10).push(d));
            assert(digits@ =~= seq![d] + pre_digits);
            assert(dec_rep(pre_m / 10) + digits@ =~= dec_rep(pre_m / 10).push(d) + pre_digits);
        }
    }
    let ghost rest = digits@;
    let last: u8 = ZERO + (m as u8);
    digits.insert(0, last);
    proof {
        assert(dec_rep(m as nat) == seq![last]);
        assert(digits@ =~= dec_rep(m as nat) + rest);
        assert(digits@ =~= dec_rep(n as nat));
    }
    while digits.len() < width
        invariant
            dec_rep(n as nat).len() <= digits@.len(),
            digits@ == zero_bytes((digits@.len() - dec_rep(n as nat).len()) as nat)
                + dec_rep(n as nat),
            dec_rep(n as nat).len() >= width ==> digits@.len() == dec_rep(n as nat).len(),
            dec_rep(n as nat).len() < width ==> digits@.len() <= width,
        decreases width - digits.len(),
    {
        let ghost pre_digits = digits@;
        digits.insert(0, ZERO);
        proof {
            assert(digits@ =~= seq![ZERO] + pre_digits);
            assert(digits@ =~= zero_bytes((digits@.len() - dec_rep(n as nat).len()) as nat)
                + dec_rep(n as nat));
        }
    }
    proof {
        assert(digits@ =~= dec_pad(n as nat, width as nat));
    }
    out.append(&mut digits);
}

/// The year text: the decimal year zero-padded to at least four digits,
/// with a leading `-` when the year is negative.
pub open spec fn spec_year_text(y: int) -> Seq<u8> {
    if y < 0 {
        seq![DASH] + dec_pad((-y) as nat, 4)
    } else {
        dec_pad(y as nat, 4)
    }
}

/// The header timestamp text `YYYY-MM-DD HH:MM:SS.nnnnnnnnn`: each field
/// zero-padded to its fixed width, sub-second precision in nanoseconds.
pub open spec fn spec_timestamp_text(ts: Timestamp) -> Seq<u8> {
    spec_year_text(ts.year as int) + seq![DASH] + dec_pad(ts.month as nat, 2) + seq![DASH]
        + dec_pad(ts.day as nat, 2) + seq![SPACE] + dec_pad(ts.hour as nat, 2) + seq![COLON]
        + dec_pad(ts.minute as nat, 2) + seq![COLON] + dec_pad(ts.second as nat, 2) + seq![DOT]
        + dec_pad(ts.nanos as nat, 9)
}

/// Appends the timestamp text to `out`.
#[verifier::rlimit(100)]
pub fn push_timestamp(out: &mut Vec<u8>, ts: &Timestamp)
    ensures
        final(out)@ == old(out)@ + spec_timestamp_text(*ts),
{
    if ts.year < 0 {
        out.push(DASH);
        let mag: u64 = (-(ts.year as i64)) as u64;
        assert(mag as nat == (-(ts.year as int)) as nat);
        push_decimal(out, mag, 4);
    } else {
        push_decimal(out, ts.year as u64, 4);
    }
    out.push(DASH);
    push_decimal(out, ts.month as u64, 2);
    out.push(DASH);
    push_decimal(out, ts.day as u64, 2);
    out.push(SPACE);
    push_decimal(out, ts.hour as u64, 2);
    out.push(COLON);
    push_decimal(out, ts.minute as u64, 2);
    out.push(COLON);
    push_decimal(out, ts.second as u64, 2);
    out.push(DOT);
    push_decimal(out, ts.nanos as u64, 9);
    assert(out@ =~= old(out)@ + spec_timestamp_text(*ts));
}

/// Appends all of `bytes` to `out`.
pub fn push_bytes(out: &mut Vec<u8>, bytes: &Vec<u8>)
    ensures
        final(out)@ == old(out)@ + bytes@,
{
    let mut i: usize = 0;
    while i < bytes.len()
        invariant
            i <= bytes.len(),
            out@ == old(out)@ + bytes@.take(i as int),
        decreases bytes.len() - i,
    {
        out.push(bytes[i]);
        proof {
            assert(bytes@.take(i + 1 as int) =~= bytes@.take(i as int).push(bytes@[i as int]));
        }
        i = i + 1;
    }
    assert(bytes@.take(bytes@.len() as int) =~= bytes@);
}

/// The optional location segment: a space and `[file:line]` when a location
/// is present and requested, empty otherwise.
pub open spec fn spec_location_text(loc: Option<LocationModel>, show_location: bool) -> Seq<u8> {
    if show_location {
        match loc {
            Some(l) => seq![SPACE, OPEN_BRACKET] + l.file + seq![COLON] + dec_rep(l.line as nat)
                + seq![CLOSE_BRACKET],
            None => Seq::empty(),
        }
    } else {
        Seq::empty()
    }
}

/// The full rendered line: the timestamp text, one space, the bracketed
/// fixed-width level tag, the optional location segment, one space, then
/// the raw message bytes.
pub open spec fn spec_rendered(rec: RecordModel, show_location: bool) -> Seq<u8> {
    spec_timestamp_text(rec.timestamp) + seq![SPACE, OPEN_BRACKET] + rec.severity.tag()
        + seq![CLOSE_BRACKET] + spec_location_text(rec.location, show_location) + seq![SPACE]
        + rec.message
}

/// Header layout law: a rendered line holds the timestamp text, one space,
/// the bracketed fixed-width level tag, the optional location segment, one
/// space, and the raw message bytes, in that order at fixed offsets.
#[verifier::rlimit(100)]
pub proof fn lemma_rendered_layout(rec: RecordModel, show_location: bool)
    ensures
        ({
            let r = spec_rendered(rec, show_location);
            let ts = spec_timestamp_text(rec.timestamp);
            let loc = spec_location_text(rec.location, show_location);
            &&& r.len() == ts.len() + 12 + loc.len() + rec.message.len()
            &&& r.subrange(0, ts.len() as int) == ts
            &&& r[ts.len() as int] == SPACE
            &&& r[ts.len() + 1 as int] == OPEN_BRACKET
            &&& r.subrange(ts.len() + 2 as int, ts.len() + 10 as int) == rec.severity.tag()
            &&& r[ts.len() + 10 as int] == CLOSE_BRACKET
            &&& r.subrange(ts.len() + 11 as int, ts.len() + 11 + loc.len() as int) == loc
            &&& r[ts.len() + 11 + loc.len() as int] == SPACE
            &&& r.subrange(ts.len() + 12 + loc.len() as int, r.len() as int) == rec.message
        }),
{
    let r = spec_rendered(rec, show_location);
    let ts = spec_timestamp_text(rec.timestamp);
    let loc = spec_location_text(rec.location, show_location);
    crate::severity::lemma_tag_width(rec.severity);
    assert(r.subrange(0, ts.len() as int) =~= ts);
    assert(r.subrange(ts.len() + 2 as int, ts.len() + 10 as int) =~= rec.severity.tag());
    assert(r.subrange(ts.len() + 11 as int, ts.len() + 11 + loc.len() as int) =~= loc);
    assert(r.subrange(ts.len() + 12 + loc.len() as int, r.len() as int) =~= rec.message);
}

/// Renders a record into its header and message bytes, and reports whether
/// any message bytes were written.
pub fn render_record(rec: &LogRecord, show_location: bool) -> (r: (Vec<u8>, bool))
    ensures
        r.0@ == spec_rendered(rec@, show_location),
        r.1 == (rec.message@.len() != 0),
{
    let mut out: Vec<u8> = Vec::new();
    push_timestamp(&mut out, &rec.timestamp);
    out.push(SPACE);
    out.push(OPEN_BRACKET);
    rec.severity.push_tag(&mut out);
    out.push(CLOSE_BRACKET);
    if show_location {
        match &rec.location {
            Some(loc) => {
                out.push(SPACE);
                out.push(OPEN_BRACKET);
                push_bytes(&mut out, &loc.file);
                out.push(COLON);
                push_decimal(&mut out, loc.line, 1);
                out.push(CLOSE_BRACKET);
                proof {
                    lemma_dec_rep_len(loc.line as nat);
                }
            },
            None => {},
        }
    }
    out.push(SPACE);
    push_bytes(&mut out, &rec.message);
    assert(out@ =~= spec_rendered(rec@, show_location));
    let nonempty = rec.message.len() != 0;
    (out, nonempty)
}

} // verus!
