//! Geographic coordinates and the parser for the comma-separated
//! `"lat,long"` location string returned by the IP geolocation lookup.
//!
//! Coordinates are held in micro-degrees (millionths of a degree). A
//! coordinate token is an optional sign, one to nine integer digits, and
//! optionally a decimal point followed by at least one digit; fraction
//! digits beyond the sixth are ignored. Anything after a second comma is
//! ignored, as only the first two fields are read.

use vstd::prelude::*;

use crate::errors::RefreshError;

verus! {

/// A parsed geographic position, in micro-degrees.
#[derive(Debug, Clone, Copy, PartialEq, Eq, Structural)]
pub struct Coordinates {
    pub latitude_micro: i64,
    pub longitude_micro: i64,
}

/// Whether `b` is an ASCII decimal digit.
pub open spec fn is_ascii_digit(b: u8) -> bool {
    48 <= b <= 57
}

/// Whether every byte of `s` is an ASCII decimal digit.
pub open spec fn all_digits(s: Seq<u8>) -> bool {
    forall|i: int| 0 <= i < s.len() ==> is_ascii_digit(#[trigger] s[i])
}

/// The number denoted by a sequence of decimal digits, most significant
/// first.
pub open spec fn digits_value(s: Seq<u8>) -> int
    decreases s.len(),
{
    if s.len() == 0 {
        0
    } else {
        digits_value(s.drop_last()) * 10 + (s.last() - 48)
    }
}

/// Ten raised to the given power.
pub open spec fn pow10(n: nat) -> int
    decreases n,
{
    if n == 0 {
        1
    } else {
        10 * pow10((n - 1) as nat)
    }
}

/// The index of the first occurrence of `t` in `s`, or the length of `s`
/// if it does not occur.
pub open spec fn first_index(s: Seq<u8>, t: u8) -> int
    decreases s.len(),
{
    if s.len() == 0 {
        0
    } else if s[0] == t {
        0
    } else {
        1 + first_index(s.drop_first(), t)
    }
}

/// The value of a digit string is below ten to its length.
pub proof fn lemma_digits_value_bound(s: Seq<u8>)
    requires
        all_digits(s),
    ensures
        0 <= digits_value(s) < pow10(s.len()),
    decreases s.len(),
{
    if s.len() > 0 {
        assert(all_digits(s.drop_last()));
        lemma_digits_value_bound(s.drop_last());
    }
}

/// Any index with the first-occurrence properties is `first_index`.
pub proof fn lemma_first_index_unique(s: Seq<u8>, t: u8, i: int)
    requires
        0 <= i <= s.len(),
        forall|j: int| 0 <= j < i ==> s[j] != t,
        i < s.len() ==> s[i] == t,
    ensures
        first_index(s, t) == i,
    decreases s.len(),
{
    if s.len() > 0 && s[0] != t {
        assert(i >= 1);
        lemma_first_index_unique(s.drop_first(), t, i - 1);
    }
}

/// Validity of an unsigned coordinate token: one to nine integer digits,
/// optionally followed by a decimal point and at least one digit.
pub open spec fn unsigned_coord_valid(s: Seq<u8>) -> bool {
    let d = first_index(s, 46);
    &&& 1 <= d <= 9
    &&& all_digits(s.take(d))
    &&& (d == s.len() || (d + 1 < s.len() && all_digits(s.skip(d + 1))))
}

/// The fraction digits scaled to micro-units: the first six digits, padded
/// with zeros up to six.
pub open spec fn frac_micro(s: Seq<u8>) -> int {
    if s.len() >= 6 {
        digits_value(s.take(6))
    } else {
        digits_value(s) * pow10((6 - s.len()) as nat)
    }
}

/// The value of an unsigned coordinate token, in micro-units.
pub open spec fn unsigned_coord_micro(s: Seq<u8>) -> int {
    let d = first_index(s, 46);
    digits_value(s.take(d)) * 1_000_000 + if d == s.len() {
        0
    } else {
        frac_micro(s.skip(d + 1))
    }
}

/// Validity of a coordinate token: an unsigned token with an optional
/// leading sign.
pub open spec fn coord_valid(s: Seq<u8>) -> bool {
    if s.len() >= 1 && (s[0] == 45 || s[0] == 43) {
        unsigned_coord_valid(s.drop_first())
    } else {
        unsigned_coord_valid(s)
    }
}

/// The value of a coordinate token, in micro-units.
pub open spec fn coord_micro(s: Seq<u8>) -> int {
    if s.len() >= 1 && s[0] == 45 {
        -unsigned_coord_micro(s.drop_first())
    } else if s.len() >= 1 && s[0] == 43 {
        unsigned_coord_micro(s.drop_first())
    } else {
        unsigned_coord_micro(s)
    }
}

/// Validity of a location string: a coordinate, a comma, and a second
/// coordinate; anything after a further comma is ignored.
pub open spec fn loc_valid(s: Seq<u8>) -> bool {
    let c = first_index(s, 44);
    let rest = s.skip(c + 1);
    &&& c < s.len()
    &&& coord_valid(s.take(c))
    &&& coord_valid(rest.take(first_index(rest, 44)))
}

/// The latitude denoted by a valid location string, in micro-degrees.
pub open spec fn loc_lat_micro(s: Seq<u8>) -> int {
    coord_micro(s.take(first_index(s, 44)))
}

/// The longitude denoted by a valid location string, in micro-degrees.
pub open spec fn loc_lon_micro(s: Seq<u8>) -> int {
    let rest = s.skip(first_index(s, 44) + 1);
    coord_micro(rest.take(first_index(rest, 44)))
}

/// Scans `s` between `from` and `to` for the first occurrence of
/// `target`.
fn find_byte(s: &[u8], from: usize, to: usize, target: u8) -> (i: usize)
    requires
        from <= to <= s@.len(),
    ensures
        from <= i <= to,
        forall|j: int| from <= j < i ==> s@[j] != target,
        i < to ==> s@[i as int] == target,
{
    let mut i = from;
    while i < to
        invariant
            from <= i <= to <= s@.len(),
            forall|j: int| from <= j < i ==> s@[j] != target,
        decreases to - i,
    {
        if s[i] == target {
            return i;
        }
        i += 1;
    }
    i
}

/// Checks that every byte of `s` between `from` and `to` is a decimal
/// digit.
fn check_digits(s: &[u8], from: usize, to: usize) -> (ok: bool)
    requires
        from <= to <= s@.len(),
    ensures
        ok == all_digits(s@.subrange(from as int, to as int)),
{
    let ghost part = s@.subrange(from as int, to as int);
    let mut i = from;
    while i < to
        invariant
            from <= i <= to <= s@.len(),
            part == s@.subrange(from as int, to as int),
            forall|j: int| 0 <= j < i - from ==> is_ascii_digit(#[trigger] part[j]),
        decreases to - i,
    {
        let b = s[i];
        if b < 48 || b > 57 {
            assert(part[i - from] == s@[i as int]);
            return false;
        }
        assert(part[i - from] == s@[i as int]);
        i += 1;
    }
    true
}

/// Reads the number denoted by the digits of `s` between `from` and `to`.
fn parse_digits(s: &[u8], from: usize, to: usize) -> (v: u64)
    requires
        from <= to <= s@.len(),
        to - from <= 9,
        all_digits(s@.subrange(from as int, to as int)),
    ensures
        v == digits_value(s@.subrange(from as int, to as int)),
        v < pow10((to - from) as nat),
{
    let ghost part = s@.subrange(from as int, to as int);
    let mut v: u64 = 0;
    let mut i = from;
    assert(s@.subrange(from as int, from as int) =~= part.take(0));
    while i < to
        invariant
            from <= i <= to <= s@.len(),
            to - from <= 9,
            part == s@.subrange(from as int, to as int),
            all_digits(part),
            v == digits_value(part.take(i - from)),
            v < pow10((i - from) as nat),
        decreases to - i,
    {
        let b = s[i];
        proof {
            assert(part[i - from] == s@[i as int]);
            assert(is_ascii_digit(part[i - from]));
            assert(part.take(i - from + 1).drop_last() =~= part.take(i - from));
            assert(part.take(i - from + 1).last() == part[i - from]);
            assert(all_digits(part.take(i - from + 1)));
            lemma_digits_value_bound(part.take(i - from + 1));
            lemma_pow10_le(((i - from) + 1) as nat, 9);
            lemma_pow10_values();
        }
        v = v * 10 + (b - 48) as u64;
        i += 1;
    }
    assert(part.take(to - from) =~= part);
    v
}

/// The concrete values of the small powers of ten.
proof fn lemma_pow10_values()
    ensures
        pow10(0) == 1,
        pow10(1) == 10,
        pow10(2) == 100,
        pow10(3) == 1000,
        pow10(4) == 10_000,
        pow10(5) == 100_000,
        pow10(6) == 1_000_000,
        pow10(7) == 10_000_000,
        pow10(8) == 100_000_000,
        pow10(9) == 1_000_000_000,
{
    assert(pow10(0) == 1);
    assert(pow10(1) == 10);
    assert(pow10(2) == 100);
    assert(pow10(3) == 1000);
    assert(pow10(4) == 10_000);
    assert(pow10(5) == 100_000);
    assert(pow10(6) == 1_000_000);
    assert(pow10(7) == 10_000_000);
    assert(pow10(8) == 100_000_000);
    assert(pow10(9) == 1_000_000_000);
}

/// Ten to a smaller power is at most ten to a larger one.
proof fn lemma_pow10_le(a: nat, b: nat)
    requires
        a <= b,
    ensures
        pow10(a) <= pow10(b),
    decreases b,
{
    if a < b {
        lemma_pow10_le(a, (b - 1) as nat);
        assert(pow10(b) == 10 * pow10((b - 1) as nat));
        assert(pow10(a) >= 1) by {
            lemma_pow10_pos(a);
        }
    }
}

/// Ten to any power is positive.
proof fn lemma_pow10_pos(n: nat)
    ensures
        pow10(n) >= 1,
    decreases n,
{
    if n > 0 {
        lemma_pow10_pos((n - 1) as nat);
    }
}

/// Parses the coordinate token of `s` between `from` and `to`, in
/// micro-units, if it is valid.
fn parse_coord_part(s: &[u8], from: usize, to: usize) -> (r: Option<i64>)
    requires
        from <= to <= s@.len(),
    ensures
        r is Some <==> coord_valid(s@.subrange(from as int, to as int)),
        r is Some ==> r->Some_0 == coord_micro(s@.subrange(from as int, to as int)),
{
    let ghost part = s@.subrange(from as int, to as int);
    let mut negative = false;
    let mut bstart = from;
    if from < to && (s[from] == 45 || s[from] == 43) {
        negative = s[from] == 45;
        bstart = from + 1;
    }
    let ghost body = s@.subrange(bstart as int, to as int);
    proof {
        if bstart == from {
            assert(body =~= part);
        } else {
            assert(body =~= part.drop_first());
        }
    }
    // Locate the decimal point.
    let dp = find_byte(s, bstart, to, 46);
    proof {
        assert forall|j: int| 0 <= j < dp - bstart implies body[j] != 46 by {
            assert(body[j] == s@[bstart + j]);
        }
        if dp < to {
            assert(body[dp - bstart] == s@[dp as int]);
        }
        lemma_first_index_unique(body, 46, dp - bstart);
    }
    let ghost d = first_index(body, 46);
    // One to nine integer digits.
    if dp == bstart || dp - bstart > 9 {
        return None;
    }
    assert(body.take(d) =~= s@.subrange(bstart as int, dp as int));
    if !check_digits(s, bstart, dp) {
        return None;
    }
    let int_val = parse_digits(s, bstart, dp);
    // The optional fraction: a decimal point must be followed by at least
    // one digit; digits beyond the sixth are ignored.
    let frac_val: u64 = if dp == to {
        0
    } else {
        if dp + 1 >= to {
            return None;
        }
        assert(body.skip(d + 1) =~= s@.subrange(dp + 1, to as int));
        if !check_digits(s, dp + 1, to) {
            return None;
        }
        let flen = to - (dp + 1);
        let used = if flen > 6 {
            6
        } else {
            flen
        };
        assert(s@.subrange(dp + 1, (dp + 1 + used) as int) =~= if flen >= 6 {
            body.skip(d + 1).take(6)
        } else {
            body.skip(d + 1)
        });
        assert(all_digits(s@.subrange(dp + 1, (dp + 1 + used) as int)));
        let mut fv = parse_digits(s, dp + 1, dp + 1 + used);
        let mut pad = 6 - used;
        proof {
            lemma_pow10_values();
            lemma_pow10_le(used as nat, 6);
        }
        while pad > 0
            invariant
                1 <= used <= 6,
                dp + 1 + used <= to <= s@.len(),
                pad <= 6 - used,
                fv == digits_value(s@.subrange(dp + 1, (dp + 1 + used) as int)) * pow10(
                    ((6 - used) - pad) as nat,
                ),
                fv < pow10((6 - pad) as nat),
            decreases pad,
        {
            proof {
                lemma_pow10_values();
                lemma_pow10_le((6 - pad) as nat, 6);
                assert(pow10((6 - pad + 1) as nat) == 10 * pow10((6 - pad) as nat));
                let dv = digits_value(s@.subrange(dp + 1, (dp + 1 + used) as int));
                let k = ((6 - used) - pad) as nat;
                assert(pow10((k + 1) as nat) == 10 * pow10(k));
                assert(dv * pow10(k) * 10 == dv * pow10((k + 1) as nat)) by (nonlinear_arith)
                    requires pow10((k + 1) as nat) == 10 * pow10(k);
            }
            fv = fv * 10;
            pad -= 1;
        }
        fv
    };
    proof {
        lemma_pow10_values();
        lemma_pow10_le(((dp - bstart)) as nat, 9);
    }
    // frac_val < 10^6 and int_val < 10^9, so the total fits comfortably.
    let magnitude: u64 = int_val * 1_000_000 + frac_val;
    let signed: i64 = if negative {
        -(magnitude as i64)
    } else {
        magnitude as i64
    };
    Some(signed)
}

/// Parses a `"lat,long"` location string into micro-degree coordinates.
/// A malformed string is a refresh-level failure, reported as
/// `MalformedCoordinates`.
pub fn parse_coordinates(s: &[u8]) -> (r: Result<Coordinates, RefreshError>)
    ensures
        r is Ok <==> loc_valid(s@),
        r is Ok ==> r->Ok_0.latitude_micro == loc_lat_micro(s@),
        r is Ok ==> r->Ok_0.longitude_micro == loc_lon_micro(s@),
        r is Err ==> r->Err_0 == RefreshError::MalformedCoordinates,
{
    let n = s.len();
    let c = find_byte(s, 0, n, 44);
    proof {
        lemma_first_index_unique(s@, 44, c as int);
    }
    if c == n {
        return Err(RefreshError::MalformedCoordinates);
    }
    assert(s@.subrange(0, c as int) =~= s@.take(c as int));
    let lat = parse_coord_part(s, 0, c);
    let c2 = find_byte(s, c + 1, n, 44);
    let ghost rest = s@.skip(c + 1);
    proof {
        assert forall|j: int| 0 <= j < c2 - (c + 1) implies rest[j] != 44 by {
            assert(rest[j] == s@[c + 1 + j]);
        }
        if c2 < n {
            assert(rest[c2 - (c + 1)] == s@[c2 as int]);
        }
        lemma_first_index_unique(rest, 44, c2 - (c + 1));
        assert(rest.take(c2 - (c + 1)) =~= s@.subrange(c + 1, c2 as int));
    }
    let lon = parse_coord_part(s, c + 1, c2);
    match (lat, lon) {
        (Some(latitude_micro), Some(longitude_micro)) => Ok(
            Coordinates { latitude_micro, longitude_micro },
        ),
        _ => Err(RefreshError::MalformedCoordinates),
    }
}

} // verus!
