//! Single-precision IEEE-754 values seen through their bit patterns.
//!
//! Every quantity of the library is a binary32 float. The library keeps it as
//! the `u32` that `to_bits` gives, and states what it needs of the value over
//! that pattern: the class (NaN, infinite, zero), the sign, and the numeric
//! order, in which `-0.0` and `+0.0` are equal.
use vstd::prelude::*;

verus! {

/// Bits of the magnitude: everything but the sign.
pub const MAGNITUDE_MASK: u32 = 0x7fff_ffff;

/// Pattern of positive infinity.
pub const INFINITY: u32 = 0x7f80_0000;

/// Pattern of `+0.0`.
pub const ZERO: u32 = 0;

/// Pattern of `1.0`.
pub const ONE: u32 = 0x3f80_0000;

/// Pattern of `-1.0`.
pub const NEG_ONE: u32 = 0xbf80_0000;

pub open spec fn magnitude(b: u32) -> u32 {
    b & 0x7fff_ffff
}

pub open spec fn sign_negative(b: u32) -> bool {
    b >= 0x8000_0000
}

pub open spec fn is_nan(b: u32) -> bool {
    magnitude(b) > 0x7f80_0000
}

pub open spec fn is_infinite(b: u32) -> bool {
    magnitude(b) == 0x7f80_0000
}

pub open spec fn is_finite(b: u32) -> bool {
    magnitude(b) < 0x7f80_0000
}

pub open spec fn is_zero(b: u32) -> bool {
    magnitude(b) == 0
}

/// Where a non-NaN value stands on the number line: the patterns of positive
/// values grow with the value, those of negative ones with its magnitude.
pub open spec fn rank(b: u32) -> int {
    if sign_negative(b) {
        -(magnitude(b) as int)
    } else {
        magnitude(b) as int
    }
}

/// `a < b` as floats, for non-NaN operands.
pub open spec fn less(a: u32, b: u32) -> bool {
    rank(a) < rank(b)
}

/// `a == b` as floats, for non-NaN operands.
pub open spec fn same(a: u32, b: u32) -> bool {
    rank(a) == rank(b)
}

/// How `partial_cmp` orders two non-NaN values.
pub open spec fn order(a: u32, b: u32) -> core::cmp::Ordering {
    if less(a, b) {
        core::cmp::Ordering::Less
    } else if less(b, a) {
        core::cmp::Ordering::Greater
    } else {
        core::cmp::Ordering::Equal
    }
}

/// The value that `max_by` with the numeric order picks: the greatest, and of
/// equal ones the last; `+0.0` where there is none.
pub open spec fn widest(s: Seq<u32>) -> u32
    decreases s.len(),
{
    if s.len() == 0 {
        ZERO
    } else if s.len() == 1 {
        s[0]
    } else {
        let m = widest(s.drop_last());
        if less(s.last(), m) {
            m
        } else {
            s.last()
        }
    }
}

/// Facts of the constants that the bounds are written with.
pub proof fn lemma_constants()
    ensures
        rank(ZERO) == 0,
        rank(ONE) == 0x3f80_0000,
        rank(NEG_ONE) == -0x3f80_0000,
        is_finite(ZERO) && is_finite(ONE) && is_finite(NEG_ONE),
{
    assert(0u32 & 0x7fff_ffff == 0) by (bit_vector);
    assert(0x3f80_0000u32 & 0x7fff_ffff == 0x3f80_0000) by (bit_vector);
    assert(0xbf80_0000u32 & 0x7fff_ffff == 0x3f80_0000) by (bit_vector);
}

/// Values of equal standing on the number line, neither of them negative,
/// have one pattern.
pub proof fn lemma_same_nonnegative(a: u32, b: u32)
    requires
        !sign_negative(a),
        !sign_negative(b),
        same(a, b),
    ensures
        a == b,
{
    assert(a < 0x8000_0000 ==> a & 0x7fff_ffff == a) by (bit_vector);
    assert(b < 0x8000_0000 ==> b & 0x7fff_ffff == b) by (bit_vector);
}

/// The patterns of zero: `+0.0` and `-0.0`.
pub proof fn lemma_zero(b: u32)
    ensures
        is_zero(b) <==> (b == 0 || b == 0x8000_0000),
        rank(b) == 0 <==> is_zero(b),
{
    assert(b & 0x7fff_ffff == 0 <==> (b == 0 || b == 0x8000_0000)) by (bit_vector);
}

pub fn magnitude_of(b: u32) -> (r: u32)
    ensures
        r == magnitude(b),
{
    b & MAGNITUDE_MASK
}

pub fn nan(b: u32) -> (r: bool)
    ensures
        r == is_nan(b),
{
    magnitude_of(b) > INFINITY
}

pub fn infinite(b: u32) -> (r: bool)
    ensures
        r == is_infinite(b),
{
    magnitude_of(b) == INFINITY
}

pub fn rank_of(b: u32) -> (r: i64)
    ensures
        r == rank(b),
{
    let m = magnitude_of(b);
    if b >= 0x8000_0000 {
        -(m as i64)
    } else {
        m as i64
    }
}

/// `a < b` as floats.
pub fn less_than(a: u32, b: u32) -> (r: bool)
    ensures
        r == less(a, b),
{
    rank_of(a) < rank_of(b)
}

/// `a == b` as floats.
pub fn equal(a: u32, b: u32) -> (r: bool)
    ensures
        r == same(a, b),
{
    rank_of(a) == rank_of(b)
}

/// Compares two non-NaN values as `partial_cmp` does.
pub fn compare(a: u32, b: u32) -> (r: core::cmp::Ordering)
    ensures
        r == order(a, b),
{
    let x = rank_of(a);
    let y = rank_of(b);
    if x < y {
        core::cmp::Ordering::Less
    } else if y < x {
        core::cmp::Ordering::Greater
    } else {
        core::cmp::Ordering::Equal
    }
}

/// The largest of a list of sizes, as a container measures its cross axis.
pub fn widest_of(sizes: &Vec<u32>) -> (r: u32)
    ensures
        r == widest(sizes@),
{
    if sizes.len() == 0 {
        return ZERO;
    }
    let mut best = sizes[0];
    let mut i: usize = 1;
    while i < sizes.len()
        invariant
            1 <= i <= sizes.len(),
            best == widest(sizes@.subrange(0, i as int)),
        decreases sizes.len() - i,
    {
        let x = sizes[i];
        proof {
            let t = sizes@.subrange(0, i + 1);
            assert(t.drop_last() =~= sizes@.subrange(0, i as int));
        }
        if !less_than(x, best) {
            best = x;
        }
        i = i + 1;
    }
    proof {
        assert(sizes@.subrange(0, sizes@.len() as int) =~= sizes@);
    }
    best
}

/// The cross-axis measure bounds every entry from above and is one of them
/// (or `+0.0` when there are none).
pub proof fn lemma_widest_bounds(s: Seq<u32>)
    ensures
        forall|i: int| 0 <= i < s.len() ==> !less(#[trigger] widest(s), s[i]),
        s.len() == 0 ==> widest(s) == ZERO,
        s.len() > 0 ==> exists|i: int| 0 <= i < s.len() && s[i] == widest(s),
    decreases s.len(),
{
    if s.len() > 1 {
        let p = s.drop_last();
        lemma_widest_bounds(p);
        let j = choose|j: int| 0 <= j < p.len() && p[j] == widest(p);
        assert(forall|i: int| 0 <= i < p.len() ==> s[i] == p[i]);
        if less(s.last(), widest(p)) {
            assert(s[j] == widest(s));
        } else {
            assert(s[s.len() - 1] == widest(s));
        }
    } else if s.len() == 1 {
        assert(s[0] == widest(s));
    }
}

} // verus!
