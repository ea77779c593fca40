//! Single-precision numbers as 32-bit IEEE-754 words.
//!
//! A word is a sign bit, eight exponent bits and twenty-three fraction bits.
//! Among the words that are numbers, the magnitude bits read as an integer grow
//! with the magnitude of the number, so a signed `rank` orders them as the
//! numbers themselves are ordered. The two zeros share rank 0.

use vstd::prelude::*;

verus! {

/// The word of `0.0`.
pub const ZERO: u32 = 0x0000_0000;

/// The word of `1.0`.
pub const ONE: u32 = 0x3F80_0000;

/// The word of positive infinity; every larger magnitude is not a number.
pub const INFINITY: u32 = 0x7F80_0000;

/// The lowest word with the sign bit set, the word of `-0.0`.
pub const SIGN: u32 = 0x8000_0000;

/// The word without its sign bit.
pub open spec fn magnitude(w: u32) -> int {
    if w >= SIGN {
        w - SIGN
    } else {
        w as int
    }
}

/// Whether the word encodes no number.
pub open spec fn is_nan(w: u32) -> bool {
    magnitude(w) > INFINITY
}

/// The place of a word in the order of the numbers: for words `a` and `b` that
/// are numbers, `rank(a) < rank(b)` exactly when the number of `a` is below
/// that of `b`.
pub open spec fn rank(w: u32) -> int {
    if w >= SIGN {
        -magnitude(w)
    } else {
        magnitude(w)
    }
}

/// Whether `w` is a number that lies between the numbers `low` and `high`,
/// bounds included.
pub open spec fn within(w: u32, low: u32, high: u32) -> bool {
    !is_nan(w) && rank(low) <= rank(w) <= rank(high)
}

/// What `clamp` stores for `w`: `w` itself inside the range, the nearer bound
/// outside it, and the lower bound for a word that is no number.
pub open spec fn clamped(w: u32, low: u32, high: u32) -> u32 {
    if is_nan(w) || rank(w) < rank(low) {
        low
    } else if rank(w) > rank(high) {
        high
    } else {
        w
    }
}

/// Whether `low` and `high` can bound a range: both are numbers and `low` is
/// not above `high`.
pub open spec fn is_range(low: u32, high: u32) -> bool {
    !is_nan(low) && !is_nan(high) && rank(low) <= rank(high)
}

/// Tells whether the word encodes no number.
pub fn word_is_nan(w: u32) -> (r: bool)
    ensures
        r == is_nan(w),
{
    if w >= SIGN {
        w - SIGN > INFINITY
    } else {
        w > INFINITY
    }
}

/// Computes the rank of a word.
pub fn word_rank(w: u32) -> (r: i64)
    ensures
        r == rank(w),
{
    if w >= SIGN {
        let m: u32 = w - SIGN;
        0i64 - (m as i64)
    } else {
        w as i64
    }
}

/// Brings a word into the range from `low` to `high`.
pub fn clamp(w: u32, low: u32, high: u32) -> (r: u32)
    requires
        is_range(low, high),
    ensures
        r == clamped(w, low, high),
        within(r, low, high),
        within(w, low, high) ==> r == w,
{
    if word_is_nan(w) {
        return low;
    }
    let k: i64 = word_rank(w);
    if k < word_rank(low) {
        low
    } else if k > word_rank(high) {
        high
    } else {
        w
    }
}

/// A clamped word lies in the range, and clamping changes no word that already
/// does; so clamping twice is clamping once.
pub proof fn lemma_clamped_settles(w: u32, low: u32, high: u32)
    requires
        is_range(low, high),
    ensures
        within(clamped(w, low, high), low, high),
        within(w, low, high) <==> clamped(w, low, high) == w,
        clamped(clamped(w, low, high), low, high) == clamped(w, low, high),
{
}

} // verus!
