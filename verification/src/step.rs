//! Executable core of the update rule, shared by every element width.
//!
//! Every supported element value fits in 64 bits (a signed current value is
//! only inspected when it is at or above the threshold, hence positive), so
//! the bit-length, step-size and acceptance computations are done once here
//! over `u64` and proved against the model; the per-width trait
//! implementations only convert their values in and out.

use vstd::prelude::*;
use vstd::arithmetic::power2::*;
use vstd::bits::*;
use crate::model::{
    accepts, bit_len, delta_of, lemma_bit_len_above, lemma_bit_len_below, lemma_delta_le_value,
    lemma_delta_positive, EXACT_BITS, EXACT_LIMIT,
};

verus! {

/// The bit length of `v`: `0` for `0`, otherwise `1 + floor(log2(v))`,
/// i.e. the position of the highest set bit plus one.
pub fn bit_length_u64(v: u64) -> (n: u32)
    ensures
        n == bit_len(v as nat),
        n <= 64,
{
    proof {
        lemma2_to64();
        lemma_bit_len_below(v as nat, 64);
    }
    let mut x: u64 = v;
    let mut n: u32 = 0;
    while x > 0
        invariant
            n + bit_len(x as nat) == bit_len(v as nat),
            bit_len(v as nat) <= 64,
        decreases x,
    {
        x = x / 2;
        n = n + 1;
    }
    n
}

/// The step size at current value `v`, for `v` at or above the threshold:
/// `2^(bit_len(v) - 12)`. It never exceeds `v` itself.
pub fn delta64(v: u64) -> (d: u64)
    requires
        EXACT_LIMIT <= v,
    ensures
        d == delta_of(v as int),
        1 <= d <= v,
{
    let m: u32 = bit_length_u64(v);
    proof {
        lemma2_to64();
        lemma_bit_len_above(v as nat, 12);
        lemma_delta_le_value(v as int);
        lemma_delta_positive(v as int);
        lemma_u64_shl_is_mul(1u64, (m - EXACT_BITS) as u64);
    }
    1u64 << ((m - EXACT_BITS) as u64)
}

/// The acceptance test at current value `v` with draw `r` (already reduced
/// to its unsigned bit pattern): the low `log2(delta)` bits of `r` must all
/// be zero, a 1-in-`delta` test under a uniform source.
pub fn accept64(v: u64, r: u64) -> (b: bool)
    requires
        EXACT_LIMIT <= v,
    ensures
        b <==> accepts(v as int, r as nat),
{
    let d: u64 = delta64(v);
    let mask: u64 = d - 1;
    proof {
        let s = (bit_len(v as nat) - EXACT_BITS) as nat;
        lemma2_to64();
        lemma_bit_len_above(v as nat, 12);
        lemma_bit_len_below(v as nat, 64);
        lemma_u64_low_bits_mask_is_mod(r, s);
    }
    (r & mask) == 0
}

} // verus!
