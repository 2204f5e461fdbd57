//! Mathematical model of the value-update rule.
//!
//! The counter's behaviour on one `increment` call is a function of the
//! current value `v` and (above the threshold) one random draw `r`:
//!
//! * `v < 4096` (the exact-counting region): the value advances by exactly
//!   one, and the randomness source is not consulted.
//! * otherwise: the step size is `delta = 2^(bit_len(v) - 12)`, and the
//!   update is performed only when the low bits of the draw are zero, i.e.
//!   with probability `1/delta` under a uniform source. The expected
//!   advance per call is therefore `delta * (1/delta) = 1`.
//!
//! Everything here is over unbounded integers: it describes the stored
//! value while it stays within the element type's range. Overflow of the
//! underlying fixed-width cell wraps, as the native atomic does.

use vstd::prelude::*;
use vstd::arithmetic::power2::*;

verus! {

/// Largest value of the exact-counting region plus one: values below this
/// advance deterministically by one.
pub const EXACT_LIMIT: u64 = 4096;

/// Number of bits of the exact-counting region: `2^12 == 4096`.
pub const EXACT_BITS: u32 = 12;

/// The bit length of `v`: `0` for `0`, otherwise `1 + floor(log2(v))`.
pub open spec fn bit_len(v: nat) -> nat
    decreases v,
{
    if v == 0 {
        0
    } else {
        1 + bit_len((v / 2) as nat)
    }
}

/// The step size an increment uses at current value `v`.
pub open spec fn delta_of(v: int) -> nat {
    if v < EXACT_LIMIT {
        1
    } else {
        pow2((bit_len(v as nat) - EXACT_BITS) as nat)
    }
}

/// Whether the draw `r` (read as the draw's unsigned bit pattern) lets the
/// increment proceed at current value `v`: its low `log2(delta)` bits must
/// all be zero, a 1-in-`delta` test under a uniform source.
pub open spec fn accepts(v: int, r: nat) -> bool {
    r % delta_of(v) == 0
}

/// The stored value after one `increment` call at value `v` with draw `r`.
pub open spec fn step_result(v: int, r: nat) -> int {
    if accepts(v, r) {
        v + delta_of(v)
    } else {
        v
    }
}

/// The stored value after one `increment` call per element of `draws`,
/// starting from `v`.
pub open spec fn run(v: int, draws: Seq<nat>) -> int
    decreases draws.len(),
{
    if draws.len() == 0 {
        v
    } else {
        run(step_result(v, draws[0]), draws.drop_first())
    }
}

/// `bit_len` of a value below `2^k` is at most `k`.
pub proof fn lemma_bit_len_below(v: nat, k: nat)
    requires
        v < pow2(k),
    ensures
        bit_len(v) <= k,
    decreases k,
{
    lemma_pow2_pos(k);
    if k == 0 {
        lemma2_to64();
    } else {
        lemma_pow2_unfold(k);
        lemma_bit_len_below(v / 2, (k - 1) as nat);
    }
}

/// `bit_len` of a value at or above `2^k` is more than `k`.
pub proof fn lemma_bit_len_above(v: nat, k: nat)
    requires
        pow2(k) <= v,
    ensures
        bit_len(v) >= k + 1,
    decreases k,
{
    lemma_pow2_pos(k);
    if k == 0 {
        lemma2_to64();
    } else {
        lemma_pow2_unfold(k);
        lemma_bit_len_above(v / 2, (k - 1) as nat);
    }
}

/// `bit_len` is exact: `v` lies between `2^(bit_len(v) - 1)` inclusive and
/// `2^bit_len(v)` exclusive.
pub proof fn lemma_bit_len_tight(v: nat)
    requires
        v >= 1,
    ensures
        pow2((bit_len(v) - 1) as nat) <= v < pow2(bit_len(v)),
    decreases v,
{
    if v == 1 {
        lemma2_to64();
        assert(bit_len(0) == 0);
        assert(bit_len(1) == 1);
    } else {
        let b = bit_len(v / 2);
        lemma_bit_len_tight(v / 2);
        assert(bit_len(v) == b + 1);
        lemma_pow2_unfold((b + 1) as nat);
        lemma_pow2_unfold(b);
        assert(pow2(b) == 2 * pow2((b - 1) as nat));
        assert(pow2(b) <= 2 * (v / 2));
        assert(2 * (v / 2) <= v);
        assert(v <= 2 * (v / 2) + 1);
        assert(v < 2 * pow2(b));
    }
}

/// Above the threshold the step size never exceeds the current value, so
/// it fits in any integer type that holds the value itself.
pub proof fn lemma_delta_le_value(v: int)
    requires
        v >= EXACT_LIMIT,
    ensures
        delta_of(v) <= v,
{
    let m = bit_len(v as nat);
    lemma2_to64();
    lemma_bit_len_above(v as nat, 12);
    lemma_bit_len_tight(v as nat);
    lemma_pow2_strictly_increases((m - EXACT_BITS) as nat, (m - 1) as nat);
}

/// The step size is always strictly positive: every accepted update moves
/// the value forward.
pub proof fn lemma_delta_positive(v: int)
    ensures
        delta_of(v) >= 1,
{
    if v >= EXACT_LIMIT {
        lemma_pow2_pos((bit_len(v as nat) - EXACT_BITS) as nat);
    }
}

/// At or above the threshold the step size is at least two, so a draw with
/// a non-zero low bit is rejected there: skips become possible exactly at
/// the threshold.
pub proof fn lemma_delta_above_threshold(v: int)
    requires
        v >= EXACT_LIMIT,
    ensures
        delta_of(v) >= 2,
{
    lemma2_to64();
    lemma_bit_len_above(v as nat, 12);
    let e = (bit_len(v as nat) - EXACT_BITS) as nat;
    lemma_pow2_unfold(e);
    lemma_pow2_pos((e - 1) as nat);
}

/// In the exact region one step adds exactly one, whatever the draw: the
/// randomness source cannot influence the result there.
pub proof fn lemma_step_exact(v: int, r: nat)
    requires
        v < EXACT_LIMIT,
    ensures
        step_result(v, r) == v + 1,
{
}

/// A zero draw is always accepted: a source that returns only zero makes
/// every eligible increment proceed, so behaviour above the threshold
/// becomes deterministic.
pub proof fn lemma_zero_draw_accepted(v: int)
    ensures
        accepts(v, 0),
        step_result(v, 0) == v + delta_of(v),
{
    lemma_delta_positive(v);
}

/// A draw whose low bits are not all zero is rejected above the threshold
/// and the value is returned unchanged.
pub proof fn lemma_skip_keeps_value(v: int, r: nat)
    requires
        !accepts(v, r),
    ensures
        step_result(v, r) == v,
{
}

/// One step never decreases the value, and an accepted step strictly
/// increases it.
pub proof fn lemma_step_monotonic(v: int, r: nat)
    ensures
        step_result(v, r) >= v,
        accepts(v, r) ==> step_result(v, r) > v,
{
    lemma_delta_positive(v);
}

/// Monotonicity: between resets the value is non-decreasing across any
/// sequence of increments (and so across any interleaving of concurrent
/// increments, each accepted fetch-and-add adding a positive step).
pub proof fn lemma_run_monotonic(v: int, draws: Seq<nat>)
    ensures
        run(v, draws) >= v,
    decreases draws.len(),
{
    if draws.len() > 0 {
        lemma_step_monotonic(v, draws[0]);
        lemma_run_monotonic(step_result(v, draws[0]), draws.drop_first());
    }
}

/// The exact region: starting from `v >= 0`, as long as the final value
/// stays at most 4095, every increment adds exactly one, whatever the
/// draws. In particular a fresh (or freshly reset) counter incremented
/// `k <= 4095` times holds exactly `k`.
pub proof fn lemma_run_exact(v: int, draws: Seq<nat>)
    requires
        0 <= v,
        v + draws.len() <= EXACT_LIMIT - 1,
    ensures
        run(v, draws) == v + draws.len(),
    decreases draws.len(),
{
    if draws.len() > 0 {
        lemma_step_exact(v, draws[0]);
        lemma_run_exact(v + 1, draws.drop_first());
    }
}

/// The exact-region law for a fresh or freshly reset counter: `k <= 4095`
/// increments from zero yield exactly `k`, independent of the randomness
/// source.
pub proof fn lemma_exact_region_from_zero(draws: Seq<nat>)
    requires
        draws.len() <= EXACT_LIMIT - 1,
    ensures
        run(0, draws) == draws.len(),
{
    lemma_run_exact(0, draws);
}

} // verus!
