//! The approximate counter and its abstractions: the element-type
//! capability trait, the atomic-storage trait, the randomness-source
//! contract, and the counter operations themselves.

use vstd::prelude::*;
use core::sync::atomic::Ordering;
use crate::model::{accepts, delta_of, EXACT_LIMIT};

verus! {

/// A source of random values of type `T`, consulted for the probabilistic
/// skip decision once the counter has left the exact-counting region.
///
/// Implementations must be safe to call concurrently from arbitrary
/// threads without external synchronization; that thread-safety is the
/// implementor's responsibility, not something the counter checks. Nothing
/// is assumed about the values drawn: the counter's contracts hold for
/// every possible result, and a deterministic source (for tests, or in an
/// environment without a process-wide random facility) is equally valid.
pub trait RandomSource<T>: Sized {
    /// Draw one value.
    fn draw(&self) -> T;
}

/// A uniform operation set over a raw atomic memory cell holding one value
/// of the associated `Ticket` type, parameterized by an explicit memory
/// ordering. The counter only ever uses `Ordering::Relaxed`: it relies on
/// the atomicity of the single cell and promises no cross-location
/// ordering.
///
/// The cell is shared mutable state reached through `&self`, so nothing
/// can be stated here about the values stored or returned: any other
/// thread may write the cell between two operations. The verified update
/// logic therefore takes the loaded value as an argument and is proved for
/// every value the load may return.
pub trait AtomicVal: Sized {
    /// The element type the cell holds.
    type Ticket;

    /// A fresh cell holding `value`.
    fn new(value: Self::Ticket) -> Self;

    /// Atomically read the cell.
    fn load(&self, order: Ordering) -> Self::Ticket;

    /// Atomically overwrite the cell.
    fn store(&self, value: Self::Ticket, order: Ordering);

    /// Atomically add `value` to the cell, wrapping on overflow, and
    /// return the previous value.
    fn fetch_add(&self, value: Self::Ticket, order: Ordering) -> Self::Ticket;
}

/// The per-element-type capability descriptor: the constants and the few
/// width-dependent computations the update rule needs, together with the
/// atomic cell kind that backs the width. One implementation exists per
/// supported integer width; they differ only in these constants and in the
/// native atomic width, never in behaviour.
pub trait Countable: Copy + Sized {
    /// The atomic cell type backing this element type.
    type Atomic: AtomicVal<Ticket = Self>;

    /// The element value as a mathematical integer.
    spec fn as_int(self) -> int;

    /// The element value read as its unsigned bit pattern, the form in
    /// which a random draw enters the acceptance test.
    spec fn draw_nat(self) -> nat;

    /// The zero value. Its bit pattern is all-zero, so as a draw it is
    /// accepted by every acceptance test.
    fn zero() -> (z: Self)
        ensures
            z.as_int() == 0,
            z.draw_nat() == 0,
    ;

    /// The one value.
    fn one() -> (o: Self)
        ensures
            o.as_int() == 1,
    ;

    /// Whether `self` lies in the exact-counting region, where every
    /// increment deterministically adds one. Negative values of signed
    /// element types count as exact.
    fn in_exact_region(self) -> (b: bool)
        ensures
            b <==> self.as_int() < EXACT_LIMIT,
    ;

    /// The step size at current value `self`, once outside the exact
    /// region: `2^(bit_len(self) - 12)`.
    fn step_delta(self) -> (d: Self)
        requires
            EXACT_LIMIT <= self.as_int(),
        ensures
            d.as_int() == delta_of(self.as_int()),
    ;

    /// The acceptance test at current value `self` with draw `r`: proceed
    /// exactly when the low `log2(delta)` bits of the draw are zero, a
    /// 1-in-`delta` test under a uniform source.
    fn accept_draw(self, r: Self) -> (b: bool)
        requires
            EXACT_LIMIT <= self.as_int(),
        ensures
            b <==> accepts(self.as_int(), r.draw_nat()),
    ;

    /// One value drawn from the process-wide thread-local generator, the
    /// default randomness source of a hosted environment.
    fn thread_rng() -> Self;
}

/// The default randomness source: the thread-local pseudorandom generator
/// of the hosted environment, via [`Countable::thread_rng`]. It keeps no
/// state of its own and is safe to share between threads.
pub struct DefaultSource;

impl<T: Countable> RandomSource<T> for DefaultSource {
    fn draw(&self) -> T {
        T::thread_rng()
    }
}

/// An atomic counter that uses probability to achieve faster operations
/// while retaining good accuracy: below 4096 every increment is exact;
/// above, an increment adds a power-of-two step `delta` with probability
/// `1/delta`, so the expected value tracks the true number of calls while
/// most calls perform no contended write. Useful for statistics displays
/// in hot loops.
pub struct ApproximateAtomic<T: Countable, R: RandomSource<T>> {
    count: T::Atomic,
    rng: R,
}

impl<T: Countable, R: RandomSource<T>> ApproximateAtomic<T, R> {
    /// A counter with value zero and the given randomness source.
    pub fn with_rng(rng: R) -> Self {
        ApproximateAtomic { count: <T::Atomic as AtomicVal>::new(T::zero()), rng }
    }

    /// A counter with the given initial value and randomness source.
    pub fn with_value_and_rng(value: T, rng: R) -> Self {
        ApproximateAtomic { count: <T::Atomic as AtomicVal>::new(value), rng }
    }
}

impl<T: Countable> ApproximateAtomic<T, DefaultSource> {
    /// A counter with the given initial value and the default
    /// randomness source.
    pub fn with_value(value: T) -> Self {
        Self::with_value_and_rng(value, DefaultSource)
    }
}

impl<T: Countable> Default for ApproximateAtomic<T, DefaultSource> {
    /// A counter with value zero and the default randomness source.
    fn default() -> Self {
        Self::with_rng(DefaultSource)
    }
}

/// The operations of an [`ApproximateAtomic`]. All three are non-blocking,
/// constant-time, total functions; they use relaxed ordering throughout
/// and establish no happens-before relationship with other memory.
pub trait AtomicCounter {
    /// The value held.
    type Ticket: Countable;

    /// Advance the counter: below 4096 add exactly one; at or above,
    /// consult the randomness source and add `delta = 2^(bit_len - 12)`
    /// with probability `1/delta`. Returns the value before the update,
    /// or the value read if the update was skipped.
    fn increment(&self) -> Self::Ticket;

    /// Set the counter back to zero. Observable immediately by later
    /// loads, but not synchronized with concurrent increments: a racing
    /// increment may be lost or land after the reset, by design.
    fn reset(&self);

    /// The current stored value.
    fn load(&self) -> Self::Ticket;
}

impl<T: Countable, R: RandomSource<T>> AtomicCounter for ApproximateAtomic<T, R> {
    type Ticket = T;

    fn increment(&self) -> T {
        let count = self.count.load(Ordering::Relaxed);
        if count.in_exact_region() {
            self.count.fetch_add(T::one(), Ordering::Relaxed)
        } else {
            let r = self.rng.draw();
            if count.accept_draw(r) {
                let delta = count.step_delta();
                self.count.fetch_add(delta, Ordering::Relaxed)
            } else {
                count
            }
        }
    }

    fn reset(&self) {
        self.count.store(T::zero(), Ordering::Relaxed);
    }

    fn load(&self) -> T {
        self.count.load(Ordering::Relaxed)
    }
}

} // verus!
