use approximate_atomic::{ApproximateAtomic, AtomicCounter, DefaultSource, RandomSource};

/// A deterministic source that always returns zero: every eligible
/// increment above the threshold is accepted, so behaviour is exact
/// everywhere.
struct ZeroSource;

impl RandomSource<u16> for ZeroSource {
    fn draw(&self) -> u16 {
        0
    }
}

impl RandomSource<u32> for ZeroSource {
    fn draw(&self) -> u32 {
        0
    }
}

impl RandomSource<u64> for ZeroSource {
    fn draw(&self) -> u64 {
        0
    }
}

impl RandomSource<usize> for ZeroSource {
    fn draw(&self) -> usize {
        0
    }
}

impl RandomSource<i32> for ZeroSource {
    fn draw(&self) -> i32 {
        0
    }
}

impl RandomSource<i64> for ZeroSource {
    fn draw(&self) -> i64 {
        0
    }
}

impl RandomSource<isize> for ZeroSource {
    fn draw(&self) -> isize {
        0
    }
}

/// A deterministic source that always returns one: above the threshold the
/// step size is at least two, so the low-bits test always fails and every
/// eligible increment is skipped.
struct OneSource;

impl RandomSource<u32> for OneSource {
    fn draw(&self) -> u32 {
        1
    }
}

/// A source that must never be consulted: drawing from it fails the test.
struct PanicSource;

impl RandomSource<u32> for PanicSource {
    fn draw(&self) -> u32 {
        panic!("the randomness source was consulted inside the exact region")
    }
}

impl RandomSource<u8> for PanicSource {
    fn draw(&self) -> u8 {
        panic!("the randomness source was consulted for a u8 counter")
    }
}

impl RandomSource<i8> for PanicSource {
    fn draw(&self) -> i8 {
        panic!("the randomness source was consulted for an i8 counter")
    }
}

impl RandomSource<i16> for PanicSource {
    fn draw(&self) -> i16 {
        panic!("the randomness source was consulted inside the exact region")
    }
}

#[test]
fn exact_region_u32() {
    // Below 4096 every increment adds exactly one, returns the previous
    // value, and never consults the randomness source.
    let counter = ApproximateAtomic::<u32, PanicSource>::with_rng(PanicSource);
    for k in 0..4095u32 {
        assert_eq!(counter.increment(), k);
        assert_eq!(counter.load(), k + 1);
    }
    assert_eq!(counter.load(), 4095);
}

#[test]
fn fresh_counter_is_zero() {
    let counter = ApproximateAtomic::<u32, DefaultSource>::default();
    assert_eq!(counter.load(), 0);
}

#[test]
fn reset_returns_to_zero() {
    let counter = ApproximateAtomic::<u32, ZeroSource>::with_rng(ZeroSource);
    for _ in 0..300 {
        counter.increment();
    }
    assert_eq!(counter.load(), 300);
    counter.reset();
    assert_eq!(counter.load(), 0);
    // After a reset the counter follows the exact-region rule from zero
    // again.
    assert_eq!(counter.increment(), 0);
    assert_eq!(counter.increment(), 1);
    assert_eq!(counter.load(), 2);
}

#[test]
fn zero_source_is_exact_above_threshold() {
    // With a source that always returns zero the low-bits test always
    // passes, so even above the threshold every increment is accepted and
    // the trajectory is deterministic.
    let counter = ApproximateAtomic::<u32, ZeroSource>::with_rng(ZeroSource);
    for _ in 0..4096 {
        counter.increment();
    }
    assert_eq!(counter.load(), 4096);
    // At 4096 the bit length is 13, so the step is 2^(13-12) = 2.
    assert_eq!(counter.increment(), 4096);
    assert_eq!(counter.load(), 4098);
    assert_eq!(counter.increment(), 4098);
    assert_eq!(counter.load(), 4100);
    // At 8192 the bit length is 14, so the step doubles to 4.
    while counter.load() < 8192 {
        counter.increment();
    }
    assert_eq!(counter.load(), 8192);
    assert_eq!(counter.increment(), 8192);
    assert_eq!(counter.load(), 8196);
}

#[test]
fn threshold_boundary_skips_begin() {
    // Driven from 4095 past the threshold by a source whose draws have a
    // non-zero low bit, increments at or above 4096 are always skipped and
    // return the current value unchanged.
    let counter = ApproximateAtomic::<u32, OneSource>::with_rng(OneSource);
    for _ in 0..4095 {
        counter.increment();
    }
    assert_eq!(counter.load(), 4095);
    // The last exact increment crosses the threshold...
    assert_eq!(counter.increment(), 4095);
    assert_eq!(counter.load(), 4096);
    // ...and from there every call is skipped: the value never moves.
    for _ in 0..50 {
        assert_eq!(counter.increment(), 4096);
    }
    assert_eq!(counter.load(), 4096);
}

#[test]
fn u8_counter_is_always_exact() {
    // A u8 value can never reach 4096, so the counter stays exact and the
    // randomness source is never consulted.
    let counter = ApproximateAtomic::<u8, PanicSource>::with_rng(PanicSource);
    for k in 0..200u8 {
        assert_eq!(counter.increment(), k);
    }
    assert_eq!(counter.load(), 200);
}

#[test]
fn u8_counter_wraps_at_width() {
    // Overflow follows the native atomic's wrap-around, as inherited from
    // the underlying fixed-width arithmetic.
    let counter = ApproximateAtomic::<u8, PanicSource>::with_rng(PanicSource);
    for _ in 0..=255 {
        counter.increment();
    }
    assert_eq!(counter.load(), 0);
}

#[test]
fn i8_counter_is_always_exact() {
    let counter = ApproximateAtomic::<i8, PanicSource>::with_rng(PanicSource);
    for k in 0..100i8 {
        assert_eq!(counter.increment(), k);
    }
    assert_eq!(counter.load(), 100);
}

#[test]
fn i16_exact_region() {
    let counter = ApproximateAtomic::<i16, PanicSource>::with_rng(PanicSource);
    for _ in 0..1000 {
        counter.increment();
    }
    assert_eq!(counter.load(), 1000);
}

#[test]
fn u16_crosses_threshold() {
    let counter = ApproximateAtomic::<u16, ZeroSource>::with_rng(ZeroSource);
    for _ in 0..4096 {
        counter.increment();
    }
    assert_eq!(counter.load(), 4096);
    assert_eq!(counter.increment(), 4096);
    assert_eq!(counter.load(), 4098);
}

#[test]
fn i32_exact_region_and_threshold() {
    let counter = ApproximateAtomic::<i32, ZeroSource>::with_rng(ZeroSource);
    for k in 0..4096i32 {
        assert_eq!(counter.increment(), k);
    }
    assert_eq!(counter.increment(), 4096);
    assert_eq!(counter.load(), 4098);
}

#[test]
fn u64_crosses_threshold() {
    let counter = ApproximateAtomic::<u64, ZeroSource>::with_rng(ZeroSource);
    for _ in 0..4096 {
        counter.increment();
    }
    assert_eq!(counter.increment(), 4096);
    assert_eq!(counter.load(), 4098);
}

#[test]
fn i64_exact_region() {
    let counter = ApproximateAtomic::<i64, ZeroSource>::with_rng(ZeroSource);
    for _ in 0..500 {
        counter.increment();
    }
    assert_eq!(counter.load(), 500);
}

#[test]
fn usize_crosses_threshold() {
    let counter = ApproximateAtomic::<usize, ZeroSource>::with_rng(ZeroSource);
    for _ in 0..4096 {
        counter.increment();
    }
    assert_eq!(counter.increment(), 4096);
    assert_eq!(counter.load(), 4098);
}

#[test]
fn isize_exact_region() {
    let counter = ApproximateAtomic::<isize, ZeroSource>::with_rng(ZeroSource);
    for _ in 0..500 {
        counter.increment();
    }
    assert_eq!(counter.load(), 500);
}

#[test]
fn with_value_starts_from_value() {
    let counter = ApproximateAtomic::<u32, DefaultSource>::with_value(5000);
    assert_eq!(counter.load(), 5000);
}

#[test]
fn with_value_and_rng_above_threshold() {
    // Started above the threshold with an always-zero source: at 5000 the
    // bit length is 13, so the accepted step is 2.
    let counter = ApproximateAtomic::<u32, ZeroSource>::with_value_and_rng(5000, ZeroSource);
    assert_eq!(counter.increment(), 5000);
    assert_eq!(counter.load(), 5002);
}

#[test]
fn default_source_tracks_true_count() {
    // A coarse single-trial version of the distribution experiment: ten
    // million increments against the default source land within ten
    // percent of the true count.
    let n: u32 = 10_000_000;
    let counter = ApproximateAtomic::<u32, DefaultSource>::default();
    for _ in 0..n {
        counter.increment();
    }
    let value = counter.load();
    assert!(value >= n - n / 10, "value {} too low for {}", value, n);
    assert!(value <= n + n / 10, "value {} too high for {}", value, n);
}
