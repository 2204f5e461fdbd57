//! A probabilistic ("approximate") atomic counter.
//!
//! Exact atomic increment-and-fetch serializes every caller on one cache
//! line. This counter instead makes increments probabilistic once the value
//! grows large: below a fixed threshold every increment is exact, and above
//! it an increment adds a power-of-two step `delta` with probability
//! `1/delta`, so the expected value still tracks the true number of calls
//! while most calls perform no contended write at all.
//!
//! The value-update rule is modelled and proved over mathematical integers
//! in [`model`]; the executable counter lives in [`counter`], with one
//! instantiation per supported integer width in [`widths`].

pub mod counter;
pub mod model;
pub mod step;
pub mod widths;

pub use counter::{
    ApproximateAtomic, AtomicCounter, AtomicVal, Countable, DefaultSource, RandomSource,
};
