//! Per-width instantiation of the capability and storage abstractions:
//! one [`Countable`] and one [`AtomicVal`] implementation per supported
//! signed and unsigned integer width, differing only in their constants
//! and in the native atomic cell that backs them.
//!
//! All real computation is shared: each width casts its value up to `u64`
//! (a current value is only inspected above the threshold, hence positive,
//! and a draw enters the test as its unsigned bit pattern) and calls the
//! verified core in [`crate::step`]. The narrow widths `u8` and `i8` can
//! never hold a value at the threshold, so their counters stay exact.

use vstd::prelude::*;
use core::sync::atomic::AtomicI16;
use core::sync::atomic::AtomicI32;
use core::sync::atomic::AtomicI64;
use core::sync::atomic::AtomicI8;
use core::sync::atomic::AtomicIsize;
use core::sync::atomic::AtomicU16;
use core::sync::atomic::AtomicU32;
use core::sync::atomic::AtomicU64;
use core::sync::atomic::AtomicU8;
use core::sync::atomic::AtomicUsize;
use core::sync::atomic::Ordering;
use crate::counter::{AtomicVal, Countable};
use crate::step::{accept64, delta64};

verus! {

/// Relies on `rand::random`: one value drawn from the thread-local
/// pseudorandom generator of the hosted environment. Nothing can be
/// promised of a random value, so it carries no `ensures`; all counter
/// contracts hold for every possible draw.
pub assume_specification<T>[ rand::random::<T> ]() -> (r: T)
    where
        rand::distr::StandardUniform: rand::distr::Distribution<T>,
;

impl AtomicVal for AtomicU8 {
    type Ticket = u8;

    fn new(value: u8) -> Self {
        AtomicU8::new(value)
    }

    fn load(&self, order: Ordering) -> u8 {
        self.load(order)
    }

    fn store(&self, value: u8, order: Ordering) {
        self.store(value, order)
    }

    fn fetch_add(&self, value: u8, order: Ordering) -> u8 {
        self.fetch_add(value, order)
    }
}

impl AtomicVal for AtomicU16 {
    type Ticket = u16;

    fn new(value: u16) -> Self {
        AtomicU16::new(value)
    }

    fn load(&self, order: Ordering) -> u16 {
        self.load(order)
    }

    fn store(&self, value: u16, order: Ordering) {
        self.store(value, order)
    }

    fn fetch_add(&self, value: u16, order: Ordering) -> u16 {
        self.fetch_add(value, order)
    }
}

impl AtomicVal for AtomicU32 {
    type Ticket = u32;

    fn new(value: u32) -> Self {
        AtomicU32::new(value)
    }

    fn load(&self, order: Ordering) -> u32 {
        self.load(order)
    }

    fn store(&self, value: u32, order: Ordering) {
        self.store(value, order)
    }

    fn fetch_add(&self, value: u32, order: Ordering) -> u32 {
        self.fetch_add(value, order)
    }
}

impl AtomicVal for AtomicU64 {
    type Ticket = u64;

    fn new(value: u64) -> Self {
        AtomicU64::new(value)
    }

    fn load(&self, order: Ordering) -> u64 {
        self.load(order)
    }

    fn store(&self, value: u64, order: Ordering) {
        self.store(value, order)
    }

    fn fetch_add(&self, value: u64, order: Ordering) -> u64 {
        self.fetch_add(value, order)
    }
}

impl AtomicVal for AtomicUsize {
    type Ticket = usize;

    fn new(value: usize) -> Self {
        AtomicUsize::new(value)
    }

    fn load(&self, order: Ordering) -> usize {
        self.load(order)
    }

    fn store(&self, value: usize, order: Ordering) {
        self.store(value, order)
    }

    fn fetch_add(&self, value: usize, order: Ordering) -> usize {
        self.fetch_add(value, order)
    }
}

impl AtomicVal for AtomicI8 {
    type Ticket = i8;

    fn new(value: i8) -> Self {
        AtomicI8::new(value)
    }

    fn load(&self, order: Ordering) -> i8 {
        self.load(order)
    }

    fn store(&self, value: i8, order: Ordering) {
        self.store(value, order)
    }

    fn fetch_add(&self, value: i8, order: Ordering) -> i8 {
        self.fetch_add(value, order)
    }
}

impl AtomicVal for AtomicI16 {
    type Ticket = i16;

    fn new(value: i16) -> Self {
        AtomicI16::new(value)
    }

    fn load(&self, order: Ordering) -> i16 {
        self.load(order)
    }

    fn store(&self, value: i16, order: Ordering) {
        self.store(value, order)
    }

    fn fetch_add(&self, value: i16, order: Ordering) -> i16 {
        self.fetch_add(value, order)
    }
}

impl AtomicVal for AtomicI32 {
    type Ticket = i32;

    fn new(value: i32) -> Self {
        AtomicI32::new(value)
    }

    fn load(&self, order: Ordering) -> i32 {
        self.load(order)
    }

    fn store(&self, value: i32, order: Ordering) {
        self.store(value, order)
    }

    fn fetch_add(&self, value: i32, order: Ordering) -> i32 {
        self.fetch_add(value, order)
    }
}

impl AtomicVal for AtomicI64 {
    type Ticket = i64;

    fn new(value: i64) -> Self {
        AtomicI64::new(value)
    }

    fn load(&self, order: Ordering) -> i64 {
        self.load(order)
    }

    fn store(&self, value: i64, order: Ordering) {
        self.store(value, order)
    }

    fn fetch_add(&self, value: i64, order: Ordering) -> i64 {
        self.fetch_add(value, order)
    }
}

impl AtomicVal for AtomicIsize {
    type Ticket = isize;

    fn new(value: isize) -> Self {
        AtomicIsize::new(value)
    }

    fn load(&self, order: Ordering) -> isize {
        self.load(order)
    }

    fn store(&self, value: isize, order: Ordering) {
        self.store(value, order)
    }

    fn fetch_add(&self, value: isize, order: Ordering) -> isize {
        self.fetch_add(value, order)
    }
}

impl Countable for u8 {
    type Atomic = AtomicU8;

    open spec fn as_int(self) -> int {
        self as int
    }

    open spec fn draw_nat(self) -> nat {
        self as nat
    }

    fn zero() -> u8 {
        0
    }

    fn one() -> u8 {
        1
    }

    fn in_exact_region(self) -> bool {
        true
    }

    fn step_delta(self) -> u8 {
        delta64(self as u64) as u8
    }

    fn accept_draw(self, r: u8) -> bool {
        accept64(self as u64, r as u64)
    }

    fn thread_rng() -> u8 {
        rand::random::<u8>()
    }
}

impl Countable for u16 {
    type Atomic = AtomicU16;

    open spec fn as_int(self) -> int {
        self as int
    }

    open spec fn draw_nat(self) -> nat {
        self as nat
    }

    fn zero() -> u16 {
        0
    }

    fn one() -> u16 {
        1
    }

    fn in_exact_region(self) -> bool {
        self < 4096
    }

    fn step_delta(self) -> u16 {
        delta64(self as u64) as u16
    }

    fn accept_draw(self, r: u16) -> bool {
        accept64(self as u64, r as u64)
    }

    fn thread_rng() -> u16 {
        rand::random::<u16>()
    }
}

impl Countable for u32 {
    type Atomic = AtomicU32;

    open spec fn as_int(self) -> int {
        self as int
    }

    open spec fn draw_nat(self) -> nat {
        self as nat
    }

    fn zero() -> u32 {
        0
    }

    fn one() -> u32 {
        1
    }

    fn in_exact_region(self) -> bool {
        self < 4096
    }

    fn step_delta(self) -> u32 {
        delta64(self as u64) as u32
    }

    fn accept_draw(self, r: u32) -> bool {
        accept64(self as u64, r as u64)
    }

    fn thread_rng() -> u32 {
        rand::random::<u32>()
    }
}

impl Countable for u64 {
    type Atomic = AtomicU64;

    open spec fn as_int(self) -> int {
        self as int
    }

    open spec fn draw_nat(self) -> nat {
        self as nat
    }

    fn zero() -> u64 {
        0
    }

    fn one() -> u64 {
        1
    }

    fn in_exact_region(self) -> bool {
        self < 4096
    }

    fn step_delta(self) -> u64 {
        delta64(self)
    }

    fn accept_draw(self, r: u64) -> bool {
        accept64(self, r)
    }

    fn thread_rng() -> u64 {
        rand::random::<u64>()
    }
}

impl Countable for usize {
    type Atomic = AtomicUsize;

    open spec fn as_int(self) -> int {
        self as int
    }

    open spec fn draw_nat(self) -> nat {
        self as nat
    }

    fn zero() -> usize {
        0
    }

    fn one() -> usize {
        1
    }

    fn in_exact_region(self) -> bool {
        self < 4096
    }

    fn step_delta(self) -> usize {
        delta64(self as u64) as usize
    }

    fn accept_draw(self, r: usize) -> bool {
        accept64(self as u64, r as u64)
    }

    fn thread_rng() -> usize {
        rand::random::<u64>() as usize
    }
}

impl Countable for i8 {
    type Atomic = AtomicI8;

    open spec fn as_int(self) -> int {
        self as int
    }

    open spec fn draw_nat(self) -> nat {
        (self as u8) as nat
    }

    fn zero() -> i8 {
        0
    }

    fn one() -> i8 {
        1
    }

    fn in_exact_region(self) -> bool {
        true
    }

    fn step_delta(self) -> i8 {
        delta64(self as u64) as i8
    }

    fn accept_draw(self, r: i8) -> bool {
        accept64(self as u64, (r as u8) as u64)
    }

    fn thread_rng() -> i8 {
        rand::random::<i8>()
    }
}

impl Countable for i16 {
    type Atomic = AtomicI16;

    open spec fn as_int(self) -> int {
        self as int
    }

    open spec fn draw_nat(self) -> nat {
        (self as u16) as nat
    }

    fn zero() -> i16 {
        0
    }

    fn one() -> i16 {
        1
    }

    fn in_exact_region(self) -> bool {
        self < 4096
    }

    fn step_delta(self) -> i16 {
        delta64(self as u64) as i16
    }

    fn accept_draw(self, r: i16) -> bool {
        accept64(self as u64, (r as u16) as u64)
    }

    fn thread_rng() -> i16 {
        rand::random::<i16>()
    }
}

impl Countable for i32 {
    type Atomic = AtomicI32;

    open spec fn as_int(self) -> int {
        self as int
    }

    open spec fn draw_nat(self) -> nat {
        (self as u32) as nat
    }

    fn zero() -> i32 {
        0
    }

    fn one() -> i32 {
        1
    }

    fn in_exact_region(self) -> bool {
        self < 4096
    }

    fn step_delta(self) -> i32 {
        delta64(self as u64) as i32
    }

    fn accept_draw(self, r: i32) -> bool {
        accept64(self as u64, (r as u32) as u64)
    }

    fn thread_rng() -> i32 {
        rand::random::<i32>()
    }
}

impl Countable for i64 {
    type Atomic = AtomicI64;

    open spec fn as_int(self) -> int {
        self as int
    }

    open spec fn draw_nat(self) -> nat {
        (self as u64) as nat
    }

    fn zero() -> i64 {
        0
    }

    fn one() -> i64 {
        1
    }

    fn in_exact_region(self) -> bool {
        self < 4096
    }

    fn step_delta(self) -> i64 {
        delta64(self as u64) as i64
    }

    fn accept_draw(self, r: i64) -> bool {
        accept64(self as u64, r as u64)
    }

    fn thread_rng() -> i64 {
        rand::random::<i64>()
    }
}

impl Countable for isize {
    type Atomic = AtomicIsize;

    open spec fn as_int(self) -> int {
        self as int
    }

    open spec fn draw_nat(self) -> nat {
        (self as usize) as nat
    }

    fn zero() -> isize {
        0
    }

    fn one() -> isize {
        1
    }

    fn in_exact_region(self) -> bool {
        self < 4096
    }

    fn step_delta(self) -> isize {
        delta64(self as u64) as isize
    }

    fn accept_draw(self, r: isize) -> bool {
        accept64(self as u64, (r as usize) as u64)
    }

    fn thread_rng() -> isize {
        rand::random::<i64>() as isize
    }
}

} // verus!
