//! The shared cell: one atomic weight counter beside the payload.
use std::sync::atomic::{AtomicUsize, Ordering};
use vstd::prelude::*;

verus! {

/// The weight after adding `n` to `prev`: `None` where the counter wrapped.
pub open spec fn after_add(prev: nat, n: nat) -> Option<usize> {
    if prev + n <= usize::MAX {
        Some((prev + n) as usize)
    } else {
        None
    }
}

/// The weight that remains after taking `n` from `prev`: `None` where more
/// was taken than the counter held.
pub open spec fn after_drop(prev: nat, n: nat) -> Option<usize> {
    if n <= prev {
        Some((prev - n) as usize)
    } else {
        None
    }
}

/// Computes `after_add` from the value the counter held before the add.
pub fn weight_after_add(prev: usize, n: usize) -> (r: Option<usize>)
    ensures
        r == after_add(prev as nat, n as nat),
{
    prev.checked_add(n)
}

/// Computes `after_drop` from the value the counter held before the subtraction.
pub fn weight_after_drop(prev: usize, n: usize) -> (r: Option<usize>)
    ensures
        r == after_drop(prev as nat, n as nat),
{
    if n <= prev {
        Some(prev - n)
    } else {
        None
    }
}

/// A heap cell shared by handles: its weight is touched only atomically.
pub struct Inner<T> {
    weight: AtomicUsize,
    data: T,
}

impl<T> Inner<T> {
    /// The payload of the cell.
    pub closed spec fn value(&self) -> T {
        self.data
    }

    /// A cell holding `data` whose weight starts at `starting_weight`.
    pub fn new(data: T, starting_weight: usize) -> (r: Inner<T>)
        ensures
            r.value() == data,
    {
        Inner { weight: AtomicUsize::new(starting_weight), data }
    }

    /// Adds `weight` to the counter and returns the counter's new value, or
    /// `None` where it wrapped. Other threads may change the counter at any
    /// time, so the value before the add is known only to exist.
    pub fn add_weight(&self, weight: usize) -> (r: Option<usize>)
        ensures
            exists|prev: usize| r == after_add(prev as nat, weight as nat),
    {
        let prev = self.weight.fetch_add(weight, Ordering::Relaxed);
        weight_after_add(prev, weight)
    }

    /// Takes `weight` from the counter and returns what remains after the
    /// subtraction, or `None` where more was taken than the counter held.
    /// The caller that sees `Some(0)` held the last share of the cell.
    pub fn drop_weight(&self, weight: usize) -> (r: Option<usize>)
        ensures
            exists|prev: usize| r == after_drop(prev as nat, weight as nat),
    {
        let prev = self.weight.fetch_sub(weight, Ordering::Relaxed);
        weight_after_drop(prev, weight)
    }

    /// The counter's value at the time of the read.
    pub fn current_weight(&self) -> usize {
        self.weight.load(Ordering::Relaxed)
    }

    /// The payload.
    pub fn data(&self) -> (r: &T)
        ensures
            *r == self.value(),
    {
        &self.data
    }
}

} // verus!
