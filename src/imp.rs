//! The handle: a share of a cell, with a private budget and an owning thread.
use crate::inner::{after_drop, Inner};
use crate::weight::{clone_plan_spec, plan_clone, valid_budget, DEFAULT_WEIGHT};
use std::sync::Arc;
use vstd::prelude::*;
use vstd::std_specs::cmp::{PartialEqSpec, PartialOrdSpec};

verus! {

/// Relies on `Arc::clone`: the new pointer refers to the same allocation as
/// `cell`, so it reaches the same value.
#[verifier::external_body]
pub(crate) fn share_cell<T>(cell: &Arc<Inner<T>>) -> (r: Arc<Inner<T>>)
    ensures
        r == *cell,
{
    Arc::clone(cell)
}

/// A handle on a shared cell. Clones made from the owning thread split the
/// handle's budget without touching the cell's atomic weight.
pub struct Frc<T> {
    weight: usize,
    cell: Arc<Inner<T>>,
    thread_no: u32,
}

impl<T> Frc<T> {
    /// The budget this handle holds against the cell's weight.
    pub closed spec fn budget(&self) -> nat {
        self.weight as nat
    }

    /// The thread that made this handle.
    pub closed spec fn owner(&self) -> u32 {
        self.thread_no
    }

    /// The value the handle points to.
    pub closed spec fn value(&self) -> T {
        self.cell.value()
    }

    /// The budget is a power of two no larger than `DEFAULT_WEIGHT`.
    pub open spec fn wf(&self) -> bool {
        valid_budget(self.budget())
    }

    /// A handle with budget `weight` on `cell`, made on thread `thread_no`.
    pub(crate) fn from_cell(cell: Arc<Inner<T>>, weight: usize, thread_no: u32) -> (r: Frc<T>)
        requires
            valid_budget(weight as nat),
        ensures
            r.wf(),
            r.value() == cell.value(),
            r.budget() == weight,
            r.owner() == thread_no,
    {
        Frc { weight, cell, thread_no }
    }

    /// A handle on a fresh cell holding `data`, made on thread `thread_no`:
    /// the cell's weight and the handle's budget both start at `DEFAULT_WEIGHT`.
    pub fn new(data: T, thread_no: u32) -> (r: Frc<T>)
        ensures
            r.wf(),
            r.value() == data,
            r.budget() == DEFAULT_WEIGHT,
            r.owner() == thread_no,
    {
        proof {
            reveal_with_fuel(crate::weight::is_share, 18);
        }
        let cell = Arc::new(Inner::new(data, DEFAULT_WEIGHT));
        Frc { weight: DEFAULT_WEIGHT, cell, thread_no }
    }

    /// Clones the handle from thread `thread_no`. On the owning thread the
    /// budget is halved between the two handles, or, when it is down to one,
    /// both are replenished to `DEFAULT_WEIGHT` by one atomic add of
    /// `DEFAULT_ADD_WEIGHT - 1`. From another thread one atomic add of
    /// `DEFAULT_WEIGHT` grants the new handle its budget, and this one is
    /// left as it was.
    pub fn clone_on(&mut self, thread_no: u32) -> (r: Frc<T>)
        requires
            old(self).wf(),
        ensures
            final(self).wf(),
            r.wf(),
            final(self).budget() == clone_plan_spec(old(self).budget(), old(self).owner(), thread_no).0,
            r.budget() == clone_plan_spec(old(self).budget(), old(self).owner(), thread_no).1,
            final(self).owner() == old(self).owner(),
            final(self).value() == old(self).value(),
            r.owner() == thread_no,
            r.value() == old(self).value(),
    {
        let plan = plan_clone(self.weight, self.thread_no, thread_no);
        if plan.add != 0 {
            let _ = self.cell.add_weight(plan.add);
        }
        self.weight = plan.keep;
        Frc { weight: plan.give, cell: share_cell(&self.cell), thread_no }
    }

    /// Gives the handle's budget back to the cell and returns what remains of
    /// the cell's weight; `Some(0)` means this was the cell's last share.
    pub fn release(self) -> (r: Option<usize>)
        ensures
            exists|prev: usize| r == after_drop(prev as nat, self.budget()),
    {
        let r = self.cell.drop_weight(self.weight);
        proof {
            let prev = choose|prev: usize| r == after_drop(prev as nat, self.weight as nat);
            assert(r == after_drop(prev as nat, self.budget()));
        }
        r
    }

    /// The value the handle points to.
    pub fn as_ref(&self) -> (r: &T)
        ensures
            *r == self.value(),
    {
        self.cell.data()
    }

    /// The budget this handle holds.
    pub fn local_budget(&self) -> (r: usize)
        ensures
            r == self.budget(),
    {
        self.weight
    }

    /// The thread that made this handle.
    pub fn owner_thread(&self) -> (r: u32)
        ensures
            r == self.owner(),
    {
        self.thread_no
    }

    /// The cell's shared weight at the time of the read.
    pub fn shared_weight(&self) -> usize {
        self.cell.current_weight()
    }
}

/// Two handles are equal when their payloads are.
impl<T: PartialEq + PartialEqSpec> PartialEq for Frc<T> {
    fn eq(&self, other: &Frc<T>) -> (r: bool) {
        self.as_ref().eq(other.as_ref())
    }
}

impl<T: PartialEq + PartialEqSpec> vstd::std_specs::cmp::PartialEqSpecImpl for Frc<T> {
    open spec fn obeys_eq_spec() -> bool {
        T::obeys_eq_spec()
    }

    open spec fn eq_spec(&self, other: &Frc<T>) -> bool {
        self.value().eq_spec(&other.value())
    }
}

/// Handles order as their payloads do.
impl<T: PartialOrd + PartialOrdSpec + PartialEqSpec> PartialOrd for Frc<T> {
    fn partial_cmp(&self, other: &Frc<T>) -> (r: Option<std::cmp::Ordering>) {
        self.as_ref().partial_cmp(other.as_ref())
    }
}

impl<T: PartialOrd + PartialOrdSpec + PartialEqSpec> vstd::std_specs::cmp::PartialOrdSpecImpl for Frc<T> {
    open spec fn obeys_partial_cmp_spec() -> bool {
        T::obeys_partial_cmp_spec()
    }

    open spec fn partial_cmp_spec(&self, other: &Frc<T>) -> Option<std::cmp::Ordering> {
        self.value().partial_cmp_spec(&other.value())
    }
}

} // verus!
