//! One replaceable value, handed out as handles.
use crate::imp::{share_cell, Frc};
use crate::inner::Inner;
use crate::weight::DEFAULT_WEIGHT;
use std::sync::Arc;
use vstd::prelude::*;

verus! {

/// A slot holding at most one cell. The singleton holds a unit share of the
/// cell in its slot; `get` hands out handles with a fresh budget.
pub struct Singleton<T> {
    slot: Option<Arc<Inner<T>>>,
}

impl<T> Singleton<T> {
    /// The value in the slot, if any.
    pub closed spec fn current(&self) -> Option<T> {
        match self.slot {
            Some(cell) => Some(cell.value()),
            None => None,
        }
    }

    /// A singleton whose slot holds a fresh cell with `data` and weight one.
    pub fn new(data: T) -> (r: Singleton<T>)
        ensures
            r.current() == Some(data),
    {
        Singleton { slot: Some(Arc::new(Inner::new(data, 1))) }
    }

    /// A singleton with an empty slot.
    pub fn default() -> (r: Singleton<T>)
        ensures
            r.current() == None::<T>,
    {
        Singleton { slot: None }
    }

    /// Whether a value has been installed.
    pub fn is_occupied(&self) -> (r: bool)
        ensures
            r == self.current().is_some(),
    {
        self.slot.is_some()
    }

    /// Installs a fresh cell holding `data`, with weight one. The cell it
    /// displaces, if any, comes back as a handle of budget one made on
    /// thread `thread_no`: the singleton's unit share passes to the caller.
    pub fn replace(&mut self, data: T, thread_no: u32) -> (r: Option<Frc<T>>)
        ensures
            final(self).current() == Some(data),
            r.is_some() == old(self).current().is_some(),
            r matches Some(h) ==> {
                &&& h.wf()
                &&& Some(h.value()) == old(self).current()
                &&& h.budget() == 1
                &&& h.owner() == thread_no
            },
    {
        let fresh = Arc::new(Inner::new(data, 1));
        let prev = self.slot.take();
        self.slot = Some(fresh);
        proof {
            reveal_with_fuel(crate::weight::is_share, 2);
        }
        match prev {
            Some(cell) => Some(Frc::from_cell(cell, 1, thread_no)),
            None => None,
        }
    }

    /// A handle with budget `DEFAULT_WEIGHT` on the cell in the slot, made on
    /// thread `thread_no`; one atomic add of `DEFAULT_WEIGHT` pays for it.
    pub fn get(&self, thread_no: u32) -> (r: Frc<T>)
        requires
            self.current().is_some(),
        ensures
            r.wf(),
            Some(r.value()) == self.current(),
            r.budget() == DEFAULT_WEIGHT,
            r.owner() == thread_no,
    {
        proof {
            reveal_with_fuel(crate::weight::is_share, 18);
        }
        let cell = match &self.slot {
            Some(c) => c,
            None => unreached(),
        };
        let _ = cell.add_weight(DEFAULT_WEIGHT);
        Frc::from_cell(share_cell(cell), DEFAULT_WEIGHT, thread_no)
    }

    /// Gives the singleton's unit share back to the cell in its slot and
    /// returns what remains of that cell's weight: `Some(0)` means the
    /// singleton held the cell's last share. `None` for an empty slot.
    pub fn release(self) -> (r: Option<Option<usize>>)
        ensures
            r.is_some() == self.current().is_some(),
            r matches Some(rem) ==> exists|prev: usize|
                rem == crate::inner::after_drop(prev as nat, 1),
    {
        match self.slot {
            Some(cell) => Some(cell.drop_weight(1)),
            None => None,
        }
    }
}

} // verus!
