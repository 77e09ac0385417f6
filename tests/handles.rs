use frc::weight::{plan_clone, ClonePlan};
use frc::inner::{weight_after_add, weight_after_drop};
use frc::{Frc, Inner, Singleton, DEFAULT_ADD_WEIGHT, DEFAULT_WEIGHT};
use std::sync::atomic::{AtomicUsize, Ordering};
use std::sync::Arc;

struct Counted {
    value: u32,
    drops: Arc<AtomicUsize>,
}

impl Drop for Counted {
    fn drop(&mut self) {
        self.drops.fetch_add(1, Ordering::SeqCst);
    }
}

fn plan_tuple(p: ClonePlan) -> (usize, usize, usize) {
    (p.keep, p.give, p.add)
}

#[test]
fn new_handle_round_trips_value() {
    let h = Frc::new(String::from("payload"), 3);
    assert_eq!(h.as_ref(), "payload");
    assert_eq!(h.local_budget(), DEFAULT_WEIGHT);
    assert_eq!(h.owner_thread(), 3);
    assert_eq!(h.shared_weight(), DEFAULT_WEIGHT);
    assert_eq!(h.release(), Some(0));
}

#[test]
fn same_thread_clones_halve_then_replenish_once() {
    let mut h0 = Frc::new(7u64, 1);
    let mut clones = Vec::new();
    let mut atomic_adds = 0;
    let mut expected = DEFAULT_WEIGHT;
    for _ in 0..16 {
        let plan = plan_clone(h0.local_budget(), h0.owner_thread(), 1);
        if plan.add != 0 {
            atomic_adds += 1;
        }
        let c = h0.clone_on(1);
        expected /= 2;
        assert_eq!(h0.local_budget(), expected);
        assert_eq!(c.local_budget(), expected);
        assert_eq!(*c.as_ref(), 7);
        clones.push(c);
    }
    assert_eq!(h0.local_budget(), 1);
    assert_eq!(h0.shared_weight(), DEFAULT_WEIGHT);
    let plan = plan_clone(h0.local_budget(), h0.owner_thread(), 1);
    if plan.add != 0 {
        atomic_adds += 1;
    }
    assert_eq!(plan.add, DEFAULT_ADD_WEIGHT - 1);
    let c = h0.clone_on(1);
    assert_eq!(h0.local_budget(), DEFAULT_WEIGHT);
    assert_eq!(c.local_budget(), DEFAULT_WEIGHT);
    assert_eq!(atomic_adds, 1);
    clones.push(c);
    let sum: usize = clones.iter().map(|c| c.local_budget()).sum::<usize>() + h0.local_budget();
    assert_eq!(h0.shared_weight(), sum);
    assert_eq!(sum, 3 * DEFAULT_WEIGHT - 1);
}

#[test]
fn cross_thread_clone_costs_one_grant() {
    let mut a = Frc::new(5i32, 10);
    let plan = plan_clone(a.local_budget(), a.owner_thread(), 20);
    assert_eq!(plan_tuple(plan), (DEFAULT_WEIGHT, DEFAULT_WEIGHT, DEFAULT_WEIGHT));
    let b = a.clone_on(20);
    assert_eq!(b.local_budget(), 65536);
    assert_eq!(b.owner_thread(), 20);
    assert_eq!(a.local_budget(), DEFAULT_WEIGHT);
    assert_eq!(a.owner_thread(), 10);
    assert_eq!(a.shared_weight(), 2 * DEFAULT_WEIGHT);
    assert_eq!(*b.as_ref(), 5);
}

#[test]
fn same_thread_clone_makes_no_addition() {
    assert_eq!(plan_tuple(plan_clone(64, 4, 4)), (32, 32, 0));
    assert_eq!(plan_tuple(plan_clone(2, 4, 4)), (1, 1, 0));
    assert_eq!(plan_tuple(plan_clone(1, 4, 4)), (DEFAULT_WEIGHT, DEFAULT_WEIGHT, DEFAULT_ADD_WEIGHT - 1));
    assert_eq!(plan_tuple(plan_clone(1, 4, 5)), (1, DEFAULT_WEIGHT, DEFAULT_WEIGHT));
    let mut h = Frc::new(0u8, 4);
    let before = h.shared_weight();
    let c = h.clone_on(4);
    assert_eq!(h.shared_weight(), before);
    assert_eq!(c.local_budget() + h.local_budget(), before);
}

#[test]
fn weight_conserved_through_mixed_clones_and_releases() {
    let mut h = Frc::new(1u8, 0);
    let mut c1 = h.clone_on(0);
    let c2 = c1.clone_on(9);
    let c3 = h.clone_on(9);
    let total = h.local_budget() + c1.local_budget() + c2.local_budget() + c3.local_budget();
    assert_eq!(h.shared_weight(), total);
    let left = c1.local_budget() + c2.local_budget() + c3.local_budget();
    assert_eq!(h.release(), Some(left));
    let left = c2.local_budget() + c3.local_budget();
    assert_eq!(c1.release(), Some(left));
    let left = c3.local_budget();
    assert_eq!(c2.release(), Some(left));
    assert_eq!(c3.release(), Some(0));
}

#[test]
fn payload_freed_exactly_once_after_last_release() {
    let drops = Arc::new(AtomicUsize::new(0));
    let mut h = Frc::new(Counted { value: 1, drops: drops.clone() }, 1);
    let mut handles = Vec::new();
    for t in 0..6u32 {
        handles.push(h.clone_on(t % 3));
    }
    let mut zeros = 0;
    while let Some(x) = handles.pop() {
        assert_eq!(x.as_ref().value, 1);
        if x.release() == Some(0) {
            zeros += 1;
        }
        assert_eq!(drops.load(Ordering::SeqCst), 0);
    }
    assert_eq!(h.release(), Some(0));
    zeros += 1;
    assert_eq!(zeros, 1);
    assert_eq!(drops.load(Ordering::SeqCst), 1);
}

#[test]
fn singleton_gets_share_one_cell() {
    let drops = Arc::new(AtomicUsize::new(0));
    let s = Singleton::new(Counted { value: 10, drops: drops.clone() });
    let a = s.get(1);
    let b = s.get(2);
    assert_eq!(a.as_ref().value, 10);
    assert_eq!(b.as_ref().value, 10);
    assert_eq!(a.local_budget(), DEFAULT_WEIGHT);
    assert_eq!(b.owner_thread(), 2);
    assert_eq!(a.shared_weight(), 2 * DEFAULT_WEIGHT + 1);
    assert_eq!(a.release(), Some(DEFAULT_WEIGHT + 1));
    assert_eq!(b.release(), Some(1));
    assert_eq!(drops.load(Ordering::SeqCst), 0);
    assert_eq!(s.release(), Some(Some(0)));
    assert_eq!(drops.load(Ordering::SeqCst), 1);
}

#[test]
fn singleton_replace_hands_back_previous() {
    let mut s = Singleton::new(10);
    let prev = s.replace(20, 7).unwrap();
    assert_eq!(*prev.as_ref(), 10);
    assert_eq!(prev.local_budget(), 1);
    assert_eq!(prev.owner_thread(), 7);
    let g = s.get(7);
    assert_eq!(*g.as_ref(), 20);
    assert_eq!(prev.release(), Some(0));
    assert_eq!(g.release(), Some(1));
    assert_eq!(s.release(), Some(Some(0)));
}

#[test]
fn replaced_handle_with_unit_budget_replenishes() {
    let mut s = Singleton::new(3u16);
    let mut prev = s.replace(4, 1).unwrap();
    let c = prev.clone_on(1);
    assert_eq!(prev.local_budget(), DEFAULT_WEIGHT);
    assert_eq!(c.local_budget(), DEFAULT_WEIGHT);
    assert_eq!(prev.shared_weight(), DEFAULT_ADD_WEIGHT);
}

#[test]
fn empty_singleton() {
    let mut s: Singleton<u8> = Singleton::default();
    assert!(!s.is_occupied());
    assert!(s.replace(1, 0).is_none());
    assert!(s.is_occupied());
    assert_eq!(*s.get(0).as_ref(), 1);
    let e: Singleton<u8> = Singleton::default();
    assert_eq!(e.release(), None);
}

#[test]
fn cell_counter_arithmetic() {
    let cell = Inner::new(9u8, 5);
    assert_eq!(*cell.data(), 9);
    assert_eq!(cell.add_weight(3), Some(8));
    assert_eq!(cell.current_weight(), 8);
    assert_eq!(cell.drop_weight(8), Some(0));
    assert_eq!(weight_after_add(usize::MAX, 1), None);
    assert_eq!(weight_after_add(2, 3), Some(5));
    assert_eq!(weight_after_drop(2, 3), None);
    assert_eq!(weight_after_drop(7, 3), Some(4));
}

#[test]
fn handles_compare_by_payload() {
    let a = Frc::new(3u32, 0);
    let b = Frc::new(3u32, 1);
    let c = Frc::new(4u32, 0);
    assert!(a == b);
    assert!(a != c);
    assert!(a < c);
    assert_eq!(c.partial_cmp(&b), Some(std::cmp::Ordering::Greater));
}

#[test]
fn odd_budget_plan_follows_floor_halving() {
    assert_eq!(plan_tuple(plan_clone(3, 1, 1)), (1, 1, 0));
    assert_eq!(plan_tuple(plan_clone(DEFAULT_WEIGHT, 1, 1)), (32768, 32768, 0));
}
