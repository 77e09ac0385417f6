//! The weight accounting of a cell, as pure decisions and as a model.
//!
//! A cell's shared weight is, at every quiescent point, the sum of the shares
//! held against it: the budget of each live handle and, for a cell installed in
//! a `Singleton`, the singleton's own unit share.
use vstd::prelude::*;

verus! {

/// The budget a fresh handle starts with, and the grant of a cross-thread clone.
pub const DEFAULT_WEIGHT: usize = 65536;

/// Twice `DEFAULT_WEIGHT`: what a replenishing clone brings the two handles to.
pub const DEFAULT_ADD_WEIGHT: usize = 131072;

/// A share is a power of two: halving it on a same-thread clone loses nothing.
pub open spec fn is_share(n: nat) -> bool
    decreases n,
{
    if n <= 1 {
        n == 1
    } else {
        n % 2 == 0 && is_share(n / 2)
    }
}

/// A budget a handle may hold: a power of two no larger than `DEFAULT_WEIGHT`.
pub open spec fn valid_budget(n: nat) -> bool {
    is_share(n) && n <= DEFAULT_WEIGHT
}

/// What a clone does: the budget the original keeps, the budget the new
/// handle gets, and what is added to the shared weight (zero: no atomic op).
pub struct ClonePlan {
    pub keep: usize,
    pub give: usize,
    pub add: usize,
}

/// The clone decision for a handle with `budget`, owned by thread `owner`,
/// cloned from thread `caller`.
pub open spec fn clone_plan_spec(budget: nat, owner: u32, caller: u32) -> (nat, nat, nat) {
    if owner != caller {
        (budget, DEFAULT_WEIGHT as nat, DEFAULT_WEIGHT as nat)
    } else if budget > 1 {
        (budget / 2, budget / 2, 0)
    } else {
        (DEFAULT_WEIGHT as nat, DEFAULT_WEIGHT as nat, (DEFAULT_ADD_WEIGHT - budget) as nat)
    }
}

/// `p` is the plan `clone_plan_spec` gives.
pub open spec fn plan_matches(p: ClonePlan, budget: nat, owner: u32, caller: u32) -> bool {
    clone_plan_spec(budget, owner, caller) == (p.keep as nat, p.give as nat, p.add as nat)
}

proof fn lemma_half_share(n: nat)
    requires
        is_share(n),
        n > 1,
    ensures
        n % 2 == 0,
        is_share(n / 2),
{
}

proof fn lemma_default_is_share()
    ensures
        valid_budget(DEFAULT_WEIGHT as nat),
        valid_budget(1),
{
    reveal_with_fuel(is_share, 18);
}

/// Decides a clone: halve the budget on the owning thread, replenish both
/// handles when the budget is down to one, grant a fresh budget to another
/// thread. Only the last two add to the shared weight.
pub fn plan_clone(budget: usize, owner: u32, caller: u32) -> (r: ClonePlan)
    requires
        1 <= budget <= DEFAULT_WEIGHT,
    ensures
        plan_matches(r, budget as nat, owner, caller),
        valid_budget(budget as nat) ==> valid_budget(r.keep as nat) && valid_budget(r.give as nat)
            && r.keep + r.give == budget + r.add,
        owner == caller && budget > 1 ==> r.add == 0,
        owner != caller ==> r.keep == budget,
{
    proof {
        lemma_default_is_share();
    }
    if owner != caller {
        ClonePlan { keep: budget, give: DEFAULT_WEIGHT, add: DEFAULT_WEIGHT }
    } else if budget > 1 {
        proof {
            if valid_budget(budget as nat) {
                lemma_half_share(budget as nat);
            }
        }
        let half = budget / 2;
        ClonePlan { keep: half, give: half, add: 0 }
    } else {
        ClonePlan { keep: DEFAULT_WEIGHT, give: DEFAULT_WEIGHT, add: DEFAULT_ADD_WEIGHT - budget }
    }
}

/// The sum of a sequence of shares.
pub open spec fn total(shares: Seq<nat>) -> nat
    decreases shares.len(),
{
    if shares.len() == 0 {
        0
    } else {
        total(shares.drop_last()) + shares.last()
    }
}

/// The cell's weight is the sum of the shares held against it, and each
/// share is a valid budget.
pub open spec fn conserved(weight: nat, shares: Seq<nat>) -> bool {
    &&& weight == total(shares)
    &&& forall|i: int| 0 <= i < shares.len() ==> valid_budget(#[trigger] shares[i])
}

proof fn lemma_total_update(s: Seq<nat>, i: int, v: nat)
    requires
        0 <= i < s.len(),
    ensures
        total(s.update(i, v)) + s[i] == total(s) + v,
    decreases s.len(),
{
    let u = s.update(i, v);
    if i == s.len() - 1 {
        assert(u.drop_last() =~= s.drop_last());
    } else {
        assert(u.drop_last() =~= s.drop_last().update(i, v));
        lemma_total_update(s.drop_last(), i, v);
    }
}

proof fn lemma_total_remove(s: Seq<nat>, i: int)
    requires
        0 <= i < s.len(),
    ensures
        total(s.remove(i)) + s[i] == total(s),
    decreases s.len(),
{
    let r = s.remove(i);
    if i == s.len() - 1 {
        assert(r =~= s.drop_last());
    } else {
        assert(r.drop_last() =~= s.drop_last().remove(i));
        lemma_total_remove(s.drop_last(), i);
    }
}

proof fn lemma_total_covers_len(s: Seq<nat>)
    requires
        forall|i: int| 0 <= i < s.len() ==> #[trigger] s[i] >= 1,
    ensures
        total(s) >= s.len(),
    decreases s.len(),
{
    if s.len() > 0 {
        lemma_total_covers_len(s.drop_last());
    }
}

/// A fresh handle's cell (weight `DEFAULT_WEIGHT`, one handle of that
/// budget) and a fresh singleton's cell (weight one, the singleton's unit
/// share) both start conserved.
pub proof fn law_fresh_cells_conserved()
    ensures
        conserved(DEFAULT_WEIGHT as nat, seq![DEFAULT_WEIGHT as nat]),
        conserved(1, seq![1nat]),
{
    lemma_default_is_share();
    assert(seq![DEFAULT_WEIGHT as nat].drop_last() =~= Seq::<nat>::empty());
    assert(seq![1nat].drop_last() =~= Seq::<nat>::empty());
    reveal_with_fuel(total, 2);
    assert(total(seq![DEFAULT_WEIGHT as nat]) == DEFAULT_WEIGHT);
    assert(total(seq![1nat]) == 1);
}

/// A clone of the share at `i`, whatever the threads, keeps the weight
/// conserved: the original keeps its new budget, the new handle's budget
/// joins the shares, and the plan's addition joins the weight.
pub proof fn law_clone_conserves(weight: nat, shares: Seq<nat>, i: int, owner: u32, caller: u32)
    requires
        conserved(weight, shares),
        0 <= i < shares.len(),
    ensures
        ({
            let (keep, give, add) = clone_plan_spec(shares[i], owner, caller);
            conserved(weight + add as nat, shares.update(i, keep).push(give))
        }),
{
    let (keep, give, add) = clone_plan_spec(shares[i], owner, caller);
    lemma_default_is_share();
    if owner == caller && shares[i] > 1 {
        lemma_half_share(shares[i]);
    }
    assert(valid_budget(keep) && valid_budget(give));
    let u = shares.update(i, keep);
    lemma_total_update(shares, i, keep);
    assert(u.push(give).drop_last() =~= u);
    assert forall|j: int| 0 <= j < u.push(give).len() implies valid_budget(#[trigger] u.push(give)[j]) by {
        if j < u.len() && j != i {
            assert(u.push(give)[j] == shares[j]);
        }
    }
}

/// A handle handed out by a singleton adds `DEFAULT_WEIGHT` to the weight
/// and a share of that budget: the weight stays conserved.
pub proof fn law_get_conserves(weight: nat, shares: Seq<nat>)
    requires
        conserved(weight, shares),
    ensures
        conserved(weight + DEFAULT_WEIGHT as nat, shares.push(DEFAULT_WEIGHT as nat)),
{
    lemma_default_is_share();
    assert(shares.push(DEFAULT_WEIGHT as nat).drop_last() =~= shares);
    assert forall|j: int| 0 <= j < shares.len() + 1 implies valid_budget(
        #[trigger] shares.push(DEFAULT_WEIGHT as nat)[j],
    ) by {
        if j < shares.len() {
            assert(shares.push(DEFAULT_WEIGHT as nat)[j] == shares[j]);
        }
    }
}

/// Releasing the share at `i` never takes more than the weight holds, leaves
/// the remaining shares conserved, and leaves a remainder of zero exactly
/// when it was the last share: so exactly one release sees zero, the last.
pub proof fn law_release_frees_exactly_last(weight: nat, shares: Seq<nat>, i: int)
    requires
        conserved(weight, shares),
        0 <= i < shares.len(),
    ensures
        shares[i] <= weight,
        conserved((weight - shares[i]) as nat, shares.remove(i)),
        (weight - shares[i] == 0) == (shares.len() == 1),
{
    lemma_total_remove(shares, i);
    let r = shares.remove(i);
    assert forall|j: int| 0 <= j < r.len() implies valid_budget(#[trigger] r[j]) by {
        if j < i {
            assert(r[j] == shares[j]);
        } else {
            assert(r[j] == shares[j + 1]);
        }
    }
    assert forall|j: int| 0 <= j < r.len() implies #[trigger] r[j] >= 1 by {
        assert(valid_budget(r[j]));
    }
    lemma_total_covers_len(r);
}

/// One operation on a cell's shares, in the order the cell's atomic counter
/// sees them: a clone of the share at `index`, made by thread `caller` from a
/// handle owned by `owner`, or the release of the share at `index`.
pub enum ShareStep {
    Clone { index: nat, owner: u32, caller: u32 },
    Release { index: nat },
}

/// Runs `steps` from a cell with `weight` and `shares`; a step naming no live
/// share does nothing. Gives the final weight, the final shares, and how many
/// releases saw a remainder of zero.
pub open spec fn run(weight: nat, shares: Seq<nat>, steps: Seq<ShareStep>) -> (nat, Seq<nat>, nat)
    decreases steps.len(),
{
    if steps.len() == 0 {
        (weight, shares, 0)
    } else {
        let rest = steps.drop_first();
        match steps[0] {
            ShareStep::Clone { index, owner, caller } => {
                if index < shares.len() {
                    let (keep, give, add) = clone_plan_spec(shares[index as int], owner, caller);
                    run(weight + add, shares.update(index as int, keep).push(give), rest)
                } else {
                    run(weight, shares, rest)
                }
            },
            ShareStep::Release { index } => {
                if index < shares.len() {
                    let remaining = weight - shares[index as int];
                    let (w, s, frees) = run(
                        remaining as nat,
                        shares.remove(index as int),
                        rest,
                    );
                    (w, s, frees + if remaining == 0 { 1nat } else { 0nat })
                } else {
                    run(weight, shares, rest)
                }
            },
        }
    }
}

/// Whatever clones and releases reach a conserved cell, in whatever order,
/// the weight stays conserved, and the number of releases that see a
/// remainder of zero is one if the run took the cell from some shares to
/// none, and zero otherwise: the cell is freed exactly once, after its last
/// share is released, and never before.
pub proof fn law_freed_exactly_once(weight: nat, shares: Seq<nat>, steps: Seq<ShareStep>)
    requires
        conserved(weight, shares),
    ensures
        ({
            let (w, s, frees) = run(weight, shares, steps);
            &&& conserved(w, s)
            &&& shares.len() == 0 ==> s.len() == 0
            &&& frees == if shares.len() > 0 && s.len() == 0 { 1nat } else { 0nat }
        }),
    decreases steps.len(),
{
    if steps.len() > 0 {
        let rest = steps.drop_first();
        match steps[0] {
            ShareStep::Clone { index, owner, caller } => {
                if index < shares.len() {
                    law_clone_conserves(weight, shares, index as int, owner, caller);
                    let (keep, give, add) = clone_plan_spec(shares[index as int], owner, caller);
                    law_freed_exactly_once(
                        weight + add,
                        shares.update(index as int, keep).push(give),
                        rest,
                    );
                } else {
                    law_freed_exactly_once(weight, shares, rest);
                }
            },
            ShareStep::Release { index } => {
                if index < shares.len() {
                    law_release_frees_exactly_last(weight, shares, index as int);
                    law_freed_exactly_once(
                        (weight - shares[index as int]) as nat,
                        shares.remove(index as int),
                        rest,
                    );
                } else {
                    law_freed_exactly_once(weight, shares, rest);
                }
            },
        }
    }
}

} // verus!
