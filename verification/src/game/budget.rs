//! The monthly budget: at most one allocation for each expense category.

use crate::amount::Amount;
use crate::game::expenses::{BudgetAllocation, ExpenseCategory};
use vstd::prelude::*;

verus! {

/// The allocations of a month, one at most for each category.
#[derive(Debug, Clone, Copy, PartialEq)]
pub struct Budget {
    essential: Option<BudgetAllocation>,
    lifestyle: Option<BudgetAllocation>,
    health: Option<BudgetAllocation>,
    transportation: Option<BudgetAllocation>,
    education: Option<BudgetAllocation>,
    other: Option<BudgetAllocation>,
}

/// Whether an allocation, if there is one, is made for the category.
pub open spec fn made_for(slot: Option<BudgetAllocation>, category: ExpenseCategory) -> bool {
    slot is Some ==> slot->Some_0.category == category
}

/// The allocation as it stands at the start of a month: with nothing spent.
pub open spec fn renewed(before: Option<BudgetAllocation>, after: Option<BudgetAllocation>) -> bool {
    &&& before is Some <==> after is Some
    &&& before is Some ==> {
        &&& after->Some_0.category == before->Some_0.category
        &&& after->Some_0.allocated == before->Some_0.allocated
        &&& after->Some_0.spent == Amount::whole(0)
        &&& after->Some_0.spent@ == 0
    }
}

/// An allocation with nothing spent.
fn renew(slot: Option<BudgetAllocation>) -> (r: Option<BudgetAllocation>)
    ensures
        renewed(slot, r),
{
    match slot {
        Some(allocation) => {
            let mut fresh = allocation;
            fresh.reset_month();
            Some(fresh)
        },
        None => None,
    }
}

impl Budget {
    #[verifier::type_invariant]
    spec fn keyed_by_category(self) -> bool {
        &&& made_for(self.essential, ExpenseCategory::Essential)
        &&& made_for(self.lifestyle, ExpenseCategory::Lifestyle)
        &&& made_for(self.health, ExpenseCategory::Health)
        &&& made_for(self.transportation, ExpenseCategory::Transportation)
        &&& made_for(self.education, ExpenseCategory::Education)
        &&& made_for(self.other, ExpenseCategory::Other)
    }

    /// The allocation for the category, if one is set.
    pub closed spec fn allocation(self, category: ExpenseCategory) -> Option<BudgetAllocation> {
        match category {
            ExpenseCategory::Essential => self.essential,
            ExpenseCategory::Lifestyle => self.lifestyle,
            ExpenseCategory::Health => self.health,
            ExpenseCategory::Transportation => self.transportation,
            ExpenseCategory::Education => self.education,
            ExpenseCategory::Other => self.other,
        }
    }

    /// A budget without allocations.
    pub fn new() -> (r: Budget)
        ensures
            forall|c: ExpenseCategory| r.allocation(c) is None,
    {
        Budget {
            essential: None,
            lifestyle: None,
            health: None,
            transportation: None,
            education: None,
            other: None,
        }
    }

    /// The allocation for the category, if one is set.
    pub fn get(&self, category: ExpenseCategory) -> (r: Option<BudgetAllocation>)
        ensures
            r == self.allocation(category),
            made_for(r, category),
    {
        proof {
            use_type_invariant(self);
        }
        match category {
            ExpenseCategory::Essential => self.essential,
            ExpenseCategory::Lifestyle => self.lifestyle,
            ExpenseCategory::Health => self.health,
            ExpenseCategory::Transportation => self.transportation,
            ExpenseCategory::Education => self.education,
            ExpenseCategory::Other => self.other,
        }
    }

    /// Sets the allocation for a category to the given amount, with nothing
    /// spent, in place of the one it had.
    pub fn set(&mut self, category: ExpenseCategory, allocated: Amount)
        ensures
            final(self).allocation(category) is Some,
            final(self).allocation(category)->Some_0.category == category,
            final(self).allocation(category)->Some_0.allocated == allocated,
            final(self).allocation(category)->Some_0.spent == Amount::whole(0),
            final(self).allocation(category)->Some_0.spent@ == 0,
            forall|c: ExpenseCategory|
                c != category ==> final(self).allocation(c) == old(self).allocation(c),
    {
        self.put(BudgetAllocation::new(category, allocated));
    }

    /// Puts an allocation in place of the one that its category had.
    pub fn put(&mut self, allocation: BudgetAllocation)
        ensures
            final(self).allocation(allocation.category) == Some(allocation),
            forall|c: ExpenseCategory|
                c != allocation.category ==> final(self).allocation(c) == old(self).allocation(c),
    {
        proof {
            use_type_invariant(&*self);
        }
        match allocation.category {
            ExpenseCategory::Essential => {
                self.essential = Some(allocation);
            },
            ExpenseCategory::Lifestyle => {
                self.lifestyle = Some(allocation);
            },
            ExpenseCategory::Health => {
                self.health = Some(allocation);
            },
            ExpenseCategory::Transportation => {
                self.transportation = Some(allocation);
            },
            ExpenseCategory::Education => {
                self.education = Some(allocation);
            },
            ExpenseCategory::Other => {
                self.other = Some(allocation);
            },
        }
    }

    /// Starts a new month: of every allocation nothing is spent.
    pub fn reset_month(&mut self)
        ensures
            forall|c: ExpenseCategory|
                renewed(old(self).allocation(c), #[trigger] final(self).allocation(c)),
    {
        proof {
            use_type_invariant(&*self);
        }
        *self = Budget {
            essential: renew(self.essential),
            lifestyle: renew(self.lifestyle),
            health: renew(self.health),
            transportation: renew(self.transportation),
            education: renew(self.education),
            other: renew(self.other),
        };
    }

    /// The allocations that are set, in the canonical order of their categories.
    pub fn allocations(&self) -> (r: Vec<BudgetAllocation>)
        ensures
            forall|i: int|
                0 <= i < r@.len() ==> self.allocation((#[trigger] r@[i]).category) == Some(r@[i]),
            forall|i: int, j: int|
                0 <= i < j < r@.len() ==> r@[i].category.rank() < r@[j].category.rank(),
            forall|c: ExpenseCategory|
                (#[trigger] self.allocation(c)) is Some ==> r@.contains(self.allocation(c)->Some_0),
    {
        let mut out: Vec<BudgetAllocation> = Vec::new();
        let mut i: usize = 0;
        while i < 6
            invariant
                i <= 6,
                forall|k: int|
                    0 <= k < out@.len() ==> (#[trigger] out@[k]).category.rank() < i
                        && self.allocation(out@[k].category) == Some(out@[k]),
                forall|k: int, j: int|
                    0 <= k < j < out@.len() ==> out@[k].category.rank() < out@[j].category.rank(),
                forall|c: ExpenseCategory|
                    c.rank() < i && (#[trigger] self.allocation(c)) is Some ==> out@.contains(
                        self.allocation(c)->Some_0,
                    ),
            decreases 6 - i,
        {
            let category = ExpenseCategory::at(i);
            let ghost prev = out@;
            match self.get(category) {
                Some(allocation) => {
                    out.push(allocation);
                    proof {
                        assert(out@[out@.len() - 1] == allocation);
                        assert forall|c: ExpenseCategory|
                            c.rank() <= i && (#[trigger] self.allocation(c)) is Some implies out@.contains(
                            self.allocation(c)->Some_0,
                        ) by {
                            if c.rank() < i {
                                let w = choose|w: int|
                                    0 <= w < prev.len() && prev[w] == self.allocation(c)->Some_0;
                                assert(out@[w] == self.allocation(c)->Some_0);
                            } else {
                                assert(c == category);
                            }
                        }
                    }
                },
                None => {
                    proof {
                        assert forall|c: ExpenseCategory|
                            c.rank() <= i && (#[trigger] self.allocation(c)) is Some implies out@.contains(
                            self.allocation(c)->Some_0,
                        ) by {
                            if c.rank() == i {
                                assert(c == category);
                            }
                        }
                    }
                },
            }
            i = i + 1;
        }
        out
    }
}

} // verus!
