use vstd::prelude::*;
use crate::error::Error;
use crate::ledger::{row_is_for, Ledger, LedgerView};
use crate::models::{Budget, NewBudget};

verus! {

/// The category that holds what has not been assigned to any envelope: the
/// source and sink of the user's reassignments.
pub const POOL_CATEGORY_ID: i32 = 1;

/// Whether a number can be stored in an amount column.
pub open spec fn fits_amount(v: int) -> bool {
    i32::MIN <= v <= i32::MAX
}

/// The rows that one allocation touched, as they stand afterwards.
#[derive(Clone, Copy, Debug, PartialEq, Eq, Structural)]
pub struct Allocation {
    /// The row of the category that the call named.
    pub target: Budget,
    /// The row of the funding source, where one was given.
    pub source: Option<Budget>,
}

/// One call of the allocation engine.
#[derive(Clone, Copy, Debug, PartialEq, Eq, Structural)]
pub struct AllocationCall {
    pub category_id: i32,
    pub month: i32,
    pub year: i32,
    pub amount: i32,
    pub source_category_id: Option<i32>,
}

impl LedgerView {
    /// The allocation row of this category in this month, where there is
    /// one.
    pub open spec fn budget_row(self, category_id: int, month: int, year: int) -> Budget {
        self.budgets[self.budget_pos(category_id, month, year)]
    }

    /// What is assigned to this category in this month: 0 without a row.
    pub open spec fn assigned_to(self, category_id: int, month: int, year: int) -> int {
        if self.has_budget(category_id, month, year) {
            self.budget_row(category_id, month, year).assigned as int
        } else {
            0
        }
    }

    /// The activity of this category in this month: 0 without a row.
    pub open spec fn activity_of(self, category_id: int, month: int, year: int) -> int {
        if self.has_budget(category_id, month, year) {
            self.budget_row(category_id, month, year).activity as int
        } else {
            0
        }
    }

    /// What is available to this category in this month: 0 without a row.
    pub open spec fn available_to(self, category_id: int, month: int, year: int) -> int {
        if self.has_budget(category_id, month, year) {
            self.budget_row(category_id, month, year).available as int
        } else {
            0
        }
    }

    /// Whether the store can take an activity of `amount` on this
    /// category's month: the sums fit their columns, or a new row can get
    /// an id.
    pub open spec fn can_post_activity(
        self,
        category_id: i32,
        month: i32,
        year: i32,
        amount: i32,
    ) -> bool {
        if self.has_budget(category_id as int, month as int, year as int) {
            let row = self.budget_row(category_id as int, month as int, year as int);
            fits_amount(row.activity + amount) && fits_amount(row.available + amount)
        } else {
            self.next_budget_id < i32::MAX
        }
    }

    /// Activity posting: `amount` is added to the activity and to what is
    /// available; without a row, one is made with nothing assigned.
    pub open spec fn post_activity(
        self,
        category_id: i32,
        month: i32,
        year: i32,
        amount: i32,
    ) -> LedgerView {
        if self.has_budget(category_id as int, month as int, year as int) {
            let row = self.budget_row(category_id as int, month as int, year as int);
            self.with_amounts(
                self.budget_pos(category_id as int, month as int, year as int),
                row.assigned,
                (row.activity + amount) as i32,
                (row.available + amount) as i32,
            )
        } else {
            self.with_budget(
                NewBudget {
                    month,
                    year,
                    category_id,
                    assigned: 0,
                    activity: amount,
                    available: amount,
                },
            )
        }
    }

    /// Whether the store can set what is assigned to this category's month
    /// to `amount`.
    pub open spec fn can_assign(self, category_id: i32, month: i32, year: i32, amount: i32) -> bool {
        if self.has_budget(category_id as int, month as int, year as int) {
            let row = self.budget_row(category_id as int, month as int, year as int);
            fits_amount(row.available + (amount - row.assigned))
        } else {
            self.next_budget_id < i32::MAX
        }
    }

    /// Assignment: what is assigned becomes `amount`, what is available
    /// moves by the change, the activity stays; without a row, one is made
    /// with no activity.
    pub open spec fn assign(self, category_id: i32, month: i32, year: i32, amount: i32) -> LedgerView {
        if self.has_budget(category_id as int, month as int, year as int) {
            let row = self.budget_row(category_id as int, month as int, year as int);
            self.with_amounts(
                self.budget_pos(category_id as int, month as int, year as int),
                amount,
                row.activity,
                (row.available + (amount - row.assigned)) as i32,
            )
        } else {
            self.with_budget(
                NewBudget {
                    month,
                    year,
                    category_id,
                    assigned: amount,
                    activity: 0,
                    available: amount,
                },
            )
        }
    }

    /// What the funding source of a reassignment receives: what was
    /// assigned before, less what is assigned now.
    pub open spec fn released(self, category_id: i32, month: i32, year: i32, amount: i32) -> int {
        self.assigned_to(category_id as int, month as int, year as int) - amount
    }

    /// Whether the store can carry an allocation through.
    pub open spec fn can_allocate(
        self,
        category_id: i32,
        month: i32,
        year: i32,
        amount: i32,
        source_category_id: Option<i32>,
    ) -> bool {
        match source_category_id {
            None => self.can_post_activity(category_id, month, year, amount),
            Some(source) => {
                let released = self.released(category_id, month, year, amount);
                &&& self.can_assign(category_id, month, year, amount)
                &&& fits_amount(released)
                &&& self.assign(category_id, month, year, amount).can_post_activity(
                    source,
                    month,
                    year,
                    released as i32,
                )
            },
        }
    }

    /// Why an allocation is refused, if it is: a category that does not
    /// exist is not found; a sum that leaves its column, or a table out of
    /// ids, is the store's refusal.
    pub open spec fn allocation_refusal(
        self,
        category_id: i32,
        month: i32,
        year: i32,
        amount: i32,
        source_category_id: Option<i32>,
    ) -> Option<Error> {
        if !self.has_category(category_id as int) {
            Some(Error::NotFound)
        } else if source_category_id matches Some(source) && !self.has_category(source as int) {
            Some(Error::NotFound)
        } else if !self.can_allocate(category_id, month, year, amount, source_category_id) {
            Some(Error::StoreError)
        } else {
            None
        }
    }

    /// The ledger after an allocation that is not refused. Without a
    /// source it is an activity posting. With a source it is an assignment
    /// followed by an activity posting, on the source, of what the
    /// assignment released.
    pub open spec fn allocate(
        self,
        category_id: i32,
        month: i32,
        year: i32,
        amount: i32,
        source_category_id: Option<i32>,
    ) -> LedgerView {
        match source_category_id {
            None => self.post_activity(category_id, month, year, amount),
            Some(source) => self.assign(category_id, month, year, amount).post_activity(
                source,
                month,
                year,
                self.released(category_id, month, year, amount) as i32,
            ),
        }
    }
}

impl Ledger {
    /// Whether the store can take an activity of `amount` on a category's
    /// month.
    pub fn can_post_activity(&self, category_id: i32, month: i32, year: i32, amount: i32) -> (ok:
        bool)
        requires
            self.wf(),
        ensures
            ok == self@.can_post_activity(category_id, month, year, amount),
    {
        match self.budget_index(category_id, month, year) {
            Some(i) => {
                let row = self.budgets()[i];
                row.activity.checked_add(amount).is_some() && row.available.checked_add(
                    amount,
                ).is_some()
            },
            None => self.has_budget_id_left(),
        }
    }

    /// Posts an activity of `amount` on a category's month.
    pub(crate) fn post_activity(&mut self, category_id: i32, month: i32, year: i32, amount: i32) -> (res:
        Option<Budget>)
        requires
            old(self).wf(),
        ensures
            final(self).wf(),
            res is Some == old(self)@.can_post_activity(category_id, month, year, amount),
            res matches Some(row) ==> {
                &&& final(self)@ == old(self)@.post_activity(category_id, month, year, amount)
                &&& final(self)@.has_budget(category_id as int, month as int, year as int)
                &&& row == final(self)@.budget_row(category_id as int, month as int, year as int)
            },
            res is None ==> final(self)@ == old(self)@,
    {
        match self.budget_index(category_id, month, year) {
            Some(i) => {
                let row = self.budgets()[i];
                let activity = match row.activity.checked_add(amount) {
                    Some(v) => v,
                    None => {
                        return None;
                    },
                };
                let available = match row.available.checked_add(amount) {
                    Some(v) => v,
                    None => {
                        return None;
                    },
                };
                self.set_amounts(i, row.assigned, activity, available);
                let after = self.budgets()[i];
                Some(after)
            },
            None => {
                if !self.has_budget_id_left() {
                    return None;
                }
                let row = NewBudget {
                    month,
                    year,
                    category_id,
                    assigned: 0,
                    activity: amount,
                    available: amount,
                };
                self.push_budget(row);
                let last = self.budgets().len() - 1;
                let after = self.budgets()[last];
                Some(after)
            },
        }
    }

    /// Sets what is assigned to a category's month to `amount`.
    pub(crate) fn assign(&mut self, category_id: i32, month: i32, year: i32, amount: i32) -> (res:
        Option<Budget>)
        requires
            old(self).wf(),
        ensures
            final(self).wf(),
            res is Some == old(self)@.can_assign(category_id, month, year, amount),
            res matches Some(row) ==> {
                &&& final(self)@ == old(self)@.assign(category_id, month, year, amount)
                &&& final(self)@.has_budget(category_id as int, month as int, year as int)
                &&& row == final(self)@.budget_row(category_id as int, month as int, year as int)
            },
            res is None ==> final(self)@ == old(self)@,
    {
        match self.budget_index(category_id, month, year) {
            Some(i) => {
                let row = self.budgets()[i];
                let wide: i64 = row.available as i64 + (amount as i64 - row.assigned as i64);
                if wide < i32::MIN as i64 || wide > i32::MAX as i64 {
                    return None;
                }
                self.set_amounts(i, amount, row.activity, wide as i32);
                let after = self.budgets()[i];
                Some(after)
            },
            None => {
                if !self.has_budget_id_left() {
                    return None;
                }
                let row = NewBudget {
                    month,
                    year,
                    category_id,
                    assigned: amount,
                    activity: 0,
                    available: amount,
                };
                self.push_budget(row);
                let last = self.budgets().len() - 1;
                let after = self.budgets()[last];
                Some(after)
            },
        }
    }

    /// Undoes an assignment that `assign` has just made on `before`.
    fn revert_assignment(
        &mut self,
        Ghost(before): Ghost<LedgerView>,
        category_id: i32,
        month: i32,
        year: i32,
        amount: i32,
        was: Option<Budget>,
    )
        requires
            before.wf(),
            before.can_assign(category_id, month, year, amount),
            old(self).wf(),
            old(self)@ == before.assign(category_id, month, year, amount),
            was is Some == before.has_budget(category_id as int, month as int, year as int),
            was matches Some(row) ==> row == before.budget_row(
                category_id as int,
                month as int,
                year as int,
            ),
        ensures
            final(self).wf(),
            final(self)@ == before,
    {
        match was {
            Some(row) => {
                let ghost i = before.budget_pos(category_id as int, month as int, year as int);
                let found = self.budget_index(category_id, month, year);
                proof {
                    assert(row_is_for(
                        self@.budgets[i],
                        category_id as int,
                        month as int,
                        year as int,
                    ));
                }
                let at = found.unwrap();
                self.set_amounts(at, row.assigned, row.activity, row.available);
                assert(self@.budgets =~= before.budgets);
            },
            None => {
                self.drop_newest_budget();
                assert(self@.budgets =~= before.budgets);
            },
        }
    }

    /// Applies one allocation to a category's month.
    ///
    /// Without a source, `amount` is an activity: it is added to the
    /// activity and to what is available. With a source, `amount` is what is
    /// assigned from now on: what is available moves by the change, and the
    /// source receives the opposite change as an activity. Either all of it
    /// happens or, with the error that says why, none of it.
    pub fn allocate(
        &mut self,
        category_id: i32,
        month: i32,
        year: i32,
        amount: i32,
        source_category_id: Option<i32>,
    ) -> (res: Result<Allocation, Error>)
        requires
            old(self).wf(),
        ensures
            final(self).wf(),
            match res {
                Ok(rows) => {
                    &&& old(self)@.allocation_refusal(
                        category_id,
                        month,
                        year,
                        amount,
                        source_category_id,
                    ) is None
                    &&& final(self)@ == old(self)@.allocate(
                        category_id,
                        month,
                        year,
                        amount,
                        source_category_id,
                    )
                    &&& final(self)@.has_budget(category_id as int, month as int, year as int)
                    &&& rows.target == final(self)@.budget_row(
                        category_id as int,
                        month as int,
                        year as int,
                    )
                    &&& rows.source is Some == source_category_id is Some
                    &&& source_category_id matches Some(source) ==> {
                        &&& final(self)@.has_budget(source as int, month as int, year as int)
                        &&& rows.source == Some(
                            final(self)@.budget_row(source as int, month as int, year as int),
                        )
                    }
                },
                Err(e) => {
                    &&& old(self)@.allocation_refusal(
                        category_id,
                        month,
                        year,
                        amount,
                        source_category_id,
                    ) == Some(e)
                    &&& final(self)@ == old(self)@
                },
            },
    {
        if self.category_index(category_id).is_none() {
            return Err(Error::NotFound);
        }
        let source = match source_category_id {
            None => {
                return match self.post_activity(category_id, month, year, amount) {
                    Some(target) => Ok(Allocation { target, source: None }),
                    None => Err(Error::StoreError),
                };
            },
            Some(source) => source,
        };
        if self.category_index(source).is_none() {
            return Err(Error::NotFound);
        }
        let ghost before = self@;
        let was = match self.budget_index(category_id, month, year) {
            Some(i) => Some(self.budgets()[i]),
            None => None,
        };
        let prior: i32 = match was {
            Some(row) => row.assigned,
            None => 0,
        };
        let released = match prior.checked_sub(amount) {
            Some(v) => v,
            None => {
                return Err(Error::StoreError);
            },
        };
        if self.assign(category_id, month, year, amount).is_none() {
            return Err(Error::StoreError);
        }
        match self.post_activity(source, month, year, released) {
            Some(source_row) => {
                let at = self.budget_index(category_id, month, year);
                proof {
                    lemma_post_activity_keeps_rows(
                        before.assign(category_id, month, year, amount),
                        source,
                        month,
                        year,
                        released,
                        category_id as int,
                    );
                }
                let target = self.budgets()[at.unwrap()];
                Ok(Allocation { target, source: Some(source_row) })
            },
            None => {
                self.revert_assignment(Ghost(before), category_id, month, year, amount, was);
                Err(Error::StoreError)
            },
        }
    }
}

/// In a well-formed ledger the row at a position is the row of its key.
pub proof fn lemma_row_at(s: LedgerView, i: int, category_id: int, month: int, year: int)
    requires
        s.wf(),
        0 <= i < s.budgets.len(),
        row_is_for(s.budgets[i], category_id, month, year),
    ensures
        s.has_budget(category_id, month, year),
        s.budget_pos(category_id, month, year) == i,
        s.budget_row(category_id, month, year) == s.budgets[i],
{
}

/// An activity posting keeps every category's row of that month in place.
pub proof fn lemma_post_activity_keeps_rows(
    s: LedgerView,
    category_id: i32,
    month: i32,
    year: i32,
    amount: i32,
    other: int,
)
    requires
        s.wf(),
        s.can_post_activity(category_id, month, year, amount),
        s.has_budget(other, month as int, year as int),
    ensures
        s.post_activity(category_id, month, year, amount).has_budget(
            other,
            month as int,
            year as int,
        ),
{
    let after = s.post_activity(category_id, month, year, amount);
    let k = s.budget_pos(other, month as int, year as int);
    assert(row_is_for(after.budgets[k], other, month as int, year as int));
}

} // verus!
