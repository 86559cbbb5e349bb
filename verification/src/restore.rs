use vstd::prelude::*;
use crate::error::Error;
use crate::ledger::{Ledger, LedgerView};
use crate::models::{Account, Budget, Category, Payee, Tx};

verus! {

/// Whether a stored row can keep this id: ids lie from 1, and the greatest
/// number is left for the table's count of the next id.
pub open spec fn keeps_id(id: i32) -> bool {
    1 <= id < i32::MAX
}

impl LedgerView {
    /// Whether the accounts table refuses a stored row: its id cannot be
    /// kept, or its id or its name is taken.
    pub open spec fn refuses_stored_account(self, row: Account) -> bool {
        !keeps_id(row.id) || self.has_account(row.id as int) || self.has_account_named(row.name@)
    }

    /// Whether the categories table refuses a stored row: its id cannot be
    /// kept, or its id or its name is taken.
    pub open spec fn refuses_stored_category(self, row: Category) -> bool {
        !keeps_id(row.id) || self.has_category(row.id as int) || self.has_category_named(
            row.name@,
        )
    }

    /// Whether the payees table refuses a stored row: its id cannot be
    /// kept, or its id or its name is taken.
    pub open spec fn refuses_stored_payee(self, row: Payee) -> bool {
        !keeps_id(row.id) || self.has_payee(row.id as int) || self.has_payee_named(row.name@)
    }

    /// Why the transactions table refuses a stored row, if it does: its
    /// timestamp names no day; the account that it names does not exist;
    /// or its id cannot be kept or is taken.
    pub open spec fn stored_tx_refusal(self, row: Tx) -> Option<Error> {
        if !row.timestamp.wf() {
            Some(Error::ValidationError)
        } else if !self.has_account(row.account_id as int) {
            Some(Error::NotFound)
        } else if !keeps_id(row.id) || self.has_tx(row.id as int) {
            Some(Error::StoreError)
        } else {
            None
        }
    }

    /// Whether the allocations table refuses a stored row: its id cannot
    /// be kept or is taken, its category has a row for the month already,
    /// or the row is not in balance.
    pub open spec fn refuses_stored_budget(self, row: Budget) -> bool {
        ||| !keeps_id(row.id)
        ||| self.has_budget_id(row.id as int)
        ||| self.has_budget(row.category_id as int, row.month as int, row.year as int)
        ||| row.available != row.assigned + row.activity
    }
}

impl Ledger {
    /// Takes in an account as it was stored before, under its own id. The
    /// table hands out ids above it from now on.
    pub fn restore_account(&mut self, row: Account) -> (res: Result<(), Error>)
        requires
            old(self).wf(),
        ensures
            final(self).wf(),
            match res {
                Ok(_) => !old(self)@.refuses_stored_account(row) && final(self)@
                    == old(self)@.with_stored_account(row),
                Err(e) => e == Error::StoreError && old(self)@.refuses_stored_account(row)
                    && final(self)@ == old(self)@,
            },
    {
        if row.id < 1 || row.id == i32::MAX || self.account_index(row.id).is_some()
            || self.account_index_by_name(row.name.as_str()).is_some() {
            return Err(Error::StoreError);
        }
        self.keep_account(row);
        Ok(())
    }

    /// Takes in a category as it was stored before, under its own id.
    pub fn restore_category(&mut self, row: Category) -> (res: Result<(), Error>)
        requires
            old(self).wf(),
        ensures
            final(self).wf(),
            match res {
                Ok(_) => !old(self)@.refuses_stored_category(row) && final(self)@
                    == old(self)@.with_stored_category(row),
                Err(e) => e == Error::StoreError && old(self)@.refuses_stored_category(row)
                    && final(self)@ == old(self)@,
            },
    {
        if row.id < 1 || row.id == i32::MAX || self.category_index(row.id).is_some()
            || self.category_index_by_name(row.name.as_str()).is_some() {
            return Err(Error::StoreError);
        }
        self.keep_category(row);
        Ok(())
    }

    /// Takes in a payee as it was stored before, under its own id.
    pub fn restore_payee(&mut self, row: Payee) -> (res: Result<(), Error>)
        requires
            old(self).wf(),
        ensures
            final(self).wf(),
            match res {
                Ok(_) => !old(self)@.refuses_stored_payee(row) && final(self)@
                    == old(self)@.with_stored_payee(row),
                Err(e) => e == Error::StoreError && old(self)@.refuses_stored_payee(row)
                    && final(self)@ == old(self)@,
            },
    {
        if row.id < 1 || row.id == i32::MAX || self.payee_index(row.id).is_some()
            || self.payee_index_by_name(row.name.as_str()).is_some() {
            return Err(Error::StoreError);
        }
        self.keep_payee(row);
        Ok(())
    }

    /// Takes in a transaction as it was stored before, under its own id.
    /// No balance and no allocation moves.
    pub fn restore_tx(&mut self, row: Tx) -> (res: Result<(), Error>)
        requires
            old(self).wf(),
        ensures
            final(self).wf(),
            match res {
                Ok(_) => old(self)@.stored_tx_refusal(row) is None && final(self)@
                    == old(self)@.with_stored_tx(row),
                Err(e) => old(self)@.stored_tx_refusal(row) == Some(e) && final(self)@
                    == old(self)@,
            },
    {
        if !row.timestamp.is_valid() {
            return Err(Error::ValidationError);
        }
        if self.account_index(row.account_id).is_none() {
            return Err(Error::NotFound);
        }
        if row.id < 1 || row.id == i32::MAX || self.tx_index(row.id).is_some() {
            return Err(Error::StoreError);
        }
        self.keep_tx(row);
        Ok(())
    }

    /// Takes in an allocation row as it was stored before, under its own
    /// id.
    pub fn restore_budget(&mut self, row: Budget) -> (res: Result<(), Error>)
        requires
            old(self).wf(),
        ensures
            final(self).wf(),
            match res {
                Ok(_) => !old(self)@.refuses_stored_budget(row) && final(self)@
                    == old(self)@.with_stored_budget(row),
                Err(e) => e == Error::StoreError && old(self)@.refuses_stored_budget(row)
                    && final(self)@ == old(self)@,
            },
    {
        let in_balance = match row.assigned.checked_add(row.activity) {
            Some(sum) => sum == row.available,
            None => false,
        };
        if row.id < 1 || row.id == i32::MAX || self.has_budget_id(row.id) || self.budget_index(
            row.category_id,
            row.month,
            row.year,
        ).is_some() || !in_balance {
            return Err(Error::StoreError);
        }
        self.keep_budget(row);
        Ok(())
    }
}

} // verus!
