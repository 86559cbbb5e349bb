use vstd::prelude::*;
use vstd::string::StringExecFns;
use crate::api;
use crate::error::Error;
use crate::ledger::{Ledger, LedgerView};
use crate::models::{
    Account, Budget, Category, NewAccount, NewBudget, NewCategory, NewPayee, NewTx, Payee, Tx,
};

verus! {

impl LedgerView {
    /// Why the transactions table refuses a new row, if it does: its
    /// timestamp names no day; the account, the category or the payee that
    /// it names does not exist; or no id is left.
    pub open spec fn new_tx_refusal(self, row: NewTx) -> Option<Error> {
        if !row.timestamp.wf() {
            Some(Error::ValidationError)
        } else if !self.has_account(row.account_id as int) {
            Some(Error::NotFound)
        } else if row.category_id matches Some(category_id) && !self.has_category(
            category_id as int,
        ) {
            Some(Error::NotFound)
        } else if row.payee_id matches Some(payee_id) && !self.has_payee(payee_id as int) {
            Some(Error::NotFound)
        } else if self.next_tx_id >= i32::MAX {
            Some(Error::StoreError)
        } else {
            None
        }
    }

    /// Why the allocations table refuses a new row, if it does: its
    /// category does not exist; or the category has a row for the month
    /// already, the row is not in balance, or no id is left.
    pub open spec fn new_budget_refusal(self, row: NewBudget) -> Option<Error> {
        if !self.has_category(row.category_id as int) {
            Some(Error::NotFound)
        } else if self.has_budget(row.category_id as int, row.month as int, row.year as int)
            || row.available != row.assigned + row.activity || self.next_budget_id >= i32::MAX {
            Some(Error::StoreError)
        } else {
            None
        }
    }
}

/// Whether `stored` is the transaction that `row` asked for.
pub open spec fn stores_tx(stored: Tx, row: NewTx) -> bool {
    &&& stored.timestamp == row.timestamp
    &&& stored.month == row.month
    &&& stored.year == row.year
    &&& stored.account_id == row.account_id
    &&& stored.payee_id == row.payee_id
    &&& stored.transfer_account_id == row.transfer_account_id
    &&& stored.category_id == row.category_id
    &&& stored.memo@ == row.memo@
    &&& stored.amount == row.amount
    &&& stored.cleared == row.cleared
}

impl Ledger {
    /// Stores a new account under the next id and returns the stored row.
    /// A name that an account has already, or a table out of ids, is
    /// refused.
    pub fn insert_account(&mut self, row: NewAccount) -> (res: Result<Account, Error>)
        requires
            old(self).wf(),
        ensures
            final(self).wf(),
            match res {
                Ok(stored) => {
                    &&& !old(self)@.has_account_named(row.name@)
                    &&& old(self)@.next_account_id < i32::MAX
                    &&& stored.id == old(self)@.next_account_id
                    &&& stored.name@ == row.name@
                    &&& stored.is_tracking_account == row.is_tracking_account
                    &&& stored.balance == row.balance
                    &&& final(self)@ == old(self)@.with_account(stored)
                },
                Err(e) => {
                    &&& e == Error::StoreError
                    &&& old(self)@.has_account_named(row.name@) || old(self)@.next_account_id
                        >= i32::MAX
                    &&& final(self)@ == old(self)@
                },
            },
    {
        api::account::add(
            Account {
                id: 0,
                name: String::from_str(row.name),
                is_tracking_account: row.is_tracking_account,
                balance: row.balance,
            },
            self,
        )
    }

    /// Stores a new category under the next id, with sort key 0, and
    /// returns the stored row. A name that a category has already, or a
    /// table out of ids, is refused.
    pub fn insert_category(&mut self, row: NewCategory) -> (res: Result<Category, Error>)
        requires
            old(self).wf(),
        ensures
            final(self).wf(),
            match res {
                Ok(stored) => {
                    &&& !old(self)@.has_category_named(row.name@)
                    &&& old(self)@.next_category_id < i32::MAX
                    &&& stored.id == old(self)@.next_category_id
                    &&& stored.group_id == row.group_id
                    &&& stored.name@ == row.name@
                    &&& stored.order == 0
                    &&& final(self)@ == old(self)@.with_category(stored)
                },
                Err(e) => {
                    &&& e == Error::StoreError
                    &&& old(self)@.has_category_named(row.name@) || old(self)@.next_category_id
                        >= i32::MAX
                    &&& final(self)@ == old(self)@
                },
            },
    {
        api::category::add(
            Category { id: 0, group_id: row.group_id, name: String::from_str(row.name), order: 0 },
            self,
        )
    }

    /// Stores a new payee under the next id and returns the stored row. A
    /// name that a payee has already, or a table out of ids, is refused.
    pub fn insert_payee(&mut self, row: NewPayee) -> (res: Result<Payee, Error>)
        requires
            old(self).wf(),
        ensures
            final(self).wf(),
            match res {
                Ok(stored) => {
                    &&& !old(self)@.has_payee_named(row.name@)
                    &&& old(self)@.next_payee_id < i32::MAX
                    &&& stored.id == old(self)@.next_payee_id
                    &&& stored.name@ == row.name@
                    &&& final(self)@ == old(self)@.with_payee(stored)
                },
                Err(e) => {
                    &&& e == Error::StoreError
                    &&& old(self)@.has_payee_named(row.name@) || old(self)@.next_payee_id
                        >= i32::MAX
                    &&& final(self)@ == old(self)@
                },
            },
    {
        api::payee::add(Payee { id: 0, name: String::from_str(row.name) }, self)
    }

    /// Stores a new transaction row under the next id and returns the
    /// stored row. Nothing but the transactions table changes: no balance
    /// and no allocation moves.
    pub fn insert_tx(&mut self, row: NewTx) -> (res: Result<Tx, Error>)
        requires
            old(self).wf(),
        ensures
            final(self).wf(),
            match res {
                Ok(stored) => {
                    &&& old(self)@.new_tx_refusal(row) is None
                    &&& stored.id == old(self)@.next_tx_id
                    &&& stores_tx(stored, row)
                    &&& final(self)@ == old(self)@.with_tx(stored)
                },
                Err(e) => {
                    &&& old(self)@.new_tx_refusal(row) == Some(e)
                    &&& final(self)@ == old(self)@
                },
            },
    {
        api::transaction::add(
            Tx {
                id: 0,
                timestamp: row.timestamp,
                month: row.month,
                year: row.year,
                account_id: row.account_id,
                payee_id: row.payee_id,
                transfer_account_id: row.transfer_account_id,
                category_id: row.category_id,
                memo: String::from_str(row.memo),
                amount: row.amount,
                cleared: row.cleared,
            },
            self,
        )
    }

    /// Stores a new allocation row under the next id and returns the
    /// stored row.
    pub fn insert_budget(&mut self, row: NewBudget) -> (res: Result<Budget, Error>)
        requires
            old(self).wf(),
        ensures
            final(self).wf(),
            match res {
                Ok(stored) => {
                    &&& old(self)@.new_budget_refusal(row) is None
                    &&& final(self)@ == old(self)@.with_budget(row)
                    &&& stored == final(self)@.budgets.last()
                    &&& stored.id == old(self)@.next_budget_id
                },
                Err(e) => {
                    &&& old(self)@.new_budget_refusal(row) == Some(e)
                    &&& final(self)@ == old(self)@
                },
            },
    {
        if self.category_index(row.category_id).is_none() {
            return Err(Error::NotFound);
        }
        let in_balance = match row.assigned.checked_add(row.activity) {
            Some(sum) => sum == row.available,
            None => false,
        };
        if self.budget_index(row.category_id, row.month, row.year).is_some() || !in_balance
            || !self.has_budget_id_left() {
            return Err(Error::StoreError);
        }
        self.push_budget(row);
        Ok(self.budgets()[self.budgets().len() - 1])
    }
}

} // verus!
