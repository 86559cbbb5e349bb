use vstd::prelude::*;
use crate::clock::{date_text, Timestamp};
use crate::shared_string::{self, dollars_text, SharedString};

verus! {

/// A row of the accounts table.
#[derive(Clone, Debug, PartialEq, Eq)]
pub struct Account {
    pub id: i32,
    pub name: String,
    pub is_tracking_account: bool,
    /// Running balance in minor currency units.
    pub balance: i32,
}

/// What is needed to create an account; the store assigns the id.
#[derive(Clone, Copy, Debug)]
pub struct NewAccount<'a> {
    pub name: &'a str,
    pub is_tracking_account: bool,
    pub balance: i32,
}

/// A row of the allocations table: what one category holds in one month.
#[derive(Clone, Copy, Debug, PartialEq, Eq, Structural)]
pub struct Budget {
    pub id: i32,
    pub month: i32,
    pub year: i32,
    pub category_id: i32,
    pub assigned: i32,
    pub activity: i32,
    pub available: i32,
}

/// What is needed to create an allocation row; the store assigns the id.
#[derive(Clone, Copy, Debug, PartialEq, Eq, Structural)]
pub struct NewBudget {
    pub month: i32,
    pub year: i32,
    pub category_id: i32,
    pub assigned: i32,
    pub activity: i32,
    pub available: i32,
}

/// A row of the categories table.
#[derive(Clone, Debug, PartialEq, Eq)]
pub struct Category {
    pub id: i32,
    pub group_id: i32,
    pub name: String,
    /// Display sort key.
    pub order: i32,
}

/// What is needed to create a category; the store assigns id and sort key.
#[derive(Clone, Copy, Debug)]
pub struct NewCategory<'a> {
    pub group_id: i32,
    pub name: &'a str,
}

/// A row of the payees table.
#[derive(Clone, Debug, PartialEq, Eq)]
pub struct Payee {
    pub id: i32,
    pub name: String,
}

/// What is needed to create a payee; the store assigns the id.
#[derive(Clone, Copy, Debug)]
pub struct NewPayee<'a> {
    pub name: &'a str,
}

/// A row of the transactions table.
#[derive(Clone, Debug, PartialEq, Eq)]
pub struct Tx {
    pub id: i32,
    pub timestamp: Timestamp,
    /// Month of the timestamp, counted from 0.
    pub month: i32,
    pub year: i32,
    pub account_id: i32,
    pub payee_id: Option<i32>,
    pub transfer_account_id: Option<i32>,
    pub category_id: Option<i32>,
    pub memo: String,
    /// Minor currency units; positive is inflow, negative is outflow.
    pub amount: i32,
    pub cleared: bool,
}

/// What is needed to create a transaction; the store assigns the id.
#[derive(Clone, Copy, Debug)]
pub struct NewTx<'a> {
    pub timestamp: Timestamp,
    pub month: i32,
    pub year: i32,
    pub account_id: i32,
    pub payee_id: Option<i32>,
    pub transfer_account_id: Option<i32>,
    pub category_id: Option<i32>,
    pub memo: &'a str,
    pub amount: i32,
    pub cleared: bool,
}

impl Account {
    /// A copy of the row.
    pub fn duplicate(&self) -> (copy: Account)
        ensures
            copy == *self,
    {
        Account {
            id: self.id,
            name: self.name.clone(),
            is_tracking_account: self.is_tracking_account,
            balance: self.balance,
        }
    }
}

impl Category {
    /// A copy of the row.
    pub fn duplicate(&self) -> (copy: Category)
        ensures
            copy == *self,
    {
        Category { id: self.id, group_id: self.group_id, name: self.name.clone(), order: self.order }
    }
}

impl Payee {
    /// A copy of the row.
    pub fn duplicate(&self) -> (copy: Payee)
        ensures
            copy == *self,
    {
        Payee { id: self.id, name: self.name.clone() }
    }
}

impl Tx {
    /// A copy of the row.
    pub fn duplicate(&self) -> (copy: Tx)
        ensures
            copy == *self,
    {
        Tx {
            id: self.id,
            timestamp: self.timestamp,
            month: self.month,
            year: self.year,
            account_id: self.account_id,
            payee_id: self.payee_id,
            transfer_account_id: self.transfer_account_id,
            category_id: self.category_id,
            memo: self.memo.clone(),
            amount: self.amount,
            cleared: self.cleared,
        }
    }
}

/// An account as the presentation layer shows it.
#[derive(Clone, Debug, PartialEq, Eq)]
pub struct AccountView {
    pub id: i32,
    pub name: SharedString,
    /// Balance in minor currency units.
    pub balance: i32,
}

/// A transaction as the presentation layer shows it.
#[derive(Clone, Debug, PartialEq, Eq)]
pub struct TxView {
    pub id: i32,
    pub account: SharedString,
    pub category: SharedString,
    pub payee: SharedString,
    pub memo: SharedString,
    pub timestamp: SharedString,
    pub inflow: SharedString,
    pub outflow: SharedString,
    pub cleared: bool,
}

/// A category with its allocation of one month, as the presentation layer
/// shows it.
#[derive(Clone, Debug, PartialEq, Eq)]
pub struct BudgetCategoryView {
    pub id: i32,
    pub name: SharedString,
    pub assigned: SharedString,
    pub activity: SharedString,
    pub available: SharedString,
}

/// A category joined with its allocation of one month; the amounts are
/// missing where the month has no row for the category.
#[derive(Clone, Debug, PartialEq, Eq)]
pub struct BudgetCategoryViewQueryable {
    pub id: i32,
    pub name: String,
    pub assigned: Option<i32>,
    pub activity: Option<i32>,
    pub available: Option<i32>,
}

/// The text of what is assigned: empty for nothing.
pub open spec fn assigned_text(assigned: int) -> Seq<char> {
    if assigned != 0 {
        dollars_text(assigned)
    } else {
        Seq::<char>::empty()
    }
}

/// The text of an inflow: empty unless the amount is above zero.
pub open spec fn inflow_text(amount: int) -> Seq<char> {
    if amount > 0 {
        dollars_text(amount)
    } else {
        Seq::<char>::empty()
    }
}

/// The text of an outflow: empty unless the amount is below zero, else the
/// amount without its sign.
pub open spec fn outflow_text(amount: int) -> Seq<char> {
    if amount < 0 {
        dollars_text(-amount)
    } else {
        Seq::<char>::empty()
    }
}

impl BudgetCategoryViewQueryable {
    /// A copy of the row.
    pub fn duplicate(&self) -> (copy: BudgetCategoryViewQueryable)
        ensures
            copy == *self,
    {
        BudgetCategoryViewQueryable {
            id: self.id,
            name: self.name.clone(),
            assigned: self.assigned,
            activity: self.activity,
            available: self.available,
        }
    }

    /// The view of the joined row: a missing amount counts as zero, and
    /// nothing assigned shows as empty text.
    pub fn into_view(self) -> (view: BudgetCategoryView)
        ensures
            view.id == self.id,
            view.name@ == self.name@,
            view.assigned@ == assigned_text(
                match self.assigned {
                    Some(v) => v as int,
                    None => 0,
                },
            ),
            view.activity@ == dollars_text(
                match self.activity {
                    Some(v) => v as int,
                    None => 0,
                },
            ),
            view.available@ == dollars_text(
                match self.available {
                    Some(v) => v as int,
                    None => 0,
                },
            ),
    {
        let activity = match self.activity {
            Some(v) => v,
            None => 0,
        };
        let available = match self.available {
            Some(v) => v,
            None => 0,
        };
        BudgetCategoryView {
            id: self.id,
            name: shared_string::option(Some(self.name)),
            assigned: shared_string::nonzero_dollars(self.assigned),
            activity: shared_string::dollars(Some(activity)),
            available: shared_string::dollars(Some(available)),
        }
    }
}

impl Account {
    /// The view of the account.
    pub fn create_view(&self) -> (view: AccountView)
        ensures
            view.id == self.id,
            view.name@ == self.name@,
            view.balance == self.balance,
    {
        AccountView {
            id: self.id,
            name: shared_string::from(self.name.as_str()),
            balance: self.balance,
        }
    }
}

impl Budget {
    /// The view with its three amounts replaced by those of this row.
    pub fn update_view(&self, view: BudgetCategoryView) -> (updated: BudgetCategoryView)
        ensures
            updated.id == view.id,
            updated.name == view.name,
            updated.assigned@ == assigned_text(self.assigned as int),
            updated.activity@ == dollars_text(self.activity as int),
            updated.available@ == dollars_text(self.available as int),
    {
        BudgetCategoryView {
            id: view.id,
            name: view.name,
            assigned: shared_string::nonzero_dollars(Some(self.assigned)),
            activity: shared_string::dollars(Some(self.activity)),
            available: shared_string::dollars(Some(self.available)),
        }
    }
}

/// The name of a row that may be missing.
pub open spec fn name_or_empty(name: Option<Seq<char>>) -> Seq<char> {
    match name {
        Some(n) => n,
        None => Seq::<char>::empty(),
    }
}

impl Tx {
    /// The view of the transaction, with the names of the rows that it is
    /// joined with; a missing row shows as empty text.
    pub fn create_view(
        &self,
        account: Option<Account>,
        category: Option<Category>,
        payee: Option<Payee>,
    ) -> (view: TxView)
        requires
            self.timestamp.wf(),
        ensures
            view.id == self.id,
            view.account@ == name_or_empty(
                match account {
                    Some(row) => Some(row.name@),
                    None => None,
                },
            ),
            view.category@ == name_or_empty(
                match category {
                    Some(row) => Some(row.name@),
                    None => None,
                },
            ),
            view.payee@ == name_or_empty(
                match payee {
                    Some(row) => Some(row.name@),
                    None => None,
                },
            ),
            view.memo@ == self.memo@,
            view.timestamp@ == date_text(
                self.timestamp.year as int,
                self.timestamp.month as int,
                self.timestamp.day as int,
            ),
            view.inflow@ == inflow_text(self.amount as int),
            view.outflow@ == outflow_text(self.amount as int),
            view.cleared == self.cleared,
    {
        let account_name = match account {
            Some(row) => Some(row.name),
            None => None,
        };
        let category_name = match category {
            Some(row) => Some(row.name),
            None => None,
        };
        let payee_name = match payee {
            Some(row) => Some(row.name),
            None => None,
        };
        TxView {
            id: self.id,
            account: shared_string::option(account_name),
            category: shared_string::option(category_name),
            payee: shared_string::option(payee_name),
            memo: shared_string::from(self.memo.as_str()),
            timestamp: shared_string::timestamp(self.timestamp),
            inflow: if self.amount > 0 {
                shared_string::money(self.amount as i64)
            } else {
                SharedString::new()
            },
            outflow: if self.amount < 0 {
                shared_string::money(-(self.amount as i64))
            } else {
                SharedString::new()
            },
            cleared: self.cleared,
        }
    }
}

} // verus!
