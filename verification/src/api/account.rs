use vstd::prelude::*;
use crate::error::Error;
use crate::ledger::{Ledger, LedgerView};
use crate::models::Account;

verus! {

impl LedgerView {
    /// Whether the accounts table refuses a new row: its name is taken, or
    /// no id is left.
    pub open spec fn refuses_account(self, row: Account) -> bool {
        self.has_account_named(row.name@) || self.next_account_id >= i32::MAX
    }

    /// Why the replacement of an account is refused, if it is: no account
    /// has the row's id, or another account has its name.
    pub open spec fn account_update_refusal(self, row: Account) -> Option<Error> {
        if !self.has_account(row.id as int) {
            Some(Error::NotFound)
        } else if self.account_name_taken(self.account_pos(row.id as int), row.name@) {
            Some(Error::StoreError)
        } else {
            None
        }
    }

    /// Why the removal of an account is refused, if it is: there is no such
    /// account, or a transaction names it.
    pub open spec fn account_removal_refusal(self, id: i32) -> Option<Error> {
        if !self.has_account(id as int) {
            Some(Error::NotFound)
        } else if self.account_in_use(id as int) {
            Some(Error::StoreError)
        } else {
            None
        }
    }
}

/// Stores a new account under the next id, whatever id `acc` carries, and
/// returns the stored row.
pub fn add(acc: Account, db: &mut Ledger) -> (res: Result<Account, Error>)
    requires
        old(db).wf(),
    ensures
        final(db).wf(),
        match res {
            Ok(stored) => {
                &&& !old(db)@.refuses_account(acc)
                &&& final(db)@ == old(db)@.with_account(acc)
                &&& stored == (Account { id: old(db)@.next_account_id as i32, ..acc })
            },
            Err(e) => {
                &&& e == Error::StoreError
                &&& old(db)@.refuses_account(acc)
                &&& final(db)@ == old(db)@
            },
        },
{
    if db.account_index_by_name(acc.name.as_str()).is_some() || !db.has_account_id_left() {
        return Err(Error::StoreError);
    }
    let copy = acc.duplicate();
    let id = db.push_account(acc);
    Ok(
        Account {
            id,
            name: copy.name,
            is_tracking_account: copy.is_tracking_account,
            balance: copy.balance,
        },
    )
}

/// The account with this id.
pub fn find_by_id(id: i32, db: &Ledger) -> (res: Result<Account, Error>)
    requires
        db.wf(),
    ensures
        match res {
            Ok(row) => db@.has_account(id as int) && row == db@.accounts[db@.account_pos(
                id as int,
            )],
            Err(e) => e == Error::NotFound && !db@.has_account(id as int),
        },
{
    match db.account_index(id) {
        Some(i) => Ok(db.accounts()[i].duplicate()),
        None => Err(Error::NotFound),
    }
}

/// Replaces name, kind and balance of the account that has the id of `acc`.
pub fn update(acc: Account, db: &mut Ledger) -> (res: Result<Account, Error>)
    requires
        old(db).wf(),
    ensures
        final(db).wf(),
        match res {
            Ok(stored) => {
                &&& old(db)@.account_update_refusal(acc) is None
                &&& final(db)@ == old(db)@.with_account_row(
                    old(db)@.account_pos(acc.id as int),
                    acc,
                )
                &&& stored == acc
            },
            Err(e) => {
                &&& old(db)@.account_update_refusal(acc) == Some(e)
                &&& final(db)@ == old(db)@
            },
        },
{
    let i = match db.account_index(acc.id) {
        Some(i) => i,
        None => {
            return Err(Error::NotFound);
        },
    };
    if db.account_name_taken(i, acc.name.as_str()) {
        return Err(Error::StoreError);
    }
    let copy = acc.duplicate();
    db.set_account(i, acc);
    Ok(copy)
}

/// Removes the account with this id and returns it. An account that a
/// transaction names stays.
pub fn remove(id: i32, db: &mut Ledger) -> (res: Result<Account, Error>)
    requires
        old(db).wf(),
    ensures
        final(db).wf(),
        match res {
            Ok(row) => {
                &&& old(db)@.account_removal_refusal(id) is None
                &&& final(db)@ == old(db)@.without_account(old(db)@.account_pos(id as int))
                &&& row == old(db)@.accounts[old(db)@.account_pos(id as int)]
            },
            Err(e) => {
                &&& old(db)@.account_removal_refusal(id) == Some(e)
                &&& final(db)@ == old(db)@
            },
        },
{
    let i = match db.account_index(id) {
        Some(i) => i,
        None => {
            return Err(Error::NotFound);
        },
    };
    if db.account_in_use(id) {
        return Err(Error::StoreError);
    }
    Ok(db.take_account(i))
}

/// All accounts in row order.
pub fn list(db: &Ledger) -> (res: Result<Vec<Account>, Error>)
    ensures
        res matches Ok(rows) && rows@ == db@.accounts,
{
    let stored = db.accounts();
    let mut rows: Vec<Account> = Vec::new();
    let mut i: usize = 0;
    while i < stored.len()
        invariant
            i <= stored.len(),
            rows@ == stored@.take(i as int),
        decreases stored.len() - i,
    {
        rows.push(stored[i].duplicate());
        i += 1;
    }
    Ok(rows)
}

} // verus!
