use vstd::prelude::*;
use crate::error::Error;
use crate::ledger::{Ledger, LedgerView};
use crate::models::Payee;

verus! {

impl LedgerView {
    /// Whether the payees table refuses a new row: its name is taken, or no
    /// id is left.
    pub open spec fn refuses_payee(self, row: Payee) -> bool {
        self.has_payee_named(row.name@) || self.next_payee_id >= i32::MAX
    }

    /// Why the removal of a payee is refused, if it is: there is no such
    /// payee, or a transaction names it.
    pub open spec fn payee_removal_refusal(self, id: i32) -> Option<Error> {
        if !self.has_payee(id as int) {
            Some(Error::NotFound)
        } else if self.payee_in_use(id as int) {
            Some(Error::StoreError)
        } else {
            None
        }
    }
}

/// Stores a new payee under the next id, whatever id `payee` carries, and
/// returns the stored row.
pub fn add(payee: Payee, db: &mut Ledger) -> (res: Result<Payee, Error>)
    requires
        old(db).wf(),
    ensures
        final(db).wf(),
        match res {
            Ok(stored) => {
                &&& !old(db)@.refuses_payee(payee)
                &&& final(db)@ == old(db)@.with_payee(payee)
                &&& stored == (Payee { id: old(db)@.next_payee_id as i32, ..payee })
            },
            Err(e) => {
                &&& e == Error::StoreError
                &&& old(db)@.refuses_payee(payee)
                &&& final(db)@ == old(db)@
            },
        },
{
    if db.payee_index_by_name(payee.name.as_str()).is_some() || !db.has_payee_id_left() {
        return Err(Error::StoreError);
    }
    let copy = payee.duplicate();
    let id = db.push_payee(payee);
    Ok(Payee { id, name: copy.name })
}

/// Removes the payee with this id and returns it. A payee that a
/// transaction names stays.
pub fn remove(id: i32, db: &mut Ledger) -> (res: Result<Payee, Error>)
    requires
        old(db).wf(),
    ensures
        final(db).wf(),
        match res {
            Ok(row) => {
                &&& old(db)@.payee_removal_refusal(id) is None
                &&& final(db)@ == old(db)@.without_payee(old(db)@.payee_pos(id as int))
                &&& row == old(db)@.payees[old(db)@.payee_pos(id as int)]
            },
            Err(e) => {
                &&& old(db)@.payee_removal_refusal(id) == Some(e)
                &&& final(db)@ == old(db)@
            },
        },
{
    let i = match db.payee_index(id) {
        Some(i) => i,
        None => {
            return Err(Error::NotFound);
        },
    };
    if db.payee_in_use(id) {
        return Err(Error::StoreError);
    }
    Ok(db.take_payee(i))
}

/// All payees in row order.
pub fn list(db: &Ledger) -> (res: Result<Vec<Payee>, Error>)
    ensures
        res matches Ok(rows) && rows@ == db@.payees,
{
    let stored = db.payees();
    let mut rows: Vec<Payee> = Vec::new();
    let mut i: usize = 0;
    while i < stored.len()
        invariant
            i <= stored.len(),
            rows@ == stored@.take(i as int),
        decreases stored.len() - i,
    {
        rows.push(stored[i].duplicate());
        i += 1;
    }
    Ok(rows)
}

} // verus!
