use vstd::prelude::*;
use crate::error::Error;
use crate::ledger::{Ledger, LedgerView};
use crate::models::Tx;

verus! {

/// The transactions of one account, in row order; all of them where no
/// account is given.
pub open spec fn txs_of(txs: Seq<Tx>, account_id: Option<i32>) -> Seq<Tx>
    decreases txs.len(),
{
    if txs.len() == 0 {
        Seq::empty()
    } else if account_id matches Some(id) && txs.last().account_id != id {
        txs_of(txs.drop_last(), account_id)
    } else {
        txs_of(txs.drop_last(), account_id).push(txs.last())
    }
}

impl LedgerView {
    /// Why the transactions table refuses a new row, if it does: its
    /// timestamp names no day; the account, the category or the payee that
    /// it names does not exist; or no id is left.
    pub open spec fn tx_insert_refusal(self, row: Tx) -> Option<Error> {
        if !row.timestamp.wf() {
            Some(Error::ValidationError)
        } else if !self.has_account(row.account_id as int) {
            Some(Error::NotFound)
        } else if row.category_id matches Some(category_id) && !self.has_category(
            category_id as int,
        ) {
            Some(Error::NotFound)
        } else if row.payee_id matches Some(payee_id) && !self.has_payee(payee_id as int) {
            Some(Error::NotFound)
        } else if self.next_tx_id >= i32::MAX {
            Some(Error::StoreError)
        } else {
            None
        }
    }
}

/// Stores a transaction row under the next id, whatever id `tx` carries,
/// and returns the stored row. Nothing but the transactions table changes:
/// no balance and no allocation moves.
pub fn add(tx: Tx, db: &mut Ledger) -> (res: Result<Tx, Error>)
    requires
        old(db).wf(),
    ensures
        final(db).wf(),
        match res {
            Ok(stored) => {
                &&& old(db)@.tx_insert_refusal(tx) is None
                &&& final(db)@ == old(db)@.with_tx(tx)
                &&& stored == (Tx { id: old(db)@.next_tx_id as i32, ..tx })
            },
            Err(e) => {
                &&& old(db)@.tx_insert_refusal(tx) == Some(e)
                &&& final(db)@ == old(db)@
            },
        },
{
    if !tx.timestamp.is_valid() {
        return Err(Error::ValidationError);
    }
    if db.account_index(tx.account_id).is_none() {
        return Err(Error::NotFound);
    }
    if let Some(category_id) = tx.category_id {
        if db.category_index(category_id).is_none() {
            return Err(Error::NotFound);
        }
    }
    if let Some(payee_id) = tx.payee_id {
        if db.payee_index(payee_id).is_none() {
            return Err(Error::NotFound);
        }
    }
    if !db.has_tx_id_left() {
        return Err(Error::StoreError);
    }
    let copy = tx.duplicate();
    let id = db.push_tx(tx);
    Ok(
        Tx {
            id,
            timestamp: copy.timestamp,
            month: copy.month,
            year: copy.year,
            account_id: copy.account_id,
            payee_id: copy.payee_id,
            transfer_account_id: copy.transfer_account_id,
            category_id: copy.category_id,
            memo: copy.memo,
            amount: copy.amount,
            cleared: copy.cleared,
        },
    )
}

/// Removes the transaction with this id and returns it. Nothing but the
/// transactions table changes: no balance and no allocation moves.
pub fn remove(id: i32, db: &mut Ledger) -> (res: Result<Tx, Error>)
    requires
        old(db).wf(),
    ensures
        final(db).wf(),
        match res {
            Ok(row) => {
                &&& old(db)@.has_tx(id as int)
                &&& final(db)@ == old(db)@.without_tx(old(db)@.tx_pos(id as int))
                &&& row == old(db)@.txs[old(db)@.tx_pos(id as int)]
            },
            Err(e) => {
                &&& e == Error::NotFound
                &&& !old(db)@.has_tx(id as int)
                &&& final(db)@ == old(db)@
            },
        },
{
    match db.tx_index(id) {
        Some(i) => Ok(db.take_tx(i)),
        None => Err(Error::NotFound),
    }
}

/// The transactions of one account in row order, or all transactions where
/// no account is given.
pub fn list(account_id: Option<i32>, db: &Ledger) -> (res: Result<Vec<Tx>, Error>)
    ensures
        res matches Ok(rows) && rows@ == txs_of(db@.txs, account_id),
{
    let stored = db.txs();
    let mut rows: Vec<Tx> = Vec::new();
    let mut i: usize = 0;
    while i < stored.len()
        invariant
            i <= stored.len(),
            rows@ == txs_of(stored@.take(i as int), account_id),
        decreases stored.len() - i,
    {
        let wanted = match account_id {
            Some(id) => stored[i].account_id == id,
            None => true,
        };
        assert(stored@.take(i + 1).drop_last() == stored@.take(i as int));
        if wanted {
            rows.push(stored[i].duplicate());
        }
        i += 1;
    }
    assert(stored@.take(stored@.len() as int) == stored@);
    Ok(rows)
}

} // verus!
