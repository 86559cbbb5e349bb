use vstd::prelude::*;
use crate::budget::fits_amount;
use crate::clock::Timestamp;
use crate::error::Error;
use crate::ledger::{Ledger, LedgerView};
use crate::models::{Account, Budget, Payee, Tx};

verus! {

/// What one posting wrote: the transaction, and the account and the
/// allocation row as they stand after it.
#[derive(Clone, Debug, PartialEq, Eq)]
pub struct Posting {
    pub transaction: Tx,
    pub account: Account,
    /// The allocation row of the transaction's category and month; none for
    /// a transaction without a category.
    pub allocation: Option<Budget>,
}

/// The sum of the amounts of the transactions of one account.
pub open spec fn tx_total(txs: Seq<Tx>, account_id: int) -> int
    decreases txs.len(),
{
    if txs.len() == 0 {
        0
    } else {
        tx_total(txs.drop_last(), account_id) + if txs.last().account_id == account_id {
            txs.last().amount as int
        } else {
            0
        }
    }
}

/// The transaction that a posting at `now` writes, before it has an id.
pub open spec fn posting_row(
    account_id: i32,
    payee_id: Option<i32>,
    category_id: Option<i32>,
    memo: String,
    amount: i32,
    cleared: bool,
    now: Timestamp,
) -> Tx {
    Tx {
        id: 0,
        timestamp: now,
        month: now.ledger_month() as i32,
        year: now.year,
        account_id,
        payee_id,
        transfer_account_id: None,
        category_id,
        memo,
        amount,
        cleared,
    }
}

impl LedgerView {
    /// The balance of every account is the sum of its transactions.
    pub open spec fn balanced(self) -> bool {
        forall|i: int|
            0 <= i < self.accounts.len() ==> (#[trigger] self.accounts[i]).balance == tx_total(
                self.txs,
                self.accounts[i].id as int,
            )
    }

    /// The account with this id, where there is one.
    pub open spec fn account_row(self, id: int) -> Account {
        self.accounts[self.account_pos(id)]
    }

    /// Why a change of balance is refused, if it is.
    pub open spec fn adjustment_refusal(self, account_id: i32, delta: i32) -> Option<Error> {
        if !self.has_account(account_id as int) {
            Some(Error::NotFound)
        } else if !fits_amount(self.account_row(account_id as int).balance + delta) {
            Some(Error::StoreError)
        } else {
            None
        }
    }

    /// The ledger with `delta` added to the balance of an account.
    pub open spec fn adjust_balance(self, account_id: i32, delta: i32) -> LedgerView {
        self.with_balance(
            self.account_pos(account_id as int),
            (self.account_row(account_id as int).balance + delta) as i32,
        )
    }

    /// Whether the store can write a posting on an account that exists: a
    /// transaction id is left, the new balance fits, and the category's
    /// month can take the activity.
    pub open spec fn takes_posting(self, row: Tx) -> bool {
        &&& self.next_tx_id < i32::MAX
        &&& fits_amount(self.account_row(row.account_id as int).balance + row.amount)
        &&& row.category_id matches Some(category_id) ==> self.can_post_activity(
            category_id,
            row.month,
            row.year,
            row.amount,
        )
    }

    /// Why a posting is refused, if it is: a timestamp that names no day is
    /// not valid; an account, category or payee that does not exist is not
    /// found; otherwise the store may refuse.
    pub open spec fn posting_refusal(self, row: Tx) -> Option<Error> {
        if !row.timestamp.wf() {
            Some(Error::ValidationError)
        } else if !self.has_account(row.account_id as int) {
            Some(Error::NotFound)
        } else if row.category_id matches Some(category_id) && !self.has_category(
            category_id as int,
        ) {
            Some(Error::NotFound)
        } else if row.payee_id matches Some(payee_id) && !self.has_payee(payee_id as int) {
            Some(Error::NotFound)
        } else if !self.takes_posting(row) {
            Some(Error::StoreError)
        } else {
            None
        }
    }

    /// The ledger after a posting that is not refused: the activity on the
    /// category's month, the transaction under the next id, and the amount
    /// added to the account's balance.
    pub open spec fn post(self, row: Tx) -> LedgerView {
        let booked = match row.category_id {
            Some(category_id) => self.post_activity(category_id, row.month, row.year, row.amount),
            None => self,
        };
        booked.with_tx(row).adjust_balance(row.account_id, row.amount)
    }
}

impl LedgerView {
    /// The account with this name, where there is one.
    pub open spec fn account_named(self, name: Seq<char>) -> Account {
        self.accounts[self.account_named_pos(name)]
    }

    /// The ledger with a payee of this name: itself where there is one,
    /// else with a new payee.
    pub open spec fn with_payee_named(self, name: String) -> LedgerView {
        if self.has_payee_named(name@) {
            self
        } else {
            self.with_payee(Payee { id: 0, name })
        }
    }

    /// The transaction that a posting by names writes at `now`, before it
    /// has an id. The payee is the one of that name; where there is none,
    /// the one that the payees table makes next.
    pub open spec fn named_posting_row(
        self,
        account_name: Seq<char>,
        payee_name: Seq<char>,
        category_name: Seq<char>,
        memo: String,
        amount: i32,
        now: Timestamp,
    ) -> Tx {
        posting_row(
            self.account_named(account_name).id,
            Some(
                if self.has_payee_named(payee_name) {
                    self.payees[self.payee_named_pos(payee_name)].id
                } else {
                    self.next_payee_id as i32
                },
            ),
            Some(self.categories[self.category_named_pos(category_name)].id),
            memo,
            amount,
            false,
            now,
        )
    }

    /// Why a posting by names is refused, if it is: the account or the
    /// category of that name does not exist; or the store cannot make the
    /// payee or write the posting.
    pub open spec fn named_posting_refusal(
        self,
        account_name: Seq<char>,
        payee_name: Seq<char>,
        category_name: Seq<char>,
        memo: String,
        amount: i32,
        now: Timestamp,
    ) -> Option<Error> {
        if !self.has_account_named(account_name) || !self.has_category_named(category_name) {
            Some(Error::NotFound)
        } else if !self.has_payee_named(payee_name) && self.next_payee_id >= i32::MAX {
            Some(Error::StoreError)
        } else if !self.takes_posting(
            self.named_posting_row(account_name, payee_name, category_name, memo, amount, now),
        ) {
            Some(Error::StoreError)
        } else {
            None
        }
    }

    /// The ledger after a posting by names that is not refused: a payee of
    /// that name is made where there is none, then the posting is written.
    pub open spec fn post_by_name(
        self,
        account_name: Seq<char>,
        payee_name: String,
        category_name: Seq<char>,
        memo: String,
        amount: i32,
        now: Timestamp,
    ) -> LedgerView {
        self.with_payee_named(payee_name).post(
            self.named_posting_row(account_name, payee_name@, category_name, memo, amount, now),
        )
    }

    /// Whether the store refuses to open an account: the name is taken, no
    /// account id is left or, for a first balance other than 0, no
    /// transaction id is left.
    pub open spec fn refuses_opening(self, name: Seq<char>, balance: i32) -> bool {
        ||| self.has_account_named(name)
        ||| self.next_account_id >= i32::MAX
        ||| balance != 0 && self.next_tx_id >= i32::MAX
    }
}

/// The ledger after an account was opened under `name` with a first
/// balance. The account starts at 0; a first balance other than 0 is posted
/// to it as a cleared transaction without payee or category, which touches
/// no allocation.
pub open spec fn opened(
    s: LedgerView,
    name: String,
    balance: i32,
    is_tracking_account: bool,
    memo: String,
    now: Timestamp,
) -> LedgerView {
    let started = s.with_account(Account { id: 0, name, is_tracking_account, balance: 0 });
    if balance == 0 {
        started
    } else {
        started.post(posting_row(s.next_account_id as i32, None, None, memo, balance, true, now))
    }
}

impl Ledger {
    /// Adds `delta` to the balance of an account.
    pub fn adjust_balance(&mut self, account_id: i32, delta: i32) -> (res: Result<Account, Error>)
        requires
            old(self).wf(),
        ensures
            final(self).wf(),
            match res {
                Ok(account) => {
                    &&& old(self)@.adjustment_refusal(account_id, delta) is None
                    &&& final(self)@ == old(self)@.adjust_balance(account_id, delta)
                    &&& account == final(self)@.account_row(account_id as int)
                    &&& account.balance == old(self)@.account_row(account_id as int).balance
                        + delta
                },
                Err(e) => {
                    &&& old(self)@.adjustment_refusal(account_id, delta) == Some(e)
                    &&& final(self)@ == old(self)@
                },
            },
    {
        let i = match self.account_index(account_id) {
            Some(i) => i,
            None => {
                return Err(Error::NotFound);
            },
        };
        let balance = match self.accounts()[i].balance.checked_add(delta) {
            Some(v) => v,
            None => {
                return Err(Error::StoreError);
            },
        };
        self.set_balance(i, balance);
        Ok(self.accounts()[i].duplicate())
    }

    /// Why a posting would be refused, if it would.
    pub fn posting_refusal(&self, row: &Tx) -> (refusal: Option<Error>)
        requires
            self.wf(),
        ensures
            refusal == self@.posting_refusal(*row),
    {
        if !row.timestamp.is_valid() {
            return Some(Error::ValidationError);
        }
        let i = match self.account_index(row.account_id) {
            Some(i) => i,
            None => {
                return Some(Error::NotFound);
            },
        };
        if let Some(category_id) = row.category_id {
            if self.category_index(category_id).is_none() {
                return Some(Error::NotFound);
            }
        }
        if let Some(payee_id) = row.payee_id {
            if self.payee_index(payee_id).is_none() {
                return Some(Error::NotFound);
            }
        }
        let activity_fits = match row.category_id {
            Some(category_id) => self.can_post_activity(
                category_id,
                row.month,
                row.year,
                row.amount,
            ),
            None => true,
        };
        if self.has_tx_id_left() && self.accounts()[i].balance.checked_add(row.amount).is_some()
            && activity_fits {
            None
        } else {
            Some(Error::StoreError)
        }
    }

    /// Writes a posting that is not refused.
    fn apply_posting(&mut self, row: Tx) -> (done: Posting)
        requires
            old(self).wf(),
            old(self)@.posting_refusal(row) is None,
        ensures
            final(self).wf(),
            final(self)@ == old(self)@.post(row),
            done.transaction == (Tx { id: old(self)@.next_tx_id as i32, ..row }),
            done.transaction == final(self)@.txs.last(),
            done.account == final(self)@.account_row(row.account_id as int),
            done.account.balance == old(self)@.account_row(row.account_id as int).balance
                + row.amount,
            match row.category_id {
                Some(category_id) => final(self)@.has_budget(
                    category_id as int,
                    row.month as int,
                    row.year as int,
                ) && done.allocation == Some(
                    final(self)@.budget_row(category_id as int, row.month as int, row.year as int),
                ),
                None => done.allocation is None,
            },
    {
        let found = self.account_index(row.account_id);
        let at = found.unwrap();
        let balance = self.accounts()[at].balance + row.amount;
        let allocation = match row.category_id {
            Some(category_id) => self.post_activity(category_id, row.month, row.year, row.amount),
            None => None,
        };
        let written = row.duplicate();
        let id = self.push_tx(row);
        self.set_balance(at, balance);
        Posting {
            transaction: Tx {
                id,
                timestamp: written.timestamp,
                month: written.month,
                year: written.year,
                account_id: written.account_id,
                payee_id: written.payee_id,
                transfer_account_id: written.transfer_account_id,
                category_id: written.category_id,
                memo: written.memo,
                amount: written.amount,
                cleared: written.cleared,
            },
            account: self.accounts()[at].duplicate(),
            allocation,
        }
    }

    /// Posts one transaction row: books its amount as activity on its
    /// category's month (a row without a category books none), stores the
    /// row under the next id, and adds the amount to the account's balance.
    /// Either all of it happens or, with the error that says why, none.
    pub fn post_row(&mut self, row: Tx) -> (res: Result<Posting, Error>)
        requires
            old(self).wf(),
        ensures
            final(self).wf(),
            match res {
                Ok(done) => {
                    &&& old(self)@.posting_refusal(row) is None
                    &&& final(self)@ == old(self)@.post(row)
                    &&& done.transaction == (Tx { id: old(self)@.next_tx_id as i32, ..row })
                    &&& done.transaction == final(self)@.txs.last()
                    &&& done.account == final(self)@.account_row(row.account_id as int)
                    &&& done.account.balance == old(self)@.account_row(
                        row.account_id as int,
                    ).balance + row.amount
                    &&& match row.category_id {
                        Some(category_id) => final(self)@.has_budget(
                            category_id as int,
                            row.month as int,
                            row.year as int,
                        ) && done.allocation == Some(
                            final(self)@.budget_row(
                                category_id as int,
                                row.month as int,
                                row.year as int,
                            ),
                        ),
                        None => done.allocation is None,
                    }
                },
                Err(e) => {
                    &&& old(self)@.posting_refusal(row) == Some(e)
                    &&& final(self)@ == old(self)@
                },
            },
    {
        match self.posting_refusal(&row) {
            Some(e) => Err(e),
            None => Ok(self.apply_posting(row)),
        }
    }
}

impl Ledger {
    /// Posts a transaction at `now` on an account: books `amount` as
    /// activity on the category's month (without a category, none is
    /// booked), stores the transaction, and adds `amount` to the account's
    /// balance. Either all of it happens or, with the error that says why,
    /// none.
    pub fn post(
        &mut self,
        account_id: i32,
        payee_id: Option<i32>,
        category_id: Option<i32>,
        memo: String,
        amount: i32,
        cleared: bool,
        now: Timestamp,
    ) -> (res: Result<Posting, Error>)
        requires
            old(self).wf(),
            now.wf(),
        ensures
            final(self).wf(),
            old(self)@.balanced() ==> final(self)@.balanced(),
            match res {
                Ok(done) => {
                    let row = posting_row(
                        account_id,
                        payee_id,
                        category_id,
                        memo,
                        amount,
                        cleared,
                        now,
                    );
                    &&& old(self)@.posting_refusal(row) is None
                    &&& final(self)@ == old(self)@.post(row)
                    &&& done.transaction == (Tx { id: old(self)@.next_tx_id as i32, ..row })
                    &&& done.account == final(self)@.account_row(account_id as int)
                    &&& done.account.balance == old(self)@.account_row(account_id as int).balance
                        + amount
                    &&& match category_id {
                        Some(c) => final(self)@.has_budget(
                            c as int,
                            now.ledger_month(),
                            now.year as int,
                        ) && done.allocation == Some(
                            final(self)@.budget_row(c as int, now.ledger_month(), now.year as int),
                        ),
                        None => done.allocation is None,
                    }
                },
                Err(e) => {
                    &&& old(self)@.posting_refusal(
                        posting_row(account_id, payee_id, category_id, memo, amount, cleared, now),
                    ) == Some(e)
                    &&& final(self)@ == old(self)@
                },
            },
    {
        let row = Tx {
            id: 0,
            timestamp: now,
            month: now.month0(),
            year: now.year,
            account_id,
            payee_id,
            transfer_account_id: None,
            category_id,
            memo,
            amount,
            cleared,
        };
        proof {
            if self@.wf() && self@.posting_refusal(row) is None {
                lemma_post_keeps_balance(self@, row);
            }
        }
        self.post_row(row)
    }

    /// Posts a transaction at `now` that names its account, payee and
    /// category. The account and the category must exist; a payee of that
    /// name is made where there is none. Either all of it happens or, with
    /// the error that says why, none.
    pub fn post_by_name(
        &mut self,
        account_name: &str,
        payee_name: String,
        category_name: &str,
        memo: String,
        amount: i32,
        now: Timestamp,
    ) -> (res: Result<Posting, Error>)
        requires
            old(self).wf(),
            now.wf(),
        ensures
            final(self).wf(),
            old(self)@.balanced() ==> final(self)@.balanced(),
            match res {
                Ok(done) => {
                    let row = old(self)@.named_posting_row(
                        account_name@,
                        payee_name@,
                        category_name@,
                        memo,
                        amount,
                        now,
                    );
                    &&& old(self)@.named_posting_refusal(
                        account_name@,
                        payee_name@,
                        category_name@,
                        memo,
                        amount,
                        now,
                    ) is None
                    &&& final(self)@ == old(self)@.post_by_name(
                        account_name@,
                        payee_name,
                        category_name@,
                        memo,
                        amount,
                        now,
                    )
                    &&& done.transaction == (Tx { id: old(self)@.next_tx_id as i32, ..row })
                    &&& done.account == final(self)@.account_row(row.account_id as int)
                    &&& done.account.balance == old(self)@.account_named(account_name@).balance
                        + amount
                    &&& final(self)@.has_budget(
                        row.category_id->0 as int,
                        now.ledger_month(),
                        now.year as int,
                    )
                    &&& done.allocation == Some(
                        final(self)@.budget_row(
                            row.category_id->0 as int,
                            now.ledger_month(),
                            now.year as int,
                        ),
                    )
                },
                Err(e) => {
                    &&& old(self)@.named_posting_refusal(
                        account_name@,
                        payee_name@,
                        category_name@,
                        memo,
                        amount,
                        now,
                    ) == Some(e)
                    &&& final(self)@ == old(self)@
                },
            },
    {
        let account_at = match self.account_index_by_name(account_name) {
            Some(i) => i,
            None => {
                return Err(Error::NotFound);
            },
        };
        let category_at = match self.category_index_by_name(category_name) {
            Some(i) => i,
            None => {
                return Err(Error::NotFound);
            },
        };
        let account_id = self.accounts()[account_at].id;
        let category_id = self.categories()[category_at].id;
        let known = self.payee_index_by_name(payee_name.as_str());
        let payee_id = match known {
            Some(k) => self.payees()[k].id,
            None => {
                if !self.has_payee_id_left() {
                    return Err(Error::StoreError);
                }
                self.next_payee_id()
            },
        };
        let row = Tx {
            id: 0,
            timestamp: now,
            month: now.month0(),
            year: now.year,
            account_id,
            payee_id: Some(payee_id),
            transfer_account_id: None,
            category_id: Some(category_id),
            memo,
            amount,
            cleared: false,
        };
        let ghost before = self@;
        if !self.takes_posting(&row) {
            return Err(Error::StoreError);
        }
        if known.is_none() {
            self.push_payee(Payee { id: 0, name: payee_name });
            proof {
                let k = before.payees.len() as int;
                assert(self@.payees[k].id == payee_id);
            }
        }
        proof {
            lemma_post_keeps_balance(self@, row);
        }
        Ok(self.apply_posting(row))
    }

    /// Opens an account under `name`. The account starts at 0, and a first
    /// balance other than 0 is posted to it at `now` as a cleared
    /// transaction without payee or category, so that no allocation moves
    /// and the balance is the sum of the account's transactions.
    pub fn open_account(
        &mut self,
        name: String,
        balance: i32,
        is_tracking_account: bool,
        now: Timestamp,
    ) -> (res: Result<Account, Error>)
        requires
            old(self).wf(),
            now.wf(),
        ensures
            final(self).wf(),
            old(self)@.balanced() ==> final(self)@.balanced(),
            match res {
                Ok(account) => {
                    &&& !old(self)@.refuses_opening(name@, balance)
                    &&& exists|memo: String|
                        memo@.len() == 0 && #[trigger] opened(
                            old(self)@,
                            name,
                            balance,
                            is_tracking_account,
                            memo,
                            now,
                        ) == final(self)@
                    &&& account == (Account {
                        id: old(self)@.next_account_id as i32,
                        name,
                        is_tracking_account,
                        balance,
                    })
                    &&& account == final(self)@.accounts.last()
                },
                Err(e) => {
                    &&& e == Error::StoreError
                    &&& old(self)@.refuses_opening(name@, balance)
                    &&& final(self)@ == old(self)@
                },
            },
    {
        if self.account_index_by_name(name.as_str()).is_some() || !self.has_account_id_left() || (
        balance != 0 && !self.has_tx_id_left()) {
            return Err(Error::StoreError);
        }
        let ghost before = self@;
        let id = self.push_account(Account { id: 0, name, is_tracking_account, balance: 0 });
        let at = self.accounts().len() - 1;
        proof {
            lemma_new_account_keeps_balance(before, self@.accounts[at as int]);
        }
        let memo = String::new();
        if balance != 0 {
            let row = Tx {
                id: 0,
                timestamp: now,
                month: now.month0(),
                year: now.year,
                account_id: id,
                payee_id: None,
                transfer_account_id: None,
                category_id: None,
                memo,
                amount: balance,
                cleared: true,
            };
            proof {
                lemma_post_keeps_balance(self@, row);
            }
            let done = self.apply_posting(row);
            proof {
                assert(opened(before, name, balance, is_tracking_account, memo, now) == self@);
                lemma_account_at(self@, at as int);
            }
            Ok(done.account)
        } else {
            proof {
                assert(opened(before, name, balance, is_tracking_account, memo, now) == self@);
            }
            Ok(self.accounts()[at].duplicate())
        }
    }

    /// The sum of the amounts of the transactions of an account.
    pub fn transaction_total(&self, account_id: i32) -> (total: i128)
        ensures
            total == tx_total(self@.txs, account_id as int),
    {
        let rows = self.txs();
        let mut total: i128 = 0;
        let mut i: usize = 0;
        while i < rows.len()
            invariant
                i <= rows.len(),
                total == tx_total(rows@.take(i as int), account_id as int),
                -0x8000_0000 * i <= total <= 0x8000_0000 * i,
            decreases rows.len() - i,
        {
            assert(rows@.take(i + 1).drop_last() == rows@.take(i as int));
            if rows[i].account_id == account_id {
                total = total + rows[i].amount as i128;
            }
            i += 1;
        }
        assert(rows@.take(rows@.len() as int) == rows@);
        total
    }

    /// Why a balance cannot be set to the sum of its account's
    /// transactions, if it cannot: there is no such account, or the sum
    /// does not fit the column.
    pub open spec fn reconciliation_refusal(&self, account_id: i32) -> Option<Error> {
        if !self@.has_account(account_id as int) {
            Some(Error::NotFound)
        } else if !fits_amount(tx_total(self@.txs, account_id as int)) {
            Some(Error::StoreError)
        } else {
            None
        }
    }

    /// Sets the balance of an account to the sum of its transactions.
    pub fn reconcile(&mut self, account_id: i32) -> (res: Result<Account, Error>)
        requires
            old(self).wf(),
        ensures
            final(self).wf(),
            match res {
                Ok(account) => {
                    &&& old(self).reconciliation_refusal(account_id) is None
                    &&& final(self)@ == old(self)@.with_balance(
                        old(self)@.account_pos(account_id as int),
                        tx_total(old(self)@.txs, account_id as int) as i32,
                    )
                    &&& account == final(self)@.account_row(account_id as int)
                    &&& account.balance == tx_total(final(self)@.txs, account_id as int)
                },
                Err(e) => {
                    &&& old(self).reconciliation_refusal(account_id) == Some(e)
                    &&& final(self)@ == old(self)@
                },
            },
    {
        let at = match self.account_index(account_id) {
            Some(i) => i,
            None => {
                return Err(Error::NotFound);
            },
        };
        let total = self.transaction_total(account_id);
        if total < i32::MIN as i128 || total > i32::MAX as i128 {
            return Err(Error::StoreError);
        }
        self.set_balance(at, total as i32);
        Ok(self.accounts()[at].duplicate())
    }

    /// Whether the store can write a posting on an account that exists.
    fn takes_posting(&self, row: &Tx) -> (ok: bool)
        requires
            self.wf(),
            self@.has_account(row.account_id as int),
        ensures
            ok == self@.takes_posting(*row),
    {
        let found = self.account_index(row.account_id);
        let at = found.unwrap();
        let activity_fits = match row.category_id {
            Some(category_id) => self.can_post_activity(
                category_id,
                row.month,
                row.year,
                row.amount,
            ),
            None => true,
        };
        self.has_tx_id_left() && self.accounts()[at].balance.checked_add(row.amount).is_some()
            && activity_fits
    }
}

/// The sum of an account's transactions, with one more transaction.
pub proof fn lemma_tx_total_push(txs: Seq<Tx>, row: Tx, account_id: int)
    ensures
        tx_total(txs.push(row), account_id) == tx_total(txs, account_id) + if row.account_id
            == account_id {
            row.amount as int
        } else {
            0
        },
{
    assert(txs.push(row).drop_last() =~= txs);
}

/// A posting that is not refused keeps every balance the sum of its
/// account's transactions.
pub proof fn lemma_post_keeps_balance(s: LedgerView, row: Tx)
    requires
        s.wf(),
        s.posting_refusal(row) is None,
    ensures
        s.balanced() ==> s.post(row).balanced(),
{
    if s.balanced() {
        let after = s.post(row);
        let stored = Tx { id: s.next_tx_id as i32, ..row };
        assert forall|i: int| 0 <= i < after.accounts.len() implies (
        #[trigger] after.accounts[i]).balance == tx_total(
            after.txs,
            after.accounts[i].id as int,
        ) by {
            lemma_tx_total_push(s.txs, stored, s.accounts[i].id as int);
        }
    }
}

/// A new account at 0 keeps every balance the sum of its account's
/// transactions, where no transaction names the new id.
pub proof fn lemma_new_account_keeps_balance(s: LedgerView, row: Account)
    requires
        s.wf(),
        s.with_account(row).wf(),
        row.balance == 0,
    ensures
        s.balanced() ==> s.with_account(row).balanced(),
{
    lemma_unused_account_has_no_total(s.txs, s.next_account_id);
}

/// Transactions of which none names an account sum to 0 for it.
pub proof fn lemma_unused_account_has_no_total(txs: Seq<Tx>, account_id: int)
    requires
        forall|k: int| 0 <= k < txs.len() ==> (#[trigger] txs[k]).account_id != account_id,
    ensures
        tx_total(txs, account_id) == 0,
    decreases txs.len(),
{
    if txs.len() > 0 {
        lemma_unused_account_has_no_total(txs.drop_last(), account_id);
    }
}

/// In a well-formed ledger the account at a position is the account of its
/// id.
pub proof fn lemma_account_at(s: LedgerView, i: int)
    requires
        s.wf(),
        0 <= i < s.accounts.len(),
    ensures
        s.has_account(s.accounts[i].id as int),
        s.account_pos(s.accounts[i].id as int) == i,
        s.account_row(s.accounts[i].id as int) == s.accounts[i],
{
}

} // verus!
