use vstd::prelude::*;
use crate::api;
use crate::budget::POOL_CATEGORY_ID;
use crate::clock::Timestamp;
use crate::currency::{read_currency, reading_of, Reading};
use crate::error::Error;
use crate::ledger::{Ledger, LedgerView};
use crate::models::Category;
use crate::poster::opened;

verus! {

/// One user action, as it arrives on the command queue.
#[derive(Clone, Debug, PartialEq, Eq)]
pub enum Message {
    /// Name, first balance in minor units, and whether it is a tracking
    /// account.
    AddAccount(String, i32, bool),
    /// Name.
    AddCategory(String),
    /// Account name, payee name, category name, memo, amount in minor
    /// units.
    PostTransaction(String, String, String, String, i32),
    /// The account whose transactions are listed; 0 stands for all.
    SelectAccount(i32),
    /// Month and year of the allocations that are shown.
    ChangeViewedMonth(i32, i32),
    /// Category, month, year, and the amount to assign as currency text.
    EditAssignment(i32, i32, i32, String),
    /// The sequencer stops.
    Terminate,
}

/// The snapshots that a handled message has made stale.
#[derive(Clone, Copy, Debug, PartialEq, Eq, Structural)]
pub struct Refresh {
    pub accounts: bool,
    pub categories: bool,
    pub transactions: bool,
    pub budget: bool,
}

/// The state of a sequencer as mathematical values.
pub struct SequencerView {
    pub ledger: LedgerView,
    /// The account whose transactions are listed; none for all.
    pub selected_account: Option<i32>,
    pub month: i32,
    pub year: i32,
    pub terminated: bool,
}

/// The amount that an assignment text stands for: 0 for a text without a
/// digit.
pub open spec fn assignment_amount(text: Seq<char>) -> i32 {
    match reading_of(text) {
        Reading::Amount(v) => v,
        _ => 0,
    }
}

/// The snapshots that a message makes stale when it is carried out.
pub open spec fn refresh_for(message: Message) -> Refresh {
    match message {
        Message::AddAccount(_, balance, _) => Refresh {
            accounts: true,
            categories: false,
            transactions: balance != 0,
            budget: false,
        },
        Message::AddCategory(_) => Refresh {
            accounts: false,
            categories: true,
            transactions: false,
            budget: true,
        },
        Message::PostTransaction(_, _, _, _, _) => Refresh {
            accounts: true,
            categories: false,
            transactions: true,
            budget: true,
        },
        Message::SelectAccount(_) => Refresh {
            accounts: false,
            categories: false,
            transactions: true,
            budget: false,
        },
        Message::ChangeViewedMonth(_, _) => Refresh {
            accounts: false,
            categories: false,
            transactions: false,
            budget: true,
        },
        Message::EditAssignment(_, _, _, _) => Refresh {
            accounts: false,
            categories: false,
            transactions: false,
            budget: true,
        },
        Message::Terminate => nothing_stale(),
    }
}

/// No snapshot is stale.
pub open spec fn nothing_stale() -> Refresh {
    Refresh { accounts: false, categories: false, transactions: false, budget: false }
}

impl SequencerView {
    /// Why a message is refused, if it is. A sequencer that has stopped
    /// refuses nothing: it passes every message over.
    pub open spec fn refusal(self, message: Message, now: Timestamp) -> Option<Error> {
        if self.terminated {
            None
        } else {
            match message {
                Message::AddAccount(name, balance, _) => if self.ledger.refuses_opening(
                    name@,
                    balance,
                ) {
                    Some(Error::StoreError)
                } else {
                    None
                },
                Message::AddCategory(name) => if self.ledger.refuses_category(
                    Category { id: 0, group_id: 0, name, order: 0 },
                ) {
                    Some(Error::StoreError)
                } else {
                    None
                },
                Message::PostTransaction(account, payee, category, memo, amount) =>
                    self.ledger.named_posting_refusal(
                    account@,
                    payee@,
                    category@,
                    memo,
                    amount,
                    now,
                ),
                Message::EditAssignment(category_id, month, year, text) => if reading_of(text@)
                    == Reading::OutOfRange {
                    Some(Error::ValidationError)
                } else {
                    self.ledger.allocation_refusal(
                        category_id,
                        month,
                        year,
                        assignment_amount(text@),
                        Some(POOL_CATEGORY_ID),
                    )
                },
                _ => None,
            }
        }
    }

    /// Whether `next` is the state after a message that is not refused was
    /// carried out at `now`.
    pub open spec fn steps_to(self, message: Message, now: Timestamp, next: SequencerView) -> bool {
        if self.terminated {
            next == self
        } else {
            match message {
                Message::AddAccount(name, balance, is_tracking_account) => exists|memo: String|
                    memo@.len() == 0 && next == (SequencerView {
                        ledger: #[trigger] opened(
                            self.ledger,
                            name,
                            balance,
                            is_tracking_account,
                            memo,
                            now,
                        ),
                        ..self
                    }),
                Message::AddCategory(name) => next == (SequencerView {
                    ledger: self.ledger.with_category(
                        Category { id: 0, group_id: 0, name, order: 0 },
                    ),
                    ..self
                }),
                Message::PostTransaction(account, payee, category, memo, amount) => next == (
                SequencerView {
                    ledger: self.ledger.post_by_name(
                        account@,
                        payee,
                        category@,
                        memo,
                        amount,
                        now,
                    ),
                    ..self
                }),
                Message::SelectAccount(account_id) => next == (SequencerView {
                    selected_account: if account_id > 0 {
                        Some(account_id)
                    } else {
                        None
                    },
                    ..self
                }),
                Message::ChangeViewedMonth(month, year) => next == (SequencerView {
                    month,
                    year,
                    ..self
                }),
                Message::EditAssignment(category_id, month, year, text) => next == (SequencerView {
                    ledger: self.ledger.allocate(
                        category_id,
                        month,
                        year,
                        assignment_amount(text@),
                        Some(POOL_CATEGORY_ID),
                    ),
                    ..self
                }),
                Message::Terminate => next == (SequencerView { terminated: true, ..self }),
            }
        }
    }
}

impl SequencerView {
    /// Whether a message at `now` ends in `res` and leaves the state
    /// `next`. A message that is not refused is carried out, and the result
    /// names the snapshots that it made stale; a message that is refused
    /// changes nothing, and the result is the error that says why.
    pub open spec fn handled(
        self,
        message: Message,
        now: Timestamp,
        res: Result<Refresh, Error>,
        next: SequencerView,
    ) -> bool {
        match res {
            Ok(stale) => {
                &&& self.refusal(message, now) is None
                &&& self.steps_to(message, now, next)
                &&& stale == if self.terminated {
                    nothing_stale()
                } else {
                    refresh_for(message)
                }
            },
            Err(e) => {
                &&& self.refusal(message, now) == Some(e)
                &&& next == self
            },
        }
    }
}

/// The single worker that owns the ledger and carries out the user's
/// commands one at a time, in the order in which they arrive.
pub struct Sequencer {
    ledger: Ledger,
    selected_account: Option<i32>,
    month: i32,
    year: i32,
    terminated: bool,
}

impl View for Sequencer {
    type V = SequencerView;

    closed spec fn view(&self) -> SequencerView {
        SequencerView {
            ledger: self.ledger@,
            selected_account: self.selected_account,
            month: self.month,
            year: self.year,
            terminated: self.terminated,
        }
    }
}

impl Sequencer {
    /// The ledger is well formed.
    pub open spec fn wf(&self) -> bool {
        self@.ledger.wf()
    }

    /// A sequencer on `ledger` that lists all accounts' transactions and
    /// shows the allocations of the month of `now`.
    pub fn new(ledger: Ledger, now: Timestamp) -> (seq: Sequencer)
        requires
            ledger.wf(),
            now.wf(),
        ensures
            seq.wf(),
            seq@ == (SequencerView {
                ledger: ledger@,
                selected_account: None,
                month: now.ledger_month() as i32,
                year: now.year,
                terminated: false,
            }),
    {
        Sequencer {
            ledger,
            selected_account: None,
            month: now.month0(),
            year: now.year,
            terminated: false,
        }
    }

    /// The ledger that the sequencer owns.
    pub fn ledger(&self) -> (ledger: &Ledger)
        ensures
            ledger@ == self@.ledger,
    {
        &self.ledger
    }

    /// The account whose transactions are listed; none for all.
    pub fn selected_account(&self) -> (selected: Option<i32>)
        ensures
            selected == self@.selected_account,
    {
        self.selected_account
    }

    /// Month and year of the allocations that are shown.
    pub fn viewed_month(&self) -> (shown: (i32, i32))
        ensures
            shown == (self@.month, self@.year),
    {
        (self.month, self.year)
    }

    /// Whether the sequencer has stopped.
    pub fn is_terminated(&self) -> (stopped: bool)
        ensures
            stopped == self@.terminated,
    {
        self.terminated
    }

    /// Carries out one message at the time that the clock shows.
    pub fn handle(&mut self, message: Message) -> (res: Result<Refresh, Error>)
        requires
            old(self).wf(),
        ensures
            final(self).wf(),
            old(self)@.ledger.balanced() ==> final(self)@.ledger.balanced(),
            exists|now: Timestamp|
                now.wf() && #[trigger] old(self)@.handled(message, now, res, final(self)@),
    {
        self.handle_at(message, Timestamp::now())
    }

    /// Carries out one message at `now`. A message that is refused changes
    /// nothing, and the sequencer goes on with the next. After `Terminate`
    /// every message is passed over.
    pub fn handle_at(&mut self, message: Message, now: Timestamp) -> (res: Result<Refresh, Error>)
        requires
            old(self).wf(),
            now.wf(),
        ensures
            final(self).wf(),
            old(self)@.ledger.balanced() ==> final(self)@.ledger.balanced(),
            old(self)@.handled(message, now, res, final(self)@),
    {
        if self.terminated {
            return Ok(Refresh { accounts: false, categories: false, transactions: false, budget: false });
        }
        match message {
            Message::AddAccount(name, balance, is_tracking_account) => {
                match self.ledger.open_account(name, balance, is_tracking_account, now) {
                    Ok(_) => Ok(
                        Refresh {
                            accounts: true,
                            categories: false,
                            transactions: balance != 0,
                            budget: false,
                        },
                    ),
                    Err(e) => Err(e),
                }
            },
            Message::AddCategory(name) => {
                match api::category::add(
                    Category { id: 0, group_id: 0, name, order: 0 },
                    &mut self.ledger,
                ) {
                    Ok(_) => {
                        Ok(
                            Refresh {
                                accounts: false,
                                categories: true,
                                transactions: false,
                                budget: true,
                            },
                        )
                    },
                    Err(e) => Err(e),
                }
            },
            Message::PostTransaction(account, payee, category, memo, amount) => {
                match self.ledger.post_by_name(
                    account.as_str(),
                    payee,
                    category.as_str(),
                    memo,
                    amount,
                    now,
                ) {
                    Ok(_) => Ok(
                        Refresh {
                            accounts: true,
                            categories: false,
                            transactions: true,
                            budget: true,
                        },
                    ),
                    Err(e) => Err(e),
                }
            },
            Message::SelectAccount(account_id) => {
                self.selected_account = if account_id > 0 {
                    Some(account_id)
                } else {
                    None
                };
                Ok(
                    Refresh {
                        accounts: false,
                        categories: false,
                        transactions: true,
                        budget: false,
                    },
                )
            },
            Message::ChangeViewedMonth(month, year) => {
                self.month = month;
                self.year = year;
                Ok(
                    Refresh {
                        accounts: false,
                        categories: false,
                        transactions: false,
                        budget: true,
                    },
                )
            },
            Message::EditAssignment(category_id, month, year, text) => {
                let amount = match read_currency(text.as_str()) {
                    Reading::Amount(v) => v,
                    Reading::Blank => 0,
                    Reading::OutOfRange => {
                        return Err(Error::ValidationError);
                    },
                };
                match self.ledger.allocate(category_id, month, year, amount, Some(POOL_CATEGORY_ID)) {
                    Ok(_) => {
                        Ok(
                            Refresh {
                                accounts: false,
                                categories: false,
                                transactions: false,
                                budget: true,
                            },
                        )
                    },
                    Err(e) => Err(e),
                }
            },
            Message::Terminate => {
                self.terminated = true;
                Ok(
                    Refresh {
                        accounts: false,
                        categories: false,
                        transactions: false,
                        budget: false,
                    },
                )
            },
        }
    }
}

} // verus!
