use vstd::prelude::*;
use vstd::string::StringExecFns;
use crate::models::{Account, Budget, Category, NewBudget, Payee, Tx};

verus! {

/// The contents of a ledger as mathematical sequences: the five tables in
/// row order, and the id that each table hands out next.
pub struct LedgerView {
    pub accounts: Seq<Account>,
    pub categories: Seq<Category>,
    pub payees: Seq<Payee>,
    pub txs: Seq<Tx>,
    pub budgets: Seq<Budget>,
    pub next_account_id: int,
    pub next_category_id: int,
    pub next_payee_id: int,
    pub next_tx_id: int,
    pub next_budget_id: int,
}

impl LedgerView {
    /// The ledger with no rows, whose tables hand out ids from 1.
    pub open spec fn empty() -> LedgerView {
        LedgerView {
            accounts: Seq::empty(),
            categories: Seq::empty(),
            payees: Seq::empty(),
            txs: Seq::empty(),
            budgets: Seq::empty(),
            next_account_id: 1,
            next_category_id: 1,
            next_payee_id: 1,
            next_tx_id: 1,
            next_budget_id: 1,
        }
    }

    /// Whether an account has this id.
    pub open spec fn has_account(self, id: int) -> bool {
        exists|i: int| 0 <= i < self.accounts.len() && (#[trigger] self.accounts[i]).id == id
    }

    /// The position of the account with this id, where there is one.
    pub open spec fn account_pos(self, id: int) -> int {
        choose|i: int| 0 <= i < self.accounts.len() && (#[trigger] self.accounts[i]).id == id
    }

    /// Whether an account has this name.
    pub open spec fn has_account_named(self, name: Seq<char>) -> bool {
        exists|i: int| 0 <= i < self.accounts.len() && (#[trigger] self.accounts[i]).name@ == name
    }

    /// The position of the account with this name, where there is one.
    pub open spec fn account_named_pos(self, name: Seq<char>) -> int {
        choose|i: int| 0 <= i < self.accounts.len() && (#[trigger] self.accounts[i]).name@ == name
    }

    /// Whether an account other than the one at position `i` has this name.
    pub open spec fn account_name_taken(self, i: int, name: Seq<char>) -> bool {
        exists|j: int|
            0 <= j < self.accounts.len() && j != i && (#[trigger] self.accounts[j]).name@ == name
    }

    /// Whether a transaction names this account.
    pub open spec fn account_in_use(self, id: int) -> bool {
        exists|k: int|
            0 <= k < self.txs.len() && ((#[trigger] self.txs[k]).account_id == id
                || self.txs[k].transfer_account_id == Some(id as i32))
    }

    /// Ids lie below the next id and occur once; names occur once.
    pub open spec fn accounts_wf(self) -> bool {
        accounts_in_order(self.accounts, self.next_account_id)
    }

    /// The ledger with one more account, which takes the next id.
    pub open spec fn with_account(self, row: Account) -> LedgerView {
        LedgerView {
            accounts: self.accounts.push(Account { id: self.next_account_id as i32, ..row }),
            next_account_id: self.next_account_id + 1,
            ..self
        }
    }

    /// The ledger with the balance of the account at position `i` replaced.
    pub open spec fn with_balance(self, i: int, balance: i32) -> LedgerView {
        LedgerView {
            accounts: self.accounts.update(i, Account { balance, ..self.accounts[i] }),
            ..self
        }
    }

    /// The ledger with the account at position `i` replaced by `row` under
    /// the id that the position had.
    pub open spec fn with_account_row(self, i: int, row: Account) -> LedgerView {
        LedgerView {
            accounts: self.accounts.update(i, Account { id: self.accounts[i].id, ..row }),
            ..self
        }
    }

    /// The ledger without the account at position `i`.
    pub open spec fn without_account(self, i: int) -> LedgerView {
        LedgerView { accounts: self.accounts.remove(i), ..self }
    }

    /// Whether a category has this id.
    pub open spec fn has_category(self, id: int) -> bool {
        exists|i: int| 0 <= i < self.categories.len() && (#[trigger] self.categories[i]).id == id
    }

    /// The position of the category with this id, where there is one.
    pub open spec fn category_pos(self, id: int) -> int {
        choose|i: int| 0 <= i < self.categories.len() && (#[trigger] self.categories[i]).id == id
    }

    /// Whether a category has this name.
    pub open spec fn has_category_named(self, name: Seq<char>) -> bool {
        exists|i: int|
            0 <= i < self.categories.len() && (#[trigger] self.categories[i]).name@ == name
    }

    /// The position of the category with this name, where there is one.
    pub open spec fn category_named_pos(self, name: Seq<char>) -> int {
        choose|i: int|
            0 <= i < self.categories.len() && (#[trigger] self.categories[i]).name@ == name
    }

    /// Whether a transaction or an allocation names this category.
    pub open spec fn category_in_use(self, id: int) -> bool {
        ||| exists|k: int|
            0 <= k < self.txs.len() && (#[trigger] self.txs[k]).category_id == Some(id as i32)
        ||| exists|k: int|
            0 <= k < self.budgets.len() && (#[trigger] self.budgets[k]).category_id == id
    }

    /// Ids lie below the next id and occur once; names occur once.
    pub open spec fn categories_wf(self) -> bool {
        categories_in_order(self.categories, self.next_category_id)
    }

    /// The ledger with one more category, which takes the next id.
    pub open spec fn with_category(self, row: Category) -> LedgerView {
        LedgerView {
            categories: self.categories.push(
                Category { id: self.next_category_id as i32, ..row },
            ),
            next_category_id: self.next_category_id + 1,
            ..self
        }
    }

    /// The ledger without the category at position `i`.
    pub open spec fn without_category(self, i: int) -> LedgerView {
        LedgerView { categories: self.categories.remove(i), ..self }
    }

    /// Whether a payee has this id.
    pub open spec fn has_payee(self, id: int) -> bool {
        exists|i: int| 0 <= i < self.payees.len() && (#[trigger] self.payees[i]).id == id
    }

    /// The position of the payee with this id, where there is one.
    pub open spec fn payee_pos(self, id: int) -> int {
        choose|i: int| 0 <= i < self.payees.len() && (#[trigger] self.payees[i]).id == id
    }

    /// Whether a payee has this name.
    pub open spec fn has_payee_named(self, name: Seq<char>) -> bool {
        exists|i: int| 0 <= i < self.payees.len() && (#[trigger] self.payees[i]).name@ == name
    }

    /// The position of the payee with this name, where there is one.
    pub open spec fn payee_named_pos(self, name: Seq<char>) -> int {
        choose|i: int| 0 <= i < self.payees.len() && (#[trigger] self.payees[i]).name@ == name
    }

    /// Whether a transaction names this payee.
    pub open spec fn payee_in_use(self, id: int) -> bool {
        exists|k: int|
            0 <= k < self.txs.len() && (#[trigger] self.txs[k]).payee_id == Some(id as i32)
    }

    /// Ids lie below the next id and occur once; names occur once.
    pub open spec fn payees_wf(self) -> bool {
        payees_in_order(self.payees, self.next_payee_id)
    }

    /// The ledger with one more payee, which takes the next id.
    pub open spec fn with_payee(self, row: Payee) -> LedgerView {
        LedgerView {
            payees: self.payees.push(Payee { id: self.next_payee_id as i32, ..row }),
            next_payee_id: self.next_payee_id + 1,
            ..self
        }
    }

    /// The ledger without the payee at position `i`.
    pub open spec fn without_payee(self, i: int) -> LedgerView {
        LedgerView { payees: self.payees.remove(i), ..self }
    }

    /// Whether a transaction has this id.
    pub open spec fn has_tx(self, id: int) -> bool {
        exists|i: int| 0 <= i < self.txs.len() && (#[trigger] self.txs[i]).id == id
    }

    /// The position of the transaction with this id, where there is one.
    pub open spec fn tx_pos(self, id: int) -> int {
        choose|i: int| 0 <= i < self.txs.len() && (#[trigger] self.txs[i]).id == id
    }

    /// Ids lie below the next id and occur once.
    pub open spec fn txs_wf(self) -> bool {
        txs_in_order(self.txs, self.next_tx_id)
    }

    /// The ledger with one more transaction, which takes the next id.
    pub open spec fn with_tx(self, row: Tx) -> LedgerView {
        LedgerView {
            txs: self.txs.push(Tx { id: self.next_tx_id as i32, ..row }),
            next_tx_id: self.next_tx_id + 1,
            ..self
        }
    }

    /// The ledger without the transaction at position `i`.
    pub open spec fn without_tx(self, i: int) -> LedgerView {
        LedgerView { txs: self.txs.remove(i), ..self }
    }

    /// Whether this category has an allocation row for this month.
    pub open spec fn has_budget(self, category_id: int, month: int, year: int) -> bool {
        exists|i: int|
            0 <= i < self.budgets.len() && row_is_for(
                #[trigger] self.budgets[i],
                category_id,
                month,
                year,
            )
    }

    /// The position of the allocation of this category and month, where
    /// there is one.
    pub open spec fn budget_pos(self, category_id: int, month: int, year: int) -> int {
        choose|i: int|
            0 <= i < self.budgets.len() && row_is_for(
                #[trigger] self.budgets[i],
                category_id,
                month,
                year,
            )
    }

    /// Ids lie below the next id and occur once; a category has one row a
    /// month; in every row what is available is what was assigned plus the
    /// activity.
    pub open spec fn budgets_wf(self) -> bool {
        budgets_in_order(self.budgets, self.next_budget_id)
    }

    /// The ledger with one more allocation row, which takes the next id.
    pub open spec fn with_budget(self, row: NewBudget) -> LedgerView {
        LedgerView {
            budgets: self.budgets.push(
                Budget {
                    id: self.next_budget_id as i32,
                    month: row.month,
                    year: row.year,
                    category_id: row.category_id,
                    assigned: row.assigned,
                    activity: row.activity,
                    available: row.available,
                },
            ),
            next_budget_id: self.next_budget_id + 1,
            ..self
        }
    }

    /// The ledger with the three amounts of the allocation at position `i`
    /// replaced.
    pub open spec fn with_amounts(
        self,
        i: int,
        assigned: i32,
        activity: i32,
        available: i32,
    ) -> LedgerView {
        LedgerView {
            budgets: self.budgets.update(
                i,
                Budget { assigned, activity, available, ..self.budgets[i] },
            ),
            ..self
        }
    }

    /// The id that a table hands out next once it holds a row with this
    /// id.
    pub open spec fn next_after(next: int, id: int) -> int {
        if id >= next {
            id + 1
        } else {
            next
        }
    }

    /// The ledger with one more account that keeps its id.
    pub open spec fn with_stored_account(self, row: Account) -> LedgerView {
        LedgerView {
            accounts: self.accounts.push(row),
            next_account_id: Self::next_after(self.next_account_id, row.id as int),
            ..self
        }
    }

    /// The ledger with one more category that keeps its id.
    pub open spec fn with_stored_category(self, row: Category) -> LedgerView {
        LedgerView {
            categories: self.categories.push(row),
            next_category_id: Self::next_after(self.next_category_id, row.id as int),
            ..self
        }
    }

    /// The ledger with one more payee that keeps its id.
    pub open spec fn with_stored_payee(self, row: Payee) -> LedgerView {
        LedgerView {
            payees: self.payees.push(row),
            next_payee_id: Self::next_after(self.next_payee_id, row.id as int),
            ..self
        }
    }

    /// The ledger with one more transaction that keeps its id.
    pub open spec fn with_stored_tx(self, row: Tx) -> LedgerView {
        LedgerView {
            txs: self.txs.push(row),
            next_tx_id: Self::next_after(self.next_tx_id, row.id as int),
            ..self
        }
    }

    /// The ledger with one more allocation row that keeps its id.
    pub open spec fn with_stored_budget(self, row: Budget) -> LedgerView {
        LedgerView {
            budgets: self.budgets.push(row),
            next_budget_id: Self::next_after(self.next_budget_id, row.id as int),
            ..self
        }
    }

    /// Whether an allocation row has this id.
    pub open spec fn has_budget_id(self, id: int) -> bool {
        exists|i: int| 0 <= i < self.budgets.len() && (#[trigger] self.budgets[i]).id == id
    }

    /// The ledger without its newest allocation row, whose id is handed out
    /// again.
    pub open spec fn without_newest_budget(self) -> LedgerView {
        LedgerView {
            budgets: self.budgets.drop_last(),
            next_budget_id: self.next_budget_id - 1,
            ..self
        }
    }

    /// Every table's ids and unique columns are in order, and every
    /// allocation row is in balance.
    pub open spec fn wf(self) -> bool {
        &&& self.accounts_wf()
        &&& self.categories_wf()
        &&& self.payees_wf()
        &&& self.txs_wf()
        &&& self.budgets_wf()
        &&& accounts_were_issued(self.txs, self.next_account_id)
    }
}

/// The rule of the accounts table: ids lie from 1 below `next` and occur
/// once, and so do names.
pub open spec fn accounts_in_order(rows: Seq<Account>, next: int) -> bool {
    &&& 1 <= next <= i32::MAX
    &&& forall|i: int| 0 <= i < rows.len() ==> 1 <= (#[trigger] rows[i]).id < next
    &&& forall|i: int, j: int|
        0 <= i < j < rows.len() ==> (#[trigger] rows[i]).id != (#[trigger] rows[j]).id
    &&& forall|i: int, j: int|
        0 <= i < j < rows.len() ==> (#[trigger] rows[i]).name@ != (#[trigger] rows[j]).name@
}

/// The rule of the categories table: ids lie from 1 below `next` and occur
/// once, and so do names.
pub open spec fn categories_in_order(rows: Seq<Category>, next: int) -> bool {
    &&& 1 <= next <= i32::MAX
    &&& forall|i: int| 0 <= i < rows.len() ==> 1 <= (#[trigger] rows[i]).id < next
    &&& forall|i: int, j: int|
        0 <= i < j < rows.len() ==> (#[trigger] rows[i]).id != (#[trigger] rows[j]).id
    &&& forall|i: int, j: int|
        0 <= i < j < rows.len() ==> (#[trigger] rows[i]).name@ != (#[trigger] rows[j]).name@
}

/// The rule of the payees table: ids lie from 1 below `next` and occur
/// once, and so do names.
pub open spec fn payees_in_order(rows: Seq<Payee>, next: int) -> bool {
    &&& 1 <= next <= i32::MAX
    &&& forall|i: int| 0 <= i < rows.len() ==> 1 <= (#[trigger] rows[i]).id < next
    &&& forall|i: int, j: int|
        0 <= i < j < rows.len() ==> (#[trigger] rows[i]).id != (#[trigger] rows[j]).id
    &&& forall|i: int, j: int|
        0 <= i < j < rows.len() ==> (#[trigger] rows[i]).name@ != (#[trigger] rows[j]).name@
}

/// The rule of the transactions table: ids lie from 1 below `next` and
/// occur once, and every timestamp names an existing day.
pub open spec fn txs_in_order(rows: Seq<Tx>, next: int) -> bool {
    &&& 1 <= next <= i32::MAX
    &&& forall|i: int| 0 <= i < rows.len() ==> (#[trigger] rows[i]).timestamp.wf()
    &&& forall|i: int| 0 <= i < rows.len() ==> 1 <= (#[trigger] rows[i]).id < next
    &&& forall|i: int, j: int|
        0 <= i < j < rows.len() ==> (#[trigger] rows[i]).id != (#[trigger] rows[j]).id
}

/// Every transaction names an account id that the accounts table has handed
/// out.
pub open spec fn accounts_were_issued(txs: Seq<Tx>, next_account_id: int) -> bool {
    forall|k: int| 0 <= k < txs.len() ==> 1 <= (#[trigger] txs[k]).account_id < next_account_id
}

/// The rule of the allocations table: ids lie from 1 below `next` and occur
/// once, a category has one row a month, and every row is in balance.
pub open spec fn budgets_in_order(rows: Seq<Budget>, next: int) -> bool {
    &&& 1 <= next <= i32::MAX
    &&& forall|i: int| 0 <= i < rows.len() ==> 1 <= (#[trigger] rows[i]).id < next
    &&& forall|i: int, j: int|
        0 <= i < j < rows.len() ==> (#[trigger] rows[i]).id != (#[trigger] rows[j]).id
    &&& forall|i: int, j: int|
        0 <= i < j < rows.len() ==> !same_envelope(#[trigger] rows[i], #[trigger] rows[j])
    &&& forall|i: int| 0 <= i < rows.len() ==> in_balance(#[trigger] rows[i])
}

/// Whether the row is the allocation of this category in this month.
pub open spec fn row_is_for(row: Budget, category_id: int, month: int, year: int) -> bool {
    row.category_id == category_id && row.month == month && row.year == year
}

/// Whether two rows are allocations of the same category in the same month.
pub open spec fn same_envelope(a: Budget, b: Budget) -> bool {
    a.category_id == b.category_id && a.month == b.month && a.year == b.year
}

/// What is available is what was assigned plus the activity.
pub open spec fn in_balance(row: Budget) -> bool {
    row.available == row.assigned + row.activity
}

/// The ledger store: accounts, categories, payees, transactions and
/// allocations, each table a list of rows with ids of its own.
pub struct Ledger {
    accounts: Vec<Account>,
    categories: Vec<Category>,
    payees: Vec<Payee>,
    txs: Vec<Tx>,
    budgets: Vec<Budget>,
    next_account_id: i32,
    next_category_id: i32,
    next_payee_id: i32,
    next_tx_id: i32,
    next_budget_id: i32,
}

impl View for Ledger {
    type V = LedgerView;

    closed spec fn view(&self) -> LedgerView {
        LedgerView {
            accounts: self.accounts@,
            categories: self.categories@,
            payees: self.payees@,
            txs: self.txs@,
            budgets: self.budgets@,
            next_account_id: self.next_account_id as int,
            next_category_id: self.next_category_id as int,
            next_payee_id: self.next_payee_id as int,
            next_tx_id: self.next_tx_id as int,
            next_budget_id: self.next_budget_id as int,
        }
    }
}

impl Ledger {
    /// Every table's ids and unique columns are in order, and every
    /// allocation row is in balance.
    pub open spec fn wf(&self) -> bool {
        self@.wf()
    }

    /// An empty ledger.
    pub fn new() -> (ledger: Ledger)
        ensures
            ledger.wf(),
            ledger@ == LedgerView::empty(),
    {
        Ledger {
            accounts: Vec::new(),
            categories: Vec::new(),
            payees: Vec::new(),
            txs: Vec::new(),
            budgets: Vec::new(),
            next_account_id: 1,
            next_category_id: 1,
            next_payee_id: 1,
            next_tx_id: 1,
            next_budget_id: 1,
        }
    }

    /// The accounts in row order.
    pub fn accounts(&self) -> (rows: &Vec<Account>)
        ensures
            rows@ == self@.accounts,
    {
        &self.accounts
    }

    /// The categories in row order.
    pub fn categories(&self) -> (rows: &Vec<Category>)
        ensures
            rows@ == self@.categories,
    {
        &self.categories
    }

    /// The payees in row order.
    pub fn payees(&self) -> (rows: &Vec<Payee>)
        ensures
            rows@ == self@.payees,
    {
        &self.payees
    }

    /// The transactions in row order.
    pub fn txs(&self) -> (rows: &Vec<Tx>)
        ensures
            rows@ == self@.txs,
    {
        &self.txs
    }

    /// The allocation rows in row order.
    pub fn budgets(&self) -> (rows: &Vec<Budget>)
        ensures
            rows@ == self@.budgets,
    {
        &self.budgets
    }

    /// Whether the accounts table can still hand out an id.
    pub fn has_account_id_left(&self) -> (left: bool)
        ensures
            left == (self@.next_account_id < i32::MAX),
    {
        self.next_account_id < i32::MAX
    }

    /// Whether the categories table can still hand out an id.
    pub fn has_category_id_left(&self) -> (left: bool)
        ensures
            left == (self@.next_category_id < i32::MAX),
    {
        self.next_category_id < i32::MAX
    }

    /// Whether the payees table can still hand out an id.
    pub fn has_payee_id_left(&self) -> (left: bool)
        ensures
            left == (self@.next_payee_id < i32::MAX),
    {
        self.next_payee_id < i32::MAX
    }

    /// The id that the payees table hands out next.
    pub fn next_payee_id(&self) -> (id: i32)
        ensures
            id == self@.next_payee_id,
    {
        self.next_payee_id
    }

    /// Whether the transactions table can still hand out an id.
    pub fn has_tx_id_left(&self) -> (left: bool)
        ensures
            left == (self@.next_tx_id < i32::MAX),
    {
        self.next_tx_id < i32::MAX
    }

    /// Whether the allocations table can still hand out an id.
    pub fn has_budget_id_left(&self) -> (left: bool)
        ensures
            left == (self@.next_budget_id < i32::MAX),
    {
        self.next_budget_id < i32::MAX
    }

    /// The position of the account with this id.
    pub fn account_index(&self, id: i32) -> (found: Option<usize>)
        requires
            self.wf(),
        ensures
            found is Some == self@.has_account(id as int),
            found matches Some(i) ==> i == self@.account_pos(id as int) && i < self@.accounts.len()
                && self@.accounts[i as int].id == id,
    {
        let mut i: usize = 0;
        while i < self.accounts.len()
            invariant
                self.wf(),
                i <= self.accounts.len(),
                forall|j: int| 0 <= j < i ==> (#[trigger] self.accounts@[j]).id != id,
            decreases self.accounts.len() - i,
        {
            if self.accounts[i].id == id {
                return Some(i);
            }
            i += 1;
        }
        None
    }

    /// The position of the account with this name.
    pub fn account_index_by_name(&self, name: &str) -> (found: Option<usize>)
        requires
            self.wf(),
        ensures
            found is Some == self@.has_account_named(name@),
            found matches Some(i) ==> i == self@.account_named_pos(name@) && i
                < self@.accounts.len() && self@.accounts[i as int].name@ == name@,
    {
        let wanted = String::from_str(name);
        let mut i: usize = 0;
        while i < self.accounts.len()
            invariant
                self.wf(),
                wanted@ == name@,
                i <= self.accounts.len(),
                forall|j: int| 0 <= j < i ==> (#[trigger] self.accounts@[j]).name@ != name@,
            decreases self.accounts.len() - i,
        {
            if self.accounts[i].name == wanted {
                return Some(i);
            }
            i += 1;
        }
        None
    }

    /// Whether an account other than the one at position `skip` has this
    /// name.
    pub fn account_name_taken(&self, skip: usize, name: &str) -> (taken: bool)
        requires
            self.wf(),
        ensures
            taken == self@.account_name_taken(skip as int, name@),
    {
        let wanted = String::from_str(name);
        let mut i: usize = 0;
        while i < self.accounts.len()
            invariant
                wanted@ == name@,
                i <= self.accounts.len(),
                forall|j: int|
                    0 <= j < i && j != skip ==> (#[trigger] self.accounts@[j]).name@ != name@,
            decreases self.accounts.len() - i,
        {
            if i != skip && self.accounts[i].name == wanted {
                assert(self@.accounts[i as int].name@ == name@);
                return true;
            }
            i += 1;
        }
        false
    }

    /// Whether a transaction names this account.
    pub fn account_in_use(&self, id: i32) -> (used: bool)
        ensures
            used == self@.account_in_use(id as int),
    {
        let mut k: usize = 0;
        while k < self.txs.len()
            invariant
                k <= self.txs.len(),
                forall|j: int|
                    0 <= j < k ==> (#[trigger] self.txs@[j]).account_id != id
                        && self.txs@[j].transfer_account_id != Some(id),
            decreases self.txs.len() - k,
        {
            let names_it = match self.txs[k].transfer_account_id {
                Some(other) => other == id,
                None => false,
            };
            if self.txs[k].account_id == id || names_it {
                assert(self@.txs[k as int].account_id == id || self@.txs[k as int].transfer_account_id
                    == Some(id));
                return true;
            }
            k += 1;
        }
        false
    }

    /// The position of the category with this id.
    pub fn category_index(&self, id: i32) -> (found: Option<usize>)
        requires
            self.wf(),
        ensures
            found is Some == self@.has_category(id as int),
            found matches Some(i) ==> i == self@.category_pos(id as int) && i
                < self@.categories.len() && self@.categories[i as int].id == id,
    {
        let mut i: usize = 0;
        while i < self.categories.len()
            invariant
                self.wf(),
                i <= self.categories.len(),
                forall|j: int| 0 <= j < i ==> (#[trigger] self.categories@[j]).id != id,
            decreases self.categories.len() - i,
        {
            if self.categories[i].id == id {
                return Some(i);
            }
            i += 1;
        }
        None
    }

    /// The position of the category with this name.
    pub fn category_index_by_name(&self, name: &str) -> (found: Option<usize>)
        requires
            self.wf(),
        ensures
            found is Some == self@.has_category_named(name@),
            found matches Some(i) ==> i == self@.category_named_pos(name@) && i
                < self@.categories.len() && self@.categories[i as int].name@ == name@,
    {
        let wanted = String::from_str(name);
        let mut i: usize = 0;
        while i < self.categories.len()
            invariant
                self.wf(),
                wanted@ == name@,
                i <= self.categories.len(),
                forall|j: int| 0 <= j < i ==> (#[trigger] self.categories@[j]).name@ != name@,
            decreases self.categories.len() - i,
        {
            if self.categories[i].name == wanted {
                return Some(i);
            }
            i += 1;
        }
        None
    }

    /// Whether a transaction or an allocation names this category.
    pub fn category_in_use(&self, id: i32) -> (used: bool)
        ensures
            used == self@.category_in_use(id as int),
    {
        let mut k: usize = 0;
        while k < self.txs.len()
            invariant
                k <= self.txs.len(),
                forall|j: int| 0 <= j < k ==> (#[trigger] self.txs@[j]).category_id != Some(id),
            decreases self.txs.len() - k,
        {
            let names_it = match self.txs[k].category_id {
                Some(other) => other == id,
                None => false,
            };
            if names_it {
                return true;
            }
            k += 1;
        }
        let mut b: usize = 0;
        while b < self.budgets.len()
            invariant
                b <= self.budgets.len(),
                forall|j: int|
                    0 <= j < self.txs.len() ==> (#[trigger] self.txs@[j]).category_id != Some(id),
                forall|j: int| 0 <= j < b ==> (#[trigger] self.budgets@[j]).category_id != id,
            decreases self.budgets.len() - b,
        {
            if self.budgets[b].category_id == id {
                assert(self@.budgets[b as int].category_id == id);
                return true;
            }
            b += 1;
        }
        false
    }

    /// The position of the payee with this id.
    pub fn payee_index(&self, id: i32) -> (found: Option<usize>)
        requires
            self.wf(),
        ensures
            found is Some == self@.has_payee(id as int),
            found matches Some(i) ==> i == self@.payee_pos(id as int) && i < self@.payees.len()
                && self@.payees[i as int].id == id,
    {
        let mut i: usize = 0;
        while i < self.payees.len()
            invariant
                self.wf(),
                i <= self.payees.len(),
                forall|j: int| 0 <= j < i ==> (#[trigger] self.payees@[j]).id != id,
            decreases self.payees.len() - i,
        {
            if self.payees[i].id == id {
                return Some(i);
            }
            i += 1;
        }
        None
    }

    /// The position of the payee with this name.
    pub fn payee_index_by_name(&self, name: &str) -> (found: Option<usize>)
        requires
            self.wf(),
        ensures
            found is Some == self@.has_payee_named(name@),
            found matches Some(i) ==> i == self@.payee_named_pos(name@) && i < self@.payees.len()
                && self@.payees[i as int].name@ == name@,
    {
        let wanted = String::from_str(name);
        let mut i: usize = 0;
        while i < self.payees.len()
            invariant
                self.wf(),
                wanted@ == name@,
                i <= self.payees.len(),
                forall|j: int| 0 <= j < i ==> (#[trigger] self.payees@[j]).name@ != name@,
            decreases self.payees.len() - i,
        {
            if self.payees[i].name == wanted {
                return Some(i);
            }
            i += 1;
        }
        None
    }

    /// Whether a transaction names this payee.
    pub fn payee_in_use(&self, id: i32) -> (used: bool)
        ensures
            used == self@.payee_in_use(id as int),
    {
        let mut k: usize = 0;
        while k < self.txs.len()
            invariant
                k <= self.txs.len(),
                forall|j: int| 0 <= j < k ==> (#[trigger] self.txs@[j]).payee_id != Some(id),
            decreases self.txs.len() - k,
        {
            let names_it = match self.txs[k].payee_id {
                Some(other) => other == id,
                None => false,
            };
            if names_it {
                return true;
            }
            k += 1;
        }
        false
    }

    /// The position of the transaction with this id.
    pub fn tx_index(&self, id: i32) -> (found: Option<usize>)
        requires
            self.wf(),
        ensures
            found is Some == self@.has_tx(id as int),
            found matches Some(i) ==> i == self@.tx_pos(id as int) && i < self@.txs.len()
                && self@.txs[i as int].id == id,
    {
        let mut i: usize = 0;
        while i < self.txs.len()
            invariant
                self.wf(),
                i <= self.txs.len(),
                forall|j: int| 0 <= j < i ==> (#[trigger] self.txs@[j]).id != id,
            decreases self.txs.len() - i,
        {
            if self.txs[i].id == id {
                return Some(i);
            }
            i += 1;
        }
        None
    }

    /// The position of the allocation of this category in this month.
    pub fn budget_index(&self, category_id: i32, month: i32, year: i32) -> (found: Option<usize>)
        requires
            self.wf(),
        ensures
            found is Some == self@.has_budget(category_id as int, month as int, year as int),
            found matches Some(i) ==> i == self@.budget_pos(
                category_id as int,
                month as int,
                year as int,
            ) && i < self@.budgets.len() && row_is_for(
                self@.budgets[i as int],
                category_id as int,
                month as int,
                year as int,
            ),
    {
        let mut i: usize = 0;
        while i < self.budgets.len()
            invariant
                self.wf(),
                i <= self.budgets.len(),
                forall|j: int|
                    0 <= j < i ==> !row_is_for(
                        #[trigger] self.budgets@[j],
                        category_id as int,
                        month as int,
                        year as int,
                    ),
            decreases self.budgets.len() - i,
        {
            let row = &self.budgets[i];
            if row.category_id == category_id && row.month == month && row.year == year {
                assert(row_is_for(
                    self@.budgets[i as int],
                    category_id as int,
                    month as int,
                    year as int,
                ));
                return Some(i);
            }
            i += 1;
        }
        None
    }

    /// Appends an account under the next id.
    pub(crate) fn push_account(&mut self, row: Account) -> (id: i32)
        requires
            old(self).wf(),
            old(self)@.next_account_id < i32::MAX,
            !old(self)@.has_account_named(row.name@),
        ensures
            final(self).wf(),
            final(self)@ == old(self)@.with_account(row),
            id == old(self)@.next_account_id,
    {
        let id = self.next_account_id;
        self.accounts.push(
            Account {
                id,
                name: row.name,
                is_tracking_account: row.is_tracking_account,
                balance: row.balance,
            },
        );
        self.next_account_id = id + 1;
        id
    }

    /// Replaces the balance of the account at position `i`.
    pub(crate) fn set_balance(&mut self, i: usize, balance: i32)
        requires
            old(self).wf(),
            i < old(self)@.accounts.len(),
        ensures
            final(self).wf(),
            final(self)@ == old(self)@.with_balance(i as int, balance),
    {
        self.accounts[i].balance = balance;
    }

    /// Replaces the account at position `i` by `row`, but for its id.
    pub(crate) fn set_account(&mut self, i: usize, row: Account)
        requires
            old(self).wf(),
            i < old(self)@.accounts.len(),
            !old(self)@.account_name_taken(i as int, row.name@),
        ensures
            final(self).wf(),
            final(self)@ == old(self)@.with_account_row(i as int, row),
    {
        let id = self.accounts[i].id;
        self.accounts[i] = Account {
            id,
            name: row.name,
            is_tracking_account: row.is_tracking_account,
            balance: row.balance,
        };
    }

    /// Takes out the account at position `i`.
    pub(crate) fn take_account(&mut self, i: usize) -> (row: Account)
        requires
            old(self).wf(),
            i < old(self)@.accounts.len(),
        ensures
            final(self).wf(),
            final(self)@ == old(self)@.without_account(i as int),
            row == old(self)@.accounts[i as int],
    {
        let row = self.accounts.remove(i);
        row
    }

    /// Appends a category under the next id.
    pub(crate) fn push_category(&mut self, row: Category) -> (id: i32)
        requires
            old(self).wf(),
            old(self)@.next_category_id < i32::MAX,
            !old(self)@.has_category_named(row.name@),
        ensures
            final(self).wf(),
            final(self)@ == old(self)@.with_category(row),
            id == old(self)@.next_category_id,
    {
        let id = self.next_category_id;
        self.categories.push(
            Category { id, group_id: row.group_id, name: row.name, order: row.order },
        );
        self.next_category_id = id + 1;
        id
    }

    /// Takes out the category at position `i`.
    pub(crate) fn take_category(&mut self, i: usize) -> (row: Category)
        requires
            old(self).wf(),
            i < old(self)@.categories.len(),
        ensures
            final(self).wf(),
            final(self)@ == old(self)@.without_category(i as int),
            row == old(self)@.categories[i as int],
    {
        let row = self.categories.remove(i);
        row
    }

    /// Appends a payee under the next id.
    pub(crate) fn push_payee(&mut self, row: Payee) -> (id: i32)
        requires
            old(self).wf(),
            old(self)@.next_payee_id < i32::MAX,
            !old(self)@.has_payee_named(row.name@),
        ensures
            final(self).wf(),
            final(self)@ == old(self)@.with_payee(row),
            id == old(self)@.next_payee_id,
    {
        let id = self.next_payee_id;
        self.payees.push(Payee { id, name: row.name });
        self.next_payee_id = id + 1;
        id
    }

    /// Takes out the payee at position `i`.
    pub(crate) fn take_payee(&mut self, i: usize) -> (row: Payee)
        requires
            old(self).wf(),
            i < old(self)@.payees.len(),
        ensures
            final(self).wf(),
            final(self)@ == old(self)@.without_payee(i as int),
            row == old(self)@.payees[i as int],
    {
        let row = self.payees.remove(i);
        row
    }

    /// Appends a transaction under the next id.
    pub(crate) fn push_tx(&mut self, row: Tx) -> (id: i32)
        requires
            old(self).wf(),
            old(self)@.next_tx_id < i32::MAX,
            old(self)@.has_account(row.account_id as int),
            row.timestamp.wf(),
        ensures
            final(self).wf(),
            final(self)@ == old(self)@.with_tx(row),
            id == old(self)@.next_tx_id,
    {
        let id = self.next_tx_id;
        self.txs.push(
            Tx {
                id,
                timestamp: row.timestamp,
                month: row.month,
                year: row.year,
                account_id: row.account_id,
                payee_id: row.payee_id,
                transfer_account_id: row.transfer_account_id,
                category_id: row.category_id,
                memo: row.memo,
                amount: row.amount,
                cleared: row.cleared,
            },
        );
        self.next_tx_id = id + 1;
        id
    }

    /// Takes out the transaction at position `i`.
    pub(crate) fn take_tx(&mut self, i: usize) -> (row: Tx)
        requires
            old(self).wf(),
            i < old(self)@.txs.len(),
        ensures
            final(self).wf(),
            final(self)@ == old(self)@.without_tx(i as int),
            row == old(self)@.txs[i as int],
    {
        let row = self.txs.remove(i);
        row
    }

    /// Appends an allocation row under the next id.
    pub(crate) fn push_budget(&mut self, row: NewBudget) -> (id: i32)
        requires
            old(self).wf(),
            old(self)@.next_budget_id < i32::MAX,
            !old(self)@.has_budget(row.category_id as int, row.month as int, row.year as int),
            row.available == row.assigned + row.activity,
        ensures
            final(self).wf(),
            final(self)@ == old(self)@.with_budget(row),
            id == old(self)@.next_budget_id,
    {
        let id = self.next_budget_id;
        self.budgets.push(
            Budget {
                id,
                month: row.month,
                year: row.year,
                category_id: row.category_id,
                assigned: row.assigned,
                activity: row.activity,
                available: row.available,
            },
        );
        self.next_budget_id = id + 1;
        id
    }

    /// Replaces the three amounts of the allocation at position `i`.
    pub(crate) fn set_amounts(&mut self, i: usize, assigned: i32, activity: i32, available: i32)
        requires
            old(self).wf(),
            i < old(self)@.budgets.len(),
            available == assigned + activity,
        ensures
            final(self).wf(),
            final(self)@ == old(self)@.with_amounts(i as int, assigned, activity, available),
    {
        let row = self.budgets[i];
        self.budgets[i] = Budget { assigned, activity, available, ..row };
    }

    /// Takes back the allocation row that was appended last, and its id.
    pub(crate) fn drop_newest_budget(&mut self)
        requires
            old(self).wf(),
            old(self)@.budgets.len() > 0,
            old(self)@.budgets.last().id == old(self)@.next_budget_id - 1,
        ensures
            final(self).wf(),
            final(self)@ == old(self)@.without_newest_budget(),
    {
        let gone = self.budgets.pop();
        self.next_budget_id = self.next_budget_id - 1;
    }

    /// Whether an allocation row has this id.
    pub fn has_budget_id(&self, id: i32) -> (found: bool)
        ensures
            found == self@.has_budget_id(id as int),
    {
        let mut i: usize = 0;
        while i < self.budgets.len()
            invariant
                i <= self.budgets.len(),
                forall|j: int| 0 <= j < i ==> (#[trigger] self.budgets@[j]).id != id,
            decreases self.budgets.len() - i,
        {
            if self.budgets[i].id == id {
                assert(self@.budgets[i as int].id == id);
                return true;
            }
            i += 1;
        }
        false
    }

    /// Appends an account under its own id.
    pub(crate) fn keep_account(&mut self, row: Account)
        requires
            old(self).wf(),
            1 <= row.id < i32::MAX,
            !old(self)@.has_account(row.id as int),
            !old(self)@.has_account_named(row.name@),
        ensures
            final(self).wf(),
            final(self)@ == old(self)@.with_stored_account(row),
    {
        if row.id >= self.next_account_id {
            self.next_account_id = row.id + 1;
        }
        self.accounts.push(row);
    }

    /// Appends a category under its own id.
    pub(crate) fn keep_category(&mut self, row: Category)
        requires
            old(self).wf(),
            1 <= row.id < i32::MAX,
            !old(self)@.has_category(row.id as int),
            !old(self)@.has_category_named(row.name@),
        ensures
            final(self).wf(),
            final(self)@ == old(self)@.with_stored_category(row),
    {
        if row.id >= self.next_category_id {
            self.next_category_id = row.id + 1;
        }
        self.categories.push(row);
    }

    /// Appends a payee under its own id.
    pub(crate) fn keep_payee(&mut self, row: Payee)
        requires
            old(self).wf(),
            1 <= row.id < i32::MAX,
            !old(self)@.has_payee(row.id as int),
            !old(self)@.has_payee_named(row.name@),
        ensures
            final(self).wf(),
            final(self)@ == old(self)@.with_stored_payee(row),
    {
        if row.id >= self.next_payee_id {
            self.next_payee_id = row.id + 1;
        }
        self.payees.push(row);
    }

    /// Appends a transaction under its own id.
    pub(crate) fn keep_tx(&mut self, row: Tx)
        requires
            old(self).wf(),
            1 <= row.id < i32::MAX,
            !old(self)@.has_tx(row.id as int),
            old(self)@.has_account(row.account_id as int),
            row.timestamp.wf(),
        ensures
            final(self).wf(),
            final(self)@ == old(self)@.with_stored_tx(row),
    {
        if row.id >= self.next_tx_id {
            self.next_tx_id = row.id + 1;
        }
        self.txs.push(row);
    }

    /// Appends an allocation row under its own id.
    pub(crate) fn keep_budget(&mut self, row: Budget)
        requires
            old(self).wf(),
            1 <= row.id < i32::MAX,
            !old(self)@.has_budget_id(row.id as int),
            !old(self)@.has_budget(row.category_id as int, row.month as int, row.year as int),
            row.available == row.assigned + row.activity,
        ensures
            final(self).wf(),
            final(self)@ == old(self)@.with_stored_budget(row),
    {
        if row.id >= self.next_budget_id {
            self.next_budget_id = row.id + 1;
        }
        self.budgets.push(row);
    }
}

} // verus!
