use vstd::prelude::*;
use crate::api::transaction::txs_of;
use crate::budget::POOL_CATEGORY_ID;
use crate::clock::date_text;
use crate::ledger::{Ledger, LedgerView};
use crate::models::{
    assigned_text, inflow_text, outflow_text, Account, AccountView, BudgetCategoryView,
    BudgetCategoryViewQueryable, Category, Payee, Tx, TxView,
};
use crate::shared_string::{self, dollars_text, SharedString};

verus! {

/// What the presentation layer shows of one month's budget: the pool's row
/// as the inflow figure, and the rows of the envelopes.
#[derive(Clone, Debug, PartialEq, Eq)]
pub struct BudgetSnapshot {
    pub inflow: Option<BudgetCategoryView>,
    pub categories: Vec<BudgetCategoryView>,
}

impl LedgerView {
    /// The name of the account with this id; empty where there is none.
    pub open spec fn account_name(self, id: int) -> Seq<char> {
        if self.has_account(id) {
            self.accounts[self.account_pos(id)].name@
        } else {
            Seq::<char>::empty()
        }
    }

    /// The name of the category with this id; empty where there is none.
    pub open spec fn category_name(self, id: Option<i32>) -> Seq<char> {
        match id {
            Some(c) => if self.has_category(c as int) {
                self.categories[self.category_pos(c as int)].name@
            } else {
                Seq::<char>::empty()
            },
            None => Seq::<char>::empty(),
        }
    }

    /// The name of the payee with this id; empty where there is none.
    pub open spec fn payee_name(self, id: Option<i32>) -> Seq<char> {
        match id {
            Some(p) => if self.has_payee(p as int) {
                self.payees[self.payee_pos(p as int)].name@
            } else {
                Seq::<char>::empty()
            },
            None => Seq::<char>::empty(),
        }
    }

    /// Whether `view` shows the transaction `tx` with the names of the rows
    /// that it names.
    pub open spec fn shows_tx(self, view: TxView, tx: Tx) -> bool {
        &&& view.id == tx.id
        &&& view.account@ == self.account_name(tx.account_id as int)
        &&& view.category@ == self.category_name(tx.category_id)
        &&& view.payee@ == self.payee_name(tx.payee_id)
        &&& view.memo@ == tx.memo@
        &&& view.timestamp@ == date_text(
            tx.timestamp.year as int,
            tx.timestamp.month as int,
            tx.timestamp.day as int,
        )
        &&& view.inflow@ == inflow_text(tx.amount as int)
        &&& view.outflow@ == outflow_text(tx.amount as int)
        &&& view.cleared == tx.cleared
    }

    /// Whether `row` is the category joined with its allocation of the
    /// month.
    pub open spec fn joins(
        self,
        row: BudgetCategoryViewQueryable,
        category: Category,
        month: i32,
        year: i32,
    ) -> bool {
        &&& row.id == category.id
        &&& row.name@ == category.name@
        &&& if self.has_budget(category.id as int, month as int, year as int) {
            let found = self.budgets[self.budget_pos(
                category.id as int,
                month as int,
                year as int,
            )];
            &&& row.assigned == Some(found.assigned)
            &&& row.activity == Some(found.activity)
            &&& row.available == Some(found.available)
        } else {
            row.assigned is None && row.activity is None && row.available is None
        }
    }
}

/// Whether `view` shows the account.
pub open spec fn shows_account(view: AccountView, account: Account) -> bool {
    view.id == account.id && view.name@ == account.name@ && view.balance == account.balance
}

/// Whether `view` shows the joined row: a missing amount counts as zero,
/// and nothing assigned shows as empty text.
pub open spec fn shows_row(view: BudgetCategoryView, row: BudgetCategoryViewQueryable) -> bool {
    &&& view.id == row.id
    &&& view.name@ == row.name@
    &&& view.assigned@ == assigned_text(
        match row.assigned {
            Some(v) => v as int,
            None => 0,
        },
    )
    &&& view.activity@ == dollars_text(
        match row.activity {
            Some(v) => v as int,
            None => 0,
        },
    )
    &&& view.available@ == dollars_text(
        match row.available {
            Some(v) => v as int,
            None => 0,
        },
    )
}

/// The joined rows of the envelopes: all but the pool's, in their order.
pub open spec fn envelopes(rows: Seq<BudgetCategoryViewQueryable>) -> Seq<
    BudgetCategoryViewQueryable,
>
    decreases rows.len(),
{
    if rows.len() == 0 {
        Seq::empty()
    } else if rows.last().id == POOL_CATEGORY_ID {
        envelopes(rows.drop_last())
    } else {
        envelopes(rows.drop_last()).push(rows.last())
    }
}

/// The first joined row of the pool, where there is one.
pub open spec fn pool_row(rows: Seq<BudgetCategoryViewQueryable>) -> Option<
    BudgetCategoryViewQueryable,
>
    decreases rows.len(),
{
    if rows.len() == 0 {
        None
    } else {
        match pool_row(rows.drop_last()) {
            Some(row) => Some(row),
            None => if rows.last().id == POOL_CATEGORY_ID {
                Some(rows.last())
            } else {
                None
            },
        }
    }
}

/// Whether the category at position `a` is shown before the one at
/// position `b`: by the sort key, and by row order where the keys are
/// equal.
pub open spec fn shown_before(categories: Seq<Category>, a: int, b: int) -> bool {
    categories[a].order < categories[b].order || (categories[a].order == categories[b].order
        && a < b)
}

/// Whether `shown` lists the positions of the first `n` categories in the
/// order in which they are shown.
pub open spec fn is_display_order_of(categories: Seq<Category>, n: int, shown: Seq<usize>) -> bool {
    &&& shown.len() == n
    &&& forall|k: int| 0 <= k < shown.len() ==> (#[trigger] shown[k]) < n
    &&& forall|a: int, b: int|
        0 <= a < b < shown.len() ==> shown_before(
            categories,
            (#[trigger] shown[a]) as int,
            (#[trigger] shown[b]) as int,
        )
}

/// Whether `shown` lists the positions of all categories in the order in
/// which they are shown: every position once, by the sort key, and by row
/// order where the keys are equal.
pub open spec fn is_display_order(categories: Seq<Category>, shown: Seq<usize>) -> bool {
    is_display_order_of(categories, categories.len() as int, shown)
}

/// The positions of the categories in the order in which they are shown.
pub fn display_order(ledger: &Ledger) -> (shown: Vec<usize>)
    ensures
        is_display_order(ledger@.categories, shown@),
{
    let rows = ledger.categories();
    let mut shown: Vec<usize> = Vec::new();
    let mut i: usize = 0;
    while i < rows.len()
        invariant
            rows@ == ledger@.categories,
            i <= rows.len(),
            is_display_order_of(rows@, i as int, shown@),
        decreases rows.len() - i,
    {
        let key = rows[i].order;
        let mut j: usize = shown.len();
        while j > 0 && rows[shown[j - 1]].order > key
            invariant
                i < rows.len(),
                key == rows@[i as int].order,
                j <= shown.len(),
                is_display_order_of(rows@, i as int, shown@),
                forall|k: int| j <= k < shown.len() ==> rows@[shown@[k] as int].order > key,
            decreases j,
        {
            j -= 1;
        }
        shown.insert(j, i);
        i += 1;
    }
    shown
}

/// The views of all accounts, in row order.
pub fn account_views(ledger: &Ledger) -> (views: Vec<AccountView>)
    ensures
        views@.len() == ledger@.accounts.len(),
        forall|i: int|
            0 <= i < views@.len() ==> shows_account(#[trigger] views@[i], ledger@.accounts[i]),
{
    let rows = ledger.accounts();
    let mut views: Vec<AccountView> = Vec::new();
    let mut i: usize = 0;
    while i < rows.len()
        invariant
            i <= rows.len(),
            views@.len() == i,
            forall|k: int| 0 <= k < i ==> shows_account(#[trigger] views@[k], rows@[k]),
        decreases rows.len() - i,
    {
        views.push(rows[i].create_view());
        i += 1;
    }
    views
}

/// The names of all accounts, in row order.
pub fn account_names(ledger: &Ledger) -> (names: Vec<SharedString>)
    ensures
        names@.len() == ledger@.accounts.len(),
        forall|i: int|
            0 <= i < names@.len() ==> (#[trigger] names@[i])@ == ledger@.accounts[i].name@,
{
    let rows = ledger.accounts();
    let mut names: Vec<SharedString> = Vec::new();
    let mut i: usize = 0;
    while i < rows.len()
        invariant
            i <= rows.len(),
            names@.len() == i,
            forall|k: int| 0 <= k < i ==> (#[trigger] names@[k])@ == rows@[k].name@,
        decreases rows.len() - i,
    {
        names.push(shared_string::from(rows[i].name.as_str()));
        i += 1;
    }
    names
}

/// The names of all categories, in the order in which they are shown.
pub fn category_names(ledger: &Ledger) -> (names: Vec<SharedString>)
    ensures
        exists|shown: Seq<usize>|
            {
                &&& #[trigger] is_display_order(ledger@.categories, shown)
                &&& names@.len() == shown.len()
                &&& forall|i: int|
                    0 <= i < names@.len() ==> (#[trigger] names@[i])@
                        == ledger@.categories[shown[i] as int].name@
            },
{
    let rows = ledger.categories();
    let shown = display_order(ledger);
    let mut names: Vec<SharedString> = Vec::new();
    let mut i: usize = 0;
    while i < shown.len()
        invariant
            rows@ == ledger@.categories,
            is_display_order(rows@, shown@),
            i <= shown.len(),
            names@.len() == i,
            forall|k: int| 0 <= k < i ==> (#[trigger] names@[k])@ == rows@[shown@[k] as int].name@,
        decreases shown.len() - i,
    {
        names.push(shared_string::from(rows[shown[i]].name.as_str()));
        i += 1;
    }
    names
}

/// The view of one transaction, joined with the rows that it names.
pub fn transaction_view(ledger: &Ledger, tx: &Tx) -> (view: TxView)
    requires
        ledger.wf(),
        tx.timestamp.wf(),
    ensures
        ledger@.shows_tx(view, *tx),
{
    let account: Option<Account> = match ledger.account_index(tx.account_id) {
        Some(i) => Some(ledger.accounts()[i].duplicate()),
        None => None,
    };
    let category: Option<Category> = match tx.category_id {
        Some(c) => match ledger.category_index(c) {
            Some(i) => Some(ledger.categories()[i].duplicate()),
            None => None,
        },
        None => None,
    };
    let payee: Option<Payee> = match tx.payee_id {
        Some(p) => match ledger.payee_index(p) {
            Some(i) => Some(ledger.payees()[i].duplicate()),
            None => None,
        },
        None => None,
    };
    tx.create_view(account, category, payee)
}

/// The views of the transactions of one account in row order, or of all
/// transactions where no account is given.
pub fn transaction_views(ledger: &Ledger, account_id: Option<i32>) -> (views: Vec<TxView>)
    requires
        ledger.wf(),
    ensures
        views@.len() == txs_of(ledger@.txs, account_id).len(),
        forall|i: int|
            0 <= i < views@.len() ==> ledger@.shows_tx(
                #[trigger] views@[i],
                txs_of(ledger@.txs, account_id)[i],
            ),
{
    let rows = ledger.txs();
    let mut views: Vec<TxView> = Vec::new();
    let mut i: usize = 0;
    while i < rows.len()
        invariant
            ledger.wf(),
            rows@ == ledger@.txs,
            i <= rows.len(),
            views@.len() == txs_of(rows@.take(i as int), account_id).len(),
            forall|k: int|
                0 <= k < views@.len() ==> ledger@.shows_tx(
                    #[trigger] views@[k],
                    txs_of(rows@.take(i as int), account_id)[k],
                ),
        decreases rows.len() - i,
    {
        let wanted = match account_id {
            Some(id) => rows[i].account_id == id,
            None => true,
        };
        assert(rows@.take(i + 1).drop_last() == rows@.take(i as int));
        if wanted {
            views.push(transaction_view(ledger, &rows[i]));
        }
        i += 1;
    }
    assert(rows@.take(rows@.len() as int) == rows@);
    views
}

/// Every category joined with its allocation of the month, in the order in
/// which the categories are shown.
pub fn budget_rows(ledger: &Ledger, month: i32, year: i32) -> (rows: Vec<
    BudgetCategoryViewQueryable,
>)
    requires
        ledger.wf(),
    ensures
        exists|shown: Seq<usize>|
            {
                &&& #[trigger] is_display_order(ledger@.categories, shown)
                &&& rows@.len() == shown.len()
                &&& forall|i: int|
                    0 <= i < rows@.len() ==> ledger@.joins(
                        #[trigger] rows@[i],
                        ledger@.categories[shown[i] as int],
                        month,
                        year,
                    )
            },
{
    let categories = ledger.categories();
    let shown = display_order(ledger);
    let mut rows: Vec<BudgetCategoryViewQueryable> = Vec::new();
    let mut i: usize = 0;
    while i < shown.len()
        invariant
            ledger.wf(),
            categories@ == ledger@.categories,
            is_display_order(categories@, shown@),
            i <= shown.len(),
            rows@.len() == i,
            forall|k: int|
                0 <= k < i ==> ledger@.joins(
                    #[trigger] rows@[k],
                    categories@[shown@[k] as int],
                    month,
                    year,
                ),
        decreases shown.len() - i,
    {
        let category = categories[shown[i]].duplicate();
        let row = match ledger.budget_index(category.id, month, year) {
            Some(at) => {
                let found = ledger.budgets()[at];
                BudgetCategoryViewQueryable {
                    id: category.id,
                    name: category.name,
                    assigned: Some(found.assigned),
                    activity: Some(found.activity),
                    available: Some(found.available),
                }
            },
            None => BudgetCategoryViewQueryable {
                id: category.id,
                name: category.name,
                assigned: None,
                activity: None,
                available: None,
            },
        };
        rows.push(row);
        i += 1;
    }
    rows
}

/// The views of the joined rows: the pool's row as the inflow figure, the
/// others as the envelopes in their order.
pub fn budget_snapshot(rows: &Vec<BudgetCategoryViewQueryable>) -> (shown: BudgetSnapshot)
    ensures
        shown.categories@.len() == envelopes(rows@).len(),
        forall|i: int|
            0 <= i < shown.categories@.len() ==> shows_row(
                #[trigger] shown.categories@[i],
                envelopes(rows@)[i],
            ),
        match shown.inflow {
            Some(view) => pool_row(rows@) matches Some(row) && shows_row(view, row),
            None => pool_row(rows@) is None,
        },
{
    let mut inflow: Option<BudgetCategoryView> = None;
    let mut categories: Vec<BudgetCategoryView> = Vec::new();
    let mut i: usize = 0;
    while i < rows.len()
        invariant
            i <= rows.len(),
            categories@.len() == envelopes(rows@.take(i as int)).len(),
            forall|k: int|
                0 <= k < categories@.len() ==> shows_row(
                    #[trigger] categories@[k],
                    envelopes(rows@.take(i as int))[k],
                ),
            match inflow {
                Some(view) => pool_row(rows@.take(i as int)) matches Some(row) && shows_row(
                    view,
                    row,
                ),
                None => pool_row(rows@.take(i as int)) is None,
            },
        decreases rows.len() - i,
    {
        assert(rows@.take(i + 1).drop_last() == rows@.take(i as int));
        let view = rows[i].duplicate().into_view();
        if rows[i].id == POOL_CATEGORY_ID {
            if inflow.is_none() {
                inflow = Some(view);
            }
        } else {
            categories.push(view);
        }
        i += 1;
    }
    assert(rows@.take(rows@.len() as int) == rows@);
    BudgetSnapshot { inflow, categories }
}

} // verus!
