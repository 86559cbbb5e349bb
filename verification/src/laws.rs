use vstd::prelude::*;
use crate::budget::{lemma_row_at, AllocationCall};
use crate::ledger::{row_is_for, same_envelope, LedgerView};
use crate::models::{NewBudget, Tx};
use crate::models::Category;
use crate::poster::{lemma_account_at, lemma_post_keeps_balance, tx_total};
use crate::snapshot::{is_display_order, shown_before};
use vstd::set_lib::{lemma_int_range, lemma_subset_equality, set_int_range};

verus! {

/// A new allocation row keeps the ledger well formed.
pub proof fn lemma_with_budget_wf(s: LedgerView, row: NewBudget)
    requires
        s.wf(),
        s.next_budget_id < i32::MAX,
        !s.has_budget(row.category_id as int, row.month as int, row.year as int),
        row.available == row.assigned + row.activity,
    ensures
        s.with_budget(row).wf(),
        s.with_budget(row).has_budget(row.category_id as int, row.month as int, row.year as int),
        s.with_budget(row).budget_row(row.category_id as int, row.month as int, row.year as int)
            == s.with_budget(row).budgets.last(),
{
    let after = s.with_budget(row);
    lemma_row_at(
        after,
        s.budgets.len() as int,
        row.category_id as int,
        row.month as int,
        row.year as int,
    );
}

/// An activity posting that the store can take keeps the ledger well
/// formed.
pub proof fn lemma_post_activity_wf(s: LedgerView, category_id: i32, month: i32, year: i32, amount: i32)
    requires
        s.wf(),
        s.can_post_activity(category_id, month, year, amount),
    ensures
        s.post_activity(category_id, month, year, amount).wf(),
        s.post_activity(category_id, month, year, amount).has_budget(
            category_id as int,
            month as int,
            year as int,
        ),
{
    if s.has_budget(category_id as int, month as int, year as int) {
        let i = s.budget_pos(category_id as int, month as int, year as int);
        let after = s.post_activity(category_id, month, year, amount);
        assert(row_is_for(after.budgets[i], category_id as int, month as int, year as int));
    } else {
        lemma_with_budget_wf(
            s,
            NewBudget { month, year, category_id, assigned: 0, activity: amount, available: amount },
        );
    }
}

/// An assignment that the store can take keeps the ledger well formed.
pub proof fn lemma_assign_wf(s: LedgerView, category_id: i32, month: i32, year: i32, amount: i32)
    requires
        s.wf(),
        s.can_assign(category_id, month, year, amount),
    ensures
        s.assign(category_id, month, year, amount).wf(),
        s.assign(category_id, month, year, amount).has_budget(
            category_id as int,
            month as int,
            year as int,
        ),
{
    if s.has_budget(category_id as int, month as int, year as int) {
        let i = s.budget_pos(category_id as int, month as int, year as int);
        let after = s.assign(category_id, month, year, amount);
        assert(row_is_for(after.budgets[i], category_id as int, month as int, year as int));
    } else {
        lemma_with_budget_wf(
            s,
            NewBudget { month, year, category_id, assigned: amount, activity: 0, available: amount },
        );
    }
}

/// The ledger after a sequence of allocation calls, of which those that
/// are refused change nothing.
pub open spec fn after_allocations(s: LedgerView, calls: Seq<AllocationCall>) -> LedgerView
    decreases calls.len(),
{
    if calls.len() == 0 {
        s
    } else {
        let before = after_allocations(s, calls.drop_last());
        let call = calls.last();
        if before.allocation_refusal(
            call.category_id,
            call.month,
            call.year,
            call.amount,
            call.source_category_id,
        ) is None {
            before.allocate(
                call.category_id,
                call.month,
                call.year,
                call.amount,
                call.source_category_id,
            )
        } else {
            before
        }
    }
}

/// After any sequence of allocation calls on a well-formed ledger, in every
/// allocation row what is available is what is assigned plus the activity.
pub proof fn law_allocations_stay_in_balance(s: LedgerView, calls: Seq<AllocationCall>)
    requires
        s.wf(),
    ensures
        after_allocations(s, calls).wf(),
        forall|i: int|
            0 <= i < after_allocations(s, calls).budgets.len() ==> (
            #[trigger] after_allocations(s, calls).budgets[i]).available == after_allocations(
                s,
                calls,
            ).budgets[i].assigned + after_allocations(s, calls).budgets[i].activity,
    decreases calls.len(),
{
    if calls.len() > 0 {
        law_allocations_stay_in_balance(s, calls.drop_last());
    }
}

/// The amounts of a category's month after an activity posting on a
/// category's month: the posting's own row moves by the amount, every other
/// row stays.
pub proof fn lemma_post_activity_amounts(
    s: LedgerView,
    category_id: i32,
    month: i32,
    year: i32,
    amount: i32,
    other: int,
)
    requires
        s.wf(),
        s.can_post_activity(category_id, month, year, amount),
    ensures
        ({
            let after = s.post_activity(category_id, month, year, amount);
            let moved: int = if other == category_id {
                amount as int
            } else {
                0
            };
            &&& after.assigned_to(other, month as int, year as int) == s.assigned_to(
                other,
                month as int,
                year as int,
            )
            &&& after.activity_of(other, month as int, year as int) == s.activity_of(
                other,
                month as int,
                year as int,
            ) + moved
            &&& after.available_to(other, month as int, year as int) == s.available_to(
                other,
                month as int,
                year as int,
            ) + moved
        }),
{
    let after = s.post_activity(category_id, month, year, amount);
    lemma_post_activity_wf(s, category_id, month, year, amount);
    lemma_row_kept(s, after, other, month as int, year as int, category_id as int);
}

/// The amounts of a category's month after an assignment on a category's
/// month: the assignment's own row takes the amount and what is available
/// moves by the change, every other row stays.
pub proof fn lemma_assign_amounts(
    s: LedgerView,
    category_id: i32,
    month: i32,
    year: i32,
    amount: i32,
    other: int,
)
    requires
        s.wf(),
        s.can_assign(category_id, month, year, amount),
    ensures
        ({
            let after = s.assign(category_id, month, year, amount);
            let moved: int = if other == category_id {
                amount - s.assigned_to(other, month as int, year as int)
            } else {
                0
            };
            &&& after.assigned_to(other, month as int, year as int) == s.assigned_to(
                other,
                month as int,
                year as int,
            ) + moved
            &&& after.activity_of(other, month as int, year as int) == s.activity_of(
                other,
                month as int,
                year as int,
            )
            &&& after.available_to(other, month as int, year as int) == s.available_to(
                other,
                month as int,
                year as int,
            ) + moved
        }),
{
    let after = s.assign(category_id, month, year, amount);
    lemma_assign_wf(s, category_id, month, year, amount);
    lemma_row_kept(s, after, other, month as int, year as int, category_id as int);
}

/// Where a change leaves every row of other categories where it was, and
/// adds none for them, the row of such a category's month is the same
/// before and after.
pub proof fn lemma_row_kept(
    s: LedgerView,
    after: LedgerView,
    other: int,
    month: int,
    year: int,
    changed: int,
)
    requires
        s.wf(),
        after.wf(),
        after.budgets.len() >= s.budgets.len(),
        forall|j: int|
            0 <= j < s.budgets.len() ==> same_envelope(
                #[trigger] after.budgets[j],
                s.budgets[j],
            ),
        forall|j: int|
            0 <= j < s.budgets.len() && s.budgets[j].category_id != changed
                ==> #[trigger] after.budgets[j] == s.budgets[j],
        forall|j: int|
            s.budgets.len() <= j < after.budgets.len() ==> (
            #[trigger] after.budgets[j]).category_id == changed,
    ensures
        other != changed ==> after.has_budget(other, month, year) == s.has_budget(
            other,
            month,
            year,
        ),
        other != changed && s.has_budget(other, month, year) ==> after.budget_row(
            other,
            month,
            year,
        ) == s.budget_row(other, month, year),
{
    if other != changed {
        if s.has_budget(other, month, year) {
            let i = s.budget_pos(other, month, year);
            lemma_row_at(after, i, other, month, year);
        }
    }
}

/// A reassignment conserves what it moves: what the target is assigned
/// more, the source has less activity; and what is available to the target
/// moves opposite to what is available to the source. A month without a row
/// counts as zero.
pub proof fn law_reassignment_conserves(
    s: LedgerView,
    category_id: i32,
    month: i32,
    year: i32,
    amount: i32,
    source: i32,
)
    requires
        s.wf(),
        s.allocation_refusal(category_id, month, year, amount, Some(source)) is None,
        source != category_id,
    ensures
        ({
            let after = s.allocate(category_id, month, year, amount, Some(source));
            let m = month as int;
            let y = year as int;
            &&& after.assigned_to(category_id as int, m, y) - s.assigned_to(category_id as int, m, y)
                == -(after.activity_of(source as int, m, y) - s.activity_of(source as int, m, y))
            &&& after.available_to(category_id as int, m, y) - s.available_to(
                category_id as int,
                m,
                y,
            ) == -(after.available_to(source as int, m, y) - s.available_to(source as int, m, y))
            &&& after.assigned_to(category_id as int, m, y) == amount
            &&& after.activity_of(category_id as int, m, y) == s.activity_of(
                category_id as int,
                m,
                y,
            )
            &&& after.assigned_to(source as int, m, y) == s.assigned_to(source as int, m, y)
        }),
{
    let mid = s.assign(category_id, month, year, amount);
    let released = s.released(category_id, month, year, amount) as i32;
    lemma_assign_wf(s, category_id, month, year, amount);
    lemma_assign_amounts(s, category_id, month, year, amount, source as int);
    lemma_post_activity_amounts(mid, source, month, year, released, category_id as int);
    lemma_post_activity_amounts(mid, source, month, year, released, source as int);
}

/// A reassignment that takes from the category that it assigns to leaves
/// what is available to it as it was: the change of what is assigned comes
/// back as activity.
pub proof fn law_reassignment_from_itself(
    s: LedgerView,
    category_id: i32,
    month: i32,
    year: i32,
    amount: i32,
)
    requires
        s.wf(),
        s.allocation_refusal(category_id, month, year, amount, Some(category_id)) is None,
    ensures
        ({
            let after = s.allocate(category_id, month, year, amount, Some(category_id));
            let m = month as int;
            let y = year as int;
            &&& after.assigned_to(category_id as int, m, y) - s.assigned_to(category_id as int, m, y)
                == -(after.activity_of(category_id as int, m, y) - s.activity_of(
                category_id as int,
                m,
                y,
            ))
            &&& after.available_to(category_id as int, m, y) == s.available_to(
                category_id as int,
                m,
                y,
            )
        }),
{
    let mid = s.assign(category_id, month, year, amount);
    let released = s.released(category_id, month, year, amount) as i32;
    lemma_assign_wf(s, category_id, month, year, amount);
    lemma_post_activity_amounts(mid, category_id, month, year, released, category_id as int);
}

/// Every reassignment is zero-sum between target and source: what the
/// target is assigned more, the source has less activity, and what is
/// available to the target moves opposite to what is available to the
/// source. A month without a row counts as zero.
pub proof fn law_reassignment_is_zero_sum(
    s: LedgerView,
    category_id: i32,
    month: i32,
    year: i32,
    amount: i32,
    source: i32,
)
    requires
        s.wf(),
        s.allocation_refusal(category_id, month, year, amount, Some(source)) is None,
    ensures
        ({
            let after = s.allocate(category_id, month, year, amount, Some(source));
            let m = month as int;
            let y = year as int;
            &&& after.assigned_to(category_id as int, m, y) - s.assigned_to(category_id as int, m, y)
                == -(after.activity_of(source as int, m, y) - s.activity_of(source as int, m, y))
            &&& after.available_to(category_id as int, m, y) - s.available_to(
                category_id as int,
                m,
                y,
            ) == -(after.available_to(source as int, m, y) - s.available_to(source as int, m, y))
        }),
{
    if source == category_id {
        law_reassignment_from_itself(s, category_id, month, year, amount);
    } else {
        law_reassignment_conserves(s, category_id, month, year, amount, source);
    }
}

/// A posting that is not refused keeps the ledger well formed and stores
/// one more transaction.
pub proof fn lemma_post_wf(s: LedgerView, row: Tx)
    requires
        s.wf(),
        s.posting_refusal(row) is None,
    ensures
        s.post(row).wf(),
        s.post(row).txs == s.txs.push(Tx { id: s.next_tx_id as i32, ..row }),
        s.post(row).has_account(row.account_id as int),
        s.post(row).account_row(row.account_id as int).balance == s.account_row(
            row.account_id as int,
        ).balance + row.amount,
        s.post(row).next_tx_id == s.next_tx_id + 1,
{
    let at = s.account_pos(row.account_id as int);
    let after = s.post(row);
    lemma_account_at(after, at);
}

/// The empty ledger is well formed, and its balances, of which there are
/// none, are the sums of their accounts' transactions.
pub proof fn law_empty_ledger_is_balanced()
    ensures
        LedgerView::empty().wf(),
        LedgerView::empty().balanced(),
{
}

/// The ledger after a sequence of postings, of which those that are refused
/// change nothing.
pub open spec fn after_postings(s: LedgerView, rows: Seq<Tx>) -> LedgerView
    decreases rows.len(),
{
    if rows.len() == 0 {
        s
    } else {
        let before = after_postings(s, rows.drop_last());
        if before.posting_refusal(rows.last()) is None {
            before.post(rows.last())
        } else {
            before
        }
    }
}

/// After any sequence of postings on a well-formed ledger whose balances
/// are the sums of their accounts' transactions, every balance is the sum
/// of its account's transactions.
pub proof fn law_balance_is_sum_of_transactions(s: LedgerView, rows: Seq<Tx>)
    requires
        s.wf(),
        s.balanced(),
    ensures
        after_postings(s, rows).wf(),
        after_postings(s, rows).balanced(),
        forall|i: int|
            0 <= i < after_postings(s, rows).accounts.len() ==> (#[trigger] after_postings(
                s,
                rows,
            ).accounts[i]).balance == tx_total(
                after_postings(s, rows).txs,
                after_postings(s, rows).accounts[i].id as int,
            ),
    decreases rows.len(),
{
    if rows.len() > 0 {
        law_balance_is_sum_of_transactions(s, rows.drop_last());
        let before = after_postings(s, rows.drop_last());
        if before.posting_refusal(rows.last()) is None {
            lemma_post_keeps_balance(before, rows.last());
        }
    }
}

/// Posting is not idempotent: the same transaction posted twice is stored
/// twice, under two ids, and moves the balance by twice its amount.
pub proof fn law_posting_twice_counts_twice(s: LedgerView, row: Tx)
    requires
        s.wf(),
        s.posting_refusal(row) is None,
        s.post(row).posting_refusal(row) is None,
    ensures
        ({
            let twice = s.post(row).post(row);
            &&& twice.txs.len() == s.txs.len() + 2
            &&& twice.txs[s.txs.len() as int] == (Tx { id: s.next_tx_id as i32, ..row })
            &&& twice.txs[s.txs.len() as int + 1] == (Tx { id: (s.next_tx_id + 1) as i32, ..row })
            &&& twice.account_row(row.account_id as int).balance == s.account_row(
                row.account_id as int,
            ).balance + 2 * row.amount
        }),
{
    lemma_post_wf(s.post(row), row);
}

/// A display order lists every position of the categories.
pub proof fn lemma_display_order_covers(categories: Seq<Category>, shown: Seq<usize>, at: int)
    requires
        is_display_order(categories, shown),
        0 <= at < categories.len(),
    ensures
        exists|k: int| 0 <= k < shown.len() && #[trigger] shown[k] == at,
{
    let n = categories.len() as int;
    let places = Seq::new(shown.len(), |k: int| shown[k] as int);
    places.unique_seq_to_set();
    lemma_int_range(0, n);
    lemma_subset_equality(places.to_set(), set_int_range(0, n));
    assert(set_int_range(0, n).contains(at));
}

/// Two display orders of the same categories agree on their first `upto`
/// places.
pub proof fn lemma_display_orders_agree(
    categories: Seq<Category>,
    one: Seq<usize>,
    other: Seq<usize>,
    upto: int,
)
    requires
        is_display_order(categories, one),
        is_display_order(categories, other),
        0 <= upto <= categories.len(),
    ensures
        forall|k: int| 0 <= k < upto ==> one[k] == other[k],
    decreases upto,
{
    if upto > 0 {
        lemma_display_orders_agree(categories, one, other, upto - 1);
        let k = upto - 1;
        let a = one[k] as int;
        let b = other[k] as int;
        if a != b {
            // The one that is shown first of the two stands further back in
            // the order that does not have it at this place.
            if shown_before(categories, a, b) {
                lemma_display_order_covers(categories, other, a);
            } else {
                lemma_display_order_covers(categories, one, b);
            }
        }
    }
}

/// The categories have one display order only.
pub proof fn law_display_order_is_unique(
    categories: Seq<Category>,
    one: Seq<usize>,
    other: Seq<usize>,
)
    requires
        is_display_order(categories, one),
        is_display_order(categories, other),
    ensures
        one == other,
{
    lemma_display_orders_agree(categories, one, other, categories.len() as int);
}

} // verus!
