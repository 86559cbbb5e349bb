use envelope_ledger::clock::Timestamp;
use envelope_ledger::error::Error;
use envelope_ledger::ledger::Ledger;
use envelope_ledger::models::{Account, Budget, NewAccount, NewCategory, NewPayee, Tx};

fn noon(year: i32, month: u32, day: u32) -> Timestamp {
    Timestamp::new(year, month, day, 12, 0, 0).unwrap()
}

fn small_ledger() -> Ledger {
    let mut ledger = Ledger::new();
    ledger.insert_category(NewCategory { group_id: 0, name: "Inflow" }).unwrap();
    ledger.insert_category(NewCategory { group_id: 0, name: "Groceries" }).unwrap();
    ledger.insert_account(NewAccount { name: "Checking", is_tracking_account: false, balance: 0 }).unwrap();
    ledger
}

fn total_of(ledger: &Ledger, account_id: i32) -> i64 {
    ledger.txs().iter().filter(|t| t.account_id == account_id).map(|t| t.amount as i64).sum()
}

#[test]
fn posting_moves_activity_and_balance() {
    let mut ledger = small_ledger();
    let now = noon(2024, 6, 15);
    let done = ledger
        .post_by_name("Checking", "Store".to_string(), "Groceries", String::new(), -2000, now)
        .unwrap();

    assert_eq!(
        done.allocation,
        Some(Budget { id: 1, month: 5, year: 2024, category_id: 2, assigned: 0, activity: -2000, available: -2000 })
    );
    assert_eq!(ledger.budgets().len(), 1);
    assert_eq!(ledger.budgets()[0], done.allocation.unwrap());
    assert_eq!(ledger.accounts()[0].balance, -2000);
    assert_eq!(done.account, ledger.accounts()[0]);
    assert_eq!(
        done.transaction,
        Tx {
            id: 1,
            timestamp: now,
            month: 5,
            year: 2024,
            account_id: 1,
            payee_id: Some(1),
            transfer_account_id: None,
            category_id: Some(2),
            memo: String::new(),
            amount: -2000,
            cleared: false,
        }
    );
    assert_eq!(ledger.txs(), &vec![done.transaction.clone()]);
}

#[test]
fn posting_twice_counts_twice() {
    let mut ledger = small_ledger();
    let now = noon(2024, 6, 15);
    let first = ledger
        .post_by_name("Checking", "Store".to_string(), "Groceries", "milk".to_string(), -350, now)
        .unwrap();
    let second = ledger
        .post_by_name("Checking", "Store".to_string(), "Groceries", "milk".to_string(), -350, now)
        .unwrap();
    assert_eq!(ledger.txs().len(), 2);
    assert_eq!(first.transaction.id, 1);
    assert_eq!(second.transaction.id, 2);
    assert_eq!(Tx { id: 1, ..second.transaction.clone() }, first.transaction);
    assert_eq!(ledger.accounts()[0].balance, 2 * -350);
    assert_eq!(ledger.budgets()[0].activity, 2 * -350);
    assert_eq!(ledger.payees().len(), 1);
}

#[test]
fn posting_makes_an_unknown_payee_once() {
    let mut ledger = small_ledger();
    ledger.insert_payee(NewPayee { name: "Landlord" }).unwrap();
    let now = noon(2024, 1, 31);
    let a = ledger
        .post_by_name("Checking", "Store".to_string(), "Groceries", String::new(), -1, now)
        .unwrap();
    let b = ledger
        .post_by_name("Checking", "Landlord".to_string(), "Groceries", String::new(), -2, now)
        .unwrap();
    let c = ledger
        .post_by_name("Checking", "Store".to_string(), "Groceries", String::new(), -3, now)
        .unwrap();
    assert_eq!(a.transaction.payee_id, Some(2));
    assert_eq!(b.transaction.payee_id, Some(1));
    assert_eq!(c.transaction.payee_id, Some(2));
    assert_eq!(ledger.payees().len(), 2);
    assert_eq!(ledger.payees()[1].name, "Store");
}

#[test]
fn posting_by_name_needs_account_and_category() {
    let mut ledger = small_ledger();
    let now = noon(2024, 6, 15);
    assert_eq!(
        ledger.post_by_name("Savings", "Store".to_string(), "Groceries", String::new(), 5, now),
        Err(Error::NotFound)
    );
    assert_eq!(
        ledger.post_by_name("Checking", "Store".to_string(), "Travel", String::new(), 5, now),
        Err(Error::NotFound)
    );
    assert!(ledger.txs().is_empty());
    assert!(ledger.payees().is_empty());
    assert!(ledger.budgets().is_empty());
    assert_eq!(ledger.accounts()[0].balance, 0);
}

#[test]
fn refused_posting_changes_nothing() {
    let mut ledger = small_ledger();
    let now = noon(2024, 6, 15);
    ledger
        .post_by_name("Checking", "Store".to_string(), "Groceries", String::new(), i32::MAX, now)
        .unwrap();
    let txs: Vec<Tx> = ledger.txs().clone();
    let budgets: Vec<Budget> = ledger.budgets().clone();
    assert_eq!(
        ledger.post_by_name("Checking", "Bank".to_string(), "Groceries", String::new(), 1, now),
        Err(Error::StoreError)
    );
    assert_eq!(ledger.txs(), &txs);
    assert_eq!(ledger.budgets(), &budgets);
    assert_eq!(ledger.payees().len(), 1);
    assert_eq!(ledger.accounts()[0].balance, i32::MAX);
}

#[test]
fn posting_by_ids_checks_every_reference() {
    let mut ledger = small_ledger();
    let now = noon(2024, 6, 15);
    assert_eq!(ledger.post(7, None, Some(2), String::new(), 5, false, now), Err(Error::NotFound));
    assert_eq!(ledger.post(1, None, Some(7), String::new(), 5, false, now), Err(Error::NotFound));
    assert_eq!(ledger.post(1, Some(7), Some(2), String::new(), 5, false, now), Err(Error::NotFound));
    assert!(ledger.txs().is_empty());
    let done = ledger.post(1, None, Some(2), "cash".to_string(), 5, true, now).unwrap();
    assert_eq!(done.transaction.payee_id, None);
    assert!(done.transaction.cleared);
    assert_eq!(done.account.balance, 5);
}

#[test]
fn posting_without_category_touches_no_allocation() {
    let mut ledger = small_ledger();
    let done = ledger.post(1, None, None, String::new(), 1234, true, noon(2024, 2, 29)).unwrap();
    assert_eq!(done.allocation, None);
    assert!(ledger.budgets().is_empty());
    assert_eq!(ledger.accounts()[0].balance, 1234);
    assert_eq!(done.transaction.month, 1);
    assert_eq!(done.transaction.year, 2024);
}

#[test]
fn posting_a_row_with_a_day_that_does_not_exist_is_not_valid() {
    let mut ledger = small_ledger();
    let row = Tx {
        id: 0,
        timestamp: Timestamp { year: 2023, month: 2, day: 29, hour: 0, minute: 0, second: 0 },
        month: 1,
        year: 2023,
        account_id: 1,
        payee_id: None,
        transfer_account_id: None,
        category_id: None,
        memo: String::new(),
        amount: 1,
        cleared: false,
    };
    assert_eq!(ledger.posting_refusal(&row), Some(Error::ValidationError));
    assert_eq!(ledger.post_row(row), Err(Error::ValidationError));
    assert!(ledger.txs().is_empty());
}

#[test]
fn opening_an_account_seeds_its_balance() {
    let mut ledger = small_ledger();
    let now = noon(2024, 6, 15);
    let account = ledger.open_account("Savings".to_string(), 25000, true, now).unwrap();
    assert_eq!(
        account,
        Account { id: 2, name: "Savings".to_string(), is_tracking_account: true, balance: 25000 }
    );
    assert_eq!(ledger.accounts()[1], account);
    assert_eq!(ledger.txs().len(), 1);
    let seed = &ledger.txs()[0];
    assert_eq!(seed.account_id, 2);
    assert_eq!(seed.amount, 25000);
    assert!(seed.cleared);
    assert_eq!(seed.payee_id, None);
    assert_eq!(seed.category_id, None);
    assert_eq!(seed.memo, "");
    assert!(ledger.budgets().is_empty());
}

#[test]
fn opening_an_account_at_zero_writes_no_transaction() {
    let mut ledger = small_ledger();
    let account = ledger.open_account("Cash".to_string(), 0, false, noon(2024, 6, 15)).unwrap();
    assert_eq!(account.balance, 0);
    assert!(ledger.txs().is_empty());
    assert_eq!(
        ledger.open_account("Cash".to_string(), 10, false, noon(2024, 6, 15)),
        Err(Error::StoreError)
    );
    assert_eq!(ledger.accounts().len(), 2);
    assert!(ledger.txs().is_empty());
}

#[test]
fn balance_is_the_sum_of_the_transactions() {
    let mut ledger = small_ledger();
    let now = noon(2024, 6, 15);
    ledger.open_account("Savings".to_string(), 5000, false, now).unwrap();
    let amounts = [-2000, 150, 99999, -1, 0, -45000];
    for (i, amount) in amounts.iter().enumerate() {
        let account = if i % 2 == 0 { "Checking" } else { "Savings" };
        ledger
            .post_by_name(account, "Store".to_string(), "Groceries", String::new(), *amount, now)
            .unwrap();
        for a in ledger.accounts() {
            assert_eq!(a.balance as i64, total_of(&ledger, a.id));
            assert_eq!(ledger.transaction_total(a.id), a.balance as i128);
        }
    }
    assert_eq!(ledger.accounts()[0].balance, -2000 + 99999 + 0);
    assert_eq!(ledger.accounts()[1].balance, 5000 + 150 - 1 - 45000);
}

#[test]
fn adjust_balance_adds_the_delta() {
    let mut ledger = small_ledger();
    assert_eq!(ledger.adjust_balance(1, -700).unwrap().balance, -700);
    assert_eq!(ledger.adjust_balance(1, 200).unwrap().balance, -500);
    assert_eq!(ledger.accounts()[0].balance, -500);
    assert_eq!(ledger.adjust_balance(2, 1), Err(Error::NotFound));
    assert_eq!(ledger.adjust_balance(1, i32::MIN), Err(Error::StoreError));
    assert_eq!(ledger.accounts()[0].balance, -500);
}

#[test]
fn reconcile_sets_the_balance_to_the_sum() {
    let mut ledger = small_ledger();
    let now = noon(2024, 6, 15);
    ledger.post(1, None, None, String::new(), 300, false, now).unwrap();
    ledger.post(1, None, None, String::new(), -120, false, now).unwrap();
    ledger.adjust_balance(1, 5).unwrap();
    assert_eq!(ledger.accounts()[0].balance, 185);
    assert_eq!(ledger.transaction_total(1), 180);
    assert_eq!(ledger.reconcile(1).unwrap().balance, 180);
    assert_eq!(ledger.accounts()[0].balance, 180);
    assert_eq!(ledger.reconcile(9), Err(Error::NotFound));
}
