use envelope_ledger::clock::Timestamp;
use envelope_ledger::error::Error;
use envelope_ledger::ledger::Ledger;
use envelope_ledger::models::{Budget, NewCategory};
use envelope_ledger::sequencer::{Message, Refresh, Sequencer};
use envelope_ledger::snapshot;

fn noon() -> Timestamp {
    Timestamp::new(2024, 6, 15, 12, 0, 0).unwrap()
}

fn sequencer_with_categories(n: usize) -> Sequencer {
    let mut seq = Sequencer::new(Ledger::new(), noon());
    let names = ["Inflow", "Rent", "Groceries", "Fun", "Car"];
    for name in names.iter().take(n) {
        seq.handle_at(Message::AddCategory(name.to_string()), noon()).unwrap();
    }
    seq
}

fn row_of(seq: &Sequencer, category_id: i32, month: i32, year: i32) -> Option<Budget> {
    seq.ledger()
        .budgets()
        .iter()
        .find(|b| b.category_id == category_id && b.month == month && b.year == year)
        .copied()
}

#[test]
fn new_sequencer_shows_the_current_month() {
    let seq = Sequencer::new(Ledger::new(), noon());
    assert_eq!(seq.selected_account(), None);
    assert_eq!(seq.viewed_month(), (5, 2024));
    assert!(!seq.is_terminated());
    assert!(seq.ledger().accounts().is_empty());
}

#[test]
fn edit_assignment_takes_from_the_pool() {
    // The pool holds 100.00 for the month.
    let mut ledger = Ledger::new();
    for name in ["Inflow", "Rent", "Groceries", "Fun", "Car"] {
        ledger.insert_category(NewCategory { group_id: 0, name }).unwrap();
    }
    ledger.allocate(1, 6, 2024, 10000, None).unwrap();
    let mut seq = Sequencer::new(ledger, noon());
    assert_eq!(row_of(&seq, 1, 6, 2024).unwrap().available, 10000);

    let stale = seq.handle_at(Message::EditAssignment(5, 6, 2024, "50.00".to_string()), noon()).unwrap();
    assert_eq!(stale, Refresh { accounts: false, categories: false, transactions: false, budget: true });

    let target = row_of(&seq, 5, 6, 2024).unwrap();
    assert_eq!((target.assigned, target.activity, target.available), (5000, 0, 5000));
    let pool = row_of(&seq, 1, 6, 2024).unwrap();
    assert_eq!(pool.activity, 10000 - 5000);
    assert_eq!(pool.available, 5000);
}

#[test]
fn edit_assignment_again_moves_the_difference() {
    let mut seq = sequencer_with_categories(5);
    seq.handle_at(Message::EditAssignment(5, 6, 2024, "50.00".to_string()), noon()).unwrap();
    let target_before = row_of(&seq, 5, 6, 2024).unwrap();
    let pool_before = row_of(&seq, 1, 6, 2024).unwrap();
    assert_eq!(target_before.assigned, 5000);

    seq.handle_at(Message::EditAssignment(5, 6, 2024, "$30".to_string()), noon()).unwrap();

    let target = row_of(&seq, 5, 6, 2024).unwrap();
    let pool = row_of(&seq, 1, 6, 2024).unwrap();
    assert_eq!(target.assigned, 3000);
    assert_eq!(target.available, target_before.available - 2000);
    assert_eq!(pool.available, pool_before.available + 2000);
    assert_eq!(pool.activity, pool_before.activity + 2000);
}

#[test]
fn edit_assignment_without_digits_assigns_nothing() {
    let mut seq = sequencer_with_categories(3);
    seq.handle_at(Message::EditAssignment(3, 6, 2024, "12".to_string()), noon()).unwrap();
    seq.handle_at(Message::EditAssignment(3, 6, 2024, "".to_string()), noon()).unwrap();
    let row = row_of(&seq, 3, 6, 2024).unwrap();
    assert_eq!((row.assigned, row.activity, row.available), (0, 0, 0));
    let pool = row_of(&seq, 1, 6, 2024).unwrap();
    assert_eq!((pool.assigned, pool.activity, pool.available), (0, 0, 0));
}

#[test]
fn edit_assignment_out_of_range_is_not_valid() {
    let mut seq = sequencer_with_categories(3);
    assert_eq!(
        seq.handle_at(Message::EditAssignment(3, 6, 2024, "99999999999".to_string()), noon()),
        Err(Error::ValidationError)
    );
    assert!(seq.ledger().budgets().is_empty());
}

#[test]
fn edit_assignment_needs_the_category_and_the_pool() {
    let mut seq = sequencer_with_categories(2);
    assert_eq!(
        seq.handle_at(Message::EditAssignment(9, 6, 2024, "1".to_string()), noon()),
        Err(Error::NotFound)
    );
    let mut bare = Sequencer::new(Ledger::new(), noon());
    assert_eq!(
        bare.handle_at(Message::EditAssignment(1, 6, 2024, "1".to_string()), noon()),
        Err(Error::NotFound)
    );
}

#[test]
fn post_transaction_moves_activity_and_balance() {
    let mut seq = sequencer_with_categories(3);
    seq.handle_at(Message::AddAccount("Checking".to_string(), 0, false), noon()).unwrap();
    let stale = seq
        .handle_at(
            Message::PostTransaction(
                "Checking".to_string(),
                "Store".to_string(),
                "Groceries".to_string(),
                "".to_string(),
                -2000,
            ),
            noon(),
        )
        .unwrap();
    assert_eq!(stale, Refresh { accounts: true, categories: false, transactions: true, budget: true });
    let row = row_of(&seq, 3, 5, 2024).unwrap();
    assert_eq!((row.assigned, row.activity, row.available), (0, -2000, -2000));
    assert_eq!(seq.ledger().accounts()[0].balance, -2000);
    assert_eq!(seq.ledger().txs().len(), 1);
    assert_eq!(seq.ledger().payees()[0].name, "Store");
}

#[test]
fn add_account_with_balance_writes_a_seed_transaction() {
    let mut seq = sequencer_with_categories(1);
    let stale = seq.handle_at(Message::AddAccount("Savings".to_string(), 9000, true), noon()).unwrap();
    assert_eq!(stale, Refresh { accounts: true, categories: false, transactions: true, budget: false });
    assert_eq!(seq.ledger().accounts()[0].balance, 9000);
    assert!(seq.ledger().accounts()[0].is_tracking_account);
    assert_eq!(seq.ledger().txs().len(), 1);
    assert_eq!(seq.ledger().txs()[0].amount, 9000);
    assert!(seq.ledger().txs()[0].cleared);

    let stale = seq.handle_at(Message::AddAccount("Cash".to_string(), 0, false), noon()).unwrap();
    assert_eq!(stale, Refresh { accounts: true, categories: false, transactions: false, budget: false });
    assert_eq!(seq.ledger().txs().len(), 1);
}

#[test]
fn failed_command_leaves_the_sequencer_running() {
    let mut seq = sequencer_with_categories(2);
    seq.handle_at(Message::AddAccount("Checking".to_string(), 0, false), noon()).unwrap();
    assert_eq!(
        seq.handle_at(Message::AddAccount("Checking".to_string(), 5, false), noon()),
        Err(Error::StoreError)
    );
    assert_eq!(seq.handle_at(Message::AddCategory("Rent".to_string()), noon()), Err(Error::StoreError));
    assert_eq!(
        seq.handle_at(
            Message::PostTransaction("Nope".to_string(), "a".to_string(), "Rent".to_string(), "".to_string(), 1),
            noon()
        ),
        Err(Error::NotFound)
    );
    assert!(!seq.is_terminated());
    assert_eq!(seq.ledger().accounts().len(), 1);
    assert_eq!(seq.ledger().categories().len(), 2);
    assert!(seq.ledger().txs().is_empty());
    assert!(seq.handle_at(Message::AddCategory("Food".to_string()), noon()).is_ok());
}

#[test]
fn select_account_and_change_month() {
    let mut seq = sequencer_with_categories(1);
    let stale = seq.handle_at(Message::SelectAccount(3), noon()).unwrap();
    assert_eq!(stale, Refresh { accounts: false, categories: false, transactions: true, budget: false });
    assert_eq!(seq.selected_account(), Some(3));
    seq.handle_at(Message::SelectAccount(0), noon()).unwrap();
    assert_eq!(seq.selected_account(), None);
    seq.handle_at(Message::SelectAccount(-4), noon()).unwrap();
    assert_eq!(seq.selected_account(), None);

    let stale = seq.handle_at(Message::ChangeViewedMonth(11, 2031), noon()).unwrap();
    assert_eq!(stale, Refresh { accounts: false, categories: false, transactions: false, budget: true });
    assert_eq!(seq.viewed_month(), (11, 2031));
}

#[test]
fn terminate_stops_the_sequencer() {
    let mut seq = sequencer_with_categories(1);
    let nothing = Refresh { accounts: false, categories: false, transactions: false, budget: false };
    assert_eq!(seq.handle_at(Message::Terminate, noon()), Ok(nothing));
    assert!(seq.is_terminated());
    assert_eq!(seq.handle_at(Message::AddCategory("Rent".to_string()), noon()), Ok(nothing));
    assert_eq!(seq.handle_at(Message::SelectAccount(2), noon()), Ok(nothing));
    assert_eq!(seq.ledger().categories().len(), 1);
    assert_eq!(seq.selected_account(), None);
}

#[test]
fn commands_run_in_arrival_order() {
    let mut seq = sequencer_with_categories(3);
    let messages = vec![
        Message::AddAccount("Checking".to_string(), 100000, false),
        Message::EditAssignment(3, 5, 2024, "400".to_string()),
        Message::PostTransaction("Checking".to_string(), "Store".to_string(), "Groceries".to_string(), "a".to_string(), -2500),
        Message::PostTransaction("Checking".to_string(), "Store".to_string(), "Groceries".to_string(), "b".to_string(), -1500),
        Message::EditAssignment(3, 5, 2024, "350".to_string()),
    ];
    for m in messages {
        seq.handle_at(m, noon()).unwrap();
    }
    let row = row_of(&seq, 3, 5, 2024).unwrap();
    assert_eq!((row.assigned, row.activity, row.available), (35000, -4000, 31000));
    let pool = row_of(&seq, 1, 5, 2024).unwrap();
    assert_eq!((pool.assigned, pool.activity, pool.available), (0, -35000, -35000));
    assert_eq!(seq.ledger().accounts()[0].balance, 100000 - 4000);
    assert_eq!(seq.ledger().txs().len(), 3);
}

#[test]
fn handle_reads_the_clock() {
    let mut seq = sequencer_with_categories(2);
    seq.handle(Message::AddAccount("Checking".to_string(), 0, false)).unwrap();
    seq.handle(Message::PostTransaction(
        "Checking".to_string(),
        "Store".to_string(),
        "Rent".to_string(),
        "".to_string(),
        -100,
    ))
    .unwrap();
    let tx = &seq.ledger().txs()[0];
    assert!(tx.timestamp.is_valid());
    assert_eq!(tx.month, tx.timestamp.month as i32 - 1);
    assert_eq!(tx.year, tx.timestamp.year);
    let row = seq.ledger().budgets()[0];
    assert_eq!((row.category_id, row.month, row.year), (2, tx.month, tx.year));
}

#[test]
fn snapshots_show_the_ledger() {
    let mut seq = sequencer_with_categories(3);
    seq.handle_at(Message::AddAccount("Checking".to_string(), 0, false), noon()).unwrap();
    seq.handle_at(Message::AddAccount("Savings".to_string(), 500, true), noon()).unwrap();
    seq.handle_at(
        Message::PostTransaction("Checking".to_string(), "Store".to_string(), "Groceries".to_string(), "milk".to_string(), -2000),
        noon(),
    )
    .unwrap();
    seq.handle_at(Message::EditAssignment(3, 5, 2024, "30".to_string()), noon()).unwrap();
    let ledger = seq.ledger();

    let accounts = snapshot::account_views(ledger);
    assert_eq!(accounts.len(), 2);
    assert_eq!((accounts[0].id, accounts[0].name.as_str(), accounts[0].balance), (1, "Checking", -2000));
    assert_eq!((accounts[1].id, accounts[1].name.as_str(), accounts[1].balance), (2, "Savings", 500));

    let names: Vec<String> = snapshot::account_names(ledger).into_iter().map(|s| s.into_string()).collect();
    assert_eq!(names, vec!["Checking".to_string(), "Savings".to_string()]);
    let names: Vec<String> = snapshot::category_names(ledger).into_iter().map(|s| s.into_string()).collect();
    assert_eq!(names, vec!["Inflow".to_string(), "Rent".to_string(), "Groceries".to_string()]);

    let all = snapshot::transaction_views(ledger, None);
    assert_eq!(all.len(), 2);
    assert_eq!(all[0].account.as_str(), "Savings");
    assert_eq!(all[0].category.as_str(), "");
    assert_eq!(all[0].payee.as_str(), "");
    assert_eq!(all[0].inflow.as_str(), "$5.00");
    assert_eq!(all[1].account.as_str(), "Checking");
    assert_eq!(all[1].category.as_str(), "Groceries");
    assert_eq!(all[1].payee.as_str(), "Store");
    assert_eq!(all[1].memo.as_str(), "milk");
    assert_eq!(all[1].outflow.as_str(), "$20.00");
    assert_eq!(all[1].timestamp.as_str(), "2024-06-15");
    let one = snapshot::transaction_views(ledger, Some(1));
    assert_eq!(one.len(), 1);
    assert_eq!(one[0].id, 2);
    assert_eq!(snapshot::transaction_view(ledger, &ledger.txs()[1]), one[0]);

    let rows = snapshot::budget_rows(ledger, 5, 2024);
    assert_eq!(rows.len(), 3);
    assert_eq!((rows[0].id, rows[0].assigned, rows[0].activity, rows[0].available), (1, Some(0), Some(-3000), Some(-3000)));
    assert_eq!((rows[1].id, rows[1].assigned, rows[1].activity, rows[1].available), (2, None, None, None));
    assert_eq!((rows[2].id, rows[2].assigned, rows[2].activity, rows[2].available), (3, Some(3000), Some(-2000), Some(1000)));

    let shown = snapshot::budget_snapshot(&rows);
    let inflow = shown.inflow.unwrap();
    assert_eq!((inflow.id, inflow.name.as_str(), inflow.available.as_str()), (1, "Inflow", "-$30.00"));
    assert_eq!(shown.categories.len(), 2);
    assert_eq!(shown.categories[0].name.as_str(), "Rent");
    assert_eq!(shown.categories[0].assigned.as_str(), "");
    assert_eq!(shown.categories[0].available.as_str(), "$0.00");
    assert_eq!(shown.categories[1].name.as_str(), "Groceries");
    assert_eq!(shown.categories[1].assigned.as_str(), "$30.00");
    assert_eq!(shown.categories[1].activity.as_str(), "-$20.00");
    assert_eq!(shown.categories[1].available.as_str(), "$10.00");

    let other_month = snapshot::budget_snapshot(&snapshot::budget_rows(ledger, 6, 2024));
    assert_eq!(other_month.inflow.unwrap().available.as_str(), "$0.00");
}
