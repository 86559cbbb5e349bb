use envelope_ledger::api::{account, category, payee, transaction};
use envelope_ledger::clock::Timestamp;
use envelope_ledger::error::Error;
use envelope_ledger::ledger::Ledger;
use envelope_ledger::models::{Account, Category, NewAccount, NewCategory, NewPayee, NewTx, Payee, Tx};

fn an_account(name: &str, balance: i32) -> Account {
    Account { id: 0, name: name.to_string(), is_tracking_account: false, balance }
}

fn a_tx(account_id: i32, amount: i32) -> Tx {
    Tx {
        id: 0,
        timestamp: Timestamp::new(2024, 3, 9, 8, 30, 0).unwrap(),
        month: 2,
        year: 2024,
        account_id,
        payee_id: None,
        transfer_account_id: None,
        category_id: None,
        memo: "note".to_string(),
        amount,
        cleared: false,
    }
}

#[test]
fn new_ledger_is_empty() {
    let ledger = Ledger::new();
    assert!(ledger.accounts().is_empty());
    assert!(ledger.categories().is_empty());
    assert!(ledger.payees().is_empty());
    assert!(ledger.txs().is_empty());
    assert!(ledger.budgets().is_empty());
    assert_eq!(ledger.next_payee_id(), 1);
    assert!(ledger.has_account_id_left());
    assert!(ledger.has_category_id_left());
    assert!(ledger.has_payee_id_left());
    assert!(ledger.has_tx_id_left());
    assert!(ledger.has_budget_id_left());
}

#[test]
fn account_add_assigns_ids_from_one() {
    let mut db = Ledger::new();
    let a = account::add(Account { id: 77, ..an_account("Checking", 10) }, &mut db).unwrap();
    let b = account::add(an_account("Savings", 20), &mut db).unwrap();
    assert_eq!(a, Account { id: 1, ..an_account("Checking", 10) });
    assert_eq!(b, Account { id: 2, ..an_account("Savings", 20) });
    assert_eq!(account::list(&db).unwrap(), vec![a, b]);
}

#[test]
fn account_names_are_unique() {
    let mut db = Ledger::new();
    account::add(an_account("Checking", 0), &mut db).unwrap();
    assert_eq!(account::add(an_account("Checking", 5), &mut db), Err(Error::StoreError));
    assert_eq!(
        db.insert_account(NewAccount { name: "Checking", is_tracking_account: true, balance: 1 }),
        Err(Error::StoreError)
    );
    assert_eq!(db.accounts().len(), 1);
    assert_eq!(db.account_index_by_name("Checking"), Some(0));
    assert_eq!(db.account_index_by_name("checking"), None);
}

#[test]
fn account_find_update_remove() {
    let mut db = Ledger::new();
    account::add(an_account("Checking", 0), &mut db).unwrap();
    account::add(an_account("Savings", 0), &mut db).unwrap();
    assert_eq!(account::find_by_id(2, &db).unwrap().name, "Savings");
    assert_eq!(account::find_by_id(3, &db), Err(Error::NotFound));

    let changed = Account { id: 2, name: "Rainy day".to_string(), is_tracking_account: true, balance: 900 };
    assert_eq!(account::update(changed.clone(), &mut db), Ok(changed.clone()));
    assert_eq!(account::find_by_id(2, &db), Ok(changed.clone()));
    // The row may keep its own name, but not take another row's.
    assert_eq!(account::update(changed.clone(), &mut db), Ok(changed.clone()));
    assert_eq!(
        account::update(Account { name: "Checking".to_string(), ..changed.clone() }, &mut db),
        Err(Error::StoreError)
    );
    assert_eq!(account::update(Account { id: 9, ..changed.clone() }, &mut db), Err(Error::NotFound));
    assert_eq!(account::find_by_id(2, &db), Ok(changed.clone()));

    assert_eq!(account::remove(1, &mut db).unwrap().name, "Checking");
    assert_eq!(account::remove(1, &mut db), Err(Error::NotFound));
    assert_eq!(account::list(&db).unwrap(), vec![changed]);
    // Ids are not handed out again.
    assert_eq!(account::add(an_account("Checking", 0), &mut db).unwrap().id, 3);
}

#[test]
fn account_with_transactions_stays() {
    let mut db = Ledger::new();
    account::add(an_account("Checking", 0), &mut db).unwrap();
    account::add(an_account("Savings", 0), &mut db).unwrap();
    let stored = transaction::add(a_tx(1, 5), &mut db).unwrap();
    assert_eq!(account::remove(1, &mut db), Err(Error::StoreError));
    assert!(db.account_in_use(1));
    assert!(!db.account_in_use(2));
    let other = transaction::add(Tx { transfer_account_id: Some(2), ..a_tx(1, 5) }, &mut db).unwrap();
    assert_eq!(account::remove(2, &mut db), Err(Error::StoreError));
    transaction::remove(other.id, &mut db).unwrap();
    assert_eq!(account::remove(2, &mut db).unwrap().id, 2);
    transaction::remove(stored.id, &mut db).unwrap();
    assert_eq!(account::remove(1, &mut db).unwrap().id, 1);
}

#[test]
fn category_add_remove_list() {
    let mut db = Ledger::new();
    let a = category::add(Category { id: 0, group_id: 3, name: "Inflow".to_string(), order: 4 }, &mut db).unwrap();
    let b = db.insert_category(NewCategory { group_id: 7, name: "Rent" }).unwrap();
    assert_eq!(a, Category { id: 1, group_id: 3, name: "Inflow".to_string(), order: 4 });
    assert_eq!(b, Category { id: 2, group_id: 7, name: "Rent".to_string(), order: 0 });
    assert_eq!(
        category::add(Category { id: 0, group_id: 0, name: "Rent".to_string(), order: 0 }, &mut db),
        Err(Error::StoreError)
    );
    assert_eq!(category::list(&db).unwrap(), vec![a.clone(), b.clone()]);
    assert_eq!(db.category_index(2), Some(1));
    assert_eq!(db.category_index_by_name("Rent"), Some(1));
    assert_eq!(category::remove(5, &mut db), Err(Error::NotFound));
    assert_eq!(category::remove(1, &mut db), Ok(a));
    assert_eq!(category::list(&db).unwrap(), vec![b]);
}

#[test]
fn category_in_use_stays() {
    let mut db = Ledger::new();
    db.insert_category(NewCategory { group_id: 0, name: "Inflow" }).unwrap();
    db.insert_category(NewCategory { group_id: 0, name: "Rent" }).unwrap();
    db.insert_category(NewCategory { group_id: 0, name: "Food" }).unwrap();
    account::add(an_account("Checking", 0), &mut db).unwrap();
    db.allocate(2, 1, 2024, 10, None).unwrap();
    transaction::add(Tx { category_id: Some(3), ..a_tx(1, 5) }, &mut db).unwrap();
    assert_eq!(category::remove(2, &mut db), Err(Error::StoreError));
    assert_eq!(category::remove(3, &mut db), Err(Error::StoreError));
    assert_eq!(category::remove(1, &mut db).unwrap().name, "Inflow");
}

#[test]
fn payee_add_remove_list() {
    let mut db = Ledger::new();
    let a = payee::add(Payee { id: 9, name: "Store".to_string() }, &mut db).unwrap();
    let b = db.insert_payee(NewPayee { name: "Landlord" }).unwrap();
    assert_eq!(a, Payee { id: 1, name: "Store".to_string() });
    assert_eq!(b, Payee { id: 2, name: "Landlord".to_string() });
    assert_eq!(payee::add(Payee { id: 0, name: "Store".to_string() }, &mut db), Err(Error::StoreError));
    assert_eq!(payee::list(&db).unwrap(), vec![a.clone(), b.clone()]);
    assert_eq!(db.payee_index(2), Some(1));
    assert_eq!(db.payee_index_by_name("Landlord"), Some(1));
    assert_eq!(db.next_payee_id(), 3);

    account::add(an_account("Checking", 0), &mut db).unwrap();
    transaction::add(Tx { payee_id: Some(1), ..a_tx(1, 5) }, &mut db).unwrap();
    assert!(db.payee_in_use(1));
    assert_eq!(payee::remove(1, &mut db), Err(Error::StoreError));
    assert_eq!(payee::remove(2, &mut db), Ok(b));
    assert_eq!(payee::remove(2, &mut db), Err(Error::NotFound));
    assert_eq!(payee::list(&db).unwrap(), vec![a]);
}

#[test]
fn transaction_add_is_a_plain_insert() {
    let mut db = Ledger::new();
    account::add(an_account("Checking", 40), &mut db).unwrap();
    let stored = transaction::add(Tx { id: 55, ..a_tx(1, 5) }, &mut db).unwrap();
    assert_eq!(stored, Tx { id: 1, ..a_tx(1, 5) });
    assert_eq!(db.accounts()[0].balance, 40);
    assert!(db.budgets().is_empty());
    assert_eq!(db.tx_index(1), Some(0));
    assert_eq!(db.tx_index(2), None);
}

#[test]
fn transaction_add_checks_references_and_timestamp() {
    let mut db = Ledger::new();
    account::add(an_account("Checking", 0), &mut db).unwrap();
    assert_eq!(transaction::add(a_tx(2, 5), &mut db), Err(Error::NotFound));
    assert_eq!(transaction::add(Tx { category_id: Some(1), ..a_tx(1, 5) }, &mut db), Err(Error::NotFound));
    assert_eq!(transaction::add(Tx { payee_id: Some(1), ..a_tx(1, 5) }, &mut db), Err(Error::NotFound));
    let no_day = Timestamp { year: 2024, month: 4, day: 31, hour: 0, minute: 0, second: 0 };
    assert_eq!(transaction::add(Tx { timestamp: no_day, ..a_tx(1, 5) }, &mut db), Err(Error::ValidationError));
    assert!(db.txs().is_empty());
}

#[test]
fn transaction_remove_is_a_plain_delete() {
    let mut db = Ledger::new();
    account::add(an_account("Checking", 0), &mut db).unwrap();
    db.post(1, None, None, String::new(), 700, false, Timestamp::new(2024, 3, 9, 0, 0, 0).unwrap()).unwrap();
    let removed = transaction::remove(1, &mut db).unwrap();
    assert_eq!(removed.amount, 700);
    assert!(db.txs().is_empty());
    assert_eq!(db.accounts()[0].balance, 700);
    assert_eq!(transaction::remove(1, &mut db), Err(Error::NotFound));
}

#[test]
fn transaction_list_filters_by_account() {
    let mut db = Ledger::new();
    account::add(an_account("Checking", 0), &mut db).unwrap();
    account::add(an_account("Savings", 0), &mut db).unwrap();
    let a = transaction::add(a_tx(1, 1), &mut db).unwrap();
    let b = transaction::add(a_tx(2, 2), &mut db).unwrap();
    let c = transaction::add(a_tx(1, 3), &mut db).unwrap();
    assert_eq!(transaction::list(None, &db).unwrap(), vec![a.clone(), b.clone(), c.clone()]);
    assert_eq!(transaction::list(Some(1), &db).unwrap(), vec![a, c]);
    assert_eq!(transaction::list(Some(2), &db).unwrap(), vec![b]);
    assert_eq!(transaction::list(Some(3), &db).unwrap(), Vec::<Tx>::new());
}

#[test]
fn insert_tx_copies_the_borrowed_row() {
    let mut db = Ledger::new();
    account::add(an_account("Checking", 0), &mut db).unwrap();
    let when = Timestamp::new(2024, 12, 31, 23, 59, 59).unwrap();
    let row = NewTx {
        timestamp: when,
        month: 11,
        year: 2024,
        account_id: 1,
        payee_id: None,
        transfer_account_id: None,
        category_id: None,
        memo: "fireworks",
        amount: -4200,
        cleared: true,
    };
    let stored = db.insert_tx(row).unwrap();
    assert_eq!(
        stored,
        Tx {
            id: 1,
            timestamp: when,
            month: 11,
            year: 2024,
            account_id: 1,
            payee_id: None,
            transfer_account_id: None,
            category_id: None,
            memo: "fireworks".to_string(),
            amount: -4200,
            cleared: true,
        }
    );
    assert_eq!(db.insert_tx(NewTx { account_id: 3, ..row }), Err(Error::NotFound));
    assert_eq!(db.txs().len(), 1);
}

#[test]
fn duplicates_equal_their_rows() {
    let account = an_account("Checking", 3);
    assert_eq!(account.duplicate(), account);
    let tx = a_tx(1, 5);
    assert_eq!(tx.duplicate(), tx);
    let category = Category { id: 1, group_id: 2, name: "Rent".to_string(), order: 3 };
    assert_eq!(category.duplicate(), category);
    let payee = Payee { id: 1, name: "Store".to_string() };
    assert_eq!(payee.duplicate(), payee);
}

#[test]
fn error_messages_name_the_kind() {
    assert_eq!(Error::NotFound.message(), "not found");
    assert_eq!(Error::StoreError.message(), "store error");
    assert_eq!(Error::ValidationError.message(), "validation error");
}
