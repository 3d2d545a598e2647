use rusty_debt::database::Database;
use rusty_debt::debtrecord::DebtRecord;
use rusty_debt::table::StoreError;

fn open_store() -> Database {
    let mut db = Database::new();
    db.initialize_at(":memory:").unwrap();
    db
}

fn add(db: &mut Database, creditor: &str, debtor: &str, amount: i64, description: &str) -> DebtRecord {
    db.add_entry(creditor.to_string(), debtor.to_string(), amount, description.to_string()).unwrap()
}

fn listed_ids(db: &mut Database) -> Vec<i64> {
    db.get_entries().unwrap().iter().map(|r| r.id).collect()
}

#[test]
fn ids_strictly_increase_across_adds() {
    let mut db = open_store();
    let mut last = i64::MIN;
    for i in 0..6 {
        let r = add(&mut db, "C", "D", i, "N/A");
        assert!(r.id > last);
        last = r.id;
    }
    let a = add(&mut db, "C", "D", 1, "x");
    db.remove_entry(a.id - 2).unwrap();
    let b = add(&mut db, "C", "D", 2, "y");
    assert!(b.id > a.id);
}

#[test]
fn entries_after_adds_are_all_in_id_order() {
    let mut db = open_store();
    for i in 0..5 {
        add(&mut db, "C", "D", i * 10, "N/A");
    }
    let all = db.get_entries().unwrap();
    assert_eq!(all.len(), 5);
    for w in all.windows(2) {
        assert!(w[0].id < w[1].id);
    }
    assert_eq!(all.iter().map(|r| r.amount).collect::<Vec<i64>>(), vec![0, 10, 20, 30, 40]);
}

#[test]
fn empty_store_lists_nothing() {
    let mut db = open_store();
    assert!(db.get_entries().unwrap().is_empty());
}

#[test]
fn removed_entry_is_not_found_afterwards() {
    let mut db = open_store();
    let r = add(&mut db, "Alice", "Bob", 5, "coffee");
    let removed = db.remove_entry(r.id).unwrap();
    assert_eq!(removed, r);
    assert!(matches!(db.get_entry(r.id), Err(StoreError::NotFound)));
}

#[test]
fn removing_absent_id_changes_nothing() {
    let mut db = open_store();
    add(&mut db, "Alice", "Bob", 5, "coffee");
    add(&mut db, "Carol", "Dave", 7, "tea");
    let before = db.get_entries().unwrap();
    assert!(matches!(db.remove_entry(99), Err(StoreError::NotFound)));
    assert_eq!(db.get_entries().unwrap(), before);
}

#[test]
fn reset_empties_the_store() {
    let mut db = open_store();
    add(&mut db, "Alice", "Bob", 5, "coffee");
    add(&mut db, "Carol", "Dave", 7, "tea");
    db.reset_database().unwrap();
    assert!(db.get_entries().unwrap().is_empty());
    db.reset_database().unwrap();
    assert!(db.get_entries().unwrap().is_empty());
}

#[test]
fn added_record_round_trips() {
    let mut db = open_store();
    let r = add(&mut db, "Carol", "Dave", -42, "refund");
    assert_eq!(r.creditor, "Carol");
    assert_eq!(r.debtor, "Dave");
    assert_eq!(r.amount, -42);
    assert_eq!(r.description, "refund");
    assert_eq!(db.get_entry(r.id).unwrap(), r);
}

#[test]
fn default_description_is_kept() {
    let mut db = open_store();
    let r = add(&mut db, "Carol", "Dave", 1, rusty_debt::debtrecord::DEFAULT_DESCRIPTION);
    assert_eq!(db.get_entry(r.id).unwrap().description, "N/A");
}

#[test]
fn add_list_remove_reset_scenario() {
    let mut db = open_store();
    let first = add(&mut db, "Alice", "Bob", 100, "lunch");
    assert_eq!(first, DebtRecord::from_columns(1, "Bob".to_string(), "Alice".to_string(), 100, "lunch".to_string()));
    let second = add(&mut db, "Carol", "Dave", 20, "N/A");
    assert_eq!(second.id, 2);
    assert_eq!(listed_ids(&mut db), vec![1, 2]);
    let removed = db.remove_entry(1).unwrap();
    assert_eq!(removed, first);
    assert_eq!(listed_ids(&mut db), vec![2]);
    db.reset_database().unwrap();
    assert!(db.get_entries().unwrap().is_empty());
}

#[test]
fn reopening_a_populated_store_keeps_it() {
    let mut db = open_store();
    add(&mut db, "Alice", "Bob", 100, "lunch");
    db.get_dbconn().execute("CREATE TABLE IF NOT EXISTS debt (id INTEGER PRIMARY KEY)", []).unwrap();
    assert_eq!(listed_ids(&mut db), vec![1]);
}

#[test]
fn unopenable_path_is_storage_unavailable() {
    let mut db = Database::new();
    let r = db.initialize_at("/nonexistent-directory/for/debts.db");
    assert!(matches!(r, Err(StoreError::StorageUnavailable(_))));
}

#[test]
fn missing_table_gives_each_error() {
    let mut db = open_store();
    add(&mut db, "Alice", "Bob", 100, "lunch");
    db.get_dbconn().execute("DROP TABLE debt", []).unwrap();
    assert!(matches!(db.add_entry("a".to_string(), "b".to_string(), 1, "c".to_string()), Err(StoreError::WriteFailed(_))));
    assert!(matches!(db.get_entries(), Err(StoreError::StorageUnavailable(_))));
    assert!(matches!(db.get_entry(1), Err(StoreError::StorageUnavailable(_))));
    assert!(matches!(db.remove_entry(1), Err(StoreError::StorageUnavailable(_))));
    assert!(matches!(db.reset_database(), Err(StoreError::StorageUnavailable(_))));
}

#[test]
fn reset_recreates_a_missing_table_only_after_drop() {
    let mut db = open_store();
    db.get_dbconn().execute("DROP TABLE debt", []).unwrap();
    assert!(matches!(db.reset_database(), Err(StoreError::StorageUnavailable(_))));
    assert!(db.get_entries().is_err());
}

#[test]
fn highest_id_is_not_reused_after_removal() {
    let mut db = open_store();
    add(&mut db, "Alice", "Bob", 1, "a");
    let top = add(&mut db, "Alice", "Bob", 2, "b");
    db.remove_entry(top.id).unwrap();
    let next = add(&mut db, "Alice", "Bob", 3, "c");
    assert!(next.id > top.id);
    assert_eq!(listed_ids(&mut db), vec![1, 3]);
}

#[test]
fn add_after_reset_round_trips() {
    let mut db = open_store();
    add(&mut db, "Alice", "Bob", 1, "a");
    db.reset_database().unwrap();
    let r = add(&mut db, "Alice", "Bob", 2, "b");
    assert_eq!(db.get_entry(r.id).unwrap(), r);
    assert_eq!(listed_ids(&mut db), vec![r.id]);
}
