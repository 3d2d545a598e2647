use rusty_debt::debtrecord::DebtRecord;
use rusty_debt::table::{entry_with_id, latest_entry, StoreError};

fn record(id: i64, debtor: &str, creditor: &str, amount: i64, description: &str) -> DebtRecord {
    DebtRecord::from_columns(id, debtor.to_string(), creditor.to_string(), amount, description.to_string())
}

#[test]
fn render_gives_one_line() {
    let r = record(1, "Bob", "Alice", 100, "lunch");
    assert_eq!(r.render(), "1. Bob -> Alice: 100 SEK (lunch)");
}

#[test]
fn render_negative_and_zero_amounts() {
    assert_eq!(record(12, "A", "B", -250, "N/A").render(), "12. A -> B: -250 SEK (N/A)");
    assert_eq!(record(0, "A", "B", 0, "").render(), "0. A -> B: 0 SEK ()");
}

#[test]
fn render_extreme_amounts() {
    assert_eq!(
        record(7, "x", "y", i64::MIN, "d").render(),
        "7. x -> y: -9223372036854775808 SEK (d)"
    );
    assert_eq!(
        record(i64::MAX, "x", "y", 1009, "d").render(),
        "9223372036854775807. x -> y: 1009 SEK (d)"
    );
}

#[test]
fn from_columns_keeps_column_order() {
    let r = record(3, "debtor", "creditor", 42, "why");
    assert_eq!(r.id, 3);
    assert_eq!(r.debtor, "debtor");
    assert_eq!(r.creditor, "creditor");
    assert_eq!(r.amount, 42);
    assert_eq!(r.description, "why");
}

#[test]
fn entry_with_id_finds_first_match() {
    let rows = vec![record(1, "a", "b", 1, "x"), record(2, "c", "d", 2, "y"), record(2, "e", "f", 3, "z")];
    let r = entry_with_id(rows, 2).unwrap();
    assert_eq!(r, record(2, "c", "d", 2, "y"));
}

#[test]
fn entry_with_id_absent_is_not_found() {
    let rows = vec![record(1, "a", "b", 1, "x")];
    assert!(matches!(entry_with_id(rows, 5), Err(StoreError::NotFound)));
    assert!(matches!(entry_with_id(Vec::new(), 1), Err(StoreError::NotFound)));
}

#[test]
fn latest_entry_takes_greatest_id() {
    let rows = vec![record(4, "a", "b", 1, "x"), record(9, "c", "d", 2, "y"), record(9, "e", "f", 3, "z"), record(2, "g", "h", 4, "w")];
    assert_eq!(latest_entry(rows).unwrap(), record(9, "c", "d", 2, "y"));
}

#[test]
fn latest_entry_of_no_rows_is_not_found() {
    assert!(matches!(latest_entry(Vec::new()), Err(StoreError::NotFound)));
}
