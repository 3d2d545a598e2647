//! A store of debt records: who owes whom how much, kept in an SQLite table.

pub mod debtrecord;
pub mod table;
pub mod database;
