use vstd::prelude::*;

use crate::debtrecord::DebtRecord;
use crate::table::{
    ascending_or_equal, entry_with_id, first_with_max_id, has_id, first_with_id, latest_entry,
    picks_entry, picks_latest, StoreError,
};

verus! {

#[verifier::external_type_specification]
#[verifier::external_body]
pub struct ExConnection(rusqlite::Connection);

#[verifier::external_type_specification]
#[verifier::external_body]
pub struct ExSqlError(rusqlite::Error);

/// The name of the file that `initialize` opens.
pub const DATABASE_FILE: &'static str = "database.db";

/// Creates the table of records unless it exists.
pub const CREATE_TABLE: &'static str = "
    CREATE TABLE IF NOT EXISTS debt (
        id INTEGER PRIMARY KEY AUTOINCREMENT,
        debtor TEXT NOT NULL,
        creditor TEXT NOT NULL,
        amount INTEGER NOT NULL DEFAULT '0',
        description TEXT DEFAULT 'N/A'
    )
";

/// Drops the table of records.
pub const DROP_TABLE: &'static str = "DROP TABLE debt";

/// Inserts a row from its debtor, creditor, amount and description.
pub const INSERT_ENTRY: &'static str = "
    INSERT INTO debt (debtor, creditor, amount, description) VALUES (?1, ?2, ?3, ?4)
";

/// Deletes the row with the given id.
pub const DELETE_ENTRY: &'static str = "DELETE FROM debt WHERE id = ?1";

/// Reads every row.
pub const SELECT_ALL: &'static str = "SELECT id, debtor, creditor, amount, description FROM debt";

/// Reads the rows with the given id.
pub const SELECT_BY_ID: &'static str = "SELECT id, debtor, creditor, amount, description FROM debt WHERE id = ?1";

const NOT_READ_BACK: &'static str = "the inserted record could not be read back";

/// A value bound to a numbered parameter of a statement.
enum SqlArg {
    Int(i64),
    Text(String),
}

/// A value bound to a statement's parameter, as the contracts see it.
pub enum SqlValue {
    Int(i64),
    Text(Seq<char>),
}

/// A call a handle made to SQLite, with what it sent and what came back.
pub enum Call {
    /// The database at this path was opened; whether that succeeded.
    Open(Seq<char>, bool),
    /// This statement ran with these values bound; whether it succeeded.
    Exec(Seq<char>, Seq<SqlValue>, bool),
    /// This query ran with these values bound; the rows it read, or `None`
    /// when it failed.
    Query(Seq<char>, Seq<SqlValue>, Option<Seq<DebtRecord>>),
}

spec fn arg_view(a: SqlArg) -> SqlValue {
    match a {
        SqlArg::Int(n) => SqlValue::Int(n),
        SqlArg::Text(s) => SqlValue::Text(s@),
    }
}

spec fn args_view(args: Seq<SqlArg>) -> Seq<SqlValue> {
    args.map_values(|a: SqlArg| arg_view(a))
}

/// The values an insert binds: debtor, creditor, amount, description.
pub open spec fn insert_values(debtor: Seq<char>, creditor: Seq<char>, amount: i64, description: Seq<char>) -> Seq<SqlValue> {
    seq![SqlValue::Text(debtor), SqlValue::Text(creditor), SqlValue::Int(amount), SqlValue::Text(description)]
}

/// Relies on rusqlite's `Connection::open`: opens, or creates, the database at `path`.
#[verifier::external_body]
fn open_connection(path: &str) -> (r: Result<rusqlite::Connection, rusqlite::Error>) {
    rusqlite::Connection::open(path)
}

/// Relies on rusqlite's `Connection::execute`: runs one statement with `args`
/// bound to its parameters `?1`, `?2`, ... in order.
#[verifier::external_body]
fn execute_statement(conn: &rusqlite::Connection, sql: &str, args: Vec<SqlArg>) -> (r: Result<usize, rusqlite::Error>) {
    let values = args.into_iter().map(|a| match a {
        SqlArg::Int(n) => rusqlite::types::Value::Integer(n),
        SqlArg::Text(s) => rusqlite::types::Value::Text(s),
    });
    conn.execute(sql, rusqlite::params_from_iter(values))
}

/// Relies on rusqlite's `Connection::prepare` and `Statement::query_map`: runs one
/// query with `args` bound in order, and reads each row's five columns as a record.
#[verifier::external_body]
fn select_records(conn: &rusqlite::Connection, sql: &str, args: Vec<SqlArg>) -> (r: Result<Vec<DebtRecord>, rusqlite::Error>) {
    let values = args.into_iter().map(|a| match a {
        SqlArg::Int(n) => rusqlite::types::Value::Integer(n),
        SqlArg::Text(s) => rusqlite::types::Value::Text(s),
    });
    let mut stmt = conn.prepare(sql)?;
    let rows = stmt.query_map(rusqlite::params_from_iter(values), |row| {
        Ok(DebtRecord::from_columns(row.get(0)?, row.get(1)?, row.get(2)?, row.get(3)?, row.get(4)?))
    })?;
    rows.collect()
}

/// Relies on std's `slice::sort_by_key`: a stable sort, here by id.
#[verifier::external_body]
fn sort_by_id(rows: &mut Vec<DebtRecord>)
    ensures
        ascending_or_equal(final(rows)@),
        final(rows)@.to_multiset() == old(rows)@.to_multiset(),
{
    rows.sort_by_key(|r| r.id)
}

/// The text of a failure reported by the store.
fn describe(e: &rusqlite::Error) -> String {
    e.to_string()
}

/// A handle on the store of debt records.
pub struct Database {
    conn: Option<rusqlite::Connection>,
    calls: Ghost<Seq<Call>>,
}

impl Database {
    /// Whether the handle holds an open connection.
    pub closed spec fn is_open(&self) -> bool {
        self.conn is Some
    }

    /// The connection the handle holds, if any.
    pub closed spec fn connection(&self) -> Option<rusqlite::Connection> {
        self.conn
    }

    /// Every call this handle has made to SQLite, oldest first.
    pub closed spec fn calls(&self) -> Seq<Call> {
        self.calls@
    }

    /// A handle with no connection yet.
    pub fn new() -> (r: Database)
        ensures
            !r.is_open(),
            r.calls() == Seq::<Call>::empty(),
    {
        Database { conn: None, calls: Ghost(Seq::empty()) }
    }

    /// Runs a statement and logs the call.
    fn exec_logged(&mut self, sql: &str, args: Vec<SqlArg>) -> (r: Result<usize, rusqlite::Error>)
        requires
            old(self).is_open(),
        ensures
            final(self).conn == old(self).conn,
            final(self).calls@ == old(self).calls@.push(Call::Exec(sql@, args_view(args@), r is Ok)),
    {
        let ghost sent = args_view(args@);
        let r = execute_statement(self.get_dbconn(), sql, args);
        self.calls = Ghost(self.calls@.push(Call::Exec(sql@, sent, r is Ok)));
        r
    }

    /// Runs a query and logs the call with the rows it read.
    fn query_logged(&mut self, sql: &str, args: Vec<SqlArg>) -> (r: Result<Vec<DebtRecord>, rusqlite::Error>)
        requires
            old(self).is_open(),
        ensures
            final(self).conn == old(self).conn,
            final(self).calls@ == old(self).calls@.push(Call::Query(sql@, args_view(args@),
                if r is Ok { Some(r->Ok_0@) } else { None })),
    {
        let ghost sent = args_view(args@);
        let r = select_records(self.get_dbconn(), sql, args);
        let ghost read = if r is Ok { Some(r->Ok_0@) } else { None };
        self.calls = Ghost(self.calls@.push(Call::Query(sql@, sent, read)));
        r
    }

    /// Opens the store in `DATABASE_FILE`, creating the file and its table if absent.
    pub fn initialize(&mut self) -> (r: Result<(), StoreError>)
        ensures
            r is Err ==> r->Err_0 is StorageUnavailable,
            old(self).is_open() ==> final(self).is_open(),
            (r is Err && final(self).calls() == old(self).calls().push(Call::Open(DATABASE_FILE@, false)))
                || (final(self).is_open() && final(self).calls() == old(self).calls().push(
                Call::Open(DATABASE_FILE@, true)).push(Call::Exec(CREATE_TABLE@, seq![], r is Ok))),
    {
        self.initialize_at(DATABASE_FILE)
    }

    /// Opens the store at `path` (`":memory:"` for one held in memory), creating
    /// it and its table if absent. Succeeds exactly when both steps do.
    pub fn initialize_at(&mut self, path: &str) -> (r: Result<(), StoreError>)
        ensures
            r is Err ==> r->Err_0 is StorageUnavailable,
            old(self).is_open() ==> final(self).is_open(),
            (r is Err && final(self).calls() == old(self).calls().push(Call::Open(path@, false)))
                || (final(self).is_open() && final(self).calls() == old(self).calls().push(
                Call::Open(path@, true)).push(Call::Exec(CREATE_TABLE@, seq![], r is Ok))),
    {
        match open_connection(path) {
            Ok(c) => {
                self.conn = Some(c);
                self.calls = Ghost(self.calls@.push(Call::Open(path@, true)));
            },
            Err(e) => {
                self.calls = Ghost(self.calls@.push(Call::Open(path@, false)));
                return Err(StoreError::StorageUnavailable(describe(&e)));
            },
        }
        self.create_tables()
    }

    /// Creates the table unless it exists.
    fn create_tables(&mut self) -> (r: Result<(), StoreError>)
        requires
            old(self).is_open(),
        ensures
            final(self).is_open(),
            r is Err ==> r->Err_0 is StorageUnavailable,
            final(self).calls() == old(self).calls().push(Call::Exec(CREATE_TABLE@, seq![], r is Ok)),
    {
        let none: Vec<SqlArg> = Vec::new();
        assert(args_view(none@) =~= seq![]);
        let r = self.exec_logged(CREATE_TABLE, none);
        match r {
            Ok(_) => Ok(()),
            Err(e) => Err(StoreError::StorageUnavailable(describe(&e))),
        }
    }

    /// Drops the table and every row in it.
    fn drop_tables(&mut self) -> (r: Result<(), StoreError>)
        requires
            old(self).is_open(),
        ensures
            final(self).is_open(),
            r is Err ==> r->Err_0 is StorageUnavailable,
            final(self).calls() == old(self).calls().push(Call::Exec(DROP_TABLE@, seq![], r is Ok)),
    {
        let none: Vec<SqlArg> = Vec::new();
        assert(args_view(none@) =~= seq![]);
        let r = self.exec_logged(DROP_TABLE, none);
        match r {
            Ok(_) => Ok(()),
            Err(e) => Err(StoreError::StorageUnavailable(describe(&e))),
        }
    }

    /// The row with the greatest id, which is the one inserted last while no
    /// other process writes to the store.
    fn get_last_entry(&mut self) -> (r: Result<DebtRecord, StoreError>)
        requires
            old(self).is_open(),
        ensures
            final(self).is_open(),
            exists|read: Option<Seq<DebtRecord>>|
                #![trigger old(self).calls().push(Call::Query(SELECT_ALL@, seq![], read))]
                final(self).calls() == old(self).calls().push(Call::Query(SELECT_ALL@, seq![], read))
                && (read is None ==> r is Err && r->Err_0 is StorageUnavailable)
                && (read is Some ==> picks_latest(read->Some_0, r)),
    {
        let none: Vec<SqlArg> = Vec::new();
        assert(args_view(none@) =~= seq![]);
        let q = self.query_logged(SELECT_ALL, none);
        let ghost read = if q is Ok { Some(q->Ok_0@) } else { None };
        let r = match q {
            Ok(rows) => latest_entry(rows),
            Err(e) => Err(StoreError::StorageUnavailable(describe(&e))),
        };
        assert(self.calls() == old(self).calls().push(Call::Query(SELECT_ALL@, seq![], read)));
        r
    }

    /// Inserts a record with the given fields, reads every row back, and
    /// returns the record with the greatest id read, which is the one the
    /// store assigned while no other process writes to it.
    pub fn add_entry(&mut self, creditor: String, debtor: String, amount: i64, description: String) -> (r: Result<DebtRecord, StoreError>)
        requires
            old(self).is_open(),
        ensures
            final(self).is_open(),
            r is Err ==> r->Err_0 is WriteFailed,
            r is Ok ==> r->Ok_0.creditor@ == creditor@ && r->Ok_0.debtor@ == debtor@
                && r->Ok_0.amount == amount && r->Ok_0.description@ == description@,
            (r is Err && final(self).calls() == old(self).calls().push(
                Call::Exec(INSERT_ENTRY@, insert_values(debtor@, creditor@, amount, description@), false)))
            || exists|read: Option<Seq<DebtRecord>>|
                final(self).calls() == old(self).calls().push(
                    Call::Exec(INSERT_ENTRY@, insert_values(debtor@, creditor@, amount, description@), true),
                ).push(Call::Query(SELECT_ALL@, seq![], read))
                && (r is Ok <==> read is Some && read->Some_0.len() > 0)
                && (r is Ok ==> exists|i: int| first_with_max_id(read->Some_0, i)
                    && r->Ok_0.id == read->Some_0[i].id),
    {
        let args = vec![
            SqlArg::Text(debtor.clone()),
            SqlArg::Text(creditor.clone()),
            SqlArg::Int(amount),
            SqlArg::Text(description.clone()),
        ];
        assert(args_view(args@) =~= insert_values(debtor@, creditor@, amount, description@));
        if let Err(e) = self.exec_logged(INSERT_ENTRY, args) {
            return Err(StoreError::WriteFailed(describe(&e)));
        }
        match self.get_last_entry() {
            Ok(last) => Ok(DebtRecord { id: last.id, debtor, creditor, amount, description }),
            Err(StoreError::StorageUnavailable(m)) => Err(StoreError::WriteFailed(m)),
            Err(_) => Err(StoreError::WriteFailed(String::from_str(NOT_READ_BACK))),
        }
    }

    /// Looks up the record with id `index`, then deletes it and returns it.
    /// When the lookup fails its error is returned and nothing is deleted.
    pub fn remove_entry(&mut self, index: i64) -> (r: Result<DebtRecord, StoreError>)
        requires
            old(self).is_open(),
        ensures
            final(self).is_open(),
            exists|read: Option<Seq<DebtRecord>>|
                #![trigger old(self).calls().push(Call::Query(SELECT_BY_ID@, seq![SqlValue::Int(index)], read))]
            {
                let looked = old(self).calls().push(Call::Query(SELECT_BY_ID@, seq![SqlValue::Int(index)], read));
                &&& read is None ==> r is Err && r->Err_0 is StorageUnavailable && final(self).calls() == looked
                &&& read is Some && !has_id(read->Some_0, index) ==> r is Err && r->Err_0 is NotFound
                    && final(self).calls() == looked
                &&& read is Some && has_id(read->Some_0, index) ==> {
                    &&& final(self).calls() == looked.push(Call::Exec(DELETE_ENTRY@, seq![SqlValue::Int(index)], r is Ok))
                    &&& r is Err ==> r->Err_0 is WriteFailed
                    &&& r is Ok ==> exists|i: int| first_with_id(read->Some_0, index, i) && r->Ok_0 == read->Some_0[i]
                }
            },
    {
        let entry = match self.get_entry(index) {
            Ok(entry) => entry,
            Err(e) => {
                return Err(e);
            },
        };
        let args = vec![SqlArg::Int(index)];
        assert(args_view(args@) =~= seq![SqlValue::Int(index)]);
        if let Err(e) = self.exec_logged(DELETE_ENTRY, args) {
            return Err(StoreError::WriteFailed(describe(&e)));
        }
        Ok(entry)
    }

    /// Drops and recreates the table, discarding every record. Succeeds exactly
    /// when both steps do; when the drop succeeds and the creation fails, the
    /// store is left without a table.
    pub fn reset_database(&mut self) -> (r: Result<(), StoreError>)
        requires
            old(self).is_open(),
        ensures
            final(self).is_open(),
            r is Err ==> r->Err_0 is StorageUnavailable,
            (r is Err && final(self).calls() == old(self).calls().push(Call::Exec(DROP_TABLE@, seq![], false)))
                || final(self).calls() == old(self).calls().push(Call::Exec(DROP_TABLE@, seq![], true)).push(
                Call::Exec(CREATE_TABLE@, seq![], r is Ok)),
    {
        self.drop_tables()?;
        self.create_tables()
    }

    /// Every record, in ascending order of id: the rows read, sorted by id.
    /// An empty table gives an empty list.
    pub fn get_entries(&mut self) -> (r: Result<Vec<DebtRecord>, StoreError>)
        requires
            old(self).is_open(),
        ensures
            final(self).is_open(),
            exists|read: Option<Seq<DebtRecord>>|
                #![trigger old(self).calls().push(Call::Query(SELECT_ALL@, seq![], read))]
                final(self).calls() == old(self).calls().push(Call::Query(SELECT_ALL@, seq![], read))
                && (r is Ok <==> read is Some)
                && (r is Err ==> r->Err_0 is StorageUnavailable)
                && (r is Ok ==> r->Ok_0@.to_multiset() == read->Some_0.to_multiset()
                    && ascending_or_equal(r->Ok_0@)),
    {
        let none: Vec<SqlArg> = Vec::new();
        assert(args_view(none@) =~= seq![]);
        let q = self.query_logged(SELECT_ALL, none);
        let ghost read = if q is Ok { Some(q->Ok_0@) } else { None };
        assert(self.calls() == old(self).calls().push(Call::Query(SELECT_ALL@, seq![], read)));
        match q {
            Ok(rows) => {
                let mut rows = rows;
                sort_by_id(&mut rows);
                Ok(rows)
            },
            Err(e) => Err(StoreError::StorageUnavailable(describe(&e))),
        }
    }

    /// The record with id `index`: the first row with that id among those the
    /// lookup read, or `NotFound` when there is none.
    pub fn get_entry(&mut self, index: i64) -> (r: Result<DebtRecord, StoreError>)
        requires
            old(self).is_open(),
        ensures
            final(self).is_open(),
            exists|read: Option<Seq<DebtRecord>>|
                #![trigger old(self).calls().push(Call::Query(SELECT_BY_ID@, seq![SqlValue::Int(index)], read))]
                final(self).calls() == old(self).calls().push(
                    Call::Query(SELECT_BY_ID@, seq![SqlValue::Int(index)], read))
                && (read is None ==> r is Err && r->Err_0 is StorageUnavailable)
                && (read is Some ==> picks_entry(read->Some_0, index, r)),
    {
        let args = vec![SqlArg::Int(index)];
        assert(args_view(args@) =~= seq![SqlValue::Int(index)]);
        let q = self.query_logged(SELECT_BY_ID, args);
        let ghost read = if q is Ok { Some(q->Ok_0@) } else { None };
        assert(self.calls() == old(self).calls().push(
            Call::Query(SELECT_BY_ID@, seq![SqlValue::Int(index)], read)));
        match q {
            Ok(rows) => entry_with_id(rows, index),
            Err(e) => Err(StoreError::StorageUnavailable(describe(&e))),
        }
    }

    /// Returns the underlying connection, for work the handle does not offer.
    pub fn get_dbconn(&mut self) -> (r: &rusqlite::Connection)
        requires
            old(self).is_open(),
        ensures
            *final(self) == *old(self),
            old(self).connection() == Some(*r),
    {
        self.conn.as_ref().unwrap()
    }
}

} // verus!
