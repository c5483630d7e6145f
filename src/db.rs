use vstd::prelude::*;

use crate::error::Error;
use crate::page::{effective_page_size, plan_page, spec_has_more};
use crate::report::{
    column_infos, count_u32, database_info, paginated_result, query_result, rows_fit, table_info,
    table_names, DatabaseInfo, Fetched, PaginatedQueryResult, QueryResultWithColumns, TableInfo,
    PREVIEW_ROWS,
};
use crate::sql::{preview_sql, table_count_sql, table_info_sql};
use crate::value::{decimal_nat, push_decimal, Value};
use crate::chars::string_of;
use rusqlite::types::Value as SqliteValue;
use rusqlite::types::ValueRef;
use rusqlite::Connection;
use rusqlite::Error as SqliteError;

verus! {

#[verifier::external_type_specification]
#[verifier::external_body]
pub struct ExConnection(Connection);

#[verifier::external_type_specification]
#[verifier::external_body]
pub struct ExSqliteError(SqliteError);

#[verifier::external_type_specification]
#[verifier::external_body]
pub struct ExSqliteValue(SqliteValue);

/// Relies on rusqlite's `Connection::execute`: runs one statement without
/// parameters and returns the number of rows it changed.
#[verifier::external_body]
fn run_statement(conn: &Connection, sql: &str) -> (r: Result<usize, SqliteError>) {
    conn.execute(sql, [])
}

/// Relies on rusqlite's `Connection::query_row`: runs a statement and reads
/// the first column of its first row as a non-negative integer.
#[verifier::external_body]
fn count_of(conn: &Connection, sql: &str) -> (r: Result<u64, SqliteError>) {
    conn.query_row(sql, [], |row| row.get(0))
}

/// Relies on rusqlite's `Connection::pragma_query_value`: reads a pragma of
/// the main database as a non-negative integer.
#[verifier::external_body]
fn pragma_of(conn: &Connection, name: &str) -> (r: Result<u64, SqliteError>) {
    conn.pragma_query_value(None, name, |row| row.get(0))
}

/// Relies on rusqlite's `Value`: tells its five storage classes apart; a
/// float is rendered by its `Display`.
#[verifier::external_body]
fn cell_of(v: &SqliteValue) -> Value {
    match v {
        SqliteValue::Null => Value::Null,
        SqliteValue::Integer(i) => Value::Integer(*i),
        SqliteValue::Real(x) => Value::Real(x.to_string()),
        SqliteValue::Text(t) => Value::Text(t.clone()),
        SqliteValue::Blob(b) => Value::Blob(b.clone()),
    }
}

/// Relies on `rusqlite::Connection::prepare`, `Statement::column_names`,
/// `Statement::query_map` and `Row::get_ref`: the column names of a
/// statement and all its rows, each read as one value per column. Text that
/// is not UTF-8 is rusqlite's `Utf8Error`; the first failing row fails the
/// whole.
#[verifier::external_body]
fn fetch_raw(conn: &Connection, sql: &str) -> (r: Result<
    (Vec<String>, Vec<Vec<SqliteValue>>),
    SqliteError,
>)
    ensures
        r is Ok ==> forall|i: int|
            0 <= i < r->Ok_0.1@.len() ==> #[trigger] r->Ok_0.1@[i]@.len() == r->Ok_0.0@.len(),
{
    let mut stmt = conn.prepare(sql)?;
    let columns: Vec<String> = stmt.column_names().into_iter().map(String::from).collect();
    let n = columns.len();
    let mapped = stmt.query_map([], |row| {
        (0..n).map(|i| match row.get_ref(i)? {
            ValueRef::Text(t) => Ok(SqliteValue::Text(std::str::from_utf8(t)?.to_owned())),
            v => Ok(SqliteValue::from(v)),
        }).collect()
    })?;
    let rows = mapped.collect::<Result<Vec<Vec<SqliteValue>>, SqliteError>>()?;
    Ok((columns, rows))
}

/// Runs a statement and reads its column names and all its rows.
fn fetch(conn: &Connection, sql: &str) -> (r: Result<Fetched, SqliteError>)
    ensures
        r is Ok ==> r->Ok_0.well_formed(),
{
    let (columns, raw) = match fetch_raw(conn, sql) {
        Ok(f) => f,
        Err(e) => return Err(e),
    };
    let mut rows: Vec<Vec<Value>> = Vec::new();
    let mut i: usize = 0;
    while i < raw.len()
        invariant
            i <= raw@.len(),
            rows@.len() == i,
            forall|a: int| 0 <= a < raw@.len() ==> #[trigger] raw@[a]@.len() == columns@.len(),
            forall|a: int| 0 <= a < i ==> #[trigger] rows@[a]@.len() == columns@.len(),
        decreases raw@.len() - i,
    {
        let src = &raw[i];
        let mut cells: Vec<Value> = Vec::new();
        let mut j: usize = 0;
        while j < src.len()
            invariant
                j <= src@.len(),
                cells@.len() == j,
            decreases src@.len() - j,
        {
            cells.push(cell_of(&src[j]));
            j = j + 1;
        }
        rows.push(cells);
        i = i + 1;
    }
    Ok(Fetched { columns, rows })
}

/// Relies on the `Debug` that `SqliteError` derives, which always
/// writes at least the variant's name.
#[verifier::external_body]
fn describe(e: &SqliteError) -> (r: String)
    ensures
        r@.len() > 0,
{
    format!("{:?}", e)
}

/// The failure for an engine error, with its description.
fn failed(e: &SqliteError) -> (r: Error)
    ensures
        r.is_described_failure(),
{
    Error::OperationFailed { message: describe(e) }
}

/// Runs a statement that changes the database and returns the number of
/// rows it changed, in decimal.
pub fn execute(conn: &Connection, sql: &str) -> (r: Result<String, Error>)
    ensures
        r is Ok ==> exists|n: nat| r->Ok_0@ == decimal_nat(n),
        r is Err ==> r->Err_0.is_described_failure(),
{
    match run_statement(conn, sql) {
        Ok(n) => {
            let mut out: Vec<char> = Vec::new();
            push_decimal(n as u64, &mut out);
            assert(out@ == decimal_nat(n as nat));
            Ok(string_of(&out))
        },
        Err(e) => Err(failed(&e)),
    }
}

/// Runs a statement that reads, and returns its columns and every row as
/// canonical text; a failure on any row returns no rows at all.
pub fn query(conn: &Connection, sql: &str) -> (r: Result<QueryResultWithColumns, Error>)
    ensures
        r is Ok ==> rows_fit(r->Ok_0.columns@, r->Ok_0.data@),
        r is Err ==> r->Err_0.is_described_failure(),
{
    match fetch(conn, sql) {
        Ok(f) => Ok(query_result(f)),
        Err(e) => Err(failed(&e)),
    }
}

/// Serves one page of a statement that reads: counts the rows of the whole
/// statement, then reads the window of the validated page size at
/// `page * size`.
pub fn execute_paginated_query(
    conn: &Connection,
    sql: &str,
    page: u32,
    page_size: u32,
) -> (r: Result<PaginatedQueryResult, Error>)
    ensures
        r is Ok ==> ({
            let p = r->Ok_0;
            &&& p.page == page
            &&& p.page_size == effective_page_size(page_size)
            &&& p.has_more == spec_has_more(
                page as int * effective_page_size(page_size) as int,
                effective_page_size(page_size) as int,
                p.total_count as int,
            )
            &&& rows_fit(p.columns@, p.data@)
        }),
        r is Err ==> r->Err_0.is_described_failure(),
{
    let plan = plan_page(sql, page, page_size);
    let total_count = match count_of(conn, plan.count_sql.as_str()) {
        Ok(c) => c,
        Err(e) => return Err(failed(&e)),
    };
    match fetch(conn, plan.page_sql.as_str()) {
        Ok(f) => Ok(paginated_result(f, total_count, page, plan.page_size, plan.offset)),
        Err(e) => Err(failed(&e)),
    }
}

/// Serves one page of a statement that reads.
pub fn query_paginated(
    conn: &Connection,
    sql: &str,
    page: u32,
    page_size: u32,
) -> (r: Result<PaginatedQueryResult, Error>)
    ensures
        r is Ok ==> ({
            let p = r->Ok_0;
            &&& p.page == page
            &&& p.page_size == effective_page_size(page_size)
            &&& p.has_more == spec_has_more(
                page as int * effective_page_size(page_size) as int,
                effective_page_size(page_size) as int,
                p.total_count as int,
            )
            &&& rows_fit(p.columns@, p.data@)
        }),
        r is Err ==> r->Err_0.is_described_failure(),
{
    execute_paginated_query(conn, sql, page, page_size)
}

/// Serves one page of a statement that reads, from a call that may write;
/// it behaves as `query_paginated`.
pub fn query_paginated_update(
    conn: &Connection,
    sql: &str,
    page: u32,
    page_size: u32,
) -> (r: Result<PaginatedQueryResult, Error>)
    ensures
        r is Ok ==> ({
            let p = r->Ok_0;
            &&& p.page == page
            &&& p.page_size == effective_page_size(page_size)
            &&& p.has_more == spec_has_more(
                page as int * effective_page_size(page_size) as int,
                effective_page_size(page_size) as int,
                p.total_count as int,
            )
            &&& rows_fit(p.columns@, p.data@)
        }),
        r is Err ==> r->Err_0.is_described_failure(),
{
    execute_paginated_query(conn, sql, page, page_size)
}

/// The statement that lists the user tables, leaving out the engine's own.
pub const TABLE_LIST_SQL: &'static str =
    "SELECT name FROM sqlite_master WHERE type='table' AND name NOT LIKE 'sqlite_%'";

/// Describes one table: its row count and columns, which must be read, and
/// its preview, which is left empty where it cannot be read.
fn describe_table(conn: &Connection, name: &String) -> (r: Result<TableInfo, Error>)
    ensures
        r is Ok ==> ({
            let t = r->Ok_0;
            &&& t.table_name@ == name@
            &&& t.column_count == count_u32(t.schema@.len())
            &&& t.preview_data@.len() <= PREVIEW_ROWS
            &&& forall|j: int|
                0 <= j < t.preview_data@.len() ==> #[trigger] t.preview_data@[j]@.len()
                    == t.schema@.len()
        }),
        r is Err ==> r->Err_0.is_described_failure(),
{
    let row_count = match count_of(conn, table_count_sql(name.as_str()).as_str()) {
        Ok(c) => c,
        Err(e) => return Err(failed(&e)),
    };
    let described = match fetch(conn, table_info_sql(name.as_str()).as_str()) {
        Ok(f) => f,
        Err(e) => return Err(failed(&e)),
    };
    let schema = match column_infos(&described.rows) {
        Ok(s) => s,
        Err(e) => return Err(e),
    };
    let preview = match fetch(conn, preview_sql(name.as_str()).as_str()) {
        Ok(f) => Some(f),
        Err(_) => None,
    };
    Ok(table_info(name.clone(), row_count, schema, preview))
}

/// Describes the database: its page count and page size, and each user
/// table in catalog order.
pub fn get_database_info(conn: &Connection) -> (r: Result<DatabaseInfo, Error>)
    ensures
        r is Ok ==> ({
            let info = r->Ok_0;
            &&& info.total_tables == count_u32(info.tables@.len())
            &&& forall|i: int|
                0 <= i < info.tables@.len() ==> #[trigger] info.tables@[i].column_count
                    == count_u32(info.tables@[i].schema@.len())
            &&& forall|i: int|
                0 <= i < info.tables@.len() ==> #[trigger] info.tables@[i].preview_data@.len()
                    <= PREVIEW_ROWS
            &&& forall|i: int, j: int|
                0 <= i < info.tables@.len() && 0 <= j < info.tables@[i].preview_data@.len()
                    ==> #[trigger] info.tables@[i].preview_data@[j]@.len()
                    == info.tables@[i].schema@.len()
        }),
        r is Err ==> r->Err_0.is_described_failure(),
{
    let page_count = match pragma_of(conn, "page_count") {
        Ok(c) => c,
        Err(e) => return Err(failed(&e)),
    };
    let page_size = match pragma_of(conn, "page_size") {
        Ok(c) => c,
        Err(e) => return Err(failed(&e)),
    };
    let listed = match fetch(conn, TABLE_LIST_SQL) {
        Ok(f) => f,
        Err(e) => return Err(failed(&e)),
    };
    let names = match table_names(&listed.rows) {
        Ok(n) => n,
        Err(e) => return Err(e),
    };
    let mut tables: Vec<TableInfo> = Vec::new();
    let mut i: usize = 0;
    while i < names.len()
        invariant
            i <= names@.len(),
            tables@.len() == i,
            forall|a: int| 0 <= a < i ==> #[trigger] tables@[a].table_name@ == names@[a]@,
            forall|a: int|
                0 <= a < i ==> #[trigger] tables@[a].column_count == count_u32(
                    tables@[a].schema@.len(),
                ),
            forall|a: int| 0 <= a < i ==> #[trigger] tables@[a].preview_data@.len() <= PREVIEW_ROWS,
            forall|a: int, j: int|
                0 <= a < i && 0 <= j < tables@[a].preview_data@.len()
                    ==> #[trigger] tables@[a].preview_data@[j]@.len() == tables@[a].schema@.len(),
        decreases names@.len() - i,
    {
        match describe_table(conn, &names[i]) {
            Ok(t) => tables.push(t),
            Err(e) => return Err(e),
        }
        i = i + 1;
    }
    Ok(database_info(page_count, page_size, tables))
}

} // verus!
