use vstd::prelude::*;

use crate::error::Error;
use crate::page::{effective_page_size, has_more, spec_has_more};
use crate::value::{encode_rows, encoded, Value};

verus! {

/// Column names and rows of cells, as read from the engine.
pub struct Fetched {
    pub columns: Vec<String>,
    pub rows: Vec<Vec<Value>>,
}

impl Fetched {
    /// Every row has one cell per column.
    pub open spec fn well_formed(&self) -> bool {
        forall|i: int|
            0 <= i < self.rows@.len() ==> #[trigger] self.rows@[i]@.len() == self.columns@.len()
    }
}

/// Rows encoded as canonical text, row for row and cell for cell.
pub open spec fn encodes_rows(out: Seq<Vec<String>>, rows: Seq<Vec<Value>>) -> bool {
    &&& out.len() == rows.len()
    &&& forall|i: int| 0 <= i < rows.len() ==> #[trigger] out[i]@.len() == rows[i]@.len()
    &&& forall|i: int, j: int|
        0 <= i < rows.len() && 0 <= j < rows[i]@.len() ==> #[trigger] out[i]@[j]@ == encoded(
            rows[i]@[j],
        )
}

/// Every row has one entry per column.
pub open spec fn rows_fit(columns: Seq<String>, rows: Seq<Vec<String>>) -> bool {
    forall|i: int| 0 <= i < rows.len() ==> #[trigger] rows[i]@.len() == columns.len()
}

/// The result of a query: column names in statement order and every row as
/// canonical text.
pub struct QueryResultWithColumns {
    pub columns: Vec<String>,
    pub data: Vec<Vec<String>>,
}

/// One page of the result of a query.
pub struct PaginatedQueryResult {
    pub columns: Vec<String>,
    pub data: Vec<Vec<String>>,
    /// The number of rows of the whole query.
    pub total_count: u64,
    pub page: u32,
    /// The page size served, after validation.
    pub page_size: u32,
    /// Whether rows remain after this page.
    pub has_more: bool,
}

/// The description of one column of a table.
pub struct ColumnInfo {
    pub name: String,
    /// The declared type, as the engine reports it.
    pub data_type: String,
    pub not_null: bool,
    pub primary_key: bool,
}

/// The description of one table.
pub struct TableInfo {
    pub table_name: String,
    pub row_count: u64,
    pub column_count: u32,
    pub schema: Vec<ColumnInfo>,
    /// Up to the first ten rows, as canonical text; empty where they could
    /// not be read.
    pub preview_data: Vec<Vec<String>>,
}

/// The description of a database.
pub struct DatabaseInfo {
    pub total_tables: u32,
    /// The number of pages of the database file.
    pub page_count: u64,
    /// The size in bytes of one page.
    pub page_size: u64,
    pub tables: Vec<TableInfo>,
}

impl DatabaseInfo {
    /// The size in bytes of the database file.
    pub open spec fn size_bytes(&self) -> int {
        self.page_count as int * self.page_size as int
    }
}

/// A count that fits in 32 bits, or the largest such value.
pub open spec fn count_u32(n: nat) -> u32 {
    if n > u32::MAX {
        u32::MAX
    } else {
        n as u32
    }
}

/// A length as a 32-bit count, saturating at the largest such value.
pub fn to_count(n: usize) -> (r: u32)
    ensures
        r == count_u32(n as nat),
{
    if n > u32::MAX as usize {
        u32::MAX
    } else {
        n as u32
    }
}

/// The result of a query from what the engine returned: the columns as they
/// are and every cell encoded.
pub fn query_result(fetched: Fetched) -> (r: QueryResultWithColumns)
    ensures
        r.columns@ == fetched.columns@,
        encodes_rows(r.data@, fetched.rows@),
        fetched.well_formed() ==> rows_fit(r.columns@, r.data@),
{
    let data = encode_rows(&fetched.rows);
    QueryResultWithColumns { columns: fetched.columns, data }
}

/// The first `n` rows, or all of them where there are fewer.
pub open spec fn first_rows<T>(rows: Seq<T>, n: nat) -> Seq<T> {
    if n < rows.len() {
        rows.subrange(0, n as int)
    } else {
        rows
    }
}

/// One page from what the engine returned for its window and the total row
/// count of the whole query; a page never holds more rows than its size.
pub fn paginated_result(
    fetched: Fetched,
    total_count: u64,
    page: u32,
    page_size: u32,
    offset: u64,
) -> (r: PaginatedQueryResult)
    ensures
        r.columns@ == fetched.columns@,
        encodes_rows(r.data@, first_rows(fetched.rows@, page_size as nat)),
        r.data@.len() <= page_size,
        fetched.well_formed() ==> rows_fit(r.columns@, r.data@),
        r.total_count == total_count,
        r.page == page,
        r.page_size == page_size,
        r.has_more == spec_has_more(offset as int, page_size as int, total_count as int),
{
    let mut rows = fetched.rows;
    rows.truncate(page_size as usize);
    let data = encode_rows(&rows);
    let more = has_more(offset, page_size, total_count);
    PaginatedQueryResult {
        columns: fetched.columns,
        data,
        total_count,
        page,
        page_size,
        has_more: more,
    }
}

/// The failure for a value that has not the storage class expected.
fn unexpected_value(what: &str) -> (r: Error)
    requires
        what@.len() > 0,
    ensures
        r.is_described_failure(),
{
    Error::OperationFailed { message: String::from_str(what) }
}

/// The names of the tables from the rows of the catalog query, whose first
/// cell is the name.
pub fn table_names(rows: &Vec<Vec<Value>>) -> (r: Result<Vec<String>, Error>)
    ensures
        (forall|i: int|
            0 <= i < rows@.len() ==> #[trigger] rows@[i]@.len() > 0 && rows@[i]@[0] is Text)
            <==> r is Ok,
        r is Ok ==> r->Ok_0@.len() == rows@.len() && forall|i: int|
            0 <= i < rows@.len() ==> #[trigger] r->Ok_0@[i]@ == rows@[i]@[0]->Text_0@,
        r is Err ==> r->Err_0.is_described_failure(),
{
    let mut out: Vec<String> = Vec::new();
    let mut i: usize = 0;
    while i < rows.len()
        invariant
            i <= rows@.len(),
            out@.len() == i,
            forall|a: int| 0 <= a < i ==> #[trigger] rows@[a]@.len() > 0 && rows@[a]@[0] is Text,
            forall|a: int| 0 <= a < i ==> #[trigger] out@[a]@ == rows@[a]@[0]->Text_0@,
        decreases rows@.len() - i,
    {
        let row = &rows[i];
        if row.len() == 0 {
            proof {
                reveal_strlit("table name missing");
            }
            return Err(unexpected_value("table name missing"));
        }
        match &row[0] {
            Value::Text(t) => out.push(t.clone()),
            _ => {
                proof {
                    reveal_strlit("table name is not text");
                }
                return Err(unexpected_value("table name is not text"));
            },
        }
        i = i + 1;
    }
    Ok(out)
}

/// Whether a row of `PRAGMA table_info` has the shape that is read: the
/// name and declared type as text, the not-null and primary-key flags as
/// integers.
pub open spec fn is_column_row(row: Seq<Value>) -> bool {
    row.len() >= 6 && row[1] is Text && row[2] is Text && row[3] is Integer && row[5] is Integer
}

/// The column described by a row of `PRAGMA table_info`.
pub open spec fn column_of(row: Seq<Value>, c: ColumnInfo) -> bool {
    &&& c.name@ == row[1]->Text_0@
    &&& c.data_type@ == row[2]->Text_0@
    &&& c.not_null == (row[3]->Integer_0 != 0)
    &&& c.primary_key == (row[5]->Integer_0 != 0)
}

/// The columns of a table from the rows of `PRAGMA table_info`, in order.
pub fn column_infos(rows: &Vec<Vec<Value>>) -> (r: Result<Vec<ColumnInfo>, Error>)
    ensures
        (forall|i: int| 0 <= i < rows@.len() ==> #[trigger] is_column_row(rows@[i]@))
            <==> r is Ok,
        r is Ok ==> r->Ok_0@.len() == rows@.len() && forall|i: int|
            0 <= i < rows@.len() ==> #[trigger] column_of(rows@[i]@, r->Ok_0@[i]),
        r is Err ==> r->Err_0.is_described_failure(),
{
    let mut out: Vec<ColumnInfo> = Vec::new();
    let mut i: usize = 0;
    while i < rows.len()
        invariant
            i <= rows@.len(),
            out@.len() == i,
            forall|a: int| 0 <= a < i ==> #[trigger] is_column_row(rows@[a]@),
            forall|a: int| 0 <= a < i ==> #[trigger] column_of(rows@[a]@, out@[a]),
        decreases rows@.len() - i,
    {
        let row = &rows[i];
        if row.len() < 6 {
            assert(!is_column_row(rows@[i as int]@));
            proof {
                reveal_strlit("column description is too short");
            }
            return Err(unexpected_value("column description is too short"));
        }
        match (&row[1], &row[2], &row[3], &row[5]) {
            (Value::Text(name), Value::Text(data_type), Value::Integer(nn), Value::Integer(pk)) => {
                out.push(
                    ColumnInfo {
                        name: name.clone(),
                        data_type: data_type.clone(),
                        not_null: *nn != 0,
                        primary_key: *pk != 0,
                    },
                );
            },
            _ => {
                assert(!is_column_row(rows@[i as int]@));
                proof {
                    reveal_strlit("column description has an unexpected value");
                }
                return Err(unexpected_value("column description has an unexpected value"));
            },
        }
        i = i + 1;
    }
    Ok(out)
}

/// The largest number of rows in a table's preview.
pub const PREVIEW_ROWS: usize = 10;

/// Whether preview rows read from the engine can stand for a table with
/// `width` columns: one value per column in each row.
pub open spec fn preview_fits(f: Fetched, width: nat) -> bool {
    f.columns@.len() == width
}

/// The description of a table from its name, its row count, its columns and
/// its preview rows, if they could be read. The preview holds at most the
/// first ten of them; where they could not be read, or do not have one value
/// per column of the table, it is empty.
pub fn table_info(
    table_name: String,
    row_count: u64,
    schema: Vec<ColumnInfo>,
    preview: Option<Fetched>,
) -> (r: TableInfo)
    requires
        preview matches Some(f) ==> f.well_formed(),
    ensures
        r.table_name@ == table_name@,
        r.row_count == row_count,
        r.column_count == count_u32(schema@.len()),
        r.schema@ == schema@,
        match preview {
            Some(f) => if preview_fits(f, schema@.len()) {
                encodes_rows(r.preview_data@, first_rows(f.rows@, PREVIEW_ROWS as nat))
            } else {
                r.preview_data@.len() == 0
            },
            None => r.preview_data@.len() == 0,
        },
        r.preview_data@.len() <= PREVIEW_ROWS,
        forall|i: int|
            0 <= i < r.preview_data@.len() ==> #[trigger] r.preview_data@[i]@.len()
                == schema@.len(),
{
    let column_count = to_count(schema.len());
    let preview_data = match preview {
        Some(f) => {
            if f.columns.len() == schema.len() {
                let mut rows = f.rows;
                rows.truncate(PREVIEW_ROWS);
                encode_rows(&rows)
            } else {
                Vec::new()
            }
        },
        None => Vec::new(),
    };
    TableInfo { table_name, row_count, column_count, schema, preview_data }
}

/// The description of a database from its page count, its page size and
/// the descriptions of its tables.
pub fn database_info(page_count: u64, page_size: u64, tables: Vec<TableInfo>) -> (r: DatabaseInfo)
    ensures
        r.total_tables == count_u32(tables@.len()),
        r.page_count == page_count,
        r.page_size == page_size,
        r.tables@ == tables@,
{
    let total_tables = to_count(tables.len());
    DatabaseInfo { total_tables, page_count, page_size, tables }
}

} // verus!
