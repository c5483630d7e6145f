use backend::db::{execute, get_database_info, query, query_paginated, query_paginated_update};
use backend::error::{Error, Rejection};
use backend::report::{paginated_result, table_info, ColumnInfo, Fetched};
use backend::value::Value;
use rusqlite::Connection;

fn three_rows() -> Connection {
    let conn = Connection::open_in_memory().unwrap();
    execute(&conn, "CREATE TABLE t(id INTEGER PRIMARY KEY, name TEXT)").ok().unwrap();
    execute(&conn, "INSERT INTO t VALUES (1, 'a'), (2, 'b'), (3, 'c')").ok().unwrap();
    conn
}

fn numbers(n: i64) -> Connection {
    let conn = Connection::open_in_memory().unwrap();
    execute(&conn, "CREATE TABLE n(v INTEGER)").ok().unwrap();
    for i in 0..n {
        execute(&conn, &format!("INSERT INTO n VALUES ({})", i)).ok().unwrap();
    }
    conn
}

fn strings(v: &[&str]) -> Vec<String> {
    v.iter().map(|s| s.to_string()).collect()
}

#[test]
fn first_and_second_page() {
    let conn = three_rows();
    let first = query_paginated(&conn, "SELECT * FROM t", 0, 2).ok().unwrap();
    assert_eq!(first.columns, strings(&["id", "name"]));
    assert_eq!(first.data, vec![strings(&["1", "a"]), strings(&["2", "b"])]);
    assert_eq!(first.total_count, 3);
    assert_eq!(first.page, 0);
    assert_eq!(first.page_size, 2);
    assert!(first.has_more);
    let second = query_paginated(&conn, "SELECT * FROM t", 1, 2).ok().unwrap();
    assert_eq!(second.data, vec![strings(&["3", "c"])]);
    assert!(!second.has_more);
}

#[test]
fn database_info_of_one_table() {
    let conn = three_rows();
    let info = get_database_info(&conn).ok().unwrap();
    assert_eq!(info.total_tables, 1);
    assert_eq!(info.tables.len(), 1);
    let t = &info.tables[0];
    assert_eq!(t.table_name, "t");
    assert_eq!(t.row_count, 3);
    assert_eq!(t.column_count, 2);
    assert!(t.schema[0].primary_key);
    assert_eq!(t.schema[0].name, "id");
    assert_eq!(t.schema[0].data_type, "INTEGER");
    assert!(!t.schema[1].primary_key);
    assert_eq!(t.schema[1].data_type, "TEXT");
    assert_eq!(t.preview_data, vec![strings(&["1", "a"]), strings(&["2", "b"]), strings(&["3", "c"])]);
    assert!(info.page_count > 0);
    assert!(info.page_size > 0);
}

#[test]
fn missing_table_fails() {
    let conn = three_rows();
    match execute(&conn, "DROP TABLE missing") {
        Err(Error::OperationFailed { message }) => assert!(!message.is_empty()),
        _ => panic!("dropping a missing table must fail"),
    }
    match query(&conn, "SELECT * FROM missing") {
        Err(Error::OperationFailed { message }) => assert!(!message.is_empty()),
        _ => panic!("reading a missing table must fail"),
    }
}

#[test]
fn execute_reports_changed_rows() {
    let conn = three_rows();
    assert_eq!(execute(&conn, "UPDATE t SET name = 'z' WHERE id > 1").ok().unwrap(), "2");
    assert_eq!(execute(&conn, "DELETE FROM t WHERE id = 99").ok().unwrap(), "0");
}

#[test]
fn query_encodes_every_class() {
    let conn = Connection::open_in_memory().unwrap();
    let r = query(&conn, "SELECT NULL, -5, 'x', X'00FF10', 1.5").ok().unwrap();
    assert_eq!(r.columns.len(), 5);
    assert_eq!(r.data, vec![strings(&["", "-5", "x", "00ff10", "1.5"])]);
}

#[test]
fn reals_read_back_exactly() {
    let conn = Connection::open_in_memory().unwrap();
    execute(&conn, "CREATE TABLE f(x REAL)").ok().unwrap();
    let values = [0.1f64, -2.5, 1e300, 5e-324, 0.0, 123456.789, f64::INFINITY, f64::NEG_INFINITY];
    for x in values {
        conn.execute("INSERT INTO f VALUES (?1)", [x]).unwrap();
    }
    let r = query(&conn, "SELECT x FROM f").ok().unwrap();
    assert_eq!(r.data.len(), values.len());
    for (row, x) in r.data.iter().zip(values) {
        assert_eq!(row[0].parse::<f64>().unwrap().to_bits(), x.to_bits());
    }
}

#[test]
fn total_count_is_the_same_on_every_page() {
    let conn = numbers(23);
    for (page, size) in [(0u32, 5u32), (1, 5), (4, 5), (9, 5), (0, 0), (2, 7), (0, 5000)] {
        let p = query_paginated(&conn, "SELECT v FROM n", page, size).ok().unwrap();
        assert_eq!(p.total_count, 23);
    }
}

#[test]
fn pages_cover_all_rows_in_order() {
    let conn = numbers(20);
    let all = query(&conn, "SELECT v FROM n").ok().unwrap().data;
    let mut joined: Vec<Vec<String>> = Vec::new();
    for page in 0..4u32 {
        let p = query_paginated(&conn, "SELECT v FROM n", page, 5).ok().unwrap();
        assert_eq!(p.data.len(), 5);
        joined.extend(p.data);
    }
    assert_eq!(joined, all);
}

#[test]
fn has_more_boundary_on_a_table() {
    let conn = numbers(20);
    let last = query_paginated(&conn, "SELECT v FROM n", 3, 5).ok().unwrap();
    assert_eq!(last.data.len(), 5);
    assert!(!last.has_more);
    let before = query_paginated(&conn, "SELECT v FROM n", 2, 5).ok().unwrap();
    assert!(before.has_more);
    let past = query_paginated(&conn, "SELECT v FROM n", 4, 5).ok().unwrap();
    assert!(past.data.is_empty());
    assert!(!past.has_more);
}

#[test]
fn embedded_order_is_kept() {
    let conn = numbers(10);
    let p = query_paginated(&conn, "SELECT v FROM n ORDER BY v DESC;", 1, 3).ok().unwrap();
    assert_eq!(p.data, vec![strings(&["6"]), strings(&["5"]), strings(&["4"])]);
    assert_eq!(p.total_count, 10);
    let q = query_paginated_update(&conn, "SELECT v FROM n LIMIT 4", 1, 3).ok().unwrap();
    assert_eq!(q.data, vec![strings(&["3"])]);
    assert_eq!(q.total_count, 4);
    assert!(!q.has_more);
}

#[test]
fn default_page_size_applies() {
    let conn = numbers(150);
    let p = query_paginated(&conn, "SELECT v FROM n", 0, 0).ok().unwrap();
    assert_eq!(p.page_size, 100);
    assert_eq!(p.data.len(), 100);
    assert!(p.has_more);
}

#[test]
fn paginating_a_bad_statement_fails() {
    let conn = three_rows();
    assert!(matches!(query_paginated(&conn, "SELECT * FROM missing", 0, 10), Err(Error::OperationFailed { .. })));
}

#[test]
fn database_info_without_tables() {
    let conn = Connection::open_in_memory().unwrap();
    let info = get_database_info(&conn).ok().unwrap();
    assert_eq!(info.total_tables, 0);
    assert!(info.tables.is_empty());
}

#[test]
fn preview_holds_at_most_ten_rows() {
    let conn = numbers(12);
    let info = get_database_info(&conn).ok().unwrap();
    assert_eq!(info.tables[0].row_count, 12);
    assert_eq!(info.tables[0].preview_data.len(), 10);
    assert_eq!(info.tables[0].preview_data[9], strings(&["9"]));
}

#[test]
fn rejection_maps_to_errors() {
    match Error::from_rejection(Rejection::CanisterError, "boom".to_string()) {
        Error::OperationFailed { message } => assert_eq!(message, "boom"),
        _ => panic!("a failure of the callee keeps its message"),
    }
    assert!(matches!(Error::from_rejection(Rejection::SysFatal, "x".to_string()), Error::InvalidConnection));
    assert_eq!(Error::InvalidConnection.message(), "");
}

#[test]
fn value_cells_from_the_engine() {
    let conn = Connection::open_in_memory().unwrap();
    let r = query(&conn, "SELECT 42 AS answer").ok().unwrap();
    assert_eq!(r.columns, strings(&["answer"]));
    assert_eq!(r.data, vec![strings(&["42"])]);
}

#[test]
fn text_that_is_not_utf8_fails_a_query() {
    let conn = Connection::open_in_memory().unwrap();
    match query(&conn, "SELECT CAST(X'FF' AS TEXT)") {
        Err(Error::OperationFailed { message }) => assert!(!message.is_empty()),
        _ => panic!("text that is not UTF-8 must fail the read"),
    }
    assert!(matches!(
        query_paginated(&conn, "SELECT CAST(X'FF' AS TEXT)", 0, 10),
        Err(Error::OperationFailed { .. })
    ));
}

#[test]
fn text_that_is_not_utf8_leaves_the_preview_empty() {
    let conn = Connection::open_in_memory().unwrap();
    execute(&conn, "CREATE TABLE b(x TEXT)").ok().unwrap();
    execute(&conn, "INSERT INTO b VALUES (CAST(X'FF' AS TEXT))").ok().unwrap();
    let info = get_database_info(&conn).ok().unwrap();
    assert_eq!(info.total_tables, 1);
    assert_eq!(info.tables[0].row_count, 1);
    assert_eq!(info.tables[0].column_count, 1);
    assert!(info.tables[0].preview_data.is_empty());
}

fn column(name: &str) -> ColumnInfo {
    ColumnInfo { name: name.to_string(), data_type: "INTEGER".to_string(), not_null: false, primary_key: false }
}

fn fetched(width: usize, n: i64) -> Fetched {
    Fetched {
        columns: (0..width).map(|c| format!("c{}", c)).collect(),
        rows: (0..n).map(|i| (0..width).map(|_| Value::Integer(i)).collect()).collect(),
    }
}

#[test]
fn a_page_holds_at_most_its_size() {
    let p = paginated_result(fetched(1, 3), 3, 0, 2, 0);
    assert_eq!(p.data, vec![strings(&["0"]), strings(&["1"])]);
    assert!(p.has_more);
}

#[test]
fn preview_is_cut_at_ten_rows() {
    let t = table_info("t".to_string(), 12, vec![column("a")], Some(fetched(1, 12)));
    assert_eq!(t.preview_data.len(), 10);
    assert_eq!(t.preview_data[9], strings(&["9"]));
    assert_eq!(t.column_count, 1);
}

#[test]
fn preview_of_another_width_is_empty() {
    let t = table_info("t".to_string(), 2, vec![column("a")], Some(fetched(2, 2)));
    assert!(t.preview_data.is_empty());
    let u = table_info("u".to_string(), 2, vec![column("a")], None);
    assert!(u.preview_data.is_empty());
}
