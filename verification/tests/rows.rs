use sqlx_rxqlite::arguments::RXQLiteArguments;
use sqlx_rxqlite::connection::RXQLiteConnection;
use sqlx_rxqlite::executor::argument_values;
use sqlx_rxqlite::executor::{fetch_many_items, fetch_one_row, fetch_optional_row, query_result_from_wire};
use sqlx_rxqlite::options::RXQLiteConnectOptions;
use sqlx_rxqlite::row::{Either, RXQLiteRow, WireCol, WireColumn, WireQueryResult, WireRow};
use sqlx_rxqlite::type_info::{DataType, RXQLiteTypeInfo, WireTypeInfo};
use sqlx_rxqlite::value::SqlValue;

fn column(ordinal: usize, name: &str, type_info: WireTypeInfo) -> WireColumn {
    WireColumn { ordinal, name: name.to_string(), type_info }
}

fn user_row(name: &str) -> WireRow {
    WireRow {
        columns: vec![
            column(0, "id", WireTypeInfo::Int64),
            column(1, "name", WireTypeInfo::Text),
            column(2, "birth_date", WireTypeInfo::DateTime),
        ],
        inner: vec![
            WireCol { value: SqlValue::Int(1), ordinal: 0 },
            WireCol { value: SqlValue::String(name.to_string()), ordinal: 1 },
            WireCol { value: SqlValue::DateTime { secs: 1_700_000_000, nanos: 5 }, ordinal: 2 },
        ],
    }
}

#[test]
fn row_from_wire_types_values_by_column() {
    let r = RXQLiteRow::from_wire(user_row("Ha"));
    assert_eq!(r.len(), 3);
    assert_eq!(r.values[1].value, SqlValue::String("Ha".to_string()));
    assert_eq!(r.values[1].type_info, RXQLiteTypeInfo(DataType::Text));
    assert_eq!(r.values[2].type_info, RXQLiteTypeInfo(DataType::Datetime));
    assert_eq!(r.columns[0].name, "id");
    assert_eq!(r.columns[0].type_info, RXQLiteTypeInfo(DataType::Int64));
    assert_eq!(r.columns[2].ordinal, 2);
    assert_eq!(r.ordinal_of("name"), Some(1));
    assert_eq!(r.ordinal_of("birth_date"), Some(2));
    assert_eq!(r.ordinal_of("missing"), None);
    assert_eq!(r.name_count(), 3);
}

#[test]
fn row_fields_in_any_column_order() {
    let w = WireRow {
        columns: vec![column(0, "a", WireTypeInfo::Int), column(1, "b", WireTypeInfo::Blob)],
        inner: vec![
            WireCol { value: SqlValue::Blob(vec![1, 2]), ordinal: 1 },
            WireCol { value: SqlValue::Int(9), ordinal: 0 },
        ],
    };
    let r = RXQLiteRow::from_wire(w);
    assert_eq!(r.columns[0].name, "b");
    assert_eq!(r.columns[0].ordinal, 1);
    assert_eq!(r.values[0].type_info, RXQLiteTypeInfo(DataType::Blob));
    assert_eq!(r.columns[1].name, "a");
    assert_eq!(r.values[1].value, SqlValue::Int(9));
    assert_eq!(r.ordinal_of("a"), Some(0));
    assert_eq!(r.ordinal_of("b"), Some(1));
}

#[test]
fn later_column_of_same_name_wins() {
    let w = WireRow {
        columns: vec![column(0, "x", WireTypeInfo::Int), column(1, "x", WireTypeInfo::Text)],
        inner: vec![
            WireCol { value: SqlValue::Int(1), ordinal: 0 },
            WireCol { value: SqlValue::String("s".to_string()), ordinal: 1 },
        ],
    };
    let r = RXQLiteRow::from_wire(w);
    assert_eq!(r.len(), 2);
    assert_eq!(r.ordinal_of("x"), Some(1));
    assert_eq!(r.name_count(), 1);
}

#[test]
fn empty_row() {
    let r = RXQLiteRow::from_wire(WireRow { columns: vec![], inner: vec![] });
    assert_eq!(r.len(), 0);
    assert_eq!(r.name_count(), 0);
}

#[test]
fn query_result_is_copied() {
    let q = query_result_from_wire(WireQueryResult { last_insert_rowid: 42, changes: 3 });
    assert_eq!(q.last_insert_rowid, 42);
    assert_eq!(q.changes, 3);
}

#[test]
fn fetch_many_converts_everything_without_errors() {
    let items = vec![
        Ok(Either::Left(WireQueryResult { last_insert_rowid: 7, changes: 1 })),
        Ok(Either::Right(user_row("a"))),
        Ok(Either::Right(user_row("b"))),
    ];
    let out = fetch_many_items(items);
    assert!(out.error.is_none());
    assert_eq!(out.items.len(), 3);
    match &out.items[0] {
        Either::Left(q) => assert_eq!((q.last_insert_rowid, q.changes), (7, 1)),
        Either::Right(_) => panic!("expected a query result"),
    }
    match &out.items[2] {
        Either::Right(r) => assert_eq!(r.values[1].value, SqlValue::String("b".to_string())),
        Either::Left(_) => panic!("expected a row"),
    }
}

#[test]
fn fetch_many_stops_at_first_error() {
    let items = vec![
        Ok(Either::Right(user_row("a"))),
        Err("no such table".to_string()),
        Ok(Either::Right(user_row("b"))),
        Err("second".to_string()),
    ];
    let out = fetch_many_items(items);
    assert_eq!(out.items.len(), 1);
    assert_eq!(out.error, Some("no such table".to_string()));
}

#[test]
fn fetch_many_empty() {
    let out = fetch_many_items(vec![]);
    assert!(out.items.is_empty());
    assert!(out.error.is_none());
}

#[test]
fn fetch_optional_and_one() {
    assert!(fetch_optional_row(None).is_none());
    let r = fetch_optional_row(Some(user_row("z"))).unwrap();
    assert_eq!(r.ordinal_of("name"), Some(1));
    let r = fetch_one_row(user_row("y"));
    assert_eq!(r.values[1].value, SqlValue::String("y".to_string()));
}

#[test]
fn establish_always_succeeds() {
    let plain = RXQLiteConnectOptions::default().node_id(2).host("127.0.0.1").port(21001);
    let conn = RXQLiteConnection::establish(&plain).unwrap();
    assert_eq!(conn.node_id, 2);
    assert_eq!(conn.node_addr, "127.0.0.1:21001");
    assert!(conn.tls_config.is_none());
    let tls = plain.clone().use_insecure_ssl(true).add_cert_path("ca.pem".to_string());
    let conn = RXQLiteConnection::establish(&tls).unwrap();
    let t = conn.tls_config.as_ref().unwrap();
    assert!(t.accept_invalid_certificates);
    assert_eq!(t.cert_paths, vec!["ca.pem".to_string()]);
    let checked = plain.use_ssl(true);
    let conn = RXQLiteConnection::establish(&checked).unwrap();
    let t = conn.tls_config.as_ref().unwrap();
    assert!(!t.accept_invalid_certificates);
    assert!(t.cert_paths.is_empty());
    assert_eq!(conn.node_addr, "127.0.0.1:21001");
}

#[test]
fn argument_values_sent() {
    assert!(argument_values(None).is_empty());
    let mut a = RXQLiteArguments::new();
    a.add(true);
    assert_eq!(argument_values(Some(a)), vec![SqlValue::Int(1)]);
}
