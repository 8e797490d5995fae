use roc_desk_sql::adapters::mysql::{
    affected_rows_of, bytes_cell, column_from_catalog, date_cell, equals_ignore_ascii_case,
    i64_cell, index_from_catalog, kill_query_sql, object_from_catalog, time_cell, u64_cell,
};
use roc_desk_sql::adapters::postgres::{
    cancel_backend_sql, cell_text, cell_text_opt, column_from_row, comment_query, contains_name,
    decode_bytea, escape_literal, first_cell_text, hex_digit_value, index_from_row,
    indexes_query, looks_like_pg_bytea_hex, object_from_row, pg_cell, pg_row_cells,
    primary_key_query, view_definition_query,
};
use roc_desk_sql::adapters::sqlserver::{
    affected_total, column_from_values, kill_session_sql, object_from_values, parses_as_i16,
    session_id_text,
};
use roc_desk_sql::error::AppError;
use roc_desk_sql::model::{Cell, ColumnInfo, ExecuteResult, ObjectKind, ObjectRef};
use roc_desk_sql::registry::{create_adapter, AdapterChoice};
use roc_desk_sql::model::DbKind;

fn obj(schema: &str, name: &str, kind: ObjectKind) -> ObjectRef {
    ObjectRef { schema: schema.to_string(), name: name.to_string(), kind }
}

fn t(s: &str) -> Cell {
    Cell::text(s.to_string())
}

#[test]
fn mysql_values_become_cells() {
    let c = bytes_cell(b"hello");
    assert_eq!(c.text, "hello");
    assert!(!c.is_binary && !c.is_null);
    let c = bytes_cell(&[0xff, 0x00, 0x1a]);
    assert_eq!(c.text, "FF001A");
    assert!(c.is_binary);
    assert_eq!(i64_cell(-42).text, "-42");
    assert_eq!(i64_cell(i64::MIN).text, "-9223372036854775808");
    assert_eq!(i64_cell(0).text, "0");
    assert_eq!(u64_cell(u64::MAX).text, "18446744073709551615");
    assert_eq!(date_cell(2024, 3, 9, 7, 5, 1, 42).text, "2024-03-09 07:05:01.000042");
    assert_eq!(time_cell(true, 2, 3, 4, 5, 6).text, "-2d 03:04:05.000006");
    assert_eq!(time_cell(false, 0, 23, 59, 59, 999999).text, "0d 23:59:59.999999");
}

#[test]
fn mysql_catalogue_rows() {
    assert!(equals_ignore_ascii_case("View", "VIEW"));
    assert!(!equals_ignore_ascii_case("VIEWS", "VIEW"));
    let o = object_from_catalog("shop".to_string(), "v_orders".to_string(), "view");
    assert_eq!(o.kind, ObjectKind::View);
    let o = object_from_catalog("shop".to_string(), "orders".to_string(), "BASE TABLE");
    assert_eq!(o.kind, ObjectKind::Table);
    assert_eq!(o.name, "orders");
    let c = column_from_catalog(
        "id".to_string(),
        "bigint".to_string(),
        "no",
        None,
        "PRI",
        Some("key".to_string()),
    );
    assert!(!c.nullable && c.is_primary_key);
    assert_eq!(c.comment.as_deref(), Some("key"));
    let c = column_from_catalog("n".to_string(), "text".to_string(), "yes", Some("x".to_string()), "pri", None);
    assert!(c.nullable && !c.is_primary_key);
    assert_eq!(c.default_value.as_deref(), Some("x"));
    assert_eq!(index_from_catalog("idx".to_string(), "a,b").definition, "(a,b)");
    assert_eq!(kill_query_sql("17"), "KILL QUERY 17");
    assert_eq!(affected_rows_of(0, 5), Some(5));
    assert_eq!(affected_rows_of(2, 5), None);
}

#[test]
fn postgres_bytea_values() {
    assert_eq!(hex_digit_value('a'), Some(10));
    assert_eq!(hex_digit_value('F'), Some(15));
    assert_eq!(hex_digit_value('g'), None);
    assert!(looks_like_pg_bytea_hex("\\x0a1B"));
    assert!(looks_like_pg_bytea_hex("\\x"));
    assert!(!looks_like_pg_bytea_hex("\\x0z"));
    assert!(!looks_like_pg_bytea_hex("0a1b"));
    assert_eq!(decode_bytea("\\x0a1bff"), vec![0x0a, 0x1b, 0xff]);
    let c = pg_cell(&Some("\\x0a1b".to_string()));
    assert!(c.is_binary);
    assert_eq!(c.text, "0A1B");
    let c = pg_cell(&Some("plain".to_string()));
    assert!(!c.is_binary);
    assert_eq!(c.text, "plain");
    assert!(pg_cell(&None).is_null);
    let cells = pg_row_cells(&vec![None, Some("1".to_string())]);
    assert_eq!(cells.len(), 2);
    assert!(cells[0].is_null);
    assert_eq!(cells[1].text, "1");
}

#[test]
fn postgres_catalogue_queries_and_rows() {
    let o = obj("pub'lic", "t", ObjectKind::Table);
    assert_eq!(escape_literal("it's"), "it''s");
    assert!(primary_key_query(&o).contains("tc.table_schema = 'pub''lic' and tc.table_name = 't'"));
    assert_eq!(comment_query(&o), "select obj_description('pub''lic.t'::regclass::oid, 'pg_class')");
    assert_eq!(
        indexes_query(&o),
        "select indexname, indexdef from pg_indexes where schemaname = 'pub''lic' and tablename = 't'"
    );
    assert!(view_definition_query(&o).is_none());
    let v = view_definition_query(&obj("s", "v", ObjectKind::MaterializedView)).unwrap();
    assert!(v.ends_with("n.nspname = 's' and c.relname = 'v' and c.relkind = 'm'"));

    let row = vec![t("public"), t("orders"), t("view")];
    let o = object_from_row(&row);
    assert_eq!((o.schema.as_str(), o.name.as_str(), o.kind), ("public", "orders", ObjectKind::View));
    assert_eq!(object_from_row(&row[..2]).kind, ObjectKind::Table);
    assert_eq!(cell_text(&row, 5), "");
    assert_eq!(cell_text_opt(&[Cell::null()], 0), None);
    assert!(contains_name(&vec!["a".to_string(), "id".to_string()], "id"));
    assert!(!contains_name(&vec![], "id"));
    let col = column_from_row(
        &[t("id"), t("integer"), t("NO"), Cell::null(), t("the key")],
        &vec!["id".to_string()],
    );
    assert!(col.is_primary_key && !col.nullable);
    assert_eq!(col.default_value, None);
    assert_eq!(col.comment.as_deref(), Some("the key"));
    let idx = index_from_row(&[t("pk"), t("CREATE UNIQUE INDEX pk ON t (id)")]);
    assert_eq!(idx.definition, "CREATE UNIQUE INDEX pk ON t (id)");
    let res = ExecuteResult {
        columns: vec![ColumnInfo { name: "v".to_string(), type_label: String::new() }],
        rows: vec![vec![t("PostgreSQL 16")]],
        rows_affected: None,
        truncated: false,
        duration_ms: 1,
    };
    assert_eq!(first_cell_text(&res), "PostgreSQL 16");
    assert_eq!(first_cell_text(&ExecuteResult::empty()), "");
}

#[test]
fn cancelling_needs_a_numeric_handle() {
    assert_eq!(cancel_backend_sql("1234").unwrap(), "SELECT pg_cancel_backend(1234)");
    match cancel_backend_sql("1; drop table t") {
        Err(AppError::Internal(m)) => assert_eq!(m, "无效的 backend handle：1; drop table t"),
        other => panic!("unexpected {:?}", other),
    }
    assert!(cancel_backend_sql("").is_err());
    assert!(parses_as_i16("-32768"));
    assert!(parses_as_i16("+12"));
    assert!(!parses_as_i16("32768"));
    assert!(!parses_as_i16("1a"));
    assert_eq!(kill_session_sql("57").unwrap(), "KILL 57");
    assert!(matches!(kill_session_sql("x"), Err(AppError::Internal(_))));
    assert_eq!(session_id_text(-5), "-5");
    assert_eq!(session_id_text(i16::MIN), "-32768");
}

#[test]
fn sqlserver_rows() {
    let c = column_from_values(
        Some("id".to_string()),
        Some("int".to_string()),
        Some(false),
        Some(1),
    );
    assert_eq!(c.name, "id");
    assert!(!c.nullable && c.is_primary_key);
    let o = object_from_values(Some("dbo".to_string()), Some("v".to_string()), Some("view".to_string()));
    assert_eq!(o.kind, ObjectKind::View);
    let c = column_from_values(None, None, None, None);
    assert!(c.nullable && !c.is_primary_key && c.name.is_empty());
    let o = object_from_values(None, None, None);
    assert_eq!(o.schema, "");
    assert_eq!(o.kind, ObjectKind::Table);
    assert_eq!(affected_total(&vec![1, 2, 3]), 6);
    assert_eq!(affected_total(&vec![]), 0);
}

#[test]
fn adapters_by_kind() {
    assert!(matches!(create_adapter(DbKind::Tdsql), Ok(AdapterChoice::MySql(_))));
    match create_adapter(DbKind::Opengauss) {
        Ok(AdapterChoice::Postgres(a)) => {
            assert!(a.opengauss);
            assert_eq!(a.kind(), DbKind::Opengauss);
        }
        _ => panic!("expected a postgres adapter"),
    }
    assert!(matches!(create_adapter(DbKind::SqlServer), Ok(AdapterChoice::SqlServer(_))));
    assert!(matches!(create_adapter(DbKind::Oracle), Err(AppError::Internal(_))));
}

#[test]
fn binary_cells_read_back_as_their_bytes() {
    let bytes = vec![0x00, 0x7f, 0x80, 0xff, 0x10];
    let cell = Cell::binary_hex(&bytes);
    let text = format!("\\x{}", cell.text);
    assert!(looks_like_pg_bytea_hex(&text));
    assert_eq!(decode_bytea(&text), bytes);
}

#[test]
fn odd_bytea_texts_are_not_readable() {
    use_bytea_checks();
}

fn use_bytea_checks() {
    assert!(roc_desk_sql::adapters::postgres::bytea_readable(&Some("\\x0a1b".to_string())));
    assert!(!roc_desk_sql::adapters::postgres::bytea_readable(&Some("\\x0a1".to_string())));
    assert!(roc_desk_sql::adapters::postgres::bytea_readable(&Some("abc".to_string())));
    assert!(roc_desk_sql::adapters::postgres::bytea_readable(&None));
}

#[test]
fn white_space_beyond_ascii_is_blank() {
    assert_eq!(roc_desk_sql::agent::strip_markdown_fence("\u{3000}SELECT 1\u{a0}"), "SELECT 1");
    assert!(roc_desk_sql::text::is_blank_str("\u{2028} \t"));
    assert!(!roc_desk_sql::text::is_blank_str("\u{200b}"));
}
