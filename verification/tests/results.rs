use roc_desk_sql::error::{data_source_not_found, pending_write_not_found, transfer_not_found, AppError};
use roc_desk_sql::executor::{poll_outcome, query_not_found, TaskOutcome};
use roc_desk_sql::model::{Cell, ColumnInfo, DbKind, ExecuteResult, QueryStatus};
use roc_desk_sql::results::ResultBuilder;
use roc_desk_sql::tool_info;
use uuid::Uuid;

fn row(v: &str) -> Vec<Cell> {
    vec![Cell::text(v.to_string())]
}

#[test]
fn rows_past_the_limit_are_dropped() {
    let mut b = ResultBuilder::new(2);
    b.set_columns(vec![ColumnInfo { name: "a".to_string(), type_label: "int".to_string() }]);
    assert_eq!(b.column_count(), 1);
    b.offer_row(row("1"));
    b.offer_row(row("2"));
    b.offer_row(row("3"));
    let r = b.finish(7);
    assert_eq!(r.rows.len(), 2);
    assert_eq!(r.rows[1][0].text, "2");
    assert!(r.truncated);
    assert_eq!(r.duration_ms, 7);
    assert_eq!(r.rows_affected, None);
}

#[test]
fn a_result_at_the_limit_is_not_cut() {
    let mut b = ResultBuilder::new(2);
    b.offer_row(row("1"));
    b.offer_row(row("2"));
    b.set_rows_affected(2);
    let r = b.finish(0);
    assert_eq!(r.rows.len(), 2);
    assert!(!r.truncated);
    assert_eq!(r.rows_affected, Some(2));
    let r = ResultBuilder::new(0).finish(1);
    assert!(r.rows.is_empty() && !r.truncated && r.columns.is_empty());
}

#[test]
fn polls_follow_the_task() {
    assert_eq!(poll_outcome(TaskOutcome::Running).status, QueryStatus::Running);
    let p = poll_outcome(TaskOutcome::Finished(Ok(ExecuteResult::empty())));
    assert_eq!(p.status, QueryStatus::Finished);
    assert!(p.result.is_some() && p.error.is_none());
    let p = poll_outcome(TaskOutcome::Finished(Err(AppError::Database("syntax error".to_string()))));
    assert_eq!(p.status, QueryStatus::Error);
    assert_eq!(p.error.as_deref(), Some("syntax error"));
    assert_eq!(poll_outcome(TaskOutcome::Cancelled).status, QueryStatus::Cancelled);
    let p = poll_outcome(TaskOutcome::Failed("task panicked".to_string()));
    assert_eq!(p.status, QueryStatus::Error);
    assert_eq!(p.error.as_deref(), Some("task panicked"));
}

#[test]
fn not_found_errors_name_the_id() {
    let id: u128 = 0xdead_beef_0000_4000_8000_0000_0000_0001;
    let text = Uuid::from_u128(id).to_string();
    match query_not_found(id) {
        AppError::NotFound(m) => assert_eq!(m, format!("query not found: {}", text)),
        other => panic!("unexpected {:?}", other),
    }
    assert_eq!(data_source_not_found(id).message(), format!("data source not found: {}", text));
    assert_eq!(pending_write_not_found(id).message(), format!("pending write not found: {}", text));
    assert_eq!(transfer_not_found(id).message(), format!("transfer job not found: {}", text));
    assert_eq!(AppError::Io("disk".to_string()).message(), "disk");
}

#[test]
fn cells_and_kinds() {
    assert_eq!(Cell::binary_hex(&[0x00, 0xab, 0x10]).text, "00AB10");
    assert!(Cell::null().is_null);
    assert_eq!(DbKind::Mysql.default_port(), Some(3306));
    assert_eq!(DbKind::Tdsql.default_port(), Some(15300));
    assert_eq!(DbKind::Opengauss.default_port(), Some(5432));
    assert_eq!(DbKind::SqlServer.default_port(), Some(1433));
    assert_eq!(DbKind::Oracle.default_port(), Some(1521));
    assert_eq!(tool_info(), ("roc_desk-sql", "SQL 工作台：数据源、查询与结果"));
}
