use roc_desk_sql::model::DbKind;
use roc_desk_sql::policy::{
    classify, classify_parse_result, expects_result_set, is_readonly_kind, parse_and_classify,
    single_statement, ExecutionKind, StatementTag,
};
use roc_desk_sql::error::AppError;

#[test]
fn classifies_common_statements() {
    assert_eq!(classify("SELECT * FROM users", DbKind::Postgres), ExecutionKind::Normal);
    assert_eq!(
        classify("UPDATE users SET name = 'a' WHERE id = 1", DbKind::Postgres),
        ExecutionKind::Transaction
    );
    assert_eq!(classify("DELETE FROM users WHERE id = 1", DbKind::Postgres), ExecutionKind::Transaction);
    assert_eq!(classify("DROP TABLE users", DbKind::Postgres), ExecutionKind::Confirm);
    assert_eq!(classify("INSERT INTO users (name) VALUES ('a')", DbKind::Postgres), ExecutionKind::Normal);
}

#[test]
fn parse_failure_and_multi_statement_downgrade_to_confirm() {
    assert_eq!(classify("SELEC * FORM users", DbKind::Postgres), ExecutionKind::Confirm);
    assert_eq!(classify("SELECT 1; SELECT 2;", DbKind::Postgres), ExecutionKind::Confirm);
}

#[test]
fn classification_in_every_dialect() {
    for kind in [DbKind::Mysql, DbKind::Tdsql, DbKind::Opengauss, DbKind::SqlServer, DbKind::Oracle] {
        assert_eq!(classify("SELECT 1", kind), ExecutionKind::Normal);
        assert_eq!(classify("EXPLAIN SELECT 1", kind), ExecutionKind::Normal);
        assert_eq!(classify("UPDATE t SET a = 1", kind), ExecutionKind::Transaction);
        assert_eq!(classify("CREATE TABLE t (a INT)", kind), ExecutionKind::Confirm);
        assert_eq!(classify("", kind), ExecutionKind::Confirm);
    }
    assert_eq!(classify("ALTER TABLE t ADD COLUMN b INT", DbKind::Postgres), ExecutionKind::Confirm);
    assert_eq!(classify("TRUNCATE TABLE t", DbKind::Postgres), ExecutionKind::Confirm);
}

#[test]
fn parse_and_classify_reports_why_it_refuses() {
    let (tag, kind) = parse_and_classify("UPDATE t SET a = 1", DbKind::Mysql).unwrap();
    assert_eq!(tag, StatementTag::Update);
    assert_eq!(kind, ExecutionKind::Transaction);
    match parse_and_classify("SELECT 1; SELECT 2", DbKind::Postgres) {
        Err(AppError::Internal(m)) => assert_eq!(m, "一次只能执行一条语句，请拆分后逐条执行"),
        _ => panic!("expected refusal"),
    }
    match parse_and_classify("   ", DbKind::Postgres) {
        Err(AppError::Internal(m)) => assert_eq!(m, "SQL 内容为空"),
        _ => panic!("expected refusal"),
    }
    match parse_and_classify("SELEC * FORM users", DbKind::Postgres) {
        Err(AppError::Internal(m)) => assert!(m.starts_with("SQL 解析失败：") && m.len() > "SQL 解析失败：".len()),
        _ => panic!("expected refusal"),
    }
}

#[test]
fn classification_of_given_parse_outcomes() {
    assert_eq!(classify_parse_result(Ok(vec![StatementTag::Query])), ExecutionKind::Normal);
    assert_eq!(classify_parse_result(Ok(vec![StatementTag::Insert])), ExecutionKind::Normal);
    assert_eq!(classify_parse_result(Ok(vec![StatementTag::Delete])), ExecutionKind::Transaction);
    assert_eq!(classify_parse_result(Ok(vec![StatementTag::Other])), ExecutionKind::Confirm);
    assert_eq!(classify_parse_result(Ok(vec![])), ExecutionKind::Confirm);
    assert_eq!(classify_parse_result(Ok(vec![StatementTag::Query, StatementTag::Query])), ExecutionKind::Confirm);
    assert_eq!(classify_parse_result(Err("boom".to_string())), ExecutionKind::Confirm);
    match single_statement(Err("bad token".to_string())) {
        Err(AppError::Internal(m)) => assert_eq!(m, "SQL 解析失败：bad token"),
        _ => panic!("expected error"),
    }
    assert_eq!(single_statement(Ok(vec![StatementTag::Explain])).unwrap(), StatementTag::Explain);
}

#[test]
fn readonly_kinds_and_result_sets() {
    assert!(is_readonly_kind(ExecutionKind::Normal));
    assert!(!is_readonly_kind(ExecutionKind::Confirm));
    assert!(!is_readonly_kind(ExecutionKind::Transaction));
    assert!(expects_result_set("SELECT 1"));
    assert!(expects_result_set("EXPLAIN SELECT 1"));
    assert!(!expects_result_set("DELETE FROM t"));
    assert!(!expects_result_set("SELECT 1; SELECT 2"));
    assert!(!expects_result_set("not sql at all"));
}
