//! Which statements may run directly and which need the user's confirmation.
//! Classification parses the text with `sqlparser`; anything that does not
//! parse to exactly one statement, or whose kind is not known to be safe,
//! needs confirmation.

use vstd::prelude::*;
use sqlparser::ast::Statement;
use sqlparser::dialect::{GenericDialect, MySqlDialect, PostgreSqlDialect};
use sqlparser::parser::Parser;
use crate::error::AppError;
use crate::model::DbKind;

verus! {

/// How a statement is run:
/// - `Normal`: directly (read-only statements and inserts).
/// - `Confirm`: after the user confirms it up front (DDL and anything that
///   cannot be rolled back, or that the classifier does not know).
/// - `Transaction`: inside a transaction whose real effect is shown before
///   the user commits or rolls it back (UPDATE, DELETE).
#[derive(Debug, Clone, Copy, PartialEq, Eq, Structural)]
pub enum ExecutionKind {
    Normal,
    Confirm,
    Transaction,
}

/// The kind of one parsed statement, as far as classification looks at it.
#[derive(Debug, Clone, Copy, PartialEq, Eq, Structural)]
pub enum StatementTag {
    Query,
    Explain,
    Insert,
    Update,
    Delete,
    /// Every other statement (DDL, transaction control, dialect extensions).
    Other,
}

/// The grammar the statement text is parsed with.
#[derive(Debug, Clone, Copy, PartialEq, Eq, Structural)]
pub enum SqlDialect {
    MySql,
    PostgreSql,
    Generic,
}

/// What `sqlparser` makes of `sql` in `dialect`: the kinds of the statements
/// it parses, or its error message.
pub uninterp spec fn sql_statement_tags(dialect: SqlDialect, sql: Seq<char>) -> Result<Seq<StatementTag>, Seq<char>>;

/// Parses `sql` with `sqlparser::parser::Parser::parse_sql` in the grammar
/// `dialect` names and reports the kind of each statement, or the parser's
/// error text. The contract claims only that the outcome is a function of
/// the dialect and the text.
#[verifier::external_body]
fn parse_statement_tags(dialect: SqlDialect, sql: &str) -> (r: Result<Vec<StatementTag>, String>)
    ensures
        match r {
            Ok(v) => sql_statement_tags(dialect, sql@) == Ok::<Seq<StatementTag>, Seq<char>>(v@),
            Err(e) => sql_statement_tags(dialect, sql@) == Err::<Seq<StatementTag>, Seq<char>>(e@),
        },
{
    let parsed = match dialect {
        SqlDialect::MySql => Parser::parse_sql(&MySqlDialect {}, sql),
        SqlDialect::PostgreSql => Parser::parse_sql(&PostgreSqlDialect {}, sql),
        SqlDialect::Generic => Parser::parse_sql(&GenericDialect {}, sql),
    };
    parsed.map_err(|e| e.to_string()).map(|stmts| stmts.iter().map(|s| match s {
        Statement::Query(_) => StatementTag::Query,
        Statement::Explain { .. } => StatementTag::Explain,
        Statement::Insert(_) => StatementTag::Insert,
        Statement::Update(_) => StatementTag::Update,
        Statement::Delete(_) => StatementTag::Delete,
        _ => StatementTag::Other,
    }).collect())
}


/// The grammar used for each database kind. SQL Server and Oracle use the
/// generic grammar: classification only looks at the statement's kind.
pub open spec fn dialect_of(kind: DbKind) -> SqlDialect {
    match kind {
        DbKind::Mysql | DbKind::Tdsql => SqlDialect::MySql,
        DbKind::Postgres | DbKind::Opengauss => SqlDialect::PostgreSql,
        DbKind::SqlServer | DbKind::Oracle => SqlDialect::Generic,
    }
}

pub fn dialect_for(kind: DbKind) -> (d: SqlDialect)
    ensures
        d == dialect_of(kind),
{
    match kind {
        DbKind::Mysql | DbKind::Tdsql => SqlDialect::MySql,
        DbKind::Postgres | DbKind::Opengauss => SqlDialect::PostgreSql,
        DbKind::SqlServer | DbKind::Oracle => SqlDialect::Generic,
    }
}

/// How a statement of the given kind is run.
pub open spec fn classify_tag(tag: StatementTag) -> ExecutionKind {
    match tag {
        StatementTag::Query | StatementTag::Explain | StatementTag::Insert => ExecutionKind::Normal,
        StatementTag::Update | StatementTag::Delete => ExecutionKind::Transaction,
        StatementTag::Other => ExecutionKind::Confirm,
    }
}

pub fn classify_statement(tag: StatementTag) -> (k: ExecutionKind)
    ensures
        k == classify_tag(tag),
{
    match tag {
        StatementTag::Query | StatementTag::Explain | StatementTag::Insert => ExecutionKind::Normal,
        StatementTag::Update | StatementTag::Delete => ExecutionKind::Transaction,
        StatementTag::Other => ExecutionKind::Confirm,
    }
}

/// The message of the error for a parse outcome that is not exactly one
/// statement, or `None` when it is one.
pub open spec fn single_statement_error(parsed: Result<Seq<StatementTag>, Seq<char>>) -> Option<Seq<char>> {
    match parsed {
        Err(e) => Some("SQL 解析失败："@ + e),
        Ok(s) => if s.len() == 0 {
            Some("SQL 内容为空"@)
        } else if s.len() == 1 {
            None
        } else {
            Some("一次只能执行一条语句，请拆分后逐条执行"@)
        },
    }
}

/// The statement-kind view of a parse outcome.
pub open spec fn parsed_view(parsed: Result<Vec<StatementTag>, String>) -> Result<Seq<StatementTag>, Seq<char>> {
    match parsed {
        Ok(v) => Ok(v@),
        Err(e) => Err(e@),
    }
}

/// What `parse_single_statement` answers for a parse outcome: the one
/// statement's kind, or an `Internal` error with the message of
/// `single_statement_error`.
pub open spec fn single_statement_ok(parsed: Result<Seq<StatementTag>, Seq<char>>, r: Result<StatementTag, AppError>) -> bool {
    match single_statement_error(parsed) {
        None => r == Ok::<StatementTag, AppError>(parsed->Ok_0[0]),
        Some(m) => r matches Err(AppError::Internal(msg)) && msg@ == m,
    }
}

/// Accepts a parse outcome holding exactly one statement: a batch of several
/// statements has no single confirmation or rollback, so it is refused.
pub fn single_statement(parsed: Result<Vec<StatementTag>, String>) -> (r: Result<StatementTag, AppError>)
    ensures
        single_statement_ok(parsed_view(parsed), r),
{
    match parsed {
        Err(e) => {
            let mut m = String::from_str("SQL 解析失败：");
            m.append(e.as_str());
            proof { reveal_strlit("SQL 解析失败："); }
            Err(AppError::Internal(m))
        },
        Ok(v) => {
            if v.len() == 0 {
                Err(AppError::Internal(String::from_str("SQL 内容为空")))
            } else if v.len() == 1 {
                Ok(v[0])
            } else {
                Err(AppError::Internal(String::from_str("一次只能执行一条语句，请拆分后逐条执行")))
            }
        },
    }
}

/// Parses `sql` in the grammar of `kind` and accepts exactly one statement.
pub fn parse_single_statement(sql: &str, kind: DbKind) -> (r: Result<StatementTag, AppError>)
    ensures
        single_statement_ok(sql_statement_tags(dialect_of(kind), sql@), r),
{
    let parsed = parse_statement_tags(dialect_for(kind), sql);
    single_statement(parsed)
}

/// The classification of a parse outcome: a single statement by its kind,
/// anything else (parse error, no statement, several) `Confirm`.
pub open spec fn classify_parsed(parsed: Result<Seq<StatementTag>, Seq<char>>) -> ExecutionKind {
    match parsed {
        Ok(s) => if s.len() == 1 {
            classify_tag(s[0])
        } else {
            ExecutionKind::Confirm
        },
        Err(_) => ExecutionKind::Confirm,
    }
}

/// Classifies a parse outcome; what cannot be classified needs confirmation.
pub fn classify_parse_result(parsed: Result<Vec<StatementTag>, String>) -> (k: ExecutionKind)
    ensures
        k == classify_parsed(parsed_view(parsed)),
{
    match single_statement(parsed) {
        Ok(tag) => classify_statement(tag),
        Err(_) => ExecutionKind::Confirm,
    }
}

/// Whether `sql` needs confirmation before it runs. A parse failure, an
/// empty text, several statements or an unknown statement kind all give
/// `Confirm`: nothing runs unconfirmed unless it is known to be safe.
pub fn classify(sql: &str, kind: DbKind) -> (k: ExecutionKind)
    ensures
        k == classify_parsed(sql_statement_tags(dialect_of(kind), sql@)),
{
    let parsed = parse_statement_tags(dialect_for(kind), sql);
    classify_parse_result(parsed)
}

/// Parses and classifies `sql` for running it: unlike `classify`, a text
/// that is not exactly one statement is an error, with the parser's reason.
pub fn parse_and_classify(sql: &str, kind: DbKind) -> (r: Result<(StatementTag, ExecutionKind), AppError>)
    ensures
        single_statement_ok(
            sql_statement_tags(dialect_of(kind), sql@),
            match r {
                Ok(p) => Ok::<StatementTag, AppError>(p.0),
                Err(e) => Err::<StatementTag, AppError>(e),
            },
        ),
        r matches Ok(p) ==> p.1 == classify_tag(p.0),
{
    let tag = parse_single_statement(sql, kind)?;
    Ok((tag, classify_statement(tag)))
}

/// Whether statements of this classification run without confirmation.
pub fn is_readonly_kind(kind: ExecutionKind) -> (b: bool)
    ensures
        b == (kind == ExecutionKind::Normal),
{
    matches!(kind, ExecutionKind::Normal)
}

/// Whether a statement produces a result set (a query or an EXPLAIN), as
/// opposed to only a count of affected rows.
pub open spec fn yields_rows(parsed: Result<Seq<StatementTag>, Seq<char>>) -> bool {
    match parsed {
        Ok(s) => s.len() == 1 && (s[0] == StatementTag::Query || s[0] == StatementTag::Explain),
        Err(_) => false,
    }
}

/// Whether `sql`, read in the generic grammar, is one query or EXPLAIN.
pub fn expects_result_set(sql: &str) -> (b: bool)
    ensures
        b == yields_rows(sql_statement_tags(SqlDialect::Generic, sql@)),
{
    match parse_statement_tags(SqlDialect::Generic, sql) {
        Ok(v) => v.len() == 1 && (v[0] == StatementTag::Query || v[0] == StatementTag::Explain),
        Err(_) => false,
    }
}

/// A statement classified `Normal` parsed as exactly one query, EXPLAIN or
/// INSERT; every other outcome, a parse failure among them, is never
/// `Normal`.
pub proof fn normal_only_for_known_safe(dialect: SqlDialect, sql: Seq<char>)
    ensures
        classify_parsed(sql_statement_tags(dialect, sql)) == ExecutionKind::Normal ==> ({
            let p = sql_statement_tags(dialect, sql);
            &&& p is Ok
            &&& p->Ok_0.len() == 1
            &&& (p->Ok_0[0] == StatementTag::Query || p->Ok_0[0] == StatementTag::Explain
                || p->Ok_0[0] == StatementTag::Insert)
        }),
        sql_statement_tags(dialect, sql) is Err ==> classify_parsed(sql_statement_tags(dialect, sql))
            == ExecutionKind::Confirm,
{
}

/// `classify` and `parse_and_classify` agree: where the latter accepts the
/// text, the former gives the same classification; where it refuses it,
/// the former asks for confirmation.
pub proof fn classify_agrees_with_parse(parsed: Result<Seq<StatementTag>, Seq<char>>, r: Result<StatementTag, AppError>)
    requires
        single_statement_ok(parsed, r),
    ensures
        match r {
            Ok(t) => classify_parsed(parsed) == classify_tag(t),
            Err(_) => classify_parsed(parsed) == ExecutionKind::Confirm,
        },
{
}

} // verus!
