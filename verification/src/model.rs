//! The data this library passes around: database kinds, object references,
//! result sets and the stored data source profiles. Identifiers (`u128`) are
//! the 128-bit values of the UUIDs that name records.

use vstd::prelude::*;
use crate::text::{hex_upper, hex_upper_char, push_char};

verus! {

/// The database kinds a data source can have. Oracle is listed so that
/// profiles can name it; no adapter serves it.
#[derive(Debug, Clone, Copy, PartialEq, Eq, Structural)]
pub enum DbKind {
    Mysql,
    /// Tencent TDSQL through its MySQL-compatible proxy (MySQL wire protocol).
    Tdsql,
    Postgres,
    Opengauss,
    SqlServer,
    Oracle,
}

/// The port a data source of this kind listens on unless told otherwise.
pub open spec fn default_port_of(kind: DbKind) -> Option<u16> {
    match kind {
        DbKind::Mysql => Some(3306u16),
        DbKind::Tdsql => Some(15300u16),
        DbKind::Postgres | DbKind::Opengauss => Some(5432u16),
        DbKind::SqlServer => Some(1433u16),
        DbKind::Oracle => Some(1521u16),
    }
}

impl DbKind {
    /// The usual listener port of this kind (TDSQL: its proxy port).
    pub fn default_port(self) -> (p: Option<u16>)
        ensures
            p == default_port_of(self),
    {
        match self {
            DbKind::Mysql => Some(3306),
            DbKind::Tdsql => Some(15300),
            DbKind::Postgres | DbKind::Opengauss => Some(5432),
            DbKind::SqlServer => Some(1433),
            DbKind::Oracle => Some(1521),
        }
    }
}

#[derive(Debug, Clone, Copy, PartialEq, Eq, Structural)]
pub enum ObjectKind {
    Table,
    View,
    MaterializedView,
    Function,
    Procedure,
}

/// A schema object: `schema` is empty where the database has no schemas.
#[derive(Debug, Clone)]
pub struct ObjectRef {
    pub schema: String,
    pub name: String,
    pub kind: ObjectKind,
}

#[derive(Debug, Clone)]
pub struct ObjectPage {
    pub objects: Vec<ObjectRef>,
}

#[derive(Debug, Clone)]
pub struct ColumnDef {
    pub name: String,
    pub data_type: String,
    pub nullable: bool,
    pub default_value: Option<String>,
    pub is_primary_key: bool,
    /// The column's comment, where the database keeps one.
    pub comment: Option<String>,
}

#[derive(Debug, Clone)]
pub struct IndexDef {
    pub name: String,
    pub definition: String,
}

#[derive(Debug, Clone)]
pub struct ObjectDefinition {
    pub object: ObjectRef,
    pub columns: Vec<ColumnDef>,
    pub indexes: Vec<IndexDef>,
    /// DDL, view or function text where the database yields one.
    pub ddl: Option<String>,
    /// The table's or view's own comment.
    pub comment: Option<String>,
}

#[derive(Debug, Clone)]
pub struct DbInfo {
    pub version: String,
    pub latency_ms: u64,
}

/// One result cell, always shown as text; for binary values `text` holds
/// the bytes in upper-case hexadecimal.
#[derive(Debug, Clone)]
pub struct Cell {
    pub text: String,
    pub is_null: bool,
    pub is_binary: bool,
}

/// Upper-case hexadecimal rendering of bytes, two digits per byte.
pub open spec fn hex_of_bytes(b: Seq<u8>) -> Seq<char>
    decreases b.len(),
{
    if b.len() == 0 {
        Seq::empty()
    } else {
        hex_of_bytes(b.drop_last()).push(hex_upper((b.last() / 16) as nat)).push(
            hex_upper((b.last() % 16) as nat),
        )
    }
}

impl Cell {
    /// The SQL NULL cell.
    pub fn null() -> (c: Cell)
        ensures
            c.is_null,
            !c.is_binary,
            c.text@ == Seq::<char>::empty(),
    {
        Cell { text: String::new(), is_null: true, is_binary: false }
    }

    /// A non-null text cell.
    pub fn text(text: String) -> (c: Cell)
        ensures
            !c.is_null,
            !c.is_binary,
            c.text@ == text@,
    {
        Cell { text, is_null: false, is_binary: false }
    }

    /// A binary cell showing `bytes` in upper-case hexadecimal.
    pub fn binary_hex(bytes: &[u8]) -> (c: Cell)
        ensures
            !c.is_null,
            c.is_binary,
            c.text@ == hex_of_bytes(bytes@),
    {
        let mut s = String::new();
        let mut i: usize = 0;
        while i < bytes.len()
            invariant
                i <= bytes.len(),
                s@ == hex_of_bytes(bytes@.take(i as int)),
            decreases bytes.len() - i,
        {
            let b = bytes[i];
            assert(bytes@.take(i + 1).drop_last() =~= bytes@.take(i as int));
            push_char(&mut s, hex_upper_char(b / 16));
            push_char(&mut s, hex_upper_char(b % 16));
            i = i + 1;
            assert(s@ =~= hex_of_bytes(bytes@.take(i as int)));
        }
        assert(bytes@.take(bytes.len() as int) =~= bytes@);
        Cell { text: s, is_null: false, is_binary: true }
    }
}

#[derive(Debug, Clone)]
pub struct ColumnInfo {
    pub name: String,
    pub type_label: String,
}

#[derive(Debug, Clone)]
pub struct ExecuteResult {
    pub columns: Vec<ColumnInfo>,
    pub rows: Vec<Vec<Cell>>,
    pub rows_affected: Option<u64>,
    pub truncated: bool,
    pub duration_ms: u64,
}

impl ExecuteResult {
    /// The result of a statement that returns nothing (a commit).
    pub fn empty() -> (r: ExecuteResult)
        ensures
            r.columns@.len() == 0,
            r.rows@.len() == 0,
            r.rows_affected is None,
            !r.truncated,
            r.duration_ms == 0,
    {
        ExecuteResult {
            columns: Vec::new(),
            rows: Vec::new(),
            rows_affected: None,
            truncated: false,
            duration_ms: 0,
        }
    }
}

/// A write run inside a transaction that waits for the user to commit or
/// roll it back.
#[derive(Debug, Clone)]
pub struct PendingWrite {
    pub pending_id: u128,
    pub rows_affected: Option<u64>,
    pub preview: ExecuteResult,
}

#[derive(Debug, Clone, Copy, PartialEq, Eq, Structural)]
pub enum QueryStatus {
    Running,
    Finished,
    Error,
    Cancelled,
}

#[derive(Debug, Clone)]
pub struct QueryPoll {
    pub status: QueryStatus,
    pub result: Option<ExecuteResult>,
    pub error: Option<String>,
}

/// A stored data source (table `sql_data_sources`). The password is never
/// here: `credential_ref` names the secret in the credential store.
#[derive(Debug, Clone)]
pub struct DataSourceProfile {
    pub id: u128,
    pub name: String,
    pub db_kind: DbKind,
    pub host: String,
    pub port: Option<u16>,
    pub database_name: Option<String>,
    pub default_schema: Option<String>,
    pub username: Option<String>,
    pub credential_ref: Option<String>,
    pub environment: String,
    pub group_name: Option<String>,
    pub readonly: bool,
    pub ssl_required: bool,
    pub created_at: String,
    pub updated_at: String,
    pub last_used_at: Option<String>,
}

/// What a user enters to create or edit a data source; a password of
/// `Some("")` means "leave the password as it is".
#[derive(Debug, Clone)]
pub struct DataSourceInput {
    pub name: String,
    pub db_kind: DbKind,
    pub host: String,
    pub port: Option<u16>,
    pub database_name: Option<String>,
    pub default_schema: Option<String>,
    pub username: Option<String>,
    pub password: Option<String>,
    pub environment: String,
    pub group_name: Option<String>,
    pub readonly: bool,
    pub ssl_required: bool,
}

/// What an adapter connects with: the profile with its password looked up.
#[derive(Debug, Clone)]
pub struct ResolvedProfile {
    pub id: u128,
    pub db_kind: DbKind,
    pub host: String,
    pub port: u16,
    pub database_name: Option<String>,
    pub default_schema: Option<String>,
    pub username: Option<String>,
    pub password: Option<String>,
    pub ssl_required: bool,
    pub readonly: bool,
}

#[derive(Debug, Clone)]
pub struct QueryHistoryEntry {
    pub id: u128,
    pub data_source_id: u128,
    pub title: Option<String>,
    pub sql_text: String,
    pub status: String,
    pub duration_ms: Option<i64>,
    pub row_count: Option<i64>,
    pub error_message: Option<String>,
    pub created_at: String,
}

/// A query tab's metadata; its text lives in the file at `file_path`,
/// relative to the data source's workspace directory.
#[derive(Debug, Clone)]
pub struct WorkspaceTab {
    pub id: u128,
    pub data_source_id: u128,
    pub title: String,
    pub file_path: String,
    pub result_view_mode: String,
    pub cursor_json: Option<String>,
    pub sort_order: i64,
    pub updated_at: String,
}

} // verus!
