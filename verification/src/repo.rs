//! The stored form of data sources, query history and workspace tabs: how
//! a record becomes the column values of its SQLite row and back. Running
//! the statements against the database is the caller's part.

use vstd::prelude::*;
use crate::model::{DataSourceProfile, DbKind, QueryHistoryEntry, WorkspaceTab};
use crate::text::{copy_string, str_eq, uuid_string, uuid_text};

verus! {

/// The name a database kind is stored under.
pub open spec fn db_kind_name(kind: DbKind) -> Seq<char> {
    match kind {
        DbKind::Mysql => "mysql"@,
        DbKind::Tdsql => "tdsql"@,
        DbKind::Postgres => "postgres"@,
        DbKind::Opengauss => "opengauss"@,
        DbKind::SqlServer => "sqlserver"@,
        DbKind::Oracle => "oracle"@,
    }
}

pub fn db_kind_to_str(kind: DbKind) -> (s: &'static str)
    ensures
        s@ == db_kind_name(kind),
{
    match kind {
        DbKind::Mysql => "mysql",
        DbKind::Tdsql => "tdsql",
        DbKind::Postgres => "postgres",
        DbKind::Opengauss => "opengauss",
        DbKind::SqlServer => "sqlserver",
        DbKind::Oracle => "oracle",
    }
}

/// The kind a stored name stands for; an unknown name reads as PostgreSQL.
pub open spec fn db_kind_of_name(s: Seq<char>) -> DbKind {
    if s == "mysql"@ {
        DbKind::Mysql
    } else if s == "tdsql"@ {
        DbKind::Tdsql
    } else if s == "opengauss"@ {
        DbKind::Opengauss
    } else if s == "sqlserver"@ {
        DbKind::SqlServer
    } else if s == "oracle"@ {
        DbKind::Oracle
    } else {
        DbKind::Postgres
    }
}

pub fn db_kind_from_str(s: &str) -> (k: DbKind)
    ensures
        k == db_kind_of_name(s@),
{
    if str_eq(s, "mysql") {
        DbKind::Mysql
    } else if str_eq(s, "tdsql") {
        DbKind::Tdsql
    } else if str_eq(s, "opengauss") {
        DbKind::Opengauss
    } else if str_eq(s, "sqlserver") {
        DbKind::SqlServer
    } else if str_eq(s, "oracle") {
        DbKind::Oracle
    } else {
        DbKind::Postgres
    }
}

/// Every kind reads back as itself from the name it is stored under.
pub proof fn db_kind_name_round_trip(kind: DbKind)
    ensures
        db_kind_of_name(db_kind_name(kind)) == kind,
{
    reveal_strlit("mysql");
    reveal_strlit("tdsql");
    reveal_strlit("postgres");
    reveal_strlit("opengauss");
    reveal_strlit("sqlserver");
    reveal_strlit("oracle");
    let m = "mysql"@;
    let t = "tdsql"@;
    let p = "postgres"@;
    let o = "opengauss"@;
    let q = "sqlserver"@;
    let r = "oracle"@;
    assert(m[0] == 'm' && t[0] == 't' && p[0] == 'p' && o[0] == 'o' && q[0] == 's' && r[0] == 'o');
    assert(o.len() == 9 && r.len() == 6);
    assert(t != m && p != m && p != t && p != o && p != q && p != r && o != m && o != t);
    assert(q != m && q != t && q != o && r != m && r != t && r != o && r != q);
}

/// What `uuid::Uuid::parse_str` makes of a text, as a 128-bit value.
pub uninterp spec fn uuid_parse(s: Seq<char>) -> Option<u128>;

/// `uuid::Uuid::parse_str`, the result taken by `Uuid::as_u128`. Named; the
/// crate documents that the hyphenated form it writes parses back.
#[verifier::external_body]
fn parse_uuid(s: &str) -> (r: Option<u128>)
    ensures
        r == uuid_parse(s@),
        forall|x: u128| s@ == #[trigger] uuid_text(x) ==> r == Some(x),
{
    uuid::Uuid::parse_str(s).ok().map(|u| u.as_u128())
}

/// A stored identifier as a value; one that does not parse reads as the
/// nil UUID.
pub open spec fn stored_id(s: Seq<char>) -> u128 {
    match uuid_parse(s) {
        Some(x) => x,
        None => 0,
    }
}

pub fn read_id(s: &str) -> (id: u128)
    ensures
        id == stored_id(s@),
        forall|x: u128| s@ == #[trigger] uuid_text(x) ==> id == x,
{
    match parse_uuid(s) {
        Some(x) => x,
        None => 0,
    }
}

pub open spec fn opt_str(o: Option<String>) -> Option<Seq<char>> {
    match o {
        Some(s) => Some(s@),
        None => None,
    }
}

pub fn copy_opt(o: &Option<String>) -> (r: Option<String>)
    ensures
        opt_str(r) == opt_str(*o),
{
    match o {
        Some(s) => Some(copy_string(s)),
        None => None,
    }
}

/// The column values of a `sql_data_sources` row.
pub struct ProfileRow {
    pub id: String,
    pub name: String,
    pub db_kind: String,
    pub host: String,
    pub port: Option<i64>,
    pub database_name: Option<String>,
    pub default_schema: Option<String>,
    pub username: Option<String>,
    pub credential_ref: Option<String>,
    pub environment: String,
    pub group_name: Option<String>,
    pub readonly: i64,
    pub ssl_required: i64,
    pub created_at: String,
    pub updated_at: String,
    pub last_used_at: Option<String>,
}

/// `r` is the row written for `p`: the id in hyphenated form, the kind by
/// its name, the port widened, the flags as 0 or 1.
pub open spec fn profile_row_of(p: DataSourceProfile, r: ProfileRow) -> bool {
    &&& r.id@ == uuid_text(p.id)
    &&& r.name@ == p.name@
    &&& r.db_kind@ == db_kind_name(p.db_kind)
    &&& r.host@ == p.host@
    &&& r.port == (match p.port { Some(x) => Some(x as i64), None => None })
    &&& opt_str(r.database_name) == opt_str(p.database_name)
    &&& opt_str(r.default_schema) == opt_str(p.default_schema)
    &&& opt_str(r.username) == opt_str(p.username)
    &&& opt_str(r.credential_ref) == opt_str(p.credential_ref)
    &&& r.environment@ == p.environment@
    &&& opt_str(r.group_name) == opt_str(p.group_name)
    &&& r.readonly == (if p.readonly { 1i64 } else { 0i64 })
    &&& r.ssl_required == (if p.ssl_required { 1i64 } else { 0i64 })
    &&& r.created_at@ == p.created_at@
    &&& r.updated_at@ == p.updated_at@
    &&& opt_str(r.last_used_at) == opt_str(p.last_used_at)
}

/// `p` is the profile read from `r`: the port narrowed to 16 bits, a flag
/// set when its value is not 0.
pub open spec fn profile_of_row(r: ProfileRow, p: DataSourceProfile) -> bool {
    &&& p.id == stored_id(r.id@)
    &&& (forall|x: u128| r.id@ == #[trigger] uuid_text(x) ==> p.id == x)
    &&& p.name@ == r.name@
    &&& p.db_kind == db_kind_of_name(r.db_kind@)
    &&& p.host@ == r.host@
    &&& p.port == (match r.port { Some(x) => Some(x as u16), None => None })
    &&& opt_str(p.database_name) == opt_str(r.database_name)
    &&& opt_str(p.default_schema) == opt_str(r.default_schema)
    &&& opt_str(p.username) == opt_str(r.username)
    &&& opt_str(p.credential_ref) == opt_str(r.credential_ref)
    &&& p.environment@ == r.environment@
    &&& opt_str(p.group_name) == opt_str(r.group_name)
    &&& p.readonly == (r.readonly != 0)
    &&& p.ssl_required == (r.ssl_required != 0)
    &&& p.created_at@ == r.created_at@
    &&& p.updated_at@ == r.updated_at@
    &&& opt_str(p.last_used_at) == opt_str(r.last_used_at)
}

/// Two profiles hold the same values.
pub open spec fn same_profile(a: DataSourceProfile, b: DataSourceProfile) -> bool {
    &&& a.id == b.id
    &&& a.name@ == b.name@
    &&& a.db_kind == b.db_kind
    &&& a.host@ == b.host@
    &&& a.port == b.port
    &&& opt_str(a.database_name) == opt_str(b.database_name)
    &&& opt_str(a.default_schema) == opt_str(b.default_schema)
    &&& opt_str(a.username) == opt_str(b.username)
    &&& opt_str(a.credential_ref) == opt_str(b.credential_ref)
    &&& a.environment@ == b.environment@
    &&& opt_str(a.group_name) == opt_str(b.group_name)
    &&& a.readonly == b.readonly
    &&& a.ssl_required == b.ssl_required
    &&& a.created_at@ == b.created_at@
    &&& a.updated_at@ == b.updated_at@
    &&& opt_str(a.last_used_at) == opt_str(b.last_used_at)
}

pub fn profile_to_row(p: &DataSourceProfile) -> (r: ProfileRow)
    ensures
        profile_row_of(*p, r),
{
    ProfileRow {
        id: uuid_string(p.id),
        name: copy_string(&p.name),
        db_kind: String::from_str(db_kind_to_str(p.db_kind)),
        host: copy_string(&p.host),
        port: match p.port {
            Some(x) => Some(x as i64),
            None => None,
        },
        database_name: copy_opt(&p.database_name),
        default_schema: copy_opt(&p.default_schema),
        username: copy_opt(&p.username),
        credential_ref: copy_opt(&p.credential_ref),
        environment: copy_string(&p.environment),
        group_name: copy_opt(&p.group_name),
        readonly: if p.readonly { 1 } else { 0 },
        ssl_required: if p.ssl_required { 1 } else { 0 },
        created_at: copy_string(&p.created_at),
        updated_at: copy_string(&p.updated_at),
        last_used_at: copy_opt(&p.last_used_at),
    }
}

pub fn profile_from_row(r: &ProfileRow) -> (p: DataSourceProfile)
    ensures
        profile_of_row(*r, p),
{
    DataSourceProfile {
        id: read_id(r.id.as_str()),
        name: copy_string(&r.name),
        db_kind: db_kind_from_str(r.db_kind.as_str()),
        host: copy_string(&r.host),
        port: match r.port {
            Some(x) => Some(x as u16),
            None => None,
        },
        database_name: copy_opt(&r.database_name),
        default_schema: copy_opt(&r.default_schema),
        username: copy_opt(&r.username),
        credential_ref: copy_opt(&r.credential_ref),
        environment: copy_string(&r.environment),
        group_name: copy_opt(&r.group_name),
        readonly: r.readonly != 0,
        ssl_required: r.ssl_required != 0,
        created_at: copy_string(&r.created_at),
        updated_at: copy_string(&r.updated_at),
        last_used_at: copy_opt(&r.last_used_at),
    }
}

/// A data source reads back from the row written for it as the same
/// profile.
pub proof fn profile_row_round_trip(p: DataSourceProfile, r: ProfileRow, q: DataSourceProfile)
    requires
        profile_row_of(p, r),
        profile_of_row(r, q),
    ensures
        same_profile(p, q),
{
    db_kind_name_round_trip(p.db_kind);
    match p.port {
        Some(x) => assert((x as i64) as u16 == x),
        None => {},
    }
}

/// A repository of data source profiles over a connection pool.
pub struct SqlDataSourcesRepo<P> {
    pool: P,
}

impl<P> SqlDataSourcesRepo<P> {
    pub closed spec fn pool_view(&self) -> P {
        self.pool
    }

    pub fn new(pool: P) -> (r: Self)
        ensures
            r.pool_view() == pool,
    {
        Self { pool }
    }

    pub fn pool(&self) -> (p: &P)
        ensures
            *p == self.pool_view(),
    {
        &self.pool
    }
}


/// The column values of a `sql_query_history` row.
pub struct HistoryRow {
    pub id: String,
    pub data_source_id: String,
    pub sql_text: String,
    pub status: String,
    pub duration_ms: Option<i64>,
    pub row_count: Option<i64>,
    pub error_message: Option<String>,
    pub created_at: String,
}

/// The row recorded for one executed statement; `id` is the new record's
/// identifier.
pub fn history_row(
    id: u128,
    data_source_id: u128,
    sql_text: &str,
    status: &str,
    duration_ms: Option<i64>,
    row_count: Option<i64>,
    error_message: Option<&str>,
    created_at: &str,
) -> (r: HistoryRow)
    ensures
        r.id@ == uuid_text(id),
        r.data_source_id@ == uuid_text(data_source_id),
        r.sql_text@ == sql_text@,
        r.status@ == status@,
        r.duration_ms == duration_ms,
        r.row_count == row_count,
        opt_str(r.error_message) == (match error_message { Some(m) => Some(m@), None => None::<Seq<char>> }),
        r.created_at@ == created_at@,
{
    HistoryRow {
        id: uuid_string(id),
        data_source_id: uuid_string(data_source_id),
        sql_text: String::from_str(sql_text),
        status: String::from_str(status),
        duration_ms,
        row_count,
        error_message: match error_message {
            Some(m) => Some(String::from_str(m)),
            None => None,
        },
        created_at: String::from_str(created_at),
    }
}

/// `e` is the history entry read from `r` (entries have no title).
pub open spec fn history_of_row(r: HistoryRow, e: QueryHistoryEntry) -> bool {
    &&& e.id == stored_id(r.id@)
    &&& (forall|x: u128| r.id@ == #[trigger] uuid_text(x) ==> e.id == x)
    &&& e.data_source_id == stored_id(r.data_source_id@)
    &&& (forall|x: u128| r.data_source_id@ == #[trigger] uuid_text(x) ==> e.data_source_id == x)
    &&& e.title is None
    &&& e.sql_text@ == r.sql_text@
    &&& e.status@ == r.status@
    &&& e.duration_ms == r.duration_ms
    &&& e.row_count == r.row_count
    &&& opt_str(e.error_message) == opt_str(r.error_message)
    &&& e.created_at@ == r.created_at@
}

pub fn history_from_row(r: &HistoryRow) -> (e: QueryHistoryEntry)
    ensures
        history_of_row(*r, e),
{
    QueryHistoryEntry {
        id: read_id(r.id.as_str()),
        data_source_id: read_id(r.data_source_id.as_str()),
        title: None,
        sql_text: copy_string(&r.sql_text),
        status: copy_string(&r.status),
        duration_ms: r.duration_ms,
        row_count: r.row_count,
        error_message: copy_opt(&r.error_message),
        created_at: copy_string(&r.created_at),
    }
}

/// What is recorded of a statement reads back unchanged: its data source,
/// text, status, duration, row count, error and time.
pub proof fn history_round_trip(
    id: u128,
    data_source_id: u128,
    sql_text: Seq<char>,
    r: HistoryRow,
    e: QueryHistoryEntry,
)
    requires
        r.id@ == uuid_text(id),
        r.data_source_id@ == uuid_text(data_source_id),
        r.sql_text@ == sql_text,
        history_of_row(r, e),
    ensures
        e.id == id,
        e.data_source_id == data_source_id,
        e.sql_text@ == sql_text,
        e.status@ == r.status@,
        e.duration_ms == r.duration_ms,
        e.row_count == r.row_count,
        e.created_at@ == r.created_at@,
{
}

/// The column values of a `sql_workspace_tabs` row.
pub struct TabRow {
    pub id: String,
    pub data_source_id: String,
    pub title: String,
    pub file_path: String,
    pub result_view_mode: String,
    pub cursor_json: Option<String>,
    pub sort_order: i64,
    pub updated_at: String,
}

pub open spec fn tab_row_of(t: WorkspaceTab, r: TabRow) -> bool {
    &&& r.id@ == uuid_text(t.id)
    &&& r.data_source_id@ == uuid_text(t.data_source_id)
    &&& r.title@ == t.title@
    &&& r.file_path@ == t.file_path@
    &&& r.result_view_mode@ == t.result_view_mode@
    &&& opt_str(r.cursor_json) == opt_str(t.cursor_json)
    &&& r.sort_order == t.sort_order
    &&& r.updated_at@ == t.updated_at@
}

pub open spec fn tab_of_row(r: TabRow, t: WorkspaceTab) -> bool {
    &&& t.id == stored_id(r.id@)
    &&& (forall|x: u128| r.id@ == #[trigger] uuid_text(x) ==> t.id == x)
    &&& t.data_source_id == stored_id(r.data_source_id@)
    &&& (forall|x: u128| r.data_source_id@ == #[trigger] uuid_text(x) ==> t.data_source_id == x)
    &&& t.title@ == r.title@
    &&& t.file_path@ == r.file_path@
    &&& t.result_view_mode@ == r.result_view_mode@
    &&& opt_str(t.cursor_json) == opt_str(r.cursor_json)
    &&& t.sort_order == r.sort_order
    &&& t.updated_at@ == r.updated_at@
}

pub fn tab_to_row(t: &WorkspaceTab) -> (r: TabRow)
    ensures
        tab_row_of(*t, r),
{
    TabRow {
        id: uuid_string(t.id),
        data_source_id: uuid_string(t.data_source_id),
        title: copy_string(&t.title),
        file_path: copy_string(&t.file_path),
        result_view_mode: copy_string(&t.result_view_mode),
        cursor_json: copy_opt(&t.cursor_json),
        sort_order: t.sort_order,
        updated_at: copy_string(&t.updated_at),
    }
}

pub fn tab_from_row(r: &TabRow) -> (t: WorkspaceTab)
    ensures
        tab_of_row(*r, t),
{
    WorkspaceTab {
        id: read_id(r.id.as_str()),
        data_source_id: read_id(r.data_source_id.as_str()),
        title: copy_string(&r.title),
        file_path: copy_string(&r.file_path),
        result_view_mode: copy_string(&r.result_view_mode),
        cursor_json: copy_opt(&r.cursor_json),
        sort_order: r.sort_order,
        updated_at: copy_string(&r.updated_at),
    }
}

/// A workspace tab reads back from the row written for it with the same
/// values.
pub proof fn tab_row_round_trip(t: WorkspaceTab, r: TabRow, u: WorkspaceTab)
    requires
        tab_row_of(t, r),
        tab_of_row(r, u),
    ensures
        u.id == t.id,
        u.data_source_id == t.data_source_id,
        u.title@ == t.title@,
        u.file_path@ == t.file_path@,
        u.result_view_mode@ == t.result_view_mode@,
        opt_str(u.cursor_json) == opt_str(t.cursor_json),
        u.sort_order == t.sort_order,
        u.updated_at@ == t.updated_at@,
{
}

/// A repository of query history entries over a connection pool.
pub struct SqlQueryHistoryRepo<P> {
    pool: P,
}

impl<P> SqlQueryHistoryRepo<P> {
    pub closed spec fn pool_view(&self) -> P {
        self.pool
    }

    pub fn new(pool: P) -> (r: Self)
        ensures
            r.pool_view() == pool,
    {
        Self { pool }
    }

    pub fn pool(&self) -> (p: &P)
        ensures
            *p == self.pool_view(),
    {
        &self.pool
    }
}

/// A repository of workspace tab metadata over a connection pool.
pub struct SqlWorkspaceTabsRepo<P> {
    pool: P,
}

impl<P> SqlWorkspaceTabsRepo<P> {
    pub closed spec fn pool_view(&self) -> P {
        self.pool
    }

    pub fn new(pool: P) -> (r: Self)
        ensures
            r.pool_view() == pool,
    {
        Self { pool }
    }

    pub fn pool(&self) -> (p: &P)
        ensures
            *p == self.pool_view(),
    {
        &self.pool
    }
}

} // verus!
