//! Which adapter serves which database kind.

use vstd::prelude::*;
use crate::error::AppError;
use crate::model::DbKind;

verus! {

/// The adapter of MySQL and of TDSQL (same wire protocol).
#[derive(Debug, Clone, Copy)]
pub struct MySqlAdapter;

/// The adapter of PostgreSQL and of openGauss (PostgreSQL wire protocol).
#[derive(Debug, Clone, Copy)]
pub struct PostgresAdapter {
    /// openGauss differs only in which catalogue queries it answers.
    pub opengauss: bool,
}

/// The adapter of SQL Server.
#[derive(Debug, Clone, Copy)]
pub struct SqlServerAdapter;

impl MySqlAdapter {
    pub fn kind(&self) -> (k: DbKind)
        ensures
            k == DbKind::Mysql,
    {
        DbKind::Mysql
    }
}

impl PostgresAdapter {
    pub fn kind(&self) -> (k: DbKind)
        ensures
            k == (if self.opengauss { DbKind::Opengauss } else { DbKind::Postgres }),
    {
        if self.opengauss {
            DbKind::Opengauss
        } else {
            DbKind::Postgres
        }
    }
}

impl SqlServerAdapter {
    pub fn kind(&self) -> (k: DbKind)
        ensures
            k == DbKind::SqlServer,
    {
        DbKind::SqlServer
    }
}

/// The adapter chosen for a kind.
#[derive(Debug, Clone, Copy)]
pub enum AdapterChoice {
    MySql(MySqlAdapter),
    Postgres(PostgresAdapter),
    SqlServer(SqlServerAdapter),
}

/// The adapter for `kind`; Oracle has none (it needs Oracle's client
/// libraries on the machine) and is refused with an `Internal` error.
pub fn create_adapter(kind: DbKind) -> (r: Result<AdapterChoice, AppError>)
    ensures
        (kind == DbKind::Mysql || kind == DbKind::Tdsql) <==> r matches Ok(AdapterChoice::MySql(_)),
        kind == DbKind::Postgres <==> (r matches Ok(AdapterChoice::Postgres(a)) && !a.opengauss),
        kind == DbKind::Opengauss <==> (r matches Ok(AdapterChoice::Postgres(a)) && a.opengauss),
        kind == DbKind::SqlServer <==> r matches Ok(AdapterChoice::SqlServer(_)),
        kind == DbKind::Oracle <==> r matches Err(AppError::Internal(_)),
{
    match kind {
        DbKind::Mysql | DbKind::Tdsql => Ok(AdapterChoice::MySql(MySqlAdapter)),
        DbKind::Postgres => Ok(AdapterChoice::Postgres(PostgresAdapter { opengauss: false })),
        DbKind::Opengauss => Ok(AdapterChoice::Postgres(PostgresAdapter { opengauss: true })),
        DbKind::SqlServer => Ok(AdapterChoice::SqlServer(SqlServerAdapter)),
        DbKind::Oracle => Err(AppError::Internal(
            String::from_str("Oracle 适配器暂未接入（需要本机安装 OCI/Instant Client），敬请期待"),
        )),
    }
}

} // verus!
