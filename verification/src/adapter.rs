//! What the adapters share: the preview query of an object.

use vstd::prelude::*;
use crate::data_editor::{quote_table, quoted_table};
use crate::model::{DbKind, ObjectRef};

verus! {

/// The first hundred rows of an object, in the dialect's own syntax.
pub open spec fn preview_text(kind: DbKind, table: Seq<char>) -> Seq<char> {
    match kind {
        DbKind::SqlServer => "SELECT TOP (100) * FROM "@ + table + ";"@,
        DbKind::Oracle => "SELECT * FROM "@ + table + " FETCH FIRST 100 ROWS ONLY;"@,
        _ => "SELECT * FROM "@ + table + " LIMIT 100;"@,
    }
}

/// The preview query of `object`; its name is quoted exactly as the table
/// editor quotes it.
pub fn preview_sql(kind: DbKind, object: &ObjectRef) -> (r: String)
    ensures
        r@ == preview_text(kind, quoted_table(kind, object.schema@, object.name@)),
{
    let table = quote_table(kind, object);
    match kind {
        DbKind::SqlServer => {
            let mut r = String::from_str("SELECT TOP (100) * FROM ");
            r.append(table.as_str());
            r.append(";");
            r
        },
        DbKind::Oracle => {
            let mut r = String::from_str("SELECT * FROM ");
            r.append(table.as_str());
            r.append(" FETCH FIRST 100 ROWS ONLY;");
            r
        },
        _ => {
            let mut r = String::from_str("SELECT * FROM ");
            r.append(table.as_str());
            r.append(" LIMIT 100;");
            r
        },
    }
}

} // verus!
