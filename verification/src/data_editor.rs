//! SQL text for browsing and editing table data: identifier and literal
//! quoting, paging and counting queries, single-row UPDATE/DELETE/INSERT
//! keyed by the primary key, and ALTER TABLE statements.

use vstd::prelude::*;
use crate::model::{DbKind, ObjectRef};
use crate::text::{decimal, doubled, joined, push_char, push_decimal, quote_with, quoted};

verus! {

/// The characters that open and close a quoted identifier in each dialect.
pub open spec fn ident_quotes(kind: DbKind) -> (char, char) {
    match kind {
        DbKind::Mysql | DbKind::Tdsql => ('`', '`'),
        DbKind::SqlServer => ('[', ']'),
        _ => ('"', '"'),
    }
}

/// `s` as a quoted identifier of the dialect, the closing quote doubled inside.
pub open spec fn quoted_ident(kind: DbKind, s: Seq<char>) -> Seq<char> {
    quoted(ident_quotes(kind).0, ident_quotes(kind).1, s)
}

/// Quotes an identifier: MySQL/TDSQL with backticks, SQL Server with square
/// brackets, the others with double quotes.
pub fn quote_ident(kind: DbKind, s: &str) -> (r: String)
    ensures
        r@ == quoted_ident(kind, s@),
{
    match kind {
        DbKind::Mysql | DbKind::Tdsql => quote_with('`', '`', s),
        DbKind::SqlServer => quote_with('[', ']', s),
        _ => quote_with('"', '"', s),
    }
}

/// The qualified, quoted name of a table: `schema.name`, or just the name
/// when the schema is empty.
pub open spec fn quoted_table(kind: DbKind, schema: Seq<char>, name: Seq<char>) -> Seq<char> {
    if schema.len() == 0 {
        quoted_ident(kind, name)
    } else {
        quoted_ident(kind, schema) + seq!['.'] + quoted_ident(kind, name)
    }
}

pub fn quote_table(kind: DbKind, object: &ObjectRef) -> (r: String)
    ensures
        r@ == quoted_table(kind, object.schema@, object.name@),
{
    if object.schema.as_str().is_empty() {
        quote_ident(kind, object.name.as_str())
    } else {
        let mut r = quote_ident(kind, object.schema.as_str());
        push_char(&mut r, '.');
        let n = quote_ident(kind, object.name.as_str());
        r.append(n.as_str());
        r
    }
}

/// A cell value typed into the table editor: NULL or text.
#[derive(Debug, Clone)]
pub struct CellInput {
    pub is_null: bool,
    pub text: String,
}

/// A column name with the value it has (or gets).
#[derive(Debug, Clone)]
pub struct NamedCell {
    pub name: String,
    pub value: CellInput,
}

/// A value as an SQL literal: `NULL`, or the text as a string literal with
/// its single quotes doubled (every database converts string literals to
/// the column's type).
pub open spec fn literal_of(value: CellInput) -> Seq<char> {
    if value.is_null {
        "NULL"@
    } else {
        quoted('\'', '\'', value.text@)
    }
}

pub fn quote_literal(value: &CellInput) -> (r: String)
    ensures
        r@ == literal_of(*value),
{
    if value.is_null {
        return String::from_str("NULL");
    }
    quote_with('\'', '\'', value.text.as_str())
}

/// `column = literal` for one key column.
pub open spec fn key_condition(kind: DbKind, c: NamedCell) -> Seq<char> {
    quoted_ident(kind, c.name@) + " = "@ + literal_of(c.value)
}

/// The conditions for all key columns joined with ` AND `.
pub open spec fn where_text(kind: DbKind, pk: Seq<NamedCell>) -> Seq<char> {
    joined(pk.map_values(|c: NamedCell| key_condition(kind, c)), " AND "@)
}

pub fn where_clause(kind: DbKind, pk: &[NamedCell]) -> (r: String)
    ensures
        r@ == where_text(kind, pk@),
{
    let ghost parts = pk@.map_values(|c: NamedCell| key_condition(kind, c));
    let mut r = String::new();
    let mut i: usize = 0;
    while i < pk.len()
        invariant
            i <= pk.len(),
            parts == pk@.map_values(|c: NamedCell| key_condition(kind, c)),
            r@ == joined(parts.take(i as int), " AND "@),
        decreases pk.len() - i,
    {
        assert(parts.take(i + 1).drop_last() =~= parts.take(i as int));
        if i > 0 {
            r.append(" AND ");
        }
        let c = &pk[i];
        let id = quote_ident(kind, c.name.as_str());
        r.append(id.as_str());
        r.append(" = ");
        let lit = quote_literal(&c.value);
        r.append(lit.as_str());
        i = i + 1;
        assert(r@ =~= joined(parts.take(i as int), " AND "@));
    }
    assert(parts.take(pk.len() as int) =~= parts);
    r
}

/// The query that reads one page of a table. SQL Server's
/// `OFFSET .. FETCH` needs an ORDER BY; without a key column it orders by
/// `(SELECT NULL)`.
pub open spec fn page_query(
    kind: DbKind,
    table: Seq<char>,
    order_col: Option<Seq<char>>,
    limit: nat,
    offset: nat,
) -> Seq<char> {
    if kind == DbKind::SqlServer {
        let order = match order_col {
            Some(c) => quoted_ident(kind, c),
            None => "(SELECT NULL)"@,
        };
        "SELECT * FROM "@ + table + " ORDER BY "@ + order + " OFFSET "@ + decimal(offset)
            + " ROWS FETCH NEXT "@ + decimal(limit) + " ROWS ONLY"@
    } else {
        "SELECT * FROM "@ + table + " LIMIT "@ + decimal(limit) + " OFFSET "@ + decimal(offset)
    }
}

pub open spec fn opt_view(o: Option<&str>) -> Option<Seq<char>> {
    match o {
        Some(s) => Some(s@),
        None => None,
    }
}

pub fn build_page_query(
    kind: DbKind,
    object: &ObjectRef,
    order_col: Option<&str>,
    limit: usize,
    offset: usize,
) -> (r: String)
    ensures
        r@ == page_query(
            kind,
            quoted_table(kind, object.schema@, object.name@),
            opt_view(order_col),
            limit as nat,
            offset as nat,
        ),
{
    let table = quote_table(kind, object);
    let mut r = String::from_str("SELECT * FROM ");
    r.append(table.as_str());
    match kind {
        DbKind::SqlServer => {
            r.append(" ORDER BY ");
            match order_col {
                Some(c) => {
                    let q = quote_ident(kind, c);
                    r.append(q.as_str());
                },
                None => {
                    r.append("(SELECT NULL)");
                },
            }
            r.append(" OFFSET ");
            push_decimal(&mut r, offset as u64);
            r.append(" ROWS FETCH NEXT ");
            push_decimal(&mut r, limit as u64);
            r.append(" ROWS ONLY");
        },
        _ => {
            r.append(" LIMIT ");
            push_decimal(&mut r, limit as u64);
            r.append(" OFFSET ");
            push_decimal(&mut r, offset as u64);
        },
    }
    r
}

pub open spec fn count_query(table: Seq<char>) -> Seq<char> {
    "SELECT COUNT(*) FROM "@ + table
}

pub fn build_count_query(kind: DbKind, object: &ObjectRef) -> (r: String)
    ensures
        r@ == count_query(quoted_table(kind, object.schema@, object.name@)),
{
    let mut r = String::from_str("SELECT COUNT(*) FROM ");
    let t = quote_table(kind, object);
    r.append(t.as_str());
    r
}

/// `UPDATE table SET column = value WHERE key..`: one cell, addressed by
/// the row's primary key.
pub open spec fn update_cell_sql(
    kind: DbKind,
    table: Seq<char>,
    pk: Seq<NamedCell>,
    column: Seq<char>,
    value: CellInput,
) -> Seq<char> {
    "UPDATE "@ + table + " SET "@ + quoted_ident(kind, column) + " = "@ + literal_of(value)
        + " WHERE "@ + where_text(kind, pk)
}

pub fn build_update_cell(
    kind: DbKind,
    object: &ObjectRef,
    pk: &[NamedCell],
    column: &str,
    value: &CellInput,
) -> (r: String)
    ensures
        r@ == update_cell_sql(kind, quoted_table(kind, object.schema@, object.name@), pk@, column@, *value),
{
    let mut r = String::from_str("UPDATE ");
    let t = quote_table(kind, object);
    r.append(t.as_str());
    r.append(" SET ");
    let c = quote_ident(kind, column);
    r.append(c.as_str());
    r.append(" = ");
    let l = quote_literal(value);
    r.append(l.as_str());
    r.append(" WHERE ");
    let w = where_clause(kind, pk);
    r.append(w.as_str());
    r
}

pub open spec fn delete_row_sql(kind: DbKind, table: Seq<char>, pk: Seq<NamedCell>) -> Seq<char> {
    "DELETE FROM "@ + table + " WHERE "@ + where_text(kind, pk)
}

pub fn build_delete_row(kind: DbKind, object: &ObjectRef, pk: &[NamedCell]) -> (r: String)
    ensures
        r@ == delete_row_sql(kind, quoted_table(kind, object.schema@, object.name@), pk@),
{
    let mut r = String::from_str("DELETE FROM ");
    let t = quote_table(kind, object);
    r.append(t.as_str());
    r.append(" WHERE ");
    let w = where_clause(kind, pk);
    r.append(w.as_str());
    r
}

pub open spec fn insert_row_sql(kind: DbKind, table: Seq<char>, values: Seq<NamedCell>) -> Seq<char> {
    "INSERT INTO "@ + table + " ("@ + joined(
        values.map_values(|c: NamedCell| quoted_ident(kind, c.name@)),
        ", "@,
    ) + ") VALUES ("@ + joined(values.map_values(|c: NamedCell| literal_of(c.value)), ", "@)
        + ")"@
}

pub fn build_insert_row(kind: DbKind, object: &ObjectRef, values: &[NamedCell]) -> (r: String)
    ensures
        r@ == insert_row_sql(kind, quoted_table(kind, object.schema@, object.name@), values@),
{
    let ghost names = values@.map_values(|c: NamedCell| quoted_ident(kind, c.name@));
    let ghost lits = values@.map_values(|c: NamedCell| literal_of(c.value));
    let mut cols = String::new();
    let mut vals = String::new();
    let mut i: usize = 0;
    while i < values.len()
        invariant
            i <= values.len(),
            names == values@.map_values(|c: NamedCell| quoted_ident(kind, c.name@)),
            lits == values@.map_values(|c: NamedCell| literal_of(c.value)),
            cols@ == joined(names.take(i as int), ", "@),
            vals@ == joined(lits.take(i as int), ", "@),
        decreases values.len() - i,
    {
        assert(names.take(i + 1).drop_last() =~= names.take(i as int));
        assert(lits.take(i + 1).drop_last() =~= lits.take(i as int));
        if i > 0 {
            cols.append(", ");
            vals.append(", ");
        }
        let q = quote_ident(kind, values[i].name.as_str());
        cols.append(q.as_str());
        let l = quote_literal(&values[i].value);
        vals.append(l.as_str());
        i = i + 1;
        assert(cols@ =~= joined(names.take(i as int), ", "@));
        assert(vals@ =~= joined(lits.take(i as int), ", "@));
    }
    assert(names.take(values.len() as int) =~= names);
    assert(lits.take(values.len() as int) =~= lits);
    let mut r = String::from_str("INSERT INTO ");
    let t = quote_table(kind, object);
    r.append(t.as_str());
    r.append(" (");
    r.append(cols.as_str());
    r.append(") VALUES (");
    r.append(vals.as_str());
    r.append(")");
    r
}

/// One change to a table's structure, turned into DDL text that the user
/// looks over and runs (it is classified `Confirm` like any DDL).
#[derive(Debug, Clone)]
pub enum AlterOp {
    AddColumn { name: String, data_type: String, nullable: bool },
    DropColumn { name: String },
    RenameColumn { old_name: String, new_name: String },
}

/// The DDL of one change. SQL Server writes `ADD` without `COLUMN` and
/// renames through `sp_rename 'schema.table.column'`; the others use the
/// standard forms. The data type is written as given.
pub open spec fn alter_sql(kind: DbKind, schema: Seq<char>, name: Seq<char>, op: AlterOp) -> Seq<char> {
    let table = quoted_table(kind, schema, name);
    match op {
        AlterOp::AddColumn { name: col, data_type, nullable } => {
            let null_sql = if nullable { Seq::<char>::empty() } else { " NOT NULL"@ };
            if kind == DbKind::SqlServer {
                "ALTER TABLE "@ + table + " ADD "@ + quoted_ident(kind, col@) + seq![' '] + data_type@ + null_sql
            } else {
                "ALTER TABLE "@ + table + " ADD COLUMN "@ + quoted_ident(kind, col@) + seq![' ']
                    + data_type@ + null_sql
            }
        },
        AlterOp::DropColumn { name: col } => "ALTER TABLE "@ + table + " DROP COLUMN "@ + quoted_ident(
            kind,
            col@,
        ),
        AlterOp::RenameColumn { old_name, new_name } => if kind == DbKind::SqlServer {
            "EXEC sp_rename '"@ + schema + seq!['.'] + name + seq!['.'] + old_name@ + "', '"@
                + new_name@ + "', 'COLUMN'"@
        } else {
            "ALTER TABLE "@ + table + " RENAME COLUMN "@ + quoted_ident(kind, old_name@) + " TO "@
                + quoted_ident(kind, new_name@)
        },
    }
}

fn alter_one(kind: DbKind, object: &ObjectRef, table: &String, op: &AlterOp) -> (r: String)
    requires
        table@ == quoted_table(kind, object.schema@, object.name@),
    ensures
        r@ == alter_sql(kind, object.schema@, object.name@, *op),
{
    match op {
        AlterOp::AddColumn { name, data_type, nullable } => {
            let mut r = String::from_str("ALTER TABLE ");
            r.append(table.as_str());
            if kind == DbKind::SqlServer {
                r.append(" ADD ");
            } else {
                r.append(" ADD COLUMN ");
            }
            let q = quote_ident(kind, name.as_str());
            r.append(q.as_str());
            push_char(&mut r, ' ');
            r.append(data_type.as_str());
            if !*nullable {
                r.append(" NOT NULL");
            }
            r
        },
        AlterOp::DropColumn { name } => {
            let mut r = String::from_str("ALTER TABLE ");
            r.append(table.as_str());
            r.append(" DROP COLUMN ");
            let q = quote_ident(kind, name.as_str());
            r.append(q.as_str());
            r
        },
        AlterOp::RenameColumn { old_name, new_name } => {
            if kind == DbKind::SqlServer {
                let mut r = String::from_str("EXEC sp_rename '");
                r.append(object.schema.as_str());
                push_char(&mut r, '.');
                r.append(object.name.as_str());
                push_char(&mut r, '.');
                r.append(old_name.as_str());
                r.append("', '");
                r.append(new_name.as_str());
                r.append("', 'COLUMN'");
                r
            } else {
                let mut r = String::from_str("ALTER TABLE ");
                r.append(table.as_str());
                r.append(" RENAME COLUMN ");
                let a = quote_ident(kind, old_name.as_str());
                r.append(a.as_str());
                r.append(" TO ");
                let b = quote_ident(kind, new_name.as_str());
                r.append(b.as_str());
                r
            }
        },
    }
}

/// One DDL statement per change, in the order of `ops`.
pub fn build_alter_table(kind: DbKind, object: &ObjectRef, ops: &[AlterOp]) -> (r: Vec<String>)
    ensures
        r@.len() == ops@.len(),
        forall|i: int| 0 <= i < ops@.len() ==> #[trigger] r@[i]@ == alter_sql(kind, object.schema@, object.name@, ops@[i]),
{
    let table = quote_table(kind, object);
    let mut r: Vec<String> = Vec::new();
    let mut i: usize = 0;
    while i < ops.len()
        invariant
            i <= ops.len(),
            table@ == quoted_table(kind, object.schema@, object.name@),
            r@.len() == i,
            forall|j: int| 0 <= j < i ==> #[trigger] r@[j]@ == alter_sql(kind, object.schema@, object.name@, ops@[j]),
        decreases ops.len() - i,
    {
        let s = alter_one(kind, object, &table, &ops[i]);
        r.push(s);
        i = i + 1;
    }
    r
}

/// A page query reads `limit` rows after skipping `offset`: outside SQL
/// Server it is `SELECT * FROM <table> LIMIT <limit> OFFSET <offset>`, the
/// page size after LIMIT and the skipped rows after OFFSET, whatever order
/// column is given; SQL Server skips with `OFFSET <offset> ROWS` and reads
/// with `FETCH NEXT <limit> ROWS ONLY` after an ORDER BY on the key column
/// (or `(SELECT NULL)`).
pub proof fn page_query_reads_limit_after_offset(
    kind: DbKind,
    table: Seq<char>,
    order_col: Option<Seq<char>>,
    other_order: Option<Seq<char>>,
    limit: nat,
    offset: nat,
)
    ensures
        kind != DbKind::SqlServer ==> page_query(kind, table, order_col, limit, offset)
            == "SELECT * FROM "@ + table + " LIMIT "@ + decimal(limit) + " OFFSET "@ + decimal(offset),
        kind != DbKind::SqlServer ==> page_query(kind, table, order_col, limit, offset)
            == page_query(kind, table, other_order, limit, offset),
        kind == DbKind::SqlServer ==> page_query(kind, table, order_col, limit, offset) == "SELECT * FROM "@
            + table + " ORDER BY "@ + (match order_col {
            Some(c) => seq!['['] + doubled(c, ']') + seq![']'],
            None => "(SELECT NULL)"@,
        }) + " OFFSET "@ + decimal(offset) + " ROWS FETCH NEXT "@ + decimal(limit) + " ROWS ONLY"@,
{
}

/// Every primary-key column takes part in a row's WHERE clause, in order:
/// one key column gives `<column> = <literal>`, and each further column
/// adds ` AND <column> = <literal>`, its name quoted and its value a NULL
/// or a quoted string.
pub proof fn where_clause_keys_every_column(kind: DbKind, pk: Seq<NamedCell>, c: NamedCell)
    ensures
        where_text(kind, Seq::<NamedCell>::empty()) == Seq::<char>::empty(),
        where_text(kind, seq![c]) == quoted_ident(kind, c.name@) + " = "@ + (if c.value.is_null {
            "NULL"@
        } else {
            seq!['\''] + doubled(c.value.text@, '\'') + seq!['\'']
        }),
        pk.len() > 0 ==> where_text(kind, pk.push(c)) == where_text(kind, pk) + " AND "@ + where_text(kind, seq![c]),
{
    let parts = pk.push(c).map_values(|x: NamedCell| key_condition(kind, x));
    assert(seq![c].map_values(|x: NamedCell| key_condition(kind, x)) =~= seq![key_condition(kind, c)]);
    if pk.len() > 0 {
        assert(parts.drop_last() =~= pk.map_values(|x: NamedCell| key_condition(kind, x)));
    }
}

/// The row DELETE and the cell UPDATE of the same key address the same
/// row: both end in ` WHERE ` and the WHERE text of the whole key; the
/// UPDATE sets the named column to the value's literal.
pub proof fn row_edits_use_the_whole_key(
    kind: DbKind,
    table: Seq<char>,
    pk: Seq<NamedCell>,
    column: Seq<char>,
    value: CellInput,
)
    ensures
        delete_row_sql(kind, table, pk) == "DELETE FROM "@ + table + " WHERE "@ + where_text(kind, pk),
        update_cell_sql(kind, table, pk, column, value) == "UPDATE "@ + table + " SET "@ + quoted_ident(kind, column)
            + " = "@ + literal_of(value) + " WHERE "@ + where_text(kind, pk),
        literal_of(value) == (if value.is_null { "NULL"@ } else { seq!['\''] + doubled(value.text@, '\'') + seq!['\''] }),
{
}

/// What each change of a table's structure says: a rename names the
/// existing column first and the new name after `TO` (SQL Server: the
/// existing `schema.table.column`, then the new name); a drop names the
/// dropped column; an added column is followed by its type and, when it
/// may not be NULL, ` NOT NULL`.
pub proof fn alter_statements_name_their_columns(
    kind: DbKind,
    schema: Seq<char>,
    name: Seq<char>,
    old_name: String,
    new_name: String,
    data_type: String,
    nullable: bool,
)
    ensures
        kind != DbKind::SqlServer ==> alter_sql(kind, schema, name, AlterOp::RenameColumn { old_name, new_name })
            == "ALTER TABLE "@ + quoted_table(kind, schema, name) + " RENAME COLUMN "@ + quoted_ident(kind, old_name@)
            + " TO "@ + quoted_ident(kind, new_name@),
        kind == DbKind::SqlServer ==> alter_sql(kind, schema, name, AlterOp::RenameColumn { old_name, new_name })
            == "EXEC sp_rename '"@ + schema + seq!['.'] + name + seq!['.'] + old_name@ + "', '"@ + new_name@
            + "', 'COLUMN'"@,
        alter_sql(kind, schema, name, AlterOp::DropColumn { name: old_name }) == "ALTER TABLE "@ + quoted_table(
            kind,
            schema,
            name,
        ) + " DROP COLUMN "@ + quoted_ident(kind, old_name@),
        alter_sql(kind, schema, name, AlterOp::AddColumn { name: new_name, data_type, nullable }) == "ALTER TABLE "@
            + quoted_table(kind, schema, name) + (if kind == DbKind::SqlServer { " ADD "@ } else { " ADD COLUMN "@ })
            + quoted_ident(kind, new_name@) + seq![' '] + data_type@ + (if nullable {
            Seq::<char>::empty()
        } else {
            " NOT NULL"@
        }),
{
}

/// Identifiers are quoted in the dialect's own quotes: backticks for MySQL
/// and TDSQL, square brackets for SQL Server, double quotes otherwise; a
/// table with a schema is `schema.name`.
pub proof fn identifiers_use_the_dialect_quotes(kind: DbKind, s: Seq<char>, schema: Seq<char>, name: Seq<char>)
    ensures
        (kind == DbKind::Mysql || kind == DbKind::Tdsql) ==> quoted_ident(kind, s) == seq!['`'] + doubled(s, '`')
            + seq!['`'],
        kind == DbKind::SqlServer ==> quoted_ident(kind, s) == seq!['['] + doubled(s, ']') + seq![']'],
        !(kind == DbKind::Mysql || kind == DbKind::Tdsql || kind == DbKind::SqlServer) ==> quoted_ident(kind, s)
            == seq!['"'] + doubled(s, '"') + seq!['"'],
        schema.len() > 0 ==> quoted_table(kind, schema, name) == quoted_ident(kind, schema) + seq!['.']
            + quoted_ident(kind, name),
        schema.len() == 0 ==> quoted_table(kind, schema, name) == quoted_ident(kind, name),
{
}

} // verus!
