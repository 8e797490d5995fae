//! PostgreSQL and openGauss. Every statement goes through the simple query
//! protocol, so every value arrives as text; `bytea` values arrive as `\x`
//! followed by hexadecimal digits.

use vstd::prelude::*;
use crate::error::AppError;
use crate::model::{Cell, ColumnDef, ExecuteResult, IndexDef, ObjectKind, ObjectRef};
use crate::repo::opt_str;
use crate::text::{chars_of, copy_string, doubled, push_doubled, str_eq};

verus! {

/// An ASCII hexadecimal digit, either case.
pub open spec fn is_hex_digit(c: char) -> bool {
    ('0' <= c && c <= '9') || ('a' <= c && c <= 'f') || ('A' <= c && c <= 'F')
}

/// The value of a hexadecimal digit.
pub open spec fn hex_value(c: char) -> u8 {
    if '0' <= c && c <= '9' {
        ((c as u32) - 48) as u8
    } else if 'a' <= c && c <= 'f' {
        ((c as u32) - 87) as u8
    } else {
        ((c as u32) - 55) as u8
    }
}

pub fn hex_digit_value(c: char) -> (r: Option<u8>)
    ensures
        is_hex_digit(c) ==> r == Some(hex_value(c)),
        !is_hex_digit(c) ==> r is None,
{
    if '0' <= c && c <= '9' {
        Some(((c as u32) - 48) as u8)
    } else if 'a' <= c && c <= 'f' {
        Some(((c as u32) - 87) as u8)
    } else if 'A' <= c && c <= 'F' {
        Some(((c as u32) - 55) as u8)
    } else {
        None
    }
}

/// Whether a text looks like a `bytea` value: `\x` and hexadecimal digits.
pub open spec fn looks_like_bytea(s: Seq<char>) -> bool {
    &&& s.len() >= 2
    &&& s[0] == '\\'
    &&& s[1] == 'x'
    &&& forall|i: int| 2 <= i < s.len() ==> is_hex_digit(#[trigger] s[i])
}

pub fn looks_like_pg_bytea_hex(text: &str) -> (b: bool)
    ensures
        b == looks_like_bytea(text@),
{
    let v = chars_of(text);
    if v.len() < 2 || v[0] != '\\' || v[1] != 'x' {
        return false;
    }
    let mut i: usize = 2;
    while i < v.len()
        invariant
            2 <= i <= v.len(),
            v@ == text@,
            forall|j: int| 2 <= j < i ==> is_hex_digit(#[trigger] v@[j]),
        decreases v.len() - i,
    {
        if hex_digit_value(v[i]).is_none() {
            return false;
        }
        i = i + 1;
    }
    true
}

/// The bytes of pairs of hexadecimal digits.
pub open spec fn decode_hex_pairs(s: Seq<char>) -> Seq<u8>
    decreases s.len(),
{
    if s.len() < 2 {
        Seq::empty()
    } else {
        decode_hex_pairs(s.subrange(0, s.len() - 2)).push(
            (hex_value(s[s.len() - 2]) * 16 + hex_value(s[s.len() - 1])) as u8,
        )
    }
}

/// The bytes of a `bytea` text of even length (`\x` and digit pairs).
pub fn decode_bytea(text: &str) -> (b: Vec<u8>)
    requires
        looks_like_bytea(text@),
        text@.len() % 2 == 0,
    ensures
        b@ == decode_hex_pairs(text@.skip(2)),
{
    let v = chars_of(text);
    let ghost h = text@.skip(2);
    let mut out: Vec<u8> = Vec::new();
    let mut i: usize = 2;
    while i < v.len()
        invariant
            2 <= i <= v.len(),
            v@ == text@,
            h == text@.skip(2),
            looks_like_bytea(text@),
            i % 2 == 0,
            v.len() % 2 == 0,
            out@ == decode_hex_pairs(h.subrange(0, i - 2)),
        decreases v.len() - i,
    {
        assert(is_hex_digit(v@[i as int]));
        assert(is_hex_digit(v@[i + 1]));
        let hi = hex_digit_value(v[i]).unwrap();
        let lo = hex_digit_value(v[i + 1]).unwrap();
        out.push(hi * 16 + lo);
        let ghost next = h.subrange(0, i as int);
        assert(next.subrange(0, next.len() - 2) =~= h.subrange(0, i - 2));
        assert(next[next.len() - 2] == v@[i as int]);
        assert(next[next.len() - 1] == v@[i + 1]);
        i = i + 2;
    }
    assert(h.subrange(0, i - 2) =~= h);
    out
}

/// The cell of one value of the simple query protocol: NULL, a `bytea`
/// shown as binary, or text.
pub open spec fn pg_cell_ok(value: Option<Seq<char>>, c: Cell) -> bool {
    match value {
        None => c.is_null && !c.is_binary && c.text@.len() == 0,
        Some(t) => if looks_like_bytea(t) {
            !c.is_null && c.is_binary && c.text@ == crate::model::hex_of_bytes(decode_hex_pairs(t.skip(2)))
        } else {
            !c.is_null && !c.is_binary && c.text@ == t
        },
    }
}

/// A `bytea`-looking value must have whole digit pairs.
pub open spec fn pg_value_readable(value: Option<Seq<char>>) -> bool {
    match value {
        Some(t) => looks_like_bytea(t) ==> t.len() % 2 == 0,
        None => true,
    }
}

/// Whether a value can be read as a cell: it is not a `bytea` text with an
/// odd digit count.
pub fn bytea_readable(value: &Option<String>) -> (b: bool)
    ensures
        b == pg_value_readable(opt_str(*value)),
{
    match value {
        Some(t) => {
            let v = chars_of(t.as_str());
            !looks_like_pg_bytea_hex(t.as_str()) || v.len() % 2 == 0
        },
        None => true,
    }
}

pub fn pg_cell(value: &Option<String>) -> (c: Cell)
    requires
        pg_value_readable(opt_str(*value)),
    ensures
        pg_cell_ok(opt_str(*value), c),
{
    match value {
        None => Cell::null(),
        Some(t) => {
            if looks_like_pg_bytea_hex(t.as_str()) {
                let bytes = decode_bytea(t.as_str());
                Cell::binary_hex(bytes.as_slice())
            } else {
                Cell::text(copy_string(t))
            }
        },
    }
}

/// The cells of one row of the simple query protocol.
pub fn pg_row_cells(values: &Vec<Option<String>>) -> (r: Vec<Cell>)
    requires
        forall|i: int| 0 <= i < values@.len() ==> pg_value_readable(#[trigger] opt_str(values@[i])),
    ensures
        r@.len() == values@.len(),
        forall|i: int| 0 <= i < values@.len() ==> pg_cell_ok(#[trigger] opt_str(values@[i]), r@[i]),
{
    let mut r: Vec<Cell> = Vec::new();
    let mut i: usize = 0;
    while i < values.len()
        invariant
            i <= values.len(),
            r@.len() == i,
            forall|j: int| 0 <= j < values@.len() ==> pg_value_readable(#[trigger] opt_str(values@[j])),
            forall|j: int| 0 <= j < i ==> pg_cell_ok(#[trigger] opt_str(values@[j]), r@[j]),
        decreases values.len() - i,
    {
        assert(pg_value_readable(opt_str(values@[i as int])));
        r.push(pg_cell(&values[i]));
        i = i + 1;
    }
    r
}

/// The text of cell `idx` of a row, or empty where the row is shorter.
pub open spec fn cell_text_of(row: Seq<Cell>, idx: int) -> Seq<char> {
    if 0 <= idx < row.len() {
        row[idx].text@
    } else {
        Seq::empty()
    }
}

pub fn cell_text(row: &[Cell], idx: usize) -> (r: String)
    ensures
        r@ == cell_text_of(row@, idx as int),
{
    if idx < row.len() {
        copy_string(&row[idx].text)
    } else {
        String::new()
    }
}

/// The text of cell `idx`, absent where the row is shorter or the cell NULL.
pub open spec fn cell_text_opt_of(row: Seq<Cell>, idx: int) -> Option<Seq<char>> {
    if 0 <= idx < row.len() && !row[idx].is_null {
        Some(row[idx].text@)
    } else {
        None
    }
}

pub fn cell_text_opt(row: &[Cell], idx: usize) -> (r: Option<String>)
    ensures
        opt_str(r) == cell_text_opt_of(row@, idx as int),
{
    if idx < row.len() && !row[idx].is_null {
        Some(copy_string(&row[idx].text))
    } else {
        None
    }
}

/// The text of the first cell of the first row, or empty.
pub fn first_cell_text(result: &ExecuteResult) -> (r: String)
    ensures
        r@ == (if result.rows@.len() > 0 { cell_text_of(result.rows@[0]@, 0) } else { Seq::empty() }),
{
    if result.rows.len() > 0 {
        cell_text(result.rows[0].as_slice(), 0)
    } else {
        String::new()
    }
}

/// A catalogue name as the body of a string literal (single quotes doubled).
pub fn escape_literal(s: &str) -> (r: String)
    ensures
        r@ == doubled(s@, '\''),
{
    let mut r = String::new();
    push_doubled(&mut r, s, '\'');
    r
}

/// The columns of a table: name, type, nullability, default and comment.
pub open spec fn columns_query_text(schema: Seq<char>, name: Seq<char>) -> Seq<char> {
    "select c.column_name, c.data_type, c.is_nullable, c.column_default, col_description(format('%I.%I', c.table_schema, c.table_name)::regclass::oid, c.ordinal_position) from information_schema.columns c where c.table_schema = '"@
        + doubled(schema, '\'') + "' and c.table_name = '"@ + doubled(name, '\'')
        + "' order by c.ordinal_position"@
}

pub fn columns_query(object: &ObjectRef) -> (r: String)
    ensures
        r@ == columns_query_text(object.schema@, object.name@),
{
    let mut r = String::from_str(
        "select c.column_name, c.data_type, c.is_nullable, c.column_default, col_description(format('%I.%I', c.table_schema, c.table_name)::regclass::oid, c.ordinal_position) from information_schema.columns c where c.table_schema = '",
    );
    push_doubled(&mut r, object.schema.as_str(), '\'');
    r.append("' and c.table_name = '");
    push_doubled(&mut r, object.name.as_str(), '\'');
    r.append("' order by c.ordinal_position");
    r
}

/// The primary key columns of a table.
pub open spec fn primary_key_query_text(schema: Seq<char>, name: Seq<char>) -> Seq<char> {
    "select kcu.column_name from information_schema.table_constraints tc join information_schema.key_column_usage kcu on tc.constraint_name = kcu.constraint_name and tc.table_schema = kcu.table_schema where tc.table_schema = '"@
        + doubled(schema, '\'') + "' and tc.table_name = '"@ + doubled(name, '\'')
        + "' and tc.constraint_type = 'PRIMARY KEY'"@
}

pub fn primary_key_query(object: &ObjectRef) -> (r: String)
    ensures
        r@ == primary_key_query_text(object.schema@, object.name@),
{
    let mut r = String::from_str(
        "select kcu.column_name from information_schema.table_constraints tc join information_schema.key_column_usage kcu on tc.constraint_name = kcu.constraint_name and tc.table_schema = kcu.table_schema where tc.table_schema = '",
    );
    push_doubled(&mut r, object.schema.as_str(), '\'');
    r.append("' and tc.table_name = '");
    push_doubled(&mut r, object.name.as_str(), '\'');
    r.append("' and tc.constraint_type = 'PRIMARY KEY'");
    r
}

/// The table's own comment.
pub open spec fn comment_query_text(schema: Seq<char>, name: Seq<char>) -> Seq<char> {
    "select obj_description('"@ + doubled(schema, '\'') + seq!['.'] + doubled(name, '\'')
        + "'::regclass::oid, 'pg_class')"@
}

pub fn comment_query(object: &ObjectRef) -> (r: String)
    ensures
        r@ == comment_query_text(object.schema@, object.name@),
{
    let mut r = String::from_str("select obj_description('");
    push_doubled(&mut r, object.schema.as_str(), '\'');
    r.append(".");
    push_doubled(&mut r, object.name.as_str(), '\'');
    r.append("'::regclass::oid, 'pg_class')");
    proof { reveal_strlit("."); }
    r
}

/// The indexes of a table with their definitions.
pub open spec fn indexes_query_text(schema: Seq<char>, name: Seq<char>) -> Seq<char> {
    "select indexname, indexdef from pg_indexes where schemaname = '"@ + doubled(schema, '\'')
        + "' and tablename = '"@ + doubled(name, '\'') + "'"@
}

pub fn indexes_query(object: &ObjectRef) -> (r: String)
    ensures
        r@ == indexes_query_text(object.schema@, object.name@),
{
    let mut r = String::from_str("select indexname, indexdef from pg_indexes where schemaname = '");
    push_doubled(&mut r, object.schema.as_str(), '\'');
    r.append("' and tablename = '");
    push_doubled(&mut r, object.name.as_str(), '\'');
    r.append("'");
    r
}

/// The relation kind letter of the objects that have a view definition:
/// `v` for views, `m` for materialized views; other objects have none.
pub open spec fn view_relkind_of(kind: ObjectKind) -> Option<char> {
    match kind {
        ObjectKind::View => Some('v'),
        ObjectKind::MaterializedView => Some('m'),
        _ => None,
    }
}

/// The definition text of a view or materialized view.
pub open spec fn view_definition_query_text(schema: Seq<char>, name: Seq<char>, relkind: char) -> Seq<char> {
    "select pg_get_viewdef(c.oid, true) from pg_class c join pg_namespace n on n.oid = c.relnamespace where n.nspname = '"@
        + doubled(schema, '\'') + "' and c.relname = '"@ + doubled(name, '\'')
        + "' and c.relkind = '"@ + seq![relkind] + "'"@
}

/// The view definition query of `object`, or none for objects without one.
pub fn view_definition_query(object: &ObjectRef) -> (r: Option<String>)
    ensures
        match view_relkind_of(object.kind) {
            Some(k) => r matches Some(q) && q@ == view_definition_query_text(object.schema@, object.name@, k),
            None => r is None,
        },
{
    let relkind = match object.kind {
        ObjectKind::View => 'v',
        ObjectKind::MaterializedView => 'm',
        _ => {
            return None;
        },
    };
    let mut r = String::from_str(
        "select pg_get_viewdef(c.oid, true) from pg_class c join pg_namespace n on n.oid = c.relnamespace where n.nspname = '",
    );
    push_doubled(&mut r, object.schema.as_str(), '\'');
    r.append("' and c.relname = '");
    push_doubled(&mut r, object.name.as_str(), '\'');
    r.append("' and c.relkind = '");
    crate::text::push_char(&mut r, relkind);
    r.append("'");
    Some(r)
}

/// The object kind named in a catalogue row; anything unknown is a table.
pub open spec fn object_kind_of(s: Seq<char>) -> ObjectKind {
    if s == "view"@ {
        ObjectKind::View
    } else if s == "materialized_view"@ {
        ObjectKind::MaterializedView
    } else {
        ObjectKind::Table
    }
}

/// An object of the catalogue listing: schema, name, kind.
pub fn object_from_row(row: &[Cell]) -> (o: ObjectRef)
    ensures
        o.schema@ == cell_text_of(row@, 0),
        o.name@ == cell_text_of(row@, 1),
        o.kind == object_kind_of(cell_text_of(row@, 2)),
{
    let kind_str = cell_text(row, 2);
    let kind = if str_eq(kind_str.as_str(), "view") {
        ObjectKind::View
    } else if str_eq(kind_str.as_str(), "materialized_view") {
        ObjectKind::MaterializedView
    } else {
        ObjectKind::Table
    };
    ObjectRef { schema: cell_text(row, 0), name: cell_text(row, 1), kind }
}

/// Whether `name` is among `names`.
pub fn contains_name(names: &Vec<String>, name: &str) -> (b: bool)
    ensures
        b == crate::text::views(names@).contains(name@),
{
    let mut i: usize = 0;
    while i < names.len()
        invariant
            i <= names.len(),
            forall|j: int| 0 <= j < i ==> names@[j]@ != name@,
        decreases names.len() - i,
    {
        if str_eq(names[i].as_str(), name) {
            assert(crate::text::views(names@)[i as int] == name@);
            return true;
        }
        i = i + 1;
    }
    assert forall|j: int| 0 <= j < crate::text::views(names@).len() implies crate::text::views(names@)[j] != name@ by {}
    false
}

/// A column of the columns query; it is a key column when its name is
/// among `pk_names`, and nullable when the catalogue says `YES`.
pub fn column_from_row(row: &[Cell], pk_names: &Vec<String>) -> (c: ColumnDef)
    ensures
        c.name@ == cell_text_of(row@, 0),
        c.data_type@ == cell_text_of(row@, 1),
        c.nullable == (cell_text_of(row@, 2) == "YES"@),
        opt_str(c.default_value) == cell_text_opt_of(row@, 3),
        opt_str(c.comment) == cell_text_opt_of(row@, 4),
        c.is_primary_key == crate::text::views(pk_names@).contains(cell_text_of(row@, 0)),
{
    let name = cell_text(row, 0);
    let is_pk = contains_name(pk_names, name.as_str());
    let nullable_text = cell_text(row, 2);
    ColumnDef {
        is_primary_key: is_pk,
        name,
        data_type: cell_text(row, 1),
        nullable: str_eq(nullable_text.as_str(), "YES"),
        default_value: cell_text_opt(row, 3),
        comment: cell_text_opt(row, 4),
    }
}

/// An index of the indexes query: name and definition.
pub fn index_from_row(row: &[Cell]) -> (i: IndexDef)
    ensures
        i.name@ == cell_text_of(row@, 0),
        i.definition@ == cell_text_of(row@, 1),
{
    IndexDef { name: cell_text(row, 0), definition: cell_text(row, 1) }
}

/// A backend handle is a process id: a non-empty run of ASCII digits.
pub open spec fn is_process_id(s: Seq<char>) -> bool {
    s.len() > 0 && forall|i: int| 0 <= i < s.len() ==> '0' <= #[trigger] s[i] && s[i] <= '9'
}

/// The statement that cancels the statement running in backend `handle`;
/// a handle that is not a process id is refused (it is put into SQL text).
pub fn cancel_backend_sql(handle: &str) -> (r: Result<String, AppError>)
    ensures
        is_process_id(handle@) ==> (r matches Ok(s) && s@ == "SELECT pg_cancel_backend("@ + handle@ + ")"@),
        !is_process_id(handle@) ==> (r matches Err(AppError::Internal(m))
            && m@ == "无效的 backend handle："@ + handle@),
{
    let v = chars_of(handle);
    let mut ok = v.len() > 0;
    let mut i: usize = 0;
    while i < v.len()
        invariant
            i <= v.len(),
            v@ == handle@,
            ok == (v.len() > 0 && forall|j: int| 0 <= j < i ==> '0' <= #[trigger] v@[j] && v@[j] <= '9'),
        decreases v.len() - i,
    {
        if !('0' <= v[i] && v[i] <= '9') {
            ok = false;
        }
        i = i + 1;
    }
    if ok {
        let mut s = String::from_str("SELECT pg_cancel_backend(");
        s.append(handle);
        s.append(")");
        Ok(s)
    } else {
        let mut m = String::from_str("无效的 backend handle：");
        m.append(handle);
        Err(AppError::Internal(m))
    }
}


proof fn lemma_hex_value_of_upper(d: nat)
    requires
        d < 16,
    ensures
        is_hex_digit(crate::text::hex_upper(d)),
        hex_value(crate::text::hex_upper(d)) == d,
{
}

proof fn lemma_hex_of_bytes_len(b: Seq<u8>)
    ensures
        crate::model::hex_of_bytes(b).len() == 2 * b.len(),
    decreases b.len(),
{
    if b.len() > 0 {
        lemma_hex_of_bytes_len(b.drop_last());
    }
}

/// A binary cell's text reads back as its bytes: decoding the digit pairs
/// of `Cell::binary_hex(b)` gives `b`.
pub proof fn binary_hex_round_trip(b: Seq<u8>)
    ensures
        decode_hex_pairs(crate::model::hex_of_bytes(b)) == b,
    decreases b.len(),
{
    let s = crate::model::hex_of_bytes(b);
    if b.len() > 0 {
        binary_hex_round_trip(b.drop_last());
        lemma_hex_of_bytes_len(b.drop_last());
        let hi = (b.last() / 16) as nat;
        let lo = (b.last() % 16) as nat;
        lemma_hex_value_of_upper(hi);
        lemma_hex_value_of_upper(lo);
        assert(s.subrange(0, s.len() - 2) =~= crate::model::hex_of_bytes(b.drop_last()));
        assert(s[s.len() - 2] == crate::text::hex_upper(hi));
        assert(s[s.len() - 1] == crate::text::hex_upper(lo));
        assert((hi * 16 + lo) as u8 == b.last());
        assert(b.drop_last().push(b.last()) =~= b);
    } else {
        assert(b =~= Seq::<u8>::empty());
    }
}

/// The view definition is read under PostgreSQL's own relation kind
/// letters: `'v'` for a view and `'m'` for a materialized view, so the two
/// kinds are told apart; tables, functions and procedures have no view
/// definition to read. The query ends by selecting that letter.
pub proof fn view_definitions_use_the_relation_kind(schema: Seq<char>, name: Seq<char>, kind: ObjectKind)
    ensures
        view_relkind_of(ObjectKind::View) == Some('v'),
        view_relkind_of(ObjectKind::MaterializedView) == Some('m'),
        view_relkind_of(ObjectKind::View) != view_relkind_of(ObjectKind::MaterializedView),
        (kind == ObjectKind::Table || kind == ObjectKind::Function || kind == ObjectKind::Procedure)
            ==> view_relkind_of(kind) is None,
        kind == ObjectKind::View ==> view_definition_query_text(schema, name, view_relkind_of(kind)->Some_0)
            == "select pg_get_viewdef(c.oid, true) from pg_class c join pg_namespace n on n.oid = c.relnamespace where n.nspname = '"@
            + doubled(schema, '\'') + "' and c.relname = '"@ + doubled(name, '\'') + "' and c.relkind = 'v'"@,
{
    assert(seq!['v'] + "'"@ =~= "v'"@) by {
        reveal_strlit("'");
        reveal_strlit("v'");
    }
    if kind == ObjectKind::View {
        let head = "select pg_get_viewdef(c.oid, true) from pg_class c join pg_namespace n on n.oid = c.relnamespace where n.nspname = '"@
            + doubled(schema, '\'') + "' and c.relname = '"@ + doubled(name, '\'');
        reveal_strlit("' and c.relkind = '");
        reveal_strlit("' and c.relkind = 'v'");
        reveal_strlit("'");
        assert("' and c.relkind = '"@ + seq!['v'] + "'"@ =~= "' and c.relkind = 'v'"@);
        assert(head + "' and c.relkind = '"@ + seq!['v'] + "'"@ =~= head + ("' and c.relkind = '"@ + seq!['v'] + "'"@));
    }
}

} // verus!
