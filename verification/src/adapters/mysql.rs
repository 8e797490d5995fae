//! MySQL and TDSQL: turning driver values into cells, reading catalogue
//! rows, and the statement that stops a running query.

use vstd::prelude::*;
use crate::model::{Cell, ColumnDef, IndexDef, ObjectKind, ObjectRef};
use crate::repo::opt_str;
use crate::text::{chars_of, decimal, padded_decimal, push_char, push_decimal, push_padded_decimal};

verus! {

/// A string holding the bytes' text if they are valid UTF-8
/// (`std::str::from_utf8`, then copied into a `String`).
#[verifier::external_body]
fn utf8_string(bytes: &[u8]) -> (r: Option<String>)
    ensures
        r is Some <==> vstd::utf8::valid_utf8(bytes@),
        r matches Some(s) ==> s@ == vstd::utf8::decode_utf8(bytes@),
{
    std::str::from_utf8(bytes).ok().map(|s| s.to_string())
}

/// The cell of a byte-string value: its text when it is valid UTF-8,
/// otherwise the bytes in hexadecimal.
pub fn bytes_cell(bytes: &[u8]) -> (c: Cell)
    ensures
        !c.is_null,
        vstd::utf8::valid_utf8(bytes@) ==> !c.is_binary && c.text@ == vstd::utf8::decode_utf8(bytes@),
        !vstd::utf8::valid_utf8(bytes@) ==> c.is_binary && c.text@ == crate::model::hex_of_bytes(bytes@),
{
    match utf8_string(bytes) {
        Some(s) => Cell::text(s),
        None => Cell::binary_hex(bytes),
    }
}

/// Decimal rendering of a signed integer.
pub open spec fn int_text(i: int) -> Seq<char> {
    if i < 0 {
        seq!['-'] + decimal((-i) as nat)
    } else {
        decimal(i as nat)
    }
}

pub fn i64_cell(i: i64) -> (c: Cell)
    ensures
        !c.is_null,
        !c.is_binary,
        c.text@ == int_text(i as int),
{
    let mut s = String::new();
    if i < 0 {
        push_char(&mut s, '-');
        let m: u64 = if i == i64::MIN { 9223372036854775808u64 } else { (-i) as u64 };
        push_decimal(&mut s, m);
    } else {
        push_decimal(&mut s, i as u64);
    }
    Cell::text(s)
}

pub fn u64_cell(u: u64) -> (c: Cell)
    ensures
        !c.is_null,
        !c.is_binary,
        c.text@ == decimal(u as nat),
{
    let mut s = String::new();
    push_decimal(&mut s, u);
    Cell::text(s)
}

/// A date-time value as `YYYY-MM-DD hh:mm:ss.ffffff`.
pub open spec fn date_text(y: u16, mo: u8, d: u8, h: u8, mi: u8, s: u8, micro: u32) -> Seq<char> {
    padded_decimal(y as nat, 4) + seq!['-'] + padded_decimal(mo as nat, 2) + seq!['-']
        + padded_decimal(d as nat, 2) + seq![' '] + padded_decimal(h as nat, 2) + seq![':']
        + padded_decimal(mi as nat, 2) + seq![':'] + padded_decimal(s as nat, 2) + seq!['.']
        + padded_decimal(micro as nat, 6)
}

pub fn date_cell(y: u16, mo: u8, d: u8, h: u8, mi: u8, s: u8, micro: u32) -> (c: Cell)
    ensures
        !c.is_null,
        !c.is_binary,
        c.text@ == date_text(y, mo, d, h, mi, s, micro),
{
    let mut t = String::new();
    push_padded_decimal(&mut t, y as u64, 4);
    push_char(&mut t, '-');
    push_padded_decimal(&mut t, mo as u64, 2);
    push_char(&mut t, '-');
    push_padded_decimal(&mut t, d as u64, 2);
    push_char(&mut t, ' ');
    push_padded_decimal(&mut t, h as u64, 2);
    push_char(&mut t, ':');
    push_padded_decimal(&mut t, mi as u64, 2);
    push_char(&mut t, ':');
    push_padded_decimal(&mut t, s as u64, 2);
    push_char(&mut t, '.');
    push_padded_decimal(&mut t, micro as u64, 6);
    assert(t@ =~= date_text(y, mo, d, h, mi, s, micro));
    Cell::text(t)
}

/// A time value as `[-]Dd hh:mm:ss.ffffff`.
pub open spec fn time_text(neg: bool, days: u32, h: u8, mi: u8, s: u8, micro: u32) -> Seq<char> {
    (if neg { seq!['-'] } else { Seq::empty() }) + decimal(days as nat) + seq!['d', ' ']
        + padded_decimal(h as nat, 2) + seq![':'] + padded_decimal(mi as nat, 2) + seq![':']
        + padded_decimal(s as nat, 2) + seq!['.'] + padded_decimal(micro as nat, 6)
}

pub fn time_cell(neg: bool, days: u32, h: u8, mi: u8, s: u8, micro: u32) -> (c: Cell)
    ensures
        !c.is_null,
        !c.is_binary,
        c.text@ == time_text(neg, days, h, mi, s, micro),
{
    let mut t = String::new();
    if neg {
        push_char(&mut t, '-');
    }
    push_decimal(&mut t, days as u64);
    push_char(&mut t, 'd');
    push_char(&mut t, ' ');
    push_padded_decimal(&mut t, h as u64, 2);
    push_char(&mut t, ':');
    push_padded_decimal(&mut t, mi as u64, 2);
    push_char(&mut t, ':');
    push_padded_decimal(&mut t, s as u64, 2);
    push_char(&mut t, '.');
    push_padded_decimal(&mut t, micro as u64, 6);
    assert(t@ =~= time_text(neg, days, h, mi, s, micro));
    Cell::text(t)
}

/// ASCII case folding of one character (what `eq_ignore_ascii_case`
/// compares by).
pub open spec fn ascii_lower(c: char) -> char {
    if 'A' <= c && c <= 'Z' {
        ((c as u32) + 32) as char
    } else {
        c
    }
}

/// Equality up to ASCII case (`str::eq_ignore_ascii_case`).
pub open spec fn eq_ignore_ascii_case(a: Seq<char>, b: Seq<char>) -> bool {
    a.len() == b.len() && forall|i: int| 0 <= i < a.len() ==> ascii_lower(#[trigger] a[i]) == ascii_lower(b[i])
}

fn lower_char(c: char) -> (r: char)
    ensures
        r == ascii_lower(c),
{
    if 'A' <= c && c <= 'Z' {
        (((c as u32) + 32) as u8) as char
    } else {
        c
    }
}

pub fn equals_ignore_ascii_case(a: &str, b: &str) -> (r: bool)
    ensures
        r == eq_ignore_ascii_case(a@, b@),
{
    let va = chars_of(a);
    let vb = chars_of(b);
    if va.len() != vb.len() {
        return false;
    }
    let mut i: usize = 0;
    while i < va.len()
        invariant
            i <= va.len(),
            va.len() == vb.len(),
            va@ == a@,
            vb@ == b@,
            forall|j: int| 0 <= j < i ==> ascii_lower(#[trigger] va@[j]) == ascii_lower(vb@[j]),
        decreases va.len() - i,
    {
        if lower_char(va[i]) != lower_char(vb[i]) {
            return false;
        }
        i = i + 1;
    }
    true
}

/// An object of the `information_schema.tables` listing: a view when its
/// table type is `VIEW` in any case, a table otherwise.
pub fn object_from_catalog(schema: String, name: String, table_type: &str) -> (o: ObjectRef)
    ensures
        o.schema@ == schema@,
        o.name@ == name@,
        o.kind == (if eq_ignore_ascii_case(table_type@, "VIEW"@) { ObjectKind::View } else { ObjectKind::Table }),
{
    let kind = if equals_ignore_ascii_case(table_type, "VIEW") { ObjectKind::View } else { ObjectKind::Table };
    ObjectRef { schema, name, kind }
}

/// A column of `information_schema.columns`: nullable when `is_nullable`
/// is `YES` in any case, a key column when its key is `PRI`.
pub fn column_from_catalog(
    name: String,
    data_type: String,
    nullable: &str,
    default_value: Option<String>,
    key: &str,
    comment: Option<String>,
) -> (c: ColumnDef)
    ensures
        c.name@ == name@,
        c.data_type@ == data_type@,
        c.nullable == eq_ignore_ascii_case(nullable@, "YES"@),
        opt_str(c.default_value) == opt_str(default_value),
        c.is_primary_key == (key@ == "PRI"@),
        opt_str(c.comment) == opt_str(comment),
{
    ColumnDef {
        name,
        data_type,
        nullable: equals_ignore_ascii_case(nullable, "YES"),
        default_value,
        is_primary_key: crate::text::str_eq(key, "PRI"),
        comment,
    }
}

/// An index with its columns (comma-separated, in index order) shown in
/// parentheses.
pub fn index_from_catalog(name: String, columns: &str) -> (i: IndexDef)
    ensures
        i.name@ == name@,
        i.definition@ == "("@ + columns@ + ")"@,
{
    let mut d = String::from_str("(");
    d.append(columns);
    d.append(")");
    IndexDef { name, definition: d }
}

/// The statement that stops the query running on connection `handle`.
pub fn kill_query_sql(handle: &str) -> (r: String)
    ensures
        r@ == "KILL QUERY "@ + handle@,
{
    let mut r = String::from_str("KILL QUERY ");
    r.append(handle);
    r
}

/// A result without columns reports the affected rows; one with columns
/// does not.
pub fn affected_rows_of(column_count: usize, affected: u64) -> (r: Option<u64>)
    ensures
        r == (if column_count == 0 { Some(affected) } else { None::<u64> }),
{
    if column_count == 0 {
        Some(affected)
    } else {
        None
    }
}

} // verus!
