//! SQL Server: the catalogue query of a table's columns, reading its rows,
//! and the statement that ends a session.

use vstd::prelude::*;
use crate::error::AppError;
use crate::model::{ColumnDef, ObjectKind, ObjectRef};
use crate::repo::opt_str;
use crate::text::{chars_of, decimal, doubled, push_char, push_decimal, push_doubled, str_eq};

verus! {

/// The columns of a table with their types, nullability and whether they
/// belong to the primary key.
pub open spec fn columns_query_text(schema: Seq<char>, name: Seq<char>) -> Seq<char> {
    "SELECT c.name, ty.name, c.is_nullable, CASE WHEN pk.column_id IS NOT NULL THEN 1 ELSE 0 END FROM sys.columns c JOIN sys.types ty ON ty.user_type_id = c.user_type_id JOIN sys.tables t ON t.object_id = c.object_id JOIN sys.schemas s ON s.schema_id = t.schema_id LEFT JOIN ( SELECT ic.column_id, ic.object_id FROM sys.index_columns ic JOIN sys.indexes i ON i.object_id = ic.object_id AND i.index_id = ic.index_id WHERE i.is_primary_key = 1 ) pk ON pk.column_id = c.column_id AND pk.object_id = c.object_id WHERE s.name = '"@
        + doubled(schema, '\'') + "' AND t.name = '"@ + doubled(name, '\'') + "' ORDER BY c.column_id"@
}

pub fn columns_query(object: &ObjectRef) -> (r: String)
    ensures
        r@ == columns_query_text(object.schema@, object.name@),
{
    let mut r = String::from_str(
        "SELECT c.name, ty.name, c.is_nullable, CASE WHEN pk.column_id IS NOT NULL THEN 1 ELSE 0 END FROM sys.columns c JOIN sys.types ty ON ty.user_type_id = c.user_type_id JOIN sys.tables t ON t.object_id = c.object_id JOIN sys.schemas s ON s.schema_id = t.schema_id LEFT JOIN ( SELECT ic.column_id, ic.object_id FROM sys.index_columns ic JOIN sys.indexes i ON i.object_id = ic.object_id AND i.index_id = ic.index_id WHERE i.is_primary_key = 1 ) pk ON pk.column_id = c.column_id AND pk.object_id = c.object_id WHERE s.name = '",
    );
    push_doubled(&mut r, object.schema.as_str(), '\'');
    r.append("' AND t.name = '");
    push_doubled(&mut r, object.name.as_str(), '\'');
    r.append("' ORDER BY c.column_id");
    r
}

pub open spec fn text_or_empty(o: Option<Seq<char>>) -> Seq<char> {
    match o {
        Some(t) => t,
        None => Seq::empty(),
    }
}

/// A column of the columns query. A missing name or type reads as empty,
/// missing nullability as nullable, a missing key flag as not a key. The
/// catalogue keeps no default or comment here.
pub fn column_from_values(
    name: Option<String>,
    data_type: Option<String>,
    nullable: Option<bool>,
    key_flag: Option<i32>,
) -> (c: ColumnDef)
    ensures
        c.name@ == text_or_empty(opt_str(name)),
        c.data_type@ == text_or_empty(opt_str(data_type)),
        c.nullable == (match nullable { Some(b) => b, None => true }),
        c.is_primary_key == (match key_flag { Some(k) => k != 0, None => false }),
        c.default_value is None,
        c.comment is None,
{
    ColumnDef {
        name: match name {
            Some(n) => n,
            None => String::new(),
        },
        data_type: match data_type {
            Some(t) => t,
            None => String::new(),
        },
        nullable: match nullable {
            Some(b) => b,
            None => true,
        },
        default_value: None,
        is_primary_key: match key_flag {
            Some(k) => k != 0,
            None => false,
        },
        comment: None,
    }
}

/// An object of the catalogue listing; a missing kind counts as a table.
pub fn object_from_values(schema: Option<String>, name: Option<String>, kind: Option<String>) -> (o: ObjectRef)
    ensures
        o.schema@ == text_or_empty(opt_str(schema)),
        o.name@ == text_or_empty(opt_str(name)),
        o.kind == (if opt_str(kind) == Some("view"@) { ObjectKind::View } else { ObjectKind::Table }),
{
    let is_view = match &kind {
        Some(k) => str_eq(k.as_str(), "view"),
        None => false,
    };
    ObjectRef {
        schema: match schema {
            Some(s) => s,
            None => String::new(),
        },
        name: match name {
            Some(n) => n,
            None => String::new(),
        },
        kind: if is_view { ObjectKind::View } else { ObjectKind::Table },
    }
}

/// The decimal value of a run of ASCII digits.
pub open spec fn digits_value(s: Seq<char>) -> int
    decreases s.len(),
{
    if s.len() == 0 {
        0
    } else {
        digits_value(s.drop_last()) * 10 + ((s.last() as u32) - 48)
    }
}

pub open spec fn all_digits(s: Seq<char>) -> bool {
    forall|i: int| 0 <= i < s.len() ==> '0' <= #[trigger] s[i] && s[i] <= '9'
}

/// What `str::parse::<i16>` accepts: an optional `+` or `-`, then at least
/// one ASCII digit, with a value that fits in 16 bits.
pub open spec fn i16_of_text(s: Seq<char>) -> Option<int> {
    let neg = s.len() > 0 && s[0] == '-';
    let body = if s.len() > 0 && (s[0] == '-' || s[0] == '+') { s.skip(1) } else { s };
    if body.len() == 0 || !all_digits(body) {
        None
    } else {
        let v = if neg { -digits_value(body) } else { digits_value(body) };
        if -32768 <= v && v <= 32767 {
            Some(v)
        } else {
            None
        }
    }
}

proof fn lemma_digits_value_grows(s: Seq<char>, i: int)
    requires
        all_digits(s),
        0 <= i <= s.len(),
    ensures
        digits_value(s.take(i)) <= digits_value(s),
        0 <= digits_value(s.take(i)),
    decreases s.len() - i,
{
    if i < s.len() {
        lemma_digits_value_grows(s, i + 1);
        assert(s.take(i + 1).drop_last() =~= s.take(i));
        assert(s.take(i + 1).last() == s[i]);
    } else {
        assert(s.take(i) =~= s);
        lemma_digits_nonneg(s);
    }
}

proof fn lemma_digits_nonneg(s: Seq<char>)
    requires
        all_digits(s),
    ensures
        0 <= digits_value(s),
    decreases s.len(),
{
    if s.len() > 0 {
        assert(all_digits(s.drop_last()));
        lemma_digits_nonneg(s.drop_last());
    }
}

/// Whether `s` is a valid session id for `KILL`, as `str::parse::<i16>`
/// would accept it.
pub fn parses_as_i16(s: &str) -> (b: bool)
    ensures
        b == (i16_of_text(s@) is Some),
{
    let v = chars_of(s);
    let mut start: usize = 0;
    let neg = v.len() > 0 && v[0] == '-';
    if v.len() > 0 && (v[0] == '-' || v[0] == '+') {
        start = 1;
    }
    let ghost body = if s@.len() > 0 && (s@[0] == '-' || s@[0] == '+') { s@.skip(1) } else { s@ };
    if start >= v.len() {
        return false;
    }
    let mut acc: u32 = 0;
    let mut i: usize = start;
    while i < v.len()
        invariant
            start <= i <= v.len(),
            v@ == s@,
            body == v@.skip(start as int),
            body == (if s@.len() > 0 && (s@[0] == '-' || s@[0] == '+') { s@.skip(1) } else { s@ }),
            neg == (s@.len() > 0 && s@[0] == '-'),
            body.len() > 0,
            acc <= 32768,
            acc as int == digits_value(body.take(i - start)),
            all_digits(body.take(i - start)),
        decreases v.len() - i,
    {
        let c = v[i];
        assert(body.take(i + 1 - start).drop_last() =~= body.take(i - start));
        assert(body.take(i + 1 - start).last() == c);
        if !('0' <= c && c <= '9') {
            assert(!all_digits(body)) by {
                assert(body[i - start] == c);
            }
            assert(i16_of_text(s@) is None);
            return false;
        }
        let next: u32 = acc * 10 + ((c as u32) - 48);
        if next > 32768 {
            proof {
                assert(next as int == digits_value(body.take(i + 1 - start)));
                assert(all_digits(body.take(i + 1 - start)));
                if all_digits(body) {
                    lemma_digits_value_grows(body, i + 1 - start);
                    assert(digits_value(body) > 32768);
                }
            }
            assert(i16_of_text(s@) is None);
            return false;
        }
        acc = next;
        i = i + 1;
    }
    assert(body.take(i - start) =~= body);
    if neg {
        true
    } else {
        acc <= 32767
    }
}

/// The statement that ends session `handle`; a handle that is not a 16-bit
/// session id is refused (it is put into SQL text).
pub fn kill_session_sql(handle: &str) -> (r: Result<String, AppError>)
    ensures
        i16_of_text(handle@) is Some ==> (r matches Ok(s) && s@ == "KILL "@ + handle@),
        i16_of_text(handle@) is None ==> (r matches Err(AppError::Internal(m))
            && m@ == "无效的 backend handle："@ + handle@),
{
    if parses_as_i16(handle) {
        let mut s = String::from_str("KILL ");
        s.append(handle);
        Ok(s)
    } else {
        let mut m = String::from_str("无效的 backend handle：");
        m.append(handle);
        Err(AppError::Internal(m))
    }
}

/// The decimal text of a session id.
pub fn session_id_text(spid: i16) -> (r: String)
    ensures
        r@ == (if spid < 0 { seq!['-'] + decimal((-spid) as nat) } else { decimal(spid as nat) }),
{
    let mut r = String::new();
    if spid < 0 {
        push_char(&mut r, '-');
        let m: u64 = (-(spid as i32)) as u64;
        push_decimal(&mut r, m);
    } else {
        push_decimal(&mut r, spid as u64);
    }
    r
}

/// The sum of the affected-row counts of a statement's parts.
pub open spec fn total(counts: Seq<u64>) -> int
    decreases counts.len(),
{
    if counts.len() == 0 {
        0
    } else {
        total(counts.drop_last()) + counts.last()
    }
}

proof fn lemma_total_prefix(counts: Seq<u64>, i: int)
    requires
        0 <= i <= counts.len(),
    ensures
        total(counts.take(i)) <= total(counts),
    decreases counts.len() - i,
{
    if i < counts.len() {
        lemma_total_prefix(counts, i + 1);
        assert(counts.take(i + 1).drop_last() =~= counts.take(i));
    } else {
        assert(counts.take(i) =~= counts);
    }
}

pub fn affected_total(counts: &Vec<u64>) -> (r: u64)
    requires
        total(counts@) <= u64::MAX,
    ensures
        r == total(counts@),
{
    let mut sum: u64 = 0;
    let mut i: usize = 0;
    while i < counts.len()
        invariant
            i <= counts.len(),
            total(counts@) <= u64::MAX,
            sum == total(counts@.take(i as int)),
        decreases counts.len() - i,
    {
        assert(counts@.take(i + 1).drop_last() =~= counts@.take(i as int));
        proof { lemma_total_prefix(counts@, i + 1); }
        sum = sum + counts[i];
        i = i + 1;
    }
    assert(counts@.take(counts.len() as int) =~= counts@);
    sum
}

} // verus!
