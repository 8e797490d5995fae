//! The SQL assistant's side of the conversation: its tool calls, what it
//! decides before running a statement it was asked to run, the text it
//! shows the model, and the cleaning of the SQL a model answers with.

use vstd::prelude::*;
use crate::adapters::mysql::{eq_ignore_ascii_case, equals_ignore_ascii_case};
use crate::error::AppError;
use crate::model::{ColumnDef, ExecuteResult, IndexDef, ObjectDefinition, ObjectKind, ObjectRef};
use crate::policy::{ExecutionKind, StatementTag};
use crate::text::{chars_of, copy_string, decimal, is_whitespace_char, push_char, push_decimal, string_of, unicode_white_space};

verus! {

#[derive(Debug, Clone, Copy, PartialEq, Eq, Structural)]
pub enum TodoStatus {
    Pending,
    InProgress,
    Completed,
}

/// One entry of the task list the assistant keeps for the user.
#[derive(Debug, Clone)]
pub struct TodoItem {
    pub id: String,
    pub content: String,
    pub status: TodoStatus,
}

/// A tool call of the assistant with its arguments.
#[derive(Debug, Clone)]
pub enum ToolCall {
    RunQuery { sql: String, row_limit: usize },
    DescribeTable { schema: String, name: String },
    ListObjects { schema: Option<String> },
    TodoWrite { todos: Vec<TodoItem> },
    Question { question: String, options: Vec<String> },
}

pub const DEFAULT_ROW_LIMIT: usize = 50;
pub const MAX_ROW_LIMIT: usize = 500;

/// The row limit of a query tool call: the requested one (default 50),
/// kept between 1 and 500.
pub open spec fn row_limit_spec(requested: Option<usize>) -> usize {
    let r = match requested {
        Some(n) => n,
        None => DEFAULT_ROW_LIMIT,
    };
    if r < 1 {
        1
    } else if r > MAX_ROW_LIMIT {
        MAX_ROW_LIMIT
    } else {
        r
    }
}

pub fn row_limit_of(requested: Option<usize>) -> (n: usize)
    ensures
        n == row_limit_spec(requested),
        1 <= n <= MAX_ROW_LIMIT,
{
    let r = match requested {
        Some(n) => n,
        None => DEFAULT_ROW_LIMIT,
    };
    if r < 1 {
        1
    } else if r > MAX_ROW_LIMIT {
        MAX_ROW_LIMIT
    } else {
        r
    }
}

/// The error for a tool the assistant does not have.
pub fn unknown_tool_error(name: &str) -> (e: AppError)
    ensures
        e matches AppError::Internal(m) && m@ == "unknown tool: "@ + name@,
{
    let mut m = String::from_str("unknown tool: ");
    m.append(name);
    AppError::Internal(m)
}

/// The error for tool arguments that do not parse.
pub fn invalid_arguments_error(name: &str, detail: &str) -> (e: AppError)
    ensures
        e matches AppError::Internal(m) && m@ == "invalid tool arguments for "@ + name@ + ": "@ + detail@,
{
    let mut m = String::from_str("invalid tool arguments for ");
    m.append(name);
    m.append(": ");
    m.append(detail);
    AppError::Internal(m)
}

/// What the assistant does with a statement it was asked to run.
#[derive(Debug, Clone, Copy, PartialEq, Eq, Structural)]
pub enum QueryGate {
    /// The data source is read-only and the statement is not a query or
    /// EXPLAIN: it is not run.
    RefuseReadonly,
    /// The statement needs the user's confirmation first.
    AskUser,
    /// The statement runs directly.
    Run,
}

pub open spec fn gate_spec(readonly: bool, tag: StatementTag, kind: ExecutionKind) -> QueryGate {
    if readonly && !(tag == StatementTag::Query || tag == StatementTag::Explain) {
        QueryGate::RefuseReadonly
    } else if kind == ExecutionKind::Confirm || kind == ExecutionKind::Transaction {
        QueryGate::AskUser
    } else {
        QueryGate::Run
    }
}

pub fn query_gate(readonly: bool, tag: StatementTag, kind: ExecutionKind) -> (g: QueryGate)
    ensures
        g == gate_spec(readonly, tag, kind),
{
    if readonly && !(tag == StatementTag::Query || tag == StatementTag::Explain) {
        QueryGate::RefuseReadonly
    } else if kind == ExecutionKind::Confirm || kind == ExecutionKind::Transaction {
        QueryGate::AskUser
    } else {
        QueryGate::Run
    }
}

/// The assistant never runs a write on a read-only data source, and never
/// runs unasked what the manual editor would have asked about.
pub proof fn gate_is_safe(readonly: bool, tag: StatementTag, kind: ExecutionKind)
    ensures
        gate_spec(readonly, tag, kind) == QueryGate::Run ==> kind == ExecutionKind::Normal,
        gate_spec(readonly, tag, kind) != QueryGate::RefuseReadonly && readonly ==> (tag == StatementTag::Query
            || tag == StatementTag::Explain),
{
}

/// The duration and row count recorded in the history for a finished
/// statement: the affected rows if reported, else the rows returned.
pub fn history_counts(result: &ExecuteResult) -> (r: (Option<i64>, Option<i64>))
    ensures
        r.0 == Some(result.duration_ms as i64),
        r.1 == Some(match result.rows_affected { Some(n) => n as i64, None => result.rows@.len() as i64 }),
{
    let rows = match result.rows_affected {
        Some(n) => n as i64,
        None => result.rows.len() as i64,
    };
    (Some(result.duration_ms as i64), Some(rows))
}

/// The cells of a row as the model sees them: `NULL` or the text.
pub open spec fn agent_cell(c: crate::model::Cell) -> Seq<char> {
    if c.is_null {
        "NULL"@
    } else {
        c.text@
    }
}

pub open spec fn agent_row(row: Seq<crate::model::Cell>) -> Seq<char> {
    crate::text::joined(row.map_values(|c: crate::model::Cell| agent_cell(c)), " | "@)
}

pub open spec fn agent_rows(rows: Seq<Vec<crate::model::Cell>>) -> Seq<char>
    decreases rows.len(),
{
    if rows.len() == 0 {
        Seq::empty()
    } else {
        agent_rows(rows.drop_last()) + agent_row(rows.last()@) + seq!['\n']
    }
}

/// A result as text for the model: the count and time for a statement
/// without columns; otherwise time, row count, a note when cut, the column
/// names and one line per row, cells separated by ` | `.
pub open spec fn result_text(r: ExecuteResult) -> Seq<char> {
    if r.columns@.len() == 0 {
        "执行成功，受影响 "@ + decimal(match r.rows_affected { Some(n) => n as nat, None => 0 }) + " 行，耗时 "@
            + decimal(r.duration_ms as nat) + "ms"@
    } else {
        "耗时 "@ + decimal(r.duration_ms as nat) + "ms，返回 "@ + decimal(r.rows@.len()) + " 行"@ + (if r.truncated {
            "（已截断，更多数据请缩小范围/加 LIMIT 重新查询）"@
        } else {
            Seq::empty()
        }) + seq!['\n'] + crate::text::joined(
            r.columns@.map_values(|c: crate::model::ColumnInfo| c.name@),
            " | "@,
        ) + seq!['\n'] + agent_rows(r.rows@)
    }
}

fn push_agent_row(out: &mut String, row: &Vec<crate::model::Cell>)
    ensures
        final(out)@ == old(out)@ + agent_row(row@),
{
    let ghost start = out@;
    let ghost parts = row@.map_values(|c: crate::model::Cell| agent_cell(c));
    let mut i: usize = 0;
    while i < row.len()
        invariant
            i <= row.len(),
            parts == row@.map_values(|c: crate::model::Cell| agent_cell(c)),
            out@ == start + crate::text::joined(parts.take(i as int), " | "@),
        decreases row.len() - i,
    {
        assert(parts.take(i + 1).drop_last() =~= parts.take(i as int));
        if i > 0 {
            out.append(" | ");
        }
        if row[i].is_null {
            out.append("NULL");
        } else {
            out.append(row[i].text.as_str());
        }
        i = i + 1;
        assert(out@ =~= start + crate::text::joined(parts.take(i as int), " | "@));
    }
    assert(parts.take(row.len() as int) =~= parts);
}

pub fn format_result_for_agent(result: &ExecuteResult) -> (s: String)
    ensures
        s@ == result_text(*result),
{
    if result.columns.len() == 0 {
        let mut s = String::from_str("执行成功，受影响 ");
        let n: u64 = match result.rows_affected {
            Some(n) => n,
            None => 0,
        };
        push_decimal(&mut s, n);
        s.append(" 行，耗时 ");
        push_decimal(&mut s, result.duration_ms);
        s.append("ms");
        return s;
    }
    let mut s = String::from_str("耗时 ");
    push_decimal(&mut s, result.duration_ms);
    s.append("ms，返回 ");
    push_decimal(&mut s, result.rows.len() as u64);
    s.append(" 行");
    if result.truncated {
        s.append("（已截断，更多数据请缩小范围/加 LIMIT 重新查询）");
    }
    push_char(&mut s, '\n');
    let ghost names = result.columns@.map_values(|c: crate::model::ColumnInfo| c.name@);
    let ghost head = s@;
    let mut i: usize = 0;
    while i < result.columns.len()
        invariant
            i <= result.columns.len(),
            names == result.columns@.map_values(|c: crate::model::ColumnInfo| c.name@),
            s@ == head + crate::text::joined(names.take(i as int), " | "@),
        decreases result.columns.len() - i,
    {
        assert(names.take(i + 1).drop_last() =~= names.take(i as int));
        if i > 0 {
            s.append(" | ");
        }
        s.append(result.columns[i].name.as_str());
        i = i + 1;
        assert(s@ =~= head + crate::text::joined(names.take(i as int), " | "@));
    }
    assert(names.take(result.columns.len() as int) =~= names);
    push_char(&mut s, '\n');
    let ghost head2 = s@;
    let mut j: usize = 0;
    while j < result.rows.len()
        invariant
            j <= result.rows.len(),
            s@ == head2 + agent_rows(result.rows@.take(j as int)),
        decreases result.rows.len() - j,
    {
        assert(result.rows@.take(j + 1).drop_last() =~= result.rows@.take(j as int));
        push_agent_row(&mut s, &result.rows[j]);
        push_char(&mut s, '\n');
        j = j + 1;
        assert(s@ =~= head2 + agent_rows(result.rows@.take(j as int)));
    }
    assert(result.rows@.take(result.rows.len() as int) =~= result.rows@);
    s
}

/// One column line of a table description for the model.
pub open spec fn column_line(c: ColumnDef) -> Seq<char> {
    "- "@ + c.name@ + seq![' '] + c.data_type@ + (if c.nullable { Seq::empty() } else { " NOT NULL"@ })
        + (if c.is_primary_key { " PRIMARY KEY"@ } else { Seq::empty() }) + (match c.comment {
        Some(t) => "  -- "@ + t@,
        None => Seq::empty(),
    }) + seq!['\n']
}

pub open spec fn column_lines(cols: Seq<ColumnDef>) -> Seq<char>
    decreases cols.len(),
{
    if cols.len() == 0 {
        Seq::empty()
    } else {
        column_lines(cols.drop_last()) + column_line(cols.last())
    }
}

pub open spec fn index_lines(idx: Seq<IndexDef>) -> Seq<char>
    decreases idx.len(),
{
    if idx.len() == 0 {
        Seq::empty()
    } else {
        index_lines(idx.drop_last()) + "INDEX "@ + idx.last().name@ + ": "@ + idx.last().definition@ + seq!['\n']
    }
}

/// A table description for the model: `schema.name`, its comment, one
/// line per column and one per index.
pub open spec fn definition_text(d: ObjectDefinition) -> Seq<char> {
    d.object.schema@ + seq!['.'] + d.object.name@ + (match d.comment {
        Some(c) => "  -- "@ + c@,
        None => Seq::empty(),
    }) + seq!['\n'] + column_lines(d.columns@) + index_lines(d.indexes@)
}

fn push_column_line(s: &mut String, col: &ColumnDef)
    ensures
        final(s)@ == old(s)@ + column_line(*col),
{
    let ghost start = s@;
    s.append("- ");
    s.append(col.name.as_str());
    push_char(s, ' ');
    s.append(col.data_type.as_str());
    if !col.nullable {
        s.append(" NOT NULL");
    }
    if col.is_primary_key {
        s.append(" PRIMARY KEY");
    }
    match &col.comment {
        Some(c) => {
            s.append("  -- ");
            s.append(c.as_str());
        },
        None => {},
    }
    push_char(s, '\n');
    assert(s@ =~= start + column_line(*col));
}

pub fn format_definition_for_agent(def: &ObjectDefinition) -> (s: String)
    ensures
        s@ == definition_text(*def),
{
    let mut s = copy_string(&def.object.schema);
    push_char(&mut s, '.');
    s.append(def.object.name.as_str());
    match &def.comment {
        Some(c) => {
            s.append("  -- ");
            s.append(c.as_str());
        },
        None => {},
    }
    push_char(&mut s, '\n');
    let ghost head = s@;
    let mut i: usize = 0;
    while i < def.columns.len()
        invariant
            i <= def.columns.len(),
            s@ == head + column_lines(def.columns@.take(i as int)),
        decreases def.columns.len() - i,
    {
        assert(def.columns@.take(i + 1).drop_last() =~= def.columns@.take(i as int));
        push_column_line(&mut s, &def.columns[i]);
        i = i + 1;
        assert(s@ =~= head + column_lines(def.columns@.take(i as int)));
    }
    assert(def.columns@.take(def.columns.len() as int) =~= def.columns@);
    let ghost head2 = s@;
    let mut j: usize = 0;
    while j < def.indexes.len()
        invariant
            j <= def.indexes.len(),
            s@ == head2 + index_lines(def.indexes@.take(j as int)),
        decreases def.indexes.len() - j,
    {
        assert(def.indexes@.take(j + 1).drop_last() =~= def.indexes@.take(j as int));
        s.append("INDEX ");
        s.append(def.indexes[j].name.as_str());
        s.append(": ");
        s.append(def.indexes[j].definition.as_str());
        push_char(&mut s, '\n');
        j = j + 1;
        assert(s@ =~= head2 + index_lines(def.indexes@.take(j as int)));
    }
    assert(def.indexes@.take(def.indexes.len() as int) =~= def.indexes@);
    s
}

/// The name of an object kind as it is shown to the model.
pub open spec fn kind_label(k: ObjectKind) -> Seq<char> {
    match k {
        ObjectKind::Table => "Table"@,
        ObjectKind::View => "View"@,
        ObjectKind::MaterializedView => "MaterializedView"@,
        ObjectKind::Function => "Function"@,
        ObjectKind::Procedure => "Procedure"@,
    }
}

/// Each object kind is listed under its own variant name, and no two kinds
/// share a name.
pub proof fn object_kind_names_are_the_variant_names(k1: ObjectKind, k2: ObjectKind)
    ensures
        kind_label(ObjectKind::Table) == "Table"@,
        kind_label(ObjectKind::View) == "View"@,
        kind_label(ObjectKind::MaterializedView) == "MaterializedView"@,
        kind_label(ObjectKind::Function) == "Function"@,
        kind_label(ObjectKind::Procedure) == "Procedure"@,
        kind_label(k1) == kind_label(k2) ==> k1 == k2,
{
    reveal_strlit("Table");
    reveal_strlit("View");
    reveal_strlit("MaterializedView");
    reveal_strlit("Function");
    reveal_strlit("Procedure");
    if kind_label(k1) == kind_label(k2) {
        let a = kind_label(k1);
        let b = kind_label(k2);
        assert(a.len() == b.len());
        assert(a[0] == b[0]);
    }
}

fn kind_label_str(k: ObjectKind) -> (s: &'static str)
    ensures
        s@ == kind_label(k),
{
    match k {
        ObjectKind::Table => "Table",
        ObjectKind::View => "View",
        ObjectKind::MaterializedView => "MaterializedView",
        ObjectKind::Function => "Function",
        ObjectKind::Procedure => "Procedure",
    }
}

/// Whether a listing asked for `schema` shows `o` (schemas compared
/// ignoring ASCII case).
pub open spec fn shows(o: ObjectRef, schema: Option<Seq<char>>) -> bool {
    match schema {
        Some(s) => eq_ignore_ascii_case(o.schema@, s),
        None => true,
    }
}

pub open spec fn object_line(o: ObjectRef) -> Seq<char> {
    o.schema@ + seq!['.'] + o.name@ + " ("@ + kind_label(o.kind) + ")"@
}

/// The lines of the first 300 shown objects, in order, and how many there
/// are.
pub open spec fn listing_lines(objects: Seq<ObjectRef>, schema: Option<Seq<char>>) -> (Seq<char>, nat)
    decreases objects.len(),
{
    if objects.len() == 0 {
        (Seq::empty(), 0)
    } else {
        let (t, n) = listing_lines(objects.drop_last(), schema);
        let o = objects.last();
        if shows(o, schema) && n < 300 {
            ((if n > 0 { t.push('\n') } else { t }) + object_line(o), n + 1)
        } else {
            (t, n)
        }
    }
}

/// The listing for the model: the first 300 objects of the schema asked
/// for (or of all schemas), one per line, or a note that none matched.
pub open spec fn listing_text(objects: Seq<ObjectRef>, schema: Option<Seq<char>>) -> Seq<char> {
    let (t, n) = listing_lines(objects, schema);
    if n == 0 {
        "没有找到匹配的对象"@
    } else {
        t
    }
}

pub fn format_object_list(objects: &Vec<ObjectRef>, schema: Option<&str>) -> (s: String)
    ensures
        s@ == listing_text(objects@, crate::data_editor::opt_view(schema)),
{
    let ghost sv = crate::data_editor::opt_view(schema);
    let mut text = String::new();
    let mut n: usize = 0;
    let mut i: usize = 0;
    while i < objects.len()
        invariant
            i <= objects.len(),
            sv == crate::data_editor::opt_view(schema),
            n <= 300,
            (text@, n as nat) == listing_lines(objects@.take(i as int), sv),
        decreases objects.len() - i,
    {
        assert(objects@.take(i + 1).drop_last() =~= objects@.take(i as int));
        assert(objects@.take(i + 1).last() == objects@[i as int]);
        let o = &objects[i];
        let keep = match schema {
            Some(sch) => equals_ignore_ascii_case(o.schema.as_str(), sch),
            None => true,
        };
        if keep && n < 300 {
            if n > 0 {
                push_char(&mut text, '\n');
            }
            text.append(o.schema.as_str());
            push_char(&mut text, '.');
            text.append(o.name.as_str());
            text.append(" (");
            text.append(kind_label_str(o.kind));
            text.append(")");
            n = n + 1;
        }
        i = i + 1;
    }
    assert(objects@.take(objects.len() as int) =~= objects@);
    if n == 0 {
        String::from_str("没有找到匹配的对象")
    } else {
        text
    }
}

/// `s` without leading white space.
pub open spec fn trim_start_ws(s: Seq<char>) -> Seq<char>
    decreases s.len(),
{
    if s.len() > 0 && unicode_white_space(s[0]) {
        trim_start_ws(s.skip(1))
    } else {
        s
    }
}

/// `s` without trailing white space.
pub open spec fn trim_end_ws(s: Seq<char>) -> Seq<char>
    decreases s.len(),
{
    if s.len() > 0 && unicode_white_space(s.last()) {
        trim_end_ws(s.drop_last())
    } else {
        s
    }
}

/// `str::trim`: white space removed at both ends.
pub open spec fn trim_ws(s: Seq<char>) -> Seq<char> {
    trim_end_ws(trim_start_ws(s))
}

/// `s` without its leading line feeds.
pub open spec fn trim_newlines(s: Seq<char>) -> Seq<char>
    decreases s.len(),
{
    if s.len() > 0 && s[0] == '\n' {
        trim_newlines(s.skip(1))
    } else {
        s
    }
}

pub open spec fn starts_with(s: Seq<char>, p: Seq<char>) -> bool {
    s.len() >= p.len() && s.take(p.len() as int) == p
}

/// Where the last code fence (three backticks) starts (`str::rfind`).
pub open spec fn last_fence(s: Seq<char>) -> Option<int>
    decreases s.len(),
{
    if s.len() < 3 {
        None
    } else if s[s.len() - 3] == '`' && s[s.len() - 2] == '`' && s[s.len() - 1] == '`' {
        Some(s.len() - 3)
    } else {
        last_fence(s.drop_last())
    }
}

/// A model's answer as SQL: trimmed; if it is wrapped in a code fence
/// (optionally tagged `sql`), the text inside the fence, trimmed.
pub open spec fn stripped_answer(text: Seq<char>) -> Seq<char> {
    let t = trim_ws(text);
    if !starts_with(t, seq!['`', '`', '`']) {
        t
    } else {
        let r0 = t.skip(3);
        let r1 = if starts_with(r0, seq!['s', 'q', 'l']) { r0.skip(3) } else { r0 };
        let r = trim_newlines(r1);
        match last_fence(r) {
            Some(e) => trim_ws(r.take(e)),
            None => trim_ws(r),
        }
    }
}

/// Bounds of `v[lo..hi]` without white space at either end.
fn trim_bounds(v: &Vec<char>, lo: usize, hi: usize) -> (r: (usize, usize))
    requires
        lo <= hi <= v.len(),
    ensures
        lo <= r.0 <= r.1 <= hi,
        v@.subrange(r.0 as int, r.1 as int) == trim_ws(v@.subrange(lo as int, hi as int)),
{
    let mut a = lo;
    while a < hi && is_whitespace_char(v[a])
        invariant
            lo <= a <= hi,
            hi <= v.len(),
            trim_start_ws(v@.subrange(lo as int, hi as int)) == trim_start_ws(v@.subrange(a as int, hi as int)),
        decreases hi - a,
    {
        assert(v@.subrange(a as int, hi as int).skip(1) =~= v@.subrange(a + 1, hi as int));
        a = a + 1;
    }
    assert(trim_start_ws(v@.subrange(a as int, hi as int)) == v@.subrange(a as int, hi as int));
    let mut b = hi;
    while b > a && is_whitespace_char(v[b - 1])
        invariant
            a <= b <= hi,
            hi <= v.len(),
            trim_end_ws(v@.subrange(a as int, hi as int)) == trim_end_ws(v@.subrange(a as int, b as int)),
        decreases b - a,
    {
        assert(v@.subrange(a as int, b as int).drop_last() =~= v@.subrange(a as int, b - 1));
        b = b - 1;
    }
    (a, b)
}

pub fn strip_markdown_fence(text: &str) -> (r: String)
    ensures
        r@ == stripped_answer(text@),
{
    let v = chars_of(text);
    let (a, b) = trim_bounds(&v, 0, v.len());
    assert(v@.subrange(0, v.len() as int) =~= text@);
    let ghost t = v@.subrange(a as int, b as int);
    if !(b - a >= 3 && v[a] == '`' && v[a + 1] == '`' && v[a + 2] == '`') {
        proof {
            if starts_with(t, seq!['`', '`', '`']) {
                assert(t.take(3)[0] == v@[a as int]);
                assert(t.take(3)[1] == v@[a + 1]);
                assert(t.take(3)[2] == v@[a + 2]);
            }
        }
        return string_of(&v.as_slice()[a..b]);
    }
    assert(t.take(3) =~= seq!['`', '`', '`']);
    let mut c = a + 3;
    assert(v@.subrange(c as int, b as int) =~= t.skip(3));
    let ghost r0 = t.skip(3);
    if b - c >= 3 && v[c] == 's' && v[c + 1] == 'q' && v[c + 2] == 'l' {
        assert(r0.take(3) =~= seq!['s', 'q', 'l']);
        c = c + 3;
        assert(v@.subrange(c as int, b as int) =~= r0.skip(3));
    } else {
        proof {
            if starts_with(r0, seq!['s', 'q', 'l']) {
                assert(r0.take(3)[0] == v@[c as int]);
                assert(r0.take(3)[1] == v@[c + 1]);
                assert(r0.take(3)[2] == v@[c + 2]);
            }
        }
    }
    fence_body(&v, c, b)
}

/// The answer inside an opening fence whose tag ends at `c`.
fn fence_body(v: &Vec<char>, c0: usize, b: usize) -> (r: String)
    requires
        c0 <= b <= v.len(),
    ensures
        r@ == ({
            let r = trim_newlines(v@.subrange(c0 as int, b as int));
            match last_fence(r) {
                Some(e) => trim_ws(r.take(e)),
                None => trim_ws(r),
            }
        }),
{
    let mut c = c0;
    let ghost r1 = v@.subrange(c as int, b as int);
    while c < b && v[c] == '\n'
        invariant
            c0 <= c <= b,
            b <= v.len(),
            trim_newlines(r1) == trim_newlines(v@.subrange(c as int, b as int)),
        decreases b - c,
    {
        assert(v@.subrange(c as int, b as int).skip(1) =~= v@.subrange(c + 1, b as int));
        c = c + 1;
    }
    let ghost rr = v@.subrange(c as int, b as int);
    assert(trim_newlines(rr) == rr);
    let mut e = b;
    let mut found = false;
    while e - c >= 3 && !found
        invariant
            c <= e <= b,
            b <= v.len(),
            last_fence(rr) == (if found { Some(e - 3 - c) } else { last_fence(v@.subrange(c as int, e as int)) }),
            found ==> e >= c + 3,
        decreases e - c, (if found { 0int } else { 1int }),
    {
        let ghost cur = v@.subrange(c as int, e as int);
        if v[e - 3] == '`' && v[e - 2] == '`' && v[e - 1] == '`' {
            assert(cur[cur.len() - 3] == v@[e - 3]);
            found = true;
        } else {
            assert(cur.drop_last() =~= v@.subrange(c as int, e - 1));
            e = e - 1;
        }
    }
    if found {
        let (x, y) = trim_bounds(&v, c, e - 3);
        assert(v@.subrange(c as int, (e - 3) as int) =~= rr.take(e - 3 - c));
        string_of(&v.as_slice()[x..y])
    } else {
        proof {
            let cur = v@.subrange(c as int, e as int);
            assert(cur.len() < 3);
        }
        let (x, y) = trim_bounds(&v, c, b);
        string_of(&v.as_slice()[x..y])
    }
}

/// The first `n` characters of `s` (all of it if shorter): how much of a
/// statement the progress display shows.
pub fn first_chars(s: &str, n: usize) -> (r: String)
    ensures
        r@ == (if s@.len() <= n { s@ } else { s@.take(n as int) }),
{
    let v = chars_of(s);
    let m = if v.len() <= n { v.len() } else { n };
    let r = string_of(&v.as_slice()[0..m]);
    assert(v@.subrange(0, m as int) =~= (if s@.len() <= n { s@ } else { s@.take(n as int) }));
    r
}

/// The confirmation the model gets after updating the task list.
pub fn todo_update_message(count: usize) -> (m: String)
    ensures
        m@ == "任务清单已更新，共 "@ + decimal(count as nat) + " 项"@,
{
    let mut m = String::from_str("任务清单已更新，共 ");
    push_decimal(&mut m, count as u64);
    m.append(" 项");
    m
}

/// Where trimming the conversation stops: the first user message after
/// the system prompt and the first turn (index 2 on). Messages 1 up to it
/// are dropped; without such a message nothing can be dropped.
pub fn context_cut_end(is_user: &Vec<bool>) -> (r: Option<usize>)
    ensures
        match r {
            Some(p) => 2 <= p < is_user@.len() && is_user@[p as int] && forall|q: int| 2 <= q < p ==> !is_user@[q],
            None => forall|q: int| 2 <= q < is_user@.len() ==> !is_user@[q],
        },
{
    let mut i: usize = 2;
    while i < is_user.len()
        invariant
            2 <= i,
            forall|q: int| 2 <= q < i && q < is_user@.len() ==> !is_user@[q],
        decreases is_user.len() - i,
    {
        if is_user[i] {
            return Some(i);
        }
        i = i + 1;
    }
    None
}

/// The name of a database kind as the assistant's prompt shows it.
pub open spec fn db_kind_label(k: crate::model::DbKind) -> Seq<char> {
    match k {
        crate::model::DbKind::Mysql => "Mysql"@,
        crate::model::DbKind::Tdsql => "Tdsql"@,
        crate::model::DbKind::Postgres => "Postgres"@,
        crate::model::DbKind::Opengauss => "Opengauss"@,
        crate::model::DbKind::SqlServer => "SqlServer"@,
        crate::model::DbKind::Oracle => "Oracle"@,
    }
}

fn db_kind_label_str(k: crate::model::DbKind) -> (s: &'static str)
    ensures
        s@ == db_kind_label(k),
{
    match k {
        crate::model::DbKind::Mysql => "Mysql",
        crate::model::DbKind::Tdsql => "Tdsql",
        crate::model::DbKind::Postgres => "Postgres",
        crate::model::DbKind::Opengauss => "Opengauss",
        crate::model::DbKind::SqlServer => "SqlServer",
        crate::model::DbKind::Oracle => "Oracle",
    }
}

/// The assistant's system prompt for a data source.
pub open spec fn system_prompt_text(label: Seq<char>, kind: crate::model::DbKind) -> Seq<char> {
    "你是一个 SQL 助手，当前连接的数据源是「"@ + label + "」（"@ + db_kind_label(kind)
        + " 数据库）。\n可以用 list_objects 列出有哪些表、describe_table 查看表结构，再用 run_query 执行 SQL 查看数据。\n只读查询（SELECT/EXPLAIN）和 INSERT 会直接执行；UPDATE/DELETE/建表改表删表这类语句会先弹窗\n让用户确认，用户拒绝时如实告诉用户，不要重复尝试同一条语句、也不要擅自改写成别的语句绕过确认。\n一次 run_query 只能传一条语句。回答尽量简洁，用中文，涉及具体数据结论时给出你依据的 SQL。"@
}

pub fn agent_system_prompt(label: &str, kind: crate::model::DbKind) -> (s: String)
    ensures
        s@ == system_prompt_text(label@, kind),
{
    let mut s = String::from_str("你是一个 SQL 助手，当前连接的数据源是「");
    s.append(label);
    s.append("」（");
    s.append(db_kind_label_str(kind));
    s.append(" 数据库）。\n可以用 list_objects 列出有哪些表、describe_table 查看表结构，再用 run_query 执行 SQL 查看数据。\n只读查询（SELECT/EXPLAIN）和 INSERT 会直接执行；UPDATE/DELETE/建表改表删表这类语句会先弹窗\n让用户确认，用户拒绝时如实告诉用户，不要重复尝试同一条语句、也不要擅自改写成别的语句绕过确认。\n一次 run_query 只能传一条语句。回答尽量简洁，用中文，涉及具体数据结论时给出你依据的 SQL。");
    s
}

/// Each database kind is shown under its own variant name, and no two kinds
/// share a name.
pub proof fn kind_names_are_the_variant_names(k1: crate::model::DbKind, k2: crate::model::DbKind)
    ensures
        db_kind_label(crate::model::DbKind::Mysql) == "Mysql"@,
        db_kind_label(crate::model::DbKind::Tdsql) == "Tdsql"@,
        db_kind_label(crate::model::DbKind::Postgres) == "Postgres"@,
        db_kind_label(crate::model::DbKind::Opengauss) == "Opengauss"@,
        db_kind_label(crate::model::DbKind::SqlServer) == "SqlServer"@,
        db_kind_label(crate::model::DbKind::Oracle) == "Oracle"@,
        db_kind_label(k1) == db_kind_label(k2) ==> k1 == k2,
{
    reveal_strlit("Mysql");
    reveal_strlit("Tdsql");
    reveal_strlit("Postgres");
    reveal_strlit("Opengauss");
    reveal_strlit("SqlServer");
    reveal_strlit("Oracle");
    if db_kind_label(k1) == db_kind_label(k2) {
        let a = db_kind_label(k1);
        let b = db_kind_label(k2);
        assert(a.len() == b.len());
        assert(a[0] == b[0]);
    }
}

/// The system prompt names the data source's own kind: the kind's name
/// stands right after the source's label and its opening bracket, and two
/// kinds never give the same prompt for one label.
pub proof fn prompt_names_the_source_kind(label: Seq<char>, k1: crate::model::DbKind, k2: crate::model::DbKind)
    ensures
        ({
            let at: int = ("你是一个 SQL 助手，当前连接的数据源是「"@ + label + "」（"@).len() as int;
            &&& system_prompt_text(label, k1).subrange(at, at + db_kind_label(k1).len()) == db_kind_label(k1)
            &&& system_prompt_text(label, crate::model::DbKind::SqlServer).subrange(at, at + 9) == "SqlServer"@
            &&& system_prompt_text(label, crate::model::DbKind::Mysql).subrange(at, at + 5) == "Mysql"@
        }),
        system_prompt_text(label, k1) == system_prompt_text(label, k2) ==> k1 == k2,
{
    kind_names_are_the_variant_names(k1, k2);
    reveal_strlit("SqlServer");
    reveal_strlit("Mysql");
    let head = "你是一个 SQL 助手，当前连接的数据源是「"@ + label + "」（"@;
    let tail = " 数据库）。\n可以用 list_objects 列出有哪些表、describe_table 查看表结构，再用 run_query 执行 SQL 查看数据。\n只读查询（SELECT/EXPLAIN）和 INSERT 会直接执行；UPDATE/DELETE/建表改表删表这类语句会先弹窗\n让用户确认，用户拒绝时如实告诉用户，不要重复尝试同一条语句、也不要擅自改写成别的语句绕过确认。\n一次 run_query 只能传一条语句。回答尽量简洁，用中文，涉及具体数据结论时给出你依据的 SQL。"@;
    let n1 = db_kind_label(k1);
    let n2 = db_kind_label(k2);
    let at: int = head.len() as int;
    assert(system_prompt_text(label, k1) =~= head + n1 + tail);
    assert(system_prompt_text(label, k2) =~= head + n2 + tail);
    assert((head + n1 + tail).subrange(at, at + n1.len()) =~= n1);
    let ss = db_kind_label(crate::model::DbKind::SqlServer);
    let my = db_kind_label(crate::model::DbKind::Mysql);
    assert(system_prompt_text(label, crate::model::DbKind::SqlServer) =~= head + ss + tail);
    assert((head + ss + tail).subrange(at, at + ss.len()) =~= ss);
    assert(system_prompt_text(label, crate::model::DbKind::Mysql) =~= head + my + tail);
    assert((head + my + tail).subrange(at, at + my.len()) =~= my);
    if system_prompt_text(label, k1) == system_prompt_text(label, k2) {
        assert(n1.len() == n2.len());
        assert((head + n2 + tail).subrange(at, at + n2.len()) =~= n2);
        assert(n1 == n2);
    }
}

/// The tools the assistant offers the model.
#[derive(Debug, Clone, Copy, PartialEq, Eq, Structural)]
pub enum ToolKind {
    RunQuery,
    DescribeTable,
    ListObjects,
    TodoWrite,
    Question,
}

/// The tool a name calls, if the assistant has it.
pub open spec fn tool_kind_of(name: Seq<char>) -> Option<ToolKind> {
    if name == "run_query"@ {
        Some(ToolKind::RunQuery)
    } else if name == "describe_table"@ {
        Some(ToolKind::DescribeTable)
    } else if name == "list_objects"@ {
        Some(ToolKind::ListObjects)
    } else if name == "todo_write"@ {
        Some(ToolKind::TodoWrite)
    } else if name == "question"@ {
        Some(ToolKind::Question)
    } else {
        None
    }
}

/// The tool a call names; a name the assistant does not have is refused.
pub fn tool_kind(name: &str) -> (r: Result<ToolKind, AppError>)
    ensures
        match tool_kind_of(name@) {
            Some(k) => r == Ok::<ToolKind, AppError>(k),
            None => r matches Err(AppError::Internal(m)) && m@ == "unknown tool: "@ + name@,
        },
{
    if crate::text::str_eq(name, "run_query") {
        Ok(ToolKind::RunQuery)
    } else if crate::text::str_eq(name, "describe_table") {
        Ok(ToolKind::DescribeTable)
    } else if crate::text::str_eq(name, "list_objects") {
        Ok(ToolKind::ListObjects)
    } else if crate::text::str_eq(name, "todo_write") {
        Ok(ToolKind::TodoWrite)
    } else if crate::text::str_eq(name, "question") {
        Ok(ToolKind::Question)
    } else {
        Err(unknown_tool_error(name))
    }
}

/// The type of a tool parameter in the schema the model sees.
#[derive(Debug, Clone, Copy, PartialEq, Eq, Structural)]
pub enum ParamType {
    Text,
    Integer,
    /// A list of strings.
    TextList,
    /// A list of task entries (`id`, `content`, `status`).
    TodoList,
}

/// One parameter of a tool.
#[derive(Debug, Clone)]
pub struct ToolParam {
    pub name: String,
    pub ty: ParamType,
    pub description: Option<String>,
    pub required: bool,
    pub default: Option<u64>,
}

/// One tool as the model is told of it.
#[derive(Debug, Clone)]
pub struct ToolSpec {
    pub name: String,
    pub description: String,
    pub params: Vec<ToolParam>,
}

pub open spec fn param_is(
    p: ToolParam,
    name: Seq<char>,
    ty: ParamType,
    description: Option<Seq<char>>,
    required: bool,
    default: Option<u64>,
) -> bool {
    &&& p.name@ == name
    &&& p.ty == ty
    &&& crate::repo::opt_str(p.description) == description
    &&& p.required == required
    &&& p.default == default
}

pub open spec fn tool_names(t: Seq<ToolSpec>) -> Seq<Seq<char>> {
    t.map_values(|s: ToolSpec| s.name@)
}

/// The default row limit the schema gives `run_query`, if the list has it.
pub open spec fn run_query_limit_default(t: Seq<ToolSpec>) -> Option<u64> {
    if t.len() > 0 && t[0].name@ == "run_query"@ && t[0].params@.len() > 1 {
        t[0].params@[1].default
    } else {
        None
    }
}

/// The assistant's tools, in order, with their descriptions and parameters.
pub open spec fn agent_tool_list(t: Seq<ToolSpec>) -> bool {
    &&& t.len() == 5
    &&& t[0].description@ == "在当前连接的数据源上执行一条 SQL 语句并返回结果。只读查询（SELECT/EXPLAIN）会直接执行；INSERT 也会直接执行；UPDATE/DELETE/DDL（CREATE/ALTER/DROP 等）会先弹窗让用户确认，用户拒绝时这个工具会返回\"用户拒绝执行\"而不是报错。一次只能传一条语句。"@
    &&& t[0].params@.len() == 2
    &&& param_is(t[0].params@[0], "sql"@, ParamType::Text, Some("要执行的一条 SQL 语句，不要带结尾分号之外的多条语句"@), true, None)
    &&& param_is(t[0].params@[1], "row_limit"@, ParamType::Integer, Some("最多返回多少行，默认 50，避免结果集过大"@), false, Some(DEFAULT_ROW_LIMIT as u64))
    &&& t[1].description@ == "查看某张表/视图的列结构（列名、类型、是否可空、是否主键、注释）和索引信息"@
    &&& t[1].params@.len() == 2
    &&& param_is(t[1].params@[0], "schema"@, ParamType::Text, Some("schema 名，不确定的话先用 list_objects 列出来"@), true, None)
    &&& param_is(t[1].params@[1], "name"@, ParamType::Text, Some("表名/视图名"@), true, None)
    &&& t[2].description@ == "列出当前数据库里的表/视图（可选按 schema 过滤），用于在写查询之前先确认有哪些表、分别在哪个 schema 下"@
    &&& t[2].params@.len() == 1
    &&& param_is(t[2].params@[0], "schema"@, ParamType::Text, Some("只列出这个 schema 下的对象，不传则列出全部（结果会被截断到前一部分）"@), false, None)
    &&& t[3].description@ == "创建/更新一份结构化任务清单，用于向用户展示多步任务的实时进度；每次调用传入完整的最新清单（不是增量），界面会实时渲染"@
    &&& t[3].params@.len() == 1
    &&& param_is(t[3].params@[0], "todos"@, ParamType::TodoList, None, true, None)
    &&& t[4].description@ == "向用户提出一个结构化问题并等待回答，用于任务中出现需要用户决策/澄清的岔路口（而不是把问题混在最终答案文字里）。提供 options 时前端渲染成按钮组，否则渲染文本输入框"@
    &&& t[4].params@.len() == 2
    &&& param_is(t[4].params@[0], "question"@, ParamType::Text, None, true, None)
    &&& param_is(t[4].params@[1], "options"@, ParamType::TextList, Some("可选的候选答案列表，不提供则用户自由输入"@), false, None)
}

fn tool_param(name: &str, ty: ParamType, description: Option<&str>, required: bool, default: Option<u64>) -> (p: ToolParam)
    ensures
        param_is(p, name@, ty, crate::data_editor::opt_view(description), required, default),
{
    ToolParam {
        name: String::from_str(name),
        ty,
        description: match description {
            Some(d) => Some(String::from_str(d)),
            None => None,
        },
        required,
        default,
    }
}

/// The tools the model is offered; each call's name and arguments are
/// read back by `tool_kind` and the argument parsing.
pub fn agent_tools() -> (t: Vec<ToolSpec>)
    ensures
        tool_names(t@) == seq!["run_query"@, "describe_table"@, "list_objects"@, "todo_write"@, "question"@],
        run_query_limit_default(t@) == Some(50u64),
        agent_tool_list(t@),
{
    let mut run_query_params: Vec<ToolParam> = Vec::new();
    run_query_params.push(tool_param("sql", ParamType::Text, Some("要执行的一条 SQL 语句，不要带结尾分号之外的多条语句"), true, None));
    run_query_params.push(tool_param("row_limit", ParamType::Integer, Some("最多返回多少行，默认 50，避免结果集过大"), false, Some(DEFAULT_ROW_LIMIT as u64)));
    let mut describe_params: Vec<ToolParam> = Vec::new();
    describe_params.push(tool_param("schema", ParamType::Text, Some("schema 名，不确定的话先用 list_objects 列出来"), true, None));
    describe_params.push(tool_param("name", ParamType::Text, Some("表名/视图名"), true, None));
    let mut list_params: Vec<ToolParam> = Vec::new();
    list_params.push(tool_param("schema", ParamType::Text, Some("只列出这个 schema 下的对象，不传则列出全部（结果会被截断到前一部分）"), false, None));
    let mut todo_params: Vec<ToolParam> = Vec::new();
    todo_params.push(tool_param("todos", ParamType::TodoList, None, true, None));
    let mut question_params: Vec<ToolParam> = Vec::new();
    question_params.push(tool_param("question", ParamType::Text, None, true, None));
    question_params.push(tool_param("options", ParamType::TextList, Some("可选的候选答案列表，不提供则用户自由输入"), false, None));
    let mut t: Vec<ToolSpec> = Vec::new();
    t.push(ToolSpec { name: String::from_str("run_query"), description: String::from_str("在当前连接的数据源上执行一条 SQL 语句并返回结果。只读查询（SELECT/EXPLAIN）会直接执行；INSERT 也会直接执行；UPDATE/DELETE/DDL（CREATE/ALTER/DROP 等）会先弹窗让用户确认，用户拒绝时这个工具会返回\"用户拒绝执行\"而不是报错。一次只能传一条语句。"), params: run_query_params });
    t.push(ToolSpec { name: String::from_str("describe_table"), description: String::from_str("查看某张表/视图的列结构（列名、类型、是否可空、是否主键、注释）和索引信息"), params: describe_params });
    t.push(ToolSpec { name: String::from_str("list_objects"), description: String::from_str("列出当前数据库里的表/视图（可选按 schema 过滤），用于在写查询之前先确认有哪些表、分别在哪个 schema 下"), params: list_params });
    t.push(ToolSpec { name: String::from_str("todo_write"), description: String::from_str("创建/更新一份结构化任务清单，用于向用户展示多步任务的实时进度；每次调用传入完整的最新清单（不是增量），界面会实时渲染"), params: todo_params });
    t.push(ToolSpec { name: String::from_str("question"), description: String::from_str("向用户提出一个结构化问题并等待回答，用于任务中出现需要用户决策/澄清的岔路口（而不是把问题混在最终答案文字里）。提供 options 时前端渲染成按钮组，否则渲染文本输入框"), params: question_params });
    assert(tool_names(t@) =~= seq!["run_query"@, "describe_table"@, "list_objects"@, "todo_write"@, "question"@]);
    t
}

} // verus!
