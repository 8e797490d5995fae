//! Export of tables to CSV or JSON and import of CSV files, in batches that
//! can be resumed: the CSV text rules, the batch queries and the decisions
//! of each step. Reading and writing files and running the queries is the
//! caller's part.

use vstd::prelude::*;
use crate::data_editor::{quote_ident, quote_table, quoted_ident, quoted_table};
use crate::model::{Cell, ColumnInfo, DbKind, ObjectRef};
use crate::text::{chars_of, is_blank, is_blank_str, join, doubled, lemma_doubled_concat, contains_char, copy_string, joined, push_char, quote_with, quoted, views};

verus! {

/// Whether a CSV field must be quoted: it holds a comma, a double quote or
/// a line break.
pub open spec fn needs_csv_quotes(s: Seq<char>) -> bool {
    s.contains(',') || s.contains('"') || s.contains('\n') || s.contains('\r')
}

/// A CSV field: quoted, with inner double quotes doubled, where needed.
pub open spec fn csv_field(s: Seq<char>) -> Seq<char> {
    if needs_csv_quotes(s) {
        quoted('"', '"', s)
    } else {
        s
    }
}

pub fn csv_escape(s: &str) -> (r: String)
    ensures
        r@ == csv_field(s@),
{
    if contains_char(s, ',') || contains_char(s, '"') || contains_char(s, '\n') || contains_char(s, '\r') {
        quote_with('"', '"', s)
    } else {
        String::from_str(s)
    }
}

/// The CSV field of a cell: NULL exports as an empty field.
pub open spec fn cell_csv(c: Cell) -> Seq<char> {
    if c.is_null {
        Seq::empty()
    } else {
        csv_field(c.text@)
    }
}

pub fn cell_to_csv_field(cell: &Cell) -> (r: String)
    ensures
        r@ == cell_csv(*cell),
{
    if cell.is_null {
        String::new()
    } else {
        csv_escape(cell.text.as_str())
    }
}

/// One CSV line (without its line break) for a row of cells.
pub open spec fn csv_row_text(row: Seq<Cell>) -> Seq<char> {
    joined(row.map_values(|c: Cell| cell_csv(c)), ","@)
}

pub fn csv_row_line(row: &Vec<Cell>) -> (r: String)
    ensures
        r@ == csv_row_text(row@),
{
    let ghost parts = row@.map_values(|c: Cell| cell_csv(c));
    let mut r = String::new();
    let mut i: usize = 0;
    while i < row.len()
        invariant
            i <= row.len(),
            parts == row@.map_values(|c: Cell| cell_csv(c)),
            r@ == joined(parts.take(i as int), ","@),
        decreases row.len() - i,
    {
        assert(parts.take(i + 1).drop_last() =~= parts.take(i as int));
        if i > 0 {
            r.append(",");
        }
        let f = cell_to_csv_field(&row[i]);
        r.append(f.as_str());
        i = i + 1;
        assert(r@ =~= joined(parts.take(i as int), ","@));
    }
    assert(parts.take(row.len() as int) =~= parts);
    r
}

/// The CSV header line: the column names as fields.
pub open spec fn csv_header_text(columns: Seq<ColumnInfo>) -> Seq<char> {
    joined(columns.map_values(|c: ColumnInfo| csv_field(c.name@)), ","@)
}

pub fn csv_header_line(columns: &Vec<ColumnInfo>) -> (r: String)
    ensures
        r@ == csv_header_text(columns@),
{
    let ghost parts = columns@.map_values(|c: ColumnInfo| csv_field(c.name@));
    let mut r = String::new();
    let mut i: usize = 0;
    while i < columns.len()
        invariant
            i <= columns.len(),
            parts == columns@.map_values(|c: ColumnInfo| csv_field(c.name@)),
            r@ == joined(parts.take(i as int), ","@),
        decreases columns.len() - i,
    {
        assert(parts.take(i + 1).drop_last() =~= parts.take(i as int));
        if i > 0 {
            r.append(",");
        }
        let f = csv_escape(columns[i].name.as_str());
        r.append(f.as_str());
        i = i + 1;
        assert(r@ =~= joined(parts.take(i as int), ","@));
    }
    assert(parts.take(columns.len() as int) =~= parts);
    r
}

/// Reading of a CSV line from the front: `fields` are the finished fields,
/// `cur` the field being read, `in_quotes` whether a quoted section is
/// open. Inside quotes `""` is one quote and a lone `"` closes them;
/// outside, `"` opens them and `,` ends the field.
pub open spec fn csv_parse(s: Seq<char>, fields: Seq<Seq<char>>, cur: Seq<char>, in_quotes: bool) -> Seq<Seq<char>>
    decreases s.len(),
{
    if s.len() == 0 {
        fields.push(cur)
    } else {
        let c = s[0];
        if in_quotes {
            if c == '"' {
                if s.len() > 1 && s[1] == '"' {
                    csv_parse(s.skip(2), fields, cur.push('"'), true)
                } else {
                    csv_parse(s.skip(1), fields, cur, false)
                }
            } else {
                csv_parse(s.skip(1), fields, cur.push(c), true)
            }
        } else if c == '"' {
            csv_parse(s.skip(1), fields, cur, true)
        } else if c == ',' {
            csv_parse(s.skip(1), fields.push(cur), Seq::empty(), false)
        } else {
            csv_parse(s.skip(1), fields, cur.push(c), false)
        }
    }
}

/// The fields of a CSV line.
pub open spec fn csv_fields(line: Seq<char>) -> Seq<Seq<char>> {
    csv_parse(line, Seq::empty(), Seq::empty(), false)
}

/// Splits one CSV line into its fields: the quoting of `csv_escape` is
/// undone; other CSV dialects (other separators, line ends inside fields
/// across lines) are not handled.
pub fn parse_csv_line(line: &str) -> (r: Vec<String>)
    ensures
        views(r@) == csv_fields(line@),
{
    let v = chars_of(line);
    let mut fields: Vec<String> = Vec::new();
    let mut current = String::new();
    let mut in_quotes = false;
    let mut i: usize = 0;
    assert(v@.skip(0) =~= v@);
    assert(views(fields@) =~= Seq::<Seq<char>>::empty());
    while i < v.len()
        invariant
            i <= v.len(),
            v@ == line@,
            csv_parse(v@.skip(i as int), views(fields@), current@, in_quotes) == csv_fields(line@),
        decreases v.len() - i,
    {
        let c = v[i];
        let ghost s = v@.skip(i as int);
        assert(s[0] == c);
        if in_quotes {
            if c == '"' {
                if i + 1 < v.len() && v[i + 1] == '"' {
                    push_char(&mut current, '"');
                    assert(v@.skip(i + 2) =~= s.skip(2));
                    i = i + 2;
                } else {
                    in_quotes = false;
                    assert(v@.skip(i + 1) =~= s.skip(1));
                    i = i + 1;
                }
            } else {
                push_char(&mut current, c);
                assert(v@.skip(i + 1) =~= s.skip(1));
                i = i + 1;
            }
        } else if c == '"' {
            in_quotes = true;
            assert(v@.skip(i + 1) =~= s.skip(1));
            i = i + 1;
        } else if c == ',' {
            let ghost old_fields = views(fields@);
            let ghost old_cur = current@;
            fields.push(current);
            current = String::new();
            assert(views(fields@) =~= old_fields.push(old_cur));
            assert(v@.skip(i + 1) =~= s.skip(1));
            i = i + 1;
        } else {
            push_char(&mut current, c);
            assert(v@.skip(i + 1) =~= s.skip(1));
            i = i + 1;
        }
    }
    let ghost old_fields = views(fields@);
    let ghost old_cur = current@;
    assert(v@.skip(i as int) =~= Seq::<char>::empty());
    fields.push(current);
    assert(views(fields@) =~= old_fields.push(old_cur));
    fields
}


proof fn lemma_parse_plain(f: Seq<char>, rest: Seq<char>, fields: Seq<Seq<char>>, cur: Seq<char>)
    requires
        !f.contains(','),
        !f.contains('"'),
    ensures
        csv_parse(f + rest, fields, cur, false) == csv_parse(rest, fields, cur + f, false),
    decreases f.len(),
{
    if f.len() == 0 {
        assert(f + rest =~= rest);
        assert(cur + f =~= cur);
    } else {
        let s = f + rest;
        assert(s[0] == f[0]);
        assert(f.contains(f[0]));
        assert(s.skip(1) =~= f.drop_first() + rest);
        assert forall|c: char| f.drop_first().contains(c) implies f.contains(c) by {
            let j = choose|j: int| 0 <= j < f.drop_first().len() && f.drop_first()[j] == c;
            assert(f[j + 1] == c);
        }
        lemma_parse_plain(f.drop_first(), rest, fields, cur.push(f[0]));
        assert(cur.push(f[0]) + f.drop_first() =~= cur + f);
    }
}

proof fn lemma_parse_quoted_body(f: Seq<char>, rest: Seq<char>, fields: Seq<Seq<char>>, cur: Seq<char>)
    ensures
        csv_parse(doubled(f, '"') + rest, fields, cur, true) == csv_parse(rest, fields, cur + f, true),
    decreases f.len(),
{
    if f.len() == 0 {
        assert(doubled(f, '"') + rest =~= rest);
        assert(cur + f =~= cur);
    } else {
        let head = seq![f[0]];
        let tail = f.drop_first();
        assert(head + tail =~= f);
        lemma_doubled_concat(head, tail, '"');
        assert(head.drop_last() =~= Seq::<char>::empty());
        let s = doubled(f, '"') + rest;
        lemma_parse_quoted_body(tail, rest, fields, cur.push(f[0]));
        assert(cur.push(f[0]) + tail =~= cur + f);
        reveal_with_fuel(doubled, 2);
        if f[0] == '"' {
            assert(doubled(head, '"') =~= seq!['"', '"']);
            assert(s =~= seq!['"', '"'] + (doubled(tail, '"') + rest));
            assert(s.skip(2) =~= doubled(tail, '"') + rest);
        } else {
            assert(doubled(head, '"') =~= seq![f[0]]);
            assert(s =~= seq![f[0]] + (doubled(tail, '"') + rest));
            assert(s.skip(1) =~= doubled(tail, '"') + rest);
        }
    }
}

proof fn lemma_parse_field(f: Seq<char>, rest: Seq<char>, fields: Seq<Seq<char>>)
    requires
        rest.len() == 0 || rest[0] == ',',
    ensures
        csv_parse(csv_field(f) + rest, fields, Seq::empty(), false) == csv_parse(rest, fields, f, false),
{
    if needs_csv_quotes(f) {
        let s = csv_field(f) + rest;
        let inner = doubled(f, '"') + (seq!['"'] + rest);
        assert(s =~= seq!['"'] + inner);
        assert(s.skip(1) =~= inner);
        lemma_parse_quoted_body(f, seq!['"'] + rest, fields, Seq::empty());
        assert(Seq::<char>::empty() + f =~= f);
        let t = seq!['"'] + rest;
        assert(t.skip(1) =~= rest);
    } else {
        lemma_parse_plain(f, rest, fields, Seq::empty());
        assert(Seq::<char>::empty() + f =~= f);
    }
}

proof fn lemma_joined_front(parts: Seq<Seq<char>>, sep: Seq<char>)
    requires
        parts.len() >= 2,
    ensures
        joined(parts, sep) == parts[0] + sep + joined(parts.drop_first(), sep),
    decreases parts.len(),
{
    if parts.len() == 2 {
        assert(parts.drop_last() =~= seq![parts[0]]);
        assert(parts.drop_first() =~= seq![parts[1]]);
        assert(joined(parts.drop_last(), sep) == parts[0]);
        assert(joined(parts.drop_first(), sep) == parts[1]);
        assert(joined(parts, sep) == joined(parts.drop_last(), sep) + sep + parts.last());
        assert(joined(parts, sep) =~= parts[0] + sep + joined(parts.drop_first(), sep));
    } else {
        let dl = parts.drop_last();
        let df = parts.drop_first();
        lemma_joined_front(dl, sep);
        assert(dl.drop_first() =~= df.drop_last());
        assert(df.last() == parts.last());
        assert(dl[0] == parts[0]);
        assert(joined(parts, sep) == joined(dl, sep) + sep + parts.last());
        assert(joined(df, sep) == joined(df.drop_last(), sep) + sep + df.last());
        assert(joined(parts, sep) =~= parts[0] + sep + joined(df, sep));
    }
}

proof fn lemma_parse_joined(fs: Seq<Seq<char>>, fields: Seq<Seq<char>>)
    requires
        fs.len() >= 1,
    ensures
        csv_parse(joined(fs.map_values(|f: Seq<char>| csv_field(f)), ","@), fields, Seq::empty(), false)
            == fields + fs,
    decreases fs.len(),
{
    let parts = fs.map_values(|f: Seq<char>| csv_field(f));
    reveal_strlit(",");
    if fs.len() == 1 {
        assert(joined(parts, ","@) == parts[0]);
        lemma_parse_field(fs[0], Seq::empty(), fields);
        assert(csv_field(fs[0]) + Seq::<char>::empty() =~= csv_field(fs[0]));
        assert(fields.push(fs[0]) =~= fields + fs);
    } else {
        lemma_joined_front(parts, ","@);
        let tail = fs.drop_first();
        assert(parts.drop_first() =~= tail.map_values(|f: Seq<char>| csv_field(f)));
        let rest = ","@ + joined(parts.drop_first(), ","@);
        assert(joined(parts, ","@) =~= csv_field(fs[0]) + rest);
        lemma_parse_field(fs[0], rest, fields);
        assert(rest.skip(1) =~= joined(parts.drop_first(), ","@));
        lemma_parse_joined(tail, fields.push(fs[0]));
        assert(fields.push(fs[0]) + tail =~= fields + fs);
    }
}

/// CSV round trip: a line made of `csv_escape`d fields joined with commas
/// reads back as exactly those fields, whatever they hold (commas, quotes,
/// line breaks). The empty list is left out: its line is empty, and an
/// empty line reads as one empty field.
pub proof fn csv_line_round_trip(fields: Seq<Seq<char>>)
    requires
        fields.len() >= 1,
    ensures
        csv_fields(joined(fields.map_values(|f: Seq<char>| csv_field(f)), ","@)) == fields,
{
    lemma_parse_joined(fields, Seq::empty());
    assert(Seq::<Seq<char>>::empty() + fields =~= fields);
}


/// Rows fetched or inserted per batch.
pub const BATCH_SIZE: usize = 2000;

#[derive(Debug, Clone, Copy, PartialEq, Eq, Structural)]
pub enum TransferFormat {
    Csv,
    Json,
}

/// Progress of an export or import job as its owner sees it.
#[derive(Debug, Clone)]
pub struct TransferProgress {
    pub rows_done: u64,
    pub done: bool,
    pub cancelled: bool,
    pub error: Option<String>,
}

impl TransferProgress {
    /// The progress of a job that has just started at `rows_done`.
    pub fn started(rows_done: u64) -> (p: TransferProgress)
        ensures
            p.rows_done == rows_done,
            !p.done,
            !p.cancelled,
            p.error is None,
    {
        TransferProgress { rows_done, done: false, cancelled: false, error: None }
    }
}

/// What is kept beside the target file so that an interrupted job resumes.
#[derive(Debug, Clone, Copy)]
pub struct ProgressSidecar {
    pub offset: u64,
    pub rows_done: u64,
}

/// The path of the progress record kept beside `file_path`.
pub fn sidecar_path(file_path: &str) -> (r: String)
    ensures
        r@ == file_path@ + ".progress.json"@,
{
    let mut r = String::from_str(file_path);
    r.append(".progress.json");
    r
}

/// Where an export starts: at the recorded offset when resuming and a
/// record exists, else at the beginning.
pub open spec fn start_offset_of(resume: bool, sidecar: Option<ProgressSidecar>) -> u64 {
    if resume && sidecar is Some {
        sidecar->Some_0.offset
    } else {
        0
    }
}

pub fn export_start_offset(resume: bool, sidecar: Option<ProgressSidecar>) -> (o: u64)
    ensures
        o == (if resume && sidecar is Some { sidecar->Some_0.offset } else { 0 }),
        o == start_offset_of(resume, sidecar),
{
    match (resume, sidecar) {
        (true, Some(s)) => s.offset,
        _ => 0,
    }
}

/// How many data lines an import skips: the recorded count when resuming
/// and a record exists, else none.
pub fn import_start_line(resume: bool, sidecar: Option<ProgressSidecar>) -> (o: u64)
    ensures
        o == (if resume && sidecar is Some { sidecar->Some_0.rows_done } else { 0 }),
{
    match (resume, sidecar) {
        (true, Some(s)) => s.rows_done,
        _ => 0,
    }
}

/// The JSON text `serde_json` writes for an object whose members are the
/// given names with string values, or null where the value is absent.
pub uninterp spec fn json_object_text(members: Seq<(Seq<char>, Option<Seq<char>>)>) -> Seq<char>;

pub open spec fn member_view(m: (String, Option<String>)) -> (Seq<char>, Option<Seq<char>>) {
    (m.0@, match m.1 { Some(t) => Some(t@), None => None })
}

/// Serialises a `serde_json::Map` built from `members` (a string value, or
/// `Value::Null` for `None`) with `serde_json::to_string`. The contract
/// claims only that the text is a function of the members; how `serde_json`
/// orders and escapes them is left unsaid.
#[verifier::external_body]
fn json_object_line(members: &Vec<(String, Option<String>)>) -> (r: String)
    ensures
        r@ == json_object_text(members@.map_values(|m: (String, Option<String>)| member_view(m))),
{
    let obj: serde_json::Map<String, serde_json::Value> = members
        .iter()
        .map(|(k, v)| (k.clone(), match v {
            Some(t) => serde_json::Value::String(t.clone()),
            None => serde_json::Value::Null,
        }))
        .collect();
    serde_json::to_string(&obj).unwrap_or_default()
}

/// The members of a row's JSON object: column names paired with the cells,
/// as many as both have; NULL cells are absent values.
pub open spec fn row_members(columns: Seq<ColumnInfo>, row: Seq<Cell>) -> Seq<(Seq<char>, Option<Seq<char>>)> {
    let n = if columns.len() < row.len() { columns.len() } else { row.len() };
    Seq::new(n as nat, |i: int| (columns[i].name@, if row[i].is_null { None } else { Some(row[i].text@) }))
}

/// The JSON object of one exported row.
pub fn json_row_object(columns: &Vec<ColumnInfo>, row: &Vec<Cell>) -> (r: String)
    ensures
        r@ == json_object_text(row_members(columns@, row@)),
{
    let n = if columns.len() < row.len() { columns.len() } else { row.len() };
    let mut members: Vec<(String, Option<String>)> = Vec::new();
    let mut i: usize = 0;
    while i < n
        invariant
            i <= n,
            n == (if columns.len() < row.len() { columns.len() } else { row.len() }),
            members@.len() == i,
            forall|j: int| 0 <= j < i ==> #[trigger] member_view(members@[j]) == row_members(columns@, row@)[j],
        decreases n - i,
    {
        let value = if row[i].is_null { None } else { Some(copy_string(&row[i].text)) };
        members.push((copy_string(&columns[i].name), value));
        i = i + 1;
    }
    assert(members@.map_values(|m: (String, Option<String>)| member_view(m)) =~= row_members(columns@, row@));
    json_object_line(&members)
}

/// Where an export stands between batches.
#[derive(Debug, Clone, Copy)]
pub struct ExportState {
    pub format: TransferFormat,
    /// Rows exported so far, the offset of the next page.
    pub offset: u64,
    pub wrote_header: bool,
    pub wrote_any_json_row: bool,
}

/// The opening of a new export and its state. A resumed export (offset
/// above zero) appends: it writes neither a header nor the opening `[`.
pub fn export_start(format: TransferFormat, start_offset: u64) -> (r: (ExportState, String))
    ensures
        r.0.format == format,
        r.0.offset == start_offset,
        r.0.wrote_header == (start_offset > 0),
        r.0.wrote_any_json_row == (start_offset > 0),
        r.1@ == (if format == TransferFormat::Json && start_offset == 0 { "[\n"@ } else { Seq::empty() }),
        r.1@ == opening_text(format, start_offset),
        written_flag(r.0) == (start_offset > 0),
{
    let append = start_offset > 0;
    let state = ExportState { format, offset: start_offset, wrote_header: append, wrote_any_json_row: append };
    if format == TransferFormat::Json && !append {
        (state, String::from_str("[\n"))
    } else {
        (state, String::new())
    }
}

/// The text an export writes after its last batch.
pub fn export_finish_text(format: TransferFormat) -> (r: String)
    ensures
        r@ == (if format == TransferFormat::Json { "\n]\n"@ } else { Seq::empty() }),
        r@ == finish_text(format),
{
    if format == TransferFormat::Json {
        String::from_str("\n]\n")
    } else {
        String::new()
    }
}

/// The CSV text of a batch: the header first if none was written yet, then
/// one line per row, each ending in a line break.
pub open spec fn csv_batch_text(wrote_header: bool, columns: Seq<ColumnInfo>, rows: Seq<Vec<Cell>>) -> Seq<char> {
    (if wrote_header { Seq::empty() } else { csv_header_text(columns) + "\n"@ }) + csv_rows_text(rows)
}

pub open spec fn csv_rows_text(rows: Seq<Vec<Cell>>) -> Seq<char>
    decreases rows.len(),
{
    if rows.len() == 0 {
        Seq::empty()
    } else {
        csv_rows_text(rows.drop_last()) + csv_row_text(rows.last()@) + "\n"@
    }
}

/// The JSON text of a batch: the row objects, each preceded by `,\n`
/// unless it is the first of the export.
pub open spec fn json_rows_text(wrote_any: bool, columns: Seq<ColumnInfo>, rows: Seq<Vec<Cell>>) -> Seq<char>
    decreases rows.len(),
{
    if rows.len() == 0 {
        Seq::empty()
    } else {
        let before = json_rows_text(wrote_any, columns, rows.drop_last());
        let sep = if wrote_any || rows.len() > 1 { ",\n"@ } else { Seq::empty() };
        before + sep + json_object_text(row_members(columns, rows.last()@))
    }
}

/// One step of an export: what a fetched batch appends to the file, and
/// whether the export is over (an empty batch, or one shorter than
/// `BATCH_SIZE`).
pub struct ExportStep {
    pub text: String,
    pub done: bool,
}

pub fn export_batch(state: &mut ExportState, columns: &Vec<ColumnInfo>, rows: &Vec<Vec<Cell>>) -> (step: ExportStep)
    requires
        old(state).offset + rows@.len() <= u64::MAX,
    ensures
        final(state).format == old(state).format,
        final(state).offset == old(state).offset + rows@.len(),
        step.done == (rows@.len() < BATCH_SIZE),
        old(state).format == TransferFormat::Csv ==> {
            &&& step.text@ == (if rows@.len() == 0 { Seq::empty() } else { csv_batch_text(old(state).wrote_header, columns@, rows@) })
            &&& final(state).wrote_header == (old(state).wrote_header || rows@.len() > 0)
            &&& final(state).wrote_any_json_row == old(state).wrote_any_json_row
        },
        old(state).format == TransferFormat::Json ==> {
            &&& step.text@ == json_rows_text(old(state).wrote_any_json_row, columns@, rows@)
            &&& final(state).wrote_any_json_row == (old(state).wrote_any_json_row || rows@.len() > 0)
            &&& final(state).wrote_header == old(state).wrote_header
        },
        step.text@ == rows_text(old(state).format, written_flag(*old(state)), columns@, rows@),
        written_flag(*final(state)) == (written_flag(*old(state)) || rows@.len() > 0),
{
    let mut text = String::new();
    if rows.len() == 0 {
        return ExportStep { text, done: true };
    }
    let ghost start = state.wrote_any_json_row;
    match state.format {
        TransferFormat::Csv => {
            if !state.wrote_header {
                let h = csv_header_line(columns);
                text.append(h.as_str());
                text.append("\n");
                state.wrote_header = true;
            }
            let ghost head = text@;
            let mut i: usize = 0;
            while i < rows.len()
                invariant
                    i <= rows.len(),
                    text@ == head + csv_rows_text(rows@.take(i as int)),
                    state.offset == old(state).offset,
                    state.format == old(state).format,
                    state.wrote_header == (old(state).wrote_header || rows@.len() > 0),
                    state.wrote_any_json_row == old(state).wrote_any_json_row,
                decreases rows.len() - i,
            {
                assert(rows@.take(i + 1).drop_last() =~= rows@.take(i as int));
                let line = csv_row_line(&rows[i]);
                text.append(line.as_str());
                text.append("\n");
                i = i + 1;
                assert(text@ =~= head + csv_rows_text(rows@.take(i as int)));
            }
            assert(rows@.take(rows.len() as int) =~= rows@);
        },
        TransferFormat::Json => {
            let mut i: usize = 0;
            while i < rows.len()
                invariant
                    i <= rows.len(),
                    state.wrote_any_json_row == (start || i > 0),
                    state.format == TransferFormat::Json,
                    state.format == old(state).format,
                    state.offset == old(state).offset,
                    state.wrote_header == old(state).wrote_header,
                    text@ == json_rows_text(start, columns@, rows@.take(i as int)),
                decreases rows.len() - i,
            {
                assert(rows@.take(i + 1).drop_last() =~= rows@.take(i as int));
                if state.wrote_any_json_row {
                    text.append(",\n");
                }
                let obj = json_row_object(columns, &rows[i]);
                text.append(obj.as_str());
                state.wrote_any_json_row = true;
                i = i + 1;
                assert(text@ =~= json_rows_text(start, columns@, rows@.take(i as int)));
            }
            assert(rows@.take(rows.len() as int) =~= rows@);
        },
    }
    state.offset = state.offset + rows.len() as u64;
    ExportStep { text, done: rows.len() < BATCH_SIZE }
}


proof fn lemma_csv_rows_concat(a: Seq<Vec<Cell>>, b: Seq<Vec<Cell>>)
    ensures
        csv_rows_text(a + b) == csv_rows_text(a) + csv_rows_text(b),
    decreases b.len(),
{
    if b.len() == 0 {
        assert(a + b =~= a);
    } else {
        lemma_csv_rows_concat(a, b.drop_last());
        assert((a + b).drop_last() =~= a + b.drop_last());
        assert((a + b).last() == b.last());
    }
}

/// A CSV export written in batches is the export of all its rows at once:
/// a batch followed by the next (its header already written) gives the
/// text of both batches' rows together.
pub proof fn csv_batches_concatenate(wrote_header: bool, columns: Seq<ColumnInfo>, a: Seq<Vec<Cell>>, b: Seq<Vec<Cell>>)
    ensures
        csv_batch_text(wrote_header, columns, a) + csv_batch_text(true, columns, b)
            == csv_batch_text(wrote_header, columns, a + b),
{
    lemma_csv_rows_concat(a, b);
}

/// A JSON export written in batches is the export of all its rows at once:
/// the separators between batches are those between rows.
pub proof fn json_batches_concatenate(wrote_any: bool, columns: Seq<ColumnInfo>, a: Seq<Vec<Cell>>, b: Seq<Vec<Cell>>)
    ensures
        json_rows_text(wrote_any, columns, a) + json_rows_text(wrote_any || a.len() > 0, columns, b)
            == json_rows_text(wrote_any, columns, a + b),
    decreases b.len(),
{
    if b.len() == 0 {
        assert(a + b =~= a);
    } else {
        json_batches_concatenate(wrote_any, columns, a, b.drop_last());
        assert((a + b).drop_last() =~= a + b.drop_last());
        assert((a + b).last() == b.last());
    }
}

/// What an export writes before its first batch: the opening `[` of a new
/// JSON export, nothing otherwise.
pub open spec fn opening_text(format: TransferFormat, start_offset: u64) -> Seq<char> {
    if format == TransferFormat::Json && start_offset == 0 {
        "[\n"@
    } else {
        Seq::empty()
    }
}

/// What an export writes after its last batch.
pub open spec fn finish_text(format: TransferFormat) -> Seq<char> {
    if format == TransferFormat::Json {
        "\n]\n"@
    } else {
        Seq::empty()
    }
}

/// Whether the file already holds what comes before the rows: the CSV
/// header, or a first JSON object.
pub open spec fn written_flag(state: ExportState) -> bool {
    match state.format {
        TransferFormat::Csv => state.wrote_header,
        TransferFormat::Json => state.wrote_any_json_row,
    }
}

/// The text of a batch of rows, given whether the file already holds what
/// comes before the rows.
pub open spec fn rows_text(format: TransferFormat, written: bool, columns: Seq<ColumnInfo>, rows: Seq<Vec<Cell>>) -> Seq<char> {
    match format {
        TransferFormat::Csv => if rows.len() == 0 {
            Seq::empty()
        } else {
            csv_batch_text(written, columns, rows)
        },
        TransferFormat::Json => json_rows_text(written, columns, rows),
    }
}

/// The text of batches written one after the other.
pub open spec fn batches_text(
    format: TransferFormat,
    written: bool,
    columns: Seq<ColumnInfo>,
    batches: Seq<Seq<Vec<Cell>>>,
) -> Seq<char>
    decreases batches.len(),
{
    if batches.len() == 0 {
        Seq::empty()
    } else {
        rows_text(format, written, columns, batches[0]) + batches_text(
            format,
            written || batches[0].len() > 0,
            columns,
            batches.drop_first(),
        )
    }
}

proof fn lemma_rows_text_concat(
    format: TransferFormat,
    written: bool,
    columns: Seq<ColumnInfo>,
    a: Seq<Vec<Cell>>,
    b: Seq<Vec<Cell>>,
)
    ensures
        rows_text(format, written, columns, a) + rows_text(format, written || a.len() > 0, columns, b)
            == rows_text(format, written, columns, a + b),
{
    match format {
        TransferFormat::Csv => {
            if a.len() == 0 {
                assert(a + b =~= b);
            } else if b.len() == 0 {
                assert(a + b =~= a);
            } else {
                csv_batches_concatenate(written, columns, a, b);
            }
        },
        TransferFormat::Json => {
            json_batches_concatenate(written, columns, a, b);
        },
    }
}

proof fn lemma_batches_text_flatten(
    format: TransferFormat,
    written: bool,
    columns: Seq<ColumnInfo>,
    batches: Seq<Seq<Vec<Cell>>>,
)
    ensures
        batches_text(format, written, columns, batches) == rows_text(format, written, columns, batches.flatten()),
    decreases batches.len(),
{
    if batches.len() == 0 {
        assert(batches.flatten() =~= Seq::<Vec<Cell>>::empty());
        if format == TransferFormat::Json {
            assert(json_rows_text(written, columns, Seq::<Vec<Cell>>::empty()) == Seq::<char>::empty());
        }
    } else {
        let first = batches[0];
        let rest = batches.drop_first();
        lemma_batches_text_flatten(format, written || first.len() > 0, columns, rest);
        lemma_rows_text_concat(format, written, columns, first, rest.flatten());
        assert(batches.flatten() == first + rest.flatten());
    }
}

/// A cancelled export resumed from its progress record writes the file an
/// uninterrupted export writes. The first run opened the file, wrote the
/// batches `before` and, on cancel, recorded their row count; the resumed
/// run starts at the recorded offset, appends the batches `after` (no
/// second header or `[`) and closes the file.
pub proof fn resumed_export_is_uninterrupted(
    format: TransferFormat,
    columns: Seq<ColumnInfo>,
    before: Seq<Seq<Vec<Cell>>>,
    after: Seq<Seq<Vec<Cell>>>,
    record: ProgressSidecar,
)
    requires
        before.flatten().len() > 0,
        record.offset == before.flatten().len(),
    ensures
        start_offset_of(true, Some(record)) == before.flatten().len(),
        ({
            let n = start_offset_of(true, Some(record));
            opening_text(format, 0) + batches_text(format, false, columns, before) + opening_text(format, n)
                + batches_text(format, n > 0, columns, after) + finish_text(format)
                == opening_text(format, 0) + batches_text(format, false, columns, before + after)
                + finish_text(format)
        }),
{
    let n = start_offset_of(true, Some(record));
    lemma_batches_text_flatten(format, false, columns, before);
    lemma_batches_text_flatten(format, true, columns, after);
    lemma_batches_text_flatten(format, false, columns, before + after);
    vstd::seq_lib::lemma_flatten_concat(before, after);
    lemma_rows_text_concat(format, false, columns, before.flatten(), after.flatten());
    assert(opening_text(format, n) =~= Seq::<char>::empty());
}

/// The progress record of an export in `state` (written after each batch
/// and on cancel): the rows written so far, which a resumed export skips.
pub fn export_record(state: &ExportState) -> (r: ProgressSidecar)
    ensures
        r.offset == state.offset,
        r.rows_done == state.offset,
{
    ProgressSidecar { offset: state.offset, rows_done: state.offset }
}

/// How an export job begins.
pub struct ExportBegin {
    pub state: ExportState,
    /// What is written to the file first.
    pub opening: String,
    pub progress: TransferProgress,
    /// Whether an old progress record is removed (a fresh export).
    pub clear_record: bool,
}

/// The beginning of an export: fresh from row 0 (removing any old progress
/// record), or resumed at the recorded offset, appending to the file.
pub fn export_begin(format: TransferFormat, resume: bool, sidecar: Option<ProgressSidecar>) -> (b: ExportBegin)
    ensures
        b.state.format == format,
        b.state.offset == start_offset_of(resume, sidecar),
        written_flag(b.state) == (b.state.offset > 0),
        b.state.wrote_header == (b.state.offset > 0),
        b.state.wrote_any_json_row == (b.state.offset > 0),
        b.opening@ == opening_text(format, b.state.offset),
        b.progress.rows_done == b.state.offset,
        !b.progress.done,
        !b.progress.cancelled,
        b.progress.error is None,
        b.clear_record == !resume,
{
    let offset = export_start_offset(resume, sidecar);
    let (state, opening) = export_start(format, offset);
    ExportBegin { state, opening, progress: TransferProgress::started(offset), clear_record: !resume }
}

/// How an import job begins.
pub struct ImportBegin {
    /// The data lines already sent, skipped on resume.
    pub start_line: u64,
    pub progress: TransferProgress,
    /// Whether an old progress record is removed (a fresh import).
    pub clear_record: bool,
}

pub open spec fn start_line_of(resume: bool, sidecar: Option<ProgressSidecar>) -> u64 {
    if resume && sidecar is Some {
        sidecar->Some_0.rows_done
    } else {
        0
    }
}

/// The beginning of an import: fresh from the first data line (removing
/// any old progress record), or resumed after the recorded count.
pub fn import_begin(resume: bool, sidecar: Option<ProgressSidecar>) -> (b: ImportBegin)
    ensures
        b.start_line == start_line_of(resume, sidecar),
        b.progress.rows_done == b.start_line,
        !b.progress.done,
        !b.progress.cancelled,
        b.progress.error is None,
        b.clear_record == !resume,
{
    let start_line = import_start_line(resume, sidecar);
    ImportBegin { start_line, progress: TransferProgress::started(start_line), clear_record: !resume }
}

/// The progress record of an import after `rows_done` data lines (written
/// after each batch sent and on cancel).
pub fn import_record(rows_done: u64) -> (r: ProgressSidecar)
    ensures
        r.offset == rows_done,
        r.rows_done == rows_done,
{
    ProgressSidecar { offset: rows_done, rows_done }
}

/// A CSV line as the row of an INSERT: every field a string literal.
pub open spec fn values_tuple_text(fields: Seq<Seq<char>>) -> Seq<char> {
    "("@ + joined(fields.map_values(|f: Seq<char>| quoted('\'', '\'', f)), ", "@) + ")"@
}

pub fn values_tuple(fields: &Vec<String>) -> (r: String)
    ensures
        r@ == values_tuple_text(views(fields@)),
{
    let ghost parts = views(fields@).map_values(|f: Seq<char>| quoted('\'', '\'', f));
    let mut body = String::new();
    let mut i: usize = 0;
    while i < fields.len()
        invariant
            i <= fields.len(),
            parts == views(fields@).map_values(|f: Seq<char>| quoted('\'', '\'', f)),
            body@ == joined(parts.take(i as int), ", "@),
        decreases fields.len() - i,
    {
        assert(parts.take(i + 1).drop_last() =~= parts.take(i as int));
        if i > 0 {
            body.append(", ");
        }
        let q = quote_with('\'', '\'', fields[i].as_str());
        body.append(q.as_str());
        i = i + 1;
        assert(body@ =~= joined(parts.take(i as int), ", "@));
    }
    assert(parts.take(fields.len() as int) =~= parts);
    let mut r = String::from_str("(");
    r.append(body.as_str());
    r.append(")");
    r
}

/// The INSERT of a batch of row tuples.
pub open spec fn insert_batch_text(table: Seq<char>, cols: Seq<char>, batch: Seq<Seq<char>>) -> Seq<char> {
    "INSERT INTO "@ + table + " ("@ + cols + ") VALUES "@ + joined(batch, ", "@)
}

/// Where an import stands: the target, the row tuples not yet sent, and
/// the data lines read so far (those skipped on resume included).
pub struct ImportState {
    pub table: String,
    pub quoted_cols: String,
    pub batch: Vec<String>,
    pub rows_done: u64,
}

impl ImportState {
    pub open spec fn well_formed(&self) -> bool {
        self.batch@.len() < BATCH_SIZE
    }
}

/// The quoted column list of an import.
pub open spec fn column_list_text(kind: DbKind, columns: Seq<String>) -> Seq<char> {
    joined(columns.map_values(|c: String| quoted_ident(kind, c@)), ", "@)
}

pub fn import_start(kind: DbKind, object: &ObjectRef, columns: &Vec<String>, start_line: u64) -> (st: ImportState)
    ensures
        st.well_formed(),
        st.table@ == quoted_table(kind, object.schema@, object.name@),
        st.quoted_cols@ == column_list_text(kind, columns@),
        st.batch@.len() == 0,
        st.rows_done == start_line,
{
    let ghost parts = columns@.map_values(|c: String| quoted_ident(kind, c@));
    let mut cols = String::new();
    let mut i: usize = 0;
    while i < columns.len()
        invariant
            i <= columns.len(),
            parts == columns@.map_values(|c: String| quoted_ident(kind, c@)),
            cols@ == joined(parts.take(i as int), ", "@),
        decreases columns.len() - i,
    {
        assert(parts.take(i + 1).drop_last() =~= parts.take(i as int));
        if i > 0 {
            cols.append(", ");
        }
        let q = quote_ident(kind, columns[i].as_str());
        cols.append(q.as_str());
        i = i + 1;
        assert(cols@ =~= joined(parts.take(i as int), ", "@));
    }
    assert(parts.take(columns.len() as int) =~= parts);
    ImportState { table: quote_table(kind, object), quoted_cols: cols, batch: Vec::new(), rows_done: start_line }
}

/// Sends what is left of the batch: its INSERT, or nothing for an empty
/// batch. The batch is empty afterwards.
pub fn import_flush(state: &mut ImportState) -> (r: Option<String>)
    ensures
        final(state).table == old(state).table,
        final(state).quoted_cols == old(state).quoted_cols,
        final(state).rows_done == old(state).rows_done,
        final(state).batch@.len() == 0,
        old(state).batch@.len() == 0 ==> r is None,
        old(state).batch@.len() > 0 ==> (r matches Some(sql)
            && sql@ == insert_batch_text(old(state).table@, old(state).quoted_cols@, views(old(state).batch@))),
{
    if state.batch.len() == 0 {
        return None;
    }
    let values = join(&state.batch, ", ");
    let mut sql = String::from_str("INSERT INTO ");
    sql.append(state.table.as_str());
    sql.append(" (");
    sql.append(state.quoted_cols.as_str());
    sql.append(") VALUES ");
    sql.append(values.as_str());
    state.batch = Vec::new();
    Some(sql)
}

/// Reads one data line. A blank line is skipped; any other line becomes a
/// row tuple and counts as done; when the batch reaches `BATCH_SIZE` rows
/// its INSERT is returned to be run.
/// One data line's effect on the pending row tuples of an import: the
/// tuples pending afterwards, and the batch to send if the line filled one.
/// A blank line changes nothing.
pub open spec fn import_step(pending: Seq<Seq<char>>, line: Seq<char>) -> (Seq<Seq<char>>, Option<Seq<Seq<char>>>) {
    if is_blank(line) {
        (pending, None)
    } else {
        let b = pending.push(values_tuple_text(csv_fields(line)));
        if b.len() >= BATCH_SIZE {
            (Seq::empty(), Some(b))
        } else {
            (b, None)
        }
    }
}

/// The row tuples of the non-blank data lines, in order.
pub open spec fn line_tuples(lines: Seq<Seq<char>>) -> Seq<Seq<char>>
    decreases lines.len(),
{
    if lines.len() == 0 {
        Seq::empty()
    } else if is_blank(lines.last()) {
        line_tuples(lines.drop_last())
    } else {
        line_tuples(lines.drop_last()).push(values_tuple_text(csv_fields(lines.last())))
    }
}

/// An import over `lines` from an empty batch: the batches sent, in order,
/// and the tuples left pending.
pub open spec fn import_run(lines: Seq<Seq<char>>) -> (Seq<Seq<Seq<char>>>, Seq<Seq<char>>)
    decreases lines.len(),
{
    if lines.len() == 0 {
        (Seq::empty(), Seq::empty())
    } else {
        let prev = import_run(lines.drop_last());
        let step = import_step(prev.1, lines.last());
        match step.1 {
            Some(b) => (prev.0.push(b), step.0),
            None => (prev.0, step.0),
        }
    }
}

/// An import loses and repeats no row: over any data lines, the batches it
/// sends followed by the tuples left to flush are the tuples of the
/// non-blank lines, in order; every batch sent is full, and less than a
/// batch is left.
pub proof fn import_keeps_every_row(lines: Seq<Seq<char>>)
    ensures
        import_run(lines).0.flatten() + import_run(lines).1 == line_tuples(lines),
        forall|i: int| 0 <= i < import_run(lines).0.len() ==> #[trigger] import_run(lines).0[i].len() == BATCH_SIZE,
        import_run(lines).1.len() < BATCH_SIZE,
    decreases lines.len(),
{
    if lines.len() > 0 {
        let prev = import_run(lines.drop_last());
        import_keeps_every_row(lines.drop_last());
        let l = lines.last();
        if !is_blank(l) {
            let b = prev.1.push(values_tuple_text(csv_fields(l)));
            if b.len() >= BATCH_SIZE {
                prev.0.lemma_flatten_push(b);
                assert(prev.0.push(b).flatten() + Seq::<Seq<char>>::empty() =~= prev.0.flatten() + prev.1.push(
                    values_tuple_text(csv_fields(l)),
                ));
            } else {
                assert(prev.0.flatten() + b =~= (prev.0.flatten() + prev.1).push(values_tuple_text(csv_fields(l))));
            }
        }
    }
}

pub fn import_line(state: &mut ImportState, line: &str) -> (r: Option<String>)
    requires
        old(state).well_formed(),
        old(state).rows_done < u64::MAX,
    ensures
        final(state).well_formed(),
        final(state).table == old(state).table,
        final(state).quoted_cols == old(state).quoted_cols,
        is_blank(line@) ==> r is None && final(state).rows_done == old(state).rows_done
            && final(state).batch@ == old(state).batch@,
        !is_blank(line@) ==> {
            let b = views(old(state).batch@).push(values_tuple_text(csv_fields(line@)));
            &&& final(state).rows_done == old(state).rows_done + 1
            &&& (b.len() >= BATCH_SIZE ==> (r matches Some(sql)
                && sql@ == insert_batch_text(old(state).table@, old(state).quoted_cols@, b)
                && final(state).batch@.len() == 0))
            &&& (b.len() < BATCH_SIZE ==> r is None && views(final(state).batch@) == b)
        },
        views(final(state).batch@) == import_step(views(old(state).batch@), line@).0,
        match import_step(views(old(state).batch@), line@).1 {
            Some(b) => r matches Some(sql) && sql@ == insert_batch_text(old(state).table@, old(state).quoted_cols@, b),
            None => r is None,
        },
{
    if is_blank_str(line) {
        return None;
    }
    let fields = parse_csv_line(line);
    let tuple = values_tuple(&fields);
    let ghost b = views(state.batch@).push(tuple@);
    state.batch.push(tuple);
    assert(views(state.batch@) =~= b);
    state.rows_done = state.rows_done + 1;
    if state.batch.len() >= BATCH_SIZE {
        import_flush(state)
    } else {
        None
    }
}

} // verus!
