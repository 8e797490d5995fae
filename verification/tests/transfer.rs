use roc_desk_sql::data_editor::build_page_query;
use roc_desk_sql::model::{Cell, ColumnInfo, DbKind, ObjectKind, ObjectRef};
use roc_desk_sql::transfer::{
    export_begin, export_record, import_begin, import_record,
    cell_to_csv_field, csv_escape, csv_header_line, csv_row_line, export_batch, export_finish_text,
    export_start, export_start_offset, import_flush, import_line, import_start, import_start_line,
    json_row_object, parse_csv_line, sidecar_path, values_tuple, ProgressSidecar, TransferFormat,
    TransferProgress, BATCH_SIZE,
};

fn col(n: &str) -> ColumnInfo {
    ColumnInfo { name: n.to_string(), type_label: String::new() }
}

fn t(s: &str) -> Cell {
    Cell::text(s.to_string())
}

#[test]
fn csv_fields_are_escaped_only_when_needed() {
    assert_eq!(csv_escape("plain"), "plain");
    assert_eq!(csv_escape("a,b"), "\"a,b\"");
    assert_eq!(csv_escape("say \"hi\""), "\"say \"\"hi\"\"\"");
    assert_eq!(csv_escape("two\nlines"), "\"two\nlines\"");
    assert_eq!(csv_escape("cr\r"), "\"cr\r\"");
    assert_eq!(cell_to_csv_field(&Cell::null()), "");
    assert_eq!(cell_to_csv_field(&t("x,y")), "\"x,y\"");
}

#[test]
fn csv_lines_parse_back() {
    assert_eq!(parse_csv_line("a,b,c"), vec!["a", "b", "c"]);
    assert_eq!(parse_csv_line(""), vec![""]);
    assert_eq!(parse_csv_line(",,"), vec!["", "", ""]);
    assert_eq!(parse_csv_line("\"a,b\",\"say \"\"hi\"\"\""), vec!["a,b", "say \"hi\""]);
    let fields = vec!["plain".to_string(), "a,b".into(), "q\"q".into(), String::new(), "multi\nline".into()];
    let line = fields.iter().map(|f| csv_escape(f)).collect::<Vec<_>>().join(",");
    assert_eq!(parse_csv_line(&line), fields);
}

#[test]
fn csv_rows_and_header() {
    assert_eq!(csv_header_line(&vec![col("id"), col("na,me")]), "id,\"na,me\"");
    assert_eq!(csv_row_line(&vec![t("1"), Cell::null(), t("x\"y")]), "1,,\"x\"\"y\"");
}

#[test]
fn resume_positions_and_sidecar() {
    let s = Some(ProgressSidecar { offset: 4000, rows_done: 3999 });
    assert_eq!(export_start_offset(true, s), 4000);
    assert_eq!(export_start_offset(false, s), 0);
    assert_eq!(export_start_offset(true, None), 0);
    assert_eq!(import_start_line(true, s), 3999);
    assert_eq!(import_start_line(false, s), 0);
    assert_eq!(sidecar_path("/tmp/out.csv"), "/tmp/out.csv.progress.json");
    let p = TransferProgress::started(12);
    assert_eq!(p.rows_done, 12);
    assert!(!p.done && !p.cancelled && p.error.is_none());
}

#[test]
fn csv_export_writes_header_once() {
    let (mut st, prefix) = export_start(TransferFormat::Csv, 0);
    assert_eq!(prefix, "");
    let cols = vec![col("a"), col("b")];
    let step = export_batch(&mut st, &cols, &vec![vec![t("1"), t("x")], vec![t("2"), Cell::null()]]);
    assert_eq!(step.text, "a,b\n1,x\n2,\n");
    assert!(step.done);
    assert_eq!(st.offset, 2);
    let step2 = export_batch(&mut st, &cols, &vec![vec![t("3"), t("y")]]);
    assert_eq!(step2.text, "3,y\n");
    let end = export_batch(&mut st, &cols, &vec![]);
    assert_eq!(end.text, "");
    assert!(end.done);
    assert_eq!(st.offset, 3);
    assert_eq!(export_finish_text(TransferFormat::Csv), "");
    let (resumed, p) = export_start(TransferFormat::Csv, 4000);
    assert!(resumed.wrote_header);
    assert_eq!(p, "");
}

#[test]
fn full_batches_continue_the_export() {
    let (mut st, _) = export_start(TransferFormat::Csv, 0);
    let rows: Vec<Vec<Cell>> = (0..BATCH_SIZE).map(|i| vec![t(&i.to_string())]).collect();
    let step = export_batch(&mut st, &vec![col("n")], &rows);
    assert!(!step.done);
    assert_eq!(st.offset, BATCH_SIZE as u64);
    assert!(step.text.starts_with("n\n0\n1\n"));
}

#[test]
fn json_export_frames_objects() {
    let (mut st, prefix) = export_start(TransferFormat::Json, 0);
    assert_eq!(prefix, "[\n");
    let cols = vec![col("a"), col("b")];
    let step = export_batch(&mut st, &cols, &vec![vec![t("1"), Cell::null()], vec![t("2"), t("q\"")]]);
    assert_eq!(step.text, "{\"a\":\"1\",\"b\":null},\n{\"a\":\"2\",\"b\":\"q\\\"\"}");
    let step2 = export_batch(&mut st, &cols, &vec![vec![t("3"), t("z")]]);
    assert_eq!(step2.text, ",\n{\"a\":\"3\",\"b\":\"z\"}");
    assert_eq!(export_finish_text(TransferFormat::Json), "\n]\n");
    let (resumed, p) = export_start(TransferFormat::Json, 10);
    assert!(resumed.wrote_any_json_row);
    assert_eq!(p, "");
    assert_eq!(json_row_object(&vec![col("only")], &vec![t("1"), t("extra")]), "{\"only\":\"1\"}");
}

#[test]
fn import_batches_rows_into_inserts() {
    let table = ObjectRef { schema: "public".into(), name: "t".into(), kind: ObjectKind::Table };
    let mut st = import_start(DbKind::Postgres, &table, &vec!["a".to_string(), "b".to_string()], 5);
    assert_eq!(st.table, "\"public\".\"t\"");
    assert_eq!(st.quoted_cols, "\"a\", \"b\"");
    assert_eq!(st.rows_done, 5);
    assert!(import_line(&mut st, "1,it's").is_none());
    assert!(import_line(&mut st, "   \t").is_none());
    assert_eq!(st.rows_done, 6);
    assert!(import_line(&mut st, "\"2,2\",x").is_none());
    let sql = import_flush(&mut st).unwrap();
    assert_eq!(sql, "INSERT INTO \"public\".\"t\" (\"a\", \"b\") VALUES ('1', 'it''s'), ('2,2', 'x')");
    assert!(import_flush(&mut st).is_none());
    assert_eq!(values_tuple(&vec!["x".into()]), "('x')");
}

#[test]
fn import_flushes_a_full_batch() {
    let table = ObjectRef { schema: String::new(), name: "t".into(), kind: ObjectKind::Table };
    let mut st = import_start(DbKind::Mysql, &table, &vec!["v".to_string()], 0);
    let mut flushed = None;
    for i in 0..BATCH_SIZE {
        let r = import_line(&mut st, &i.to_string());
        if i + 1 < BATCH_SIZE {
            assert!(r.is_none());
        } else {
            flushed = r;
        }
    }
    let sql = flushed.unwrap();
    assert!(sql.starts_with("INSERT INTO `t` (`v`) VALUES ('0'), ('1')"));
    assert!(st.batch.is_empty());
    assert_eq!(st.rows_done, BATCH_SIZE as u64);
}

#[test]
fn export_pages_follow_the_offset() {
    let t = ObjectRef { schema: "s".into(), name: "t".into(), kind: ObjectKind::Table };
    assert_eq!(
        build_page_query(DbKind::Mysql, &t, None, BATCH_SIZE, 2000),
        "SELECT * FROM `s`.`t` LIMIT 2000 OFFSET 2000"
    );
}

#[test]
fn batched_exports_equal_one_shot_exports() {
    let cols = vec![col("a"), col("b")];
    let first = vec![vec![t("1"), t("x,y")], vec![t("2"), Cell::null()]];
    let second = vec![vec![t("3"), t("\"q\"")]];
    let all: Vec<Vec<Cell>> = first.iter().chain(second.iter()).cloned().collect();
    for format in [TransferFormat::Csv, TransferFormat::Json] {
        let (mut split, _) = export_start(format, 0);
        let text = export_batch(&mut split, &cols, &first).text + &export_batch(&mut split, &cols, &second).text;
        let (mut whole, _) = export_start(format, 0);
        assert_eq!(text, export_batch(&mut whole, &cols, &all).text);
        assert_eq!(split.offset, whole.offset);
    }
}

#[test]
fn an_import_sends_every_row_once() {
    let table = ObjectRef { schema: String::new(), name: "t".into(), kind: ObjectKind::Table };
    let mut st = import_start(DbKind::SqlServer, &table, &vec!["v".to_string()], 0);
    let mut sent = Vec::new();
    for i in 0..(BATCH_SIZE + 3) {
        let line = if i % 1000 == 7 { String::from("  ") } else { i.to_string() };
        if let Some(sql) = import_line(&mut st, &line) {
            sent.push(sql);
        }
    }
    if let Some(sql) = import_flush(&mut st) {
        sent.push(sql);
    }
    let tuples: usize = sent.iter().map(|s| s.matches("('").count()).sum();
    // Two of the lines (7 and 1007) are blank.
    assert_eq!(tuples, BATCH_SIZE + 1);
    assert_eq!(sent.len(), 2);
    assert!(sent[0].starts_with("INSERT INTO [t] ([v]) VALUES ('0'), ('1')"));
    assert!(sent[1].ends_with("VALUES ('2002')"));
    assert_eq!(st.rows_done, (BATCH_SIZE + 1) as u64);
}

#[test]
fn a_resumed_export_writes_the_uninterrupted_file() {
    let cols = vec![col("a")];
    let rows1 = vec![vec![t("1")], vec![t("2")]];
    let rows2 = vec![vec![t("3,x")]];
    for format in [TransferFormat::Csv, TransferFormat::Json] {
        let fresh = export_begin(format, false, None);
        assert!(fresh.clear_record);
        let mut st = fresh.state;
        let mut file = fresh.opening.clone() + &export_batch(&mut st, &cols, &rows1).text;
        let record = export_record(&st);
        assert_eq!((record.offset, record.rows_done), (2, 2));
        let resumed = export_begin(format, true, Some(record));
        assert!(!resumed.clear_record);
        assert_eq!(resumed.progress.rows_done, 2);
        let mut st2 = resumed.state;
        file += &resumed.opening;
        file += &export_batch(&mut st2, &cols, &rows2).text;
        file += &export_finish_text(format);

        let whole = export_begin(format, false, None);
        let mut st3 = whole.state;
        let all: Vec<Vec<Cell>> = rows1.iter().chain(rows2.iter()).cloned().collect();
        let expected = whole.opening + &export_batch(&mut st3, &cols, &all).text + &export_finish_text(format);
        assert_eq!(file, expected);
    }
    let b = import_begin(true, Some(import_record(40)));
    assert_eq!((b.start_line, b.progress.rows_done, b.clear_record), (40, 40, false));
    assert_eq!(import_begin(false, Some(import_record(40))).start_line, 0);
}
