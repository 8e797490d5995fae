use roc_desk_sql::adapter::preview_sql;
use roc_desk_sql::data_editor::{
    build_alter_table, build_count_query, build_delete_row, build_insert_row, build_page_query,
    build_update_cell, quote_ident, quote_literal, quote_table, where_clause, AlterOp, CellInput, NamedCell,
};
use roc_desk_sql::model::{DbKind, ObjectKind, ObjectRef};

fn obj(schema: &str, name: &str) -> ObjectRef {
    ObjectRef { schema: schema.to_string(), name: name.to_string(), kind: ObjectKind::Table }
}

fn text(s: &str) -> CellInput {
    CellInput { is_null: false, text: s.to_string() }
}

fn named(n: &str, v: CellInput) -> NamedCell {
    NamedCell { name: n.to_string(), value: v }
}

#[test]
fn identifiers_are_quoted_per_dialect() {
    assert_eq!(quote_ident(DbKind::Mysql, "a`b"), "`a``b`");
    assert_eq!(quote_ident(DbKind::Tdsql, "t"), "`t`");
    assert_eq!(quote_ident(DbKind::SqlServer, "a]b"), "[a]]b]");
    assert_eq!(quote_ident(DbKind::Postgres, "a\"b"), "\"a\"\"b\"");
    assert_eq!(quote_ident(DbKind::Oracle, ""), "\"\"");
    assert_eq!(quote_table(DbKind::Postgres, &obj("public", "users")), "\"public\".\"users\"");
    assert_eq!(quote_table(DbKind::Mysql, &obj("", "users")), "`users`");
}

#[test]
fn literals_and_where_clauses() {
    assert_eq!(quote_literal(&CellInput { is_null: true, text: "x".into() }), "NULL");
    assert_eq!(quote_literal(&text("it's")), "'it''s'");
    assert_eq!(where_clause(DbKind::Postgres, &[]), "");
    assert_eq!(
        where_clause(DbKind::Mysql, &[named("id", text("1")), named("k", CellInput { is_null: true, text: String::new() })]),
        "`id` = '1' AND `k` = NULL"
    );
}

#[test]
fn page_and_count_queries() {
    let t = obj("dbo", "orders");
    assert_eq!(
        build_page_query(DbKind::SqlServer, &t, None, 2000, 4000),
        "SELECT * FROM [dbo].[orders] ORDER BY (SELECT NULL) OFFSET 4000 ROWS FETCH NEXT 2000 ROWS ONLY"
    );
    assert_eq!(
        build_page_query(DbKind::SqlServer, &t, Some("id"), 10, 0),
        "SELECT * FROM [dbo].[orders] ORDER BY [id] OFFSET 0 ROWS FETCH NEXT 10 ROWS ONLY"
    );
    assert_eq!(
        build_page_query(DbKind::Postgres, &obj("public", "t"), Some("id"), 100, 200),
        "SELECT * FROM \"public\".\"t\" LIMIT 100 OFFSET 200"
    );
    assert_eq!(build_count_query(DbKind::Mysql, &obj("shop", "t")), "SELECT COUNT(*) FROM `shop`.`t`");
}

#[test]
fn row_edits_are_keyed_by_primary_key() {
    let t = obj("public", "users");
    let pk = [named("id", text("7"))];
    assert_eq!(
        build_update_cell(DbKind::Postgres, &t, &pk, "name", &text("O'Neil")),
        "UPDATE \"public\".\"users\" SET \"name\" = 'O''Neil' WHERE \"id\" = '7'"
    );
    assert_eq!(
        build_delete_row(DbKind::Mysql, &obj("", "users"), &pk),
        "DELETE FROM `users` WHERE `id` = '7'"
    );
    assert_eq!(
        build_insert_row(DbKind::SqlServer, &obj("dbo", "u"), &[named("a", text("1")), named("b", CellInput { is_null: true, text: String::new() })]),
        "INSERT INTO [dbo].[u] ([a], [b]) VALUES ('1', NULL)"
    );
    assert_eq!(build_insert_row(DbKind::Postgres, &obj("", "u"), &[]), "INSERT INTO \"u\" () VALUES ()");
}

#[test]
fn alter_table_statements() {
    let ops = vec![
        AlterOp::AddColumn { name: "age".into(), data_type: "INT".into(), nullable: false },
        AlterOp::DropColumn { name: "old".into() },
        AlterOp::RenameColumn { old_name: "a".into(), new_name: "b".into() },
    ];
    let pg = build_alter_table(DbKind::Postgres, &obj("public", "t"), &ops);
    assert_eq!(
        pg,
        vec![
            "ALTER TABLE \"public\".\"t\" ADD COLUMN \"age\" INT NOT NULL",
            "ALTER TABLE \"public\".\"t\" DROP COLUMN \"old\"",
            "ALTER TABLE \"public\".\"t\" RENAME COLUMN \"a\" TO \"b\"",
        ]
    );
    let ms = build_alter_table(DbKind::SqlServer, &obj("dbo", "t"), &ops);
    assert_eq!(ms[0], "ALTER TABLE [dbo].[t] ADD [age] INT NOT NULL");
    assert_eq!(ms[2], "EXEC sp_rename 'dbo.t.a', 'b', 'COLUMN'");
    let nullable = build_alter_table(
        DbKind::Mysql,
        &obj("", "t"),
        &[AlterOp::AddColumn { name: "c".into(), data_type: "TEXT".into(), nullable: true }],
    );
    assert_eq!(nullable, vec!["ALTER TABLE `t` ADD COLUMN `c` TEXT"]);
    assert!(build_alter_table(DbKind::Mysql, &obj("", "t"), &[]).is_empty());
}

#[test]
fn preview_queries_use_the_editor_quoting() {
    let t = obj("s", "t");
    assert_eq!(preview_sql(DbKind::SqlServer, &t), "SELECT TOP (100) * FROM [s].[t];");
    assert_eq!(preview_sql(DbKind::Oracle, &t), "SELECT * FROM \"s\".\"t\" FETCH FIRST 100 ROWS ONLY;");
    assert_eq!(preview_sql(DbKind::Mysql, &t), "SELECT * FROM `s`.`t` LIMIT 100;");
    assert_eq!(preview_sql(DbKind::Postgres, &obj("", "t")), format!("SELECT * FROM {} LIMIT 100;", quote_table(DbKind::Postgres, &obj("", "t"))));
}
