use roc_desk_sql::agent::{agent_tools, tool_kind, ParamType, ToolKind};
use roc_desk_sql::agent::{
    agent_system_prompt, context_cut_end, first_chars, format_definition_for_agent,
    format_object_list, format_result_for_agent, history_counts, invalid_arguments_error,
    query_gate, row_limit_of, strip_markdown_fence, todo_update_message, unknown_tool_error,
    QueryGate,
};
use roc_desk_sql::ai_assistant::{
    explain_prompt, explain_system_prompt, fix_error_prompt, generate_prompt, optimize_prompt,
    system_prompt,
};
use roc_desk_sql::error::AppError;
use roc_desk_sql::model::{
    Cell, ColumnDef, ColumnInfo, DbKind, ExecuteResult, IndexDef, ObjectDefinition, ObjectKind,
    ObjectRef,
};
use roc_desk_sql::policy::{ExecutionKind, StatementTag};

fn obj(schema: &str, name: &str, kind: ObjectKind) -> ObjectRef {
    ObjectRef { schema: schema.to_string(), name: name.to_string(), kind }
}

#[test]
fn row_limits_are_clamped() {
    assert_eq!(row_limit_of(None), 50);
    assert_eq!(row_limit_of(Some(0)), 1);
    assert_eq!(row_limit_of(Some(20)), 20);
    assert_eq!(row_limit_of(Some(10_000)), 500);
}

#[test]
fn the_gate_refuses_writes_on_readonly_sources() {
    assert_eq!(query_gate(true, StatementTag::Update, ExecutionKind::Transaction), QueryGate::RefuseReadonly);
    assert_eq!(query_gate(true, StatementTag::Insert, ExecutionKind::Normal), QueryGate::RefuseReadonly);
    assert_eq!(query_gate(true, StatementTag::Query, ExecutionKind::Normal), QueryGate::Run);
    assert_eq!(query_gate(true, StatementTag::Explain, ExecutionKind::Normal), QueryGate::Run);
    assert_eq!(query_gate(false, StatementTag::Other, ExecutionKind::Confirm), QueryGate::AskUser);
    assert_eq!(query_gate(false, StatementTag::Delete, ExecutionKind::Transaction), QueryGate::AskUser);
    assert_eq!(query_gate(false, StatementTag::Insert, ExecutionKind::Normal), QueryGate::Run);
}

#[test]
fn results_as_the_model_sees_them() {
    let r = ExecuteResult {
        columns: vec![
            ColumnInfo { name: "id".to_string(), type_label: String::new() },
            ColumnInfo { name: "name".to_string(), type_label: String::new() },
        ],
        rows: vec![
            vec![Cell::text("1".to_string()), Cell::text("a".to_string())],
            vec![Cell::text("2".to_string()), Cell::null()],
        ],
        rows_affected: None,
        truncated: true,
        duration_ms: 12,
    };
    assert_eq!(
        format_result_for_agent(&r),
        "耗时 12ms，返回 2 行（已截断，更多数据请缩小范围/加 LIMIT 重新查询）\nid | name\n1 | a\n2 | NULL\n"
    );
    assert_eq!(history_counts(&r), (Some(12), Some(2)));
    let w = ExecuteResult { rows_affected: Some(3), duration_ms: 4, ..ExecuteResult::empty() };
    assert_eq!(format_result_for_agent(&w), "执行成功，受影响 3 行，耗时 4ms");
    assert_eq!(history_counts(&w), (Some(4), Some(3)));
}

#[test]
fn table_descriptions_for_the_model() {
    let def = ObjectDefinition {
        object: obj("public", "users", ObjectKind::Table),
        columns: vec![
            ColumnDef {
                name: "id".to_string(),
                data_type: "integer".to_string(),
                nullable: false,
                default_value: None,
                is_primary_key: true,
                comment: None,
            },
            ColumnDef {
                name: "email".to_string(),
                data_type: "text".to_string(),
                nullable: true,
                default_value: None,
                is_primary_key: false,
                comment: Some("login".to_string()),
            },
        ],
        indexes: vec![IndexDef { name: "users_pkey".to_string(), definition: "(id)".to_string() }],
        ddl: None,
        comment: Some("accounts".to_string()),
    };
    assert_eq!(
        format_definition_for_agent(&def),
        "public.users  -- accounts\n- id integer NOT NULL PRIMARY KEY\n- email text  -- login\nINDEX users_pkey: (id)\n"
    );
}

#[test]
fn object_listings_filter_by_schema() {
    let objects = vec![
        obj("public", "users", ObjectKind::Table),
        obj("audit", "log", ObjectKind::Table),
        obj("Public", "v_users", ObjectKind::View),
    ];
    assert_eq!(
        format_object_list(&objects, Some("PUBLIC")),
        "public.users (Table)\nPublic.v_users (View)"
    );
    assert_eq!(format_object_list(&objects, None).lines().count(), 3);
    assert_eq!(format_object_list(&objects, Some("none")), "没有找到匹配的对象");
    let many: Vec<ObjectRef> = (0..310).map(|i| obj("s", &format!("t{}", i), ObjectKind::Table)).collect();
    let listing = format_object_list(&many, None);
    assert_eq!(listing.lines().count(), 300);
    assert!(listing.ends_with("s.t299 (Table)"));
}

#[test]
fn fences_are_stripped_from_answers() {
    assert_eq!(strip_markdown_fence("  SELECT 1  "), "SELECT 1");
    assert_eq!(strip_markdown_fence("```sql\nSELECT 1;\n```"), "SELECT 1;");
    assert_eq!(strip_markdown_fence("```\nSELECT 2\n```\n"), "SELECT 2");
    assert_eq!(strip_markdown_fence("```sql\nSELECT 3"), "SELECT 3");
    assert_eq!(strip_markdown_fence(""), "");
}

#[test]
fn small_texts_of_the_assistant() {
    assert_eq!(first_chars("SELECT * FROM t", 6), "SELECT");
    assert_eq!(first_chars("短", 10), "短");
    assert_eq!(todo_update_message(3), "任务清单已更新，共 3 项");
    assert_eq!(context_cut_end(&vec![false, true, false, false, true]), Some(4));
    assert_eq!(context_cut_end(&vec![false, true, true]), Some(2));
    assert_eq!(context_cut_end(&vec![false, true, false]), None);
    match unknown_tool_error("fly") {
        AppError::Internal(m) => assert_eq!(m, "unknown tool: fly"),
        other => panic!("unexpected {:?}", other),
    }
    assert_eq!(
        invalid_arguments_error("run_query", "missing sql").message(),
        "invalid tool arguments for run_query: missing sql"
    );
    let p = agent_system_prompt("prod", DbKind::Postgres);
    assert!(p.starts_with("你是一个 SQL 助手，当前连接的数据源是「prod」（Postgres 数据库）。"));
}

#[test]
fn panel_prompts() {
    assert!(system_prompt().contains("禁止使用 Markdown 代码块围栏"));
    assert!(explain_system_prompt().contains("解释一条 SQL 语句"));
    assert_eq!(
        generate_prompt("count users", "CREATE TABLE users(id int);", ""),
        "当前 SQL 编辑器内容（可能为空）：\n```sql\n\n```\n\n可用表结构（DDL，仅供参考，不代表要全部用到）：\nCREATE TABLE users(id int);\n\n用户需求：count users"
    );
    assert_eq!(explain_prompt("SELECT 1", "-"), "表结构（DDL，供参考）：\n-\n\nSQL：\n```sql\nSELECT 1\n```");
    assert_eq!(
        optimize_prompt("SELECT 1", Some("Seq Scan"), "-"),
        "表结构（DDL，供参考）：\n-\n\n需要优化的 SQL：\n```sql\nSELECT 1\n```\n\n执行计划：\nSeq Scan\n\n请给出优化后的等价 SQL。"
    );
    assert!(!optimize_prompt("SELECT 1", None, "-").contains("执行计划"));
    assert_eq!(
        fix_error_prompt("SELEC 1", "syntax error", "-"),
        "表结构（DDL，供参考）：\n-\n\n执行失败的 SQL：\n```sql\nSELEC 1\n```\n\n数据库返回的错误：\nsyntax error\n\n请给出修复后的 SQL。"
    );
}

#[test]
fn the_tool_list() {
    let tools = agent_tools();
    let names: Vec<&str> = tools.iter().map(|t| t.name.as_str()).collect();
    assert_eq!(names, vec!["run_query", "describe_table", "list_objects", "todo_write", "question"]);
    assert_eq!(tools[0].params[1].name, "row_limit");
    assert_eq!(tools[0].params[1].default, Some(50));
    assert_eq!(tools[3].params[0].ty, ParamType::TodoList);
    assert!(!tools[2].params[0].required);
    assert!(tools[0].description.contains("\"用户拒绝执行\""));
    assert_eq!(tool_kind("question").unwrap(), ToolKind::Question);
    match tool_kind("drop_everything") {
        Err(AppError::Internal(m)) => assert_eq!(m, "unknown tool: drop_everything"),
        other => panic!("unexpected {:?}", other),
    }
    assert!(roc_desk_sql::agent_turn::conclude_note().starts_with("你已经调用了很多次工具"));
}
