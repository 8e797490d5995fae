use roc_desk_sql::agent_turn::{
    context_budget, detail_of, finish_round, start_round, tool_arguments_text, tool_call_detail,
    tool_failure_text, trim_end, AgentTurn, FailureNote, ModelReply, RoundEnd, RoundStart,
    DEFAULT_SQL_CONTEXT_BUDGET, MAX_TOOL_ITERATIONS,
};
use roc_desk_sql::error::AppError;

#[test]
fn budgets_follow_the_context_window() {
    assert_eq!(context_budget(None), DEFAULT_SQL_CONTEXT_BUDGET);
    assert_eq!(context_budget(Some(128_000)), 102_400);
    assert_eq!(context_budget(Some(1_005)), 800);
    assert_eq!(context_budget(Some(9)), 0);
}

#[test]
fn trimming_drops_whole_turns() {
    let roles = vec![false, true, false, false, true, false];
    assert_eq!(trim_end(&roles, 10, 100), None);
    assert_eq!(trim_end(&roles, 101, 100), Some(4));
    let only_current = vec![false, true, false, false];
    assert_eq!(trim_end(&only_current, 101, 100), None);
    let mut long = vec![false; 61];
    long[1] = true;
    long[30] = true;
    assert_eq!(trim_end(&long, 0, 100), Some(30));
}

#[test]
fn a_turn_has_a_bounded_number_of_rounds() {
    let mut turn = AgentTurn::new();
    let mut offered = 0;
    let mut notes = 0;
    for _ in 0..MAX_TOOL_ITERATIONS {
        match start_round(&mut turn, false) {
            RoundStart::Call { conclude_note, offer_tools } => {
                if offer_tools {
                    offered += 1;
                }
                if conclude_note {
                    notes += 1;
                    assert!(!offer_tools);
                }
            }
            RoundStart::Stop(_) => panic!("stopped early"),
        }
    }
    assert_eq!(offered, 17);
    assert_eq!(notes, 1);
    match start_round(&mut turn, false) {
        RoundStart::Stop(AppError::Internal(m)) => assert!(m.starts_with("这一轮已经调用了 20 次工具还没给出最终结论")),
        _ => panic!("expected the turn to stop"),
    }
}

#[test]
fn a_cancelled_turn_stops() {
    let mut turn = AgentTurn::new();
    match start_round(&mut turn, true) {
        RoundStart::Stop(AppError::Internal(m)) => assert_eq!(m, "已停止：用户取消了当前对话轮次"),
        _ => panic!("expected a stop"),
    }
    assert_eq!(turn.rounds, 0);
}

#[test]
fn round_outcomes() {
    match finish_round(ModelReply::Answer { text: Some("42".to_string()), tool_calls: 0 }) {
        RoundEnd::Conclude(t) => assert_eq!(t, "42"),
        _ => panic!("expected an answer"),
    }
    match finish_round(ModelReply::Answer { text: None, tool_calls: 0 }) {
        RoundEnd::Conclude(t) => assert_eq!(t, ""),
        _ => panic!("expected an answer"),
    }
    assert!(matches!(finish_round(ModelReply::Answer { text: None, tool_calls: 2 }), RoundEnd::RunTools));
    match finish_round(ModelReply::RequestFailed("timeout".to_string())) {
        RoundEnd::Fail { note: FailureNote::RequestFailed(n), error: AppError::Connection(m) } => {
            assert_eq!(n, "timeout");
            assert_eq!(m, "timeout");
        }
        _ => panic!("expected a failure"),
    }
    match finish_round(ModelReply::ParseFailed("eof".to_string())) {
        RoundEnd::Fail { note: FailureNote::ParseFailed(n), error: AppError::Internal(m) } => {
            assert_eq!(n, "eof");
            assert_eq!(m, "解析响应失败: eof");
        }
        _ => panic!("expected a failure"),
    }
    assert!(matches!(
        finish_round(ModelReply::Cancelled),
        RoundEnd::Fail { note: FailureNote::Nothing, error: AppError::Internal(_) }
    ));
    assert_eq!(tool_failure_text(&AppError::Database("boom".to_string())), "工具执行出错：boom");
    assert_eq!(tool_arguments_text(&AppError::Internal("bad".to_string())), "工具调用参数解析失败：bad");
}

#[test]
fn tool_call_details() {
    let long_sql = format!("SELECT {}", "x".repeat(100));
    let args = format!("{{\"sql\": \"{}\"}}", long_sql);
    let d = tool_call_detail("run_query", &args).unwrap();
    assert_eq!(d.chars().count(), 80);
    assert!(d.starts_with("SELECT xxx"));
    assert_eq!(tool_call_detail("describe_table", "{\"schema\":\"public\",\"name\":\"t\"}"), Some("public.t".to_string()));
    assert_eq!(tool_call_detail("describe_table", "{\"name\":\"t\"}"), Some(".t".to_string()));
    assert_eq!(tool_call_detail("list_objects", "{\"schema\":\"audit\"}"), Some("audit".to_string()));
    assert_eq!(tool_call_detail("list_objects", "{}"), None);
    assert_eq!(tool_call_detail("run_query", "not json"), None);
    assert_eq!(tool_call_detail("todo_write", "{\"todos\": []}"), None);
    assert_eq!(
        detail_of("describe_table", Some(vec![None, Some("s".to_string()), Some("n".to_string())])),
        Some("s.n".to_string())
    );
    assert_eq!(detail_of("run_query", None), None);
}
