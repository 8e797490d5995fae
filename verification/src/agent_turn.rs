//! One turn of the SQL assistant's conversation: how many model rounds it
//! may take, when the model must conclude without tools, how the history is
//! trimmed to the context budget, and how a round's outcome ends the turn
//! or continues it. The model calls, tool runs and events are the caller's.

use vstd::prelude::*;
use crate::error::AppError;
use crate::adapters::sqlserver::text_or_empty;
use crate::repo::opt_str;
use crate::text::{decimal, push_decimal};

verus! {

/// Model rounds one turn may take before it stops.
pub const MAX_TOOL_ITERATIONS: usize = 20;
/// The last rounds of a turn, in which the model gets no tools and must
/// conclude.
pub const FORCE_CONCLUDE_LAST_N: usize = 3;
/// Messages kept in the conversation before old turns are dropped.
pub const MAX_CONTEXT_MESSAGES: usize = 60;
/// Token budget of the history when the provider states no context window.
pub const DEFAULT_SQL_CONTEXT_BUDGET: usize = 48000;

/// The history's token budget: four fifths of the provider's context
/// window (rounded down to tenths), or the default.
pub open spec fn budget_of(context_window_tokens: Option<u64>) -> usize {
    match context_window_tokens {
        Some(n) => ((n as usize) / 10 * 8) as usize,
        None => DEFAULT_SQL_CONTEXT_BUDGET,
    }
}

pub fn context_budget(context_window_tokens: Option<u64>) -> (b: usize)
    ensures
        b == budget_of(context_window_tokens),
{
    match context_window_tokens {
        Some(n) => {
            let w = n as usize;
            w / 10 * 8
        },
        None => DEFAULT_SQL_CONTEXT_BUDGET,
    }
}

/// Whether the history is over its limits: too many messages, or more
/// estimated tokens than the budget.
pub open spec fn over_limits(message_count: nat, estimated_tokens: usize, budget: usize) -> bool {
    message_count > MAX_CONTEXT_MESSAGES || estimated_tokens > budget
}

/// One trimming step of the history, given which messages are the user's
/// (message 0 is the system prompt): when it is over its limits, the
/// messages from 1 up to (not including) the first user message at index 2
/// or later are dropped. `None` means stop: within limits, or nothing can
/// be dropped without losing the current turn.
pub fn trim_end(is_user: &Vec<bool>, estimated_tokens: usize, budget: usize) -> (r: Option<usize>)
    ensures
        !over_limits(is_user@.len(), estimated_tokens, budget) ==> r is None,
        over_limits(is_user@.len(), estimated_tokens, budget) ==> match r {
            Some(p) => 2 <= p < is_user@.len() && is_user@[p as int] && forall|q: int| 2 <= q < p ==> !is_user@[q],
            None => forall|q: int| 2 <= q < is_user@.len() ==> !is_user@[q],
        },
{
    if !(is_user.len() > MAX_CONTEXT_MESSAGES || estimated_tokens > budget) {
        return None;
    }
    crate::agent::context_cut_end(is_user)
}

/// Where a turn stands: how many model rounds it has started.
pub struct AgentTurn {
    pub rounds: usize,
}

impl AgentTurn {
    pub fn new() -> (t: AgentTurn)
        ensures
            t.rounds == 0,
    {
        AgentTurn { rounds: 0 }
    }
}

/// What to do at the start of a round.
pub enum RoundStart {
    /// Call the model; first add the note that asks it to conclude if
    /// `conclude_note`, and offer the tools only if `offer_tools`.
    Call { conclude_note: bool, offer_tools: bool },
    /// End the turn with this error (the user cancelled, or the rounds are
    /// used up).
    Stop(AppError),
}

pub open spec fn cancelled_message() -> Seq<char> {
    "已停止：用户取消了当前对话轮次"@
}

pub open spec fn exhausted_message() -> Seq<char> {
    "这一轮已经调用了 "@ + decimal(MAX_TOOL_ITERATIONS as nat)
        + " 次工具还没给出最终结论，先停下来避免无限跑下去。之前的进度都还在，直接发\"继续\"就会接着刚才的内容往下做。"@
}

fn cancelled_error() -> (e: AppError)
    ensures
        e matches AppError::Internal(m) && m@ == cancelled_message(),
{
    AppError::Internal(String::from_str("已停止：用户取消了当前对话轮次"))
}

/// The system note added on the first round without tools, asking the
/// model to conclude from what it has gathered.
pub fn conclude_note() -> (s: &'static str)
    ensures
        s@ == "你已经调用了很多次工具，收集到的信息应该已经足够。接下来不再提供任何工具，请直接基于目前已经了解到的内容给出结论/总结，不要说\"我需要再看看\"这类话。"@,
{
    "你已经调用了很多次工具，收集到的信息应该已经足够。接下来不再提供任何工具，请直接基于目前已经了解到的内容给出结论/总结，不要说\"我需要再看看\"这类话。"
}

/// The first round without tools.
pub open spec fn conclude_start() -> usize {
    (MAX_TOOL_ITERATIONS - FORCE_CONCLUDE_LAST_N) as usize
}

/// Starts the next round of `turn`. A turn has at most
/// `MAX_TOOL_ITERATIONS` rounds; the last `FORCE_CONCLUDE_LAST_N` offer no
/// tools, and the first of them adds the note asking the model to
/// conclude. A cancelled turn stops before its next round.
pub fn start_round(turn: &mut AgentTurn, cancelled: bool) -> (r: RoundStart)
    ensures
        old(turn).rounds >= MAX_TOOL_ITERATIONS ==> (r matches RoundStart::Stop(AppError::Internal(m))
            && m@ == exhausted_message()) && final(turn).rounds == old(turn).rounds,
        old(turn).rounds < MAX_TOOL_ITERATIONS && cancelled ==> (r matches RoundStart::Stop(AppError::Internal(m))
            && m@ == cancelled_message()) && final(turn).rounds == old(turn).rounds,
        old(turn).rounds < MAX_TOOL_ITERATIONS && !cancelled ==> r == (RoundStart::Call {
            conclude_note: old(turn).rounds == conclude_start(),
            offer_tools: old(turn).rounds < conclude_start(),
        }) && final(turn).rounds == old(turn).rounds + 1,
{
    if turn.rounds >= MAX_TOOL_ITERATIONS {
        let mut m = String::from_str("这一轮已经调用了 ");
        push_decimal(&mut m, MAX_TOOL_ITERATIONS as u64);
        m.append(" 次工具还没给出最终结论，先停下来避免无限跑下去。之前的进度都还在，直接发\"继续\"就会接着刚才的内容往下做。");
        return RoundStart::Stop(AppError::Internal(m));
    }
    if cancelled {
        return RoundStart::Stop(cancelled_error());
    }
    let i = turn.rounds;
    let start = MAX_TOOL_ITERATIONS - FORCE_CONCLUDE_LAST_N;
    turn.rounds = i + 1;
    RoundStart::Call { conclude_note: i == start, offer_tools: i < start }
}

/// How a model call came back.
pub enum ModelReply {
    /// The user cancelled while the model was answering.
    Cancelled,
    /// The request failed; the text says how.
    RequestFailed(String),
    /// The answer could not be read; the text says why.
    ParseFailed(String),
    /// An answer: its text, and how many tool calls it asks for.
    Answer { text: Option<String>, tool_calls: usize },
}

/// What a failed round leaves in the conversation before the turn ends.
pub enum FailureNote {
    Nothing,
    RequestFailed(String),
    ParseFailed(String),
}

/// What follows a round.
pub enum RoundEnd {
    /// The turn ends with this error, after adding the note.
    Fail { note: FailureNote, error: AppError },
    /// The turn ends with this answer (recorded as the assistant's message).
    Conclude(String),
    /// Run the requested tools, then start the next round.
    RunTools,
}

pub open spec fn parse_failed_message(e: Seq<char>) -> Seq<char> {
    "解析响应失败: "@ + e
}

/// The end of a round from the model's reply: a cancel or a failure ends
/// the turn with an error; an answer without tool calls concludes it with
/// its text (empty if it has none); otherwise the tools run.
pub fn finish_round(reply: ModelReply) -> (r: RoundEnd)
    ensures
        match reply {
            ModelReply::Cancelled => r matches RoundEnd::Fail { note: FailureNote::Nothing, error: AppError::Internal(m) }
                && m@ == cancelled_message(),
            ModelReply::RequestFailed(d) => r matches RoundEnd::Fail {
                note: FailureNote::RequestFailed(n),
                error: AppError::Connection(m),
            } && n@ == d@ && m@ == d@,
            ModelReply::ParseFailed(e) => r matches RoundEnd::Fail {
                note: FailureNote::ParseFailed(n),
                error: AppError::Internal(m),
            } && n@ == e@ && m@ == parse_failed_message(e@),
            ModelReply::Answer { text, tool_calls } => if tool_calls == 0 {
                r matches RoundEnd::Conclude(t) && t@ == (match text {
                    Some(s) => s@,
                    None => Seq::empty(),
                })
            } else {
                r is RunTools
            },
        },
{
    match reply {
        ModelReply::Cancelled => RoundEnd::Fail { note: FailureNote::Nothing, error: cancelled_error() },
        ModelReply::RequestFailed(d) => {
            let note = d.clone();
            RoundEnd::Fail { note: FailureNote::RequestFailed(note), error: AppError::Connection(d) }
        },
        ModelReply::ParseFailed(e) => {
            let mut m = String::from_str("解析响应失败: ");
            m.append(e.as_str());
            RoundEnd::Fail { note: FailureNote::ParseFailed(e), error: AppError::Internal(m) }
        },
        ModelReply::Answer { text, tool_calls } => {
            if tool_calls == 0 {
                RoundEnd::Conclude(
                    match text {
                        Some(s) => s,
                        None => String::new(),
                    },
                )
            } else {
                RoundEnd::RunTools
            }
        },
    }
}

/// The text the model gets for a tool call that failed.
pub fn tool_failure_text(e: &AppError) -> (s: String)
    ensures
        s@ == "工具执行出错："@ + e.message_view(),
{
    let mut s = String::from_str("工具执行出错：");
    let m = e.message();
    s.append(m.as_str());
    s
}

/// The text the model gets for a tool call whose arguments did not parse.
pub fn tool_arguments_text(e: &AppError) -> (s: String)
    ensures
        s@ == "工具调用参数解析失败："@ + e.message_view(),
{
    let mut s = String::from_str("工具调用参数解析失败：");
    let m = e.message();
    s.append(m.as_str());
    s
}

/// What `serde_json` reads from a JSON text for the given member names:
/// `None` when the text is not JSON; otherwise, for each name, the member's
/// value if the text is an object whose member of that name is a string.
pub uninterp spec fn json_string_members(json: Seq<char>, names: Seq<Seq<char>>) -> Option<Seq<Option<Seq<char>>>>;

pub open spec fn opt_views(v: Seq<Option<String>>) -> Seq<Option<Seq<char>>> {
    v.map_values(|o: Option<String>| opt_str(o))
}

pub open spec fn members_view(r: Option<Vec<Option<String>>>) -> Option<Seq<Option<Seq<char>>>> {
    match r {
        Some(v) => Some(opt_views(v@)),
        None => None,
    }
}

/// Parses `json` with `serde_json::from_str` into a `serde_json::Value`
/// and reads each named member with `Value::as_str`. The contract names the
/// result and states only that there is one entry per name.
#[verifier::external_body]
fn string_members(json: &str, names: &Vec<String>) -> (r: Option<Vec<Option<String>>>)
    ensures
        members_view(r) == json_string_members(json@, crate::text::views(names@)),
        r matches Some(v) ==> v@.len() == names@.len(),
{
    let value: serde_json::Value = serde_json::from_str(json).ok()?;
    Some(names.iter().map(|n| value[n.as_str()].as_str().map(|s| s.to_string())).collect())
}

/// The member names a tool call's detail is read from.
pub open spec fn detail_names() -> Seq<Seq<char>> {
    seq!["sql"@, "schema"@, "name"@]
}

/// What the progress display shows of a tool call, from its arguments'
/// `sql`, `schema` and `name` members: the first 80 characters of a
/// query, `schema.name` of a described table, the schema of a listing;
/// nothing for other tools or arguments that are not JSON.
pub open spec fn call_detail(fn_name: Seq<char>, members: Option<Seq<Option<Seq<char>>>>) -> Option<Seq<char>> {
    match members {
        None => None,
        Some(ms) => if fn_name == "run_query"@ {
            match ms[0] {
                Some(q) => Some(if q.len() <= 80 { q } else { q.take(80) }),
                None => None,
            }
        } else if fn_name == "describe_table"@ {
            Some(text_or_empty(ms[1]) + seq!['.'] + text_or_empty(ms[2]))
        } else if fn_name == "list_objects"@ {
            ms[1]
        } else {
            None
        },
    }
}

fn opt_text(o: &Option<String>) -> (r: String)
    ensures
        r@ == text_or_empty(opt_str(*o)),
{
    match o {
        Some(s) => crate::text::copy_string(s),
        None => String::new(),
    }
}

/// The detail of a tool call from the string members read from its
/// arguments (`sql`, `schema`, `name`, in that order).
pub fn detail_of(fn_name: &str, members: Option<Vec<Option<String>>>) -> (r: Option<String>)
    requires
        members matches Some(v) ==> v@.len() == 3,
    ensures
        opt_str(r) == call_detail(fn_name@, members_view(members)),
{
    let ms = match members {
        Some(v) => v,
        None => return None,
    };
    if crate::text::str_eq(fn_name, "run_query") {
        match &ms[0] {
            Some(q) => Some(crate::agent::first_chars(q.as_str(), 80)),
            None => None,
        }
    } else if crate::text::str_eq(fn_name, "describe_table") {
        let mut d = opt_text(&ms[1]);
        crate::text::push_char(&mut d, '.');
        let n = opt_text(&ms[2]);
        d.append(n.as_str());
        Some(d)
    } else if crate::text::str_eq(fn_name, "list_objects") {
        crate::repo::copy_opt(&ms[1])
    } else {
        None
    }
}

/// What the progress display shows of a tool call with these JSON
/// arguments.
pub fn tool_call_detail(fn_name: &str, fn_args: &str) -> (r: Option<String>)
    ensures
        opt_str(r) == call_detail(fn_name@, json_string_members(fn_args@, detail_names())),
{
    let names = vec![String::from_str("sql"), String::from_str("schema"), String::from_str("name")];
    assert(crate::text::views(names@) =~= detail_names());
    let members = string_members(fn_args, &names);
    detail_of(fn_name, members)
}

} // verus!
