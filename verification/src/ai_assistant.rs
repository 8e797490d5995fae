//! The SQL assistant panel's single requests: the prompts it sends for
//! generating, explaining, optimising and fixing SQL. The answer is
//! cleaned with `agent::strip_markdown_fence` before it replaces the
//! editor's text.

use vstd::prelude::*;

verus! {

/// The system prompt of the requests whose answer replaces the editor's
/// text: plain SQL, no fences, no explanations.
pub fn system_prompt() -> (s: &'static str)
    ensures
        s@ == "你是嵌入在 roc_desk SQL 桌面模块里的 SQL 助手。只输出可以直接替换编辑器内容的完整 SQL 语句本身，禁止使用 Markdown 代码块围栏，禁止输出任何解释性文字、前后缀说明——你的整个回复都会被原样写回 SQL 编辑器。"@,
{
    "你是嵌入在 roc_desk SQL 桌面模块里的 SQL 助手。只输出可以直接替换编辑器内容的完整 SQL 语句本身，禁止使用 Markdown 代码块围栏，禁止输出任何解释性文字、前后缀说明——你的整个回复都会被原样写回 SQL 编辑器。"
}

/// The request to write SQL for an instruction, given the editor's text and
/// the schema.
pub open spec fn generate_prompt_text(instruction: Seq<char>, schema_context: Seq<char>, current_sql: Seq<char>) -> Seq<char> {
    "当前 SQL 编辑器内容（可能为空）：\n```sql\n"@ + current_sql + "\n```\n\n可用表结构（DDL，仅供参考，不代表要全部用到）：\n"@
        + schema_context + "\n\n用户需求："@ + instruction
}

pub fn generate_prompt(instruction: &str, schema_context: &str, current_sql: &str) -> (s: String)
    ensures
        s@ == generate_prompt_text(instruction@, schema_context@, current_sql@),
{
    let mut s = String::from_str("当前 SQL 编辑器内容（可能为空）：\n```sql\n");
    s.append(current_sql);
    s.append("\n```\n\n可用表结构（DDL，仅供参考，不代表要全部用到）：\n");
    s.append(schema_context);
    s.append("\n\n用户需求：");
    s.append(instruction);
    s
}

/// The system prompt of an explanation (its answer is shown, not used as
/// SQL).
pub fn explain_system_prompt() -> (s: &'static str)
    ensures
        s@ == "你是嵌入在 roc_desk SQL 桌面模块里的 SQL 助手，现在的任务是解释一条 SQL 语句：说明它的语义、可能用到的索引、潜在的性能或数据风险，用简体中文分点作答。"@,
{
    "你是嵌入在 roc_desk SQL 桌面模块里的 SQL 助手，现在的任务是解释一条 SQL 语句：说明它的语义、可能用到的索引、潜在的性能或数据风险，用简体中文分点作答。"
}

pub open spec fn explain_prompt_text(sql: Seq<char>, schema_context: Seq<char>) -> Seq<char> {
    "表结构（DDL，供参考）：\n"@ + schema_context + "\n\nSQL：\n```sql\n"@ + sql + "\n```"@
}

pub fn explain_prompt(sql: &str, schema_context: &str) -> (s: String)
    ensures
        s@ == explain_prompt_text(sql@, schema_context@),
{
    let mut s = String::from_str("表结构（DDL，供参考）：\n");
    s.append(schema_context);
    s.append("\n\nSQL：\n```sql\n");
    s.append(sql);
    s.append("\n```");
    s
}

/// The request for an optimised equivalent, with the execution plan when
/// one is given.
pub open spec fn optimize_prompt_text(sql: Seq<char>, plan: Option<Seq<char>>, schema_context: Seq<char>) -> Seq<char> {
    "表结构（DDL，供参考）：\n"@ + schema_context + "\n\n需要优化的 SQL：\n```sql\n"@ + sql + "\n```"@ + (match plan {
        Some(p) => "\n\n执行计划：\n"@ + p,
        None => Seq::empty(),
    }) + "\n\n请给出优化后的等价 SQL。"@
}

pub fn optimize_prompt(sql: &str, explain_output: Option<&str>, schema_context: &str) -> (s: String)
    ensures
        s@ == optimize_prompt_text(sql@, crate::data_editor::opt_view(explain_output), schema_context@),
{
    let mut s = String::from_str("表结构（DDL，供参考）：\n");
    s.append(schema_context);
    s.append("\n\n需要优化的 SQL：\n```sql\n");
    s.append(sql);
    s.append("\n```");
    match explain_output {
        Some(plan) => {
            s.append("\n\n执行计划：\n");
            s.append(plan);
        },
        None => {},
    }
    s.append("\n\n请给出优化后的等价 SQL。");
    s
}

/// The request to repair a statement the database rejected.
pub open spec fn fix_prompt_text(sql: Seq<char>, error: Seq<char>, schema_context: Seq<char>) -> Seq<char> {
    "表结构（DDL，供参考）：\n"@ + schema_context + "\n\n执行失败的 SQL：\n```sql\n"@ + sql
        + "\n```\n\n数据库返回的错误：\n"@ + error + "\n\n请给出修复后的 SQL。"@
}

pub fn fix_error_prompt(sql: &str, error_message: &str, schema_context: &str) -> (s: String)
    ensures
        s@ == fix_prompt_text(sql@, error_message@, schema_context@),
{
    let mut s = String::from_str("表结构（DDL，供参考）：\n");
    s.append(schema_context);
    s.append("\n\n执行失败的 SQL：\n```sql\n");
    s.append(sql);
    s.append("\n```\n\n数据库返回的错误：\n");
    s.append(error_message);
    s.append("\n\n请给出修复后的 SQL。");
    s
}

} // verus!
