//! SQL workbench: data sources, statements and their results. The library
//! holds what the workbench decides and computes; connecting to databases,
//! files and the user interface are its callers' part.

pub mod adapter;
pub mod adapters;
pub mod agent;
pub mod agent_turn;
pub mod ai_assistant;
pub mod data_editor;
pub mod error;
pub mod executor;
pub mod id_map;
pub mod model;
pub mod policy;
pub mod registry;
pub mod repo;
pub mod results;
pub mod service;
pub mod text;
pub mod transfer;
pub mod workspace_cache;

use vstd::prelude::*;

verus! {

pub const TOOL_NAME: &'static str = "roc_desk-sql";

pub const TOOL_DESCRIPTION: &'static str = "SQL 工作台：数据源、查询与结果";

/// The tool's name and one-line description.
pub fn tool_info() -> (r: (&'static str, &'static str))
    ensures
        r.0@ == "roc_desk-sql"@,
        r.1@ == "SQL 工作台：数据源、查询与结果"@,
{
    ("roc_desk-sql", "SQL 工作台：数据源、查询与结果")
}

} // verus!
