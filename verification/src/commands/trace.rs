//! `agentoven trace`: what the command takes, and what it makes of it.

use crate::json::{items_at, items_view, Json, JsonValue};
use crate::text::{clip, clipped, opt_text};
use crate::wire::Wire;
use vstd::prelude::*;

verus! {

/// What can be looked at of traces, costs and the audit log.
#[derive(Debug, Clone, PartialEq)]
pub enum TraceCommands {
    /// Lists the latest traces.
    Ls(TraceLsArgs),
    /// Shows one trace.
    Get(TraceGetArgs),
    /// Shows the summary of costs.
    Cost(CostArgs),
    /// Shows the audit log.
    Audit(AuditArgs),
}

/// What `trace ls` takes.
#[derive(Debug, Clone, PartialEq)]
pub struct TraceLsArgs {
    /// Only traces of this agent.
    pub agent: Option<String>,
    /// How many traces to show at most.
    pub limit: u32,
}

/// The model of [`TraceLsArgs`].
pub struct TraceLsArgsView {
    pub agent: Option<Seq<char>>,
    pub limit: u32,
}

impl View for TraceLsArgs {
    type V = TraceLsArgsView;

    open spec fn view(&self) -> TraceLsArgsView {
        TraceLsArgsView {
            agent: opt_text(self.agent),
            limit: self.limit,
        }
    }
}

/// What `trace get` takes.
#[derive(Debug, Clone, PartialEq)]
pub struct TraceGetArgs {
    /// The identifier of the trace.
    pub trace_id: String,
}

/// The model of [`TraceGetArgs`].
pub struct TraceGetArgsView {
    pub trace_id: Seq<char>,
}

impl View for TraceGetArgs {
    type V = TraceGetArgsView;

    open spec fn view(&self) -> TraceGetArgsView {
        TraceGetArgsView {
            trace_id: self.trace_id@,
        }
    }
}

/// What `trace cost` takes.
#[derive(Debug, Clone, PartialEq)]
pub struct CostArgs {
    /// The span of time, such as `7d`.
    pub range: String,
    /// What to sum up by, such as `agent`.
    pub group_by: String,
}

/// The model of [`CostArgs`].
pub struct CostArgsView {
    pub range: Seq<char>,
    pub group_by: Seq<char>,
}

impl View for CostArgs {
    type V = CostArgsView;

    open spec fn view(&self) -> CostArgsView {
        CostArgsView {
            range: self.range@,
            group_by: self.group_by@,
        }
    }
}

/// What `trace audit` takes.
#[derive(Debug, Clone, PartialEq)]
pub struct AuditArgs {
    /// How many events to show at most.
    pub limit: u32,
}

/// The model of [`AuditArgs`].
pub struct AuditArgsView {
    pub limit: u32,
}

impl View for AuditArgs {
    type V = AuditArgsView;

    open spec fn view(&self) -> AuditArgsView {
        AuditArgsView {
            limit: self.limit,
        }
    }
}

/// The start of an identifier as a table shows it: its first 34
/// characters.
pub fn short_id(id: &str) -> (r: &str)
    ensures
        r@ == clipped(id@, 34),
{
    clip(id, 34)
}

/// The start of a time as a table shows it: its first 16 characters, which
/// are the date, the hour and the minute.
pub fn short_time(time: &str) -> (r: &str)
    ensures
        r@ == clipped(time@, 16),
{
    clip(time, 16)
}

/// The entries of a cost summary: the array under `items`, or else the
/// summary itself where it is an array.
pub open spec fn cost_entries(data: JsonValue) -> Option<Seq<JsonValue>> {
    match items_at(data, "items"@) {
        Some(items) => Some(items),
        None => match data {
            JsonValue::Array(items) => Some(items),
            _ => None,
        },
    }
}

/// The entries of a cost summary.
pub fn cost_items(data: &Json) -> (r: Option<&Vec<Json>>)
    ensures
        match r {
            Some(items) => cost_entries(data@) == Some(items_view(items@)),
            None => cost_entries(data@) is None,
        },
{
    match data.array_at("items") {
        Some(items) => Some(items),
        None => data.as_array(),
    }
}

} // verus!
