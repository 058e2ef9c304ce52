//! The command line of `agentoven`: what each command takes, and the parts
//! of each command that decide or compute.

pub mod agent;
pub mod dashboard;
pub mod init;
pub mod kitchen;
pub mod prompt;
pub mod provider;
pub mod rag;
pub mod recipe;
pub mod session;
pub mod tool;
pub mod trace;

use crate::json::{key_mark, Json, JsonValue};
use crate::text::text_eq;
use crate::wire::Wire;
use vstd::prelude::*;

verus! {

/// What `agentoven` says of itself.
pub const BANNER: &'static str = "\n   \u{1f3fa} AgentOven\n   Bake production-ready AI agents.\n";

/// How a command shows what it found.
#[derive(Debug, Clone, Copy, PartialEq, Eq, Structural)]
pub enum OutputFormat {
    /// As text for readers.
    Text,
    /// As JSON.
    Json,
    /// As a table.
    Table,
}

impl View for OutputFormat {
    type V = OutputFormat;

    open spec fn view(&self) -> OutputFormat {
        *self
    }
}

impl OutputFormat {
    /// The name on the command line.
    pub open spec fn name(self) -> Seq<char> {
        match self {
            OutputFormat::Text => "text"@,
            OutputFormat::Json => "json"@,
            OutputFormat::Table => "table"@,
        }
    }

    /// What a name stands for.
    pub open spec fn named(name: Seq<char>) -> Option<OutputFormat> {
        if name == "text"@ {
            Some(OutputFormat::Text)
        } else if name == "json"@ {
            Some(OutputFormat::Json)
        } else if name == "table"@ {
            Some(OutputFormat::Table)
        } else {
            None
        }
    }

    /// The name on the command line.
    pub fn as_str(&self) -> (r: &'static str)
        ensures
            r@ == self.name(),
    {
        match self {
            OutputFormat::Text => "text",
            OutputFormat::Json => "json",
            OutputFormat::Table => "table",
        }
    }

    /// What a name stands for.
    pub fn from_name(name: &str) -> (r: Option<OutputFormat>)
        ensures
            r == OutputFormat::named(name@),
    {
        if text_eq(name, "text") {
            Some(OutputFormat::Text)
        } else if text_eq(name, "json") {
            Some(OutputFormat::Json)
        } else if text_eq(name, "table") {
            Some(OutputFormat::Table)
        } else {
            None
        }
    }

    /// Each value is the one that its own name stands for.
    pub proof fn lemma_name_round_trip(v: OutputFormat)
        ensures
            OutputFormat::named(v.name()) == Some(v),
    {
        reveal_strlit("text");
        reveal_strlit("json");
        reveal_strlit("table");
        assert(key_mark("text"@) == (4nat, 't', 'e'));
        assert(key_mark("json"@) == (4nat, 'j', 's'));
        assert(key_mark("table"@) == (5nat, 't', 'a'));
    }
}

impl Default for OutputFormat {
    fn default() -> (r: OutputFormat)
        ensures
            r == OutputFormat::Text,
    {
        OutputFormat::Text
    }
}

impl Wire for OutputFormat {
    open spec fn encode(v: OutputFormat) -> JsonValue {
        JsonValue::String(v.name())
    }

    open spec fn decode(j: JsonValue) -> Option<OutputFormat> {
        match j {
            JsonValue::String(s) => OutputFormat::named(s),
            _ => None,
        }
    }

    open spec fn survives(v: OutputFormat) -> bool {
        true
    }

    fn to_json(&self) -> (j: Json) {
        Json::string(self.as_str())
    }

    fn from_json(j: &Json) -> (r: Option<OutputFormat>) {
        match j.as_str() {
            Some(s) => OutputFormat::from_name(s),
            None => None,
        }
    }

    proof fn lemma_round_trip(v: OutputFormat) {
        OutputFormat::lemma_name_round_trip(v);
    }
}

/// The commands of `agentoven`.
#[derive(Debug, Clone, PartialEq)]
pub enum Commands {
    /// Sets up a project in a directory.
    Init(init::InitArgs),
    /// Works with agents.
    Agent(Box<agent::AgentCommands>),
    /// Works with providers of models.
    Provider(provider::ProviderCommands),
    /// Works with tools.
    Tool(tool::ToolCommands),
    /// Works with prompt templates.
    Prompt(prompt::PromptCommands),
    /// Works with recipes.
    Recipe(recipe::RecipeCommands),
    /// Works with sessions.
    Session(session::SessionCommands),
    /// Works with kitchens.
    Kitchen(kitchen::KitchenCommands),
    /// Looks at traces, costs and the audit log.
    Trace(trace::TraceCommands),
    /// Works with the retrieval pipeline.
    Rag(rag::RagCommands),
    /// Starts the control plane and opens the dashboard.
    Dashboard(dashboard::DashboardArgs),
    /// Signs in to the control plane.
    Login,
    /// Shows whether the control plane is well.
    Status,
}

/// What the command line holds.
#[derive(Debug, Clone, PartialEq)]
pub struct Cli {
    /// The command.
    pub command: Commands,
    /// The address of the control plane.
    pub url: Option<String>,
    /// The API key.
    pub api_key: Option<String>,
    /// The kitchen to work in.
    pub kitchen: Option<String>,
    /// How to show what was found.
    pub output: OutputFormat,
}

/// What the status shows of the control plane once its agents were asked
/// for: that it is connected, where the count of its agents is at hand.
pub fn status_line(agents: Option<usize>) -> (r: &'static str)
    ensures
        r@ == match agents {
            Some(_) => "\r  Control plane: \u{1f7e2} connected    "@,
            None => "\r  Control plane: \u{1f534} unreachable   "@,
        },
{
    match agents {
        Some(_) => "\r  Control plane: \u{1f7e2} connected    ",
        None => "\r  Control plane: \u{1f534} unreachable   ",
    }
}

} // verus!
