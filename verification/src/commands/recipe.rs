//! `agentoven recipe`: what the command takes, and what it makes of it.

use crate::json::{
    member, parsed, read_json_text, text_refusal, tree_view, Json, JsonValue,
};
use crate::oven::opt_str;
use crate::text::{ends_with, opt_text};
use crate::tomlfile::{parse_toml, toml_parsed, toml_refusal};
use crate::wire::Wire;
use vstd::prelude::*;

verus! {

/// What can be done with recipes.
#[derive(Debug, Clone, PartialEq)]
pub enum RecipeCommands {
    /// Creates a recipe.
    Create(CreateArgs),
    /// Lists the recipes.
    List,
    /// Shows one recipe.
    Get(GetArgs),
    /// Deletes a recipe.
    Delete(DeleteArgs),
    /// Runs a recipe.
    Bake(RecipeBakeArgs),
    /// Lists the runs of a recipe.
    Runs(RunsArgs),
    /// Opens or closes a gate in a run.
    Approve(ApproveArgs),
}

/// What `recipe create` takes.
#[derive(Debug, Clone, PartialEq)]
pub struct CreateArgs {
    /// The name of the recipe.
    pub name: String,
    /// The path of a file that describes the recipe, as TOML or as JSON.
    pub from: Option<String>,
}

/// The model of [`CreateArgs`].
pub struct CreateArgsView {
    pub name: Seq<char>,
    pub from: Option<Seq<char>>,
}

impl View for CreateArgs {
    type V = CreateArgsView;

    open spec fn view(&self) -> CreateArgsView {
        CreateArgsView {
            name: self.name@,
            from: opt_text(self.from),
        }
    }
}

/// What `recipe get` takes.
#[derive(Debug, Clone, PartialEq)]
pub struct GetArgs {
    /// The name of the recipe.
    pub name: String,
}

/// The model of [`GetArgs`].
pub struct GetArgsView {
    pub name: Seq<char>,
}

impl View for GetArgs {
    type V = GetArgsView;

    open spec fn view(&self) -> GetArgsView {
        GetArgsView {
            name: self.name@,
        }
    }
}

/// What `recipe delete` takes.
#[derive(Debug, Clone, PartialEq)]
pub struct DeleteArgs {
    /// The name of the recipe.
    pub name: String,
    /// Whether to go ahead without asking.
    pub force: bool,
}

/// The model of [`DeleteArgs`].
pub struct DeleteArgsView {
    pub name: Seq<char>,
    pub force: bool,
}

impl View for DeleteArgs {
    type V = DeleteArgsView;

    open spec fn view(&self) -> DeleteArgsView {
        DeleteArgsView {
            name: self.name@,
            force: self.force,
        }
    }
}

/// What `recipe bake` takes.
#[derive(Debug, Clone, PartialEq)]
pub struct RecipeBakeArgs {
    /// The name of the recipe.
    pub name: String,
    /// The input, as JSON text.
    pub input: Option<String>,
    /// The path of a file with the input.
    pub input_file: Option<String>,
}

/// The model of [`RecipeBakeArgs`].
pub struct RecipeBakeArgsView {
    pub name: Seq<char>,
    pub input: Option<Seq<char>>,
    pub input_file: Option<Seq<char>>,
}

impl View for RecipeBakeArgs {
    type V = RecipeBakeArgsView;

    open spec fn view(&self) -> RecipeBakeArgsView {
        RecipeBakeArgsView {
            name: self.name@,
            input: opt_text(self.input),
            input_file: opt_text(self.input_file),
        }
    }
}

/// What `recipe runs` takes.
#[derive(Debug, Clone, PartialEq)]
pub struct RunsArgs {
    /// The name of the recipe.
    pub name: String,
    /// How many runs to show at most.
    pub limit: u32,
}

/// The model of [`RunsArgs`].
pub struct RunsArgsView {
    pub name: Seq<char>,
    pub limit: u32,
}

impl View for RunsArgs {
    type V = RunsArgsView;

    open spec fn view(&self) -> RunsArgsView {
        RunsArgsView {
            name: self.name@,
            limit: self.limit,
        }
    }
}

/// What `recipe approve` takes.
#[derive(Debug, Clone, PartialEq)]
pub struct ApproveArgs {
    /// The name of the recipe.
    pub name: String,
    /// The identifier of the run.
    pub run_id: String,
    /// The name of a human gate of the run.
    pub gate_id: String,
    /// Whether to open it; it is closed otherwise.
    pub approved: bool,
    /// A comment on the verdict.
    pub comment: Option<String>,
}

/// The model of [`ApproveArgs`].
pub struct ApproveArgsView {
    pub name: Seq<char>,
    pub run_id: Seq<char>,
    pub gate_id: Seq<char>,
    pub approved: bool,
    pub comment: Option<Seq<char>>,
}

impl View for ApproveArgs {
    type V = ApproveArgsView;

    open spec fn view(&self) -> ApproveArgsView {
        ApproveArgsView {
            name: self.name@,
            run_id: self.run_id@,
            gate_id: self.gate_id@,
            approved: self.approved,
            comment: opt_text(self.comment),
        }
    }
}

/// Whether the file that describes a recipe is read: as TOML where its path
/// ends in `.toml`, else as JSON. What is wrong with it, where it is not.
pub open spec fn source_flaw(path: Seq<char>, content: Seq<char>) -> Option<Seq<char>> {
    if ".toml"@.is_suffix_of(path) {
        match toml_parsed(content) {
            Some(_) => None,
            None => Some(toml_refusal(content)),
        }
    } else {
        match parsed(content) {
            Some(_) => None,
            None => Some(text_refusal(content)),
        }
    }
}

/// Checks that the file that describes a recipe can be read.
pub fn check_source(path: &str, content: &str) -> (r: Result<(), String>)
    ensures
        match r {
            Ok(_) => source_flaw(path@, content@) is None,
            Err(e) => source_flaw(path@, content@) == Some(e@),
        },
{
    if ends_with(path, ".toml") {
        match parse_toml(content) {
            Ok(_) => Ok(()),
            Err(e) => Err(e),
        }
    } else {
        match Json::parse(content) {
            Ok(_) => Ok(()),
            Err(e) => Err(e),
        }
    }
}

impl RecipeBakeArgsView {
    /// The input of the run: the JSON text on the command line, or else what
    /// the input file holds, or else an empty object.
    pub open spec fn input(self, file: Option<Seq<char>>) -> Result<JsonValue, Seq<char>> {
        match self.input {
            Some(raw) => read_json_text(raw),
            None => match (self.input_file, file) {
                (Some(_), Some(content)) => read_json_text(content),
                _ => Ok(JsonValue::Object(Seq::empty())),
            },
        }
    }
}

impl RecipeBakeArgs {
    /// The input of the run. The caller hands in what the input file holds,
    /// where one is named. The error says why a text is no JSON.
    pub fn input(&self, file: Option<&str>) -> (r: Result<Json, String>)
        ensures
            tree_view(r) == self@.input(
                match file {
                    Some(t) => Some(t@),
                    None => None,
                },
            ),
    {
        match &self.input {
            Some(raw) => Json::parse(raw.as_str()),
            None => match (&self.input_file, file) {
                (Some(_), Some(content)) => Json::parse(content),
                _ => Ok(Json::empty_object()),
            },
        }
    }
}

/// The verdict on a gate, in a word.
pub fn verdict(approved: bool) -> (r: &'static str)
    ensures
        r@ == if approved {
            "approved"@
        } else {
            "rejected"@
        },
{
    if approved {
        "approved"
    } else {
        "rejected"
    }
}

/// What is being done to a gate, in a word.
pub fn verdict_action(approved: bool) -> (r: &'static str)
    ensures
        r@ == if approved {
            "Approving"@
        } else {
            "Rejecting"@
        },
{
    if approved {
        "Approving"
    } else {
        "Rejecting"
    }
}

/// How the reply to a bake names the run that it started: by the string
/// under `run_id`, or where there is no such member under `task_id`; `?`
/// where the member is no string, and nothing where there is neither.
pub open spec fn run_label(reply: JsonValue) -> Option<Seq<char>> {
    let found = match member(reply, "run_id"@) {
        Some(value) => Some(value),
        None => member(reply, "task_id"@),
    };
    match found {
        Some(JsonValue::String(s)) => Some(s),
        Some(_) => Some("?"@),
        None => None,
    }
}

/// How the reply to a bake names the run that it started.
pub fn run_id(reply: &Json) -> (r: Option<&str>)
    ensures
        opt_str(r) == run_label(reply@),
{
    let found = match reply.get("run_id") {
        Some(value) => Some(value),
        None => reply.get("task_id"),
    };
    match found {
        Some(value) => match value.as_str() {
            Some(s) => Some(s),
            None => Some("?"),
        },
        None => None,
    }
}

} // verus!
