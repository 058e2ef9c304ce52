//! `agentoven agent`: what the command takes, and what it makes of it.

use crate::agent::{
    Agent, AgentBuilder, AgentBuilderView, AgentFramework, AgentMode, AgentView, Guardrail,
    GuardrailView,
};
use crate::ingredient::{Ingredient, IngredientBuilderView, IngredientKind, IngredientView};
use crate::json::{
    i64_at, items_at, items_view, key_mark, lemma_object_view, member, members_view, put_opt_text,
    read_json_text, text_at, text_or, tree_view, with_opt_text, Json, JsonValue, Members,
};
use crate::message::{join_lines, joined_lines, text_of_parts};
use crate::client::outcome_view;
use crate::error::{A2AError, A2AErrorView};
use crate::model::{opt_view, seq_view};
use crate::oven::opt_str;
use crate::task::{Task, TaskView};
use crate::text::{
    opt_text, shorten, shortened, split_first, split_once_char, text_eq, trim, trimmed,
};
use crate::wire::{put_opt_value, with_opt_value, Wire};
use vstd::prelude::*;

verus! {

/// What can be done with agents.
#[derive(Debug, Clone, PartialEq)]
pub enum AgentCommands {
    /// Registers an agent.
    Register(RegisterArgs),
    /// Lists the agents of the kitchen.
    List(ListArgs),
    /// Shows one agent.
    Get(GetArgs),
    /// Changes an agent.
    Update(UpdateArgs),
    /// Deletes an agent.
    Delete(DeleteArgs),
    /// Deploys an agent.
    Bake(BakeArgs),
    /// Deploys an agent again with edits.
    Recook(RecookArgs),
    /// Pauses an agent.
    Cool(CoolArgs),
    /// Brings a paused agent back.
    Rewarm(RewarmArgs),
    /// Takes an agent out of service for good.
    Retire(RetireArgs),
    /// Tests an agent, with one message or in a dialogue.
    Test(TestArgs),
    /// Runs an agent's loop on one message.
    Invoke(InvokeArgs),
    /// Shows the settings that were worked out for a deployed agent.
    Config(ConfigArgs),
    /// Shows the A2A card of an agent.
    Card(CardArgs),
    /// Lists the versions of an agent.
    Versions(VersionsArgs),
}

/// What `agent register` takes: a configuration file, or flags.
#[derive(Debug, Clone, PartialEq)]
pub struct RegisterArgs {
    /// The name of the agent; not needed with a configuration file.
    pub name: Option<String>,
    /// The path of the configuration file.
    pub config: Option<String>,
    /// What the agent does.
    pub description: Option<String>,
    /// The framework, by name.
    pub framework: Option<String>,
    /// Who runs the agent: `managed` or `external`.
    pub mode: String,
    /// The provider of the model.
    pub model_provider: Option<String>,
    /// The model.
    pub model_name: Option<String>,
    /// The provider to fall back on.
    pub backup_provider: Option<String>,
    /// The model to fall back on.
    pub backup_model: Option<String>,
    /// The instructions.
    pub system_prompt: Option<String>,
    /// How many turns the loop may take.
    pub max_turns: Option<u32>,
    /// The skills.
    pub skill: Vec<String>,
    /// The tags.
    pub tag: Vec<String>,
    /// Where an external agent is reached.
    pub a2a_endpoint: Option<String>,
    /// The guardrails, each as `kind:stage`.
    pub guardrail: Vec<String>,
}

/// The model of [`RegisterArgs`].
pub struct RegisterArgsView {
    pub name: Option<Seq<char>>,
    pub config: Option<Seq<char>>,
    pub description: Option<Seq<char>>,
    pub framework: Option<Seq<char>>,
    pub mode: Seq<char>,
    pub model_provider: Option<Seq<char>>,
    pub model_name: Option<Seq<char>>,
    pub backup_provider: Option<Seq<char>>,
    pub backup_model: Option<Seq<char>>,
    pub system_prompt: Option<Seq<char>>,
    pub max_turns: Option<u32>,
    pub skill: Seq<Seq<char>>,
    pub tag: Seq<Seq<char>>,
    pub a2a_endpoint: Option<Seq<char>>,
    pub guardrail: Seq<Seq<char>>,
}

impl View for RegisterArgs {
    type V = RegisterArgsView;

    open spec fn view(&self) -> RegisterArgsView {
        RegisterArgsView {
            name: opt_text(self.name),
            config: opt_text(self.config),
            description: opt_text(self.description),
            framework: opt_text(self.framework),
            mode: self.mode@,
            model_provider: opt_text(self.model_provider),
            model_name: opt_text(self.model_name),
            backup_provider: opt_text(self.backup_provider),
            backup_model: opt_text(self.backup_model),
            system_prompt: opt_text(self.system_prompt),
            max_turns: self.max_turns,
            skill: seq_view(self.skill@),
            tag: seq_view(self.tag@),
            a2a_endpoint: opt_text(self.a2a_endpoint),
            guardrail: seq_view(self.guardrail@),
        }
    }
}

/// What `agent list` takes.
#[derive(Debug, Clone, PartialEq)]
pub struct ListArgs {
    /// Only agents with this tag.
    pub tag: Option<String>,
    /// Only agents in this status.
    pub status: Option<String>,
}

/// The model of [`ListArgs`].
pub struct ListArgsView {
    pub tag: Option<Seq<char>>,
    pub status: Option<Seq<char>>,
}

impl View for ListArgs {
    type V = ListArgsView;

    open spec fn view(&self) -> ListArgsView {
        ListArgsView {
            tag: opt_text(self.tag),
            status: opt_text(self.status),
        }
    }
}

/// What `agent get` takes.
#[derive(Debug, Clone, PartialEq)]
pub struct GetArgs {
    /// The name of the agent, with a version behind an `@` where one is meant.
    pub name: String,
}

/// The model of [`GetArgs`].
pub struct GetArgsView {
    pub name: Seq<char>,
}

impl View for GetArgs {
    type V = GetArgsView;

    open spec fn view(&self) -> GetArgsView {
        GetArgsView {
            name: self.name@,
        }
    }
}

/// What `agent update` takes.
#[derive(Debug, Clone, PartialEq)]
pub struct UpdateArgs {
    /// The name of the agent.
    pub name: String,
    /// The new description.
    pub description: Option<String>,
    /// The new provider of the model.
    pub model_provider: Option<String>,
    /// The new model.
    pub model_name: Option<String>,
    /// The new instructions.
    pub system_prompt: Option<String>,
    /// The new limit on turns.
    pub max_turns: Option<u32>,
    /// The new provider to fall back on.
    pub backup_provider: Option<String>,
    /// The new model to fall back on.
    pub backup_model: Option<String>,
    /// The whole body as JSON text, which overrides the flags.
    pub json: Option<String>,
}

/// The model of [`UpdateArgs`].
pub struct UpdateArgsView {
    pub name: Seq<char>,
    pub description: Option<Seq<char>>,
    pub model_provider: Option<Seq<char>>,
    pub model_name: Option<Seq<char>>,
    pub system_prompt: Option<Seq<char>>,
    pub max_turns: Option<u32>,
    pub backup_provider: Option<Seq<char>>,
    pub backup_model: Option<Seq<char>>,
    pub json: Option<Seq<char>>,
}

impl View for UpdateArgs {
    type V = UpdateArgsView;

    open spec fn view(&self) -> UpdateArgsView {
        UpdateArgsView {
            name: self.name@,
            description: opt_text(self.description),
            model_provider: opt_text(self.model_provider),
            model_name: opt_text(self.model_name),
            system_prompt: opt_text(self.system_prompt),
            max_turns: self.max_turns,
            backup_provider: opt_text(self.backup_provider),
            backup_model: opt_text(self.backup_model),
            json: opt_text(self.json),
        }
    }
}

/// What `agent delete` takes.
#[derive(Debug, Clone, PartialEq)]
pub struct DeleteArgs {
    /// The name of the agent.
    pub name: String,
    /// Whether to go ahead without asking.
    pub force: bool,
}

/// The model of [`DeleteArgs`].
pub struct DeleteArgsView {
    pub name: Seq<char>,
    pub force: bool,
}

impl View for DeleteArgs {
    type V = DeleteArgsView;

    open spec fn view(&self) -> DeleteArgsView {
        DeleteArgsView {
            name: self.name@,
            force: self.force,
        }
    }
}

/// What `agent bake` takes.
#[derive(Debug, Clone, PartialEq)]
pub struct BakeArgs {
    /// The name of the agent.
    pub name: String,
    /// The environment to deploy to.
    pub environment: String,
    /// The version to deploy; the latest where none is given.
    pub version: Option<String>,
}

/// The model of [`BakeArgs`].
pub struct BakeArgsView {
    pub name: Seq<char>,
    pub environment: Seq<char>,
    pub version: Option<Seq<char>>,
}

impl View for BakeArgs {
    type V = BakeArgsView;

    open spec fn view(&self) -> BakeArgsView {
        BakeArgsView {
            name: self.name@,
            environment: self.environment@,
            version: opt_text(self.version),
        }
    }
}

/// What `agent recook` takes.
#[derive(Debug, Clone, PartialEq)]
pub struct RecookArgs {
    /// The name of the agent.
    pub name: String,
    /// The new provider of the model.
    pub model_provider: Option<String>,
    /// The new model.
    pub model_name: Option<String>,
    /// The new instructions.
    pub system_prompt: Option<String>,
    /// The whole body as JSON text, which overrides the flags.
    pub json: Option<String>,
}

/// The model of [`RecookArgs`].
pub struct RecookArgsView {
    pub name: Seq<char>,
    pub model_provider: Option<Seq<char>>,
    pub model_name: Option<Seq<char>>,
    pub system_prompt: Option<Seq<char>>,
    pub json: Option<Seq<char>>,
}

impl View for RecookArgs {
    type V = RecookArgsView;

    open spec fn view(&self) -> RecookArgsView {
        RecookArgsView {
            name: self.name@,
            model_provider: opt_text(self.model_provider),
            model_name: opt_text(self.model_name),
            system_prompt: opt_text(self.system_prompt),
            json: opt_text(self.json),
        }
    }
}

/// What `agent cool` takes.
#[derive(Debug, Clone, PartialEq)]
pub struct CoolArgs {
    /// The name of the agent.
    pub name: String,
}

/// The model of [`CoolArgs`].
pub struct CoolArgsView {
    pub name: Seq<char>,
}

impl View for CoolArgs {
    type V = CoolArgsView;

    open spec fn view(&self) -> CoolArgsView {
        CoolArgsView {
            name: self.name@,
        }
    }
}

/// What `agent rewarm` takes.
#[derive(Debug, Clone, PartialEq)]
pub struct RewarmArgs {
    /// The name of the agent.
    pub name: String,
}

/// The model of [`RewarmArgs`].
pub struct RewarmArgsView {
    pub name: Seq<char>,
}

impl View for RewarmArgs {
    type V = RewarmArgsView;

    open spec fn view(&self) -> RewarmArgsView {
        RewarmArgsView {
            name: self.name@,
        }
    }
}

/// What `agent retire` takes.
#[derive(Debug, Clone, PartialEq)]
pub struct RetireArgs {
    /// The name of the agent.
    pub name: String,
    /// Whether to go ahead without asking.
    pub force: bool,
}

/// The model of [`RetireArgs`].
pub struct RetireArgsView {
    pub name: Seq<char>,
    pub force: bool,
}

impl View for RetireArgs {
    type V = RetireArgsView;

    open spec fn view(&self) -> RetireArgsView {
        RetireArgsView {
            name: self.name@,
            force: self.force,
        }
    }
}

/// What `agent test` takes.
#[derive(Debug, Clone, PartialEq)]
pub struct TestArgs {
    /// The name of the agent.
    pub name: String,
    /// The message to test with.
    pub message: Option<String>,
    /// Whether the agent is to show its thinking.
    pub thinking: bool,
    /// Whether to open a dialogue.
    pub interactive: bool,
}

/// The model of [`TestArgs`].
pub struct TestArgsView {
    pub name: Seq<char>,
    pub message: Option<Seq<char>>,
    pub thinking: bool,
    pub interactive: bool,
}

impl View for TestArgs {
    type V = TestArgsView;

    open spec fn view(&self) -> TestArgsView {
        TestArgsView {
            name: self.name@,
            message: opt_text(self.message),
            thinking: self.thinking,
            interactive: self.interactive,
        }
    }
}

/// What `agent invoke` takes.
#[derive(Debug, Clone, PartialEq)]
pub struct InvokeArgs {
    /// The name of the agent.
    pub name: String,
    /// The message to send.
    pub message: String,
    /// The variables, as the text of a JSON object.
    pub variables: Option<String>,
    /// Whether the agent is to show its thinking.
    pub thinking: bool,
}

/// The model of [`InvokeArgs`].
pub struct InvokeArgsView {
    pub name: Seq<char>,
    pub message: Seq<char>,
    pub variables: Option<Seq<char>>,
    pub thinking: bool,
}

impl View for InvokeArgs {
    type V = InvokeArgsView;

    open spec fn view(&self) -> InvokeArgsView {
        InvokeArgsView {
            name: self.name@,
            message: self.message@,
            variables: opt_text(self.variables),
            thinking: self.thinking,
        }
    }
}

/// What `agent config` takes.
#[derive(Debug, Clone, PartialEq)]
pub struct ConfigArgs {
    /// The name of the agent.
    pub name: String,
}

/// The model of [`ConfigArgs`].
pub struct ConfigArgsView {
    pub name: Seq<char>,
}

impl View for ConfigArgs {
    type V = ConfigArgsView;

    open spec fn view(&self) -> ConfigArgsView {
        ConfigArgsView {
            name: self.name@,
        }
    }
}

/// What `agent card` takes.
#[derive(Debug, Clone, PartialEq)]
pub struct CardArgs {
    /// The name of the agent.
    pub name: String,
}

/// The model of [`CardArgs`].
pub struct CardArgsView {
    pub name: Seq<char>,
}

impl View for CardArgs {
    type V = CardArgsView;

    open spec fn view(&self) -> CardArgsView {
        CardArgsView {
            name: self.name@,
        }
    }
}

/// What `agent versions` takes.
#[derive(Debug, Clone, PartialEq)]
pub struct VersionsArgs {
    /// The name of the agent.
    pub name: String,
}

/// The model of [`VersionsArgs`].
pub struct VersionsArgsView {
    pub name: Seq<char>,
}

impl View for VersionsArgs {
    type V = VersionsArgsView;

    open spec fn view(&self) -> VersionsArgsView {
        VersionsArgsView {
            name: self.name@,
        }
    }
}

impl UpdateArgsView {
    /// The members of the body that the flags give.
    pub open spec fn flag_members(self) -> Members {
        let m = Seq::empty();
        let m = with_opt_text(m, "description"@, self.description);
        let m = with_opt_text(m, "model_provider"@, self.model_provider);
        let m = with_opt_text(m, "model_name"@, self.model_name);
        let m = with_opt_text(m, "system_prompt"@, self.system_prompt);
        let m = with_opt_value::<u32>(m, "max_turns"@, self.max_turns);
        let m = with_opt_text(m, "backup_provider"@, self.backup_provider);
        let m = with_opt_text(m, "backup_model"@, self.backup_model);
        m
    }

    /// The body of the request: the JSON text where one is given, else what
    /// the flags give.
    pub open spec fn body(self) -> Result<JsonValue, Seq<char>> {
        match self.json {
            Some(raw) => read_json_text(raw),
            None => Ok(JsonValue::Object(self.flag_members())),
        }
    }
}

impl UpdateArgs {
    /// The members of the body that the flags give.
    pub fn flag_members(&self) -> (r: Vec<(String, Json)>)
        ensures
            members_view(r@) == self@.flag_members(),
    {
        let mut members: Vec<(String, Json)> = Vec::new();
        proof {
            assert(members_view(members@) =~= Seq::empty());
        }
        put_opt_text(&mut members, "description", &self.description);
        put_opt_text(&mut members, "model_provider", &self.model_provider);
        put_opt_text(&mut members, "model_name", &self.model_name);
        put_opt_text(&mut members, "system_prompt", &self.system_prompt);
        put_opt_value(&mut members, "max_turns", &self.max_turns);
        put_opt_text(&mut members, "backup_provider", &self.backup_provider);
        put_opt_text(&mut members, "backup_model", &self.backup_model);
        members
    }

    /// The body of the request: the JSON text where one is given, else what
    /// the flags give. The error says why the JSON text is none.
    pub fn body(&self) -> (r: Result<Json, String>)
        ensures
            tree_view(r) == self@.body(),
    {
        match &self.json {
            Some(raw) => Json::parse(raw.as_str()),
            None => {
                let members = self.flag_members();
                proof {
                    lemma_object_view(members);
                }
                Ok(Json::Object(members))
            },
        }
    }
}

impl RecookArgsView {
    /// The members of the body that the flags give.
    pub open spec fn flag_members(self) -> Members {
        let m = Seq::empty();
        let m = with_opt_text(m, "model_provider"@, self.model_provider);
        let m = with_opt_text(m, "model_name"@, self.model_name);
        let m = with_opt_text(m, "system_prompt"@, self.system_prompt);
        m
    }

    /// The body of the request: the JSON text where one is given, else what
    /// the flags give.
    pub open spec fn body(self) -> Result<JsonValue, Seq<char>> {
        match self.json {
            Some(raw) => read_json_text(raw),
            None => Ok(JsonValue::Object(self.flag_members())),
        }
    }
}

impl RecookArgs {
    /// The members of the body that the flags give.
    pub fn flag_members(&self) -> (r: Vec<(String, Json)>)
        ensures
            members_view(r@) == self@.flag_members(),
    {
        let mut members: Vec<(String, Json)> = Vec::new();
        proof {
            assert(members_view(members@) =~= Seq::empty());
        }
        put_opt_text(&mut members, "model_provider", &self.model_provider);
        put_opt_text(&mut members, "model_name", &self.model_name);
        put_opt_text(&mut members, "system_prompt", &self.system_prompt);
        members
    }

    /// The body of the request: the JSON text where one is given, else what
    /// the flags give. The error says why the JSON text is none.
    pub fn body(&self) -> (r: Result<Json, String>)
        ensures
            tree_view(r) == self@.body(),
    {
        match &self.json {
            Some(raw) => Json::parse(raw.as_str()),
            None => {
                let members = self.flag_members();
                proof {
                    lemma_object_view(members);
                }
                Ok(Json::Object(members))
            },
        }
    }
}

/// The name under which a framework is shown.
pub open spec fn framework_label(f: AgentFramework) -> Seq<char> {
    match f {
        AgentFramework::Langchain => "langgraph"@,
        AgentFramework::Crewai => "crewai"@,
        AgentFramework::Openai => "openai-sdk"@,
        AgentFramework::Autogen => "autogen"@,
        AgentFramework::Managed => "managed"@,
        AgentFramework::Custom => "custom"@,
    }
}

/// The framework that a name on the command line stands for; every name
/// that is not known stands for a framework of the agent's own.
pub open spec fn framework_named(name: Seq<char>) -> AgentFramework {
    if name == "langgraph"@ {
        AgentFramework::Langchain
    } else if name == "crewai"@ {
        AgentFramework::Crewai
    } else if name == "openai"@ || name == "openai-sdk"@ {
        AgentFramework::Openai
    } else if name == "autogen"@ {
        AgentFramework::Autogen
    } else if name == "managed"@ {
        AgentFramework::Managed
    } else {
        AgentFramework::Custom
    }
}

/// The name under which a framework is shown.
pub fn framework_display(f: &AgentFramework) -> (r: &'static str)
    ensures
        r@ == framework_label(*f),
{
    match f {
        AgentFramework::Langchain => "langgraph",
        AgentFramework::Crewai => "crewai",
        AgentFramework::Openai => "openai-sdk",
        AgentFramework::Autogen => "autogen",
        AgentFramework::Managed => "managed",
        AgentFramework::Custom => "custom",
    }
}

/// The framework that a name on the command line stands for.
pub fn parse_framework(s: &str) -> (r: AgentFramework)
    ensures
        r == framework_named(s@),
{
    if text_eq(s, "langgraph") {
        AgentFramework::Langchain
    } else if text_eq(s, "crewai") {
        AgentFramework::Crewai
    } else if text_eq(s, "openai") || text_eq(s, "openai-sdk") {
        AgentFramework::Openai
    } else if text_eq(s, "autogen") {
        AgentFramework::Autogen
    } else if text_eq(s, "managed") {
        AgentFramework::Managed
    } else {
        AgentFramework::Custom
    }
}

/// The name under which a framework is shown stands for that framework.
pub proof fn lemma_framework_display_parses(f: AgentFramework)
    ensures
        framework_named(framework_label(f)) == f,
{
    reveal_strlit("langgraph");
    reveal_strlit("crewai");
    reveal_strlit("openai");
    reveal_strlit("openai-sdk");
    reveal_strlit("autogen");
    reveal_strlit("managed");
    reveal_strlit("custom");
    assert(key_mark("langgraph"@) == (9nat, 'l', 'a'));
    assert(key_mark("crewai"@) == (6nat, 'c', 'r'));
    assert(key_mark("openai"@) == (6nat, 'o', 'p'));
    assert(key_mark("openai-sdk"@) == (10nat, 'o', 'p'));
    assert(key_mark("autogen"@) == (7nat, 'a', 'u'));
    assert(key_mark("managed"@) == (7nat, 'm', 'a'));
    assert(key_mark("custom"@) == (6nat, 'c', 'u'));
}

/// Who runs the agent, by the word on the command line: `external` means
/// that the agent runs elsewhere, every other word that the control plane
/// runs it.
pub open spec fn mode_named(name: Seq<char>) -> AgentMode {
    if name == "external"@ {
        AgentMode::External
    } else {
        AgentMode::Managed
    }
}

/// Who runs the agent, by the word on the command line.
pub fn parse_mode(s: &str) -> (r: AgentMode)
    ensures
        r == mode_named(s@),
{
    if text_eq(s, "external") {
        AgentMode::External
    } else {
        AgentMode::Managed
    }
}

/// The guardrail that a flag of the form `kind:stage` names; the stage is
/// `pre` where the flag names none.
pub open spec fn guardrail_of_flag(flag: Seq<char>) -> GuardrailView {
    GuardrailView {
        kind: split_first(flag, ':').0,
        stage: match split_first(flag, ':').1 {
            Some(stage) => stage,
            None => "pre"@,
        },
        config: None,
    }
}

/// The guardrails that some flags name.
pub open spec fn guardrails_of_flags(flags: Seq<Seq<char>>) -> Seq<GuardrailView> {
    Seq::new(flags.len(), |i: int| guardrail_of_flag(flags[i]))
}

/// The guardrail that a flag of the form `kind:stage` names.
pub fn guardrail_from_flag(flag: &str) -> (r: Guardrail)
    ensures
        r@ == guardrail_of_flag(flag@),
{
    let cut = split_once_char(flag, ':');
    let stage = match cut.1 {
        Some(stage) => stage.to_owned(),
        None => "pre".to_owned(),
    };
    Guardrail { kind: cut.0.to_owned(), stage, config: None }
}

/// The text of an optional text, or the empty text.
pub open spec fn or_empty(o: Option<Seq<char>>) -> Seq<char> {
    match o {
        Some(s) => s,
        None => Seq::empty(),
    }
}

/// The text of an optional text, or a given one.
pub open spec fn or_text(o: Option<Seq<char>>, default: Seq<char>) -> Seq<char> {
    match o {
        Some(s) => s,
        None => default,
    }
}

/// The text of an optional string, or a given one.
pub fn text_or_default<'a>(o: &'a Option<String>, default: &'a str) -> (r: &'a str)
    ensures
        r@ == or_text(opt_text(*o), default@),
{
    match o {
        Some(s) => s.as_str(),
        None => default,
    }
}

impl RegisterArgsView {
    /// Whether the agent is read from a configuration file: a file is
    /// named, or neither a name nor a provider of a model is given.
    pub open spec fn uses_config(self) -> bool {
        self.config is Some || (self.name is None && self.model_provider is None)
    }

    /// The path of the configuration file: the one that is named, or else
    /// `agentoven.toml`.
    pub open spec fn config_path(self) -> Seq<char> {
        or_text(self.config, "agentoven.toml"@)
    }

    /// The agent that the flags describe, before its lists are filled.
    pub open spec fn direct_base(self, name: Seq<char>) -> AgentBuilderView {
        AgentBuilderView {
            description: or_empty(self.description),
            framework: framework_named(or_text(self.framework, "managed"@)),
            mode: mode_named(self.mode),
            model_provider: or_empty(self.model_provider),
            model_name: or_empty(self.model_name),
            backup_provider: self.backup_provider,
            backup_model: self.backup_model,
            system_prompt: self.system_prompt,
            max_turns: self.max_turns,
            a2a_endpoint: self.a2a_endpoint,
            ..AgentBuilderView::start(name)
        }
    }

    /// The agent that the flags describe; without a name there is none.
    pub open spec fn direct(self) -> Result<AgentBuilderView, Seq<char>> {
        match self.name {
            None => Err("Agent name required"@),
            Some(name) => Ok(
                AgentBuilderView {
                    skills: self.skill,
                    tags: self.tag,
                    guardrails: guardrails_of_flags(self.guardrail),
                    ..self.direct_base(name)
                },
            ),
        }
    }
}

/// The model of an agent in the making that may have failed to be made.
pub open spec fn builder_view(r: Result<AgentBuilder, String>) -> Result<AgentBuilderView, Seq<char>> {
    match r {
        Ok(b) => Ok(b@),
        Err(e) => Err(e@),
    }
}

impl RegisterArgs {
    /// Whether the agent is read from a configuration file.
    pub fn uses_config(&self) -> (r: bool)
        ensures
            r == self@.uses_config(),
    {
        self.config.is_some() || (self.name.is_none() && self.model_provider.is_none())
    }

    /// The path of the configuration file.
    pub fn config_path(&self) -> (r: &str)
        ensures
            r@ == self@.config_path(),
    {
        text_or_default(&self.config, "agentoven.toml")
    }

    /// The agent that the flags describe.
    pub fn builder(&self) -> (r: Result<AgentBuilder, String>)
        ensures
            builder_view(r) == self@.direct(),
    {
        let name = match &self.name {
            Some(name) => name.as_str(),
            None => {
                return Err("Agent name required".to_owned());
            },
        };
        let framework = parse_framework(text_or_default(&self.framework, "managed"));
        let mut builder = Agent::builder(name).description(
            text_or_default(&self.description, ""),
        ).framework(framework).mode(parse_mode(self.mode.as_str())).model_provider(
            text_or_default(&self.model_provider, ""),
        ).model_name(text_or_default(&self.model_name, ""));
        proof {
            reveal_strlit("");
            assert(""@ =~= Seq::<char>::empty());
        }
        match &self.backup_provider {
            Some(v) => {
                builder = builder.backup_provider(v.as_str());
            },
            None => {},
        }
        match &self.backup_model {
            Some(v) => {
                builder = builder.backup_model(v.as_str());
            },
            None => {},
        }
        match &self.system_prompt {
            Some(v) => {
                builder = builder.system_prompt(v.as_str());
            },
            None => {},
        }
        match self.max_turns {
            Some(v) => {
                builder = builder.max_turns(v);
            },
            None => {},
        }
        match &self.a2a_endpoint {
            Some(v) => {
                builder = builder.a2a_endpoint(v.as_str());
            },
            None => {},
        }
        let ghost base = self@.direct_base(name@);
        assert(builder@ == base);
        assert(self@.skill.take(0) =~= base.skills);
        let mut i: usize = 0;
        while i < self.skill.len()
            invariant
                i <= self.skill.len(),
                builder@ == (AgentBuilderView { skills: self@.skill.take(i as int), ..base }),
            decreases self.skill.len() - i,
        {
            builder = builder.skill(self.skill[i].as_str());
            proof {
                assert(self@.skill.take(i as int).push(self.skill[i as int]@) =~= self@.skill.take(
                    i + 1,
                ));
            }
            i = i + 1;
        }
        assert(self@.skill.take(self.skill.len() as int) =~= self@.skill);
        let ghost base = AgentBuilderView { skills: self@.skill, ..base };
        assert(self@.tag.take(0) =~= base.tags);
        let mut i: usize = 0;
        while i < self.tag.len()
            invariant
                i <= self.tag.len(),
                builder@ == (AgentBuilderView { tags: self@.tag.take(i as int), ..base }),
            decreases self.tag.len() - i,
        {
            builder = builder.tag(self.tag[i].as_str());
            proof {
                assert(self@.tag.take(i as int).push(self.tag[i as int]@) =~= self@.tag.take(
                    i + 1,
                ));
            }
            i = i + 1;
        }
        assert(self@.tag.take(self.tag.len() as int) =~= self@.tag);
        let ghost base = AgentBuilderView { tags: self@.tag, ..base };
        let ghost rails = guardrails_of_flags(self@.guardrail);
        assert(rails.take(0) =~= base.guardrails);
        let mut i: usize = 0;
        while i < self.guardrail.len()
            invariant
                i <= self.guardrail.len(),
                rails == guardrails_of_flags(self@.guardrail),
                builder@ == (AgentBuilderView { guardrails: rails.take(i as int), ..base }),
            decreases self.guardrail.len() - i,
        {
            builder = builder.guardrail(guardrail_from_flag(self.guardrail[i].as_str()));
            proof {
                assert(rails.take(i as int).push(guardrail_of_flag(self.guardrail[i as int]@))
                    =~= rails.take(i + 1));
            }
            i = i + 1;
        }
        assert(rails.take(self.guardrail.len() as int) =~= rails);
        Ok(builder)
    }
}

// ---------------------------------------------------------------------
// Agents from a configuration file
// ---------------------------------------------------------------------

/// The ingredient that an entry of `ingredients.models` describes.
pub open spec fn model_ingredient(entry: JsonValue) -> IngredientView {
    (IngredientBuilderView {
        provider: text_at(entry, "provider"@),
        role: text_at(entry, "role"@),
        ..IngredientBuilderView::start(IngredientKind::Model, text_or(entry, "name"@, "unknown"@))
    }).built()
}

/// The ingredient that an entry of `ingredients.tools` describes: its
/// protocol stands in the place of the provider.
pub open spec fn tool_ingredient(entry: JsonValue) -> IngredientView {
    (IngredientBuilderView {
        provider: text_at(entry, "protocol"@),
        ..IngredientBuilderView::start(IngredientKind::Tool, text_or(entry, "name"@, "unknown"@))
    }).built()
}

/// The ingredients that entries describe.
pub open spec fn ingredients_of(entries: Option<Seq<JsonValue>>, tools: bool) -> Seq<IngredientView> {
    match entries {
        Some(items) => Seq::new(
            items.len(),
            |i: int|
                if tools {
                    tool_ingredient(items[i])
                } else {
                    model_ingredient(items[i])
                },
        ),
        None => Seq::empty(),
    }
}

/// The ingredients that a configuration names: its models, then its tools.
pub open spec fn config_ingredients(config: JsonValue) -> Seq<IngredientView> {
    match member(config, "ingredients"@) {
        Some(table) => ingredients_of(items_at(table, "models"@), false) + ingredients_of(
            items_at(table, "tools"@),
            true,
        ),
        None => Seq::empty(),
    }
}

/// The agent that the `[agent]` table of a configuration describes, before
/// the ingredients are added.
pub open spec fn config_base(agent: JsonValue, name: Seq<char>) -> AgentBuilderView {
    AgentBuilderView {
        version: text_or(agent, "version"@, "0.1.0"@),
        description: text_or(agent, "description"@, ""@),
        framework: framework_named(text_or(agent, "framework"@, "custom"@)),
        mode: mode_named(text_or(agent, "mode"@, "managed"@)),
        model_provider: text_or(agent, "model_provider"@, ""@),
        model_name: text_or(agent, "model_name"@, ""@),
        backup_provider: text_at(agent, "backup_provider"@),
        backup_model: text_at(agent, "backup_model"@),
        system_prompt: text_at(agent, "system_prompt"@),
        max_turns: match i64_at(agent, "max_turns"@) {
            Some(n) => Some(n as u32),
            None => None,
        },
        a2a_endpoint: text_at(agent, "a2a_endpoint"@),
        ..AgentBuilderView::start(name)
    }
}

/// The agent that a configuration describes. The configuration has to have
/// an `[agent]` table with a name in it; whatever else is missing has a
/// default.
pub open spec fn configured(config: JsonValue) -> Result<AgentBuilderView, Seq<char>> {
    match member(config, "agent"@) {
        None => Err("Missing [agent] section in agentoven.toml"@),
        Some(agent) => match text_at(agent, "name"@) {
            None => Err("Missing agent.name in agentoven.toml"@),
            Some(name) => Ok(
                AgentBuilderView {
                    ingredients: config_ingredients(config),
                    ..config_base(agent, name)
                },
            ),
        },
    }
}

/// The ingredient that an entry of `ingredients.models` describes.
pub fn model_from_entry(entry: &Json) -> (r: Ingredient)
    ensures
        r@ == model_ingredient(entry@),
{
    let mut builder = Ingredient::model(entry.str_or("name", "unknown"));
    match entry.str_at("provider") {
        Some(p) => {
            builder = builder.provider(p);
        },
        None => {},
    }
    match entry.str_at("role") {
        Some(r) => {
            builder = builder.role(r);
        },
        None => {},
    }
    builder.build()
}

/// The ingredient that an entry of `ingredients.tools` describes.
pub fn tool_from_entry(entry: &Json) -> (r: Ingredient)
    ensures
        r@ == tool_ingredient(entry@),
{
    let mut builder = Ingredient::tool(entry.str_or("name", "unknown"));
    match entry.str_at("protocol") {
        Some(p) => {
            builder = builder.provider(p);
        },
        None => {},
    }
    builder.build()
}

/// Adds the ingredients that entries describe.
fn add_ingredients(builder: AgentBuilder, entries: Option<&Vec<Json>>, tools: bool) -> (r:
    AgentBuilder)
    ensures
        r@ == (AgentBuilderView {
            ingredients: builder@.ingredients + ingredients_of(
                match entries {
                    Some(items) => Some(items_view(items@)),
                    None => None,
                },
                tools,
            ),
            ..builder@
        }),
{
    let items = match entries {
        Some(items) => items,
        None => {
            assert(builder@.ingredients + Seq::<IngredientView>::empty() =~= builder@.ingredients);
            return builder;
        },
    };
    let ghost start = builder@;
    let ghost all = ingredients_of(Some(items_view(items@)), tools);
    let mut builder = builder;
    let mut i: usize = 0;
    proof {
        assert(start.ingredients + all.take(0) =~= start.ingredients);
    }
    while i < items.len()
        invariant
            i <= items.len(),
            all == ingredients_of(Some(items_view(items@)), tools),
            builder@ == (AgentBuilderView {
                ingredients: start.ingredients + all.take(i as int),
                ..start
            }),
        decreases items.len() - i,
    {
        let ingredient = if tools {
            tool_from_entry(&items[i])
        } else {
            model_from_entry(&items[i])
        };
        proof {
            assert(ingredient@ == all[i as int]);
            assert((start.ingredients + all.take(i as int)).push(all[i as int])
                =~= start.ingredients + all.take(i + 1));
        }
        builder = builder.ingredient(ingredient);
        i = i + 1;
    }
    proof {
        assert(all.take(items.len() as int) =~= all);
    }
    builder
}

/// The agent that a configuration describes.
pub fn agent_from_config(config: &Json) -> (r: Result<AgentBuilder, String>)
    ensures
        builder_view(r) == configured(config@),
{
    let agent = match config.get("agent") {
        Some(agent) => agent,
        None => {
            return Err("Missing [agent] section in agentoven.toml".to_owned());
        },
    };
    let name = match agent.str_at("name") {
        Some(name) => name,
        None => {
            return Err("Missing agent.name in agentoven.toml".to_owned());
        },
    };
    let framework = parse_framework(agent.str_or("framework", "custom"));
    let mode = parse_mode(agent.str_or("mode", "managed"));
    let mut builder = Agent::builder(name).version(agent.str_or("version", "0.1.0")).description(
        agent.str_or("description", ""),
    ).framework(framework).mode(mode).model_provider(
        agent.str_or("model_provider", ""),
    ).model_name(agent.str_or("model_name", ""));
    match agent.str_at("backup_provider") {
        Some(v) => {
            builder = builder.backup_provider(v);
        },
        None => {},
    }
    match agent.str_at("backup_model") {
        Some(v) => {
            builder = builder.backup_model(v);
        },
        None => {},
    }
    match agent.str_at("system_prompt") {
        Some(v) => {
            builder = builder.system_prompt(v);
        },
        None => {},
    }
    match agent.int_at("max_turns") {
        Some(n) => {
            builder = builder.max_turns(n as u32);
        },
        None => {},
    }
    match agent.str_at("a2a_endpoint") {
        Some(v) => {
            builder = builder.a2a_endpoint(v);
        },
        None => {},
    }
    assert(builder@ == config_base(agent@, name@));
    match config.get("ingredients") {
        Some(table) => {
            let with_models = add_ingredients(builder, table.array_at("models"), false);
            let with_tools = add_ingredients(with_models, table.array_at("tools"), true);
            proof {
                let base = config_base(agent@, name@);
                assert(base.ingredients =~= Seq::empty());
                assert(with_tools@.ingredients =~= config_ingredients(config@));
            }
            Ok(with_tools)
        },
        None => Ok(builder),
    }
}

// ---------------------------------------------------------------------
// Smaller pieces
// ---------------------------------------------------------------------

impl GetArgsView {
    /// The name of the agent that is meant: what stands before the first
    /// `@`.
    pub open spec fn agent_name(self) -> Seq<char> {
        split_first(self.name, '@').0
    }

    /// The version that is meant: what stands behind the first `@`.
    pub open spec fn version(self) -> Option<Seq<char>> {
        split_first(self.name, '@').1
    }
}

impl GetArgs {
    /// The name and the version of the agent that is meant.
    pub fn target(&self) -> (r: (&str, Option<&str>))
        ensures
            r.0@ == self@.agent_name(),
            match r.1 {
                Some(v) => self@.version() == Some(v@),
                None => self@.version() is None,
            },
    {
        split_once_char(self.name.as_str(), '@')
    }
}

impl InvokeArgsView {
    /// The variables: the JSON text read, where there is one.
    pub open spec fn parsed_variables(self) -> Result<Option<JsonValue>, Seq<char>> {
        match self.variables {
            None => Ok(None),
            Some(raw) => match read_json_text(raw) {
                Ok(j) => Ok(Some(j)),
                Err(e) => Err(e),
            },
        }
    }
}

impl InvokeArgs {
    /// The variables. The error says why the text is no JSON.
    pub fn parsed_variables(&self) -> (r: Result<Option<Json>, String>)
        ensures
            match r {
                Ok(v) => self@.parsed_variables() == Ok::<Option<JsonValue>, Seq<char>>(
                    opt_view(v),
                ),
                Err(e) => self@.parsed_variables() == Err::<Option<JsonValue>, Seq<char>>(e@),
            },
    {
        match &self.variables {
            None => Ok(None),
            Some(raw) => match Json::parse(raw.as_str()) {
                Ok(j) => Ok(Some(j)),
                Err(e) => Err(e),
            },
        }
    }
}

/// What the list of agents shows of an agent's model: provider and model
/// with a slash between, cut down where that is long; a dash where the
/// agent has no provider.
pub open spec fn provider_column_view(agent: AgentView) -> Seq<char> {
    if agent.model_provider.len() == 0 {
        "-"@
    } else {
        shortened(agent.model_provider + "/"@ + agent.model_name, 15, 14, "\u{2026}"@)
    }
}

/// What the list of agents shows of an agent's model.
pub fn provider_column(agent: &Agent) -> (r: String)
    ensures
        r@ == provider_column_view(agent@),
{
    if agent.model_provider.as_str().unicode_len() == 0 {
        "-".to_owned()
    } else {
        let mut full = agent.model_provider.clone();
        full.append("/");
        full.append(agent.model_name.as_str());
        shorten(full.as_str(), 15, 14, "\u{2026}")
    }
}

/// The address at which the local control plane lets a client talk A2A
/// with an agent.
pub fn playground_url(name: &str) -> (r: String)
    ensures
        r@ == "http://localhost:8080/agents/"@ + name@ + "/a2a"@,
{
    let mut out = "http://localhost:8080/agents/".to_owned();
    out.append(name);
    out.append("/a2a");
    out
}

/// Whether a line of a dialogue asks to leave it.
pub open spec fn leaves_dialogue(line: Seq<char>) -> bool {
    trimmed(line) == "/exit"@ || trimmed(line) == "/quit"@ || trimmed(line) == "/q"@
}

/// Whether a line of a dialogue asks to leave it.
pub fn is_exit_command(line: &str) -> (r: bool)
    ensures
        r == leaves_dialogue(line@),
{
    let t = trim(line);
    text_eq(t, "/exit") || text_eq(t, "/quit") || text_eq(t, "/q")
}

impl TestArgsView {
    /// The message of a test that is one request and no dialogue: the one
    /// that is given, unless a dialogue is asked for.
    pub open spec fn one_shot(self) -> Option<Seq<char>> {
        if self.interactive {
            None
        } else {
            self.message
        }
    }
}

impl TestArgs {
    /// The message of a test that is one request and no dialogue; `None`
    /// where the test is a dialogue.
    pub fn one_shot(&self) -> (r: Option<&str>)
        ensures
            opt_str(r) == self@.one_shot(),
    {
        if self.interactive {
            None
        } else {
            match &self.message {
                Some(message) => Some(message.as_str()),
                None => None,
            }
        }
    }
}

/// What a dialogue does with one line.
#[derive(Debug, Clone, PartialEq)]
pub enum DialogueAction {
    /// The dialogue ends.
    Leave,
    /// The line holds nothing to send.
    Skip,
    /// The text is sent and starts a task.
    Start { text: String },
    /// The text is sent and continues a task.
    Continue { task_id: String, text: String },
}

/// The model of a [`DialogueAction`].
pub enum DialogueActionView {
    Leave,
    Skip,
    Start { text: Seq<char> },
    Continue { task_id: Seq<char>, text: Seq<char> },
}

impl View for DialogueAction {
    type V = DialogueActionView;

    open spec fn view(&self) -> DialogueActionView {
        match self {
            DialogueAction::Leave => DialogueActionView::Leave,
            DialogueAction::Skip => DialogueActionView::Skip,
            DialogueAction::Start { text } => DialogueActionView::Start { text: text@ },
            DialogueAction::Continue { task_id, text } => DialogueActionView::Continue {
                task_id: task_id@,
                text: text@,
            },
        }
    }
}

/// What a dialogue does with one line: it ends where the line asks to
/// leave, and passes over a line of white space. Any other line is sent
/// without the white space around it, to the task of the dialogue where
/// there is one, else to start one.
pub open spec fn next_action(current_task: Option<Seq<char>>, line: Seq<char>) -> DialogueActionView {
    if leaves_dialogue(line) {
        DialogueActionView::Leave
    } else if trimmed(line).len() == 0 {
        DialogueActionView::Skip
    } else {
        match current_task {
            Some(task_id) => DialogueActionView::Continue { task_id, text: trimmed(line) },
            None => DialogueActionView::Start { text: trimmed(line) },
        }
    }
}

/// What a dialogue does with one line.
pub fn dialogue_step(current_task: Option<&str>, line: &str) -> (r: DialogueAction)
    ensures
        r@ == next_action(opt_str(current_task), line@),
{
    if is_exit_command(line) {
        return DialogueAction::Leave;
    }
    let text = trim(line);
    if text.is_empty() {
        return DialogueAction::Skip;
    }
    match current_task {
        Some(task_id) => DialogueAction::Continue {
            task_id: task_id.to_owned(),
            text: text.to_owned(),
        },
        None => DialogueAction::Start { text: text.to_owned() },
    }
}

/// The task of a dialogue after a reply: the task that the reply tells of,
/// or the one before where the exchange failed.
pub open spec fn task_after(
    current_task: Option<Seq<char>>,
    reply: Result<TaskView, A2AErrorView>,
) -> Option<Seq<char>> {
    match reply {
        Ok(task) => Some(task.id),
        Err(_) => current_task,
    }
}

/// The task of a dialogue after a reply.
pub fn dialogue_task(current_task: Option<String>, reply: &Result<Task, A2AError>) -> (r: Option<
    String,
>)
    ensures
        opt_text(r) == task_after(opt_text(current_task), outcome_view(*reply)),
{
    match reply {
        Ok(task) => Some(task.id.clone()),
        Err(_) => current_task,
    }
}

/// The texts of some artifacts.
pub open spec fn artifact_texts(task: TaskView) -> Seq<Seq<char>> {
    Seq::new(task.artifacts.len(), |i: int| text_of_parts(task.artifacts[i].parts))
}

/// What a dialogue shows of a task: the texts of its artifacts, one below
/// the other; or else the text of its last message; or else a note that the
/// task is still at work.
pub open spec fn answer_view(task: TaskView) -> Seq<char> {
    if task.artifacts.len() > 0 {
        joined_lines(artifact_texts(task))
    } else if task.messages.len() > 0 {
        text_of_parts(task.messages.last().parts)
    } else {
        "(no response yet \u{2014} task is processing)"@
    }
}

/// What a dialogue shows of a task.
pub fn answer_text(task: &Task) -> (r: String)
    ensures
        r@ == answer_view(task@),
{
    if task.artifacts.len() > 0 {
        let mut lines: Vec<String> = Vec::new();
        let mut i: usize = 0;
        while i < task.artifacts.len()
            invariant
                i <= task.artifacts.len(),
                lines.len() == i,
                forall|k: int| 0 <= k < i ==> (#[trigger] lines[k])@ == artifact_texts(task@)[k],
            decreases task.artifacts.len() - i,
        {
            lines.push(task.artifacts[i].text_content());
            i = i + 1;
        }
        proof {
            assert(crate::text::texts(lines@) =~= artifact_texts(task@));
        }
        join_lines(&lines)
    } else if task.messages.len() > 0 {
        task.messages[task.messages.len() - 1].text_content()
    } else {
        "(no response yet \u{2014} task is processing)".to_owned()
    }
}

/// The first string that a reply holds under one of three keys.
pub open spec fn reply_view(reply: JsonValue, first: Seq<char>, second: Seq<char>, third: Seq<char>) -> Option<
    Seq<char>,
> {
    match text_at(reply, first) {
        Some(s) => Some(s),
        None => match text_at(reply, second) {
            Some(s) => Some(s),
            None => text_at(reply, third),
        },
    }
}

/// The first string that a reply holds under one of three keys.
pub fn reply_text<'a>(reply: &'a Json, first: &str, second: &str, third: &str) -> (r: Option<
    &'a str,
>)
    ensures
        match r {
            Some(s) => reply_view(reply@, first@, second@, third@) == Some(s@),
            None => reply_view(reply@, first@, second@, third@) is None,
        },
{
    match reply.str_at(first) {
        Some(s) => Some(s),
        None => match reply.str_at(second) {
            Some(s) => Some(s),
            None => reply.str_at(third),
        },
    }
}

} // verus!
