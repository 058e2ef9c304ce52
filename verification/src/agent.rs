//! Agents as the control plane knows them: versioned units that are built,
//! registered and deployed.

use crate::ident::fresh_id;
use crate::ingredient::{Ingredient, IngredientView};
use crate::json::{
    get_opt_text, get_opt_text_either, get_text, get_text_or_empty, key_mark, lemma_object_view,
    members_view, put_opt_text, put_text, read_opt_text, read_opt_text_either, read_text,
    read_text_or_empty, with_opt_text, Json, JsonValue,
};
use crate::model::{lemma_seq_view_push, opt_view, seq_view};
use crate::text::{opt_text, text_eq};
use crate::time::{Instant, Timestamp};
use crate::wire::{
    each_survives, get_list_or_empty, get_opt_value, get_value, get_value_or, group_lookup,
    lemma_each_round_trip, put_list, put_opt_value, put_value, read_list_or_empty, read_opt_value,
    read_value, read_value_or, with_list, with_opt_value, with_value, Wire,
};
use vstd::prelude::*;

verus! {

/// Who runs an agent.
#[derive(Debug, Clone, Copy, PartialEq, Eq, Structural)]
pub enum AgentMode {
    /// The control plane runs the agent's loop.
    Managed,
    /// The agent runs elsewhere and is reached by A2A.
    External,
    /// Not said, or said in a word that is not known.
    Unknown,
}

impl View for AgentMode {
    type V = AgentMode;

    open spec fn view(&self) -> AgentMode {
        *self
    }
}

impl AgentMode {
    /// The name on the wire.
    pub open spec fn name(self) -> Seq<char> {
        match self {
            AgentMode::Managed => "managed"@,
            AgentMode::External => "external"@,
            AgentMode::Unknown => "unknown"@,
        }
    }

    /// What a name stands for; every name that is not known stands for
    /// [`AgentMode::Unknown`].
    pub open spec fn named(name: Seq<char>) -> AgentMode {
        if name == "managed"@ {
            AgentMode::Managed
        } else if name == "external"@ {
            AgentMode::External
        } else {
            AgentMode::Unknown
        }
    }

    /// The name on the wire.
    pub fn as_str(&self) -> (r: &'static str)
        ensures
            r@ == self.name(),
    {
        match self {
            AgentMode::Managed => "managed",
            AgentMode::External => "external",
            AgentMode::Unknown => "unknown",
        }
    }

    /// What a name stands for.
    pub fn from_name(name: &str) -> (r: AgentMode)
        ensures
            r == AgentMode::named(name@),
    {
        if text_eq(name, "managed") {
            AgentMode::Managed
        } else if text_eq(name, "external") {
            AgentMode::External
        } else {
            AgentMode::Unknown
        }
    }

    /// Each value is the one that its own name stands for.
    pub proof fn lemma_name_round_trip(v: AgentMode)
        ensures
            AgentMode::named(v.name()) == v,
    {
        reveal_strlit("managed");
        reveal_strlit("external");
        reveal_strlit("unknown");
        assert(key_mark("managed"@) == (7nat, 'm', 'a'));
        assert(key_mark("external"@) == (8nat, 'e', 'x'));
        assert(key_mark("unknown"@) == (7nat, 'u', 'n'));
    }
}

impl Default for AgentMode {
    fn default() -> (r: AgentMode)
        ensures
            r == AgentMode::Managed,
    {
        AgentMode::Managed
    }
}

impl Wire for AgentMode {
    open spec fn encode(v: AgentMode) -> JsonValue {
        JsonValue::String(v.name())
    }

    open spec fn decode(j: JsonValue) -> Option<AgentMode> {
        match j {
            JsonValue::String(s) => Some(AgentMode::named(s)),
            _ => None,
        }
    }

    open spec fn survives(v: AgentMode) -> bool {
        true
    }

    fn to_json(&self) -> (j: Json) {
        Json::string(self.as_str())
    }

    fn from_json(j: &Json) -> (r: Option<AgentMode>) {
        match j.as_str() {
            Some(s) => Some(AgentMode::from_name(s)),
            None => None,
        }
    }

    proof fn lemma_round_trip(v: AgentMode) {
        AgentMode::lemma_name_round_trip(v);
    }
}

/// The framework that an agent is built with.
#[derive(Debug, Clone, Copy, PartialEq, Eq, Structural)]
pub enum AgentFramework {
    /// LangGraph or LangChain.
    Langchain,
    /// CrewAI.
    Crewai,
    /// The OpenAI SDK.
    Openai,
    /// AutoGen.
    Autogen,
    /// The control plane's own runtime.
    Managed,
    /// Another framework, or none that is known.
    Custom,
}

impl View for AgentFramework {
    type V = AgentFramework;

    open spec fn view(&self) -> AgentFramework {
        *self
    }
}

impl AgentFramework {
    /// The name on the wire.
    pub open spec fn name(self) -> Seq<char> {
        match self {
            AgentFramework::Langchain => "langchain"@,
            AgentFramework::Crewai => "crewai"@,
            AgentFramework::Openai => "openai"@,
            AgentFramework::Autogen => "autogen"@,
            AgentFramework::Managed => "managed"@,
            AgentFramework::Custom => "custom"@,
        }
    }

    /// What a name stands for; every name that is not known stands for
    /// [`AgentFramework::Custom`].
    pub open spec fn named(name: Seq<char>) -> AgentFramework {
        if name == "langchain"@ {
            AgentFramework::Langchain
        } else if name == "lang-graph"@ {
            AgentFramework::Langchain
        } else if name == "langgraph"@ {
            AgentFramework::Langchain
        } else if name == "crewai"@ {
            AgentFramework::Crewai
        } else if name == "crew-ai"@ {
            AgentFramework::Crewai
        } else if name == "openai"@ {
            AgentFramework::Openai
        } else if name == "openai-sdk"@ {
            AgentFramework::Openai
        } else if name == "open-ai-sdk"@ {
            AgentFramework::Openai
        } else if name == "autogen"@ {
            AgentFramework::Autogen
        } else if name == "auto-gen"@ {
            AgentFramework::Autogen
        } else if name == "managed"@ {
            AgentFramework::Managed
        } else {
            AgentFramework::Custom
        }
    }

    /// The name on the wire.
    pub fn as_str(&self) -> (r: &'static str)
        ensures
            r@ == self.name(),
    {
        match self {
            AgentFramework::Langchain => "langchain",
            AgentFramework::Crewai => "crewai",
            AgentFramework::Openai => "openai",
            AgentFramework::Autogen => "autogen",
            AgentFramework::Managed => "managed",
            AgentFramework::Custom => "custom",
        }
    }

    /// What a name stands for.
    pub fn from_name(name: &str) -> (r: AgentFramework)
        ensures
            r == AgentFramework::named(name@),
    {
        if text_eq(name, "langchain") {
            AgentFramework::Langchain
        } else if text_eq(name, "lang-graph") {
            AgentFramework::Langchain
        } else if text_eq(name, "langgraph") {
            AgentFramework::Langchain
        } else if text_eq(name, "crewai") {
            AgentFramework::Crewai
        } else if text_eq(name, "crew-ai") {
            AgentFramework::Crewai
        } else if text_eq(name, "openai") {
            AgentFramework::Openai
        } else if text_eq(name, "openai-sdk") {
            AgentFramework::Openai
        } else if text_eq(name, "open-ai-sdk") {
            AgentFramework::Openai
        } else if text_eq(name, "autogen") {
            AgentFramework::Autogen
        } else if text_eq(name, "auto-gen") {
            AgentFramework::Autogen
        } else if text_eq(name, "managed") {
            AgentFramework::Managed
        } else {
            AgentFramework::Custom
        }
    }

    /// Each value is the one that its own name stands for.
    pub proof fn lemma_name_round_trip(v: AgentFramework)
        ensures
            AgentFramework::named(v.name()) == v,
    {
        reveal_strlit("langchain");
        reveal_strlit("lang-graph");
        reveal_strlit("langgraph");
        reveal_strlit("crewai");
        reveal_strlit("crew-ai");
        reveal_strlit("openai");
        reveal_strlit("openai-sdk");
        reveal_strlit("open-ai-sdk");
        reveal_strlit("autogen");
        reveal_strlit("auto-gen");
        reveal_strlit("managed");
        reveal_strlit("custom");
        assert(key_mark("langchain"@) == (9nat, 'l', 'a'));
        assert(key_mark("lang-graph"@) == (10nat, 'l', 'a'));
        assert(key_mark("langgraph"@) == (9nat, 'l', 'a'));
        assert(key_mark("crewai"@) == (6nat, 'c', 'r'));
        assert(key_mark("crew-ai"@) == (7nat, 'c', 'r'));
        assert(key_mark("openai"@) == (6nat, 'o', 'p'));
        assert(key_mark("openai-sdk"@) == (10nat, 'o', 'p'));
        assert(key_mark("open-ai-sdk"@) == (11nat, 'o', 'p'));
        assert(key_mark("autogen"@) == (7nat, 'a', 'u'));
        assert(key_mark("auto-gen"@) == (8nat, 'a', 'u'));
        assert(key_mark("managed"@) == (7nat, 'm', 'a'));
        assert(key_mark("custom"@) == (6nat, 'c', 'u'));
        assert("langchain"@[4] == 'c');
        assert("langgraph"@[4] == 'g');
    }
}

impl Default for AgentFramework {
    fn default() -> (r: AgentFramework)
        ensures
            r == AgentFramework::Custom,
    {
        AgentFramework::Custom
    }
}

impl Wire for AgentFramework {
    open spec fn encode(v: AgentFramework) -> JsonValue {
        JsonValue::String(v.name())
    }

    open spec fn decode(j: JsonValue) -> Option<AgentFramework> {
        match j {
            JsonValue::String(s) => Some(AgentFramework::named(s)),
            _ => None,
        }
    }

    open spec fn survives(v: AgentFramework) -> bool {
        true
    }

    fn to_json(&self) -> (j: Json) {
        Json::string(self.as_str())
    }

    fn from_json(j: &Json) -> (r: Option<AgentFramework>) {
        match j.as_str() {
            Some(s) => Some(AgentFramework::from_name(s)),
            None => None,
        }
    }

    proof fn lemma_round_trip(v: AgentFramework) {
        AgentFramework::lemma_name_round_trip(v);
    }
}

/// Where an agent stands in its deployment.
#[derive(Debug, Clone, Copy, PartialEq, Eq, Structural)]
pub enum AgentStatus {
    /// Not deployed yet.
    Draft,
    /// Being deployed.
    Baking,
    /// Deployed and serving.
    Ready,
    /// Paused.
    Cooled,
    /// The deployment failed.
    Burnt,
    /// Taken out of service for good.
    Retired,
}

impl View for AgentStatus {
    type V = AgentStatus;

    open spec fn view(&self) -> AgentStatus {
        *self
    }
}

impl AgentStatus {
    /// The name on the wire.
    pub open spec fn name(self) -> Seq<char> {
        match self {
            AgentStatus::Draft => "draft"@,
            AgentStatus::Baking => "baking"@,
            AgentStatus::Ready => "ready"@,
            AgentStatus::Cooled => "cooled"@,
            AgentStatus::Burnt => "burnt"@,
            AgentStatus::Retired => "retired"@,
        }
    }

    /// What a name stands for.
    pub open spec fn named(name: Seq<char>) -> Option<AgentStatus> {
        if name == "draft"@ {
            Some(AgentStatus::Draft)
        } else if name == "baking"@ {
            Some(AgentStatus::Baking)
        } else if name == "ready"@ {
            Some(AgentStatus::Ready)
        } else if name == "cooled"@ {
            Some(AgentStatus::Cooled)
        } else if name == "burnt"@ {
            Some(AgentStatus::Burnt)
        } else if name == "retired"@ {
            Some(AgentStatus::Retired)
        } else {
            None
        }
    }

    /// The name on the wire.
    pub fn as_str(&self) -> (r: &'static str)
        ensures
            r@ == self.name(),
    {
        match self {
            AgentStatus::Draft => "draft",
            AgentStatus::Baking => "baking",
            AgentStatus::Ready => "ready",
            AgentStatus::Cooled => "cooled",
            AgentStatus::Burnt => "burnt",
            AgentStatus::Retired => "retired",
        }
    }

    /// What a name stands for.
    pub fn from_name(name: &str) -> (r: Option<AgentStatus>)
        ensures
            r == AgentStatus::named(name@),
    {
        if text_eq(name, "draft") {
            Some(AgentStatus::Draft)
        } else if text_eq(name, "baking") {
            Some(AgentStatus::Baking)
        } else if text_eq(name, "ready") {
            Some(AgentStatus::Ready)
        } else if text_eq(name, "cooled") {
            Some(AgentStatus::Cooled)
        } else if text_eq(name, "burnt") {
            Some(AgentStatus::Burnt)
        } else if text_eq(name, "retired") {
            Some(AgentStatus::Retired)
        } else {
            None
        }
    }

    /// Each value is the one that its own name stands for.
    pub proof fn lemma_name_round_trip(v: AgentStatus)
        ensures
            AgentStatus::named(v.name()) == Some(v),
    {
        reveal_strlit("draft");
        reveal_strlit("baking");
        reveal_strlit("ready");
        reveal_strlit("cooled");
        reveal_strlit("burnt");
        reveal_strlit("retired");
        assert(key_mark("draft"@) == (5nat, 'd', 'r'));
        assert(key_mark("baking"@) == (6nat, 'b', 'a'));
        assert(key_mark("ready"@) == (5nat, 'r', 'e'));
        assert(key_mark("cooled"@) == (6nat, 'c', 'o'));
        assert(key_mark("burnt"@) == (5nat, 'b', 'u'));
        assert(key_mark("retired"@) == (7nat, 'r', 'e'));
    }
}

impl Wire for AgentStatus {
    open spec fn encode(v: AgentStatus) -> JsonValue {
        JsonValue::String(v.name())
    }

    open spec fn decode(j: JsonValue) -> Option<AgentStatus> {
        match j {
            JsonValue::String(s) => AgentStatus::named(s),
            _ => None,
        }
    }

    open spec fn survives(v: AgentStatus) -> bool {
        true
    }

    fn to_json(&self) -> (j: Json) {
        Json::string(self.as_str())
    }

    fn from_json(j: &Json) -> (r: Option<AgentStatus>) {
        match j.as_str() {
            Some(s) => AgentStatus::from_name(s),
            None => None,
        }
    }

    proof fn lemma_round_trip(v: AgentStatus) {
        AgentStatus::lemma_name_round_trip(v);
    }
}

/// A check on what goes into an agent or comes out of it.
#[derive(Debug, Clone, PartialEq)]
pub struct Guardrail {
    /// The kind of check, such as `content-filter`.
    pub kind: String,
    /// When the check runs: `pre`, before the model, or `post`, after it.
    pub stage: String,
    /// Settings of this kind of check.
    pub config: Option<Json>,
}

/// The model of a [`Guardrail`].
pub struct GuardrailView {
    pub kind: Seq<char>,
    pub stage: Seq<char>,
    pub config: Option<JsonValue>,
}

impl View for Guardrail {
    type V = GuardrailView;

    open spec fn view(&self) -> GuardrailView {
        GuardrailView {
            kind: self.kind@,
            stage: self.stage@,
            config: opt_view(self.config),
        }
    }
}

impl Wire for Guardrail {
    open spec fn encode(v: GuardrailView) -> JsonValue {
        let m = Seq::empty();
        let m = m.push(("kind"@, JsonValue::String(v.kind)));
        let m = with_value::<String>(m, "stage"@, v.stage);
        let m = with_opt_value::<Json>(m, "config"@, v.config);
        JsonValue::Object(m)
    }

    open spec fn decode(j: JsonValue) -> Option<GuardrailView> {
        match j {
            JsonValue::Object(m) => {
                let kind = read_text(m, "kind"@);
                let stage = read_value_or::<String>(m, "stage"@, "pre"@);
                let config = read_opt_value::<Json>(m, "config"@);
                if kind is Some && stage is Some && config is Some {
                    Some(
                        GuardrailView {
                            kind: kind.unwrap(),
                            stage: stage.unwrap(),
                            config: config.unwrap(),
                        },
                    )
                } else {
                    None
                }
            },
            _ => None,
        }
    }

    /// A `null` that is given as settings is read back as no settings.
    open spec fn survives(v: GuardrailView) -> bool {
        &&& v.config != Some(JsonValue::Null)
    }

    fn to_json(&self) -> (j: Json) {
        let mut members: Vec<(String, Json)> = Vec::new();
        proof {
            assert(members_view(members@) =~= Seq::empty());
        }
        put_text(&mut members, "kind", self.kind.as_str());
        put_value(&mut members, "stage", &self.stage);
        put_opt_value(&mut members, "config", &self.config);
        proof {
            lemma_object_view(members);
        }
        Json::Object(members)
    }

    fn from_json(j: &Json) -> (r: Option<Guardrail>) {
        let members = j.as_object()?;
        let kind = get_text(members, "kind")?;
        let stage = get_value_or::<String>(members, "stage", default_guardrail_stage())?;
        let config = get_opt_value::<Json>(members, "config")?;
        Some(Guardrail { kind, stage, config })
    }

    proof fn lemma_round_trip(v: GuardrailView) {
        broadcast use group_lookup;

        reveal_strlit("kind");
        reveal_strlit("stage");
        reveal_strlit("config");
        assert(key_mark("kind"@) == (4nat, 'k', 'i'));
        assert(key_mark("stage"@) == (5nat, 's', 't'));
        assert(key_mark("config"@) == (6nat, 'c', 'o'));
        String::lemma_round_trip(v.stage);
        let m = Self::encode(v)->Object_0;
        assert(read_text(m, "kind"@) == Some(v.kind));
        assert(read_value_or::<String>(m, "stage"@, "pre"@) == Some(v.stage));
        assert(read_opt_value::<Json>(m, "config"@) == Some(v.config));
    }
}

/// An agent as the control plane knows it: one version of a deployable unit.
#[derive(Debug, Clone, PartialEq)]
pub struct Agent {
    /// The agent's identifier.
    pub id: String,
    /// The agent's name, which no other agent of the kitchen has.
    pub name: String,
    /// The version, such as `1.0.0`.
    pub version: String,
    /// What the agent does.
    pub description: String,
    /// The framework that the agent is built with.
    pub framework: AgentFramework,
    /// Who runs the agent.
    pub mode: AgentMode,
    /// The provider of the agent's model.
    pub model_provider: String,
    /// The agent's model.
    pub model_name: String,
    /// The provider to fall back on.
    pub backup_provider: Option<String>,
    /// The model to fall back on.
    pub backup_model: Option<String>,
    /// The agent's instructions.
    pub system_prompt: Option<String>,
    /// How many turns the agent's loop may take.
    pub max_turns: Option<u32>,
    /// What the agent can do.
    pub skills: Vec<String>,
    /// The checks on the agent.
    pub guardrails: Vec<Guardrail>,
    /// Where an external agent is reached.
    pub a2a_endpoint: Option<String>,
    /// What the agent is made of.
    pub ingredients: Vec<Ingredient>,
    /// Words to find the agent by.
    pub tags: Vec<String>,
    /// Where the agent stands in its deployment.
    pub status: AgentStatus,
    /// The kitchen that the agent belongs to. On the wire it goes by
    /// `kitchen_id`; `kitchen` is read as well.
    pub kitchen_id: Option<String>,
    /// The settings that the control plane worked out when it deployed the agent.
    pub resolved_config: Option<Json>,
    /// Who made the agent.
    pub created_by: Option<String>,
    /// When this version was made.
    pub created_at: Timestamp,
    /// When this version last changed.
    pub updated_at: Timestamp,
    /// What is attached to the agent.
    pub metadata: Option<Json>,
}

/// The model of an [`Agent`].
pub struct AgentView {
    pub id: Seq<char>,
    pub name: Seq<char>,
    pub version: Seq<char>,
    pub description: Seq<char>,
    pub framework: AgentFramework,
    pub mode: AgentMode,
    pub model_provider: Seq<char>,
    pub model_name: Seq<char>,
    pub backup_provider: Option<Seq<char>>,
    pub backup_model: Option<Seq<char>>,
    pub system_prompt: Option<Seq<char>>,
    pub max_turns: Option<u32>,
    pub skills: Seq<Seq<char>>,
    pub guardrails: Seq<GuardrailView>,
    pub a2a_endpoint: Option<Seq<char>>,
    pub ingredients: Seq<IngredientView>,
    pub tags: Seq<Seq<char>>,
    pub status: AgentStatus,
    pub kitchen_id: Option<Seq<char>>,
    pub resolved_config: Option<JsonValue>,
    pub created_by: Option<Seq<char>>,
    pub created_at: Instant,
    pub updated_at: Instant,
    pub metadata: Option<JsonValue>,
}

impl View for Agent {
    type V = AgentView;

    open spec fn view(&self) -> AgentView {
        AgentView {
            id: self.id@,
            name: self.name@,
            version: self.version@,
            description: self.description@,
            framework: self.framework@,
            mode: self.mode@,
            model_provider: self.model_provider@,
            model_name: self.model_name@,
            backup_provider: opt_text(self.backup_provider),
            backup_model: opt_text(self.backup_model),
            system_prompt: opt_text(self.system_prompt),
            max_turns: opt_view(self.max_turns),
            skills: seq_view(self.skills@),
            guardrails: seq_view(self.guardrails@),
            a2a_endpoint: opt_text(self.a2a_endpoint),
            ingredients: seq_view(self.ingredients@),
            tags: seq_view(self.tags@),
            status: self.status@,
            kitchen_id: opt_text(self.kitchen_id),
            resolved_config: opt_view(self.resolved_config),
            created_by: opt_text(self.created_by),
            created_at: self.created_at@,
            updated_at: self.updated_at@,
            metadata: opt_view(self.metadata),
        }
    }
}

impl Wire for Agent {
    open spec fn encode(v: AgentView) -> JsonValue {
        let m = Seq::empty();
        let m = m.push(("id"@, JsonValue::String(v.id)));
        let m = m.push(("name"@, JsonValue::String(v.name)));
        let m = m.push(("version"@, JsonValue::String(v.version)));
        let m = m.push(("description"@, JsonValue::String(v.description)));
        let m = with_value::<AgentFramework>(m, "framework"@, v.framework);
        let m = with_value::<AgentMode>(m, "mode"@, v.mode);
        let m = m.push(("model_provider"@, JsonValue::String(v.model_provider)));
        let m = m.push(("model_name"@, JsonValue::String(v.model_name)));
        let m = with_opt_text(m, "backup_provider"@, v.backup_provider);
        let m = with_opt_text(m, "backup_model"@, v.backup_model);
        let m = with_opt_text(m, "system_prompt"@, v.system_prompt);
        let m = with_opt_value::<u32>(m, "max_turns"@, v.max_turns);
        let m = with_list::<String>(m, "skills"@, v.skills);
        let m = with_list::<Guardrail>(m, "guardrails"@, v.guardrails);
        let m = with_opt_text(m, "a2a_endpoint"@, v.a2a_endpoint);
        let m = with_list::<Ingredient>(m, "ingredients"@, v.ingredients);
        let m = with_list::<String>(m, "tags"@, v.tags);
        let m = with_value::<AgentStatus>(m, "status"@, v.status);
        let m = with_opt_text(m, "kitchen_id"@, v.kitchen_id);
        let m = with_opt_value::<Json>(m, "resolved_config"@, v.resolved_config);
        let m = with_opt_text(m, "created_by"@, v.created_by);
        let m = with_value::<Timestamp>(m, "created_at"@, v.created_at);
        let m = with_value::<Timestamp>(m, "updated_at"@, v.updated_at);
        let m = with_opt_value::<Json>(m, "metadata"@, v.metadata);
        JsonValue::Object(m)
    }

    open spec fn decode(j: JsonValue) -> Option<AgentView> {
        match j {
            JsonValue::Object(m) => {
                let id = read_text(m, "id"@);
                let name = read_text(m, "name"@);
                let version = read_text(m, "version"@);
                let description = read_text(m, "description"@);
                let framework = read_value::<AgentFramework>(m, "framework"@);
                let mode = read_value_or::<AgentMode>(m, "mode"@, AgentMode::Managed);
                let model_provider = read_text_or_empty(m, "model_provider"@);
                let model_name = read_text_or_empty(m, "model_name"@);
                let backup_provider = read_opt_text(m, "backup_provider"@);
                let backup_model = read_opt_text(m, "backup_model"@);
                let system_prompt = read_opt_text(m, "system_prompt"@);
                let max_turns = read_opt_value::<u32>(m, "max_turns"@);
                let skills = read_list_or_empty::<String>(m, "skills"@);
                let guardrails = read_list_or_empty::<Guardrail>(m, "guardrails"@);
                let a2a_endpoint = read_opt_text(m, "a2a_endpoint"@);
                let ingredients = read_list_or_empty::<Ingredient>(m, "ingredients"@);
                let tags = read_list_or_empty::<String>(m, "tags"@);
                let status = read_value::<AgentStatus>(m, "status"@);
                let kitchen_id = read_opt_text_either(m, "kitchen_id"@, "kitchen"@);
                let resolved_config = read_opt_value::<Json>(m, "resolved_config"@);
                let created_by = read_opt_text(m, "created_by"@);
                let created_at = read_value::<Timestamp>(m, "created_at"@);
                let updated_at = read_value::<Timestamp>(m, "updated_at"@);
                let metadata = read_opt_value::<Json>(m, "metadata"@);
                if id is Some
                    && name is Some
                    && version is Some
                    && description is Some
                    && framework is Some
                    && mode is Some
                    && model_provider is Some
                    && model_name is Some
                    && backup_provider is Some
                    && backup_model is Some
                    && system_prompt is Some
                    && max_turns is Some
                    && skills is Some
                    && guardrails is Some
                    && a2a_endpoint is Some
                    && ingredients is Some
                    && tags is Some
                    && status is Some
                    && kitchen_id is Some
                    && resolved_config is Some
                    && created_by is Some
                    && created_at is Some
                    && updated_at is Some
                    && metadata is Some
                {
                    Some(
                        AgentView {
                            id: id.unwrap(),
                            name: name.unwrap(),
                            version: version.unwrap(),
                            description: description.unwrap(),
                            framework: framework.unwrap(),
                            mode: mode.unwrap(),
                            model_provider: model_provider.unwrap(),
                            model_name: model_name.unwrap(),
                            backup_provider: backup_provider.unwrap(),
                            backup_model: backup_model.unwrap(),
                            system_prompt: system_prompt.unwrap(),
                            max_turns: max_turns.unwrap(),
                            skills: skills.unwrap(),
                            guardrails: guardrails.unwrap(),
                            a2a_endpoint: a2a_endpoint.unwrap(),
                            ingredients: ingredients.unwrap(),
                            tags: tags.unwrap(),
                            status: status.unwrap(),
                            kitchen_id: kitchen_id.unwrap(),
                            resolved_config: resolved_config.unwrap(),
                            created_by: created_by.unwrap(),
                            created_at: created_at.unwrap(),
                            updated_at: updated_at.unwrap(),
                            metadata: metadata.unwrap(),
                        },
                    )
                } else {
                    None
                }
            },
            _ => None,
        }
    }

    /// An agent survives where its guardrails, ingredients and times do, where
    /// its number of turns does, and where no `null` stands in the place of
    /// settings or of what is attached.
    open spec fn survives(v: AgentView) -> bool {
        &&& AgentFramework::survives(v.framework)
        &&& AgentMode::survives(v.mode)
        &&& (v.max_turns matches Some(x) ==> u32::survives(x))
        &&& each_survives::<Guardrail>(v.guardrails)
        &&& each_survives::<Ingredient>(v.ingredients)
        &&& AgentStatus::survives(v.status)
        &&& v.resolved_config != Some(JsonValue::Null)
        &&& Timestamp::survives(v.created_at)
        &&& Timestamp::survives(v.updated_at)
        &&& v.metadata != Some(JsonValue::Null)
    }

    fn to_json(&self) -> (j: Json) {
        let mut members: Vec<(String, Json)> = Vec::new();
        proof {
            assert(members_view(members@) =~= Seq::empty());
        }
        put_text(&mut members, "id", self.id.as_str());
        put_text(&mut members, "name", self.name.as_str());
        put_text(&mut members, "version", self.version.as_str());
        put_text(&mut members, "description", self.description.as_str());
        put_value(&mut members, "framework", &self.framework);
        put_value(&mut members, "mode", &self.mode);
        put_text(&mut members, "model_provider", self.model_provider.as_str());
        put_text(&mut members, "model_name", self.model_name.as_str());
        put_opt_text(&mut members, "backup_provider", &self.backup_provider);
        put_opt_text(&mut members, "backup_model", &self.backup_model);
        put_opt_text(&mut members, "system_prompt", &self.system_prompt);
        put_opt_value(&mut members, "max_turns", &self.max_turns);
        put_list(&mut members, "skills", &self.skills);
        put_list(&mut members, "guardrails", &self.guardrails);
        put_opt_text(&mut members, "a2a_endpoint", &self.a2a_endpoint);
        put_list(&mut members, "ingredients", &self.ingredients);
        put_list(&mut members, "tags", &self.tags);
        put_value(&mut members, "status", &self.status);
        put_opt_text(&mut members, "kitchen_id", &self.kitchen_id);
        put_opt_value(&mut members, "resolved_config", &self.resolved_config);
        put_opt_text(&mut members, "created_by", &self.created_by);
        put_value(&mut members, "created_at", &self.created_at);
        put_value(&mut members, "updated_at", &self.updated_at);
        put_opt_value(&mut members, "metadata", &self.metadata);
        proof {
            lemma_object_view(members);
        }
        Json::Object(members)
    }

    fn from_json(j: &Json) -> (r: Option<Agent>) {
        let members = j.as_object()?;
        let id = get_text(members, "id")?;
        let name = get_text(members, "name")?;
        let version = get_text(members, "version")?;
        let description = get_text(members, "description")?;
        let framework = get_value::<AgentFramework>(members, "framework")?;
        let mode = get_value_or::<AgentMode>(members, "mode", AgentMode::Managed)?;
        let model_provider = get_text_or_empty(members, "model_provider")?;
        let model_name = get_text_or_empty(members, "model_name")?;
        let backup_provider = get_opt_text(members, "backup_provider")?;
        let backup_model = get_opt_text(members, "backup_model")?;
        let system_prompt = get_opt_text(members, "system_prompt")?;
        let max_turns = get_opt_value::<u32>(members, "max_turns")?;
        let skills = get_list_or_empty::<String>(members, "skills")?;
        let guardrails = get_list_or_empty::<Guardrail>(members, "guardrails")?;
        let a2a_endpoint = get_opt_text(members, "a2a_endpoint")?;
        let ingredients = get_list_or_empty::<Ingredient>(members, "ingredients")?;
        let tags = get_list_or_empty::<String>(members, "tags")?;
        let status = get_value::<AgentStatus>(members, "status")?;
        let kitchen_id = get_opt_text_either(members, "kitchen_id", "kitchen")?;
        let resolved_config = get_opt_value::<Json>(members, "resolved_config")?;
        let created_by = get_opt_text(members, "created_by")?;
        let created_at = get_value::<Timestamp>(members, "created_at")?;
        let updated_at = get_value::<Timestamp>(members, "updated_at")?;
        let metadata = get_opt_value::<Json>(members, "metadata")?;
        Some(
            Agent {
                id,
                name,
                version,
                description,
                framework,
                mode,
                model_provider,
                model_name,
                backup_provider,
                backup_model,
                system_prompt,
                max_turns,
                skills,
                guardrails,
                a2a_endpoint,
                ingredients,
                tags,
                status,
                kitchen_id,
                resolved_config,
                created_by,
                created_at,
                updated_at,
                metadata,
            },
        )
    }

    proof fn lemma_round_trip(v: AgentView) {
        broadcast use group_lookup;

        reveal_strlit("id");
        reveal_strlit("name");
        reveal_strlit("version");
        reveal_strlit("description");
        reveal_strlit("framework");
        reveal_strlit("mode");
        reveal_strlit("model_provider");
        reveal_strlit("model_name");
        reveal_strlit("backup_provider");
        reveal_strlit("backup_model");
        reveal_strlit("system_prompt");
        reveal_strlit("max_turns");
        reveal_strlit("skills");
        reveal_strlit("guardrails");
        reveal_strlit("a2a_endpoint");
        reveal_strlit("ingredients");
        reveal_strlit("tags");
        reveal_strlit("status");
        reveal_strlit("kitchen_id");
        reveal_strlit("resolved_config");
        reveal_strlit("created_by");
        reveal_strlit("created_at");
        reveal_strlit("updated_at");
        reveal_strlit("metadata");
        reveal_strlit("kitchen");
        assert(key_mark("id"@) == (2nat, 'i', 'd'));
        assert(key_mark("name"@) == (4nat, 'n', 'a'));
        assert(key_mark("version"@) == (7nat, 'v', 'e'));
        assert(key_mark("description"@) == (11nat, 'd', 'e'));
        assert(key_mark("framework"@) == (9nat, 'f', 'r'));
        assert(key_mark("mode"@) == (4nat, 'm', 'o'));
        assert(key_mark("model_provider"@) == (14nat, 'm', 'o'));
        assert(key_mark("model_name"@) == (10nat, 'm', 'o'));
        assert(key_mark("backup_provider"@) == (15nat, 'b', 'a'));
        assert(key_mark("backup_model"@) == (12nat, 'b', 'a'));
        assert(key_mark("system_prompt"@) == (13nat, 's', 'y'));
        assert(key_mark("max_turns"@) == (9nat, 'm', 'a'));
        assert(key_mark("skills"@) == (6nat, 's', 'k'));
        assert(key_mark("guardrails"@) == (10nat, 'g', 'u'));
        assert(key_mark("a2a_endpoint"@) == (12nat, 'a', '2'));
        assert(key_mark("ingredients"@) == (11nat, 'i', 'n'));
        assert(key_mark("tags"@) == (4nat, 't', 'a'));
        assert(key_mark("status"@) == (6nat, 's', 't'));
        assert(key_mark("kitchen_id"@) == (10nat, 'k', 'i'));
        assert(key_mark("resolved_config"@) == (15nat, 'r', 'e'));
        assert(key_mark("created_by"@) == (10nat, 'c', 'r'));
        assert(key_mark("created_at"@) == (10nat, 'c', 'r'));
        assert(key_mark("updated_at"@) == (10nat, 'u', 'p'));
        assert(key_mark("metadata"@) == (8nat, 'm', 'e'));
        assert(key_mark("kitchen"@) == (7nat, 'k', 'i'));
        assert("created_by"@[8] == 'b');
        assert("created_at"@[8] == 'a');
        AgentFramework::lemma_round_trip(v.framework);
        AgentMode::lemma_round_trip(v.mode);
        if v.max_turns is Some {
            u32::lemma_round_trip(v.max_turns.unwrap());
        }
        assert(each_survives::<String>(v.skills));
        lemma_each_round_trip::<String>(v.skills);
        assert(each_survives::<Guardrail>(v.guardrails));
        lemma_each_round_trip::<Guardrail>(v.guardrails);
        assert(each_survives::<Ingredient>(v.ingredients));
        lemma_each_round_trip::<Ingredient>(v.ingredients);
        assert(each_survives::<String>(v.tags));
        lemma_each_round_trip::<String>(v.tags);
        AgentStatus::lemma_round_trip(v.status);
        Timestamp::lemma_round_trip(v.created_at);
        Timestamp::lemma_round_trip(v.updated_at);
        let m = Self::encode(v)->Object_0;
        assert(read_text(m, "id"@) == Some(v.id));
        assert(read_text(m, "name"@) == Some(v.name));
        assert(read_text(m, "version"@) == Some(v.version));
        assert(read_text(m, "description"@) == Some(v.description));
        assert(read_value::<AgentFramework>(m, "framework"@) == Some(v.framework));
        assert(read_value_or::<AgentMode>(m, "mode"@, AgentMode::Managed) == Some(v.mode));
        assert(read_text_or_empty(m, "model_provider"@) == Some(v.model_provider));
        assert(read_text_or_empty(m, "model_name"@) == Some(v.model_name));
        assert(read_opt_text(m, "backup_provider"@) == Some(v.backup_provider));
        assert(read_opt_text(m, "backup_model"@) == Some(v.backup_model));
        assert(read_opt_text(m, "system_prompt"@) == Some(v.system_prompt));
        assert(read_opt_value::<u32>(m, "max_turns"@) == Some(v.max_turns));
        assert(read_list_or_empty::<String>(m, "skills"@) == Some(v.skills));
        assert(read_list_or_empty::<Guardrail>(m, "guardrails"@) == Some(v.guardrails));
        assert(read_opt_text(m, "a2a_endpoint"@) == Some(v.a2a_endpoint));
        assert(read_list_or_empty::<Ingredient>(m, "ingredients"@) == Some(v.ingredients));
        assert(read_list_or_empty::<String>(m, "tags"@) == Some(v.tags));
        assert(read_value::<AgentStatus>(m, "status"@) == Some(v.status));
        assert(read_opt_text_either(m, "kitchen_id"@, "kitchen"@) == Some(v.kitchen_id));
        assert(read_opt_value::<Json>(m, "resolved_config"@) == Some(v.resolved_config));
        assert(read_opt_text(m, "created_by"@) == Some(v.created_by));
        assert(read_value::<Timestamp>(m, "created_at"@) == Some(v.created_at));
        assert(read_value::<Timestamp>(m, "updated_at"@) == Some(v.updated_at));
        assert(read_opt_value::<Json>(m, "metadata"@) == Some(v.metadata));
    }
}

/// An agent in the making.
#[derive(Debug)]
pub struct AgentBuilder {
    name: String,
    version: String,
    description: String,
    framework: AgentFramework,
    mode: AgentMode,
    model_provider: String,
    model_name: String,
    backup_provider: Option<String>,
    backup_model: Option<String>,
    system_prompt: Option<String>,
    max_turns: Option<u32>,
    skills: Vec<String>,
    guardrails: Vec<Guardrail>,
    a2a_endpoint: Option<String>,
    ingredients: Vec<Ingredient>,
    tags: Vec<String>,
    kitchen_id: Option<String>,
    metadata: Option<Json>,
}

/// The model of an [`AgentBuilder`].
pub struct AgentBuilderView {
    pub name: Seq<char>,
    pub version: Seq<char>,
    pub description: Seq<char>,
    pub framework: AgentFramework,
    pub mode: AgentMode,
    pub model_provider: Seq<char>,
    pub model_name: Seq<char>,
    pub backup_provider: Option<Seq<char>>,
    pub backup_model: Option<Seq<char>>,
    pub system_prompt: Option<Seq<char>>,
    pub max_turns: Option<u32>,
    pub skills: Seq<Seq<char>>,
    pub guardrails: Seq<GuardrailView>,
    pub a2a_endpoint: Option<Seq<char>>,
    pub ingredients: Seq<IngredientView>,
    pub tags: Seq<Seq<char>>,
    pub kitchen_id: Option<Seq<char>>,
    pub metadata: Option<JsonValue>,
}

impl View for AgentBuilder {
    type V = AgentBuilderView;

    closed spec fn view(&self) -> AgentBuilderView {
        AgentBuilderView {
            name: self.name@,
            version: self.version@,
            description: self.description@,
            framework: self.framework,
            mode: self.mode,
            model_provider: self.model_provider@,
            model_name: self.model_name@,
            backup_provider: opt_text(self.backup_provider),
            backup_model: opt_text(self.backup_model),
            system_prompt: opt_text(self.system_prompt),
            max_turns: self.max_turns,
            skills: seq_view(self.skills@),
            guardrails: seq_view(self.guardrails@),
            a2a_endpoint: opt_text(self.a2a_endpoint),
            ingredients: seq_view(self.ingredients@),
            tags: seq_view(self.tags@),
            kitchen_id: opt_text(self.kitchen_id),
            metadata: opt_view(self.metadata),
        }
    }
}

impl AgentBuilderView {
    /// A builder that knows the name only: version `0.1.0`, no description,
    /// a framework of its own, run by the control plane.
    pub open spec fn start(name: Seq<char>) -> AgentBuilderView {
        AgentBuilderView {
            name,
            version: "0.1.0"@,
            description: Seq::empty(),
            framework: AgentFramework::Custom,
            mode: AgentMode::Managed,
            model_provider: Seq::empty(),
            model_name: Seq::empty(),
            backup_provider: None,
            backup_model: None,
            system_prompt: None,
            max_turns: None,
            skills: Seq::empty(),
            guardrails: Seq::empty(),
            a2a_endpoint: None,
            ingredients: Seq::empty(),
            tags: Seq::empty(),
            kitchen_id: None,
            metadata: None,
        }
    }

    /// The agent that the builder stands for, as a draft with a given
    /// identifier, made at a given time.
    pub open spec fn built(self, id: Seq<char>, now: Instant) -> AgentView {
        AgentView {
            id,
            name: self.name,
            version: self.version,
            description: self.description,
            framework: self.framework,
            mode: self.mode,
            model_provider: self.model_provider,
            model_name: self.model_name,
            backup_provider: self.backup_provider,
            backup_model: self.backup_model,
            system_prompt: self.system_prompt,
            max_turns: self.max_turns,
            skills: self.skills,
            guardrails: self.guardrails,
            a2a_endpoint: self.a2a_endpoint,
            ingredients: self.ingredients,
            tags: self.tags,
            status: AgentStatus::Draft,
            kitchen_id: self.kitchen_id,
            resolved_config: None,
            created_by: None,
            created_at: now,
            updated_at: now,
            metadata: self.metadata,
        }
    }
}

impl AgentBuilder {
    /// A builder that knows the name only.
    pub fn new(name: &str) -> (r: AgentBuilder)
        ensures
            r@ == AgentBuilderView::start(name@),
    {
        let r = AgentBuilder {
            name: name.to_owned(),
            version: "0.1.0".to_owned(),
            description: String::new(),
            framework: AgentFramework::Custom,
            mode: AgentMode::default(),
            model_provider: String::new(),
            model_name: String::new(),
            backup_provider: None,
            backup_model: None,
            system_prompt: None,
            max_turns: None,
            skills: Vec::new(),
            guardrails: Vec::new(),
            a2a_endpoint: None,
            ingredients: Vec::new(),
            tags: Vec::new(),
            kitchen_id: None,
            metadata: None,
        };
        proof {
            assert(seq_view(r.skills@) =~= Seq::empty());
            assert(seq_view(r.guardrails@) =~= Seq::empty());
            assert(seq_view(r.ingredients@) =~= Seq::empty());
            assert(seq_view(r.tags@) =~= Seq::empty());
        }
        r
    }

    /// Sets the version.
    pub fn version(self, version: &str) -> (r: AgentBuilder)
        ensures
            r@ == (AgentBuilderView { version: version@, ..self@ }),
    {
        let mut r = self;
        r.version = version.to_owned();
        r
    }

    /// Sets what the agent does.
    pub fn description(self, description: &str) -> (r: AgentBuilder)
        ensures
            r@ == (AgentBuilderView { description: description@, ..self@ }),
    {
        let mut r = self;
        r.description = description.to_owned();
        r
    }

    /// Sets the framework.
    pub fn framework(self, framework: AgentFramework) -> (r: AgentBuilder)
        ensures
            r@ == (AgentBuilderView { framework: framework, ..self@ }),
    {
        let mut r = self;
        r.framework = framework;
        r
    }

    /// Sets who runs the agent.
    pub fn mode(self, mode: AgentMode) -> (r: AgentBuilder)
        ensures
            r@ == (AgentBuilderView { mode: mode, ..self@ }),
    {
        let mut r = self;
        r.mode = mode;
        r
    }

    /// Sets the provider of the model.
    pub fn model_provider(self, model_provider: &str) -> (r: AgentBuilder)
        ensures
            r@ == (AgentBuilderView { model_provider: model_provider@, ..self@ }),
    {
        let mut r = self;
        r.model_provider = model_provider.to_owned();
        r
    }

    /// Sets the model.
    pub fn model_name(self, model_name: &str) -> (r: AgentBuilder)
        ensures
            r@ == (AgentBuilderView { model_name: model_name@, ..self@ }),
    {
        let mut r = self;
        r.model_name = model_name.to_owned();
        r
    }

    /// Sets the provider to fall back on.
    pub fn backup_provider(self, backup_provider: &str) -> (r: AgentBuilder)
        ensures
            r@ == (AgentBuilderView { backup_provider: Some(backup_provider@), ..self@ }),
    {
        let mut r = self;
        r.backup_provider = Some(backup_provider.to_owned());
        r
    }

    /// Sets the model to fall back on.
    pub fn backup_model(self, backup_model: &str) -> (r: AgentBuilder)
        ensures
            r@ == (AgentBuilderView { backup_model: Some(backup_model@), ..self@ }),
    {
        let mut r = self;
        r.backup_model = Some(backup_model.to_owned());
        r
    }

    /// Sets the instructions.
    pub fn system_prompt(self, system_prompt: &str) -> (r: AgentBuilder)
        ensures
            r@ == (AgentBuilderView { system_prompt: Some(system_prompt@), ..self@ }),
    {
        let mut r = self;
        r.system_prompt = Some(system_prompt.to_owned());
        r
    }

    /// Sets how many turns the loop may take.
    pub fn max_turns(self, max_turns: u32) -> (r: AgentBuilder)
        ensures
            r@ == (AgentBuilderView { max_turns: Some(max_turns), ..self@ }),
    {
        let mut r = self;
        r.max_turns = Some(max_turns);
        r
    }

    /// Adds a skill.
    pub fn skill(self, skill: &str) -> (r: AgentBuilder)
        ensures
            r@ == (AgentBuilderView { skills: self@.skills.push(skill@), ..self@ }),
    {
        let mut r = self;
        let ghost before = r.skills@;
        let item = skill.to_owned();
        proof {
            lemma_seq_view_push(before, item);
        }
        r.skills.push(item);
        r
    }

    /// Adds a guardrail.
    pub fn guardrail(self, guardrail: Guardrail) -> (r: AgentBuilder)
        ensures
            r@ == (AgentBuilderView { guardrails: self@.guardrails.push(guardrail@), ..self@ }),
    {
        let mut r = self;
        proof {
            lemma_seq_view_push(r.guardrails@, guardrail);
        }
        r.guardrails.push(guardrail);
        r
    }

    /// Sets where an external agent is reached.
    pub fn a2a_endpoint(self, a2a_endpoint: &str) -> (r: AgentBuilder)
        ensures
            r@ == (AgentBuilderView { a2a_endpoint: Some(a2a_endpoint@), ..self@ }),
    {
        let mut r = self;
        r.a2a_endpoint = Some(a2a_endpoint.to_owned());
        r
    }

    /// Adds an ingredient.
    pub fn ingredient(self, ingredient: Ingredient) -> (r: AgentBuilder)
        ensures
            r@ == (AgentBuilderView { ingredients: self@.ingredients.push(ingredient@), ..self@ }),
    {
        let mut r = self;
        proof {
            lemma_seq_view_push(r.ingredients@, ingredient);
        }
        r.ingredients.push(ingredient);
        r
    }

    /// Adds a tag.
    pub fn tag(self, tag: &str) -> (r: AgentBuilder)
        ensures
            r@ == (AgentBuilderView { tags: self@.tags.push(tag@), ..self@ }),
    {
        let mut r = self;
        let ghost before = r.tags@;
        let item = tag.to_owned();
        proof {
            lemma_seq_view_push(before, item);
        }
        r.tags.push(item);
        r
    }

    /// Sets the kitchen.
    pub fn kitchen(self, kitchen: &str) -> (r: AgentBuilder)
        ensures
            r@ == (AgentBuilderView { kitchen_id: Some(kitchen@), ..self@ }),
    {
        let mut r = self;
        r.kitchen_id = Some(kitchen.to_owned());
        r
    }

    /// Sets what is attached.
    pub fn metadata(self, metadata: Json) -> (r: AgentBuilder)
        ensures
            r@ == (AgentBuilderView { metadata: Some(metadata@), ..self@ }),
    {
        let mut r = self;
        r.metadata = Some(metadata);
        r
    }

    /// The agent, as a draft with a given identifier, made at a given time.
    pub fn build_with(self, id: String, now: Timestamp) -> (r: Agent)
        ensures
            r@ == self@.built(id@, now@),
    {
        Agent {
            id,
            name: self.name,
            version: self.version,
            description: self.description,
            framework: self.framework,
            mode: self.mode,
            model_provider: self.model_provider,
            model_name: self.model_name,
            backup_provider: self.backup_provider,
            backup_model: self.backup_model,
            system_prompt: self.system_prompt,
            max_turns: self.max_turns,
            skills: self.skills,
            guardrails: self.guardrails,
            a2a_endpoint: self.a2a_endpoint,
            ingredients: self.ingredients,
            tags: self.tags,
            status: AgentStatus::Draft,
            kitchen_id: self.kitchen_id,
            resolved_config: None,
            created_by: None,
            created_at: now,
            updated_at: now,
            metadata: self.metadata,
        }
    }

    /// The agent, as a draft under a fresh identifier, made at the time
    /// that the clock reads; `None` where the clock gave no reading.
    /// Whether it does is the clock's matter, not the builder's.
    pub fn build(self) -> (r: Option<Agent>)
        ensures
            r matches Some(agent) ==> agent@.id.len() == 36 && agent@ == self@.built(
                agent@.id,
                agent@.created_at,
            ),
    {
        let id = fresh_id();
        match Timestamp::now() {
            Some(now) => Some(self.build_with(id, now)),
            None => None,
        }
    }
}

/// The stage of a guardrail where nothing says it: `pre`.
pub fn default_guardrail_stage() -> (r: String)
    ensures
        r@ == "pre"@,
{
    "pre".to_owned()
}

impl AgentMode {
    /// The mode in words.
    pub fn to_text(&self) -> (r: String)
        ensures
            r@ == self.name(),
    {
        self.as_str().to_owned()
    }
}

impl AgentStatus {
    /// The status as it is shown to readers.
    pub open spec fn label(self) -> Seq<char> {
        match self {
            AgentStatus::Draft => "\u{1f7e1} draft"@,
            AgentStatus::Baking => "\u{1f525} baking"@,
            AgentStatus::Ready => "\u{1f7e2} ready"@,
            AgentStatus::Cooled => "\u{23f8}\u{fe0f}  cooled"@,
            AgentStatus::Burnt => "\u{1f534} burnt"@,
            AgentStatus::Retired => "\u{26ab} retired"@,
        }
    }

    /// The status as it is shown to readers.
    pub fn to_text(&self) -> (r: String)
        ensures
            r@ == self.label(),
    {
        match self {
            AgentStatus::Draft => "\u{1f7e1} draft".to_owned(),
            AgentStatus::Baking => "\u{1f525} baking".to_owned(),
            AgentStatus::Ready => "\u{1f7e2} ready".to_owned(),
            AgentStatus::Cooled => "\u{23f8}\u{fe0f}  cooled".to_owned(),
            AgentStatus::Burnt => "\u{1f534} burnt".to_owned(),
            AgentStatus::Retired => "\u{26ab} retired".to_owned(),
        }
    }
}

impl AgentView {
    /// The name with the version: `name@version`.
    pub open spec fn qualified_name(self) -> Seq<char> {
        self.name + "@"@ + self.version
    }
}

impl Agent {
    /// Starts to build an agent.
    pub fn builder(name: &str) -> (r: AgentBuilder)
        ensures
            r@ == AgentBuilderView::start(name@),
    {
        AgentBuilder::new(name)
    }

    /// The name with the version: `name@version`.
    pub fn qualified_name(&self) -> (r: String)
        ensures
            r@ == self@.qualified_name(),
    {
        let mut out = self.name.clone();
        out.append("@");
        out.append(self.version.as_str());
        out
    }
}

} // verus!
