//! Recipes: workflows in which several agents take their turns, some beside
//! each other, some only after a person has approved.

use crate::ident::fresh_id;
use crate::json::{
    get_bool_or_false, get_opt_text, get_text, key_mark, lemma_object_view, members_view, put,
    put_opt_text, put_text, read_bool_or_false, read_opt_text, read_text, with_opt_text, Json,
    JsonValue,
};
use crate::model::{opt_view, seq_view};
use crate::text::{opt_text, text_eq};
use crate::time::{Instant, Timestamp};
use crate::wire::{
    each_survives, get_list, get_list_or_empty, get_opt_value, get_value, group_lookup,
    lemma_each_round_trip, put_filled_list, put_list, put_opt_value, put_value, read_list,
    read_list_or_empty, read_opt_value, read_value, with_filled_list, with_list, with_opt_value,
    with_value, Wire,
};
use vstd::prelude::*;

verus! {

/// The kind of a step of a recipe.
#[derive(Debug, Clone, Copy, PartialEq, Eq, Structural)]
pub enum StepKind {
    /// Calls an agent by A2A.
    Agent,
    /// Waits for a person to approve.
    HumanGate,
    /// Judges what came before.
    Evaluator,
    /// Chooses a branch.
    Condition,
    /// Splits the work.
    FanOut,
    /// Joins what was split.
    FanIn,
}

impl View for StepKind {
    type V = StepKind;

    open spec fn view(&self) -> StepKind {
        *self
    }
}

impl StepKind {
    /// The name on the wire.
    pub open spec fn name(self) -> Seq<char> {
        match self {
            StepKind::Agent => "agent"@,
            StepKind::HumanGate => "human-gate"@,
            StepKind::Evaluator => "evaluator"@,
            StepKind::Condition => "condition"@,
            StepKind::FanOut => "fan-out"@,
            StepKind::FanIn => "fan-in"@,
        }
    }

    /// What a name stands for.
    pub open spec fn named(name: Seq<char>) -> Option<StepKind> {
        if name == "agent"@ {
            Some(StepKind::Agent)
        } else if name == "human-gate"@ {
            Some(StepKind::HumanGate)
        } else if name == "evaluator"@ {
            Some(StepKind::Evaluator)
        } else if name == "condition"@ {
            Some(StepKind::Condition)
        } else if name == "fan-out"@ {
            Some(StepKind::FanOut)
        } else if name == "fan-in"@ {
            Some(StepKind::FanIn)
        } else {
            None
        }
    }

    /// The name on the wire.
    pub fn as_str(&self) -> (r: &'static str)
        ensures
            r@ == self.name(),
    {
        match self {
            StepKind::Agent => "agent",
            StepKind::HumanGate => "human-gate",
            StepKind::Evaluator => "evaluator",
            StepKind::Condition => "condition",
            StepKind::FanOut => "fan-out",
            StepKind::FanIn => "fan-in",
        }
    }

    /// What a name stands for.
    pub fn from_name(name: &str) -> (r: Option<StepKind>)
        ensures
            r == StepKind::named(name@),
    {
        if text_eq(name, "agent") {
            Some(StepKind::Agent)
        } else if text_eq(name, "human-gate") {
            Some(StepKind::HumanGate)
        } else if text_eq(name, "evaluator") {
            Some(StepKind::Evaluator)
        } else if text_eq(name, "condition") {
            Some(StepKind::Condition)
        } else if text_eq(name, "fan-out") {
            Some(StepKind::FanOut)
        } else if text_eq(name, "fan-in") {
            Some(StepKind::FanIn)
        } else {
            None
        }
    }

    /// Each value is the one that its own name stands for.
    pub proof fn lemma_name_round_trip(v: StepKind)
        ensures
            StepKind::named(v.name()) == Some(v),
    {
        reveal_strlit("agent");
        reveal_strlit("human-gate");
        reveal_strlit("evaluator");
        reveal_strlit("condition");
        reveal_strlit("fan-out");
        reveal_strlit("fan-in");
        assert(key_mark("agent"@) == (5nat, 'a', 'g'));
        assert(key_mark("human-gate"@) == (10nat, 'h', 'u'));
        assert(key_mark("evaluator"@) == (9nat, 'e', 'v'));
        assert(key_mark("condition"@) == (9nat, 'c', 'o'));
        assert(key_mark("fan-out"@) == (7nat, 'f', 'a'));
        assert(key_mark("fan-in"@) == (6nat, 'f', 'a'));
    }
}

impl Wire for StepKind {
    open spec fn encode(v: StepKind) -> JsonValue {
        JsonValue::String(v.name())
    }

    open spec fn decode(j: JsonValue) -> Option<StepKind> {
        match j {
            JsonValue::String(s) => StepKind::named(s),
            _ => None,
        }
    }

    open spec fn survives(v: StepKind) -> bool {
        true
    }

    fn to_json(&self) -> (j: Json) {
        Json::string(self.as_str())
    }

    fn from_json(j: &Json) -> (r: Option<StepKind>) {
        match j.as_str() {
            Some(s) => StepKind::from_name(s),
            None => None,
        }
    }

    proof fn lemma_round_trip(v: StepKind) {
        StepKind::lemma_name_round_trip(v);
    }
}

/// How a step is tried again when it fails.
#[derive(Debug, Clone, PartialEq)]
pub struct RetryPolicy {
    /// How often the step is tried again at most.
    pub max_retries: u32,
    /// How many seconds pass between two tries.
    pub delay_seconds: u32,
    /// Whether the pause doubles from try to try.
    pub exponential_backoff: bool,
}

/// The model of a [`RetryPolicy`].
pub struct RetryPolicyView {
    pub max_retries: u32,
    pub delay_seconds: u32,
    pub exponential_backoff: bool,
}

impl View for RetryPolicy {
    type V = RetryPolicyView;

    open spec fn view(&self) -> RetryPolicyView {
        RetryPolicyView {
            max_retries: self.max_retries@,
            delay_seconds: self.delay_seconds@,
            exponential_backoff: self.exponential_backoff,
        }
    }
}

impl Wire for RetryPolicy {
    open spec fn encode(v: RetryPolicyView) -> JsonValue {
        let m = Seq::empty();
        let m = with_value::<u32>(m, "max_retries"@, v.max_retries);
        let m = with_value::<u32>(m, "delay_seconds"@, v.delay_seconds);
        let m = m.push(("exponential_backoff"@, JsonValue::Bool(v.exponential_backoff)));
        JsonValue::Object(m)
    }

    open spec fn decode(j: JsonValue) -> Option<RetryPolicyView> {
        match j {
            JsonValue::Object(m) => {
                let max_retries = read_value::<u32>(m, "max_retries"@);
                let delay_seconds = read_value::<u32>(m, "delay_seconds"@);
                let exponential_backoff = read_bool_or_false(m, "exponential_backoff"@);
                if max_retries is Some && delay_seconds is Some && exponential_backoff is Some {
                    Some(
                        RetryPolicyView {
                            max_retries: max_retries.unwrap(),
                            delay_seconds: delay_seconds.unwrap(),
                            exponential_backoff: exponential_backoff.unwrap(),
                        },
                    )
                } else {
                    None
                }
            },
            _ => None,
        }
    }

    open spec fn survives(v: RetryPolicyView) -> bool {
        &&& u32::survives(v.max_retries)
        &&& u32::survives(v.delay_seconds)
    }

    fn to_json(&self) -> (j: Json) {
        let mut members: Vec<(String, Json)> = Vec::new();
        proof {
            assert(members_view(members@) =~= Seq::empty());
        }
        put_value(&mut members, "max_retries", &self.max_retries);
        put_value(&mut members, "delay_seconds", &self.delay_seconds);
        put(&mut members, "exponential_backoff", Json::Bool(self.exponential_backoff));
        proof {
            lemma_object_view(members);
        }
        Json::Object(members)
    }

    fn from_json(j: &Json) -> (r: Option<RetryPolicy>) {
        let members = j.as_object()?;
        let max_retries = get_value::<u32>(members, "max_retries")?;
        let delay_seconds = get_value::<u32>(members, "delay_seconds")?;
        let exponential_backoff = get_bool_or_false(members, "exponential_backoff")?;
        Some(RetryPolicy { max_retries, delay_seconds, exponential_backoff })
    }

    proof fn lemma_round_trip(v: RetryPolicyView) {
        broadcast use group_lookup;

        reveal_strlit("max_retries");
        reveal_strlit("delay_seconds");
        reveal_strlit("exponential_backoff");
        assert(key_mark("max_retries"@) == (11nat, 'm', 'a'));
        assert(key_mark("delay_seconds"@) == (13nat, 'd', 'e'));
        assert(key_mark("exponential_backoff"@) == (19nat, 'e', 'x'));
        u32::lemma_round_trip(v.max_retries);
        u32::lemma_round_trip(v.delay_seconds);
        let m = Self::encode(v)->Object_0;
        assert(read_value::<u32>(m, "max_retries"@) == Some(v.max_retries));
        assert(read_value::<u32>(m, "delay_seconds"@) == Some(v.delay_seconds));
        assert(read_bool_or_false(m, "exponential_backoff"@) == Some(v.exponential_backoff));
    }
}

/// A step of a recipe: a call of an agent, or a gate that a person opens.
#[derive(Debug, Clone, PartialEq)]
pub struct Step {
    /// The step's identifier, which no other step of the recipe has.
    pub id: String,
    /// A name for readers.
    pub name: String,
    /// The kind of step.
    pub kind: StepKind,
    /// The agent to call.
    pub agent: Option<String>,
    /// Whether the step may run beside the one before it.
    pub parallel: bool,
    /// How long the step may take, such as `30s`.
    pub timeout: Option<String>,
    /// The steps that have to be done first.
    pub depends_on: Vec<String>,
    /// How the step is tried again.
    pub retry: Option<RetryPolicy>,
    /// Whom to tell when a gate waits.
    pub notify: Vec<String>,
    /// Settings of the step.
    pub config: Option<Json>,
}

/// The model of a [`Step`].
pub struct StepView {
    pub id: Seq<char>,
    pub name: Seq<char>,
    pub kind: StepKind,
    pub agent: Option<Seq<char>>,
    pub parallel: bool,
    pub timeout: Option<Seq<char>>,
    pub depends_on: Seq<Seq<char>>,
    pub retry: Option<RetryPolicyView>,
    pub notify: Seq<Seq<char>>,
    pub config: Option<JsonValue>,
}

impl View for Step {
    type V = StepView;

    open spec fn view(&self) -> StepView {
        StepView {
            id: self.id@,
            name: self.name@,
            kind: self.kind@,
            agent: opt_text(self.agent),
            parallel: self.parallel,
            timeout: opt_text(self.timeout),
            depends_on: seq_view(self.depends_on@),
            retry: opt_view(self.retry),
            notify: seq_view(self.notify@),
            config: opt_view(self.config),
        }
    }
}

impl Wire for Step {
    open spec fn encode(v: StepView) -> JsonValue {
        let m = Seq::empty();
        let m = m.push(("id"@, JsonValue::String(v.id)));
        let m = m.push(("name"@, JsonValue::String(v.name)));
        let m = with_value::<StepKind>(m, "kind"@, v.kind);
        let m = with_opt_text(m, "agent"@, v.agent);
        let m = m.push(("parallel"@, JsonValue::Bool(v.parallel)));
        let m = with_opt_text(m, "timeout"@, v.timeout);
        let m = with_filled_list::<String>(m, "depends_on"@, v.depends_on);
        let m = with_opt_value::<RetryPolicy>(m, "retry"@, v.retry);
        let m = with_filled_list::<String>(m, "notify"@, v.notify);
        let m = with_opt_value::<Json>(m, "config"@, v.config);
        JsonValue::Object(m)
    }

    open spec fn decode(j: JsonValue) -> Option<StepView> {
        match j {
            JsonValue::Object(m) => {
                let id = read_text(m, "id"@);
                let name = read_text(m, "name"@);
                let kind = read_value::<StepKind>(m, "kind"@);
                let agent = read_opt_text(m, "agent"@);
                let parallel = read_bool_or_false(m, "parallel"@);
                let timeout = read_opt_text(m, "timeout"@);
                let depends_on = read_list_or_empty::<String>(m, "depends_on"@);
                let retry = read_opt_value::<RetryPolicy>(m, "retry"@);
                let notify = read_list_or_empty::<String>(m, "notify"@);
                let config = read_opt_value::<Json>(m, "config"@);
                if id is Some
                    && name is Some
                    && kind is Some
                    && agent is Some
                    && parallel is Some
                    && timeout is Some
                    && depends_on is Some
                    && retry is Some
                    && notify is Some
                    && config is Some
                {
                    Some(
                        StepView {
                            id: id.unwrap(),
                            name: name.unwrap(),
                            kind: kind.unwrap(),
                            agent: agent.unwrap(),
                            parallel: parallel.unwrap(),
                            timeout: timeout.unwrap(),
                            depends_on: depends_on.unwrap(),
                            retry: retry.unwrap(),
                            notify: notify.unwrap(),
                            config: config.unwrap(),
                        },
                    )
                } else {
                    None
                }
            },
            _ => None,
        }
    }

    open spec fn survives(v: StepView) -> bool {
        &&& StepKind::survives(v.kind)
        &&& (v.retry matches Some(x) ==> RetryPolicy::survives(x))
        &&& v.config != Some(JsonValue::Null)
    }

    fn to_json(&self) -> (j: Json) {
        let mut members: Vec<(String, Json)> = Vec::new();
        proof {
            assert(members_view(members@) =~= Seq::empty());
        }
        put_text(&mut members, "id", self.id.as_str());
        put_text(&mut members, "name", self.name.as_str());
        put_value(&mut members, "kind", &self.kind);
        put_opt_text(&mut members, "agent", &self.agent);
        put(&mut members, "parallel", Json::Bool(self.parallel));
        put_opt_text(&mut members, "timeout", &self.timeout);
        put_filled_list(&mut members, "depends_on", &self.depends_on);
        put_opt_value(&mut members, "retry", &self.retry);
        put_filled_list(&mut members, "notify", &self.notify);
        put_opt_value(&mut members, "config", &self.config);
        proof {
            lemma_object_view(members);
        }
        Json::Object(members)
    }

    fn from_json(j: &Json) -> (r: Option<Step>) {
        let members = j.as_object()?;
        let id = get_text(members, "id")?;
        let name = get_text(members, "name")?;
        let kind = get_value::<StepKind>(members, "kind")?;
        let agent = get_opt_text(members, "agent")?;
        let parallel = get_bool_or_false(members, "parallel")?;
        let timeout = get_opt_text(members, "timeout")?;
        let depends_on = get_list_or_empty::<String>(members, "depends_on")?;
        let retry = get_opt_value::<RetryPolicy>(members, "retry")?;
        let notify = get_list_or_empty::<String>(members, "notify")?;
        let config = get_opt_value::<Json>(members, "config")?;
        Some(Step { id, name, kind, agent, parallel, timeout, depends_on, retry, notify, config })
    }

    proof fn lemma_round_trip(v: StepView) {
        broadcast use group_lookup;

        reveal_strlit("id");
        reveal_strlit("name");
        reveal_strlit("kind");
        reveal_strlit("agent");
        reveal_strlit("parallel");
        reveal_strlit("timeout");
        reveal_strlit("depends_on");
        reveal_strlit("retry");
        reveal_strlit("notify");
        reveal_strlit("config");
        assert(key_mark("id"@) == (2nat, 'i', 'd'));
        assert(key_mark("name"@) == (4nat, 'n', 'a'));
        assert(key_mark("kind"@) == (4nat, 'k', 'i'));
        assert(key_mark("agent"@) == (5nat, 'a', 'g'));
        assert(key_mark("parallel"@) == (8nat, 'p', 'a'));
        assert(key_mark("timeout"@) == (7nat, 't', 'i'));
        assert(key_mark("depends_on"@) == (10nat, 'd', 'e'));
        assert(key_mark("retry"@) == (5nat, 'r', 'e'));
        assert(key_mark("notify"@) == (6nat, 'n', 'o'));
        assert(key_mark("config"@) == (6nat, 'c', 'o'));
        StepKind::lemma_round_trip(v.kind);
        assert(each_survives::<String>(v.depends_on));
        lemma_each_round_trip::<String>(v.depends_on);
        if v.retry is Some {
            RetryPolicy::lemma_round_trip(v.retry.unwrap());
        }
        assert(each_survives::<String>(v.notify));
        lemma_each_round_trip::<String>(v.notify);
        let m = Self::encode(v)->Object_0;
        assert(read_text(m, "id"@) == Some(v.id));
        assert(read_text(m, "name"@) == Some(v.name));
        assert(read_value::<StepKind>(m, "kind"@) == Some(v.kind));
        assert(read_opt_text(m, "agent"@) == Some(v.agent));
        assert(read_bool_or_false(m, "parallel"@) == Some(v.parallel));
        assert(read_opt_text(m, "timeout"@) == Some(v.timeout));
        assert(read_list_or_empty::<String>(m, "depends_on"@) == Some(v.depends_on));
        assert(read_opt_value::<RetryPolicy>(m, "retry"@) == Some(v.retry));
        assert(read_list_or_empty::<String>(m, "notify"@) == Some(v.notify));
        assert(read_opt_value::<Json>(m, "config"@) == Some(v.config));
    }
}

/// A recipe: a workflow of several agents.
#[derive(Debug, Clone, PartialEq)]
pub struct Recipe {
    /// The recipe's identifier.
    pub id: String,
    /// A name for readers.
    pub name: String,
    /// What the recipe does.
    pub description: String,
    /// The version of the recipe.
    pub version: String,
    /// The steps, in order.
    pub steps: Vec<Step>,
    /// When the recipe was made.
    pub created_at: Timestamp,
    /// What is attached to the recipe.
    pub metadata: Option<Json>,
}

/// The model of a [`Recipe`].
pub struct RecipeView {
    pub id: Seq<char>,
    pub name: Seq<char>,
    pub description: Seq<char>,
    pub version: Seq<char>,
    pub steps: Seq<StepView>,
    pub created_at: Instant,
    pub metadata: Option<JsonValue>,
}

impl View for Recipe {
    type V = RecipeView;

    open spec fn view(&self) -> RecipeView {
        RecipeView {
            id: self.id@,
            name: self.name@,
            description: self.description@,
            version: self.version@,
            steps: seq_view(self.steps@),
            created_at: self.created_at@,
            metadata: opt_view(self.metadata),
        }
    }
}

impl Wire for Recipe {
    open spec fn encode(v: RecipeView) -> JsonValue {
        let m = Seq::empty();
        let m = m.push(("id"@, JsonValue::String(v.id)));
        let m = m.push(("name"@, JsonValue::String(v.name)));
        let m = m.push(("description"@, JsonValue::String(v.description)));
        let m = m.push(("version"@, JsonValue::String(v.version)));
        let m = with_list::<Step>(m, "steps"@, v.steps);
        let m = with_value::<Timestamp>(m, "created_at"@, v.created_at);
        let m = with_opt_value::<Json>(m, "metadata"@, v.metadata);
        JsonValue::Object(m)
    }

    open spec fn decode(j: JsonValue) -> Option<RecipeView> {
        match j {
            JsonValue::Object(m) => {
                let id = read_text(m, "id"@);
                let name = read_text(m, "name"@);
                let description = read_text(m, "description"@);
                let version = read_text(m, "version"@);
                let steps = read_list::<Step>(m, "steps"@);
                let created_at = read_value::<Timestamp>(m, "created_at"@);
                let metadata = read_opt_value::<Json>(m, "metadata"@);
                if id is Some
                    && name is Some
                    && description is Some
                    && version is Some
                    && steps is Some
                    && created_at is Some
                    && metadata is Some
                {
                    Some(
                        RecipeView {
                            id: id.unwrap(),
                            name: name.unwrap(),
                            description: description.unwrap(),
                            version: version.unwrap(),
                            steps: steps.unwrap(),
                            created_at: created_at.unwrap(),
                            metadata: metadata.unwrap(),
                        },
                    )
                } else {
                    None
                }
            },
            _ => None,
        }
    }

    open spec fn survives(v: RecipeView) -> bool {
        &&& each_survives::<Step>(v.steps)
        &&& Timestamp::survives(v.created_at)
        &&& v.metadata != Some(JsonValue::Null)
    }

    fn to_json(&self) -> (j: Json) {
        let mut members: Vec<(String, Json)> = Vec::new();
        proof {
            assert(members_view(members@) =~= Seq::empty());
        }
        put_text(&mut members, "id", self.id.as_str());
        put_text(&mut members, "name", self.name.as_str());
        put_text(&mut members, "description", self.description.as_str());
        put_text(&mut members, "version", self.version.as_str());
        put_list(&mut members, "steps", &self.steps);
        put_value(&mut members, "created_at", &self.created_at);
        put_opt_value(&mut members, "metadata", &self.metadata);
        proof {
            lemma_object_view(members);
        }
        Json::Object(members)
    }

    fn from_json(j: &Json) -> (r: Option<Recipe>) {
        let members = j.as_object()?;
        let id = get_text(members, "id")?;
        let name = get_text(members, "name")?;
        let description = get_text(members, "description")?;
        let version = get_text(members, "version")?;
        let steps = get_list::<Step>(members, "steps")?;
        let created_at = get_value::<Timestamp>(members, "created_at")?;
        let metadata = get_opt_value::<Json>(members, "metadata")?;
        Some(Recipe { id, name, description, version, steps, created_at, metadata })
    }

    proof fn lemma_round_trip(v: RecipeView) {
        broadcast use group_lookup;

        reveal_strlit("id");
        reveal_strlit("name");
        reveal_strlit("description");
        reveal_strlit("version");
        reveal_strlit("steps");
        reveal_strlit("created_at");
        reveal_strlit("metadata");
        assert(key_mark("id"@) == (2nat, 'i', 'd'));
        assert(key_mark("name"@) == (4nat, 'n', 'a'));
        assert(key_mark("description"@) == (11nat, 'd', 'e'));
        assert(key_mark("version"@) == (7nat, 'v', 'e'));
        assert(key_mark("steps"@) == (5nat, 's', 't'));
        assert(key_mark("created_at"@) == (10nat, 'c', 'r'));
        assert(key_mark("metadata"@) == (8nat, 'm', 'e'));
        assert(each_survives::<Step>(v.steps));
        lemma_each_round_trip::<Step>(v.steps);
        Timestamp::lemma_round_trip(v.created_at);
        let m = Self::encode(v)->Object_0;
        assert(read_text(m, "id"@) == Some(v.id));
        assert(read_text(m, "name"@) == Some(v.name));
        assert(read_text(m, "description"@) == Some(v.description));
        assert(read_text(m, "version"@) == Some(v.version));
        assert(read_list::<Step>(m, "steps"@) == Some(v.steps));
        assert(read_value::<Timestamp>(m, "created_at"@) == Some(v.created_at));
        assert(read_opt_value::<Json>(m, "metadata"@) == Some(v.metadata));
    }
}

impl StepView {
    /// A step with a given identifier, name and kind, and nothing else set.
    pub open spec fn plain(
        id: Seq<char>,
        name: Seq<char>,
        kind: StepKind,
        agent: Option<Seq<char>>,
        notify: Seq<Seq<char>>,
    ) -> StepView {
        StepView {
            id,
            name,
            kind,
            agent,
            parallel: false,
            timeout: None,
            depends_on: Seq::empty(),
            retry: None,
            notify,
            config: None,
        }
    }
}

impl Step {
    /// A step with a given identifier, name and kind, and nothing else set.
    pub fn plain(id: String, name: &str, kind: StepKind, agent: Option<String>, notify: Vec<String>) -> (r:
        Step)
        ensures
            r@ == StepView::plain(id@, name@, kind, opt_text(agent), seq_view(notify@)),
    {
        let r = Step {
            id,
            name: name.to_owned(),
            kind,
            agent,
            parallel: false,
            timeout: None,
            depends_on: Vec::new(),
            retry: None,
            notify,
            config: None,
        };
        proof {
            assert(seq_view(r.depends_on@) =~= Seq::empty());
        }
        r
    }

    /// A step that calls an agent, under a fresh identifier.
    pub fn agent(name: &str, agent_ref: &str) -> (r: Step)
        ensures
            r@.id.len() == 36,
            r@ == StepView::plain(r@.id, name@, StepKind::Agent, Some(agent_ref@), Seq::empty()),
    {
        let notify: Vec<String> = Vec::new();
        proof {
            assert(seq_view(notify@) =~= Seq::empty());
        }
        Step::plain(fresh_id(), name, StepKind::Agent, Some(agent_ref.to_owned()), notify)
    }

    /// A gate that waits for a person, under a fresh identifier.
    pub fn human_gate(name: &str, notify: Vec<String>) -> (r: Step)
        ensures
            r@.id.len() == 36,
            r@ == StepView::plain(r@.id, name@, StepKind::HumanGate, None, seq_view(notify@)),
    {
        Step::plain(fresh_id(), name, StepKind::HumanGate, None, notify)
    }

    /// A step that judges what came before, under a fresh identifier.
    pub fn evaluator(name: &str, agent_ref: &str) -> (r: Step)
        ensures
            r@.id.len() == 36,
            r@ == StepView::plain(
                r@.id,
                name@,
                StepKind::Evaluator,
                Some(agent_ref@),
                Seq::empty(),
            ),
    {
        let notify: Vec<String> = Vec::new();
        proof {
            assert(seq_view(notify@) =~= Seq::empty());
        }
        Step::plain(fresh_id(), name, StepKind::Evaluator, Some(agent_ref.to_owned()), notify)
    }

    /// The step, allowed to run beside the one before it.
    pub fn with_parallel(self) -> (r: Step)
        ensures
            r@ == (StepView { parallel: true, ..self@ }),
    {
        let mut r = self;
        r.parallel = true;
        r
    }

    /// The step with a limit on its time.
    pub fn with_timeout(self, timeout: &str) -> (r: Step)
        ensures
            r@ == (StepView { timeout: Some(timeout@), ..self@ }),
    {
        let mut r = self;
        r.timeout = Some(timeout.to_owned());
        r
    }

    /// The step with the steps that have to be done first.
    pub fn with_depends_on(self, deps: Vec<String>) -> (r: Step)
        ensures
            r@ == (StepView { depends_on: seq_view(deps@), ..self@ }),
    {
        let mut r = self;
        r.depends_on = deps;
        r
    }
}

impl RecipeView {
    /// A recipe with a name and steps: version `0.1.0`, no description.
    pub open spec fn plain(id: Seq<char>, name: Seq<char>, steps: Seq<StepView>, now: Instant) -> RecipeView {
        RecipeView {
            id,
            name,
            description: Seq::empty(),
            version: "0.1.0"@,
            steps,
            created_at: now,
            metadata: None,
        }
    }
}

impl Recipe {
    /// A recipe with a given identifier, made at a given time.
    pub fn plain(id: String, name: &str, steps: Vec<Step>, now: Timestamp) -> (r: Recipe)
        ensures
            r@ == RecipeView::plain(id@, name@, seq_view(steps@), now@),
    {
        Recipe {
            id,
            name: name.to_owned(),
            description: String::new(),
            version: "0.1.0".to_owned(),
            steps,
            created_at: now,
            metadata: None,
        }
    }

    /// A recipe under a fresh identifier, made at the time that the clock
    /// reads; `None` where the clock gave no reading. Whether it does is
    /// the clock's matter, not the recipe's.
    pub fn new(name: &str, steps: Vec<Step>) -> (r: Option<Recipe>)
        ensures
            r matches Some(recipe) ==> recipe@.id.len() == 36 && recipe@ == RecipeView::plain(
                recipe@.id,
                name@,
                seq_view(steps@),
                recipe@.created_at,
            ),
    {
        let id = fresh_id();
        match Timestamp::now() {
            Some(now) => Some(Recipe::plain(id, name, steps, now)),
            None => None,
        }
    }
}

} // verus!
