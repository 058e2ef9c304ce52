//! The plain records that the bindings for other languages hand over, and
//! the bodies that the control plane takes for them.

use crate::json::{
    find_member, items_view, lemma_array_view, lemma_object_view, lookup, members_view, parsed,
    put, put_text, Json, JsonValue, Members,
};
use crate::model::seq_view;
use crate::oven::AgentOvenClient;
use crate::text::opt_text;
use crate::wire::{encode_each, list_to_json};
use vstd::prelude::*;

verus! {

/// What kind of thing an ingredient is.
#[derive(Debug, Clone, Copy, PartialEq, Eq, Structural)]
pub enum IngredientKind {
    Model,
    Tool,
    Prompt,
    Data,
}

impl IngredientKind {
    /// The name of the kind on the wire.
    pub open spec fn name(self) -> Seq<char> {
        match self {
            IngredientKind::Model => "model"@,
            IngredientKind::Tool => "tool"@,
            IngredientKind::Prompt => "prompt"@,
            IngredientKind::Data => "data"@,
        }
    }

    /// The name of the kind on the wire.
    pub fn as_str(&self) -> (r: &'static str)
        ensures
            r@ == self.name(),
    {
        match self {
            IngredientKind::Model => "model",
            IngredientKind::Tool => "tool",
            IngredientKind::Prompt => "prompt",
            IngredientKind::Data => "data",
        }
    }
}

/// An ingredient of an agent, as a binding holds it.
#[derive(Debug, Clone, PartialEq)]
pub struct Ingredient {
    /// What kind of thing it is.
    pub kind: IngredientKind,
    /// Its name; for a model, the model's name.
    pub name: String,
    /// Who provides it.
    pub provider: Option<String>,
    /// The part it plays.
    pub role: Option<String>,
    /// The protocol by which a tool is reached.
    pub protocol: Option<String>,
    /// Whether the agent cannot do without it.
    pub required: bool,
    /// Its settings, as the text of a JSON object.
    pub config: Option<String>,
}

/// The model of an [`Ingredient`].
pub struct IngredientView {
    pub kind: IngredientKind,
    pub name: Seq<char>,
    pub provider: Option<Seq<char>>,
    pub role: Option<Seq<char>>,
    pub protocol: Option<Seq<char>>,
    pub required: bool,
    pub config: Option<Seq<char>>,
}

impl View for Ingredient {
    type V = IngredientView;

    open spec fn view(&self) -> IngredientView {
        IngredientView {
            kind: self.kind,
            name: self.name@,
            provider: opt_text(self.provider),
            role: opt_text(self.role),
            protocol: opt_text(self.protocol),
            required: self.required,
            config: opt_text(self.config),
        }
    }
}

/// An agent, as a binding holds it.
#[derive(Debug, Clone, PartialEq)]
pub struct Agent {
    pub name: String,
    pub description: String,
    pub framework: String,
    pub version: String,
    /// The provider of the agent's model; empty where none is named.
    pub model_provider: String,
    /// The name of the agent's model; empty where none is named.
    pub model_name: String,
    /// How the agent is run; empty where nothing is said.
    pub mode: String,
    pub system_prompt: Option<String>,
    pub ingredients: Vec<Ingredient>,
}

/// The model of an [`Agent`].
pub struct AgentView {
    pub name: Seq<char>,
    pub description: Seq<char>,
    pub framework: Seq<char>,
    pub version: Seq<char>,
    pub model_provider: Seq<char>,
    pub model_name: Seq<char>,
    pub mode: Seq<char>,
    pub system_prompt: Option<Seq<char>>,
    pub ingredients: Seq<IngredientView>,
}

impl View for Agent {
    type V = AgentView;

    open spec fn view(&self) -> AgentView {
        AgentView {
            name: self.name@,
            description: self.description@,
            framework: self.framework@,
            version: self.version@,
            model_provider: self.model_provider@,
            model_name: self.model_name@,
            mode: self.mode@,
            system_prompt: opt_text(self.system_prompt),
            ingredients: seq_view(self.ingredients@),
        }
    }
}

/// A step of a recipe, as a binding holds it.
#[derive(Debug, Clone, PartialEq)]
pub struct Step {
    pub name: String,
    pub kind: String,
    /// The agent that takes the step.
    pub agent: Option<String>,
    pub parallel: bool,
    pub timeout: Option<String>,
    /// Whether a person has to let the step pass.
    pub human_gate: bool,
    pub notify: Vec<String>,
    pub depends_on: Vec<String>,
}

/// The model of a [`Step`].
pub struct StepView {
    pub name: Seq<char>,
    pub kind: Seq<char>,
    pub agent: Option<Seq<char>>,
    pub parallel: bool,
    pub timeout: Option<Seq<char>>,
    pub human_gate: bool,
    pub notify: Seq<Seq<char>>,
    pub depends_on: Seq<Seq<char>>,
}

impl View for Step {
    type V = StepView;

    open spec fn view(&self) -> StepView {
        StepView {
            name: self.name@,
            kind: self.kind@,
            agent: opt_text(self.agent),
            parallel: self.parallel,
            timeout: opt_text(self.timeout),
            human_gate: self.human_gate,
            notify: seq_view(self.notify@),
            depends_on: seq_view(self.depends_on@),
        }
    }
}

/// A recipe, as a binding holds it.
#[derive(Debug, Clone, PartialEq)]
pub struct Recipe {
    pub name: String,
    pub description: String,
    pub version: String,
    pub steps: Vec<Step>,
}

/// The model of a [`Recipe`].
pub struct RecipeView {
    pub name: Seq<char>,
    pub description: Seq<char>,
    pub version: Seq<char>,
    pub steps: Seq<StepView>,
}

impl View for Recipe {
    type V = RecipeView;

    open spec fn view(&self) -> RecipeView {
        RecipeView {
            name: self.name@,
            description: self.description@,
            version: self.version@,
            steps: seq_view(self.steps@),
        }
    }
}

// ---------------------------------------------------------------------
// Ingredients
// ---------------------------------------------------------------------

/// The members that there are, or none.
pub open spec fn or_none(members: Option<Members>) -> Members {
    match members {
        Some(m) => m,
        None => Seq::empty(),
    }
}

/// `members` with a string under `key`, where the string is not empty and
/// the key is not taken.
pub open spec fn with_absent(members: Members, key: Seq<char>, text: Seq<char>) -> Members {
    if text.len() > 0 && lookup(members, key) is None {
        members.push((key, JsonValue::String(text)))
    } else {
        members
    }
}

/// The settings that an ingredient states itself: its protocol, and then
/// the members of its `config` where that is the text of a JSON object.
/// There are none where it states neither.
pub open spec fn stated_config(ingredient: IngredientView) -> Option<Members> {
    let protocol = match ingredient.protocol {
        Some(p) => Some(seq![("protocol"@, JsonValue::String(p))]),
        None => None,
    };
    match ingredient.config {
        Some(text) => match parsed(text) {
            Some(JsonValue::Object(more)) => Some(or_none(protocol) + more),
            _ => protocol,
        },
        None => protocol,
    }
}

/// The settings of an ingredient on the wire. A model has settings in any
/// case: where they name no provider, the ingredient's provider or else
/// the agent's is added; where they name no model, the ingredient's name
/// or else the agent's model; an empty name is never added.
pub open spec fn ingredient_config(agent: AgentView, ingredient: IngredientView) -> Option<
    Members,
> {
    if ingredient.kind == IngredientKind::Model {
        let provider = match ingredient.provider {
            Some(p) => p,
            None => agent.model_provider,
        };
        let model = if ingredient.name.len() == 0 {
            agent.model_name
        } else {
            ingredient.name
        };
        Some(
            with_absent(
                with_absent(or_none(stated_config(ingredient)), "provider"@, provider),
                "model"@,
                model,
            ),
        )
    } else {
        stated_config(ingredient)
    }
}

/// An ingredient on the wire.
pub open spec fn ingredient_json(agent: AgentView, ingredient: IngredientView) -> JsonValue {
    let m = seq![
        ("kind"@, JsonValue::String(ingredient.kind.name())),
        ("name"@, JsonValue::String(ingredient.name)),
        ("required"@, JsonValue::Bool(ingredient.required)),
    ];
    let m = match ingredient.provider {
        Some(p) => m.push(("provider"@, JsonValue::String(p))),
        None => m,
    };
    let m = match ingredient.role {
        Some(r) => m.push(("role"@, JsonValue::String(r))),
        None => m,
    };
    let m = match ingredient_config(agent, ingredient) {
        Some(config) => m.push(("config"@, JsonValue::Object(config))),
        None => m,
    };
    JsonValue::Object(m)
}

/// Adds copies of some members at the end of others.
fn add_members(target: &mut Vec<(String, Json)>, more: &Vec<(String, Json)>)
    ensures
        members_view(final(target)@) == members_view(old(target)@) + members_view(more@),
{
    let ghost start = members_view(target@);
    let mut i: usize = 0;
    proof {
        assert(members_view(more@).take(0) =~= Seq::empty());
        assert(start + Seq::<(Seq<char>, JsonValue)>::empty() =~= start);
    }
    while i < more.len()
        invariant
            i <= more.len(),
            members_view(target@) == start + members_view(more@).take(i as int),
        decreases more.len() - i,
    {
        put(target, more[i].0.as_str(), more[i].1.duplicate());
        proof {
            assert(members_view(more@).take(i + 1) =~= members_view(more@).take(i as int).push(
                members_view(more@)[i as int],
            ));
            assert(members_view(target@) =~= start + members_view(more@).take(i + 1));
        }
        i = i + 1;
    }
    proof {
        assert(members_view(more@).take(more.len() as int) =~= members_view(more@));
    }
}

/// Adds a string under `key`, where the string is not empty and the key is
/// not taken.
fn put_absent(members: &mut Vec<(String, Json)>, key: &str, text: &str)
    ensures
        members_view(final(members)@) == with_absent(members_view(old(members)@), key@, text@),
{
    if !text.is_empty() && find_member(members, key).is_none() {
        put_text(members, key, text);
    }
}

/// The model of optional members.
pub open spec fn opt_members(members: Option<Vec<(String, Json)>>) -> Option<Members> {
    match members {
        Some(m) => Some(members_view(m@)),
        None => None,
    }
}

/// The settings that an ingredient states itself.
fn stated_settings(ingredient: &Ingredient) -> (r: Option<Vec<(String, Json)>>)
    ensures
        opt_members(r) == stated_config(ingredient@),
{
    let protocol: Option<Vec<(String, Json)>> = match &ingredient.protocol {
        Some(p) => {
            let mut members: Vec<(String, Json)> = Vec::new();
            put_text(&mut members, "protocol", p.as_str());
            proof {
                assert(members_view(members@) =~= seq![("protocol"@, JsonValue::String(p@))]);
            }
            Some(members)
        },
        None => None,
    };
    match &ingredient.config {
        Some(text) => match Json::parse(text.as_str()) {
            Ok(Json::Object(more)) => {
                proof {
                    lemma_object_view(more);
                }
                let mut members: Vec<(String, Json)> = match protocol {
                    Some(m) => m,
                    None => {
                        let empty: Vec<(String, Json)> = Vec::new();
                        assert(members_view(empty@) =~= Seq::empty());
                        empty
                    },
                };
                add_members(&mut members, &more);
                Some(members)
            },
            _ => protocol,
        },
        None => protocol,
    }
}

/// The settings of an ingredient on the wire.
fn settings(agent: &Agent, ingredient: &Ingredient) -> (r: Option<Vec<(String, Json)>>)
    ensures
        opt_members(r) == ingredient_config(agent@, ingredient@),
{
    let stated = stated_settings(ingredient);
    match ingredient.kind {
        IngredientKind::Model => {
            let provider: &str = match &ingredient.provider {
                Some(p) => p.as_str(),
                None => agent.model_provider.as_str(),
            };
            let model: &str = if ingredient.name.as_str().is_empty() {
                agent.model_name.as_str()
            } else {
                ingredient.name.as_str()
            };
            let mut members: Vec<(String, Json)> = match stated {
                Some(m) => m,
                None => {
                    let empty: Vec<(String, Json)> = Vec::new();
                    assert(members_view(empty@) =~= Seq::empty());
                    empty
                },
            };
            put_absent(&mut members, "provider", provider);
            put_absent(&mut members, "model", model);
            Some(members)
        },
        _ => stated,
    }
}

/// Writes an ingredient as the control plane takes it.
pub fn ingredient_to_json(agent: &Agent, ingredient: &Ingredient) -> (r: Json)
    ensures
        r@ == ingredient_json(agent@, ingredient@),
{
    let mut members: Vec<(String, Json)> = Vec::new();
    put_text(&mut members, "kind", ingredient.kind.as_str());
    put_text(&mut members, "name", ingredient.name.as_str());
    put(&mut members, "required", Json::Bool(ingredient.required));
    proof {
        assert(members_view(members@) =~= seq![
            ("kind"@, JsonValue::String(ingredient@.kind.name())),
            ("name"@, JsonValue::String(ingredient@.name)),
            ("required"@, JsonValue::Bool(ingredient@.required)),
        ]);
    }
    match &ingredient.provider {
        Some(p) => {
            put_text(&mut members, "provider", p.as_str());
        },
        None => {},
    }
    match &ingredient.role {
        Some(r) => {
            put_text(&mut members, "role", r.as_str());
        },
        None => {},
    }
    match settings(agent, ingredient) {
        Some(config) => {
            proof {
                lemma_object_view(config);
            }
            put(&mut members, "config", Json::Object(config));
        },
        None => {},
    }
    proof {
        lemma_object_view(members);
    }
    Json::Object(members)
}

// ---------------------------------------------------------------------
// Agents
// ---------------------------------------------------------------------

/// Whether one of the ingredients is a prompt.
pub open spec fn has_prompt(ingredients: Seq<IngredientView>) -> bool {
    exists|i: int| 0 <= i < ingredients.len() && (#[trigger] ingredients[i]).kind
        == IngredientKind::Prompt
}

/// The ingredients of an agent on the wire, one for one.
pub open spec fn ingredient_trees(agent: AgentView) -> Seq<JsonValue> {
    Seq::new(agent.ingredients.len(), |i: int| ingredient_json(agent, agent.ingredients[i]))
}

/// The ingredient that stands for an agent's system prompt.
pub open spec fn prompt_ingredient(text: Seq<char>) -> JsonValue {
    JsonValue::Object(
        seq![
            ("name"@, JsonValue::String("system-prompt"@)),
            ("kind"@, JsonValue::String("prompt"@)),
            ("config"@, JsonValue::Object(seq![("text"@, JsonValue::String(text))])),
            ("required"@, JsonValue::Bool(true)),
        ],
    )
}

/// The ingredients that the control plane is told of: those of the agent,
/// and one more for its system prompt, where that is not empty and no
/// ingredient is a prompt already.
pub open spec fn told_ingredients(agent: AgentView) -> Seq<JsonValue> {
    match agent.system_prompt {
        Some(text) => if text.len() > 0 && !has_prompt(agent.ingredients) {
            ingredient_trees(agent).push(prompt_ingredient(text))
        } else {
            ingredient_trees(agent)
        },
        None => ingredient_trees(agent),
    }
}

/// `members` with a string under `key`, where the string is not empty.
pub open spec fn with_filled(members: Members, key: Seq<char>, text: Seq<char>) -> Members {
    if text.len() > 0 {
        members.push((key, JsonValue::String(text)))
    } else {
        members
    }
}

/// An agent as the control plane takes it: its name, description,
/// framework, version and ingredients, and its mode, its model's provider
/// and its model's name where they are not empty.
pub open spec fn agent_json(agent: AgentView) -> JsonValue {
    let m = seq![
        ("name"@, JsonValue::String(agent.name)),
        ("description"@, JsonValue::String(agent.description)),
        ("framework"@, JsonValue::String(agent.framework)),
        ("version"@, JsonValue::String(agent.version)),
        ("ingredients"@, JsonValue::Array(told_ingredients(agent))),
    ];
    let m = with_filled(m, "mode"@, agent.mode);
    let m = with_filled(m, "model_provider"@, agent.model_provider);
    let m = with_filled(m, "model_name"@, agent.model_name);
    JsonValue::Object(m)
}

/// Adds a string under `key`, where the string is not empty.
fn put_filled(members: &mut Vec<(String, Json)>, key: &str, text: &str)
    ensures
        members_view(final(members)@) == with_filled(members_view(old(members)@), key@, text@),
{
    if !text.is_empty() {
        put_text(members, key, text);
    }
}

/// Whether one of the ingredients is a prompt.
fn any_prompt(ingredients: &Vec<Ingredient>) -> (r: bool)
    ensures
        r == has_prompt(seq_view(ingredients@)),
{
    let ghost all = seq_view(ingredients@);
    let mut i: usize = 0;
    while i < ingredients.len()
        invariant
            i <= ingredients.len(),
            all == seq_view(ingredients@),
            forall|k: int| 0 <= k < i ==> (#[trigger] all[k]).kind != IngredientKind::Prompt,
        decreases ingredients.len() - i,
    {
        match ingredients[i].kind {
            IngredientKind::Prompt => {
                assert(all[i as int].kind == IngredientKind::Prompt);
                return true;
            },
            _ => {},
        }
        i = i + 1;
    }
    false
}

/// The ingredient that stands for an agent's system prompt.
fn prompt_to_json(text: &str) -> (r: Json)
    ensures
        r@ == prompt_ingredient(text@),
{
    let mut config: Vec<(String, Json)> = Vec::new();
    put_text(&mut config, "text", text);
    let mut members: Vec<(String, Json)> = Vec::new();
    put_text(&mut members, "name", "system-prompt");
    put_text(&mut members, "kind", "prompt");
    proof {
        lemma_object_view(config);
        assert(members_view(config@) =~= seq![("text"@, JsonValue::String(text@))]);
    }
    put(&mut members, "config", Json::Object(config));
    put(&mut members, "required", Json::Bool(true));
    proof {
        lemma_object_view(members);
        assert(members_view(members@) =~= seq![
            ("name"@, JsonValue::String("system-prompt"@)),
            ("kind"@, JsonValue::String("prompt"@)),
            ("config"@, JsonValue::Object(seq![("text"@, JsonValue::String(text@))])),
            ("required"@, JsonValue::Bool(true)),
        ]);
    }
    Json::Object(members)
}

/// The ingredients that the control plane is told of.
fn ingredients_to_json(agent: &Agent) -> (r: Vec<Json>)
    ensures
        items_view(r@) == told_ingredients(agent@),
{
    let mut items: Vec<Json> = Vec::new();
    let mut i: usize = 0;
    while i < agent.ingredients.len()
        invariant
            i <= agent.ingredients.len(),
            items.len() == i,
            forall|k: int|
                0 <= k < i ==> (#[trigger] items[k])@ == ingredient_json(
                    agent@,
                    agent.ingredients[k]@,
                ),
        decreases agent.ingredients.len() - i,
    {
        items.push(ingredient_to_json(agent, &agent.ingredients[i]));
        i = i + 1;
    }
    proof {
        assert(items_view(items@) =~= ingredient_trees(agent@));
    }
    match &agent.system_prompt {
        Some(text) => {
            if !text.as_str().is_empty() && !any_prompt(&agent.ingredients) {
                let ghost before = items_view(items@);
                let prompt = prompt_to_json(text.as_str());
                items.push(prompt);
                proof {
                    assert(items_view(items@) =~= before.push(prompt_ingredient(text@)));
                }
            }
        },
        None => {},
    }
    items
}

// ---------------------------------------------------------------------
// Recipes
// ---------------------------------------------------------------------

/// The kind of a step on the wire: `human_gate` where a person has to let
/// it pass, else the kind that it names.
pub open spec fn step_kind(step: StepView) -> Seq<char> {
    if step.human_gate {
        "human_gate"@
    } else {
        step.kind
    }
}

/// `members` with a list of strings under `key`, where the list is not
/// empty.
pub open spec fn with_names(members: Members, key: Seq<char>, names: Seq<Seq<char>>) -> Members {
    if names.len() > 0 {
        members.push((key, JsonValue::Array(encode_each::<String>(names))))
    } else {
        members
    }
}

/// A step as the control plane takes it: its name and kind, its agent and
/// timeout where it has them, and the steps it depends on and those to
/// notify where it names any.
pub open spec fn step_json(step: StepView) -> JsonValue {
    let m = seq![
        ("name"@, JsonValue::String(step.name)),
        ("kind"@, JsonValue::String(step_kind(step))),
    ];
    let m = match step.agent {
        Some(a) => m.push(("agent_ref"@, JsonValue::String(a))),
        None => m,
    };
    let m = match step.timeout {
        Some(t) => m.push(("timeout"@, JsonValue::String(t))),
        None => m,
    };
    let m = with_names(m, "depends_on"@, step.depends_on);
    let m = with_names(m, "notify"@, step.notify);
    JsonValue::Object(m)
}

/// A recipe as the control plane takes it: its name, description and
/// version, and its steps in their order.
pub open spec fn recipe_json(recipe: RecipeView) -> JsonValue {
    JsonValue::Object(
        seq![
            ("name"@, JsonValue::String(recipe.name)),
            ("description"@, JsonValue::String(recipe.description)),
            ("version"@, JsonValue::String(recipe.version)),
            (
                "steps"@,
                JsonValue::Array(Seq::new(recipe.steps.len(), |i: int| step_json(recipe.steps[i]))),
            ),
        ],
    )
}

/// Adds a list of strings under `key`, where the list is not empty.
fn put_names(members: &mut Vec<(String, Json)>, key: &str, names: &Vec<String>)
    ensures
        members_view(final(members)@) == with_names(
            members_view(old(members)@),
            key@,
            seq_view(names@),
        ),
{
    if names.len() > 0 {
        put(members, key, list_to_json::<String>(names));
    }
}

/// Writes a step as the control plane takes it.
pub fn step_to_json(step: &Step) -> (r: Json)
    ensures
        r@ == step_json(step@),
{
    let kind: &str = if step.human_gate {
        "human_gate"
    } else {
        step.kind.as_str()
    };
    let mut members: Vec<(String, Json)> = Vec::new();
    put_text(&mut members, "name", step.name.as_str());
    put_text(&mut members, "kind", kind);
    proof {
        assert(members_view(members@) =~= seq![
            ("name"@, JsonValue::String(step@.name)),
            ("kind"@, JsonValue::String(step_kind(step@))),
        ]);
    }
    match &step.agent {
        Some(a) => {
            put_text(&mut members, "agent_ref", a.as_str());
        },
        None => {},
    }
    match &step.timeout {
        Some(t) => {
            put_text(&mut members, "timeout", t.as_str());
        },
        None => {},
    }
    put_names(&mut members, "depends_on", &step.depends_on);
    put_names(&mut members, "notify", &step.notify);
    proof {
        lemma_object_view(members);
    }
    Json::Object(members)
}

impl AgentOvenClient {
    /// Writes an agent of a binding as the control plane takes it.
    pub fn agent_to_json(&self, agent: &Agent) -> (r: Json)
        ensures
            r@ == agent_json(agent@),
    {
        let ingredients = ingredients_to_json(agent);
        let mut members: Vec<(String, Json)> = Vec::new();
        put_text(&mut members, "name", agent.name.as_str());
        put_text(&mut members, "description", agent.description.as_str());
        put_text(&mut members, "framework", agent.framework.as_str());
        put_text(&mut members, "version", agent.version.as_str());
        proof {
            lemma_array_view(ingredients);
        }
        put(&mut members, "ingredients", Json::Array(ingredients));
        proof {
            assert(members_view(members@) =~= seq![
                ("name"@, JsonValue::String(agent@.name)),
                ("description"@, JsonValue::String(agent@.description)),
                ("framework"@, JsonValue::String(agent@.framework)),
                ("version"@, JsonValue::String(agent@.version)),
                ("ingredients"@, JsonValue::Array(told_ingredients(agent@))),
            ]);
        }
        put_filled(&mut members, "mode", agent.mode.as_str());
        put_filled(&mut members, "model_provider", agent.model_provider.as_str());
        put_filled(&mut members, "model_name", agent.model_name.as_str());
        proof {
            lemma_object_view(members);
        }
        Json::Object(members)
    }

    /// Writes a recipe of a binding as the control plane takes it.
    pub fn recipe_to_json(&self, recipe: &Recipe) -> (r: Json)
        ensures
            r@ == recipe_json(recipe@),
    {
        let mut steps: Vec<Json> = Vec::new();
        let mut i: usize = 0;
        while i < recipe.steps.len()
            invariant
                i <= recipe.steps.len(),
                steps.len() == i,
                forall|k: int| 0 <= k < i ==> (#[trigger] steps[k])@ == step_json(recipe.steps[k]@),
            decreases recipe.steps.len() - i,
        {
            steps.push(step_to_json(&recipe.steps[i]));
            i = i + 1;
        }
        let mut members: Vec<(String, Json)> = Vec::new();
        put_text(&mut members, "name", recipe.name.as_str());
        put_text(&mut members, "description", recipe.description.as_str());
        put_text(&mut members, "version", recipe.version.as_str());
        proof {
            lemma_array_view(steps);
            assert(items_view(steps@) =~= Seq::new(
                recipe@.steps.len(),
                |i: int| step_json(recipe@.steps[i]),
            ));
        }
        put(&mut members, "steps", Json::Array(steps));
        proof {
            lemma_object_view(members);
            assert(members_view(members@) =~= seq![
                ("name"@, JsonValue::String(recipe@.name)),
                ("description"@, JsonValue::String(recipe@.description)),
                ("version"@, JsonValue::String(recipe@.version)),
                (
                    "steps"@,
                    JsonValue::Array(
                        Seq::new(recipe@.steps.len(), |i: int| step_json(recipe@.steps[i])),
                    ),
                ),
            ]);
        }
        Json::Object(members)
    }
}

} // verus!
