//! Ingredients: the models, tools, prompts and sources of data that an agent
//! is made of.

use crate::json::{
    get_bool_or_true, get_opt_text, get_text, get_text_or_empty, key_mark, lemma_object_view,
    members_view, put, put_filled_text, put_opt_text, put_text, read_bool_or_true, read_opt_text,
    read_text, read_text_or_empty, with_filled_text, with_opt_text, Json, JsonValue,
};
use crate::model::opt_view;
use crate::text::{opt_text, text_eq};
use crate::wire::{
    get_opt_value, get_value, group_lookup, put_opt_value, put_value, read_opt_value, read_value,
    with_opt_value, with_value, Wire,
};
use vstd::prelude::*;

verus! {

/// The kind of an ingredient.
#[derive(Debug, Clone, Copy, PartialEq, Eq, Structural)]
pub enum IngredientKind {
    /// A language model.
    Model,
    /// A tool, reached by MCP or an API.
    Tool,
    /// A prompt template.
    Prompt,
    /// A source of data.
    Data,
    /// A setting for observability.
    Observability,
    /// An embedding model.
    Embedding,
    /// A vector store.
    VectorStore,
    /// A retriever pipeline.
    Retriever,
}

impl View for IngredientKind {
    type V = IngredientKind;

    open spec fn view(&self) -> IngredientKind {
        *self
    }
}

impl IngredientKind {
    /// The name on the wire.
    pub open spec fn name(self) -> Seq<char> {
        match self {
            IngredientKind::Model => "model"@,
            IngredientKind::Tool => "tool"@,
            IngredientKind::Prompt => "prompt"@,
            IngredientKind::Data => "data"@,
            IngredientKind::Observability => "observability"@,
            IngredientKind::Embedding => "embedding"@,
            IngredientKind::VectorStore => "vectorstore"@,
            IngredientKind::Retriever => "retriever"@,
        }
    }

    /// What a name stands for.
    pub open spec fn named(name: Seq<char>) -> Option<IngredientKind> {
        if name == "model"@ {
            Some(IngredientKind::Model)
        } else if name == "tool"@ {
            Some(IngredientKind::Tool)
        } else if name == "prompt"@ {
            Some(IngredientKind::Prompt)
        } else if name == "data"@ {
            Some(IngredientKind::Data)
        } else if name == "observability"@ {
            Some(IngredientKind::Observability)
        } else if name == "embedding"@ {
            Some(IngredientKind::Embedding)
        } else if name == "vectorstore"@ {
            Some(IngredientKind::VectorStore)
        } else if name == "retriever"@ {
            Some(IngredientKind::Retriever)
        } else {
            None
        }
    }

    /// The name on the wire.
    pub fn as_str(&self) -> (r: &'static str)
        ensures
            r@ == self.name(),
    {
        match self {
            IngredientKind::Model => "model",
            IngredientKind::Tool => "tool",
            IngredientKind::Prompt => "prompt",
            IngredientKind::Data => "data",
            IngredientKind::Observability => "observability",
            IngredientKind::Embedding => "embedding",
            IngredientKind::VectorStore => "vectorstore",
            IngredientKind::Retriever => "retriever",
        }
    }

    /// What a name stands for.
    pub fn from_name(name: &str) -> (r: Option<IngredientKind>)
        ensures
            r == IngredientKind::named(name@),
    {
        if text_eq(name, "model") {
            Some(IngredientKind::Model)
        } else if text_eq(name, "tool") {
            Some(IngredientKind::Tool)
        } else if text_eq(name, "prompt") {
            Some(IngredientKind::Prompt)
        } else if text_eq(name, "data") {
            Some(IngredientKind::Data)
        } else if text_eq(name, "observability") {
            Some(IngredientKind::Observability)
        } else if text_eq(name, "embedding") {
            Some(IngredientKind::Embedding)
        } else if text_eq(name, "vectorstore") {
            Some(IngredientKind::VectorStore)
        } else if text_eq(name, "retriever") {
            Some(IngredientKind::Retriever)
        } else {
            None
        }
    }

    /// Each value is the one that its own name stands for.
    pub proof fn lemma_name_round_trip(v: IngredientKind)
        ensures
            IngredientKind::named(v.name()) == Some(v),
    {
        reveal_strlit("model");
        reveal_strlit("tool");
        reveal_strlit("prompt");
        reveal_strlit("data");
        reveal_strlit("observability");
        reveal_strlit("embedding");
        reveal_strlit("vectorstore");
        reveal_strlit("retriever");
        assert(key_mark("model"@) == (5nat, 'm', 'o'));
        assert(key_mark("tool"@) == (4nat, 't', 'o'));
        assert(key_mark("prompt"@) == (6nat, 'p', 'r'));
        assert(key_mark("data"@) == (4nat, 'd', 'a'));
        assert(key_mark("observability"@) == (13nat, 'o', 'b'));
        assert(key_mark("embedding"@) == (9nat, 'e', 'm'));
        assert(key_mark("vectorstore"@) == (11nat, 'v', 'e'));
        assert(key_mark("retriever"@) == (9nat, 'r', 'e'));
    }
}

impl Wire for IngredientKind {
    open spec fn encode(v: IngredientKind) -> JsonValue {
        JsonValue::String(v.name())
    }

    open spec fn decode(j: JsonValue) -> Option<IngredientKind> {
        match j {
            JsonValue::String(s) => IngredientKind::named(s),
            _ => None,
        }
    }

    open spec fn survives(v: IngredientKind) -> bool {
        true
    }

    fn to_json(&self) -> (j: Json) {
        Json::string(self.as_str())
    }

    fn from_json(j: &Json) -> (r: Option<IngredientKind>) {
        match j.as_str() {
            Some(s) => IngredientKind::from_name(s),
            None => None,
        }
    }

    proof fn lemma_round_trip(v: IngredientKind) {
        IngredientKind::lemma_name_round_trip(v);
    }
}

/// What goes into an agent: a model, a tool, a prompt or a source of data.
#[derive(Debug, Clone, PartialEq)]
pub struct Ingredient {
    /// The identifier that the control plane gave; empty before.
    pub id: String,
    /// The kind of ingredient.
    pub kind: IngredientKind,
    /// The name, such as `gpt-4o`.
    pub name: String,
    /// The provider or protocol, such as `azure-openai` or `mcp`.
    pub provider: Option<String>,
    /// The part that it plays, such as `primary` or `fallback`.
    pub role: Option<String>,
    /// Whether the agent cannot do without it.
    pub required: bool,
    /// Settings of this ingredient.
    pub config: Option<Json>,
}

/// The model of an [`Ingredient`].
pub struct IngredientView {
    pub id: Seq<char>,
    pub kind: IngredientKind,
    pub name: Seq<char>,
    pub provider: Option<Seq<char>>,
    pub role: Option<Seq<char>>,
    pub required: bool,
    pub config: Option<JsonValue>,
}

impl View for Ingredient {
    type V = IngredientView;

    open spec fn view(&self) -> IngredientView {
        IngredientView {
            id: self.id@,
            kind: self.kind@,
            name: self.name@,
            provider: opt_text(self.provider),
            role: opt_text(self.role),
            required: self.required,
            config: opt_view(self.config),
        }
    }
}

impl Wire for Ingredient {
    open spec fn encode(v: IngredientView) -> JsonValue {
        let m = Seq::empty();
        let m = with_filled_text(m, "id"@, v.id);
        let m = with_value::<IngredientKind>(m, "kind"@, v.kind);
        let m = m.push(("name"@, JsonValue::String(v.name)));
        let m = with_opt_text(m, "provider"@, v.provider);
        let m = with_opt_text(m, "role"@, v.role);
        let m = m.push(("required"@, JsonValue::Bool(v.required)));
        let m = with_opt_value::<Json>(m, "config"@, v.config);
        JsonValue::Object(m)
    }

    open spec fn decode(j: JsonValue) -> Option<IngredientView> {
        match j {
            JsonValue::Object(m) => {
                let id = read_text_or_empty(m, "id"@);
                let kind = read_value::<IngredientKind>(m, "kind"@);
                let name = read_text(m, "name"@);
                let provider = read_opt_text(m, "provider"@);
                let role = read_opt_text(m, "role"@);
                let required = read_bool_or_true(m, "required"@);
                let config = read_opt_value::<Json>(m, "config"@);
                if id is Some
                    && kind is Some
                    && name is Some
                    && provider is Some
                    && role is Some
                    && required is Some
                    && config is Some
                {
                    Some(
                        IngredientView {
                            id: id.unwrap(),
                            kind: kind.unwrap(),
                            name: name.unwrap(),
                            provider: provider.unwrap(),
                            role: role.unwrap(),
                            required: required.unwrap(),
                            config: config.unwrap(),
                        },
                    )
                } else {
                    None
                }
            },
            _ => None,
        }
    }

    /// A `null` that is given as settings is read back as no settings.
    open spec fn survives(v: IngredientView) -> bool {
        &&& IngredientKind::survives(v.kind)
        &&& v.config != Some(JsonValue::Null)
    }

    fn to_json(&self) -> (j: Json) {
        let mut members: Vec<(String, Json)> = Vec::new();
        proof {
            assert(members_view(members@) =~= Seq::empty());
        }
        put_filled_text(&mut members, "id", self.id.as_str());
        put_value(&mut members, "kind", &self.kind);
        put_text(&mut members, "name", self.name.as_str());
        put_opt_text(&mut members, "provider", &self.provider);
        put_opt_text(&mut members, "role", &self.role);
        put(&mut members, "required", Json::Bool(self.required));
        put_opt_value(&mut members, "config", &self.config);
        proof {
            lemma_object_view(members);
        }
        Json::Object(members)
    }

    fn from_json(j: &Json) -> (r: Option<Ingredient>) {
        let members = j.as_object()?;
        let id = get_text_or_empty(members, "id")?;
        let kind = get_value::<IngredientKind>(members, "kind")?;
        let name = get_text(members, "name")?;
        let provider = get_opt_text(members, "provider")?;
        let role = get_opt_text(members, "role")?;
        let required = get_bool_or_true(members, "required")?;
        let config = get_opt_value::<Json>(members, "config")?;
        Some(Ingredient { id, kind, name, provider, role, required, config })
    }

    proof fn lemma_round_trip(v: IngredientView) {
        broadcast use group_lookup;

        reveal_strlit("id");
        reveal_strlit("kind");
        reveal_strlit("name");
        reveal_strlit("provider");
        reveal_strlit("role");
        reveal_strlit("required");
        reveal_strlit("config");
        assert(key_mark("id"@) == (2nat, 'i', 'd'));
        assert(key_mark("kind"@) == (4nat, 'k', 'i'));
        assert(key_mark("name"@) == (4nat, 'n', 'a'));
        assert(key_mark("provider"@) == (8nat, 'p', 'r'));
        assert(key_mark("role"@) == (4nat, 'r', 'o'));
        assert(key_mark("required"@) == (8nat, 'r', 'e'));
        assert(key_mark("config"@) == (6nat, 'c', 'o'));
        IngredientKind::lemma_round_trip(v.kind);
        let m = Self::encode(v)->Object_0;
        assert(read_text_or_empty(m, "id"@) == Some(v.id));
        assert(read_value::<IngredientKind>(m, "kind"@) == Some(v.kind));
        assert(read_text(m, "name"@) == Some(v.name));
        assert(read_opt_text(m, "provider"@) == Some(v.provider));
        assert(read_opt_text(m, "role"@) == Some(v.role));
        assert(read_bool_or_true(m, "required"@) == Some(v.required));
        assert(read_opt_value::<Json>(m, "config"@) == Some(v.config));
    }
}

/// Whether an ingredient is required where nothing says so: it is.
pub fn default_required() -> (r: bool)
    ensures
        r,
{
    true
}

/// An ingredient in the making.
#[derive(Debug)]
pub struct IngredientBuilder {
    kind: IngredientKind,
    name: String,
    provider: Option<String>,
    role: Option<String>,
    config: Option<Json>,
}

/// The model of an [`IngredientBuilder`].
pub struct IngredientBuilderView {
    pub kind: IngredientKind,
    pub name: Seq<char>,
    pub provider: Option<Seq<char>>,
    pub role: Option<Seq<char>>,
    pub config: Option<JsonValue>,
}

impl View for IngredientBuilder {
    type V = IngredientBuilderView;

    closed spec fn view(&self) -> IngredientBuilderView {
        IngredientBuilderView {
            kind: self.kind,
            name: self.name@,
            provider: opt_text(self.provider),
            role: opt_text(self.role),
            config: opt_view(self.config),
        }
    }
}

impl IngredientBuilderView {
    /// A builder that knows the kind and the name only.
    pub open spec fn start(kind: IngredientKind, name: Seq<char>) -> IngredientBuilderView {
        IngredientBuilderView { kind, name, provider: None, role: None, config: None }
    }

    /// The ingredient that the builder stands for: required, and without an
    /// identifier.
    pub open spec fn built(self) -> IngredientView {
        IngredientView {
            id: Seq::empty(),
            kind: self.kind,
            name: self.name,
            provider: self.provider,
            role: self.role,
            required: true,
            config: self.config,
        }
    }
}

impl IngredientBuilder {
    /// A builder that knows the kind and the name only.
    pub fn start(kind: IngredientKind, name: &str) -> (r: IngredientBuilder)
        ensures
            r@ == IngredientBuilderView::start(kind, name@),
    {
        IngredientBuilder { kind, name: name.to_owned(), provider: None, role: None, config: None }
    }

    /// Sets the provider.
    pub fn provider(self, provider: &str) -> (r: IngredientBuilder)
        ensures
            r@ == (IngredientBuilderView { provider: Some(provider@), ..self@ }),
    {
        IngredientBuilder {
            kind: self.kind,
            name: self.name,
            provider: Some(provider.to_owned()),
            role: self.role,
            config: self.config,
        }
    }

    /// Sets the role.
    pub fn role(self, role: &str) -> (r: IngredientBuilder)
        ensures
            r@ == (IngredientBuilderView { role: Some(role@), ..self@ }),
    {
        IngredientBuilder {
            kind: self.kind,
            name: self.name,
            provider: self.provider,
            role: Some(role.to_owned()),
            config: self.config,
        }
    }

    /// Sets the settings.
    pub fn config(self, config: Json) -> (r: IngredientBuilder)
        ensures
            r@ == (IngredientBuilderView { config: Some(config@), ..self@ }),
    {
        IngredientBuilder {
            kind: self.kind,
            name: self.name,
            provider: self.provider,
            role: self.role,
            config: Some(config),
        }
    }

    /// The ingredient.
    pub fn build(self) -> (r: Ingredient)
        ensures
            r@ == self@.built(),
    {
        Ingredient {
            id: String::new(),
            kind: self.kind,
            name: self.name,
            provider: self.provider,
            role: self.role,
            required: default_required(),
            config: self.config,
        }
    }
}

impl Ingredient {
    /// A model, to be filled in.
    pub fn model(name: &str) -> (r: IngredientBuilder)
        ensures
            r@ == IngredientBuilderView::start(IngredientKind::Model, name@),
    {
        IngredientBuilder::start(IngredientKind::Model, name)
    }

    /// A tool, to be filled in.
    pub fn tool(name: &str) -> (r: IngredientBuilder)
        ensures
            r@ == IngredientBuilderView::start(IngredientKind::Tool, name@),
    {
        IngredientBuilder::start(IngredientKind::Tool, name)
    }

    /// A prompt, to be filled in.
    pub fn prompt(name: &str) -> (r: IngredientBuilder)
        ensures
            r@ == IngredientBuilderView::start(IngredientKind::Prompt, name@),
    {
        IngredientBuilder::start(IngredientKind::Prompt, name)
    }

    /// A source of data, to be filled in.
    pub fn data(name: &str) -> (r: IngredientBuilder)
        ensures
            r@ == IngredientBuilderView::start(IngredientKind::Data, name@),
    {
        IngredientBuilder::start(IngredientKind::Data, name)
    }

    /// A setting for observability, to be filled in.
    pub fn observability(name: &str) -> (r: IngredientBuilder)
        ensures
            r@ == IngredientBuilderView::start(IngredientKind::Observability, name@),
    {
        IngredientBuilder::start(IngredientKind::Observability, name)
    }

    /// An embedding model, to be filled in.
    pub fn embedding(name: &str) -> (r: IngredientBuilder)
        ensures
            r@ == IngredientBuilderView::start(IngredientKind::Embedding, name@),
    {
        IngredientBuilder::start(IngredientKind::Embedding, name)
    }

    /// A vector store, to be filled in.
    pub fn vectorstore(name: &str) -> (r: IngredientBuilder)
        ensures
            r@ == IngredientBuilderView::start(IngredientKind::VectorStore, name@),
    {
        IngredientBuilder::start(IngredientKind::VectorStore, name)
    }

    /// A retriever pipeline, to be filled in.
    pub fn retriever(name: &str) -> (r: IngredientBuilder)
        ensures
            r@ == IngredientBuilderView::start(IngredientKind::Retriever, name@),
    {
        IngredientBuilder::start(IngredientKind::Retriever, name)
    }
}

} // verus!
