//! `agentoven provider`: what the command takes, and what it makes of it.

use crate::json::{
    lemma_object_view, members_view, put_opt_text, put_text, with_opt_text, Json, JsonValue,
    Members,
};
use crate::text::opt_text;
use crate::wire::{put_opt_value, with_opt_value, Wire};
use vstd::prelude::*;

verus! {

/// What can be done with providers of models.
#[derive(Debug, Clone, PartialEq)]
pub enum ProviderCommands {
    /// Lists the providers.
    List,
    /// Adds a provider.
    Add(AddArgs),
    /// Shows one provider.
    Get(GetArgs),
    /// Changes a provider.
    Update(UpdateArgs),
    /// Removes a provider.
    Remove(RemoveArgs),
    /// Tests whether a provider can be reached.
    Test(TestArgs),
    /// Asks a provider for its models.
    Discover(DiscoverArgs),
}

/// What `provider add` takes.
#[derive(Debug, Clone, PartialEq)]
pub struct AddArgs {
    /// The name of the provider.
    pub name: String,
    /// The kind of provider, such as `openai` or `ollama`.
    pub kind: String,
    /// The API key.
    pub api_key: Option<String>,
    /// The address of the provider.
    pub base_url: Option<String>,
    /// The model to use where none is named.
    pub model: Option<String>,
}

/// The model of [`AddArgs`].
pub struct AddArgsView {
    pub name: Seq<char>,
    pub kind: Seq<char>,
    pub api_key: Option<Seq<char>>,
    pub base_url: Option<Seq<char>>,
    pub model: Option<Seq<char>>,
}

impl View for AddArgs {
    type V = AddArgsView;

    open spec fn view(&self) -> AddArgsView {
        AddArgsView {
            name: self.name@,
            kind: self.kind@,
            api_key: opt_text(self.api_key),
            base_url: opt_text(self.base_url),
            model: opt_text(self.model),
        }
    }
}

/// What `provider get` takes.
#[derive(Debug, Clone, PartialEq)]
pub struct GetArgs {
    /// The name of the provider.
    pub name: String,
}

/// The model of [`GetArgs`].
pub struct GetArgsView {
    pub name: Seq<char>,
}

impl View for GetArgs {
    type V = GetArgsView;

    open spec fn view(&self) -> GetArgsView {
        GetArgsView {
            name: self.name@,
        }
    }
}

/// What `provider update` takes.
#[derive(Debug, Clone, PartialEq)]
pub struct UpdateArgs {
    /// The name of the provider.
    pub name: String,
    /// The new API key.
    pub api_key: Option<String>,
    /// The new address.
    pub base_url: Option<String>,
    /// The new model to use where none is named.
    pub model: Option<String>,
    /// Whether the provider is switched on.
    pub enabled: Option<bool>,
}

/// The model of [`UpdateArgs`].
pub struct UpdateArgsView {
    pub name: Seq<char>,
    pub api_key: Option<Seq<char>>,
    pub base_url: Option<Seq<char>>,
    pub model: Option<Seq<char>>,
    pub enabled: Option<bool>,
}

impl View for UpdateArgs {
    type V = UpdateArgsView;

    open spec fn view(&self) -> UpdateArgsView {
        UpdateArgsView {
            name: self.name@,
            api_key: opt_text(self.api_key),
            base_url: opt_text(self.base_url),
            model: opt_text(self.model),
            enabled: self.enabled,
        }
    }
}

/// What `provider remove` takes.
#[derive(Debug, Clone, PartialEq)]
pub struct RemoveArgs {
    /// The name of the provider.
    pub name: String,
    /// Whether to go ahead without asking.
    pub force: bool,
}

/// The model of [`RemoveArgs`].
pub struct RemoveArgsView {
    pub name: Seq<char>,
    pub force: bool,
}

impl View for RemoveArgs {
    type V = RemoveArgsView;

    open spec fn view(&self) -> RemoveArgsView {
        RemoveArgsView {
            name: self.name@,
            force: self.force,
        }
    }
}

/// What `provider test` takes.
#[derive(Debug, Clone, PartialEq)]
pub struct TestArgs {
    /// The name of the provider.
    pub name: String,
}

/// The model of [`TestArgs`].
pub struct TestArgsView {
    pub name: Seq<char>,
}

impl View for TestArgs {
    type V = TestArgsView;

    open spec fn view(&self) -> TestArgsView {
        TestArgsView {
            name: self.name@,
        }
    }
}

/// What `provider discover` takes.
#[derive(Debug, Clone, PartialEq)]
pub struct DiscoverArgs {
    /// The name of the provider.
    pub name: String,
}

/// The model of [`DiscoverArgs`].
pub struct DiscoverArgsView {
    pub name: Seq<char>,
}

impl View for DiscoverArgs {
    type V = DiscoverArgsView;

    open spec fn view(&self) -> DiscoverArgsView {
        DiscoverArgsView {
            name: self.name@,
        }
    }
}

impl AddArgsView {
    /// The members of the body that the flags give.
    pub open spec fn body_members(self) -> Members {
        let m = Seq::empty();
        let m = m.push(("name"@, JsonValue::String(self.name)));
        let m = m.push(("kind"@, JsonValue::String(self.kind)));
        let m = with_opt_text(m, "api_key"@, self.api_key);
        let m = with_opt_text(m, "base_url"@, self.base_url);
        let m = with_opt_text(m, "default_model"@, self.model);
        m
    }

    /// The body that adds the provider.
    pub open spec fn body(self) -> JsonValue {
        JsonValue::Object(self.body_members())
    }
}

impl AddArgs {
    /// The members of the body that the flags give.
    pub fn body_members(&self) -> (r: Vec<(String, Json)>)
        ensures
            members_view(r@) == self@.body_members(),
    {
        let mut members: Vec<(String, Json)> = Vec::new();
        proof {
            assert(members_view(members@) =~= Seq::empty());
        }
        put_text(&mut members, "name", self.name.as_str());
        put_text(&mut members, "kind", self.kind.as_str());
        put_opt_text(&mut members, "api_key", &self.api_key);
        put_opt_text(&mut members, "base_url", &self.base_url);
        put_opt_text(&mut members, "default_model", &self.model);
        members
    }

    /// The body that adds the provider.
    pub fn body(&self) -> (r: Json)
        ensures
            r@ == self@.body(),
    {
        let members = self.body_members();
        proof {
            lemma_object_view(members);
        }
        Json::Object(members)
    }
}

impl UpdateArgsView {
    /// The members of the body that the flags give.
    pub open spec fn body_members(self) -> Members {
        let m = Seq::empty();
        let m = with_opt_text(m, "api_key"@, self.api_key);
        let m = with_opt_text(m, "base_url"@, self.base_url);
        let m = with_opt_text(m, "default_model"@, self.model);
        let m = with_opt_value::<bool>(m, "enabled"@, self.enabled);
        m
    }

    /// The body that changes the provider.
    pub open spec fn body(self) -> JsonValue {
        JsonValue::Object(self.body_members())
    }
}

impl UpdateArgs {
    /// The members of the body that the flags give.
    pub fn body_members(&self) -> (r: Vec<(String, Json)>)
        ensures
            members_view(r@) == self@.body_members(),
    {
        let mut members: Vec<(String, Json)> = Vec::new();
        proof {
            assert(members_view(members@) =~= Seq::empty());
        }
        put_opt_text(&mut members, "api_key", &self.api_key);
        put_opt_text(&mut members, "base_url", &self.base_url);
        put_opt_text(&mut members, "default_model", &self.model);
        put_opt_value(&mut members, "enabled", &self.enabled);
        members
    }

    /// The body that changes the provider.
    pub fn body(&self) -> (r: Json)
        ensures
            r@ == self@.body(),
    {
        let members = self.body_members();
        proof {
            lemma_object_view(members);
        }
        Json::Object(members)
    }
}

/// How the list shows whether a provider is switched on.
pub fn switch_label(enabled: bool) -> (r: &'static str)
    ensures
        r@ == if enabled {
            "\u{1f7e2} on"@
        } else {
            "\u{26aa} off"@
        },
{
    if enabled {
        "\u{1f7e2} on"
    } else {
        "\u{26aa} off"
    }
}

} // verus!
