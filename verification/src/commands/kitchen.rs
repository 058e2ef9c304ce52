//! `agentoven kitchen`: what the command takes, and what it makes of it.

use crate::json::{
    lemma_object_view, members_view, put_opt_text, read_json_text, text_at, text_or, tree_view,
    with_opt_text, Json, JsonValue, Members,
};
use crate::text::opt_text;
use crate::wire::{put_opt_value, with_opt_value, Wire};
use vstd::prelude::*;

verus! {

/// What can be done with kitchens.
#[derive(Debug, Clone, PartialEq)]
pub enum KitchenCommands {
    /// Lists the kitchens.
    List,
    /// Shows one kitchen.
    Get(GetArgs),
    /// Shows the settings of the kitchen.
    Settings,
    /// Changes the settings of the kitchen.
    UpdateSettings(UpdateSettingsArgs),
}

/// What `kitchen get` takes.
#[derive(Debug, Clone, PartialEq)]
pub struct GetArgs {
    /// The identifier of the kitchen.
    pub id: String,
}

/// The model of [`GetArgs`].
pub struct GetArgsView {
    pub id: Seq<char>,
}

impl View for GetArgs {
    type V = GetArgsView;

    open spec fn view(&self) -> GetArgsView {
        GetArgsView {
            id: self.id@,
        }
    }
}

/// What `kitchen update-settings` takes.
#[derive(Debug, Clone, PartialEq)]
pub struct UpdateSettingsArgs {
    /// The largest size of a template, in bytes.
    pub max_template_size: Option<u64>,
    /// How long traces are kept, such as `7d`.
    pub trace_ttl: Option<String>,
    /// How long audit events are kept, such as `30d`.
    pub audit_ttl: Option<String>,
    /// How many items are kept before the oldest are archived.
    pub max_items: Option<u64>,
    /// Whether old items are archived.
    pub archive: Option<bool>,
    /// The whole body as JSON text, which overrides the flags.
    pub json: Option<String>,
}

/// The model of [`UpdateSettingsArgs`].
pub struct UpdateSettingsArgsView {
    pub max_template_size: Option<u64>,
    pub trace_ttl: Option<Seq<char>>,
    pub audit_ttl: Option<Seq<char>>,
    pub max_items: Option<u64>,
    pub archive: Option<bool>,
    pub json: Option<Seq<char>>,
}

impl View for UpdateSettingsArgs {
    type V = UpdateSettingsArgsView;

    open spec fn view(&self) -> UpdateSettingsArgsView {
        UpdateSettingsArgsView {
            max_template_size: self.max_template_size,
            trace_ttl: opt_text(self.trace_ttl),
            audit_ttl: opt_text(self.audit_ttl),
            max_items: self.max_items,
            archive: self.archive,
            json: opt_text(self.json),
        }
    }
}

impl UpdateSettingsArgsView {
    /// The members of the body that the flags give.
    pub open spec fn flag_members(self) -> Members {
        let m = Seq::empty();
        let m = with_opt_value::<u64>(m, "max_template_size"@, self.max_template_size);
        let m = with_opt_text(m, "trace_ttl"@, self.trace_ttl);
        let m = with_opt_text(m, "audit_ttl"@, self.audit_ttl);
        let m = with_opt_value::<u64>(m, "max_items"@, self.max_items);
        let m = with_opt_value::<bool>(m, "archive_enabled"@, self.archive);
        m
    }

    /// The body of the request: the JSON text where one is given, else what
    /// the flags give.
    pub open spec fn body(self) -> Result<JsonValue, Seq<char>> {
        match self.json {
            Some(raw) => read_json_text(raw),
            None => Ok(JsonValue::Object(self.flag_members())),
        }
    }
}

impl UpdateSettingsArgs {
    /// The members of the body that the flags give.
    pub fn flag_members(&self) -> (r: Vec<(String, Json)>)
        ensures
            members_view(r@) == self@.flag_members(),
    {
        let mut members: Vec<(String, Json)> = Vec::new();
        proof {
            assert(members_view(members@) =~= Seq::empty());
        }
        put_opt_value(&mut members, "max_template_size", &self.max_template_size);
        put_opt_text(&mut members, "trace_ttl", &self.trace_ttl);
        put_opt_text(&mut members, "audit_ttl", &self.audit_ttl);
        put_opt_value(&mut members, "max_items", &self.max_items);
        put_opt_value(&mut members, "archive_enabled", &self.archive);
        members
    }

    /// The body of the request: the JSON text where one is given, else what
    /// the flags give. The error says why the JSON text is none.
    pub fn body(&self) -> (r: Result<Json, String>)
        ensures
            tree_view(r) == self@.body(),
    {
        match &self.json {
            Some(raw) => Json::parse(raw.as_str()),
            None => {
                let members = self.flag_members();
                proof {
                    lemma_object_view(members);
                }
                Ok(Json::Object(members))
            },
        }
    }
}

/// The name under which the list shows a kitchen: its name, or else its
/// identifier, or else a dash.
pub open spec fn kitchen_label_view(kitchen: JsonValue) -> Seq<char> {
    match text_at(kitchen, "name"@) {
        Some(name) => name,
        None => text_or(kitchen, "id"@, "-"@),
    }
}

/// The name under which the list shows a kitchen.
pub fn kitchen_label(kitchen: &Json) -> (r: &str)
    ensures
        r@ == kitchen_label_view(kitchen@),
{
    match kitchen.str_at("name") {
        Some(name) => name,
        None => kitchen.str_or("id", "-"),
    }
}

} // verus!
