//! `agentoven tool`: what the command takes, and what it makes of it.

use crate::json::{
    lemma_object_view, members_view, put_opt, put_opt_text, put_text, read_json_text, tree_view,
    with_opt, with_opt_text, Json, JsonValue,
};
use crate::model::opt_view;
use crate::text::opt_text;
use crate::wire::Wire;
use vstd::prelude::*;

verus! {

/// What can be done with tools.
#[derive(Debug, Clone, PartialEq)]
pub enum ToolCommands {
    /// Lists the tools.
    List,
    /// Adds a tool.
    Add(AddArgs),
    /// Shows one tool.
    Get(GetArgs),
    /// Changes a tool.
    Update(UpdateArgs),
    /// Removes a tool.
    Remove(RemoveArgs),
}

/// What `tool add` takes.
#[derive(Debug, Clone, PartialEq)]
pub struct AddArgs {
    /// The name of the tool.
    pub name: String,
    /// What the tool does.
    pub description: Option<String>,
    /// The schema of the tool's input, as JSON text.
    pub schema: Option<String>,
    /// The path of a file with the schema.
    pub schema_file: Option<String>,
}

/// The model of [`AddArgs`].
pub struct AddArgsView {
    pub name: Seq<char>,
    pub description: Option<Seq<char>>,
    pub schema: Option<Seq<char>>,
    pub schema_file: Option<Seq<char>>,
}

impl View for AddArgs {
    type V = AddArgsView;

    open spec fn view(&self) -> AddArgsView {
        AddArgsView {
            name: self.name@,
            description: opt_text(self.description),
            schema: opt_text(self.schema),
            schema_file: opt_text(self.schema_file),
        }
    }
}

/// What `tool get` takes.
#[derive(Debug, Clone, PartialEq)]
pub struct GetArgs {
    /// The name of the tool.
    pub name: String,
}

/// The model of [`GetArgs`].
pub struct GetArgsView {
    pub name: Seq<char>,
}

impl View for GetArgs {
    type V = GetArgsView;

    open spec fn view(&self) -> GetArgsView {
        GetArgsView {
            name: self.name@,
        }
    }
}

/// What `tool update` takes.
#[derive(Debug, Clone, PartialEq)]
pub struct UpdateArgs {
    /// The name of the tool.
    pub name: String,
    /// The new description.
    pub description: Option<String>,
    /// The new schema of the tool's input, as JSON text.
    pub schema: Option<String>,
}

/// The model of [`UpdateArgs`].
pub struct UpdateArgsView {
    pub name: Seq<char>,
    pub description: Option<Seq<char>>,
    pub schema: Option<Seq<char>>,
}

impl View for UpdateArgs {
    type V = UpdateArgsView;

    open spec fn view(&self) -> UpdateArgsView {
        UpdateArgsView {
            name: self.name@,
            description: opt_text(self.description),
            schema: opt_text(self.schema),
        }
    }
}

/// What `tool remove` takes.
#[derive(Debug, Clone, PartialEq)]
pub struct RemoveArgs {
    /// The name of the tool.
    pub name: String,
    /// Whether to go ahead without asking.
    pub force: bool,
}

/// The model of [`RemoveArgs`].
pub struct RemoveArgsView {
    pub name: Seq<char>,
    pub force: bool,
}

impl View for RemoveArgs {
    type V = RemoveArgsView;

    open spec fn view(&self) -> RemoveArgsView {
        RemoveArgsView {
            name: self.name@,
            force: self.force,
        }
    }
}

/// The model of a schema that may have failed to be read.
pub open spec fn schema_view(r: Result<Option<Json>, String>) -> Result<Option<JsonValue>, Seq<char>> {
    match r {
        Ok(schema) => Ok(opt_view(schema)),
        Err(refusal) => Err(refusal@),
    }
}

/// A text read as JSON, where there is a text.
pub open spec fn read_opt_json(text: Option<Seq<char>>) -> Result<Option<JsonValue>, Seq<char>> {
    match text {
        None => Ok(None),
        Some(raw) => match read_json_text(raw) {
            Ok(j) => Ok(Some(j)),
            Err(refusal) => Err(refusal),
        },
    }
}

/// Reads a text as JSON, where there is a text.
pub fn parse_opt_json(text: Option<&str>) -> (r: Result<Option<Json>, String>)
    ensures
        schema_view(r) == read_opt_json(
            match text {
                Some(t) => Some(t@),
                None => None,
            },
        ),
{
    match text {
        None => Ok(None),
        Some(raw) => match Json::parse(raw) {
            Ok(j) => Ok(Some(j)),
            Err(refusal) => Err(refusal),
        },
    }
}

impl AddArgsView {
    /// The text of the schema: the one on the command line, or else what the
    /// schema file holds.
    pub open spec fn schema_text(self, file: Option<Seq<char>>) -> Option<Seq<char>> {
        match self.schema {
            Some(s) => Some(s),
            None => match self.schema_file {
                Some(_) => file,
                None => None,
            },
        }
    }

    /// The body that adds the tool.
    pub open spec fn body(self, schema: Option<JsonValue>) -> JsonValue {
        let m = seq![("name"@, JsonValue::String(self.name))];
        let m = with_opt_text(m, "description"@, self.description);
        JsonValue::Object(with_opt(m, "input_schema"@, schema))
    }
}

impl AddArgs {
    /// The schema: the one on the command line, or else the one that the
    /// schema file holds, whose content the caller hands in.
    pub fn schema(&self, file: Option<&str>) -> (r: Result<Option<Json>, String>)
        ensures
            schema_view(r) == read_opt_json(
                self@.schema_text(
                    match file {
                        Some(t) => Some(t@),
                        None => None,
                    },
                ),
            ),
    {
        match &self.schema {
            Some(s) => parse_opt_json(Some(s.as_str())),
            None => match &self.schema_file {
                Some(_) => parse_opt_json(file),
                None => Ok(None),
            },
        }
    }

    /// The body that adds the tool.
    pub fn body(&self, schema: Option<Json>) -> (r: Json)
        ensures
            r@ == self@.body(opt_view(schema)),
    {
        let mut members: Vec<(String, Json)> = Vec::new();
        put_text(&mut members, "name", self.name.as_str());
        proof {
            assert(members_view(members@) =~= seq![("name"@, JsonValue::String(self.name@))]);
        }
        put_opt_text(&mut members, "description", &self.description);
        put_opt(&mut members, "input_schema", schema);
        proof {
            lemma_object_view(members);
        }
        Json::Object(members)
    }
}

impl UpdateArgsView {
    /// The body that changes the tool.
    pub open spec fn body(self) -> Result<JsonValue, Seq<char>> {
        match read_opt_json(self.schema) {
            Err(refusal) => Err(refusal),
            Ok(schema) => Ok(
                JsonValue::Object(
                    with_opt(
                        with_opt_text(Seq::empty(), "description"@, self.description),
                        "input_schema"@,
                        schema,
                    ),
                ),
            ),
        }
    }
}

impl UpdateArgs {
    /// The body that changes the tool. The error says why the schema is no
    /// JSON.
    pub fn body(&self) -> (r: Result<Json, String>)
        ensures
            tree_view(r) == self@.body(),
    {
        let schema = match &self.schema {
            Some(s) => parse_opt_json(Some(s.as_str()))?,
            None => None,
        };
        let mut members: Vec<(String, Json)> = Vec::new();
        proof {
            assert(members_view(members@) =~= Seq::empty());
        }
        put_opt_text(&mut members, "description", &self.description);
        put_opt(&mut members, "input_schema", schema);
        proof {
            lemma_object_view(members);
        }
        Ok(Json::Object(members))
    }
}

} // verus!
