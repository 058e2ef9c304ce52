//! `agentoven prompt`: what the command takes, and what it makes of it.

use crate::json::{
    lemma_object_view, members_view, put_opt, put_opt_text, put_text, with_opt, with_opt_text, Json,
    JsonValue,
};
use crate::model::{opt_view, seq_view};
use crate::text::{opt_text, pieces, split_trimmed, trimmed};
use crate::wire::{encode_each, list_to_json, Wire};
use vstd::prelude::*;

verus! {

/// What can be done with prompt templates.
#[derive(Debug, Clone, PartialEq)]
pub enum PromptCommands {
    /// Lists the templates.
    List,
    /// Adds a template.
    Add(AddArgs),
    /// Shows one template.
    Get(GetArgs),
    /// Changes a template.
    Update(UpdateArgs),
    /// Removes a template.
    Remove(RemoveArgs),
    /// Checks a template.
    Validate(ValidateArgs),
    /// Lists the versions of a template.
    Versions(VersionsArgs),
}

/// What `prompt add` takes.
#[derive(Debug, Clone, PartialEq)]
pub struct AddArgs {
    /// The name of the template.
    pub name: String,
    /// The text of the template.
    pub template: Option<String>,
    /// The path of a file with the template.
    pub from_file: Option<String>,
    /// The variables of the template, with commas between.
    pub variables: Option<String>,
}

/// The model of [`AddArgs`].
pub struct AddArgsView {
    pub name: Seq<char>,
    pub template: Option<Seq<char>>,
    pub from_file: Option<Seq<char>>,
    pub variables: Option<Seq<char>>,
}

impl View for AddArgs {
    type V = AddArgsView;

    open spec fn view(&self) -> AddArgsView {
        AddArgsView {
            name: self.name@,
            template: opt_text(self.template),
            from_file: opt_text(self.from_file),
            variables: opt_text(self.variables),
        }
    }
}

/// What `prompt get` takes.
#[derive(Debug, Clone, PartialEq)]
pub struct GetArgs {
    /// The name of the template.
    pub name: String,
}

/// The model of [`GetArgs`].
pub struct GetArgsView {
    pub name: Seq<char>,
}

impl View for GetArgs {
    type V = GetArgsView;

    open spec fn view(&self) -> GetArgsView {
        GetArgsView {
            name: self.name@,
        }
    }
}

/// What `prompt update` takes.
#[derive(Debug, Clone, PartialEq)]
pub struct UpdateArgs {
    /// The name of the template.
    pub name: String,
    /// The new text of the template.
    pub template: Option<String>,
    /// The path of a file with the new template.
    pub from_file: Option<String>,
}

/// The model of [`UpdateArgs`].
pub struct UpdateArgsView {
    pub name: Seq<char>,
    pub template: Option<Seq<char>>,
    pub from_file: Option<Seq<char>>,
}

impl View for UpdateArgs {
    type V = UpdateArgsView;

    open spec fn view(&self) -> UpdateArgsView {
        UpdateArgsView {
            name: self.name@,
            template: opt_text(self.template),
            from_file: opt_text(self.from_file),
        }
    }
}

/// What `prompt remove` takes.
#[derive(Debug, Clone, PartialEq)]
pub struct RemoveArgs {
    /// The name of the template.
    pub name: String,
    /// Whether to go ahead without asking.
    pub force: bool,
}

/// The model of [`RemoveArgs`].
pub struct RemoveArgsView {
    pub name: Seq<char>,
    pub force: bool,
}

impl View for RemoveArgs {
    type V = RemoveArgsView;

    open spec fn view(&self) -> RemoveArgsView {
        RemoveArgsView {
            name: self.name@,
            force: self.force,
        }
    }
}

/// What `prompt validate` takes.
#[derive(Debug, Clone, PartialEq)]
pub struct ValidateArgs {
    /// The name of the template.
    pub name: String,
}

/// The model of [`ValidateArgs`].
pub struct ValidateArgsView {
    pub name: Seq<char>,
}

impl View for ValidateArgs {
    type V = ValidateArgsView;

    open spec fn view(&self) -> ValidateArgsView {
        ValidateArgsView {
            name: self.name@,
        }
    }
}

/// What `prompt versions` takes.
#[derive(Debug, Clone, PartialEq)]
pub struct VersionsArgs {
    /// The name of the template.
    pub name: String,
}

/// The model of [`VersionsArgs`].
pub struct VersionsArgsView {
    pub name: Seq<char>,
}

impl View for VersionsArgs {
    type V = VersionsArgsView;

    open spec fn view(&self) -> VersionsArgsView {
        VersionsArgsView {
            name: self.name@,
        }
    }
}

/// Where the text of a template comes from.
#[derive(Debug, Clone, PartialEq)]
pub enum TemplateSource {
    /// From the command line.
    Inline(String),
    /// From the file at a path.
    File(String),
}

/// The model of a [`TemplateSource`].
pub enum TemplateSourceView {
    Inline(Seq<char>),
    File(Seq<char>),
}

impl View for TemplateSource {
    type V = TemplateSourceView;

    open spec fn view(&self) -> TemplateSourceView {
        match self {
            TemplateSource::Inline(t) => TemplateSourceView::Inline(t@),
            TemplateSource::File(p) => TemplateSourceView::File(p@),
        }
    }
}

/// Where the text of a template comes from: the command line first, then a
/// file.
pub open spec fn template_source(template: Option<Seq<char>>, from_file: Option<Seq<char>>) -> Option<
    TemplateSourceView,
> {
    match template {
        Some(t) => Some(TemplateSourceView::Inline(t)),
        None => match from_file {
            Some(p) => Some(TemplateSourceView::File(p)),
            None => None,
        },
    }
}

/// Where the text of a template comes from.
pub fn choose_source(template: &Option<String>, from_file: &Option<String>) -> (r: Option<
    TemplateSource,
>)
    ensures
        opt_view(r) == template_source(opt_text(*template), opt_text(*from_file)),
{
    match template {
        Some(t) => Some(TemplateSource::Inline(t.clone())),
        None => match from_file {
            Some(p) => Some(TemplateSource::File(p.clone())),
            None => None,
        },
    }
}

/// The names of the variables that a list with commas names: its pieces,
/// each without the white space around it.
pub open spec fn variable_names(list: Seq<char>) -> Seq<Seq<char>> {
    Seq::new(pieces(list, ',').len(), |i: int| trimmed(pieces(list, ',')[i]))
}

impl AddArgsView {
    /// Where the text of the template comes from; an error where nothing
    /// says it.
    pub open spec fn source(self) -> Result<TemplateSourceView, Seq<char>> {
        match template_source(self.template, self.from_file) {
            Some(s) => Ok(s),
            None => Err("Provide --template or --from-file"@),
        }
    }

    /// The body that adds the template.
    pub open spec fn body(self, template: Seq<char>) -> JsonValue {
        let m = seq![
            ("name"@, JsonValue::String(self.name)),
            ("template"@, JsonValue::String(template)),
        ];
        JsonValue::Object(
            with_opt(
                m,
                "variables"@,
                match self.variables {
                    Some(list) => Some(
                        JsonValue::Array(encode_each::<String>(variable_names(list))),
                    ),
                    None => None,
                },
            ),
        )
    }
}

impl AddArgs {
    /// Where the text of the template comes from.
    pub fn source(&self) -> (r: Result<TemplateSource, String>)
        ensures
            match r {
                Ok(s) => self@.source() == Ok::<TemplateSourceView, Seq<char>>(s@),
                Err(e) => self@.source() == Err::<TemplateSourceView, Seq<char>>(e@),
            },
    {
        match choose_source(&self.template, &self.from_file) {
            Some(s) => Ok(s),
            None => Err("Provide --template or --from-file".to_owned()),
        }
    }

    /// The body that adds the template, given its text.
    pub fn body(&self, template: &str) -> (r: Json)
        ensures
            r@ == self@.body(template@),
    {
        let mut members: Vec<(String, Json)> = Vec::new();
        put_text(&mut members, "name", self.name.as_str());
        put_text(&mut members, "template", template);
        proof {
            assert(members_view(members@) =~= seq![
                ("name"@, JsonValue::String(self.name@)),
                ("template"@, JsonValue::String(template@)),
            ]);
        }
        let names = match &self.variables {
            Some(list) => {
                let names = split_trimmed(list.as_str(), ',');
                proof {
                    assert(seq_view(names@) =~= variable_names(list@));
                }
                Some(list_to_json(&names))
            },
            None => None,
        };
        put_opt(&mut members, "variables", names);
        proof {
            lemma_object_view(members);
        }
        Json::Object(members)
    }
}

impl UpdateArgsView {
    /// Where the new text of the template comes from, if it changes.
    pub open spec fn source(self) -> Option<TemplateSourceView> {
        template_source(self.template, self.from_file)
    }
}

/// The body that changes a template: its new text, where it changes.
pub open spec fn update_body_view(template: Option<Seq<char>>) -> JsonValue {
    JsonValue::Object(with_opt_text(Seq::empty(), "template"@, template))
}

impl UpdateArgs {
    /// Where the new text of the template comes from, if it changes.
    pub fn source(&self) -> (r: Option<TemplateSource>)
        ensures
            opt_view(r) == self@.source(),
    {
        choose_source(&self.template, &self.from_file)
    }

    /// The body that changes the template, given its new text.
    pub fn body(&self, template: &Option<String>) -> (r: Json)
        ensures
            r@ == update_body_view(opt_text(*template)),
    {
        let mut members: Vec<(String, Json)> = Vec::new();
        proof {
            assert(members_view(members@) =~= Seq::empty());
        }
        put_opt_text(&mut members, "template", template);
        proof {
            lemma_object_view(members);
        }
        Json::Object(members)
    }
}

} // verus!
