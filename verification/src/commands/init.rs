//! `agentoven init`: what the command takes, and what it makes of it.

use crate::text::opt_text;
use crate::wire::Wire;
use vstd::prelude::*;

verus! {

/// What `agentoven init` takes.
#[derive(Debug, Clone, PartialEq)]
pub struct InitArgs {
    /// The directory of the project.
    pub path: String,
    /// The name of the agent.
    pub name: Option<String>,
    /// The framework of the agent.
    pub framework: String,
}

/// The model of [`InitArgs`].
pub struct InitArgsView {
    pub path: Seq<char>,
    pub name: Option<Seq<char>>,
    pub framework: Seq<char>,
}

impl View for InitArgs {
    type V = InitArgsView;

    open spec fn view(&self) -> InitArgsView {
        InitArgsView {
            path: self.path@,
            name: opt_text(self.name),
            framework: self.framework@,
        }
    }
}

/// What is written into `.gitignore`.
pub const GITIGNORE: &'static str = ".agentoven/\n*.pyc\n__pycache__/\n.env\n";

/// The start of the configuration file, up to the name of the agent.
pub const CONFIG_HEAD: &'static str =
    "# AgentOven project configuration\n# Docs: https://agentoven.dev/docs/configuration\n\n[agent]\nname = \"";

/// The configuration file between the name and the framework.
pub const CONFIG_MIDDLE: &'static str =
    "\"\nversion = \"0.1.0\"\ndescription = \"\"\nframework = \"";

/// The rest of the configuration file.
pub const CONFIG_TAIL: &'static str =
    "\"\n\n[ingredients]\n# Models used by this agent\n# [[ingredients.models]]\n# name = \"gpt-4o\"\n# provider = \"azure-openai\"\n# role = \"primary\"\n\n# [[ingredients.models]]\n# name = \"sonnet\"\n# provider = \"anthropic\"\n# role = \"fallback\"\n\n# Tools used by this agent (via MCP)\n# [[ingredients.tools]]\n# name = \"document-reader\"\n# protocol = \"mcp\"\n# endpoint = \"http://localhost:3001\"\n\n[bake]\n# Deployment configuration\n# environment = \"production\"\n# replicas = 1\n\n[oven]\n# Control plane connection\n# url = \"http://localhost:8080\"\n# kitchen = \"default\"\n";

impl InitArgsView {
    /// The name of the project: the name that is given, or else the name of
    /// the directory, or else `my-agent`.
    pub open spec fn project_name(self, directory: Option<Seq<char>>) -> Seq<char> {
        match self.name {
            Some(name) => name,
            None => match directory {
                Some(d) => d,
                None => "my-agent"@,
            },
        }
    }
}

impl InitArgs {
    /// The name of the project, given the name of its directory.
    pub fn project_name(&self, directory: Option<&str>) -> (r: String)
        ensures
            r@ == self@.project_name(
                match directory {
                    Some(d) => Some(d@),
                    None => None,
                },
            ),
    {
        match &self.name {
            Some(name) => name.clone(),
            None => match directory {
                Some(d) => d.to_owned(),
                None => "my-agent".to_owned(),
            },
        }
    }
}

/// The configuration file of a new project.
pub fn config_text(project_name: &str, framework: &str) -> (r: String)
    ensures
        r@ == CONFIG_HEAD@ + project_name@ + CONFIG_MIDDLE@ + framework@ + CONFIG_TAIL@,
{
    let mut out = CONFIG_HEAD.to_owned();
    out.append(project_name);
    out.append(CONFIG_MIDDLE);
    out.append(framework);
    out.append(CONFIG_TAIL);
    out
}

/// The system prompt of a new project.
pub fn system_prompt_text(project_name: &str) -> (r: String)
    ensures
        r@ == "You are "@ + project_name@
            + ", an AI agent.\n\nDescribe this agent's purpose and behavior here.\n"@,
{
    let mut out = "You are ".to_owned();
    out.append(project_name);
    out.append(", an AI agent.\n\nDescribe this agent's purpose and behavior here.\n");
    out
}

} // verus!
