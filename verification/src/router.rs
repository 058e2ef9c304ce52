//! The providers that models are routed to.

use crate::json::{key_mark, Json, JsonValue};
use crate::text::text_eq;
use crate::wire::Wire;
use vstd::prelude::*;

verus! {

/// A provider of models.
#[derive(Debug, Clone, Copy, PartialEq, Eq, Structural)]
pub enum ProviderKind {
    /// Azure OpenAI.
    AzureOpenai,
    /// OpenAI.
    OpenAi,
    /// Anthropic.
    Anthropic,
    /// Amazon Bedrock.
    Bedrock,
    /// Databricks Foundation Models.
    DatabricksFoundation,
    /// Google Vertex AI.
    GoogleVertex,
    /// Ollama.
    Ollama,
    /// Another provider.
    Custom,
}

impl View for ProviderKind {
    type V = ProviderKind;

    open spec fn view(&self) -> ProviderKind {
        *self
    }
}

impl ProviderKind {
    /// The name on the wire.
    pub open spec fn name(self) -> Seq<char> {
        match self {
            ProviderKind::AzureOpenai => "azure-openai"@,
            ProviderKind::OpenAi => "open-ai"@,
            ProviderKind::Anthropic => "anthropic"@,
            ProviderKind::Bedrock => "bedrock"@,
            ProviderKind::DatabricksFoundation => "databricks-foundation"@,
            ProviderKind::GoogleVertex => "google-vertex"@,
            ProviderKind::Ollama => "ollama"@,
            ProviderKind::Custom => "custom"@,
        }
    }

    /// What a name stands for.
    pub open spec fn named(name: Seq<char>) -> Option<ProviderKind> {
        if name == "azure-openai"@ {
            Some(ProviderKind::AzureOpenai)
        } else if name == "open-ai"@ {
            Some(ProviderKind::OpenAi)
        } else if name == "anthropic"@ {
            Some(ProviderKind::Anthropic)
        } else if name == "bedrock"@ {
            Some(ProviderKind::Bedrock)
        } else if name == "databricks-foundation"@ {
            Some(ProviderKind::DatabricksFoundation)
        } else if name == "google-vertex"@ {
            Some(ProviderKind::GoogleVertex)
        } else if name == "ollama"@ {
            Some(ProviderKind::Ollama)
        } else if name == "custom"@ {
            Some(ProviderKind::Custom)
        } else {
            None
        }
    }

    /// The name on the wire.
    pub fn as_str(&self) -> (r: &'static str)
        ensures
            r@ == self.name(),
    {
        match self {
            ProviderKind::AzureOpenai => "azure-openai",
            ProviderKind::OpenAi => "open-ai",
            ProviderKind::Anthropic => "anthropic",
            ProviderKind::Bedrock => "bedrock",
            ProviderKind::DatabricksFoundation => "databricks-foundation",
            ProviderKind::GoogleVertex => "google-vertex",
            ProviderKind::Ollama => "ollama",
            ProviderKind::Custom => "custom",
        }
    }

    /// What a name stands for.
    pub fn from_name(name: &str) -> (r: Option<ProviderKind>)
        ensures
            r == ProviderKind::named(name@),
    {
        if text_eq(name, "azure-openai") {
            Some(ProviderKind::AzureOpenai)
        } else if text_eq(name, "open-ai") {
            Some(ProviderKind::OpenAi)
        } else if text_eq(name, "anthropic") {
            Some(ProviderKind::Anthropic)
        } else if text_eq(name, "bedrock") {
            Some(ProviderKind::Bedrock)
        } else if text_eq(name, "databricks-foundation") {
            Some(ProviderKind::DatabricksFoundation)
        } else if text_eq(name, "google-vertex") {
            Some(ProviderKind::GoogleVertex)
        } else if text_eq(name, "ollama") {
            Some(ProviderKind::Ollama)
        } else if text_eq(name, "custom") {
            Some(ProviderKind::Custom)
        } else {
            None
        }
    }

    /// Each value is the one that its own name stands for.
    pub proof fn lemma_name_round_trip(v: ProviderKind)
        ensures
            ProviderKind::named(v.name()) == Some(v),
    {
        reveal_strlit("azure-openai");
        reveal_strlit("open-ai");
        reveal_strlit("anthropic");
        reveal_strlit("bedrock");
        reveal_strlit("databricks-foundation");
        reveal_strlit("google-vertex");
        reveal_strlit("ollama");
        reveal_strlit("custom");
        assert(key_mark("azure-openai"@) == (12nat, 'a', 'z'));
        assert(key_mark("open-ai"@) == (7nat, 'o', 'p'));
        assert(key_mark("anthropic"@) == (9nat, 'a', 'n'));
        assert(key_mark("bedrock"@) == (7nat, 'b', 'e'));
        assert(key_mark("databricks-foundation"@) == (21nat, 'd', 'a'));
        assert(key_mark("google-vertex"@) == (13nat, 'g', 'o'));
        assert(key_mark("ollama"@) == (6nat, 'o', 'l'));
        assert(key_mark("custom"@) == (6nat, 'c', 'u'));
    }
}

impl Wire for ProviderKind {
    open spec fn encode(v: ProviderKind) -> JsonValue {
        JsonValue::String(v.name())
    }

    open spec fn decode(j: JsonValue) -> Option<ProviderKind> {
        match j {
            JsonValue::String(s) => ProviderKind::named(s),
            _ => None,
        }
    }

    open spec fn survives(v: ProviderKind) -> bool {
        true
    }

    fn to_json(&self) -> (j: Json) {
        Json::string(self.as_str())
    }

    fn from_json(j: &Json) -> (r: Option<ProviderKind>) {
        match j.as_str() {
            Some(s) => ProviderKind::from_name(s),
            None => None,
        }
    }

    proof fn lemma_round_trip(v: ProviderKind) {
        ProviderKind::lemma_name_round_trip(v);
    }
}

/// Whether a provider is enabled where nothing says so: it is.
pub fn default_true() -> (r: bool)
    ensures
        r,
{
    true
}

} // verus!
