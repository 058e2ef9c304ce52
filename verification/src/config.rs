//! The settings of the SDK and the command line.

use crate::json::{
    get_bool_or_true, get_opt_text, key_mark, lemma_object_view, members_view, put, put_opt_text,
    read_bool_or_true, read_opt_text, with_opt_text, Json, JsonValue,
};
use crate::text::opt_text;
use crate::wire::{get_value_or, group_lookup, put_value, read_value_or, with_value, Wire};
use vstd::prelude::*;

verus! {

/// Settings for telemetry.
#[derive(Debug, Clone, PartialEq)]
pub struct TelemetryConfig {
    /// Whether telemetry is sent.
    pub enabled: bool,
    /// Where the OTLP exporter sends to.
    pub otlp_endpoint: String,
}

/// The model of a [`TelemetryConfig`].
pub struct TelemetryConfigView {
    pub enabled: bool,
    pub otlp_endpoint: Seq<char>,
}

impl View for TelemetryConfig {
    type V = TelemetryConfigView;

    open spec fn view(&self) -> TelemetryConfigView {
        TelemetryConfigView {
            enabled: self.enabled,
            otlp_endpoint: self.otlp_endpoint@,
        }
    }
}

impl Wire for TelemetryConfig {
    open spec fn encode(v: TelemetryConfigView) -> JsonValue {
        let m = Seq::empty();
        let m = m.push(("enabled"@, JsonValue::Bool(v.enabled)));
        let m = with_value::<String>(m, "otlp_endpoint"@, v.otlp_endpoint);
        JsonValue::Object(m)
    }

    open spec fn decode(j: JsonValue) -> Option<TelemetryConfigView> {
        match j {
            JsonValue::Object(m) => {
                let enabled = read_bool_or_true(m, "enabled"@);
                let otlp_endpoint = read_value_or::<String>(m, "otlp_endpoint"@, "http://localhost:4317"@);
                if enabled is Some && otlp_endpoint is Some {
                    Some(
                        TelemetryConfigView {
                            enabled: enabled.unwrap(),
                            otlp_endpoint: otlp_endpoint.unwrap(),
                        },
                    )
                } else {
                    None
                }
            },
            _ => None,
        }
    }

    open spec fn survives(v: TelemetryConfigView) -> bool {
        true
    }

    fn to_json(&self) -> (j: Json) {
        let mut members: Vec<(String, Json)> = Vec::new();
        proof {
            assert(members_view(members@) =~= Seq::empty());
        }
        put(&mut members, "enabled", Json::Bool(self.enabled));
        put_value(&mut members, "otlp_endpoint", &self.otlp_endpoint);
        proof {
            lemma_object_view(members);
        }
        Json::Object(members)
    }

    fn from_json(j: &Json) -> (r: Option<TelemetryConfig>) {
        let members = j.as_object()?;
        let enabled = get_bool_or_true(members, "enabled")?;
        let otlp_endpoint = get_value_or::<String>(members, "otlp_endpoint", default_otlp_endpoint())?;
        Some(TelemetryConfig { enabled, otlp_endpoint })
    }

    proof fn lemma_round_trip(v: TelemetryConfigView) {
        broadcast use group_lookup;

        reveal_strlit("enabled");
        reveal_strlit("otlp_endpoint");
        assert(key_mark("enabled"@) == (7nat, 'e', 'n'));
        assert(key_mark("otlp_endpoint"@) == (13nat, 'o', 't'));
        String::lemma_round_trip(v.otlp_endpoint);
        let m = Self::encode(v)->Object_0;
        assert(read_bool_or_true(m, "enabled"@) == Some(v.enabled));
        assert(read_value_or::<String>(m, "otlp_endpoint"@, "http://localhost:4317"@) == Some(
            v.otlp_endpoint,
        ));
    }
}

/// The settings of the SDK and the command line, as they are kept in
/// `~/.agentoven/config.toml`.
#[derive(Debug, Clone, PartialEq)]
pub struct AgentOvenConfig {
    /// The address of the control plane.
    pub url: String,
    /// The API key.
    pub api_key: Option<String>,
    /// The kitchen to work in.
    pub default_kitchen: Option<String>,
    /// The settings for telemetry.
    pub telemetry: TelemetryConfig,
}

/// The model of an [`AgentOvenConfig`].
pub struct AgentOvenConfigView {
    pub url: Seq<char>,
    pub api_key: Option<Seq<char>>,
    pub default_kitchen: Option<Seq<char>>,
    pub telemetry: TelemetryConfigView,
}

impl View for AgentOvenConfig {
    type V = AgentOvenConfigView;

    open spec fn view(&self) -> AgentOvenConfigView {
        AgentOvenConfigView {
            url: self.url@,
            api_key: opt_text(self.api_key),
            default_kitchen: opt_text(self.default_kitchen),
            telemetry: self.telemetry@,
        }
    }
}

impl Wire for AgentOvenConfig {
    open spec fn encode(v: AgentOvenConfigView) -> JsonValue {
        let m = Seq::empty();
        let m = with_value::<String>(m, "url"@, v.url);
        let m = with_opt_text(m, "api_key"@, v.api_key);
        let m = with_opt_text(m, "default_kitchen"@, v.default_kitchen);
        let m = with_value::<TelemetryConfig>(m, "telemetry"@, v.telemetry);
        JsonValue::Object(m)
    }

    open spec fn decode(j: JsonValue) -> Option<AgentOvenConfigView> {
        match j {
            JsonValue::Object(m) => {
                let url = read_value_or::<String>(m, "url"@, "http://localhost:8080"@);
                let api_key = read_opt_text(m, "api_key"@);
                let default_kitchen = read_opt_text(m, "default_kitchen"@);
                let telemetry = read_value_or::<TelemetryConfig>(m, "telemetry"@, TelemetryConfigView::standard());
                if url is Some
                    && api_key is Some
                    && default_kitchen is Some
                    && telemetry is Some
                {
                    Some(
                        AgentOvenConfigView {
                            url: url.unwrap(),
                            api_key: api_key.unwrap(),
                            default_kitchen: default_kitchen.unwrap(),
                            telemetry: telemetry.unwrap(),
                        },
                    )
                } else {
                    None
                }
            },
            _ => None,
        }
    }

    open spec fn survives(v: AgentOvenConfigView) -> bool {
        &&& TelemetryConfig::survives(v.telemetry)
    }

    fn to_json(&self) -> (j: Json) {
        let mut members: Vec<(String, Json)> = Vec::new();
        proof {
            assert(members_view(members@) =~= Seq::empty());
        }
        put_value(&mut members, "url", &self.url);
        put_opt_text(&mut members, "api_key", &self.api_key);
        put_opt_text(&mut members, "default_kitchen", &self.default_kitchen);
        put_value(&mut members, "telemetry", &self.telemetry);
        proof {
            lemma_object_view(members);
        }
        Json::Object(members)
    }

    fn from_json(j: &Json) -> (r: Option<AgentOvenConfig>) {
        let members = j.as_object()?;
        let url = get_value_or::<String>(members, "url", default_url())?;
        let api_key = get_opt_text(members, "api_key")?;
        let default_kitchen = get_opt_text(members, "default_kitchen")?;
        let telemetry = get_value_or::<TelemetryConfig>(members, "telemetry", TelemetryConfig::default())?;
        Some(AgentOvenConfig { url, api_key, default_kitchen, telemetry })
    }

    proof fn lemma_round_trip(v: AgentOvenConfigView) {
        broadcast use group_lookup;

        reveal_strlit("url");
        reveal_strlit("api_key");
        reveal_strlit("default_kitchen");
        reveal_strlit("telemetry");
        assert(key_mark("url"@) == (3nat, 'u', 'r'));
        assert(key_mark("api_key"@) == (7nat, 'a', 'p'));
        assert(key_mark("default_kitchen"@) == (15nat, 'd', 'e'));
        assert(key_mark("telemetry"@) == (9nat, 't', 'e'));
        String::lemma_round_trip(v.url);
        TelemetryConfig::lemma_round_trip(v.telemetry);
        let m = Self::encode(v)->Object_0;
        assert(read_value_or::<String>(m, "url"@, "http://localhost:8080"@) == Some(v.url));
        assert(read_opt_text(m, "api_key"@) == Some(v.api_key));
        assert(read_opt_text(m, "default_kitchen"@) == Some(v.default_kitchen));
        assert(read_value_or::<TelemetryConfig>(m, "telemetry"@, TelemetryConfigView::standard()) == Some(
            v.telemetry,
        ));
    }
}

/// The address of the control plane where nothing says it.
pub fn default_url() -> (r: String)
    ensures
        r@ == "http://localhost:8080"@,
{
    "http://localhost:8080".to_owned()
}

/// Whether telemetry is sent where nothing says so: it is.
pub fn default_true() -> (r: bool)
    ensures
        r,
{
    true
}

/// The address of the OTLP exporter where nothing says it.
pub fn default_otlp_endpoint() -> (r: String)
    ensures
        r@ == "http://localhost:4317"@,
{
    "http://localhost:4317".to_owned()
}

impl TelemetryConfigView {
    /// The settings where nothing is said: telemetry is sent to the local
    /// exporter.
    pub open spec fn standard() -> TelemetryConfigView {
        TelemetryConfigView { enabled: true, otlp_endpoint: "http://localhost:4317"@ }
    }
}

impl Default for TelemetryConfig {
    fn default() -> (r: TelemetryConfig)
        ensures
            r@ == TelemetryConfigView::standard(),
    {
        TelemetryConfig { enabled: default_true(), otlp_endpoint: default_otlp_endpoint() }
    }
}

impl AgentOvenConfigView {
    /// The settings where nothing is said: the local control plane, no key,
    /// no kitchen.
    pub open spec fn standard() -> AgentOvenConfigView {
        AgentOvenConfigView {
            url: "http://localhost:8080"@,
            api_key: None,
            default_kitchen: None,
            telemetry: TelemetryConfigView::standard(),
        }
    }
}

impl Default for AgentOvenConfig {
    fn default() -> (r: AgentOvenConfig)
        ensures
            r@ == AgentOvenConfigView::standard(),
    {
        AgentOvenConfig {
            url: default_url(),
            api_key: None,
            default_kitchen: None,
            telemetry: TelemetryConfig::default(),
        }
    }
}

} // verus!
