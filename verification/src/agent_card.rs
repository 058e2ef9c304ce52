//! Agent cards: the documents in which agents describe themselves.
//!
//! An agent publishes its card at `/.well-known/agent-card.json`. A client
//! fetches it once, checks it, and keeps it for as long as it talks to the
//! agent.

use crate::error::{A2AError, A2AErrorView};
use crate::http::{headers_view, HttpMethod, HttpReply, HttpReplyView, HttpRequest, HttpRequestView};
use crate::json::{
    get_bool_or_false, get_opt_text, get_text, key_mark, lemma_object_view, members_view, parsed,
    put, put_opt_text, put_text, read_bool_or_false, read_opt_text, read_text, text_refusal,
    with_opt_text, Json, JsonValue,
};
use crate::model::{opt_view, seq_view};
use crate::text::{concat, opt_text, text_eq, trim_end_char, without_trailing};
use crate::url::WebUrl;
use crate::wire::{
    each_survives, get_list, get_list_or_empty, get_opt_value, get_value, get_value_or,
    group_lookup, lemma_each_round_trip, put_filled_list, put_list, put_opt_value, put_value,
    read_list, read_list_or_empty, read_opt_value, read_value, read_value_or, with_filled_list,
    with_list, with_opt_value, with_value, Wire,
};
use vstd::prelude::*;

verus! {

/// A kind of content, named by its media type.
#[derive(Debug, Clone, PartialEq)]
pub struct ContentType {
    /// The media type, such as `text/plain`.
    pub media_type: String,
}

impl View for ContentType {
    type V = Seq<char>;

    open spec fn view(&self) -> Seq<char> {
        self.media_type@
    }
}

impl ContentType {
    /// Plain text.
    pub fn text() -> (r: ContentType)
        ensures
            r@ == "text/plain"@,
    {
        ContentType { media_type: "text/plain".to_owned() }
    }

    /// JSON.
    pub fn json() -> (r: ContentType)
        ensures
            r@ == "application/json"@,
    {
        ContentType { media_type: "application/json".to_owned() }
    }

    /// The JSON of A2A bodies.
    pub fn a2a_json() -> (r: ContentType)
        ensures
            r@ == "application/a2a+json"@,
    {
        ContentType { media_type: "application/a2a+json".to_owned() }
    }
}

impl Wire for ContentType {
    open spec fn encode(v: Seq<char>) -> JsonValue {
        JsonValue::Object(seq![("mediaType"@, JsonValue::String(v))])
    }

    open spec fn decode(j: JsonValue) -> Option<Seq<char>> {
        match j {
            JsonValue::Object(m) => read_text(m, "mediaType"@),
            _ => None,
        }
    }

    open spec fn survives(v: Seq<char>) -> bool {
        true
    }

    fn to_json(&self) -> (j: Json) {
        let mut members: Vec<(String, Json)> = Vec::new();
        put_text(&mut members, "mediaType", self.media_type.as_str());
        proof {
            lemma_object_view(members);
            assert(members_view(members@) =~= seq![
                ("mediaType"@, JsonValue::String(self.media_type@)),
            ]);
        }
        Json::Object(members)
    }

    fn from_json(j: &Json) -> (r: Option<ContentType>) {
        let members = j.as_object()?;
        let media_type = get_text(members, "mediaType")?;
        Some(ContentType { media_type })
    }

    proof fn lemma_round_trip(v: Seq<char>) {
        broadcast use group_lookup;

        let m = Seq::<(Seq<char>, JsonValue)>::empty().push(("mediaType"@, JsonValue::String(v)));
        assert(m =~= seq![("mediaType"@, JsonValue::String(v))]);
        assert(read_text(m, "mediaType"@) == Some(v));
    }
}

/// Who made an agent.
#[derive(Debug, Clone, PartialEq)]
pub struct AgentProvider {
    /// The organization's name.
    pub organization: String,
    /// The organization's web address.
    pub url: Option<WebUrl>,
}

/// The model of an [`AgentProvider`].
pub struct AgentProviderView {
    pub organization: Seq<char>,
    pub url: Option<Seq<char>>,
}

impl View for AgentProvider {
    type V = AgentProviderView;

    open spec fn view(&self) -> AgentProviderView {
        AgentProviderView { organization: self.organization@, url: opt_view(self.url) }
    }
}

impl Wire for AgentProvider {
    open spec fn encode(v: AgentProviderView) -> JsonValue {
        let m = Seq::empty();
        let m = m.push(("organization"@, JsonValue::String(v.organization)));
        JsonValue::Object(with_opt_value::<WebUrl>(m, "url"@, v.url))
    }

    open spec fn decode(j: JsonValue) -> Option<AgentProviderView> {
        match j {
            JsonValue::Object(m) => match (
                read_text(m, "organization"@),
                read_opt_value::<WebUrl>(m, "url"@),
            ) {
                (Some(organization), Some(url)) => Some(AgentProviderView { organization, url }),
                _ => None,
            },
            _ => None,
        }
    }

    open spec fn survives(v: AgentProviderView) -> bool {
        v.url matches Some(u) ==> WebUrl::survives(u)
    }

    fn to_json(&self) -> (j: Json) {
        let mut members: Vec<(String, Json)> = Vec::new();
        proof {
            assert(members_view(members@) =~= Seq::empty());
        }
        put_text(&mut members, "organization", self.organization.as_str());
        put_opt_value(&mut members, "url", &self.url);
        proof {
            lemma_object_view(members);
        }
        Json::Object(members)
    }

    fn from_json(j: &Json) -> (r: Option<AgentProvider>) {
        let members = j.as_object()?;
        let organization = get_text(members, "organization")?;
        let url = get_opt_value::<WebUrl>(members, "url")?;
        Some(AgentProvider { organization, url })
    }

    proof fn lemma_round_trip(v: AgentProviderView) {
        broadcast use group_lookup;

        reveal_strlit("organization");
        reveal_strlit("url");
        assert(key_mark("organization"@) == (12nat, 'o', 'r'));
        assert(key_mark("url"@) == (3nat, 'u', 'r'));
        let m = Self::encode(v)->Object_0;
        assert(read_text(m, "organization"@) == Some(v.organization));
        assert(read_opt_value::<WebUrl>(m, "url"@) == Some(v.url));
    }
}

/// How an interface is spoken to.
#[derive(Debug, Clone, PartialEq)]
pub enum ProtocolBinding {
    /// JSON-RPC 2.0 over HTTP.
    JsonrpcHttp,
    /// gRPC.
    Grpc,
    /// HTTP with JSON bodies.
    HttpJson,
    /// A binding of the agent's own, by name.
    Custom(String),
}

/// The model of a [`ProtocolBinding`].
pub enum ProtocolBindingView {
    JsonrpcHttp,
    Grpc,
    HttpJson,
    Custom(Seq<char>),
}

impl View for ProtocolBinding {
    type V = ProtocolBindingView;

    open spec fn view(&self) -> ProtocolBindingView {
        match self {
            ProtocolBinding::JsonrpcHttp => ProtocolBindingView::JsonrpcHttp,
            ProtocolBinding::Grpc => ProtocolBindingView::Grpc,
            ProtocolBinding::HttpJson => ProtocolBindingView::HttpJson,
            ProtocolBinding::Custom(s) => ProtocolBindingView::Custom(s@),
        }
    }
}

impl ProtocolBindingView {
    /// The name of the binding on the wire.
    pub open spec fn name(self) -> Seq<char> {
        match self {
            ProtocolBindingView::JsonrpcHttp => "jsonrpc-http"@,
            ProtocolBindingView::Grpc => "grpc"@,
            ProtocolBindingView::HttpJson => "http-json"@,
            ProtocolBindingView::Custom(s) => s,
        }
    }

    /// The binding with a given name: one of the three that the protocol
    /// names, or else a binding of the agent's own.
    pub open spec fn named(name: Seq<char>) -> ProtocolBindingView {
        if name == "jsonrpc-http"@ {
            ProtocolBindingView::JsonrpcHttp
        } else if name == "grpc"@ {
            ProtocolBindingView::Grpc
        } else if name == "http-json"@ {
            ProtocolBindingView::HttpJson
        } else {
            ProtocolBindingView::Custom(name)
        }
    }
}

impl Wire for ProtocolBinding {
    open spec fn encode(v: ProtocolBindingView) -> JsonValue {
        JsonValue::String(v.name())
    }

    open spec fn decode(j: JsonValue) -> Option<ProtocolBindingView> {
        match j {
            JsonValue::String(s) => Some(ProtocolBindingView::named(s)),
            _ => None,
        }
    }

    /// A binding of the agent's own that goes by one of the protocol's three
    /// names is read back as the protocol's binding.
    open spec fn survives(v: ProtocolBindingView) -> bool {
        v matches ProtocolBindingView::Custom(s) ==> s != "jsonrpc-http"@ && s != "grpc"@ && s
            != "http-json"@
    }

    fn to_json(&self) -> (j: Json) {
        match self {
            ProtocolBinding::JsonrpcHttp => Json::string("jsonrpc-http"),
            ProtocolBinding::Grpc => Json::string("grpc"),
            ProtocolBinding::HttpJson => Json::string("http-json"),
            ProtocolBinding::Custom(s) => Json::string(s.as_str()),
        }
    }

    fn from_json(j: &Json) -> (r: Option<ProtocolBinding>) {
        let name = j.as_str()?;
        if text_eq(name, "jsonrpc-http") {
            Some(ProtocolBinding::JsonrpcHttp)
        } else if text_eq(name, "grpc") {
            Some(ProtocolBinding::Grpc)
        } else if text_eq(name, "http-json") {
            Some(ProtocolBinding::HttpJson)
        } else {
            Some(ProtocolBinding::Custom(name.to_owned()))
        }
    }

    proof fn lemma_round_trip(v: ProtocolBindingView) {
        reveal_strlit("jsonrpc-http");
        reveal_strlit("grpc");
        reveal_strlit("http-json");
        assert(key_mark("jsonrpc-http"@) == (12nat, 'j', 's'));
        assert(key_mark("grpc"@) == (4nat, 'g', 'r'));
        assert(key_mark("http-json"@) == (9nat, 'h', 't'));
    }
}

/// One way to reach an agent: an address and how it is spoken to.
#[derive(Debug, Clone, PartialEq)]
pub struct AgentInterface {
    /// The address of the interface.
    pub url: WebUrl,
    /// How the interface is spoken to.
    pub protocol_binding: ProtocolBinding,
    /// The version of the protocol, such as `1.0`.
    pub protocol_version: Option<String>,
}

/// The model of an [`AgentInterface`].
pub struct AgentInterfaceView {
    pub url: Seq<char>,
    pub protocol_binding: ProtocolBindingView,
    pub protocol_version: Option<Seq<char>>,
}

impl View for AgentInterface {
    type V = AgentInterfaceView;

    open spec fn view(&self) -> AgentInterfaceView {
        AgentInterfaceView {
            url: self.url@,
            protocol_binding: self.protocol_binding@,
            protocol_version: opt_text(self.protocol_version),
        }
    }
}

impl Wire for AgentInterface {
    open spec fn encode(v: AgentInterfaceView) -> JsonValue {
        let m = Seq::empty();
        let m = with_value::<WebUrl>(m, "url"@, v.url);
        let m = with_value::<ProtocolBinding>(m, "protocolBinding"@, v.protocol_binding);
        JsonValue::Object(with_opt_text(m, "protocolVersion"@, v.protocol_version))
    }

    open spec fn decode(j: JsonValue) -> Option<AgentInterfaceView> {
        match j {
            JsonValue::Object(m) => match (
                read_value::<WebUrl>(m, "url"@),
                read_value::<ProtocolBinding>(m, "protocolBinding"@),
                read_opt_text(m, "protocolVersion"@),
            ) {
                (Some(url), Some(protocol_binding), Some(protocol_version)) => Some(
                    AgentInterfaceView { url, protocol_binding, protocol_version },
                ),
                _ => None,
            },
            _ => None,
        }
    }

    open spec fn survives(v: AgentInterfaceView) -> bool {
        WebUrl::survives(v.url) && ProtocolBinding::survives(v.protocol_binding)
    }

    fn to_json(&self) -> (j: Json) {
        let mut members: Vec<(String, Json)> = Vec::new();
        proof {
            assert(members_view(members@) =~= Seq::empty());
        }
        put_value(&mut members, "url", &self.url);
        put_value(&mut members, "protocolBinding", &self.protocol_binding);
        put_opt_text(&mut members, "protocolVersion", &self.protocol_version);
        proof {
            lemma_object_view(members);
        }
        Json::Object(members)
    }

    fn from_json(j: &Json) -> (r: Option<AgentInterface>) {
        let members = j.as_object()?;
        let url = get_value::<WebUrl>(members, "url")?;
        let protocol_binding = get_value::<ProtocolBinding>(members, "protocolBinding")?;
        let protocol_version = get_opt_text(members, "protocolVersion")?;
        Some(AgentInterface { url, protocol_binding, protocol_version })
    }

    proof fn lemma_round_trip(v: AgentInterfaceView) {
        broadcast use group_lookup;

        reveal_strlit("url");
        reveal_strlit("protocolBinding");
        reveal_strlit("protocolVersion");
        assert(key_mark("url"@) == (3nat, 'u', 'r'));
        assert(key_mark("protocolBinding"@) == (15nat, 'p', 'r'));
        assert(key_mark("protocolVersion"@) == (15nat, 'p', 'r'));
        assert("protocolBinding"@[8] == 'B');
        assert("protocolVersion"@[8] == 'V');
        WebUrl::lemma_round_trip(v.url);
        ProtocolBinding::lemma_round_trip(v.protocol_binding);
        let m = Self::encode(v)->Object_0;
        assert(read_value::<WebUrl>(m, "url"@) == Some(v.url));
        assert(read_value::<ProtocolBinding>(m, "protocolBinding"@) == Some(v.protocol_binding));
        assert(read_opt_text(m, "protocolVersion"@) == Some(v.protocol_version));
    }
}

/// An extension that an agent declares.
#[derive(Debug, Clone, PartialEq)]
pub struct AgentExtension {
    /// The URI that names the extension.
    pub uri: String,
    /// What the extension is for.
    pub description: Option<String>,
    /// Whether a client has to use the extension.
    pub required: bool,
}

/// The model of an [`AgentExtension`].
pub struct AgentExtensionView {
    pub uri: Seq<char>,
    pub description: Option<Seq<char>>,
    pub required: bool,
}

impl View for AgentExtension {
    type V = AgentExtensionView;

    open spec fn view(&self) -> AgentExtensionView {
        AgentExtensionView {
            uri: self.uri@,
            description: opt_text(self.description),
            required: self.required,
        }
    }
}

impl Wire for AgentExtension {
    open spec fn encode(v: AgentExtensionView) -> JsonValue {
        let m = Seq::empty();
        let m = m.push(("uri"@, JsonValue::String(v.uri)));
        let m = with_opt_text(m, "description"@, v.description);
        JsonValue::Object(m.push(("required"@, JsonValue::Bool(v.required))))
    }

    open spec fn decode(j: JsonValue) -> Option<AgentExtensionView> {
        match j {
            JsonValue::Object(m) => match (
                read_text(m, "uri"@),
                read_opt_text(m, "description"@),
                read_bool_or_false(m, "required"@),
            ) {
                (Some(uri), Some(description), Some(required)) => Some(
                    AgentExtensionView { uri, description, required },
                ),
                _ => None,
            },
            _ => None,
        }
    }

    open spec fn survives(v: AgentExtensionView) -> bool {
        true
    }

    fn to_json(&self) -> (j: Json) {
        let mut members: Vec<(String, Json)> = Vec::new();
        proof {
            assert(members_view(members@) =~= Seq::empty());
        }
        put_text(&mut members, "uri", self.uri.as_str());
        put_opt_text(&mut members, "description", &self.description);
        put(&mut members, "required", Json::Bool(self.required));
        proof {
            lemma_object_view(members);
        }
        Json::Object(members)
    }

    fn from_json(j: &Json) -> (r: Option<AgentExtension>) {
        let members = j.as_object()?;
        let uri = get_text(members, "uri")?;
        let description = get_opt_text(members, "description")?;
        let required = get_bool_or_false(members, "required")?;
        Some(AgentExtension { uri, description, required })
    }

    proof fn lemma_round_trip(v: AgentExtensionView) {
        broadcast use group_lookup;

        reveal_strlit("uri");
        reveal_strlit("description");
        reveal_strlit("required");
        assert(key_mark("uri"@) == (3nat, 'u', 'r'));
        assert(key_mark("description"@) == (11nat, 'd', 'e'));
        assert(key_mark("required"@) == (8nat, 'r', 'e'));
        let m = Self::encode(v)->Object_0;
        assert(read_text(m, "uri"@) == Some(v.uri));
        assert(read_opt_text(m, "description"@) == Some(v.description));
        assert(read_bool_or_false(m, "required"@) == Some(v.required));
    }
}

/// What an agent says it can do beyond the basics.
#[derive(Debug, Clone, PartialEq)]
pub struct AgentCapabilities {
    /// Whether the agent answers with streams of events.
    pub streaming: bool,
    /// Whether the agent sends push notifications.
    pub push_notifications: bool,
    /// Whether the agent has a longer card for clients that authenticate.
    pub extended_agent_card: bool,
    /// The extensions that the agent declares.
    pub extensions: Vec<AgentExtension>,
}

/// The model of [`AgentCapabilities`].
pub struct AgentCapabilitiesView {
    pub streaming: bool,
    pub push_notifications: bool,
    pub extended_agent_card: bool,
    pub extensions: Seq<AgentExtensionView>,
}

impl View for AgentCapabilities {
    type V = AgentCapabilitiesView;

    open spec fn view(&self) -> AgentCapabilitiesView {
        AgentCapabilitiesView {
            streaming: self.streaming,
            push_notifications: self.push_notifications,
            extended_agent_card: self.extended_agent_card,
            extensions: seq_view(self.extensions@),
        }
    }
}

impl AgentCapabilitiesView {
    /// The capabilities of an agent that declares none.
    pub open spec fn none() -> AgentCapabilitiesView {
        AgentCapabilitiesView {
            streaming: false,
            push_notifications: false,
            extended_agent_card: false,
            extensions: Seq::empty(),
        }
    }
}

impl Default for AgentCapabilities {
    fn default() -> (r: AgentCapabilities)
        ensures
            r@ == AgentCapabilitiesView::none(),
    {
        let r = AgentCapabilities {
            streaming: false,
            push_notifications: false,
            extended_agent_card: false,
            extensions: Vec::new(),
        };
        assert(seq_view(r.extensions@) =~= Seq::empty());
        r
    }
}

impl Wire for AgentCapabilities {
    open spec fn encode(v: AgentCapabilitiesView) -> JsonValue {
        let m = Seq::empty();
        let m = m.push(("streaming"@, JsonValue::Bool(v.streaming)));
        let m = m.push(("pushNotifications"@, JsonValue::Bool(v.push_notifications)));
        let m = m.push(("extendedAgentCard"@, JsonValue::Bool(v.extended_agent_card)));
        JsonValue::Object(with_filled_list::<AgentExtension>(m, "extensions"@, v.extensions))
    }

    open spec fn decode(j: JsonValue) -> Option<AgentCapabilitiesView> {
        match j {
            JsonValue::Object(m) => match (
                read_bool_or_false(m, "streaming"@),
                read_bool_or_false(m, "pushNotifications"@),
                read_bool_or_false(m, "extendedAgentCard"@),
                read_list_or_empty::<AgentExtension>(m, "extensions"@),
            ) {
                (
                    Some(streaming),
                    Some(push_notifications),
                    Some(extended_agent_card),
                    Some(extensions),
                ) => Some(
                    AgentCapabilitiesView {
                        streaming,
                        push_notifications,
                        extended_agent_card,
                        extensions,
                    },
                ),
                _ => None,
            },
            _ => None,
        }
    }

    open spec fn survives(v: AgentCapabilitiesView) -> bool {
        true
    }

    fn to_json(&self) -> (j: Json) {
        let mut members: Vec<(String, Json)> = Vec::new();
        proof {
            assert(members_view(members@) =~= Seq::empty());
        }
        put(&mut members, "streaming", Json::Bool(self.streaming));
        put(&mut members, "pushNotifications", Json::Bool(self.push_notifications));
        put(&mut members, "extendedAgentCard", Json::Bool(self.extended_agent_card));
        put_filled_list(&mut members, "extensions", &self.extensions);
        proof {
            lemma_object_view(members);
        }
        Json::Object(members)
    }

    fn from_json(j: &Json) -> (r: Option<AgentCapabilities>) {
        let members = j.as_object()?;
        let streaming = get_bool_or_false(members, "streaming")?;
        let push_notifications = get_bool_or_false(members, "pushNotifications")?;
        let extended_agent_card = get_bool_or_false(members, "extendedAgentCard")?;
        let extensions = get_list_or_empty::<AgentExtension>(members, "extensions")?;
        Some(AgentCapabilities { streaming, push_notifications, extended_agent_card, extensions })
    }

    proof fn lemma_round_trip(v: AgentCapabilitiesView) {
        broadcast use group_lookup;

        reveal_strlit("streaming");
        reveal_strlit("pushNotifications");
        reveal_strlit("extendedAgentCard");
        reveal_strlit("extensions");
        assert(key_mark("streaming"@) == (9nat, 's', 't'));
        assert(key_mark("pushNotifications"@) == (17nat, 'p', 'u'));
        assert(key_mark("extendedAgentCard"@) == (17nat, 'e', 'x'));
        assert(key_mark("extensions"@) == (10nat, 'e', 'x'));
        assert(each_survives::<AgentExtension>(v.extensions));
        lemma_each_round_trip::<AgentExtension>(v.extensions);
        let m = Self::encode(v)->Object_0;
        assert(read_bool_or_false(m, "streaming"@) == Some(v.streaming));
        assert(read_bool_or_false(m, "pushNotifications"@) == Some(v.push_notifications));
        assert(read_bool_or_false(m, "extendedAgentCard"@) == Some(v.extended_agent_card));
        assert(read_list_or_empty::<AgentExtension>(m, "extensions"@) == Some(v.extensions));
    }
}

/// One thing that an agent can do.
#[derive(Debug, Clone, PartialEq)]
pub struct AgentSkill {
    /// The skill's identifier.
    pub id: String,
    /// A name for readers.
    pub name: String,
    /// What the skill does.
    pub description: String,
    /// Words to find the skill by.
    pub tags: Vec<String>,
    /// Prompts that show the skill.
    pub examples: Vec<String>,
    /// The kinds of input that the skill takes, where they differ from the
    /// agent's.
    pub input_modes: Vec<ContentType>,
    /// The kinds of output that the skill gives, where they differ from the
    /// agent's.
    pub output_modes: Vec<ContentType>,
}

/// The model of an [`AgentSkill`].
pub struct AgentSkillView {
    pub id: Seq<char>,
    pub name: Seq<char>,
    pub description: Seq<char>,
    pub tags: Seq<Seq<char>>,
    pub examples: Seq<Seq<char>>,
    pub input_modes: Seq<Seq<char>>,
    pub output_modes: Seq<Seq<char>>,
}

impl View for AgentSkill {
    type V = AgentSkillView;

    open spec fn view(&self) -> AgentSkillView {
        AgentSkillView {
            id: self.id@,
            name: self.name@,
            description: self.description@,
            tags: seq_view(self.tags@),
            examples: seq_view(self.examples@),
            input_modes: seq_view(self.input_modes@),
            output_modes: seq_view(self.output_modes@),
        }
    }
}

impl Wire for AgentSkill {
    open spec fn encode(v: AgentSkillView) -> JsonValue {
        let m = Seq::empty();
        let m = m.push(("id"@, JsonValue::String(v.id)));
        let m = m.push(("name"@, JsonValue::String(v.name)));
        let m = m.push(("description"@, JsonValue::String(v.description)));
        let m = with_filled_list::<String>(m, "tags"@, v.tags);
        let m = with_filled_list::<String>(m, "examples"@, v.examples);
        let m = with_filled_list::<ContentType>(m, "inputModes"@, v.input_modes);
        JsonValue::Object(with_filled_list::<ContentType>(m, "outputModes"@, v.output_modes))
    }

    open spec fn decode(j: JsonValue) -> Option<AgentSkillView> {
        match j {
            JsonValue::Object(m) => match (
                read_text(m, "id"@),
                read_text(m, "name"@),
                read_text(m, "description"@),
                read_list_or_empty::<String>(m, "tags"@),
                read_list_or_empty::<String>(m, "examples"@),
                read_list_or_empty::<ContentType>(m, "inputModes"@),
                read_list_or_empty::<ContentType>(m, "outputModes"@),
            ) {
                (
                    Some(id),
                    Some(name),
                    Some(description),
                    Some(tags),
                    Some(examples),
                    Some(input_modes),
                    Some(output_modes),
                ) => Some(
                    AgentSkillView {
                        id,
                        name,
                        description,
                        tags,
                        examples,
                        input_modes,
                        output_modes,
                    },
                ),
                _ => None,
            },
            _ => None,
        }
    }

    open spec fn survives(v: AgentSkillView) -> bool {
        true
    }

    fn to_json(&self) -> (j: Json) {
        let mut members: Vec<(String, Json)> = Vec::new();
        proof {
            assert(members_view(members@) =~= Seq::empty());
        }
        put_text(&mut members, "id", self.id.as_str());
        put_text(&mut members, "name", self.name.as_str());
        put_text(&mut members, "description", self.description.as_str());
        put_filled_list(&mut members, "tags", &self.tags);
        put_filled_list(&mut members, "examples", &self.examples);
        put_filled_list(&mut members, "inputModes", &self.input_modes);
        put_filled_list(&mut members, "outputModes", &self.output_modes);
        proof {
            lemma_object_view(members);
        }
        Json::Object(members)
    }

    fn from_json(j: &Json) -> (r: Option<AgentSkill>) {
        let members = j.as_object()?;
        let id = get_text(members, "id")?;
        let name = get_text(members, "name")?;
        let description = get_text(members, "description")?;
        let tags = get_list_or_empty::<String>(members, "tags")?;
        let examples = get_list_or_empty::<String>(members, "examples")?;
        let input_modes = get_list_or_empty::<ContentType>(members, "inputModes")?;
        let output_modes = get_list_or_empty::<ContentType>(members, "outputModes")?;
        Some(AgentSkill { id, name, description, tags, examples, input_modes, output_modes })
    }

    proof fn lemma_round_trip(v: AgentSkillView) {
        broadcast use group_lookup;

        reveal_strlit("id");
        reveal_strlit("name");
        reveal_strlit("description");
        reveal_strlit("tags");
        reveal_strlit("examples");
        reveal_strlit("inputModes");
        reveal_strlit("outputModes");
        assert(key_mark("id"@) == (2nat, 'i', 'd'));
        assert(key_mark("name"@) == (4nat, 'n', 'a'));
        assert(key_mark("description"@) == (11nat, 'd', 'e'));
        assert(key_mark("tags"@) == (4nat, 't', 'a'));
        assert(key_mark("examples"@) == (8nat, 'e', 'x'));
        assert(key_mark("inputModes"@) == (10nat, 'i', 'n'));
        assert(key_mark("outputModes"@) == (11nat, 'o', 'u'));
        assert(each_survives::<String>(v.tags));
        assert(each_survives::<String>(v.examples));
        assert(each_survives::<ContentType>(v.input_modes));
        assert(each_survives::<ContentType>(v.output_modes));
        lemma_each_round_trip::<String>(v.tags);
        lemma_each_round_trip::<String>(v.examples);
        lemma_each_round_trip::<ContentType>(v.input_modes);
        lemma_each_round_trip::<ContentType>(v.output_modes);
        let m = Self::encode(v)->Object_0;
        assert(read_text(m, "id"@) == Some(v.id));
        assert(read_text(m, "name"@) == Some(v.name));
        assert(read_text(m, "description"@) == Some(v.description));
        assert(read_list_or_empty::<String>(m, "tags"@) == Some(v.tags));
        assert(read_list_or_empty::<String>(m, "examples"@) == Some(v.examples));
        assert(read_list_or_empty::<ContentType>(m, "inputModes"@) == Some(v.input_modes));
        assert(read_list_or_empty::<ContentType>(m, "outputModes"@) == Some(v.output_modes));
    }
}

/// Where an API key travels.
#[derive(Debug, Clone, Copy, PartialEq, Eq, Structural)]
pub enum ApiKeyLocation {
    Header,
    Query,
    Cookie,
}

impl View for ApiKeyLocation {
    type V = ApiKeyLocation;

    open spec fn view(&self) -> ApiKeyLocation {
        *self
    }
}

impl Wire for ApiKeyLocation {
    open spec fn encode(v: ApiKeyLocation) -> JsonValue {
        match v {
            ApiKeyLocation::Header => JsonValue::String("header"@),
            ApiKeyLocation::Query => JsonValue::String("query"@),
            ApiKeyLocation::Cookie => JsonValue::String("cookie"@),
        }
    }

    open spec fn decode(j: JsonValue) -> Option<ApiKeyLocation> {
        match j {
            JsonValue::String(s) => if s == "header"@ {
                Some(ApiKeyLocation::Header)
            } else if s == "query"@ {
                Some(ApiKeyLocation::Query)
            } else if s == "cookie"@ {
                Some(ApiKeyLocation::Cookie)
            } else {
                None
            },
            _ => None,
        }
    }

    open spec fn survives(v: ApiKeyLocation) -> bool {
        true
    }

    fn to_json(&self) -> (j: Json) {
        match self {
            ApiKeyLocation::Header => Json::string("header"),
            ApiKeyLocation::Query => Json::string("query"),
            ApiKeyLocation::Cookie => Json::string("cookie"),
        }
    }

    fn from_json(j: &Json) -> (r: Option<ApiKeyLocation>) {
        let name = j.as_str()?;
        if text_eq(name, "header") {
            Some(ApiKeyLocation::Header)
        } else if text_eq(name, "query") {
            Some(ApiKeyLocation::Query)
        } else if text_eq(name, "cookie") {
            Some(ApiKeyLocation::Cookie)
        } else {
            None
        }
    }

    proof fn lemma_round_trip(v: ApiKeyLocation) {
        reveal_strlit("header");
        reveal_strlit("query");
        reveal_strlit("cookie");
        assert(key_mark("header"@) == (6nat, 'h', 'e'));
        assert(key_mark("query"@) == (5nat, 'q', 'u'));
        assert(key_mark("cookie"@) == (6nat, 'c', 'o'));
    }
}

/// A way to authenticate, after the security schemes of OpenAPI.
#[derive(Debug, Clone, PartialEq)]
pub enum SecurityScheme {
    /// An API key in a header, the query or a cookie.
    ApiKey { name: String, location: ApiKeyLocation, description: Option<String> },
    /// HTTP authentication, such as Bearer or Basic.
    Http { scheme: String, bearer_format: Option<String>, description: Option<String> },
    /// OAuth 2.0.
    OAuth2 { flows: Json, description: Option<String> },
    /// OpenID Connect.
    OpenIdConnect { open_id_connect_url: WebUrl, description: Option<String> },
}

/// The model of a [`SecurityScheme`].
pub enum SecuritySchemeView {
    ApiKey { name: Seq<char>, location: ApiKeyLocation, description: Option<Seq<char>> },
    Http { scheme: Seq<char>, bearer_format: Option<Seq<char>>, description: Option<Seq<char>> },
    OAuth2 { flows: JsonValue, description: Option<Seq<char>> },
    OpenIdConnect { open_id_connect_url: Seq<char>, description: Option<Seq<char>> },
}

impl View for SecurityScheme {
    type V = SecuritySchemeView;

    open spec fn view(&self) -> SecuritySchemeView {
        match self {
            SecurityScheme::ApiKey { name, location, description } => SecuritySchemeView::ApiKey {
                name: name@,
                location: *location,
                description: opt_text(*description),
            },
            SecurityScheme::Http { scheme, bearer_format, description } => SecuritySchemeView::Http {
                scheme: scheme@,
                bearer_format: opt_text(*bearer_format),
                description: opt_text(*description),
            },
            SecurityScheme::OAuth2 { flows, description } => SecuritySchemeView::OAuth2 {
                flows: flows@,
                description: opt_text(*description),
            },
            SecurityScheme::OpenIdConnect {
                open_id_connect_url,
                description,
            } => SecuritySchemeView::OpenIdConnect {
                open_id_connect_url: open_id_connect_url@,
                description: opt_text(*description),
            },
        }
    }
}

impl Wire for SecurityScheme {
    open spec fn encode(v: SecuritySchemeView) -> JsonValue {
        let m = Seq::empty();
        match v {
            SecuritySchemeView::ApiKey { name, location, description } => {
                let m = m.push(("type"@, JsonValue::String("apiKey"@)));
                let m = m.push(("name"@, JsonValue::String(name)));
                let m = with_value::<ApiKeyLocation>(m, "in"@, location);
                JsonValue::Object(with_opt_text(m, "description"@, description))
            },
            SecuritySchemeView::Http { scheme, bearer_format, description } => {
                let m = m.push(("type"@, JsonValue::String("http"@)));
                let m = m.push(("scheme"@, JsonValue::String(scheme)));
                let m = with_opt_text(m, "bearer_format"@, bearer_format);
                JsonValue::Object(with_opt_text(m, "description"@, description))
            },
            SecuritySchemeView::OAuth2 { flows, description } => {
                let m = m.push(("type"@, JsonValue::String("oauth2"@)));
                let m = with_value::<Json>(m, "flows"@, flows);
                JsonValue::Object(with_opt_text(m, "description"@, description))
            },
            SecuritySchemeView::OpenIdConnect { open_id_connect_url, description } => {
                let m = m.push(("type"@, JsonValue::String("openIdConnect"@)));
                let m = with_value::<WebUrl>(m, "open_id_connect_url"@, open_id_connect_url);
                JsonValue::Object(with_opt_text(m, "description"@, description))
            },
        }
    }

    open spec fn decode(j: JsonValue) -> Option<SecuritySchemeView> {
        match j {
            JsonValue::Object(m) => match (read_text(m, "type"@), read_opt_text(m, "description"@)) {
                (Some(tag), Some(description)) => if tag == "apiKey"@ {
                    match (read_text(m, "name"@), read_value::<ApiKeyLocation>(m, "in"@)) {
                        (Some(name), Some(location)) => Some(
                            SecuritySchemeView::ApiKey { name, location, description },
                        ),
                        _ => None,
                    }
                } else if tag == "http"@ {
                    match (read_text(m, "scheme"@), read_opt_text(m, "bearer_format"@)) {
                        (Some(scheme), Some(bearer_format)) => Some(
                            SecuritySchemeView::Http { scheme, bearer_format, description },
                        ),
                        _ => None,
                    }
                } else if tag == "oauth2"@ {
                    match read_value::<Json>(m, "flows"@) {
                        Some(flows) => Some(SecuritySchemeView::OAuth2 { flows, description }),
                        None => None,
                    }
                } else if tag == "openIdConnect"@ {
                    match read_value::<WebUrl>(m, "open_id_connect_url"@) {
                        Some(open_id_connect_url) => Some(
                            SecuritySchemeView::OpenIdConnect { open_id_connect_url, description },
                        ),
                        None => None,
                    }
                } else {
                    None
                },
                _ => None,
            },
            _ => None,
        }
    }

    open spec fn survives(v: SecuritySchemeView) -> bool {
        v matches SecuritySchemeView::OpenIdConnect { open_id_connect_url, .. }
            ==> WebUrl::survives(open_id_connect_url)
    }

    fn to_json(&self) -> (j: Json) {
        let mut members: Vec<(String, Json)> = Vec::new();
        proof {
            assert(members_view(members@) =~= Seq::empty());
        }
        match self {
            SecurityScheme::ApiKey { name, location, description } => {
                put_text(&mut members, "type", "apiKey");
                put_text(&mut members, "name", name.as_str());
                put_value(&mut members, "in", location);
                put_opt_text(&mut members, "description", description);
            },
            SecurityScheme::Http { scheme, bearer_format, description } => {
                put_text(&mut members, "type", "http");
                put_text(&mut members, "scheme", scheme.as_str());
                put_opt_text(&mut members, "bearer_format", bearer_format);
                put_opt_text(&mut members, "description", description);
            },
            SecurityScheme::OAuth2 { flows, description } => {
                put_text(&mut members, "type", "oauth2");
                put_value(&mut members, "flows", flows);
                put_opt_text(&mut members, "description", description);
            },
            SecurityScheme::OpenIdConnect { open_id_connect_url, description } => {
                put_text(&mut members, "type", "openIdConnect");
                put_value(&mut members, "open_id_connect_url", open_id_connect_url);
                put_opt_text(&mut members, "description", description);
            },
        }
        proof {
            lemma_object_view(members);
        }
        Json::Object(members)
    }

    fn from_json(j: &Json) -> (r: Option<SecurityScheme>) {
        let members = j.as_object()?;
        let tag = get_text(members, "type")?;
        let description = get_opt_text(members, "description")?;
        if text_eq(tag.as_str(), "apiKey") {
            let name = get_text(members, "name")?;
            let location = get_value::<ApiKeyLocation>(members, "in")?;
            Some(SecurityScheme::ApiKey { name, location, description })
        } else if text_eq(tag.as_str(), "http") {
            let scheme = get_text(members, "scheme")?;
            let bearer_format = get_opt_text(members, "bearer_format")?;
            Some(SecurityScheme::Http { scheme, bearer_format, description })
        } else if text_eq(tag.as_str(), "oauth2") {
            let flows = get_value::<Json>(members, "flows")?;
            Some(SecurityScheme::OAuth2 { flows, description })
        } else if text_eq(tag.as_str(), "openIdConnect") {
            let open_id_connect_url = get_value::<WebUrl>(members, "open_id_connect_url")?;
            Some(SecurityScheme::OpenIdConnect { open_id_connect_url, description })
        } else {
            None
        }
    }

    proof fn lemma_round_trip(v: SecuritySchemeView) {
        broadcast use group_lookup;

        reveal_strlit("type");
        reveal_strlit("description");
        reveal_strlit("name");
        reveal_strlit("in");
        reveal_strlit("scheme");
        reveal_strlit("bearer_format");
        reveal_strlit("flows");
        reveal_strlit("open_id_connect_url");
        reveal_strlit("apiKey");
        reveal_strlit("http");
        reveal_strlit("oauth2");
        reveal_strlit("openIdConnect");
        assert(key_mark("type"@) == (4nat, 't', 'y'));
        assert(key_mark("description"@) == (11nat, 'd', 'e'));
        assert(key_mark("name"@) == (4nat, 'n', 'a'));
        assert(key_mark("in"@) == (2nat, 'i', 'n'));
        assert(key_mark("scheme"@) == (6nat, 's', 'c'));
        assert(key_mark("bearer_format"@) == (13nat, 'b', 'e'));
        assert(key_mark("flows"@) == (5nat, 'f', 'l'));
        assert(key_mark("open_id_connect_url"@) == (19nat, 'o', 'p'));
        assert(key_mark("apiKey"@) == (6nat, 'a', 'p'));
        assert(key_mark("http"@) == (4nat, 'h', 't'));
        assert(key_mark("oauth2"@) == (6nat, 'o', 'a'));
        assert(key_mark("openIdConnect"@) == (13nat, 'o', 'p'));
        let m = Self::encode(v)->Object_0;
        match v {
            SecuritySchemeView::ApiKey { name, location, description } => {
                ApiKeyLocation::lemma_round_trip(location);
                assert(read_text(m, "type"@) == Some("apiKey"@));
                assert(read_opt_text(m, "description"@) == Some(description));
                assert(read_text(m, "name"@) == Some(name));
                assert(read_value::<ApiKeyLocation>(m, "in"@) == Some(location));
            },
            SecuritySchemeView::Http { scheme, bearer_format, description } => {
                assert(read_text(m, "type"@) == Some("http"@));
                assert(read_opt_text(m, "description"@) == Some(description));
                assert(read_text(m, "scheme"@) == Some(scheme));
                assert(read_opt_text(m, "bearer_format"@) == Some(bearer_format));
            },
            SecuritySchemeView::OAuth2 { flows, description } => {
                assert(read_text(m, "type"@) == Some("oauth2"@));
                assert(read_opt_text(m, "description"@) == Some(description));
                assert(read_value::<Json>(m, "flows"@) == Some(flows));
            },
            SecuritySchemeView::OpenIdConnect { open_id_connect_url, description } => {
                WebUrl::lemma_round_trip(open_id_connect_url);
                assert(read_text(m, "type"@) == Some("openIdConnect"@));
                assert(read_opt_text(m, "description"@) == Some(description));
                assert(read_value::<WebUrl>(m, "open_id_connect_url"@) == Some(
                    open_id_connect_url,
                ));
            },
        }
    }
}

/// A demand for one of the card's security schemes.
#[derive(Debug, Clone, PartialEq)]
pub struct SecurityRequirement {
    /// The name of the scheme.
    pub scheme: String,
    /// The scopes that are needed, for OAuth 2.0.
    pub scopes: Vec<String>,
}

/// The model of a [`SecurityRequirement`].
pub struct SecurityRequirementView {
    pub scheme: Seq<char>,
    pub scopes: Seq<Seq<char>>,
}

impl View for SecurityRequirement {
    type V = SecurityRequirementView;

    open spec fn view(&self) -> SecurityRequirementView {
        SecurityRequirementView { scheme: self.scheme@, scopes: seq_view(self.scopes@) }
    }
}

impl Wire for SecurityRequirement {
    open spec fn encode(v: SecurityRequirementView) -> JsonValue {
        let m = Seq::empty();
        let m = m.push(("scheme"@, JsonValue::String(v.scheme)));
        JsonValue::Object(with_filled_list::<String>(m, "scopes"@, v.scopes))
    }

    open spec fn decode(j: JsonValue) -> Option<SecurityRequirementView> {
        match j {
            JsonValue::Object(m) => match (
                read_text(m, "scheme"@),
                read_list_or_empty::<String>(m, "scopes"@),
            ) {
                (Some(scheme), Some(scopes)) => Some(SecurityRequirementView { scheme, scopes }),
                _ => None,
            },
            _ => None,
        }
    }

    open spec fn survives(v: SecurityRequirementView) -> bool {
        true
    }

    fn to_json(&self) -> (j: Json) {
        let mut members: Vec<(String, Json)> = Vec::new();
        proof {
            assert(members_view(members@) =~= Seq::empty());
        }
        put_text(&mut members, "scheme", self.scheme.as_str());
        put_filled_list(&mut members, "scopes", &self.scopes);
        proof {
            lemma_object_view(members);
        }
        Json::Object(members)
    }

    fn from_json(j: &Json) -> (r: Option<SecurityRequirement>) {
        let members = j.as_object()?;
        let scheme = get_text(members, "scheme")?;
        let scopes = get_list_or_empty::<String>(members, "scopes")?;
        Some(SecurityRequirement { scheme, scopes })
    }

    proof fn lemma_round_trip(v: SecurityRequirementView) {
        broadcast use group_lookup;

        reveal_strlit("scheme");
        reveal_strlit("scopes");
        assert(key_mark("scheme"@) == (6nat, 's', 'c'));
        assert(key_mark("scopes"@) == (6nat, 's', 'c'));
        assert("scheme"@[2] == 'h');
        assert("scopes"@[2] == 'o');
        assert(each_survives::<String>(v.scopes));
        lemma_each_round_trip::<String>(v.scopes);
        let m = Self::encode(v)->Object_0;
        assert(read_text(m, "scheme"@) == Some(v.scheme));
        assert(read_list_or_empty::<String>(m, "scopes"@) == Some(v.scopes));
    }
}

/// An agent card: what an agent says of itself.
#[derive(Debug, Clone, PartialEq)]
pub struct AgentCard {
    /// The agent's name.
    pub name: String,
    /// What the agent does.
    pub description: String,
    /// The agent's version.
    pub version: Option<String>,
    /// Who made the agent.
    pub provider: Option<AgentProvider>,
    /// The address of the agent's icon.
    pub icon_url: Option<WebUrl>,
    /// The address of the agent's documentation.
    pub documentation_url: Option<WebUrl>,
    /// The ways to reach the agent.
    pub supported_interfaces: Vec<AgentInterface>,
    /// What the agent can do beyond the basics.
    pub capabilities: AgentCapabilities,
    /// The ways to authenticate.
    pub security_schemes: Vec<SecurityScheme>,
    /// Which of them are demanded.
    pub security: Vec<SecurityRequirement>,
    /// The kinds of input that the agent takes.
    pub default_input_modes: Vec<ContentType>,
    /// The kinds of output that the agent gives.
    pub default_output_modes: Vec<ContentType>,
    /// The agent's skills.
    pub skills: Vec<AgentSkill>,
}

/// The model of an [`AgentCard`].
pub struct AgentCardView {
    pub name: Seq<char>,
    pub description: Seq<char>,
    pub version: Option<Seq<char>>,
    pub provider: Option<AgentProviderView>,
    pub icon_url: Option<Seq<char>>,
    pub documentation_url: Option<Seq<char>>,
    pub supported_interfaces: Seq<AgentInterfaceView>,
    pub capabilities: AgentCapabilitiesView,
    pub security_schemes: Seq<SecuritySchemeView>,
    pub security: Seq<SecurityRequirementView>,
    pub default_input_modes: Seq<Seq<char>>,
    pub default_output_modes: Seq<Seq<char>>,
    pub skills: Seq<AgentSkillView>,
}

impl View for AgentCard {
    type V = AgentCardView;

    open spec fn view(&self) -> AgentCardView {
        AgentCardView {
            name: self.name@,
            description: self.description@,
            version: opt_text(self.version),
            provider: opt_view(self.provider),
            icon_url: opt_view(self.icon_url),
            documentation_url: opt_view(self.documentation_url),
            supported_interfaces: seq_view(self.supported_interfaces@),
            capabilities: self.capabilities@,
            security_schemes: seq_view(self.security_schemes@),
            security: seq_view(self.security@),
            default_input_modes: seq_view(self.default_input_modes@),
            default_output_modes: seq_view(self.default_output_modes@),
            skills: seq_view(self.skills@),
        }
    }
}

impl AgentCardView {
    /// What is wrong with the card, in words; `None` for a card that has a
    /// name, a description and at least one interface.
    pub open spec fn flaw(self) -> Option<Seq<char>> {
        if self.name.len() == 0 {
            Some("name is required"@)
        } else if self.description.len() == 0 {
            Some("description is required"@)
        } else if self.supported_interfaces.len() == 0 {
            Some("at least one supported interface is required"@)
        } else {
            None
        }
    }

    /// Whether the card has a name, a description and at least one
    /// interface.
    pub open spec fn valid(self) -> bool {
        self.name.len() > 0 && self.description.len() > 0 && self.supported_interfaces.len() > 0
    }

    /// Whether the first skill with a given identifier stands at `i`.
    pub open spec fn has_skill_at(self, skill_id: Seq<char>, i: int) -> bool {
        &&& 0 <= i < self.skills.len()
        &&& self.skills[i].id == skill_id
        &&& forall|k: int| 0 <= k < i ==> self.skills[k].id != skill_id
    }
}

/// A card without a name, or without an interface, is not valid; a card
/// with a name, a description and one interface is.
pub proof fn lemma_card_validity(card: AgentCardView)
    ensures
        card.name.len() == 0 ==> card.flaw() is Some,
        card.supported_interfaces.len() == 0 ==> card.flaw() is Some,
        card.name.len() > 0 && card.description.len() > 0 && card.supported_interfaces.len() >= 1
            ==> card.flaw() is None,
        card.flaw() is None <==> card.valid(),
{
}

impl AgentCard {
    /// Checks that the card has what every card must have: a name, a
    /// description, and at least one interface.
    pub fn validate(&self) -> (r: Result<(), A2AError>)
        ensures
            match self@.flaw() {
                None => r is Ok,
                Some(flaw) => r matches Err(e) && e@ == A2AErrorView::InvalidAgentCard(flaw),
            },
    {
        if self.name.as_str().unicode_len() == 0 {
            return Err(A2AError::InvalidAgentCard("name is required".to_owned()));
        }
        if self.description.as_str().unicode_len() == 0 {
            return Err(A2AError::InvalidAgentCard("description is required".to_owned()));
        }
        if self.supported_interfaces.len() == 0 {
            return Err(
                A2AError::InvalidAgentCard(
                    "at least one supported interface is required".to_owned(),
                ),
            );
        }
        Ok(())
    }

    /// Whether the agent answers with streams of events.
    pub fn supports_streaming(&self) -> (r: bool)
        ensures
            r == self@.capabilities.streaming,
    {
        self.capabilities.streaming
    }

    /// Whether the agent sends push notifications.
    pub fn supports_push_notifications(&self) -> (r: bool)
        ensures
            r == self@.capabilities.push_notifications,
    {
        self.capabilities.push_notifications
    }

    /// The first skill with a given identifier.
    pub fn find_skill(&self, skill_id: &str) -> (r: Option<&AgentSkill>)
        ensures
            match r {
                Some(skill) => exists|i: int|
                    self@.has_skill_at(skill_id@, i) && skill@ == self@.skills[i],
                None => forall|i: int|
                    0 <= i < self@.skills.len() ==> (#[trigger] self@.skills[i]).id != skill_id@,
            },
    {
        let mut i: usize = 0;
        while i < self.skills.len()
            invariant
                i <= self.skills.len(),
                forall|k: int| 0 <= k < i ==> (#[trigger] self@.skills[k]).id != skill_id@,
            decreases self.skills.len() - i,
        {
            if text_eq(self.skills[i].id.as_str(), skill_id) {
                assert(self@.has_skill_at(skill_id@, i as int));
                return Some(&self.skills[i]);
            }
            i = i + 1;
        }
        None
    }

    /// The address of the first interface.
    pub fn primary_url(&self) -> (r: Option<&WebUrl>)
        ensures
            match r {
                Some(url) => self@.supported_interfaces.len() > 0 && url@
                    == self@.supported_interfaces[0].url,
                None => self@.supported_interfaces.len() == 0,
            },
    {
        if self.supported_interfaces.len() > 0 {
            Some(&self.supported_interfaces[0].url)
        } else {
            None
        }
    }
}

impl Wire for AgentCard {
    open spec fn encode(v: AgentCardView) -> JsonValue {
        let m = Seq::empty();
        let m = m.push(("name"@, JsonValue::String(v.name)));
        let m = m.push(("description"@, JsonValue::String(v.description)));
        let m = with_opt_text(m, "version"@, v.version);
        let m = with_opt_value::<AgentProvider>(m, "provider"@, v.provider);
        let m = with_opt_value::<WebUrl>(m, "iconUrl"@, v.icon_url);
        let m = with_opt_value::<WebUrl>(m, "documentationUrl"@, v.documentation_url);
        let m = with_list::<AgentInterface>(m, "supportedInterfaces"@, v.supported_interfaces);
        let m = with_value::<AgentCapabilities>(m, "capabilities"@, v.capabilities);
        let m = with_filled_list::<SecurityScheme>(m, "securitySchemes"@, v.security_schemes);
        let m = with_filled_list::<SecurityRequirement>(m, "security"@, v.security);
        let m = with_filled_list::<ContentType>(m, "defaultInputModes"@, v.default_input_modes);
        let m = with_filled_list::<ContentType>(m, "defaultOutputModes"@, v.default_output_modes);
        JsonValue::Object(with_filled_list::<AgentSkill>(m, "skills"@, v.skills))
    }

    open spec fn decode(j: JsonValue) -> Option<AgentCardView> {
        match j {
            JsonValue::Object(m) => match (
                read_text(m, "name"@),
                read_text(m, "description"@),
                read_opt_text(m, "version"@),
                read_opt_value::<AgentProvider>(m, "provider"@),
                read_opt_value::<WebUrl>(m, "iconUrl"@),
                read_opt_value::<WebUrl>(m, "documentationUrl"@),
                read_list::<AgentInterface>(m, "supportedInterfaces"@),
                read_value_or::<AgentCapabilities>(
                    m,
                    "capabilities"@,
                    AgentCapabilitiesView::none(),
                ),
            ) {
                (
                    Some(name),
                    Some(description),
                    Some(version),
                    Some(provider),
                    Some(icon_url),
                    Some(documentation_url),
                    Some(supported_interfaces),
                    Some(capabilities),
                ) => match (
                    read_list_or_empty::<SecurityScheme>(m, "securitySchemes"@),
                    read_list_or_empty::<SecurityRequirement>(m, "security"@),
                    read_list_or_empty::<ContentType>(m, "defaultInputModes"@),
                    read_list_or_empty::<ContentType>(m, "defaultOutputModes"@),
                    read_list_or_empty::<AgentSkill>(m, "skills"@),
                ) {
                    (
                        Some(security_schemes),
                        Some(security),
                        Some(default_input_modes),
                        Some(default_output_modes),
                        Some(skills),
                    ) => Some(
                        AgentCardView {
                            name,
                            description,
                            version,
                            provider,
                            icon_url,
                            documentation_url,
                            supported_interfaces,
                            capabilities,
                            security_schemes,
                            security,
                            default_input_modes,
                            default_output_modes,
                            skills,
                        },
                    ),
                    _ => None,
                },
                _ => None,
            },
            _ => None,
        }
    }

    open spec fn survives(v: AgentCardView) -> bool {
        &&& (v.provider matches Some(p) ==> AgentProvider::survives(p))
        &&& (v.icon_url matches Some(u) ==> WebUrl::survives(u))
        &&& (v.documentation_url matches Some(u) ==> WebUrl::survives(u))
        &&& each_survives::<AgentInterface>(v.supported_interfaces)
        &&& each_survives::<SecurityScheme>(v.security_schemes)
    }

    fn to_json(&self) -> (j: Json) {
        let mut members: Vec<(String, Json)> = Vec::new();
        proof {
            assert(members_view(members@) =~= Seq::empty());
        }
        put_text(&mut members, "name", self.name.as_str());
        put_text(&mut members, "description", self.description.as_str());
        put_opt_text(&mut members, "version", &self.version);
        put_opt_value(&mut members, "provider", &self.provider);
        put_opt_value(&mut members, "iconUrl", &self.icon_url);
        put_opt_value(&mut members, "documentationUrl", &self.documentation_url);
        put_list(&mut members, "supportedInterfaces", &self.supported_interfaces);
        put_value(&mut members, "capabilities", &self.capabilities);
        put_filled_list(&mut members, "securitySchemes", &self.security_schemes);
        put_filled_list(&mut members, "security", &self.security);
        put_filled_list(&mut members, "defaultInputModes", &self.default_input_modes);
        put_filled_list(&mut members, "defaultOutputModes", &self.default_output_modes);
        put_filled_list(&mut members, "skills", &self.skills);
        proof {
            lemma_object_view(members);
        }
        Json::Object(members)
    }

    fn from_json(j: &Json) -> (r: Option<AgentCard>) {
        let members = j.as_object()?;
        let name = get_text(members, "name")?;
        let description = get_text(members, "description")?;
        let version = get_opt_text(members, "version")?;
        let provider = get_opt_value::<AgentProvider>(members, "provider")?;
        let icon_url = get_opt_value::<WebUrl>(members, "iconUrl")?;
        let documentation_url = get_opt_value::<WebUrl>(members, "documentationUrl")?;
        let supported_interfaces = get_list::<AgentInterface>(members, "supportedInterfaces")?;
        let capabilities = get_value_or::<AgentCapabilities>(
            members,
            "capabilities",
            AgentCapabilities::default(),
        )?;
        let security_schemes = get_list_or_empty::<SecurityScheme>(members, "securitySchemes")?;
        let security = get_list_or_empty::<SecurityRequirement>(members, "security")?;
        let default_input_modes = get_list_or_empty::<ContentType>(members, "defaultInputModes")?;
        let default_output_modes = get_list_or_empty::<ContentType>(
            members,
            "defaultOutputModes",
        )?;
        let skills = get_list_or_empty::<AgentSkill>(members, "skills")?;
        Some(
            AgentCard {
                name,
                description,
                version,
                provider,
                icon_url,
                documentation_url,
                supported_interfaces,
                capabilities,
                security_schemes,
                security,
                default_input_modes,
                default_output_modes,
                skills,
            },
        )
    }

    proof fn lemma_round_trip(v: AgentCardView) {
        broadcast use group_lookup;

        reveal_strlit("name");
        reveal_strlit("description");
        reveal_strlit("version");
        reveal_strlit("provider");
        reveal_strlit("iconUrl");
        reveal_strlit("documentationUrl");
        reveal_strlit("supportedInterfaces");
        reveal_strlit("capabilities");
        reveal_strlit("securitySchemes");
        reveal_strlit("security");
        reveal_strlit("defaultInputModes");
        reveal_strlit("defaultOutputModes");
        reveal_strlit("skills");
        assert(key_mark("name"@) == (4nat, 'n', 'a'));
        assert(key_mark("description"@) == (11nat, 'd', 'e'));
        assert(key_mark("version"@) == (7nat, 'v', 'e'));
        assert(key_mark("provider"@) == (8nat, 'p', 'r'));
        assert(key_mark("iconUrl"@) == (7nat, 'i', 'c'));
        assert(key_mark("documentationUrl"@) == (16nat, 'd', 'o'));
        assert(key_mark("supportedInterfaces"@) == (19nat, 's', 'u'));
        assert(key_mark("capabilities"@) == (12nat, 'c', 'a'));
        assert(key_mark("securitySchemes"@) == (15nat, 's', 'e'));
        assert(key_mark("security"@) == (8nat, 's', 'e'));
        assert(key_mark("defaultInputModes"@) == (17nat, 'd', 'e'));
        assert(key_mark("defaultOutputModes"@) == (18nat, 'd', 'e'));
        assert(key_mark("skills"@) == (6nat, 's', 'k'));
        if v.provider is Some {
            AgentProvider::lemma_round_trip(v.provider.unwrap());
        }
        if v.icon_url is Some {
            WebUrl::lemma_round_trip(v.icon_url.unwrap());
        }
        if v.documentation_url is Some {
            WebUrl::lemma_round_trip(v.documentation_url.unwrap());
        }
        AgentCapabilities::lemma_round_trip(v.capabilities);
        assert(each_survives::<SecurityRequirement>(v.security));
        assert(each_survives::<ContentType>(v.default_input_modes));
        assert(each_survives::<ContentType>(v.default_output_modes));
        assert(each_survives::<AgentSkill>(v.skills));
        lemma_each_round_trip::<AgentInterface>(v.supported_interfaces);
        lemma_each_round_trip::<SecurityScheme>(v.security_schemes);
        lemma_each_round_trip::<SecurityRequirement>(v.security);
        lemma_each_round_trip::<ContentType>(v.default_input_modes);
        lemma_each_round_trip::<ContentType>(v.default_output_modes);
        lemma_each_round_trip::<AgentSkill>(v.skills);
        let m = Self::encode(v)->Object_0;
        assert(read_text(m, "name"@) == Some(v.name));
        assert(read_text(m, "description"@) == Some(v.description));
        assert(read_opt_text(m, "version"@) == Some(v.version));
        assert(read_opt_value::<AgentProvider>(m, "provider"@) == Some(v.provider));
        assert(read_opt_value::<WebUrl>(m, "iconUrl"@) == Some(v.icon_url));
        assert(read_opt_value::<WebUrl>(m, "documentationUrl"@) == Some(v.documentation_url));
        assert(read_list::<AgentInterface>(m, "supportedInterfaces"@) == Some(
            v.supported_interfaces,
        ));
        assert(read_value_or::<AgentCapabilities>(
            m,
            "capabilities"@,
            AgentCapabilitiesView::none(),
        ) == Some(v.capabilities));
        assert(read_list_or_empty::<SecurityScheme>(m, "securitySchemes"@) == Some(
            v.security_schemes,
        ));
        assert(read_list_or_empty::<SecurityRequirement>(m, "security"@) == Some(v.security));
        assert(read_list_or_empty::<ContentType>(m, "defaultInputModes"@) == Some(
            v.default_input_modes,
        ));
        assert(read_list_or_empty::<ContentType>(m, "defaultOutputModes"@) == Some(
            v.default_output_modes,
        ));
        assert(read_list_or_empty::<AgentSkill>(m, "skills"@) == Some(v.skills));
    }
}

// ---------------------------------------------------------------------
// Discovery
// ---------------------------------------------------------------------

/// The address of the card of the agent at `base_url`.
pub open spec fn card_address(base_url: Seq<char>) -> Seq<char> {
    without_trailing(base_url, '/') + "/.well-known/agent-card.json"@
}

/// The address of the card of the agent at `base_url`.
pub fn discovery_url(base_url: &str) -> (r: String)
    ensures
        r@ == card_address(base_url@),
{
    concat(trim_end_char(base_url, '/'), "/.well-known/agent-card.json")
}

/// The request that fetches the card of the agent at `base_url`.
pub fn discovery_request(base_url: &str) -> (r: HttpRequest)
    ensures
        r@ == (HttpRequestView {
            method: HttpMethod::Get,
            url: card_address(base_url@),
            headers: Seq::empty(),
            body: None,
        }),
{
    let r = HttpRequest {
        method: HttpMethod::Get,
        url: discovery_url(base_url),
        headers: Vec::new(),
        body: None,
    };
    assert(headers_view(r.headers@) =~= Seq::empty());
    r
}

/// The error for a card that could not be fetched at all.
pub fn fetch_failed(reason: &str) -> (r: A2AError)
    ensures
        r@ == A2AErrorView::DiscoveryFailed("Failed to fetch agent card: "@ + reason@),
{
    A2AError::DiscoveryFailed(concat("Failed to fetch agent card: ", reason))
}

/// What discovery makes of a reply: the card, where the reply is a success
/// and its body is a valid card. A reply that is no success means that the
/// agent was not reached; a body that is no card, or a card that is not
/// valid, means that the agent is not set up as it should be.
pub open spec fn discovered(reply: HttpReplyView) -> Result<AgentCardView, A2AErrorView> {
    if !reply.success() {
        Err(A2AErrorView::DiscoveryFailed("Agent card endpoint returned "@ + reply.status_text))
    } else {
        match parsed(reply.body) {
            None => Err(
                A2AErrorView::InvalidAgentCard(
                    "Failed to parse agent card: "@ + text_refusal(reply.body),
                ),
            ),
            Some(j) => match AgentCard::decode(j) {
                None => Err(
                    A2AErrorView::InvalidAgentCard(
                        "Failed to parse agent card: not an agent card"@,
                    ),
                ),
                Some(card) => match card.flaw() {
                    Some(flaw) => Err(A2AErrorView::InvalidAgentCard(flaw)),
                    None => Ok(card),
                },
            },
        }
    }
}

/// The model of what discovery gives.
pub open spec fn discovery_view(r: Result<AgentCard, A2AError>) -> Result<
    AgentCardView,
    A2AErrorView,
> {
    match r {
        Ok(card) => Ok(card@),
        Err(e) => Err(e@),
    }
}

/// Reads the card from the reply to a discovery request.
pub fn card_from_reply(reply: &HttpReply) -> (r: Result<AgentCard, A2AError>)
    ensures
        discovery_view(r) == discovered(reply@),
{
    if !reply.is_success() {
        return Err(
            A2AError::DiscoveryFailed(
                concat("Agent card endpoint returned ", reply.status_text.as_str()),
            ),
        );
    }
    match Json::parse(reply.body.as_str()) {
        Err(refusal) => Err(
            A2AError::InvalidAgentCard(concat("Failed to parse agent card: ", refusal.as_str())),
        ),
        Ok(j) => match AgentCard::from_json(&j) {
            None => Err(
                A2AError::InvalidAgentCard(
                    "Failed to parse agent card: not an agent card".to_owned(),
                ),
            ),
            Some(card) => match card.validate() {
                Err(e) => Err(e),
                Ok(()) => Ok(card),
            },
        },
    }
}

} // verus!
