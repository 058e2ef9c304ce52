//! The client side of the control plane's REST interface.
//!
//! As with the A2A client, every operation is one HTTP exchange: the client
//! says what to send and reads what came back, and the exchange itself is
//! the caller's work.

use crate::agent::Agent;
use crate::client::{outcome_view, outcomes_view, request_view};
use crate::error::{A2AError, A2AErrorView};
use crate::http::{
    add_header, headers_view, HttpMethod, HttpReply, HttpReplyView, HttpRequest, HttpRequestView,
};
use crate::json::{
    lemma_object_view, members_view, parsed, printed, put, put_opt, put_text, text_refusal,
    with_opt, Json, JsonValue,
};
use crate::model::opt_view;
use crate::recipe::Recipe;
use crate::text::{concat, digits, opt_text, push_digits};
use crate::url::{is_url, url_joined, url_text, with_pair, WebUrl};
use crate::wire::{decode_each, list_from_json, Wire};
use vstd::prelude::*;

verus! {

/// A client of the control plane.
#[derive(Debug, Clone, PartialEq)]
pub struct AgentOvenClient {
    base_url: WebUrl,
    api_key: Option<String>,
    kitchen_id: Option<String>,
}

/// The model of an [`AgentOvenClient`].
pub struct AgentOvenClientView {
    /// The address of the control plane.
    pub base_url: Seq<char>,
    /// The API key to send along.
    pub api_key: Option<Seq<char>>,
    /// The kitchen to work in.
    pub kitchen_id: Option<Seq<char>>,
}

impl View for AgentOvenClient {
    type V = AgentOvenClientView;

    closed spec fn view(&self) -> AgentOvenClientView {
        AgentOvenClientView {
            base_url: self.base_url@,
            api_key: opt_text(self.api_key),
            kitchen_id: opt_text(self.kitchen_id),
        }
    }
}

/// The text of an optional string slice.
pub open spec fn opt_str(o: Option<&str>) -> Option<Seq<char>> {
    match o {
        Some(s) => Some(s@),
        None => None,
    }
}

/// The body that asks for a deployment: the version and the environment.
pub open spec fn bake_body_view(version: Seq<char>, environment: Seq<char>) -> JsonValue {
    JsonValue::Object(
        seq![
            ("version"@, JsonValue::String(version)),
            ("environment"@, JsonValue::String(environment)),
        ],
    )
}

/// The body that carries one message: the message, and whether the agent is
/// to show its thinking.
pub open spec fn message_body_view(message: Seq<char>, thinking: bool) -> JsonValue {
    JsonValue::Object(
        seq![
            ("message"@, JsonValue::String(message)),
            ("thinking_enabled"@, JsonValue::Bool(thinking)),
        ],
    )
}

/// The body that runs an agent's loop: a message, whether the agent is to
/// show its thinking, and the variables where there are any.
pub open spec fn invoke_body_view(
    message: Seq<char>,
    variables: Option<JsonValue>,
    thinking: bool,
) -> JsonValue {
    JsonValue::Object(
        with_opt(
            seq![
                ("message"@, JsonValue::String(message)),
                ("thinking_enabled"@, JsonValue::Bool(thinking)),
            ],
            "variables"@,
            variables,
        ),
    )
}

/// The body that opens or closes a gate: the verdict, and a comment where
/// there is one.
pub open spec fn approve_body_view(approved: bool, comment: Option<Seq<char>>) -> JsonValue {
    JsonValue::Object(
        with_opt(
            seq![("approved"@, JsonValue::Bool(approved))],
            "comment"@,
            match comment {
                Some(c) => Some(JsonValue::String(c)),
                None => None,
            },
        ),
    )
}

/// The body that asks for a deployment.
pub fn bake_body(version: &str, environment: &str) -> (r: Json)
    ensures
        r@ == bake_body_view(version@, environment@),
{
    let mut members: Vec<(String, Json)> = Vec::new();
    put_text(&mut members, "version", version);
    put_text(&mut members, "environment", environment);
    proof {
        lemma_object_view(members);
        assert(members_view(members@) =~= seq![
            ("version"@, JsonValue::String(version@)),
            ("environment"@, JsonValue::String(environment@)),
        ]);
    }
    Json::Object(members)
}

/// The body that carries one message.
pub fn message_body(message: &str, thinking: bool) -> (r: Json)
    ensures
        r@ == message_body_view(message@, thinking),
{
    let mut members: Vec<(String, Json)> = Vec::new();
    put_text(&mut members, "message", message);
    put(&mut members, "thinking_enabled", Json::Bool(thinking));
    proof {
        lemma_object_view(members);
        assert(members_view(members@) =~= seq![
            ("message"@, JsonValue::String(message@)),
            ("thinking_enabled"@, JsonValue::Bool(thinking)),
        ]);
    }
    Json::Object(members)
}

/// The body that runs an agent's loop.
pub fn invoke_body(message: &str, variables: Option<Json>, thinking: bool) -> (r: Json)
    ensures
        r@ == invoke_body_view(message@, opt_view(variables), thinking),
{
    let mut members: Vec<(String, Json)> = Vec::new();
    put_text(&mut members, "message", message);
    put(&mut members, "thinking_enabled", Json::Bool(thinking));
    proof {
        assert(members_view(members@) =~= seq![
            ("message"@, JsonValue::String(message@)),
            ("thinking_enabled"@, JsonValue::Bool(thinking)),
        ]);
    }
    put_opt(&mut members, "variables", variables);
    proof {
        lemma_object_view(members);
    }
    Json::Object(members)
}

/// The body that opens or closes a gate.
pub fn approve_body(approved: bool, comment: Option<&str>) -> (r: Json)
    ensures
        r@ == approve_body_view(approved, opt_str(comment)),
{
    let mut members: Vec<(String, Json)> = Vec::new();
    put(&mut members, "approved", Json::Bool(approved));
    proof {
        assert(members_view(members@) =~= seq![("approved"@, JsonValue::Bool(approved))]);
    }
    let note = match comment {
        Some(c) => Some(Json::string(c)),
        None => None,
    };
    put_opt(&mut members, "comment", note);
    proof {
        lemma_object_view(members);
    }
    Json::Object(members)
}

// ---------------------------------------------------------------------
// Reading replies
// ---------------------------------------------------------------------

/// The JSON value that a reply carries. A reply that is no success is a
/// transport error; a body that is no JSON is a serialization error.
pub open spec fn rest_result(reply: HttpReplyView) -> Result<JsonValue, A2AErrorView> {
    if !reply.success() {
        Err(A2AErrorView::Transport("HTTP status "@ + reply.status_text))
    } else {
        match parsed(reply.body) {
            None => Err(A2AErrorView::Serialization("invalid JSON: "@ + text_refusal(reply.body))),
            Some(j) => Ok(j),
        }
    }
}

/// The value that a reply carries.
pub open spec fn rest_value<T: Wire>(reply: HttpReplyView) -> Result<T::V, A2AErrorView> {
    match rest_result(reply) {
        Err(e) => Err(e),
        Ok(j) => match T::decode(j) {
            Some(v) => Ok(v),
            None => Err(A2AErrorView::Serialization("unexpected shape of the reply"@)),
        },
    }
}

/// The list that a reply carries.
pub open spec fn rest_values<T: Wire>(reply: HttpReplyView) -> Result<Seq<T::V>, A2AErrorView> {
    match rest_result(reply) {
        Err(e) => Err(e),
        Ok(JsonValue::Array(items)) => match decode_each::<T>(items) {
            Some(values) => Ok(values),
            None => Err(A2AErrorView::Serialization("unexpected shape of the reply"@)),
        },
        Ok(_) => Err(A2AErrorView::Serialization("unexpected shape of the reply"@)),
    }
}

/// Reads the JSON value that a reply carries.
pub fn read_json(reply: &HttpReply) -> (r: Result<Json, A2AError>)
    ensures
        outcome_view(r) == rest_result(reply@),
{
    if !reply.is_success() {
        return Err(A2AError::Transport(concat("HTTP status ", reply.status_text.as_str())));
    }
    match Json::parse(reply.body.as_str()) {
        Ok(j) => Ok(j),
        Err(refusal) => Err(A2AError::Serialization(concat("invalid JSON: ", refusal.as_str()))),
    }
}

/// Reads the value that a reply carries.
pub fn read_reply<T: Wire>(reply: &HttpReply) -> (r: Result<T, A2AError>)
    ensures
        outcome_view(r) == rest_value::<T>(reply@),
{
    let j = read_json(reply)?;
    match T::from_json(&j) {
        Some(v) => Ok(v),
        None => Err(A2AError::Serialization("unexpected shape of the reply".to_owned())),
    }
}

/// Reads the list that a reply carries.
pub fn read_replies<T: Wire>(reply: &HttpReply) -> (r: Result<Vec<T>, A2AError>)
    ensures
        outcomes_view(r) == rest_values::<T>(reply@),
{
    let j = read_json(reply)?;
    match j.as_array() {
        Some(items) => match list_from_json::<T>(items.as_slice()) {
            Some(values) => Ok(values),
            None => Err(A2AError::Serialization("unexpected shape of the reply".to_owned())),
        },
        None => Err(A2AError::Serialization("unexpected shape of the reply".to_owned())),
    }
}

/// Reads the reply to a request that asks for nothing back, such as a
/// deletion: only the status counts.
pub fn read_ok(reply: &HttpReply) -> (r: Result<(), A2AError>)
    ensures
        match r {
            Ok(_) => reply@.success(),
            Err(e) => !reply@.success() && e@ == A2AErrorView::Transport(
                "HTTP status "@ + reply@.status_text,
            ),
        },
{
    if reply.is_success() {
        Ok(())
    } else {
        Err(A2AError::Transport(concat("HTTP status ", reply.status_text.as_str())))
    }
}

// ---------------------------------------------------------------------
// The client
// ---------------------------------------------------------------------

impl AgentOvenClientView {
    /// The header fields of a request: the API key and the kitchen, where
    /// they are set, and the content type where there is a body.
    pub open spec fn headers(self, with_body: bool) -> Seq<(Seq<char>, Seq<char>)> {
        let fields = Seq::empty();
        let fields = match self.api_key {
            Some(key) => fields.push(("Authorization"@, "Bearer "@ + key)),
            None => fields,
        };
        let fields = match self.kitchen_id {
            Some(kitchen) => fields.push(("X-Kitchen-Id"@, kitchen)),
            None => fields,
        };
        if with_body {
            fields.push(("Content-Type"@, "application/json"@))
        } else {
            fields
        }
    }

    /// The address of a path of the control plane; `None` where the path
    /// gives no address.
    pub open spec fn address(self, path: Seq<char>) -> Option<Seq<char>> {
        match url_joined(self.base_url, path) {
            Some(text) => if url_text(text) == Some(text) {
                Some(text)
            } else {
                None
            },
            None => None,
        }
    }

    /// The request to an address, with an optional body.
    pub open spec fn request_to(self, method: HttpMethod, url: Seq<char>, body: Option<JsonValue>) -> Result<
        HttpRequestView,
        A2AErrorView,
    > {
        match body {
            None => Ok(
                HttpRequestView { method, url, headers: self.headers(false), body: None },
            ),
            Some(b) => match printed(b) {
                Some(text) => Ok(
                    HttpRequestView { method, url, headers: self.headers(true), body: Some(text) },
                ),
                None => Err(A2AErrorView::Serialization("request cannot be written as JSON"@)),
            },
        }
    }

    /// The request to a path of the control plane, with an optional body.
    pub open spec fn request(self, method: HttpMethod, path: Seq<char>, body: Option<JsonValue>) -> Result<
        HttpRequestView,
        A2AErrorView,
    > {
        match self.address(path) {
            None => Err(A2AErrorView::InvalidUrl("Invalid URL path: "@ + path)),
            Some(url) => self.request_to(method, url, body),
        }
    }

    /// The address that lists traces: at most `limit` of them, of one agent
    /// where one is named.
    pub open spec fn traces_address(self, agent: Option<Seq<char>>, limit: u32) -> Option<Seq<char>> {
        match self.address("/api/v1/traces"@) {
            None => None,
            Some(url) => match with_pair(url, "limit"@, digits(limit as nat)) {
                None => None,
                Some(limited) => match agent {
                    None => Some(limited),
                    Some(a) => with_pair(limited, "agent"@, a),
                },
            },
        }
    }

    /// The address that lists audit events, at most `limit` of them.
    pub open spec fn audit_address(self, limit: u32) -> Option<Seq<char>> {
        match self.address("/api/v1/audit"@) {
            None => None,
            Some(url) => with_pair(url, "limit"@, digits(limit as nat)),
        }
    }
}

/// The decimal digits of a number.
pub fn digits_text(n: u32) -> (r: String)
    ensures
        r@ == digits(n as nat),
{
    let mut out = String::new();
    push_digits(&mut out, n as u64);
    assert(out@ =~= digits(n as nat));
    out
}

impl AgentOvenClient {
    /// A client of the control plane at `base_url`, where that is a URL.
    pub fn new(base_url: &str) -> (r: Result<AgentOvenClient, A2AError>)
        ensures
            match r {
                Ok(client) => is_url(base_url@) && client@ == (AgentOvenClientView {
                    base_url: url_text(base_url@).unwrap(),
                    api_key: None,
                    kitchen_id: None,
                }),
                Err(e) => !is_url(base_url@) && e@ is InvalidUrl,
            },
    {
        match WebUrl::parse(base_url) {
            Ok(url) => Ok(AgentOvenClient { base_url: url, api_key: None, kitchen_id: None }),
            Err(refusal) => Err(A2AError::InvalidUrl(refusal)),
        }
    }

    /// A client made from what the environment says: the address of the
    /// control plane, or else the local one; the API key; the kitchen.
    pub fn from_settings(url: Option<&str>, api_key: Option<String>, kitchen_id: Option<String>) -> (r:
        Result<AgentOvenClient, A2AError>)
        ensures
            match r {
                Ok(client) => is_url(settled_url(opt_str(url))) && client@ == (AgentOvenClientView {
                    base_url: url_text(settled_url(opt_str(url))).unwrap(),
                    api_key: opt_text(api_key),
                    kitchen_id: opt_text(kitchen_id),
                }),
                Err(e) => !is_url(settled_url(opt_str(url))) && e@ is InvalidUrl,
            },
    {
        let base = match url {
            Some(u) => u,
            None => "http://localhost:8080",
        };
        match AgentOvenClient::new(base) {
            Ok(client) => Ok(
                AgentOvenClient { base_url: client.base_url, api_key, kitchen_id },
            ),
            Err(e) => Err(e),
        }
    }

    /// The client with an API key to send along.
    pub fn with_api_key(self, key: &str) -> (r: AgentOvenClient)
        ensures
            r@ == (AgentOvenClientView { api_key: Some(key@), ..self@ }),
    {
        AgentOvenClient {
            base_url: self.base_url,
            api_key: Some(key.to_owned()),
            kitchen_id: self.kitchen_id,
        }
    }

    /// The client with a kitchen to work in.
    pub fn with_kitchen(self, kitchen_id: &str) -> (r: AgentOvenClient)
        ensures
            r@ == (AgentOvenClientView { kitchen_id: Some(kitchen_id@), ..self@ }),
    {
        AgentOvenClient {
            base_url: self.base_url,
            api_key: self.api_key,
            kitchen_id: Some(kitchen_id.to_owned()),
        }
    }

    /// The address of a path of the control plane.
    pub fn url(&self, path: &str) -> (r: Option<WebUrl>)
        ensures
            opt_view(r) == self@.address(path@),
    {
        self.base_url.join(path)
    }

    /// The header fields of a request.
    pub fn authed_headers(&self, with_body: bool) -> (r: Vec<(String, String)>)
        ensures
            headers_view(r@) == self@.headers(with_body),
    {
        let mut headers: Vec<(String, String)> = Vec::new();
        proof {
            assert(headers_view(headers@) =~= Seq::empty());
        }
        match &self.api_key {
            Some(key) => {
                let value = concat("Bearer ", key.as_str());
                add_header(&mut headers, "Authorization", value.as_str());
            },
            None => {},
        }
        match &self.kitchen_id {
            Some(kitchen) => {
                add_header(&mut headers, "X-Kitchen-Id", kitchen.as_str());
            },
            None => {},
        }
        if with_body {
            add_header(&mut headers, "Content-Type", "application/json");
        }
        headers
    }

    /// The request to an address, with an optional body.
    pub fn request_to(&self, method: HttpMethod, url: WebUrl, body: Option<Json>) -> (r: Result<
        HttpRequest,
        A2AError,
    >)
        ensures
            request_view(r) == self@.request_to(method, url@, opt_view(body)),
    {
        match body {
            None => Ok(
                HttpRequest {
                    method,
                    url: url.as_str().to_owned(),
                    headers: self.authed_headers(false),
                    body: None,
                },
            ),
            Some(b) => match b.to_text() {
                Some(text) => Ok(
                    HttpRequest {
                        method,
                        url: url.as_str().to_owned(),
                        headers: self.authed_headers(true),
                        body: Some(text),
                    },
                ),
                None => Err(
                    A2AError::Serialization("request cannot be written as JSON".to_owned()),
                ),
            },
        }
    }

    /// The request to a path of the control plane, with an optional body.
    pub fn request(&self, method: HttpMethod, path: &str, body: Option<Json>) -> (r: Result<
        HttpRequest,
        A2AError,
    >)
        ensures
            request_view(r) == self@.request(method, path@, opt_view(body)),
    {
        match self.url(path) {
            None => Err(A2AError::InvalidUrl(concat("Invalid URL path: ", path))),
            Some(url) => self.request_to(method, url, body),
        }
    }

    /// Registers an agent.
    pub fn register_request(&self, agent: &Agent) -> (r: Result<HttpRequest, A2AError>)
        ensures
            request_view(r) == self@.request(
                HttpMethod::Post,
                "/api/v1/agents"@,
                Some(Agent::encode(agent@)),
            ),
    {
        self.request(HttpMethod::Post, "/api/v1/agents", Some(agent.to_json()))
    }

    /// Gets an agent by its name, in a given version or in its latest.
    pub fn get_agent_request(&self, name: &str, version: Option<&str>) -> (r: Result<HttpRequest, A2AError>)
        ensures
            request_view(r) == self@.request(
                HttpMethod::Get,
                match version {
                    Some(v) => "/api/v1/agents/"@ + name@ + "/versions/"@ + v@,
                    None => "/api/v1/agents/"@ + name@,
                },
                None,
            ),
    {
        let mut path = "/api/v1/agents/".to_owned();
        path.append(name);
        match version {
            Some(v) => {
                path.append("/versions/");
                path.append(v);
            },
            None => {},
        }
        self.request(HttpMethod::Get, path.as_str(), None)
    }

    /// Lists the agents of the kitchen.
    pub fn list_agents_request(&self) -> (r: Result<HttpRequest, A2AError>)
        ensures
            request_view(r) == self@.request(HttpMethod::Get, "/api/v1/agents"@, None),
    {
        self.request(HttpMethod::Get, "/api/v1/agents", None)
    }

    /// Deploys an agent to an environment.
    pub fn bake_request(
        &self,
        agent: &Agent,
        environment: &str,
    ) -> (r: Result<HttpRequest, A2AError>)
        ensures
            request_view(r) == self@.request(
                HttpMethod::Post,
                "/api/v1/agents/"@ + agent@.name + "/bake"@,
                Some(bake_body_view(agent@.version, environment@)),
            ),
    {
        let mut path = "/api/v1/agents/".to_owned();
        path.append(agent.name.as_str());
        path.append("/bake");
        self.request(HttpMethod::Post, path.as_str(), Some(bake_body(agent.version.as_str(), environment)))
    }

    /// Brings a paused agent back.
    pub fn rewarm_request(&self, name: &str) -> (r: Result<HttpRequest, A2AError>)
        ensures
            request_view(r) == self@.request(
                HttpMethod::Post,
                "/api/v1/agents/"@ + name@ + "/rewarm"@,
                None,
            ),
    {
        let mut path = "/api/v1/agents/".to_owned();
        path.append(name);
        path.append("/rewarm");
        self.request(HttpMethod::Post, path.as_str(), None)
    }

    /// Creates a recipe.
    pub fn create_recipe_request(&self, recipe: &Recipe) -> (r: Result<HttpRequest, A2AError>)
        ensures
            request_view(r) == self@.request(
                HttpMethod::Post,
                "/api/v1/recipes"@,
                Some(Recipe::encode(recipe@)),
            ),
    {
        self.request(HttpMethod::Post, "/api/v1/recipes", Some(recipe.to_json()))
    }

    /// Runs a recipe on an input.
    pub fn bake_recipe_request(
        &self,
        recipe_name: &str,
        input: Json,
    ) -> (r: Result<HttpRequest, A2AError>)
        ensures
            request_view(r) == self@.request(
                HttpMethod::Post,
                "/api/v1/recipes/"@ + recipe_name@ + "/bake"@,
                Some(input@),
            ),
    {
        let mut path = "/api/v1/recipes/".to_owned();
        path.append(recipe_name);
        path.append("/bake");
        self.request(HttpMethod::Post, path.as_str(), Some(input))
    }

    /// Changes an agent.
    pub fn update_agent_request(
        &self,
        name: &str,
        updates: Json,
    ) -> (r: Result<HttpRequest, A2AError>)
        ensures
            request_view(r) == self@.request(
                HttpMethod::Put,
                "/api/v1/agents/"@ + name@,
                Some(updates@),
            ),
    {
        let mut path = "/api/v1/agents/".to_owned();
        path.append(name);
        self.request(HttpMethod::Put, path.as_str(), Some(updates))
    }

    /// Deletes an agent.
    pub fn delete_agent_request(&self, name: &str) -> (r: Result<HttpRequest, A2AError>)
        ensures
            request_view(r) == self@.request(HttpMethod::Delete, "/api/v1/agents/"@ + name@, None),
    {
        let mut path = "/api/v1/agents/".to_owned();
        path.append(name);
        self.request(HttpMethod::Delete, path.as_str(), None)
    }

    /// Deploys an agent again with edits.
    pub fn recook_agent_request(
        &self,
        name: &str,
        edits: Json,
    ) -> (r: Result<HttpRequest, A2AError>)
        ensures
            request_view(r) == self@.request(
                HttpMethod::Post,
                "/api/v1/agents/"@ + name@ + "/recook"@,
                Some(edits@),
            ),
    {
        let mut path = "/api/v1/agents/".to_owned();
        path.append(name);
        path.append("/recook");
        self.request(HttpMethod::Post, path.as_str(), Some(edits))
    }

    /// Pauses an agent.
    pub fn cool_agent_request(&self, name: &str) -> (r: Result<HttpRequest, A2AError>)
        ensures
            request_view(r) == self@.request(
                HttpMethod::Post,
                "/api/v1/agents/"@ + name@ + "/cool"@,
                None,
            ),
    {
        let mut path = "/api/v1/agents/".to_owned();
        path.append(name);
        path.append("/cool");
        self.request(HttpMethod::Post, path.as_str(), None)
    }

    /// Takes an agent out of service for good.
    pub fn retire_agent_request(&self, name: &str) -> (r: Result<HttpRequest, A2AError>)
        ensures
            request_view(r) == self@.request(
                HttpMethod::Post,
                "/api/v1/agents/"@ + name@ + "/retire"@,
                None,
            ),
    {
        let mut path = "/api/v1/agents/".to_owned();
        path.append(name);
        path.append("/retire");
        self.request(HttpMethod::Post, path.as_str(), None)
    }

    /// Tests an agent with one message.
    pub fn test_agent_request(
        &self,
        name: &str,
        message: &str,
        thinking: bool,
    ) -> (r: Result<HttpRequest, A2AError>)
        ensures
            request_view(r) == self@.request(
                HttpMethod::Post,
                "/api/v1/agents/"@ + name@ + "/test"@,
                Some(message_body_view(message@, thinking)),
            ),
    {
        let mut path = "/api/v1/agents/".to_owned();
        path.append(name);
        path.append("/test");
        self.request(HttpMethod::Post, path.as_str(), Some(message_body(message, thinking)))
    }

    /// Runs an agent's loop on one message.
    pub fn invoke_agent_request(
        &self,
        name: &str,
        message: &str,
        variables: Option<Json>,
        thinking: bool,
    ) -> (r: Result<HttpRequest, A2AError>)
        ensures
            request_view(r) == self@.request(
                HttpMethod::Post,
                "/api/v1/agents/"@ + name@ + "/invoke"@,
                Some(invoke_body_view(message@, opt_view(variables), thinking)),
            ),
    {
        let mut path = "/api/v1/agents/".to_owned();
        path.append(name);
        path.append("/invoke");
        self.request(HttpMethod::Post, path.as_str(), Some(invoke_body(message, variables, thinking)))
    }

    /// Gets the settings that were worked out for a deployed agent.
    pub fn agent_config_request(&self, name: &str) -> (r: Result<HttpRequest, A2AError>)
        ensures
            request_view(r) == self@.request(
                HttpMethod::Get,
                "/api/v1/agents/"@ + name@ + "/config"@,
                None,
            ),
    {
        let mut path = "/api/v1/agents/".to_owned();
        path.append(name);
        path.append("/config");
        self.request(HttpMethod::Get, path.as_str(), None)
    }

    /// Gets the A2A card of an agent.
    pub fn agent_card_request(&self, name: &str) -> (r: Result<HttpRequest, A2AError>)
        ensures
            request_view(r) == self@.request(
                HttpMethod::Get,
                "/api/v1/agents/"@ + name@ + "/card"@,
                None,
            ),
    {
        let mut path = "/api/v1/agents/".to_owned();
        path.append(name);
        path.append("/card");
        self.request(HttpMethod::Get, path.as_str(), None)
    }

    /// Lists the versions of an agent.
    pub fn agent_versions_request(&self, name: &str) -> (r: Result<HttpRequest, A2AError>)
        ensures
            request_view(r) == self@.request(
                HttpMethod::Get,
                "/api/v1/agents/"@ + name@ + "/versions"@,
                None,
            ),
    {
        let mut path = "/api/v1/agents/".to_owned();
        path.append(name);
        path.append("/versions");
        self.request(HttpMethod::Get, path.as_str(), None)
    }

    /// Lists the providers of models.
    pub fn list_providers_request(&self) -> (r: Result<HttpRequest, A2AError>)
        ensures
            request_view(r) == self@.request(HttpMethod::Get, "/api/v1/models/providers"@, None),
    {
        self.request(HttpMethod::Get, "/api/v1/models/providers", None)
    }

    /// Adds a provider of models.
    pub fn add_provider_request(&self, provider: Json) -> (r: Result<HttpRequest, A2AError>)
        ensures
            request_view(r) == self@.request(
                HttpMethod::Post,
                "/api/v1/models/providers"@,
                Some(provider@),
            ),
    {
        self.request(HttpMethod::Post, "/api/v1/models/providers", Some(provider))
    }

    /// Gets a provider of models.
    pub fn get_provider_request(&self, name: &str) -> (r: Result<HttpRequest, A2AError>)
        ensures
            request_view(r) == self@.request(
                HttpMethod::Get,
                "/api/v1/models/providers/"@ + name@,
                None,
            ),
    {
        let mut path = "/api/v1/models/providers/".to_owned();
        path.append(name);
        self.request(HttpMethod::Get, path.as_str(), None)
    }

    /// Changes a provider of models.
    pub fn update_provider_request(
        &self,
        name: &str,
        provider: Json,
    ) -> (r: Result<HttpRequest, A2AError>)
        ensures
            request_view(r) == self@.request(
                HttpMethod::Put,
                "/api/v1/models/providers/"@ + name@,
                Some(provider@),
            ),
    {
        let mut path = "/api/v1/models/providers/".to_owned();
        path.append(name);
        self.request(HttpMethod::Put, path.as_str(), Some(provider))
    }

    /// Deletes a provider of models.
    pub fn delete_provider_request(&self, name: &str) -> (r: Result<HttpRequest, A2AError>)
        ensures
            request_view(r) == self@.request(
                HttpMethod::Delete,
                "/api/v1/models/providers/"@ + name@,
                None,
            ),
    {
        let mut path = "/api/v1/models/providers/".to_owned();
        path.append(name);
        self.request(HttpMethod::Delete, path.as_str(), None)
    }

    /// Tests whether a provider can be reached and takes the credentials.
    pub fn test_provider_request(&self, name: &str) -> (r: Result<HttpRequest, A2AError>)
        ensures
            request_view(r) == self@.request(
                HttpMethod::Post,
                "/api/v1/models/providers/"@ + name@ + "/test"@,
                None,
            ),
    {
        let mut path = "/api/v1/models/providers/".to_owned();
        path.append(name);
        path.append("/test");
        self.request(HttpMethod::Post, path.as_str(), None)
    }

    /// Asks a provider for its models.
    pub fn discover_provider_request(&self, name: &str) -> (r: Result<HttpRequest, A2AError>)
        ensures
            request_view(r) == self@.request(
                HttpMethod::Post,
                "/api/v1/models/providers/"@ + name@ + "/discover"@,
                None,
            ),
    {
        let mut path = "/api/v1/models/providers/".to_owned();
        path.append(name);
        path.append("/discover");
        self.request(HttpMethod::Post, path.as_str(), None)
    }

    /// Lists the tools.
    pub fn list_tools_request(&self) -> (r: Result<HttpRequest, A2AError>)
        ensures
            request_view(r) == self@.request(HttpMethod::Get, "/api/v1/tools"@, None),
    {
        self.request(HttpMethod::Get, "/api/v1/tools", None)
    }

    /// Adds a tool.
    pub fn add_tool_request(&self, tool: Json) -> (r: Result<HttpRequest, A2AError>)
        ensures
            request_view(r) == self@.request(HttpMethod::Post, "/api/v1/tools"@, Some(tool@)),
    {
        self.request(HttpMethod::Post, "/api/v1/tools", Some(tool))
    }

    /// Gets a tool.
    pub fn get_tool_request(&self, name: &str) -> (r: Result<HttpRequest, A2AError>)
        ensures
            request_view(r) == self@.request(HttpMethod::Get, "/api/v1/tools/"@ + name@, None),
    {
        let mut path = "/api/v1/tools/".to_owned();
        path.append(name);
        self.request(HttpMethod::Get, path.as_str(), None)
    }

    /// Changes a tool.
    pub fn update_tool_request(&self, name: &str, tool: Json) -> (r: Result<HttpRequest, A2AError>)
        ensures
            request_view(r) == self@.request(
                HttpMethod::Put,
                "/api/v1/tools/"@ + name@,
                Some(tool@),
            ),
    {
        let mut path = "/api/v1/tools/".to_owned();
        path.append(name);
        self.request(HttpMethod::Put, path.as_str(), Some(tool))
    }

    /// Deletes a tool.
    pub fn delete_tool_request(&self, name: &str) -> (r: Result<HttpRequest, A2AError>)
        ensures
            request_view(r) == self@.request(HttpMethod::Delete, "/api/v1/tools/"@ + name@, None),
    {
        let mut path = "/api/v1/tools/".to_owned();
        path.append(name);
        self.request(HttpMethod::Delete, path.as_str(), None)
    }

    /// Lists the prompt templates.
    pub fn list_prompts_request(&self) -> (r: Result<HttpRequest, A2AError>)
        ensures
            request_view(r) == self@.request(HttpMethod::Get, "/api/v1/prompts"@, None),
    {
        self.request(HttpMethod::Get, "/api/v1/prompts", None)
    }

    /// Adds a prompt template.
    pub fn add_prompt_request(&self, prompt: Json) -> (r: Result<HttpRequest, A2AError>)
        ensures
            request_view(r) == self@.request(HttpMethod::Post, "/api/v1/prompts"@, Some(prompt@)),
    {
        self.request(HttpMethod::Post, "/api/v1/prompts", Some(prompt))
    }

    /// Gets a prompt template.
    pub fn get_prompt_request(&self, name: &str) -> (r: Result<HttpRequest, A2AError>)
        ensures
            request_view(r) == self@.request(HttpMethod::Get, "/api/v1/prompts/"@ + name@, None),
    {
        let mut path = "/api/v1/prompts/".to_owned();
        path.append(name);
        self.request(HttpMethod::Get, path.as_str(), None)
    }

    /// Changes a prompt template.
    pub fn update_prompt_request(
        &self,
        name: &str,
        prompt: Json,
    ) -> (r: Result<HttpRequest, A2AError>)
        ensures
            request_view(r) == self@.request(
                HttpMethod::Put,
                "/api/v1/prompts/"@ + name@,
                Some(prompt@),
            ),
    {
        let mut path = "/api/v1/prompts/".to_owned();
        path.append(name);
        self.request(HttpMethod::Put, path.as_str(), Some(prompt))
    }

    /// Deletes a prompt template.
    pub fn delete_prompt_request(&self, name: &str) -> (r: Result<HttpRequest, A2AError>)
        ensures
            request_view(r) == self@.request(HttpMethod::Delete, "/api/v1/prompts/"@ + name@, None),
    {
        let mut path = "/api/v1/prompts/".to_owned();
        path.append(name);
        self.request(HttpMethod::Delete, path.as_str(), None)
    }

    /// Checks a prompt template.
    pub fn validate_prompt_request(&self, name: &str) -> (r: Result<HttpRequest, A2AError>)
        ensures
            request_view(r) == self@.request(
                HttpMethod::Post,
                "/api/v1/prompts/"@ + name@ + "/validate"@,
                None,
            ),
    {
        let mut path = "/api/v1/prompts/".to_owned();
        path.append(name);
        path.append("/validate");
        self.request(HttpMethod::Post, path.as_str(), None)
    }

    /// Lists the versions of a prompt template.
    pub fn prompt_versions_request(&self, name: &str) -> (r: Result<HttpRequest, A2AError>)
        ensures
            request_view(r) == self@.request(
                HttpMethod::Get,
                "/api/v1/prompts/"@ + name@ + "/versions"@,
                None,
            ),
    {
        let mut path = "/api/v1/prompts/".to_owned();
        path.append(name);
        path.append("/versions");
        self.request(HttpMethod::Get, path.as_str(), None)
    }

    /// Lists the kitchens.
    pub fn list_kitchens_request(&self) -> (r: Result<HttpRequest, A2AError>)
        ensures
            request_view(r) == self@.request(HttpMethod::Get, "/api/v1/kitchens"@, None),
    {
        self.request(HttpMethod::Get, "/api/v1/kitchens", None)
    }

    /// Gets a kitchen.
    pub fn get_kitchen_request(&self, id: &str) -> (r: Result<HttpRequest, A2AError>)
        ensures
            request_view(r) == self@.request(HttpMethod::Get, "/api/v1/kitchens/"@ + id@, None),
    {
        let mut path = "/api/v1/kitchens/".to_owned();
        path.append(id);
        self.request(HttpMethod::Get, path.as_str(), None)
    }

    /// Gets the settings of the kitchen.
    pub fn get_settings_request(&self) -> (r: Result<HttpRequest, A2AError>)
        ensures
            request_view(r) == self@.request(HttpMethod::Get, "/api/v1/settings"@, None),
    {
        self.request(HttpMethod::Get, "/api/v1/settings", None)
    }

    /// Changes the settings of the kitchen.
    pub fn update_settings_request(&self, settings: Json) -> (r: Result<HttpRequest, A2AError>)
        ensures
            request_view(r) == self@.request(HttpMethod::Put, "/api/v1/settings"@, Some(settings@)),
    {
        self.request(HttpMethod::Put, "/api/v1/settings", Some(settings))
    }

    /// Lists the sessions of an agent.
    pub fn list_sessions_request(&self, agent_name: &str) -> (r: Result<HttpRequest, A2AError>)
        ensures
            request_view(r) == self@.request(
                HttpMethod::Get,
                "/api/v1/agents/"@ + agent_name@ + "/sessions"@,
                None,
            ),
    {
        let mut path = "/api/v1/agents/".to_owned();
        path.append(agent_name);
        path.append("/sessions");
        self.request(HttpMethod::Get, path.as_str(), None)
    }

    /// Starts a session with an agent.
    pub fn create_session_request(&self, agent_name: &str) -> (r: Result<HttpRequest, A2AError>)
        ensures
            request_view(r) == self@.request(
                HttpMethod::Post,
                "/api/v1/agents/"@ + agent_name@ + "/sessions"@,
                Some(JsonValue::Object(Seq::empty())),
            ),
    {
        let mut path = "/api/v1/agents/".to_owned();
        path.append(agent_name);
        path.append("/sessions");
        self.request(HttpMethod::Post, path.as_str(), Some(Json::empty_object()))
    }

    /// Gets a session.
    pub fn get_session_request(
        &self,
        agent_name: &str,
        session_id: &str,
    ) -> (r: Result<HttpRequest, A2AError>)
        ensures
            request_view(r) == self@.request(
                HttpMethod::Get,
                "/api/v1/agents/"@ + agent_name@ + "/sessions/"@ + session_id@,
                None,
            ),
    {
        let mut path = "/api/v1/agents/".to_owned();
        path.append(agent_name);
        path.append("/sessions/");
        path.append(session_id);
        self.request(HttpMethod::Get, path.as_str(), None)
    }

    /// Deletes a session.
    pub fn delete_session_request(
        &self,
        agent_name: &str,
        session_id: &str,
    ) -> (r: Result<HttpRequest, A2AError>)
        ensures
            request_view(r) == self@.request(
                HttpMethod::Delete,
                "/api/v1/agents/"@ + agent_name@ + "/sessions/"@ + session_id@,
                None,
            ),
    {
        let mut path = "/api/v1/agents/".to_owned();
        path.append(agent_name);
        path.append("/sessions/");
        path.append(session_id);
        self.request(HttpMethod::Delete, path.as_str(), None)
    }

    /// Sends a message within a session.
    pub fn send_session_message_request(
        &self,
        agent_name: &str,
        session_id: &str,
        message: &str,
        thinking: bool,
    ) -> (r: Result<HttpRequest, A2AError>)
        ensures
            request_view(r) == self@.request(
                HttpMethod::Post,
                "/api/v1/agents/"@ + agent_name@ + "/sessions/"@ + session_id@ + "/messages"@,
                Some(message_body_view(message@, thinking)),
            ),
    {
        let mut path = "/api/v1/agents/".to_owned();
        path.append(agent_name);
        path.append("/sessions/");
        path.append(session_id);
        path.append("/messages");
        self.request(HttpMethod::Post, path.as_str(), Some(message_body(message, thinking)))
    }

    /// Asks the retrieval pipeline.
    pub fn rag_query_request(&self, query: Json) -> (r: Result<HttpRequest, A2AError>)
        ensures
            request_view(r) == self@.request(HttpMethod::Post, "/api/v1/rag/query"@, Some(query@)),
    {
        self.request(HttpMethod::Post, "/api/v1/rag/query", Some(query))
    }

    /// Hands documents to the retrieval pipeline.
    pub fn rag_ingest_request(&self, request: Json) -> (r: Result<HttpRequest, A2AError>)
        ensures
            request_view(r) == self@.request(
                HttpMethod::Post,
                "/api/v1/rag/ingest"@,
                Some(request@),
            ),
    {
        self.request(HttpMethod::Post, "/api/v1/rag/ingest", Some(request))
    }

    /// Gets a trace.
    pub fn get_trace_request(&self, trace_id: &str) -> (r: Result<HttpRequest, A2AError>)
        ensures
            request_view(r) == self@.request(HttpMethod::Get, "/api/v1/traces/"@ + trace_id@, None),
    {
        let mut path = "/api/v1/traces/".to_owned();
        path.append(trace_id);
        self.request(HttpMethod::Get, path.as_str(), None)
    }

    /// Lists the catalog of models.
    pub fn model_catalog_request(&self) -> (r: Result<HttpRequest, A2AError>)
        ensures
            request_view(r) == self@.request(HttpMethod::Get, "/api/v1/models/catalog"@, None),
    {
        self.request(HttpMethod::Get, "/api/v1/models/catalog", None)
    }

    /// Fills the catalog of models anew from the providers.
    pub fn catalog_refresh_request(&self) -> (r: Result<HttpRequest, A2AError>)
        ensures
            request_view(r) == self@.request(
                HttpMethod::Post,
                "/api/v1/models/catalog/refresh"@,
                None,
            ),
    {
        self.request(HttpMethod::Post, "/api/v1/models/catalog/refresh", None)
    }

    /// Gets the summary of costs.
    pub fn model_cost_request(&self) -> (r: Result<HttpRequest, A2AError>)
        ensures
            request_view(r) == self@.request(HttpMethod::Get, "/api/v1/models/cost"@, None),
    {
        self.request(HttpMethod::Get, "/api/v1/models/cost", None)
    }

    /// Gets a recipe.
    pub fn get_recipe_request(&self, name: &str) -> (r: Result<HttpRequest, A2AError>)
        ensures
            request_view(r) == self@.request(HttpMethod::Get, "/api/v1/recipes/"@ + name@, None),
    {
        let mut path = "/api/v1/recipes/".to_owned();
        path.append(name);
        self.request(HttpMethod::Get, path.as_str(), None)
    }

    /// Lists the recipes.
    pub fn list_recipes_request(&self) -> (r: Result<HttpRequest, A2AError>)
        ensures
            request_view(r) == self@.request(HttpMethod::Get, "/api/v1/recipes"@, None),
    {
        self.request(HttpMethod::Get, "/api/v1/recipes", None)
    }

    /// Deletes a recipe.
    pub fn delete_recipe_request(&self, name: &str) -> (r: Result<HttpRequest, A2AError>)
        ensures
            request_view(r) == self@.request(HttpMethod::Delete, "/api/v1/recipes/"@ + name@, None),
    {
        let mut path = "/api/v1/recipes/".to_owned();
        path.append(name);
        self.request(HttpMethod::Delete, path.as_str(), None)
    }

    /// Lists the runs of a recipe.
    pub fn recipe_runs_request(&self, name: &str) -> (r: Result<HttpRequest, A2AError>)
        ensures
            request_view(r) == self@.request(
                HttpMethod::Get,
                "/api/v1/recipes/"@ + name@ + "/runs"@,
                None,
            ),
    {
        let mut path = "/api/v1/recipes/".to_owned();
        path.append(name);
        path.append("/runs");
        self.request(HttpMethod::Get, path.as_str(), None)
    }

    /// Opens or closes a gate in a run of a recipe.
    pub fn approve_gate_request(
        &self,
        recipe: &str,
        run_id: &str,
        step_name: &str,
        approved: bool,
        comment: Option<&str>,
    ) -> (r: Result<HttpRequest, A2AError>)
        ensures
            request_view(r) == self@.request(
                HttpMethod::Post,
                "/api/v1/recipes/"@ + recipe@ + "/runs/"@ + run_id@ + "/gates/"@ + step_name@ + "/approve"@,
                Some(approve_body_view(approved, opt_str(comment))),
            ),
    {
        let mut path = "/api/v1/recipes/".to_owned();
        path.append(recipe);
        path.append("/runs/");
        path.append(run_id);
        path.append("/gates/");
        path.append(step_name);
        path.append("/approve");
        self.request(HttpMethod::Post, path.as_str(), Some(approve_body(approved, comment)))
    }

    /// Lists the kinds of guardrails.
    pub fn guardrail_kinds_request(&self) -> (r: Result<HttpRequest, A2AError>)
        ensures
            request_view(r) == self@.request(HttpMethod::Get, "/api/v1/guardrails/kinds"@, None),
    {
        self.request(HttpMethod::Get, "/api/v1/guardrails/kinds", None)
    }

    /// Lists the latest traces: at most `limit` of them, of one agent where
    /// one is named.
    pub fn list_traces_request(&self, agent: Option<&str>, limit: u32) -> (r: Result<
        HttpRequest,
        A2AError,
    >)
        ensures
            match self@.traces_address(opt_str(agent), limit) {
                Some(url) => request_view(r) == self@.request_to(HttpMethod::Get, url, None),
                None => r matches Err(e) && e@ == A2AErrorView::InvalidUrl(
                    "Invalid URL path: /api/v1/traces"@,
                ),
            },
    {
        let failed = || -> (e: A2AError)
            ensures
                e@ == A2AErrorView::InvalidUrl("Invalid URL path: /api/v1/traces"@),
            { A2AError::InvalidUrl("Invalid URL path: /api/v1/traces".to_owned()) };
        let url = match self.url("/api/v1/traces") {
            Some(url) => url,
            None => {
                return Err(failed());
            },
        };
        let count = digits_text(limit);
        let limited = match url.with_query("limit", count.as_str()) {
            Some(url) => url,
            None => {
                return Err(failed());
            },
        };
        let url = match agent {
            None => limited,
            Some(a) => match limited.with_query("agent", a) {
                Some(url) => url,
                None => {
                    return Err(failed());
                },
            },
        };
        self.request_to(HttpMethod::Get, url, None)
    }

    /// Lists the audit events, at most `limit` of them.
    pub fn list_audit_request(&self, limit: u32) -> (r: Result<HttpRequest, A2AError>)
        ensures
            match self@.audit_address(limit) {
                Some(url) => request_view(r) == self@.request_to(HttpMethod::Get, url, None),
                None => r matches Err(e) && e@ == A2AErrorView::InvalidUrl(
                    "Invalid URL path: /api/v1/audit"@,
                ),
            },
    {
        let url = match self.url("/api/v1/audit") {
            Some(url) => url,
            None => {
                return Err(A2AError::InvalidUrl("Invalid URL path: /api/v1/audit".to_owned()));
            },
        };
        let count = digits_text(limit);
        match url.with_query("limit", count.as_str()) {
            Some(url) => self.request_to(HttpMethod::Get, url, None),
            None => Err(A2AError::InvalidUrl("Invalid URL path: /api/v1/audit".to_owned())),
        }
    }
}

/// The address of the control plane: the one that is given, or else the
/// local one.
pub open spec fn settled_url(url: Option<Seq<char>>) -> Seq<char> {
    match url {
        Some(u) => u,
        None => "http://localhost:8080"@,
    }
}

} // verus!
