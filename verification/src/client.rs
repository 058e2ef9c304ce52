//! The client side of the A2A operations.
//!
//! Every operation is one HTTP exchange. The client says what to send, as an
//! [`HttpRequest`], and reads what came back, as an [`HttpReply`]; the
//! exchange itself is the caller's work. The client keeps no state between
//! calls but the address of the agent, a bearer token and the agent's card.
//! Nothing is retried: a failed call is reported once, and since sending a
//! message starts a task, sending it again may start a second one.

use crate::agent_card::{
    card_address, card_from_reply, discovered, discovery_request, AgentCard, AgentCardView,
};
use crate::error::{A2AError, A2AErrorView};
use crate::http::{
    add_header, headers_view, HttpMethod, HttpReply, HttpReplyView, HttpRequest, HttpRequestView,
};
use crate::json::{
    get_opt_text, key_mark, lemma_object_view, members_view, parsed, printed, put_opt_text,
    put_text, read_opt_text, text_refusal, with_opt_text, Json, JsonValue,
};
use crate::jsonrpc::{
    task_params, A2A_MEDIA_TYPE, JsonRpcRequest, JsonRpcRequestView, JsonRpcResponse,
};
use crate::message::{Message, MessagePartView, MessageRole, MessageView};
use crate::methods::{
    CANCEL_TASK, CREATE_PUSH_NOTIFICATION, DELETE_PUSH_NOTIFICATION, GET_EXTENDED_AGENT_CARD,
    GET_PUSH_NOTIFICATION, GET_TASK, LIST_PUSH_NOTIFICATIONS, LIST_TASKS, SEND_MESSAGE,
    SEND_STREAMING_MESSAGE, SUBSCRIBE_TASK,
};
use crate::model::{opt_view, seq_view};
use crate::notification::PushNotificationConfig;
use crate::sse::{SseDecoder, SseDecoderView};
use crate::task::{Task, TaskQueryParams};
use crate::text::{concat, opt_text};
use crate::url::{is_url, url_text, WebUrl};
use crate::wire::{
    decode_each, get_opt_value, get_value, group_lookup, list_from_json, put_opt_value, put_value,
    read_opt_value, read_value, with_opt_value, with_value, Wire,
};
use vstd::pervasive::unreached;
use vstd::prelude::*;

verus! {

/// The media type of event streams.
pub const EVENT_STREAM: &'static str = "text/event-stream";

/// What is sent with a message.
#[derive(Debug, Clone, PartialEq)]
pub struct SendMessageRequest {
    /// The message.
    pub message: Message,
    /// The task that the message continues; a new task is started where
    /// there is none.
    pub task_id: Option<String>,
    /// The session that the task belongs to.
    pub context_id: Option<String>,
    /// What is attached to the request.
    pub metadata: Option<Json>,
}

/// The model of a [`SendMessageRequest`].
pub struct SendMessageRequestView {
    pub message: MessageView,
    pub task_id: Option<Seq<char>>,
    pub context_id: Option<Seq<char>>,
    pub metadata: Option<JsonValue>,
}

impl View for SendMessageRequest {
    type V = SendMessageRequestView;

    open spec fn view(&self) -> SendMessageRequestView {
        SendMessageRequestView {
            message: self.message@,
            task_id: opt_text(self.task_id),
            context_id: opt_text(self.context_id),
            metadata: opt_view(self.metadata),
        }
    }
}

impl SendMessageRequestView {
    /// Whether the request carries one text from the client, and nothing
    /// else but perhaps the task to continue.
    pub open spec fn is_text(self, text: Seq<char>, task_id: Option<Seq<char>>) -> bool {
        &&& self.message.role == MessageRole::User
        &&& self.message.parts == seq![MessagePartView::Text { text, media_type: None }]
        &&& self.message.metadata is None
        &&& self.task_id == task_id
        &&& self.context_id is None
        &&& self.metadata is None
    }
}

impl SendMessageRequest {
    /// The request that starts a task with one text.
    pub fn text(text: &str) -> (r: SendMessageRequest)
        ensures
            r@.is_text(text@, None),
    {
        SendMessageRequest {
            message: Message::user_text(text),
            task_id: None,
            context_id: None,
            metadata: None,
        }
    }

    /// The request that continues a task with one text.
    pub fn continuing(task_id: &str, text: &str) -> (r: SendMessageRequest)
        ensures
            r@.is_text(text@, Some(task_id@)),
    {
        SendMessageRequest {
            message: Message::user_text(text),
            task_id: Some(task_id.to_owned()),
            context_id: None,
            metadata: None,
        }
    }
}

impl Default for SendMessageRequest {
    fn default() -> (r: SendMessageRequest)
        ensures
            r@.message.role == MessageRole::User,
            r@.message.parts.len() == 0,
            r@.task_id is None,
            r@.context_id is None,
            r@.metadata is None,
    {
        let parts: Vec<crate::message::MessagePart> = Vec::new();
        SendMessageRequest {
            message: Message::user(parts),
            task_id: None,
            context_id: None,
            metadata: None,
        }
    }
}

impl Wire for SendMessageRequest {
    open spec fn encode(v: SendMessageRequestView) -> JsonValue {
        let m = Seq::empty();
        let m = with_value::<Message>(m, "message"@, v.message);
        let m = with_opt_text(m, "taskId"@, v.task_id);
        let m = with_opt_text(m, "contextId"@, v.context_id);
        JsonValue::Object(with_opt_value::<Json>(m, "metadata"@, v.metadata))
    }

    open spec fn decode(j: JsonValue) -> Option<SendMessageRequestView> {
        match j {
            JsonValue::Object(m) => match (
                read_value::<Message>(m, "message"@),
                read_opt_text(m, "taskId"@),
                read_opt_text(m, "contextId"@),
                read_opt_value::<Json>(m, "metadata"@),
            ) {
                (Some(message), Some(task_id), Some(context_id), Some(metadata)) => Some(
                    SendMessageRequestView { message, task_id, context_id, metadata },
                ),
                _ => None,
            },
            _ => None,
        }
    }

    open spec fn survives(v: SendMessageRequestView) -> bool {
        Message::survives(v.message) && v.metadata != Some(JsonValue::Null)
    }

    fn to_json(&self) -> (j: Json) {
        let mut members: Vec<(String, Json)> = Vec::new();
        proof {
            assert(members_view(members@) =~= Seq::empty());
        }
        put_value(&mut members, "message", &self.message);
        put_opt_text(&mut members, "taskId", &self.task_id);
        put_opt_text(&mut members, "contextId", &self.context_id);
        put_opt_value(&mut members, "metadata", &self.metadata);
        proof {
            lemma_object_view(members);
        }
        Json::Object(members)
    }

    fn from_json(j: &Json) -> (r: Option<SendMessageRequest>) {
        let members = j.as_object()?;
        let message = get_value::<Message>(members, "message")?;
        let task_id = get_opt_text(members, "taskId")?;
        let context_id = get_opt_text(members, "contextId")?;
        let metadata = get_opt_value::<Json>(members, "metadata")?;
        Some(SendMessageRequest { message, task_id, context_id, metadata })
    }

    proof fn lemma_round_trip(v: SendMessageRequestView) {
        broadcast use group_lookup;

        reveal_strlit("message");
        reveal_strlit("taskId");
        reveal_strlit("contextId");
        reveal_strlit("metadata");
        assert(key_mark("message"@) == (7nat, 'm', 'e'));
        assert(key_mark("taskId"@) == (6nat, 't', 'a'));
        assert(key_mark("contextId"@) == (9nat, 'c', 'o'));
        assert(key_mark("metadata"@) == (8nat, 'm', 'e'));
        Message::lemma_round_trip(v.message);
        let m = Self::encode(v)->Object_0;
        assert(read_value::<Message>(m, "message"@) == Some(v.message));
        assert(read_opt_text(m, "taskId"@) == Some(v.task_id));
        assert(read_opt_text(m, "contextId"@) == Some(v.context_id));
        assert(read_opt_value::<Json>(m, "metadata"@) == Some(v.metadata));
    }
}

/// The parameters that name one push notification configuration of a task.
pub open spec fn config_params_view(config_id: Seq<char>, task_id: Seq<char>) -> JsonValue {
    JsonValue::Object(
        seq![("configId"@, JsonValue::String(config_id)), ("taskId"@, JsonValue::String(task_id))],
    )
}

/// The parameters that name one push notification configuration of a task:
/// an object with the members `configId` and `taskId`.
pub fn config_params(config_id: &str, task_id: &str) -> (r: Json)
    ensures
        r@ == config_params_view(config_id@, task_id@),
{
    let mut members: Vec<(String, Json)> = Vec::new();
    put_text(&mut members, "configId", config_id);
    put_text(&mut members, "taskId", task_id);
    proof {
        lemma_object_view(members);
        assert(members_view(members@) =~= seq![
            ("configId"@, JsonValue::String(config_id@)),
            ("taskId"@, JsonValue::String(task_id@)),
        ]);
    }
    Json::Object(members)
}

// ---------------------------------------------------------------------
// Reading replies
// ---------------------------------------------------------------------

/// The model of the outcome of an operation.
pub open spec fn outcome_view<T: View>(r: Result<T, A2AError>) -> Result<T::V, A2AErrorView> {
    match r {
        Ok(value) => Ok(value@),
        Err(e) => Err(e@),
    }
}

/// The model of the outcome of an operation that gives a list.
pub open spec fn outcomes_view<T: View>(r: Result<Vec<T>, A2AError>) -> Result<
    Seq<T::V>,
    A2AErrorView,
> {
    match r {
        Ok(values) => Ok(seq_view(values@)),
        Err(e) => Err(e@),
    }
}

/// The error for a reply whose status is not one of success.
pub open spec fn status_error(reply: HttpReplyView) -> A2AErrorView {
    A2AErrorView::Transport("HTTP status "@ + reply.status_text)
}

/// The result that a reply carries. A reply that is no success is a
/// transport error; a body that is no JSON-RPC response is a serialization
/// error; an error in the response is handed on with its code, message and
/// data.
pub open spec fn rpc_result(reply: HttpReplyView) -> Result<JsonValue, A2AErrorView> {
    if !reply.success() {
        Err(status_error(reply))
    } else {
        match parsed(reply.body) {
            None => Err(
                A2AErrorView::Serialization(
                    "invalid JSON-RPC response: "@ + text_refusal(reply.body),
                ),
            ),
            Some(j) => match JsonRpcResponse::decode(j) {
                None => Err(
                    A2AErrorView::Serialization(
                        "invalid JSON-RPC response: not a response envelope"@,
                    ),
                ),
                Some(response) => match response.outcome() {
                    Ok(result) => Ok(result),
                    Err(e) => Err(
                        A2AErrorView::JsonRpc { code: e.code, message: e.message, data: e.data },
                    ),
                },
            },
        }
    }
}

/// The error for a result that does not have the shape that was asked for.
pub open spec fn shape_error() -> A2AErrorView {
    A2AErrorView::Serialization("unexpected shape of the result"@)
}

/// The value that a reply carries as its result.
pub open spec fn rpc_value<T: Wire>(reply: HttpReplyView) -> Result<T::V, A2AErrorView> {
    match rpc_result(reply) {
        Err(e) => Err(e),
        Ok(j) => match T::decode(j) {
            Some(v) => Ok(v),
            None => Err(shape_error()),
        },
    }
}

/// The list that a reply carries as its result.
pub open spec fn rpc_values<T: Wire>(reply: HttpReplyView) -> Result<Seq<T::V>, A2AErrorView> {
    match rpc_result(reply) {
        Err(e) => Err(e),
        Ok(JsonValue::Array(items)) => match decode_each::<T>(items) {
            Some(values) => Ok(values),
            None => Err(shape_error()),
        },
        Ok(_) => Err(shape_error()),
    }
}

/// Reads the result that a reply carries.
pub fn read_result(reply: &HttpReply) -> (r: Result<Json, A2AError>)
    ensures
        outcome_view(r) == rpc_result(reply@),
{
    if !reply.is_success() {
        return Err(A2AError::Transport(concat("HTTP status ", reply.status_text.as_str())));
    }
    let j = match Json::parse(reply.body.as_str()) {
        Ok(j) => j,
        Err(refusal) => {
            return Err(
                A2AError::Serialization(concat("invalid JSON-RPC response: ", refusal.as_str())),
            );
        },
    };
    let response = match JsonRpcResponse::from_json(&j) {
        Some(response) => response,
        None => {
            return Err(
                A2AError::Serialization(
                    "invalid JSON-RPC response: not a response envelope".to_owned(),
                ),
            );
        },
    };
    match response.into_result() {
        Ok(result) => Ok(result),
        Err(e) => Err(e.into_a2a()),
    }
}

/// Reads the value that a reply carries as its result.
pub fn read_value_reply<T: Wire>(reply: &HttpReply) -> (r: Result<T, A2AError>)
    ensures
        outcome_view(r) == rpc_value::<T>(reply@),
{
    let j = read_result(reply)?;
    match T::from_json(&j) {
        Some(v) => Ok(v),
        None => Err(A2AError::Serialization("unexpected shape of the result".to_owned())),
    }
}

/// Reads the list that a reply carries as its result.
pub fn read_list_reply<T: Wire>(reply: &HttpReply) -> (r: Result<Vec<T>, A2AError>)
    ensures
        outcomes_view(r) == rpc_values::<T>(reply@),
{
    let j = read_result(reply)?;
    match j.as_array() {
        Some(items) => match list_from_json::<T>(items.as_slice()) {
            Some(values) => Ok(values),
            None => Err(A2AError::Serialization("unexpected shape of the result".to_owned())),
        },
        None => Err(A2AError::Serialization("unexpected shape of the result".to_owned())),
    }
}

/// Reads the task that a reply carries: the answer to sending a message, to
/// getting a task and to canceling one.
pub fn read_task(reply: &HttpReply) -> (r: Result<Task, A2AError>)
    ensures
        outcome_view(r) == rpc_value::<Task>(reply@),
{
    read_value_reply::<Task>(reply)
}

/// Reads the tasks that a reply carries: the answer to listing tasks.
pub fn read_tasks(reply: &HttpReply) -> (r: Result<Vec<Task>, A2AError>)
    ensures
        outcomes_view(r) == rpc_values::<Task>(reply@),
{
    read_list_reply::<Task>(reply)
}

/// Reads the push notification configuration that a reply carries.
pub fn read_push_notification(reply: &HttpReply) -> (r: Result<PushNotificationConfig, A2AError>)
    ensures
        outcome_view(r) == rpc_value::<PushNotificationConfig>(reply@),
{
    read_value_reply::<PushNotificationConfig>(reply)
}

/// Reads the push notification configurations that a reply carries.
pub fn read_push_notifications(reply: &HttpReply) -> (r: Result<
    Vec<PushNotificationConfig>,
    A2AError,
>)
    ensures
        outcomes_view(r) == rpc_values::<PushNotificationConfig>(reply@),
{
    read_list_reply::<PushNotificationConfig>(reply)
}

/// Reads the reply to a request whose result does not matter, such as the
/// deletion of a push notification configuration.
pub fn read_done(reply: &HttpReply) -> (r: Result<(), A2AError>)
    ensures
        match rpc_result(reply@) {
            Ok(_) => r is Ok,
            Err(e) => r matches Err(x) && x@ == e,
        },
{
    match read_result(reply) {
        Ok(_) => Ok(()),
        Err(e) => Err(e),
    }
}

/// Reads the extended agent card that a reply carries.
pub fn read_extended_agent_card(reply: &HttpReply) -> (r: Result<AgentCard, A2AError>)
    ensures
        outcome_view(r) == rpc_value::<AgentCard>(reply@),
{
    read_value_reply::<AgentCard>(reply)
}

/// What the status of a streaming reply means: a stream to decode, where
/// the status is one of success; else a transport error, before anything is
/// read.
pub fn open_stream(status: u16, status_text: &str) -> (r: Result<SseDecoder, A2AError>)
    ensures
        match r {
            Ok(decoder) => 200 <= status <= 299 && decoder@ == (SseDecoderView {
                pending: Seq::empty(),
                done: false,
            }),
            Err(e) => !(200 <= status <= 299) && e@ == A2AErrorView::Transport(
                "HTTP status "@ + status_text@,
            ),
        },
{
    if 200 <= status && status <= 299 {
        Ok(SseDecoder::new())
    } else {
        Err(A2AError::Transport(concat("HTTP status ", status_text)))
    }
}

/// The item that stands for a chunk that could not be read.
pub fn stream_read_failed(reason: &str) -> (r: A2AError)
    ensures
        r@ == A2AErrorView::StreamingError("Stream read error: "@ + reason@),
{
    A2AError::StreamingError(concat("Stream read error: ", reason))
}

// ---------------------------------------------------------------------
// The client
// ---------------------------------------------------------------------

/// A client for one remote agent.
#[derive(Debug, Clone, PartialEq)]
pub struct A2AClient {
    base_url: WebUrl,
    agent_card: Option<AgentCard>,
    auth_token: Option<String>,
}

/// The model of an [`A2AClient`].
pub struct A2AClientView {
    /// The address of the agent.
    pub base_url: Seq<char>,
    /// The agent's card, once it was discovered.
    pub agent_card: Option<AgentCardView>,
    /// The bearer token to send along.
    pub auth_token: Option<Seq<char>>,
}

impl View for A2AClient {
    type V = A2AClientView;

    closed spec fn view(&self) -> A2AClientView {
        A2AClientView {
            base_url: self.base_url@,
            agent_card: opt_view(self.agent_card),
            auth_token: opt_text(self.auth_token),
        }
    }
}

/// The model of a request that may have failed to be written.
pub open spec fn request_view(r: Result<HttpRequest, A2AError>) -> Result<
    HttpRequestView,
    A2AErrorView,
> {
    match r {
        Ok(request) => Ok(request@),
        Err(e) => Err(e@),
    }
}

impl A2AClientView {
    /// The header fields of a request: the content type, what is accepted,
    /// and the bearer token where there is one.
    pub open spec fn headers(self, accept: Seq<char>) -> Seq<(Seq<char>, Seq<char>)> {
        let fields = seq![("Content-Type"@, "application/a2a+json"@), ("Accept"@, accept)];
        match self.auth_token {
            Some(token) => fields.push(("Authorization"@, "Bearer "@ + token)),
            None => fields,
        }
    }

    /// The HTTP request that carries a JSON-RPC request to the agent.
    pub open spec fn posted(self, rpc: JsonRpcRequestView, accept: Seq<char>) -> Result<
        HttpRequestView,
        A2AErrorView,
    > {
        match printed(JsonRpcRequest::encode(rpc)) {
            Some(body) => Ok(
                HttpRequestView {
                    method: HttpMethod::Post,
                    url: self.base_url,
                    headers: self.headers(accept),
                    body: Some(body),
                },
            ),
            None => Err(A2AErrorView::Serialization("request cannot be written as JSON"@)),
        }
    }

    /// The HTTP request for a method and its parameters.
    pub open spec fn call(self, method: Seq<char>, params: Option<JsonValue>, id: i64) -> Result<
        HttpRequestView,
        A2AErrorView,
    > {
        self.posted(JsonRpcRequestView::call(method, params, id), "application/a2a+json"@)
    }

    /// The HTTP request for a method that answers with a stream of events.
    pub open spec fn streaming_call(
        self,
        method: Seq<char>,
        params: Option<JsonValue>,
        id: i64,
    ) -> Result<HttpRequestView, A2AErrorView> {
        self.posted(JsonRpcRequestView::call(method, params, id), "text/event-stream"@)
    }
}

impl A2AClient {
    /// A client for the agent at `base_url`, which has to be a URL.
    pub fn new(base_url: &str) -> (r: A2AClient)
        requires
            is_url(base_url@),
        ensures
            r@ == (A2AClientView {
                base_url: url_text(base_url@).unwrap(),
                agent_card: None,
                auth_token: None,
            }),
    {
        match WebUrl::parse(base_url) {
            Ok(url) => A2AClient { base_url: url, agent_card: None, auth_token: None },
            Err(_) => unreached(),
        }
    }

    /// A client for the agent at `base_url`, where that is a URL.
    pub fn connect(base_url: &str) -> (r: Result<A2AClient, A2AError>)
        ensures
            match r {
                Ok(client) => is_url(base_url@) && client@ == (A2AClientView {
                    base_url: url_text(base_url@).unwrap(),
                    agent_card: None,
                    auth_token: None,
                }),
                Err(e) => !is_url(base_url@) && e@ is InvalidUrl,
            },
    {
        match WebUrl::parse(base_url) {
            Ok(_) => Ok(A2AClient::new(base_url)),
            Err(refusal) => Err(A2AError::InvalidUrl(refusal)),
        }
    }

    /// The client with a bearer token to send along.
    pub fn with_auth(self, token: &str) -> (r: A2AClient)
        ensures
            r@ == (A2AClientView { auth_token: Some(token@), ..self@ }),
    {
        A2AClient {
            base_url: self.base_url,
            agent_card: self.agent_card,
            auth_token: Some(token.to_owned()),
        }
    }

    /// The address of the agent.
    pub fn base_url(&self) -> (r: &str)
        ensures
            r@ == self@.base_url,
    {
        self.base_url.as_str()
    }

    /// The agent's card, once it was discovered.
    pub fn agent_card(&self) -> (r: Option<&AgentCard>)
        ensures
            match r {
                Some(card) => self@.agent_card == Some(card@),
                None => self@.agent_card is None,
            },
    {
        self.agent_card.as_ref()
    }

    /// The request that fetches the agent's card.
    pub fn discover_request(&self) -> (r: HttpRequest)
        ensures
            r@ == (HttpRequestView {
                method: HttpMethod::Get,
                url: card_address(self@.base_url),
                headers: Seq::empty(),
                body: None,
            }),
    {
        discovery_request(self.base_url.as_str())
    }

    /// Reads the agent's card from the reply to the discovery request and
    /// keeps it. A reply that gives no valid card leaves the client as it
    /// is.
    pub fn accept_discovery(&mut self, reply: &HttpReply) -> (r: Result<(), A2AError>)
        ensures
            match discovered(reply@) {
                Ok(card) => r is Ok && final(self)@ == (A2AClientView {
                    agent_card: Some(card),
                    ..old(self)@
                }),
                Err(e) => r matches Err(x) && x@ == e && final(self)@ == old(self)@,
            },
    {
        match card_from_reply(reply) {
            Ok(card) => {
                self.agent_card = Some(card);
                Ok(())
            },
            Err(e) => Err(e),
        }
    }

    /// The HTTP request that carries a JSON-RPC request to the agent.
    pub fn post(&self, rpc: &JsonRpcRequest, accept: &str) -> (r: Result<HttpRequest, A2AError>)
        ensures
            request_view(r) == self@.posted(rpc@, accept@),
    {
        let body = match rpc.to_json().to_text() {
            Some(body) => body,
            None => {
                return Err(
                    A2AError::Serialization("request cannot be written as JSON".to_owned()),
                );
            },
        };
        let mut headers: Vec<(String, String)> = Vec::new();
        proof {
            assert(headers_view(headers@) =~= Seq::empty());
        }
        add_header(&mut headers, "Content-Type", A2A_MEDIA_TYPE);
        add_header(&mut headers, "Accept", accept);
        match &self.auth_token {
            Some(token) => {
                let value = concat("Bearer ", token.as_str());
                add_header(&mut headers, "Authorization", value.as_str());
            },
            None => {},
        }
        proof {
            assert(headers_view(headers@) =~= self@.headers(accept@));
        }
        Ok(
            HttpRequest {
                method: HttpMethod::Post,
                url: self.base_url.as_str().to_owned(),
                headers,
                body: Some(body),
            },
        )
    }

    /// The request for a method and its parameters, under the identifier
    /// `id`.
    pub fn call(&self, method: &str, params: Option<Json>, id: i64) -> (r: Result<
        HttpRequest,
        A2AError,
    >)
        ensures
            request_view(r) == self@.call(method@, opt_view(params), id),
    {
        let rpc = JsonRpcRequest::with_id(method, params, id);
        self.post(&rpc, A2A_MEDIA_TYPE)
    }

    /// The request for a method that answers with a stream of events.
    pub fn streaming_call(&self, method: &str, params: Option<Json>, id: i64) -> (r: Result<
        HttpRequest,
        A2AError,
    >)
        ensures
            request_view(r) == self@.streaming_call(method@, opt_view(params), id),
    {
        let rpc = JsonRpcRequest::with_id(method, params, id);
        self.post(&rpc, EVENT_STREAM)
    }

    /// The request that sends a message: `message/send`.
    pub fn send_message_request(&self, request: &SendMessageRequest, id: i64) -> (r: Result<
        HttpRequest,
        A2AError,
    >)
        ensures
            request_view(r) == self@.call(
                "message/send"@,
                Some(SendMessageRequest::encode(request@)),
                id,
            ),
    {
        self.call(SEND_MESSAGE, Some(request.to_json()), id)
    }

    /// The request that gets a task: `tasks/get`.
    pub fn get_task_request(&self, task_id: &str, id: i64) -> (r: Result<HttpRequest, A2AError>)
        ensures
            request_view(r) == self@.call(
                "tasks/get"@,
                Some(JsonRpcRequestView::task_params(task_id@)),
                id,
            ),
    {
        self.call(GET_TASK, Some(task_params(task_id)), id)
    }

    /// The request that lists tasks: `tasks/list`.
    pub fn list_tasks_request(&self, params: &TaskQueryParams, id: i64) -> (r: Result<
        HttpRequest,
        A2AError,
    >)
        ensures
            request_view(r) == self@.call(
                "tasks/list"@,
                Some(TaskQueryParams::encode(params@)),
                id,
            ),
    {
        self.call(LIST_TASKS, Some(params.to_json()), id)
    }

    /// The request that cancels a task: `tasks/cancel`.
    pub fn cancel_task_request(&self, task_id: &str, id: i64) -> (r: Result<
        HttpRequest,
        A2AError,
    >)
        ensures
            request_view(r) == self@.call(
                "tasks/cancel"@,
                Some(JsonRpcRequestView::task_params(task_id@)),
                id,
            ),
    {
        self.call(CANCEL_TASK, Some(task_params(task_id)), id)
    }

    /// The request that sends a message and asks for a stream of events:
    /// `message/stream`.
    pub fn send_streaming_request(&self, request: &SendMessageRequest, id: i64) -> (r: Result<
        HttpRequest,
        A2AError,
    >)
        ensures
            request_view(r) == self@.streaming_call(
                "message/stream"@,
                Some(SendMessageRequest::encode(request@)),
                id,
            ),
    {
        self.streaming_call(SEND_STREAMING_MESSAGE, Some(request.to_json()), id)
    }

    /// The request that follows a task's updates as a stream of events:
    /// `tasks/subscribe`.
    pub fn subscribe_request(&self, task_id: &str, id: i64) -> (r: Result<HttpRequest, A2AError>)
        ensures
            request_view(r) == self@.streaming_call(
                "tasks/subscribe"@,
                Some(JsonRpcRequestView::task_params(task_id@)),
                id,
            ),
    {
        self.streaming_call(SUBSCRIBE_TASK, Some(task_params(task_id)), id)
    }

    /// The request that registers a push notification configuration.
    pub fn create_push_notification_request(
        &self,
        config: &PushNotificationConfig,
        id: i64,
    ) -> (r: Result<HttpRequest, A2AError>)
        ensures
            request_view(r) == self@.call(
                "tasks/pushNotification/create"@,
                Some(PushNotificationConfig::encode(config@)),
                id,
            ),
    {
        self.call(CREATE_PUSH_NOTIFICATION, Some(config.to_json()), id)
    }

    /// The request that gets a push notification configuration.
    pub fn get_push_notification_request(&self, config_id: &str, task_id: &str, id: i64) -> (r:
        Result<HttpRequest, A2AError>)
        ensures
            request_view(r) == self@.call(
                "tasks/pushNotification/get"@,
                Some(config_params_view(config_id@, task_id@)),
                id,
            ),
    {
        self.call(GET_PUSH_NOTIFICATION, Some(config_params(config_id, task_id)), id)
    }

    /// The request that lists the push notification configurations of a
    /// task.
    pub fn list_push_notifications_request(&self, task_id: &str, id: i64) -> (r: Result<
        HttpRequest,
        A2AError,
    >)
        ensures
            request_view(r) == self@.call(
                "tasks/pushNotification/list"@,
                Some(JsonRpcRequestView::task_params(task_id@)),
                id,
            ),
    {
        self.call(LIST_PUSH_NOTIFICATIONS, Some(task_params(task_id)), id)
    }

    /// The request that deletes a push notification configuration.
    pub fn delete_push_notification_request(&self, config_id: &str, task_id: &str, id: i64) -> (r:
        Result<HttpRequest, A2AError>)
        ensures
            request_view(r) == self@.call(
                "tasks/pushNotification/delete"@,
                Some(config_params_view(config_id@, task_id@)),
                id,
            ),
    {
        self.call(DELETE_PUSH_NOTIFICATION, Some(config_params(config_id, task_id)), id)
    }

    /// The request that gets the extended agent card.
    pub fn extended_agent_card_request(&self, id: i64) -> (r: Result<HttpRequest, A2AError>)
        ensures
            request_view(r) == self@.call("agent/authenticatedExtendedCard"@, None, id),
    {
        self.call(GET_EXTENDED_AGENT_CARD, None, id)
    }
}

} // verus!
