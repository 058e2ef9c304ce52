//! The JSON-RPC 2.0 envelope that carries every A2A operation.

use crate::error::{A2AError, A2AErrorView};
use crate::json::{
    get_i64, get_text, i64_number, json_i64, key_mark, lemma_object_view, members_view, put_text,
    read_i64, read_text, Json, JsonValue,
};
use crate::methods::{CANCEL_TASK, GET_TASK, LIST_TASKS, SEND_MESSAGE, SEND_STREAMING_MESSAGE};
use crate::model::opt_view;
use crate::text::{decimal, push_decimal};
use crate::time::clock_nanos;
use crate::wire::{
    get_opt_value, get_value, group_lookup, put_opt_value, put_value, read_opt_value, read_value,
    with_opt_value, with_value, Wire,
};
use vstd::prelude::*;

verus! {

/// The protocol version that every envelope names.
pub const JSONRPC_VERSION: &'static str = "2.0";

/// The media type of A2A bodies.
pub const A2A_MEDIA_TYPE: &'static str = "application/a2a+json";

/// The identifier that ties a response to its request: a number or a
/// string.
#[derive(Debug, Clone, PartialEq)]
pub enum RequestId {
    Number(i64),
    String(String),
}

/// The model of a [`RequestId`].
pub enum RequestIdView {
    Number(i64),
    String(Seq<char>),
}

impl View for RequestId {
    type V = RequestIdView;

    open spec fn view(&self) -> RequestIdView {
        match self {
            RequestId::Number(n) => RequestIdView::Number(*n),
            RequestId::String(s) => RequestIdView::String(s@),
        }
    }
}

impl Wire for RequestId {
    open spec fn encode(v: RequestIdView) -> JsonValue {
        match v {
            RequestIdView::Number(n) => JsonValue::Number(i64_number(n)),
            RequestIdView::String(s) => JsonValue::String(s),
        }
    }

    open spec fn decode(j: JsonValue) -> Option<RequestIdView> {
        match j {
            JsonValue::String(s) => Some(RequestIdView::String(s)),
            _ => match json_i64(j) {
                Some(n) => Some(RequestIdView::Number(n)),
                None => None,
            },
        }
    }

    open spec fn survives(v: RequestIdView) -> bool {
        v matches RequestIdView::Number(n) ==> i64::survives(n)
    }

    fn to_json(&self) -> (j: Json) {
        match self {
            RequestId::Number(n) => Json::from_i64(*n),
            RequestId::String(s) => Json::string(s.as_str()),
        }
    }

    fn from_json(j: &Json) -> (r: Option<RequestId>) {
        match j.as_str() {
            Some(s) => Some(RequestId::String(s.to_owned())),
            None => match j.as_i64() {
                Some(n) => Some(RequestId::Number(n)),
                None => None,
            },
        }
    }

    proof fn lemma_round_trip(v: RequestIdView) {
    }
}

/// The request identifier that is made from a reading of the clock: the
/// nanoseconds modulo the largest `i64`, or 1 where there is no reading.
pub open spec fn id_from_nanos(nanos: Option<u128>) -> i64 {
    match nanos {
        Some(n) => (n % 0x7fff_ffff_ffff_ffff) as i64,
        None => 1,
    }
}

/// The request identifier that is made from a reading of the clock.
pub fn request_id_from_nanos(nanos: Option<u128>) -> (r: i64)
    ensures
        r == id_from_nanos(nanos),
        0 <= r < i64::MAX,
{
    match nanos {
        Some(n) => (n % 0x7fff_ffff_ffff_ffff) as i64,
        None => 1,
    }
}

/// A request identifier made from the reading of the system clock.
pub fn rand_id() -> (r: i64)
    ensures
        0 <= r < i64::MAX,
{
    request_id_from_nanos(clock_nanos())
}

// ---------------------------------------------------------------------
// Errors
// ---------------------------------------------------------------------

/// A JSON-RPC error, as a response carries it.
#[derive(Debug, Clone, PartialEq)]
pub struct JsonRpcError {
    /// The error code.
    pub code: i64,
    /// The error in words.
    pub message: String,
    /// More about the error.
    pub data: Option<Json>,
}

/// The model of a [`JsonRpcError`].
pub struct JsonRpcErrorView {
    pub code: i64,
    pub message: Seq<char>,
    pub data: Option<JsonValue>,
}

impl View for JsonRpcError {
    type V = JsonRpcErrorView;

    open spec fn view(&self) -> JsonRpcErrorView {
        JsonRpcErrorView { code: self.code, message: self.message@, data: opt_view(self.data) }
    }
}

/// The code for a request that is not valid JSON.
pub const PARSE_ERROR: i64 = -32700;

/// The code for a request that is no valid envelope.
pub const INVALID_REQUEST: i64 = -32600;

/// The code for a method that the agent does not know.
pub const METHOD_NOT_FOUND: i64 = -32601;

/// The code for parameters that the method does not take.
pub const INVALID_PARAMS: i64 = -32602;

/// The code for an error inside the agent.
pub const INTERNAL_ERROR: i64 = -32603;

/// The code for a task that the agent does not have.
pub const TASK_NOT_FOUND: i64 = -32001;

/// The code for a task that can no longer be canceled.
pub const TASK_NOT_CANCELABLE: i64 = -32002;

impl JsonRpcErrorView {
    /// An error with a code, a message and a detail in words.
    pub open spec fn detailed(code: i64, message: Seq<char>, detail: Seq<char>) -> JsonRpcErrorView {
        JsonRpcErrorView { code, message, data: Some(JsonValue::String(detail)) }
    }

    /// The error in words.
    pub open spec fn text(self) -> Seq<char> {
        "JSON-RPC error "@ + decimal(self.code as int) + ": "@ + self.message
    }
}

impl JsonRpcError {
    /// An error with a code, a message and a detail in words.
    pub fn detailed(code: i64, message: &str, detail: String) -> (r: JsonRpcError)
        ensures
            r@ == JsonRpcErrorView::detailed(code, message@, detail@),
    {
        JsonRpcError { code, message: message.to_owned(), data: Some(Json::String(detail)) }
    }

    /// The request was not valid JSON (-32700).
    pub fn parse_error(detail: &str) -> (r: JsonRpcError)
        ensures
            r@ == JsonRpcErrorView::detailed(PARSE_ERROR, "Parse error"@, detail@),
    {
        JsonRpcError::detailed(PARSE_ERROR, "Parse error", detail.to_owned())
    }

    /// The request was no valid envelope (-32600).
    pub fn invalid_request(detail: &str) -> (r: JsonRpcError)
        ensures
            r@ == JsonRpcErrorView::detailed(INVALID_REQUEST, "Invalid Request"@, detail@),
    {
        JsonRpcError::detailed(INVALID_REQUEST, "Invalid Request", detail.to_owned())
    }

    /// The method is not known (-32601).
    pub fn method_not_found(method: &str) -> (r: JsonRpcError)
        ensures
            r@ == JsonRpcErrorView::detailed(
                METHOD_NOT_FOUND,
                "Method not found"@,
                "Unknown method: "@ + method@,
            ),
    {
        let mut detail = "Unknown method: ".to_owned();
        detail.append(method);
        JsonRpcError::detailed(METHOD_NOT_FOUND, "Method not found", detail)
    }

    /// The parameters do not fit the method (-32602).
    pub fn invalid_params(detail: &str) -> (r: JsonRpcError)
        ensures
            r@ == JsonRpcErrorView::detailed(INVALID_PARAMS, "Invalid params"@, detail@),
    {
        JsonRpcError::detailed(INVALID_PARAMS, "Invalid params", detail.to_owned())
    }

    /// Something failed inside the agent (-32603).
    pub fn internal_error(detail: &str) -> (r: JsonRpcError)
        ensures
            r@ == JsonRpcErrorView::detailed(INTERNAL_ERROR, "Internal error"@, detail@),
    {
        JsonRpcError::detailed(INTERNAL_ERROR, "Internal error", detail.to_owned())
    }

    /// There is no such task (-32001).
    pub fn task_not_found(task_id: &str) -> (r: JsonRpcError)
        ensures
            r@ == JsonRpcErrorView::detailed(
                TASK_NOT_FOUND,
                "Task not found"@,
                "Task "@ + task_id@ + " not found"@,
            ),
    {
        let mut detail = "Task ".to_owned();
        detail.append(task_id);
        detail.append(" not found");
        JsonRpcError::detailed(TASK_NOT_FOUND, "Task not found", detail)
    }

    /// The task can no longer be canceled (-32002).
    pub fn task_not_cancelable(task_id: &str) -> (r: JsonRpcError)
        ensures
            r@ == JsonRpcErrorView::detailed(
                TASK_NOT_CANCELABLE,
                "Task not cancelable"@,
                "Task "@ + task_id@ + " is in a terminal state"@,
            ),
    {
        let mut detail = "Task ".to_owned();
        detail.append(task_id);
        detail.append(" is in a terminal state");
        JsonRpcError::detailed(TASK_NOT_CANCELABLE, "Task not cancelable", detail)
    }

    /// The error in words.
    pub fn to_text(&self) -> (r: String)
        ensures
            r@ == self@.text(),
    {
        let mut out = "JSON-RPC error ".to_owned();
        push_decimal(&mut out, self.code);
        out.append(": ");
        out.append(self.message.as_str());
        out
    }

    /// The error as an error of the A2A layer: code, message and data are
    /// kept.
    pub fn into_a2a(self) -> (r: A2AError)
        ensures
            r@ == (A2AErrorView::JsonRpc {
                code: self@.code,
                message: self@.message,
                data: self@.data,
            }),
    {
        A2AError::JsonRpc { code: self.code, message: self.message, data: self.data }
    }
}

impl Wire for JsonRpcError {
    open spec fn encode(v: JsonRpcErrorView) -> JsonValue {
        let m = Seq::empty();
        let m = with_value::<i64>(m, "code"@, v.code);
        let m = m.push(("message"@, JsonValue::String(v.message)));
        JsonValue::Object(with_opt_value::<Json>(m, "data"@, v.data))
    }

    open spec fn decode(j: JsonValue) -> Option<JsonRpcErrorView> {
        match j {
            JsonValue::Object(m) => match (
                read_i64(m, "code"@),
                read_text(m, "message"@),
                read_opt_value::<Json>(m, "data"@),
            ) {
                (Some(code), Some(message), Some(data)) => Some(
                    JsonRpcErrorView { code, message, data },
                ),
                _ => None,
            },
            _ => None,
        }
    }

    open spec fn survives(v: JsonRpcErrorView) -> bool {
        i64::survives(v.code) && v.data != Some(JsonValue::Null)
    }

    fn to_json(&self) -> (j: Json) {
        let mut members: Vec<(String, Json)> = Vec::new();
        proof {
            assert(members_view(members@) =~= Seq::empty());
        }
        put_value(&mut members, "code", &self.code);
        put_text(&mut members, "message", self.message.as_str());
        put_opt_value(&mut members, "data", &self.data);
        proof {
            lemma_object_view(members);
        }
        Json::Object(members)
    }

    fn from_json(j: &Json) -> (r: Option<JsonRpcError>) {
        let members = j.as_object()?;
        let code = get_i64(members, "code")?;
        let message = get_text(members, "message")?;
        let data = get_opt_value::<Json>(members, "data")?;
        Some(JsonRpcError { code, message, data })
    }

    proof fn lemma_round_trip(v: JsonRpcErrorView) {
        broadcast use group_lookup;

        reveal_strlit("code");
        reveal_strlit("message");
        reveal_strlit("data");
        assert(key_mark("code"@) == (4nat, 'c', 'o'));
        assert(key_mark("message"@) == (7nat, 'm', 'e'));
        assert(key_mark("data"@) == (4nat, 'd', 'a'));
        let m = Self::encode(v)->Object_0;
        assert(read_i64(m, "code"@) == Some(v.code));
        assert(read_text(m, "message"@) == Some(v.message));
        assert(read_opt_value::<Json>(m, "data"@) == Some(v.data));
    }
}

// ---------------------------------------------------------------------
// Requests
// ---------------------------------------------------------------------

/// A JSON-RPC request.
#[derive(Debug, Clone, PartialEq)]
pub struct JsonRpcRequest {
    /// The protocol version, `2.0`.
    pub jsonrpc: String,
    /// The method to call.
    pub method: String,
    /// The method's parameters.
    pub params: Option<Json>,
    /// The identifier that the response will carry.
    pub id: RequestId,
}

/// The model of a [`JsonRpcRequest`].
pub struct JsonRpcRequestView {
    pub jsonrpc: Seq<char>,
    pub method: Seq<char>,
    pub params: Option<JsonValue>,
    pub id: RequestIdView,
}

impl View for JsonRpcRequest {
    type V = JsonRpcRequestView;

    open spec fn view(&self) -> JsonRpcRequestView {
        JsonRpcRequestView {
            jsonrpc: self.jsonrpc@,
            method: self.method@,
            params: opt_view(self.params),
            id: self.id@,
        }
    }
}

impl JsonRpcRequestView {
    /// The request for a method with given parameters and a numeric
    /// identifier.
    pub open spec fn call(method: Seq<char>, params: Option<JsonValue>, id: i64) -> JsonRpcRequestView {
        JsonRpcRequestView { jsonrpc: "2.0"@, method, params, id: RequestIdView::Number(id) }
    }

    /// The parameters that name one task.
    pub open spec fn task_params(task_id: Seq<char>) -> JsonValue {
        JsonValue::Object(seq![("taskId"@, JsonValue::String(task_id))])
    }
}

/// The parameters that name one task: an object with the member `taskId`.
pub fn task_params(task_id: &str) -> (r: Json)
    ensures
        r@ == JsonRpcRequestView::task_params(task_id@),
{
    let mut members: Vec<(String, Json)> = Vec::new();
    put_text(&mut members, "taskId", task_id);
    proof {
        lemma_object_view(members);
        assert(members_view(members@) =~= seq![("taskId"@, JsonValue::String(task_id@))]);
    }
    Json::Object(members)
}

impl JsonRpcRequest {
    /// The request for a method with given parameters and a given numeric
    /// identifier.
    pub fn with_id(method: &str, params: Option<Json>, id: i64) -> (r: JsonRpcRequest)
        ensures
            r@ == JsonRpcRequestView::call(method@, opt_view(params), id),
    {
        JsonRpcRequest {
            jsonrpc: JSONRPC_VERSION.to_owned(),
            method: method.to_owned(),
            params,
            id: RequestId::Number(id),
        }
    }

    /// The request for a method with given parameters, under an identifier
    /// made from the reading of the clock.
    pub fn new(method: &str, params: Option<Json>) -> (r: JsonRpcRequest)
        ensures
            r@.id matches RequestIdView::Number(id) && 0 <= id < i64::MAX && r@
                == JsonRpcRequestView::call(method@, opt_view(params), id),
    {
        JsonRpcRequest::with_id(method, params, rand_id())
    }

    /// A `message/send` request.
    pub fn send_message(params: Json) -> (r: JsonRpcRequest)
        ensures
            r@.id matches RequestIdView::Number(id) && 0 <= id < i64::MAX && r@
                == JsonRpcRequestView::call("message/send"@, Some(params@), id),
    {
        JsonRpcRequest::new(SEND_MESSAGE, Some(params))
    }

    /// A `message/stream` request.
    pub fn send_streaming_message(params: Json) -> (r: JsonRpcRequest)
        ensures
            r@.id matches RequestIdView::Number(id) && 0 <= id < i64::MAX && r@
                == JsonRpcRequestView::call("message/stream"@, Some(params@), id),
    {
        JsonRpcRequest::new(SEND_STREAMING_MESSAGE, Some(params))
    }

    /// A `tasks/get` request for one task.
    pub fn get_task(task_id: &str) -> (r: JsonRpcRequest)
        ensures
            r@.id matches RequestIdView::Number(id) && 0 <= id < i64::MAX && r@
                == JsonRpcRequestView::call(
                "tasks/get"@,
                Some(JsonRpcRequestView::task_params(task_id@)),
                id,
            ),
    {
        JsonRpcRequest::new(GET_TASK, Some(task_params(task_id)))
    }

    /// A `tasks/cancel` request for one task.
    pub fn cancel_task(task_id: &str) -> (r: JsonRpcRequest)
        ensures
            r@.id matches RequestIdView::Number(id) && 0 <= id < i64::MAX && r@
                == JsonRpcRequestView::call(
                "tasks/cancel"@,
                Some(JsonRpcRequestView::task_params(task_id@)),
                id,
            ),
    {
        JsonRpcRequest::new(CANCEL_TASK, Some(task_params(task_id)))
    }

    /// A `tasks/list` request.
    pub fn list_tasks(params: Json) -> (r: JsonRpcRequest)
        ensures
            r@.id matches RequestIdView::Number(id) && 0 <= id < i64::MAX && r@
                == JsonRpcRequestView::call("tasks/list"@, Some(params@), id),
    {
        JsonRpcRequest::new(LIST_TASKS, Some(params))
    }
}

impl Wire for JsonRpcRequest {
    open spec fn encode(v: JsonRpcRequestView) -> JsonValue {
        let m = Seq::empty();
        let m = m.push(("jsonrpc"@, JsonValue::String(v.jsonrpc)));
        let m = m.push(("method"@, JsonValue::String(v.method)));
        let m = with_opt_value::<Json>(m, "params"@, v.params);
        JsonValue::Object(with_value::<RequestId>(m, "id"@, v.id))
    }

    open spec fn decode(j: JsonValue) -> Option<JsonRpcRequestView> {
        match j {
            JsonValue::Object(m) => match (
                read_text(m, "jsonrpc"@),
                read_text(m, "method"@),
                read_opt_value::<Json>(m, "params"@),
                read_value::<RequestId>(m, "id"@),
            ) {
                (Some(jsonrpc), Some(method), Some(params), Some(id)) => Some(
                    JsonRpcRequestView { jsonrpc, method, params, id },
                ),
                _ => None,
            },
            _ => None,
        }
    }

    open spec fn survives(v: JsonRpcRequestView) -> bool {
        v.params != Some(JsonValue::Null) && RequestId::survives(v.id)
    }

    fn to_json(&self) -> (j: Json) {
        let mut members: Vec<(String, Json)> = Vec::new();
        proof {
            assert(members_view(members@) =~= Seq::empty());
        }
        put_text(&mut members, "jsonrpc", self.jsonrpc.as_str());
        put_text(&mut members, "method", self.method.as_str());
        put_opt_value(&mut members, "params", &self.params);
        put_value(&mut members, "id", &self.id);
        proof {
            lemma_object_view(members);
        }
        Json::Object(members)
    }

    fn from_json(j: &Json) -> (r: Option<JsonRpcRequest>) {
        let members = j.as_object()?;
        let jsonrpc = get_text(members, "jsonrpc")?;
        let method = get_text(members, "method")?;
        let params = get_opt_value::<Json>(members, "params")?;
        let id = get_value::<RequestId>(members, "id")?;
        Some(JsonRpcRequest { jsonrpc, method, params, id })
    }

    proof fn lemma_round_trip(v: JsonRpcRequestView) {
        broadcast use group_lookup;

        reveal_strlit("jsonrpc");
        reveal_strlit("method");
        reveal_strlit("params");
        reveal_strlit("id");
        assert(key_mark("jsonrpc"@) == (7nat, 'j', 's'));
        assert(key_mark("method"@) == (6nat, 'm', 'e'));
        assert(key_mark("params"@) == (6nat, 'p', 'a'));
        assert(key_mark("id"@) == (2nat, 'i', 'd'));
        RequestId::lemma_round_trip(v.id);
        let m = Self::encode(v)->Object_0;
        assert(read_text(m, "jsonrpc"@) == Some(v.jsonrpc));
        assert(read_text(m, "method"@) == Some(v.method));
        assert(read_opt_value::<Json>(m, "params"@) == Some(v.params));
        assert(read_value::<RequestId>(m, "id"@) == Some(v.id));
    }
}

// ---------------------------------------------------------------------
// Responses
// ---------------------------------------------------------------------

/// A JSON-RPC response. It carries a result or an error, never both.
#[derive(Debug, Clone, PartialEq)]
pub struct JsonRpcResponse {
    /// The protocol version, `2.0`.
    pub jsonrpc: String,
    /// What the method returned.
    pub result: Option<Json>,
    /// Why the method failed.
    pub error: Option<JsonRpcError>,
    /// The identifier of the request that this answers.
    pub id: RequestId,
}

/// The model of a [`JsonRpcResponse`].
pub struct JsonRpcResponseView {
    pub jsonrpc: Seq<char>,
    pub result: Option<JsonValue>,
    pub error: Option<JsonRpcErrorView>,
    pub id: RequestIdView,
}

impl View for JsonRpcResponse {
    type V = JsonRpcResponseView;

    open spec fn view(&self) -> JsonRpcResponseView {
        JsonRpcResponseView {
            jsonrpc: self.jsonrpc@,
            result: opt_view(self.result),
            error: opt_view(self.error),
            id: self.id@,
        }
    }
}

impl JsonRpcResponseView {
    /// The response that carries a result.
    pub open spec fn success(id: RequestIdView, result: JsonValue) -> JsonRpcResponseView {
        JsonRpcResponseView { jsonrpc: "2.0"@, result: Some(result), error: None, id }
    }

    /// The response that carries an error.
    pub open spec fn failure(id: RequestIdView, error: JsonRpcErrorView) -> JsonRpcResponseView {
        JsonRpcResponseView { jsonrpc: "2.0"@, result: None, error: Some(error), id }
    }

    /// Whether the response carries a result or an error and not both.
    pub open spec fn exclusive(self) -> bool {
        self.result is Some != self.error is Some
    }

    /// What the response amounts to: its error where it has one, else its
    /// result, `null` standing in for a result that is missing.
    pub open spec fn outcome(self) -> Result<JsonValue, JsonRpcErrorView> {
        match self.error {
            Some(error) => Err(error),
            None => match self.result {
                Some(result) => Ok(result),
                None => Ok(JsonValue::Null),
            },
        }
    }
}

/// A response made to carry a result amounts to that result, and carries no
/// error.
pub proof fn lemma_success_outcome(id: RequestIdView, result: JsonValue)
    ensures
        JsonRpcResponseView::success(id, result).outcome() == Ok::<JsonValue, JsonRpcErrorView>(
            result,
        ),
        JsonRpcResponseView::success(id, result).exclusive(),
{
}

/// A response made to carry an error amounts to that error, and carries no
/// result.
pub proof fn lemma_failure_outcome(id: RequestIdView, error: JsonRpcErrorView)
    ensures
        JsonRpcResponseView::failure(id, error).outcome() == Err::<JsonValue, JsonRpcErrorView>(
            error,
        ),
        JsonRpcResponseView::failure(id, error).exclusive(),
{
}

/// The model of what a response amounts to.
pub open spec fn outcome_view(r: Result<Json, JsonRpcError>) -> Result<JsonValue, JsonRpcErrorView> {
    match r {
        Ok(j) => Ok(j@),
        Err(e) => Err(e@),
    }
}

impl JsonRpcResponse {
    /// The response that carries a result.
    pub fn success(id: RequestId, result: Json) -> (r: JsonRpcResponse)
        ensures
            r@ == JsonRpcResponseView::success(id@, result@),
    {
        JsonRpcResponse {
            jsonrpc: JSONRPC_VERSION.to_owned(),
            result: Some(result),
            error: None,
            id,
        }
    }

    /// The response that carries an error.
    pub fn error(id: RequestId, error: JsonRpcError) -> (r: JsonRpcResponse)
        ensures
            r@ == JsonRpcResponseView::failure(id@, error@),
    {
        JsonRpcResponse {
            jsonrpc: JSONRPC_VERSION.to_owned(),
            result: None,
            error: Some(error),
            id,
        }
    }

    /// Whether the response carries an error.
    pub fn is_error(&self) -> (r: bool)
        ensures
            r == self@.error is Some,
    {
        self.error.is_some()
    }

    /// What the response amounts to: its error where it has one, else its
    /// result.
    pub fn into_result(self) -> (r: Result<Json, JsonRpcError>)
        ensures
            outcome_view(r) == self@.outcome(),
    {
        match self.error {
            Some(error) => Err(error),
            None => match self.result {
                Some(result) => Ok(result),
                None => Ok(Json::Null),
            },
        }
    }
}

impl Wire for JsonRpcResponse {
    open spec fn encode(v: JsonRpcResponseView) -> JsonValue {
        let m = Seq::empty();
        let m = m.push(("jsonrpc"@, JsonValue::String(v.jsonrpc)));
        let m = with_opt_value::<Json>(m, "result"@, v.result);
        let m = with_opt_value::<JsonRpcError>(m, "error"@, v.error);
        JsonValue::Object(with_value::<RequestId>(m, "id"@, v.id))
    }

    open spec fn decode(j: JsonValue) -> Option<JsonRpcResponseView> {
        match j {
            JsonValue::Object(m) => match (
                read_text(m, "jsonrpc"@),
                read_opt_value::<Json>(m, "result"@),
                read_opt_value::<JsonRpcError>(m, "error"@),
                read_value::<RequestId>(m, "id"@),
            ) {
                (Some(jsonrpc), Some(result), Some(error), Some(id)) => Some(
                    JsonRpcResponseView { jsonrpc, result, error, id },
                ),
                _ => None,
            },
            _ => None,
        }
    }

    open spec fn survives(v: JsonRpcResponseView) -> bool {
        &&& v.result != Some(JsonValue::Null)
        &&& (v.error matches Some(e) ==> JsonRpcError::survives(e))
        &&& RequestId::survives(v.id)
    }

    fn to_json(&self) -> (j: Json) {
        let mut members: Vec<(String, Json)> = Vec::new();
        proof {
            assert(members_view(members@) =~= Seq::empty());
        }
        put_text(&mut members, "jsonrpc", self.jsonrpc.as_str());
        put_opt_value(&mut members, "result", &self.result);
        put_opt_value(&mut members, "error", &self.error);
        put_value(&mut members, "id", &self.id);
        proof {
            lemma_object_view(members);
        }
        Json::Object(members)
    }

    fn from_json(j: &Json) -> (r: Option<JsonRpcResponse>) {
        let members = j.as_object()?;
        let jsonrpc = get_text(members, "jsonrpc")?;
        let result = get_opt_value::<Json>(members, "result")?;
        let error = get_opt_value::<JsonRpcError>(members, "error")?;
        let id = get_value::<RequestId>(members, "id")?;
        Some(JsonRpcResponse { jsonrpc, result, error, id })
    }

    proof fn lemma_round_trip(v: JsonRpcResponseView) {
        broadcast use group_lookup;

        reveal_strlit("jsonrpc");
        reveal_strlit("result");
        reveal_strlit("error");
        reveal_strlit("id");
        assert(key_mark("jsonrpc"@) == (7nat, 'j', 's'));
        assert(key_mark("result"@) == (6nat, 'r', 'e'));
        assert(key_mark("error"@) == (5nat, 'e', 'r'));
        assert(key_mark("id"@) == (2nat, 'i', 'd'));
        RequestId::lemma_round_trip(v.id);
        if v.error is Some {
            JsonRpcError::lemma_round_trip(v.error.unwrap());
        }
        let m = Self::encode(v)->Object_0;
        assert(read_text(m, "jsonrpc"@) == Some(v.jsonrpc));
        assert(read_opt_value::<Json>(m, "result"@) == Some(v.result));
        assert(read_opt_value::<JsonRpcError>(m, "error"@) == Some(v.error));
        assert(read_value::<RequestId>(m, "id"@) == Some(v.id));
    }
}

} // verus!
