use agentoven::error::A2AError;
use agentoven::json::Json;
use agentoven::jsonrpc::{
    rand_id, request_id_from_nanos, task_params, JsonRpcError, JsonRpcRequest, JsonRpcResponse,
    RequestId, A2A_MEDIA_TYPE, JSONRPC_VERSION,
};
use agentoven::methods;
use agentoven::wire::Wire;

fn object(members: Vec<(&str, Json)>) -> Json {
    Json::Object(members.into_iter().map(|(k, v)| (k.to_string(), v)).collect())
}

#[test]
fn test_request_serialization() {
    let part = object(vec![("type", Json::string("text")), ("text", Json::string("Hello"))]);
    let message = object(vec![("role", Json::string("user")), ("parts", Json::Array(vec![part]))]);
    let req = JsonRpcRequest::send_message(object(vec![("message", message)]));

    let json = req.to_json().to_text().unwrap();
    assert!(json.contains("message/send"));
    assert!(json.contains("2.0"));

    let parsed = JsonRpcRequest::from_json(&Json::parse(&json).unwrap()).unwrap();
    assert_eq!(parsed.method, "message/send");
}

#[test]
fn test_response_success() {
    let resp = JsonRpcResponse::success(RequestId::Number(1), object(vec![("taskId", Json::string("abc123"))]));
    assert!(!resp.is_error());
    assert!(resp.into_result().is_ok());
}

#[test]
fn test_response_error() {
    let resp = JsonRpcResponse::error(RequestId::Number(1), JsonRpcError::task_not_found("abc123"));
    assert!(resp.is_error());
    assert!(resp.into_result().is_err());
}

#[test]
fn success_yields_its_result_and_error_its_error() {
    let value = object(vec![("k", Json::from_i64(1))]);
    let success = JsonRpcResponse::success(RequestId::String("r".into()), value.clone());
    assert_eq!(success.jsonrpc, "2.0");
    assert!(success.result.is_some() && success.error.is_none());
    assert_eq!(success.into_result(), Ok(value));

    let error = JsonRpcError::invalid_params("bad");
    let failure = JsonRpcResponse::error(RequestId::Number(7), error.clone());
    assert!(failure.result.is_none() && failure.error.is_some());
    assert_eq!(failure.into_result(), Err(error));
}

#[test]
fn into_result_prefers_the_error_and_fills_in_null() {
    let error = JsonRpcError::internal_error("x");
    let both = JsonRpcResponse {
        jsonrpc: "2.0".into(),
        result: Some(Json::Bool(true)),
        error: Some(error.clone()),
        id: RequestId::Number(1),
    };
    assert_eq!(both.into_result(), Err(error));
    let neither = JsonRpcResponse { jsonrpc: "2.0".into(), result: None, error: None, id: RequestId::Number(1) };
    assert!(!neither.is_error());
    assert_eq!(neither.into_result(), Ok(Json::Null));
}

#[test]
fn error_constructors_use_the_reserved_codes() {
    let cases = vec![
        (JsonRpcError::parse_error("d"), -32700, "Parse error", "d"),
        (JsonRpcError::invalid_request("d"), -32600, "Invalid Request", "d"),
        (JsonRpcError::method_not_found("tasks/fly"), -32601, "Method not found", "Unknown method: tasks/fly"),
        (JsonRpcError::invalid_params("d"), -32602, "Invalid params", "d"),
        (JsonRpcError::internal_error("d"), -32603, "Internal error", "d"),
        (JsonRpcError::task_not_found("abc123"), -32001, "Task not found", "Task abc123 not found"),
        (
            JsonRpcError::task_not_cancelable("abc123"),
            -32002,
            "Task not cancelable",
            "Task abc123 is in a terminal state",
        ),
    ];
    for (error, code, message, detail) in cases {
        assert_eq!(error.code, code);
        assert_eq!(error.message, message);
        assert_eq!(error.data, Some(Json::string(detail)));
    }
}

#[test]
fn error_in_words_and_as_a2a_error() {
    let error = JsonRpcError::task_not_found("abc123");
    assert_eq!(error.to_text(), "JSON-RPC error -32001: Task not found");
    assert_eq!(
        error.clone().into_a2a(),
        A2AError::JsonRpc {
            code: -32001,
            message: "Task not found".into(),
            data: Some(Json::string("Task abc123 not found")),
        }
    );
    let plain = JsonRpcError { code: 5, message: "m".into(), data: None };
    assert_eq!(plain.to_text(), "JSON-RPC error 5: m");
}

#[test]
fn request_constructors_name_the_methods() {
    let params = object(vec![("x", Json::from_i64(1))]);
    let cases = vec![
        (JsonRpcRequest::send_message(params.clone()), "message/send", Some(params.clone())),
        (JsonRpcRequest::send_streaming_message(params.clone()), "message/stream", Some(params.clone())),
        (JsonRpcRequest::get_task("t-1"), "tasks/get", Some(object(vec![("taskId", Json::string("t-1"))]))),
        (JsonRpcRequest::cancel_task("t-1"), "tasks/cancel", Some(object(vec![("taskId", Json::string("t-1"))]))),
        (JsonRpcRequest::list_tasks(params.clone()), "tasks/list", Some(params.clone())),
        (JsonRpcRequest::new("agent/authenticatedExtendedCard", None), "agent/authenticatedExtendedCard", None),
    ];
    for (request, method, params) in cases {
        assert_eq!(request.jsonrpc, "2.0");
        assert_eq!(request.method, method);
        assert_eq!(request.params, params);
        match request.id {
            RequestId::Number(n) => assert!(0 <= n && n < i64::MAX),
            RequestId::String(_) => panic!("a request has a numeric id"),
        }
    }
    assert_eq!(task_params("t").to_text().unwrap(), r#"{"taskId":"t"}"#);
    assert_eq!(
        JsonRpcRequest::with_id("m", None, 42),
        JsonRpcRequest { jsonrpc: "2.0".into(), method: "m".into(), params: None, id: RequestId::Number(42) }
    );
}

#[test]
fn method_names_and_constants() {
    assert_eq!(methods::SEND_MESSAGE, "message/send");
    assert_eq!(methods::SEND_STREAMING_MESSAGE, "message/stream");
    assert_eq!(methods::GET_TASK, "tasks/get");
    assert_eq!(methods::LIST_TASKS, "tasks/list");
    assert_eq!(methods::CANCEL_TASK, "tasks/cancel");
    assert_eq!(methods::SUBSCRIBE_TASK, "tasks/subscribe");
    assert_eq!(methods::CREATE_PUSH_NOTIFICATION, "tasks/pushNotification/create");
    assert_eq!(methods::GET_PUSH_NOTIFICATION, "tasks/pushNotification/get");
    assert_eq!(methods::LIST_PUSH_NOTIFICATIONS, "tasks/pushNotification/list");
    assert_eq!(methods::DELETE_PUSH_NOTIFICATION, "tasks/pushNotification/delete");
    assert_eq!(methods::GET_EXTENDED_AGENT_CARD, "agent/authenticatedExtendedCard");
    assert_eq!(JSONRPC_VERSION, "2.0");
    assert_eq!(A2A_MEDIA_TYPE, "application/a2a+json");
}

#[test]
fn request_ids_come_from_the_clock() {
    assert_eq!(request_id_from_nanos(None), 1);
    assert_eq!(request_id_from_nanos(Some(0)), 0);
    assert_eq!(request_id_from_nanos(Some(12345)), 12345);
    assert_eq!(request_id_from_nanos(Some(i64::MAX as u128)), 0);
    assert_eq!(request_id_from_nanos(Some(i64::MAX as u128 + 5)), 5);
    assert_eq!(request_id_from_nanos(Some(u128::MAX)), (u128::MAX % (i64::MAX as u128)) as i64);
    let id = rand_id();
    assert!(id > 1_600_000_000_000_000_000 && id < i64::MAX);
}

#[test]
fn envelopes_round_trip() {
    let request = JsonRpcRequest {
        jsonrpc: "2.0".into(),
        method: "tasks/get".into(),
        params: Some(task_params("t")),
        id: RequestId::String("req-1".into()),
    };
    let text = request.to_json().to_text().unwrap();
    assert_eq!(text, r#"{"id":"req-1","jsonrpc":"2.0","method":"tasks/get","params":{"taskId":"t"}}"#);
    assert_eq!(JsonRpcRequest::from_json(&Json::parse(&text).unwrap()).unwrap(), request);

    for response in [
        JsonRpcResponse::success(RequestId::Number(-4), Json::string("ok")),
        JsonRpcResponse::error(RequestId::Number(i64::MAX), JsonRpcError::task_not_cancelable("t")),
        JsonRpcResponse::error(RequestId::String("s".into()), JsonRpcError { code: 1, message: "m".into(), data: None }),
    ] {
        let text = response.to_json().to_text().unwrap();
        assert_eq!(JsonRpcResponse::from_json(&Json::parse(&text).unwrap()).unwrap(), response);
    }
}

#[test]
fn request_id_is_a_number_or_a_string() {
    assert_eq!(RequestId::from_json(&Json::from_i64(5)), Some(RequestId::Number(5)));
    assert_eq!(RequestId::from_json(&Json::string("5")), Some(RequestId::String("5".into())));
    assert_eq!(RequestId::from_json(&Json::Bool(true)), None);
    assert_eq!(RequestId::from_json(&Json::parse("1.5").unwrap()), None);
    assert_eq!(RequestId::from_json(&Json::from_u64(u64::MAX)), None);
    assert_eq!(RequestId::Number(5).to_json(), Json::from_i64(5));
}

#[test]
fn envelope_with_a_flaw_is_not_read() {
    for text in [
        r#"{"jsonrpc": "2.0", "id": 1}"#,
        r#"{"method": "m", "id": 1}"#,
        r#"{"jsonrpc": "2.0", "method": "m"}"#,
        r#"{"jsonrpc": "2.0", "method": "m", "id": null}"#,
    ] {
        assert!(JsonRpcRequest::from_json(&Json::parse(text).unwrap()).is_none(), "{}", text);
    }
    for text in [
        r#"{"jsonrpc": "2.0", "result": 1}"#,
        r#"{"jsonrpc": "2.0", "error": {"code": "x", "message": "m"}, "id": 1}"#,
        r#"{"jsonrpc": "2.0", "error": {"code": 1}, "id": 1}"#,
    ] {
        assert!(JsonRpcResponse::from_json(&Json::parse(text).unwrap()).is_none(), "{}", text);
    }
}
