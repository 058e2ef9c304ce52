use agentoven::artifact::Artifact;
use agentoven::client::{
    config_params, open_stream, read_done, read_extended_agent_card, read_list_reply,
    read_push_notification, read_push_notifications, read_result, read_task, read_tasks,
    read_value_reply, stream_read_failed, A2AClient, SendMessageRequest, EVENT_STREAM,
};
use agentoven::error::A2AError;
use agentoven::http::{HttpMethod, HttpReply, HttpRequest};
use agentoven::json::Json;
use agentoven::jsonrpc::{JsonRpcError, JsonRpcRequest, JsonRpcResponse, RequestId};
use agentoven::message::{Message, MessagePart, MessageRole};
use agentoven::notification::{PushNotificationAuth, PushNotificationConfig, PushNotificationEvent};
use agentoven::task::{Task, TaskEvent, TaskQueryParams, TaskState};
use agentoven::url::WebUrl;
use agentoven::wire::Wire;

fn client() -> A2AClient {
    A2AClient::connect("https://agent.example.com/a2a").unwrap()
}

fn ok(body: &str) -> HttpReply {
    HttpReply { status: 200, status_text: "200 OK".into(), body: body.into() }
}

fn answer(result: Json) -> HttpReply {
    ok(&JsonRpcResponse::success(RequestId::Number(1), result).to_json().to_text().unwrap())
}

fn rpc_of(request: &HttpRequest) -> JsonRpcRequest {
    JsonRpcRequest::from_json(&Json::parse(request.body.as_ref().unwrap()).unwrap()).unwrap()
}

fn header<'a>(request: &'a HttpRequest, name: &str) -> Option<&'a str> {
    request.headers.iter().find(|(n, _)| n == name).map(|(_, v)| v.as_str())
}

#[test]
fn test_send_message_request_serialization() {
    let req = SendMessageRequest {
        message: Message::user_text("Hello"),
        task_id: None,
        context_id: Some("session-1".into()),
        metadata: None,
    };

    let json = req.to_json().to_pretty_text().unwrap();
    assert!(json.contains("session-1"));
    assert!(json.contains("Hello"));
}

#[test]
fn client_test_send_message_request_serialization() {
    let req = SendMessageRequest {
        message: Message::user_text("Hello"),
        task_id: None,
        context_id: Some("session-1".into()),
        metadata: None,
    };

    let json = req.to_json().to_text().unwrap();
    assert!(json.contains("session-1"));
    assert!(json.contains("Hello"));
    assert!(!json.contains("taskId"));
    assert_eq!(SendMessageRequest::from_json(&Json::parse(&json).unwrap()).unwrap(), req);
}

#[test]
fn end_to_end_send_then_get() {
    let client = client();

    // the client sends the text
    let request = client.send_message_request(&SendMessageRequest::text("Summarize Q4 report"), 11).unwrap();
    assert_eq!(request.method, HttpMethod::Post);
    assert_eq!(request.url, "https://agent.example.com/a2a");
    let rpc = rpc_of(&request);
    assert_eq!(rpc.method, "message/send");
    assert_eq!(rpc.id, RequestId::Number(11));
    let sent = SendMessageRequest::from_json(rpc.params.as_ref().unwrap()).unwrap();
    assert_eq!(sent.message.role, MessageRole::User);
    assert_eq!(sent.message.text_content(), "Summarize Q4 report");
    assert_eq!(sent.task_id, None);

    // the server answers with a task that is at work
    let reply = ok(r#"{"jsonrpc": "2.0", "id": 11, "result": {"id": "task-42", "state": "WORKING"}}"#);
    let task = read_task(&reply).unwrap();
    assert_eq!(task.id, "task-42");
    assert_eq!(task.state, TaskState::Working);
    assert!(!task.is_terminal());

    // the client asks for the task
    let request = client.get_task_request(&task.id, 12).unwrap();
    let rpc = rpc_of(&request);
    assert_eq!(rpc.method, "tasks/get");
    assert_eq!(rpc.params.unwrap().to_text().unwrap(), r#"{"taskId":"task-42"}"#);

    // the server answers with the finished task
    let reply = ok(
        r#"{"jsonrpc": "2.0", "id": 12, "result": {"id": "task-42", "state": "COMPLETED",
            "artifacts": [{"id": "a-1", "name": "summary", "parts": [{"type": "text", "text": "Revenue grew 12%."}]}]}}"#,
    );
    let task = read_task(&reply).unwrap();
    assert!(task.is_terminal());
    assert_eq!(task.artifacts[0].text_content(), "Revenue grew 12%.");
}

#[test]
fn requests_carry_the_headers() {
    let request = client().get_task_request("t", 1).unwrap();
    assert_eq!(
        request.headers,
        vec![
            ("Content-Type".to_string(), "application/a2a+json".to_string()),
            ("Accept".to_string(), "application/a2a+json".to_string()),
        ]
    );
    let request = client().with_auth("secret").get_task_request("t", 1).unwrap();
    assert_eq!(
        request.headers,
        vec![
            ("Content-Type".to_string(), "application/a2a+json".to_string()),
            ("Accept".to_string(), "application/a2a+json".to_string()),
            ("Authorization".to_string(), "Bearer secret".to_string()),
        ]
    );
    let request = client().with_auth("secret").subscribe_request("t", 1).unwrap();
    assert_eq!(header(&request, "Accept"), Some("text/event-stream"));
    assert_eq!(header(&request, "Authorization"), Some("Bearer secret"));
    assert_eq!(EVENT_STREAM, "text/event-stream");
}

#[test]
fn every_operation_names_its_method() {
    let c = client();
    let message = SendMessageRequest::continuing("t-1", "more");
    let config = PushNotificationConfig {
        id: "cfg".into(),
        task_id: "t-1".into(),
        url: WebUrl::parse("https://hooks.example.com/a2a").unwrap(),
        authentication: Some(PushNotificationAuth::Bearer { token: "tok".into() }),
        events: vec![],
    };
    let task = r#"{"taskId":"t-1"}"#;
    let pair = r#"{"configId":"cfg","taskId":"t-1"}"#;
    let cases: Vec<(HttpRequest, &str, Option<String>, &str)> = vec![
        (c.send_message_request(&message, 1).unwrap(), "message/send", Some(message.to_json().to_text().unwrap()), "application/a2a+json"),
        (c.get_task_request("t-1", 1).unwrap(), "tasks/get", Some(task.into()), "application/a2a+json"),
        (
            c.list_tasks_request(&TaskQueryParams { limit: Some(3), ..Default::default() }, 1).unwrap(),
            "tasks/list",
            Some(r#"{"limit":3}"#.into()),
            "application/a2a+json",
        ),
        (c.cancel_task_request("t-1", 1).unwrap(), "tasks/cancel", Some(task.into()), "application/a2a+json"),
        (c.send_streaming_request(&message, 1).unwrap(), "message/stream", Some(message.to_json().to_text().unwrap()), "text/event-stream"),
        (c.subscribe_request("t-1", 1).unwrap(), "tasks/subscribe", Some(task.into()), "text/event-stream"),
        (
            c.create_push_notification_request(&config, 1).unwrap(),
            "tasks/pushNotification/create",
            Some(config.to_json().to_text().unwrap()),
            "application/a2a+json",
        ),
        (c.get_push_notification_request("cfg", "t-1", 1).unwrap(), "tasks/pushNotification/get", Some(pair.into()), "application/a2a+json"),
        (c.list_push_notifications_request("t-1", 1).unwrap(), "tasks/pushNotification/list", Some(task.into()), "application/a2a+json"),
        (c.delete_push_notification_request("cfg", "t-1", 1).unwrap(), "tasks/pushNotification/delete", Some(pair.into()), "application/a2a+json"),
        (c.extended_agent_card_request(1).unwrap(), "agent/authenticatedExtendedCard", None, "application/a2a+json"),
    ];
    for (request, method, params, accept) in cases {
        assert_eq!(request.method, HttpMethod::Post);
        assert_eq!(request.url, "https://agent.example.com/a2a");
        assert_eq!(header(&request, "Accept"), Some(accept));
        let rpc = rpc_of(&request);
        assert_eq!(rpc.jsonrpc, "2.0");
        assert_eq!(rpc.method, method);
        assert_eq!(rpc.params.map(|p| p.to_text().unwrap()), params);
    }
    assert_eq!(config_params("c", "t").to_text().unwrap(), r#"{"configId":"c","taskId":"t"}"#);
}

#[test]
fn text_requests_start_or_continue_a_task() {
    let start = SendMessageRequest::text("hi");
    assert_eq!(start.task_id, None);
    assert_eq!(start.context_id, None);
    assert_eq!(start.metadata, None);
    assert_eq!(start.message.parts, vec![MessagePart::text("hi")]);
    let go_on = SendMessageRequest::continuing("task-7", "more");
    assert_eq!(go_on.task_id.as_deref(), Some("task-7"));
    assert_eq!(go_on.message.text_content(), "more");
    let empty = SendMessageRequest::default();
    assert_eq!(empty.message.role, MessageRole::User);
    assert!(empty.message.parts.is_empty());
    assert_eq!(empty.task_id, None);
}

#[test]
fn connect_wants_a_url() {
    assert!(matches!(A2AClient::connect("not a url"), Err(A2AError::InvalidUrl(_))));
    assert!(matches!(A2AClient::connect(""), Err(A2AError::InvalidUrl(_))));
    let c = A2AClient::connect("https://Agent.example.com").unwrap();
    assert_eq!(c.base_url(), "https://agent.example.com/");
    assert!(c.agent_card().is_none());
    assert_eq!(A2AClient::new("https://agent.example.com/a2a"), client());
}

#[test]
fn discovery_keeps_the_card() {
    let mut c = client();
    let request = c.discover_request();
    assert_eq!(request.method, HttpMethod::Get);
    assert_eq!(request.url, "https://agent.example.com/a2a/.well-known/agent-card.json");
    let card = r#"{"name": "n", "description": "d", "supportedInterfaces": [{"url": "https://e.com/a", "protocolBinding": "grpc"}], "capabilities": {"streaming": true}}"#;
    let before = c.clone();
    assert_eq!(
        c.accept_discovery(&HttpReply { status: 503, status_text: "503 Service Unavailable".into(), body: card.into() }),
        Err(A2AError::DiscoveryFailed("Agent card endpoint returned 503 Service Unavailable".into()))
    );
    assert_eq!(c, before);
    assert_eq!(
        c.accept_discovery(&ok(r#"{"name": "", "description": "d", "supportedInterfaces": []}"#)),
        Err(A2AError::InvalidAgentCard("name is required".into()))
    );
    assert!(c.agent_card().is_none());
    assert_eq!(c.accept_discovery(&ok(card)), Ok(()));
    let kept = c.agent_card().unwrap();
    assert_eq!(kept.name, "n");
    assert!(kept.supports_streaming());
    assert_eq!(c.base_url(), "https://agent.example.com/a2a");
}

#[test]
fn failures_are_told_apart() {
    let body = answer(Json::Null).body;
    // the network layer failed: no success status
    assert_eq!(
        read_result(&HttpReply { status: 500, status_text: "500 Internal Server Error".into(), body: body.clone() }),
        Err(A2AError::Transport("HTTP status 500 Internal Server Error".into()))
    );
    // the remote agent refused: a JSON-RPC error, kept with code, message and data
    let refused = ok(&JsonRpcResponse::error(RequestId::Number(1), JsonRpcError::task_not_found("t"))
        .to_json()
        .to_text()
        .unwrap());
    assert_eq!(
        read_task(&refused),
        Err(A2AError::JsonRpc {
            code: -32001,
            message: "Task not found".into(),
            data: Some(Json::string("Task t not found")),
        })
    );
    // the body is not what was expected
    match read_result(&ok("<html>")) {
        Err(A2AError::Serialization(message)) => {
            assert!(message.starts_with("invalid JSON-RPC response: "), "{}", message)
        },
        other => panic!("{:?}", other),
    }
    assert_eq!(
        read_result(&ok(r#"{"result": 1}"#)),
        Err(A2AError::Serialization("invalid JSON-RPC response: not a response envelope".into()))
    );
    assert_eq!(
        read_task(&answer(Json::string("no task"))),
        Err(A2AError::Serialization("unexpected shape of the result".into()))
    );
    assert_eq!(
        read_tasks(&answer(Json::empty_object())),
        Err(A2AError::Serialization("unexpected shape of the result".into()))
    );
    assert_eq!(
        read_tasks(&answer(Json::Array(vec![Json::from_i64(1)]))),
        Err(A2AError::Serialization("unexpected shape of the result".into()))
    );
}

#[test]
fn results_are_read_by_their_shape() {
    assert_eq!(read_result(&answer(Json::from_i64(5))), Ok(Json::from_i64(5)));
    assert_eq!(read_result(&ok(r#"{"jsonrpc": "2.0", "id": 1}"#)), Ok(Json::Null));
    let task = Task::started("t".into(), agentoven::time::Timestamp::new(1, 0).unwrap(), agentoven::time::Timestamp::new(2, 0).unwrap());
    assert_eq!(read_task(&answer(task.to_json())), Ok(task.clone()));
    assert_eq!(read_value_reply::<Task>(&answer(task.to_json())), Ok(task.clone()));
    assert_eq!(read_tasks(&answer(Json::Array(vec![task.to_json(), task.to_json()]))), Ok(vec![task.clone(), task.clone()]));
    assert_eq!(read_tasks(&answer(Json::Array(vec![]))), Ok(vec![]));
    assert_eq!(read_list_reply::<String>(&answer(Json::Array(vec![Json::string("a")]))), Ok(vec!["a".to_string()]));
    assert_eq!(read_done(&answer(Json::Null)), Ok(()));
    assert_eq!(
        read_done(&HttpReply { status: 401, status_text: "401 Unauthorized".into(), body: "".into() }),
        Err(A2AError::Transport("HTTP status 401 Unauthorized".into()))
    );
    let config = PushNotificationConfig {
        id: "cfg".into(),
        task_id: "t".into(),
        url: WebUrl::parse("https://hooks.example.com/x").unwrap(),
        authentication: Some(PushNotificationAuth::Header { name: "X-Key".into(), value: "v".into() }),
        events: vec!["stateChanged".into()],
    };
    assert_eq!(read_push_notification(&answer(config.to_json())), Ok(config.clone()));
    assert_eq!(read_push_notifications(&answer(Json::Array(vec![config.to_json()]))), Ok(vec![config]));
    let card = r#"{"name": "", "description": "", "supportedInterfaces": []}"#;
    let read = read_extended_agent_card(&answer(Json::parse(card).unwrap())).unwrap();
    assert_eq!(read.name, "");
}

#[test]
fn streams_open_on_success_only() {
    let decoder = open_stream(200, "200 OK").unwrap();
    assert!(!decoder.is_done());
    assert!(decoder.pending.is_empty());
    assert!(open_stream(204, "204 No Content").is_ok());
    assert_eq!(open_stream(404, "404 Not Found"), Err(A2AError::Transport("HTTP status 404 Not Found".into())));
    assert_eq!(open_stream(301, "301"), Err(A2AError::Transport("HTTP status 301".into())));
    assert_eq!(stream_read_failed("reset"), A2AError::StreamingError("Stream read error: reset".into()));
}

#[test]
fn a_stream_is_decoded_from_its_chunks() {
    let mut decoder = open_stream(200, "200 OK").unwrap();
    let a = TaskEvent::StateChanged { task_id: "t".into(), state: TaskState::Working };
    let b = TaskEvent::ArtifactAdded { task_id: "t".into(), artifact: Artifact::text("r", "Revenue grew 12%.") };
    let c = TaskEvent::StateChanged { task_id: "t".into(), state: TaskState::Completed };
    let text = format!(
        "data: {}\n\ndata: {}\n\ndata: {}\n\ndata: [DONE]\n\n",
        a.to_json().to_text().unwrap(),
        b.to_json().to_text().unwrap(),
        c.to_json().to_text().unwrap()
    );
    let mut events = vec![];
    for chunk in text.as_bytes().chunks(7) {
        events.extend(decoder.feed(chunk));
    }
    events.extend(decoder.finish());
    assert_eq!(events, vec![Ok(a), Ok(b), Ok(c)]);
}

#[test]
fn push_notification_wire_forms() {
    let bearer = PushNotificationAuth::Bearer { token: "t".into() };
    assert_eq!(bearer.to_json().to_text().unwrap(), r#"{"token":"t","type":"bearer"}"#);
    let header = PushNotificationAuth::Header { name: "n".into(), value: "v".into() };
    assert_eq!(header.to_json().to_text().unwrap(), r#"{"name":"n","type":"header","value":"v"}"#);
    for auth in [bearer, header] {
        assert_eq!(PushNotificationAuth::from_json(&auth.to_json()), Some(auth));
    }
    let config = PushNotificationConfig {
        id: "c".into(),
        task_id: "t".into(),
        url: WebUrl::parse("https://h.example.com/x").unwrap(),
        authentication: None,
        events: vec![],
    };
    assert_eq!(config.to_json().to_text().unwrap(), r#"{"id":"c","taskId":"t","url":"https://h.example.com/x"}"#);
    assert!(PushNotificationConfig::from_json(&Json::parse(r#"{"id":"c","taskId":"t","url":"nope"}"#).unwrap()).is_none());
    let event = PushNotificationEvent {
        config_id: "c".into(),
        event: TaskEvent::StateChanged { task_id: "t".into(), state: TaskState::Failed },
        timestamp: "2026-01-01T00:00:00Z".into(),
    };
    let text = event.to_json().to_text().unwrap();
    assert_eq!(PushNotificationEvent::from_json(&Json::parse(&text).unwrap()).unwrap(), event);
}
