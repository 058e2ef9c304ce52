use agentoven::error::A2AError;
use agentoven::json::Json;
use std::time::Duration;

#[test]
fn every_error_has_its_words() {
    let cases: Vec<(A2AError, &str)> = vec![
        (A2AError::DiscoveryFailed("x".into()), "agent discovery failed: x"),
        (A2AError::InvalidAgentCard("x".into()), "invalid agent card: x"),
        (A2AError::Transport("x".into()), "transport error: x"),
        (A2AError::Serialization("x".into()), "serialization error: x"),
        (
            A2AError::JsonRpc { code: -32001, message: "Task not found".into(), data: Some(Json::Null) },
            "JSON-RPC error -32001: Task not found",
        ),
        (A2AError::JsonRpc { code: 0, message: "".into(), data: None }, "JSON-RPC error 0: "),
        (A2AError::TaskNotFound("t".into()), "task not found: t"),
        (A2AError::TaskRejected("t".into()), "task rejected: t"),
        (A2AError::TaskFailed("t".into()), "task failed: t"),
        (A2AError::AuthRequired("t".into()), "authentication required: t"),
        (A2AError::StreamingError("s".into()), "streaming error: s"),
        (A2AError::PushNotificationError("p".into()), "push notification error: p"),
        (A2AError::InvalidUrl("u".into()), "invalid URL: u"),
        (A2AError::Timeout(Duration::from_millis(1500)), "timeout after 1.5s"),
        (A2AError::Timeout(Duration::from_secs(30)), "timeout after 30s"),
        (A2AError::Unsupported("o".into()), "unsupported operation: o"),
    ];
    for (error, words) in cases {
        assert_eq!(error.to_text(), words);
        assert_eq!(error.clone(), error);
    }
}
