use agentoven::artifact::Artifact;
use agentoven::json::Json;
use agentoven::message::Message;
use agentoven::task::{InvalidTransition, Task, TaskEvent, TaskQueryParams, TaskState};
use agentoven::time::Timestamp;
use agentoven::wire::Wire;

const ALL: [TaskState; 8] = [
    TaskState::Submitted,
    TaskState::Working,
    TaskState::Completed,
    TaskState::Failed,
    TaskState::Canceled,
    TaskState::Rejected,
    TaskState::InputRequired,
    TaskState::AuthRequired,
];

fn ts(secs: i64, nanos: u32) -> Timestamp {
    Timestamp::new(secs, nanos).unwrap()
}

#[test]
fn test_task_lifecycle() {
    let mut task = Task::new();
    assert_eq!(task.state, TaskState::Submitted);
    assert!(!task.is_terminal());

    task.transition(TaskState::Working).unwrap();
    assert_eq!(task.state, TaskState::Working);

    task.transition(TaskState::InputRequired).unwrap();
    assert!(task.is_interrupted());

    task.transition(TaskState::Working).unwrap();
    task.transition(TaskState::Completed).unwrap();
    assert!(task.is_terminal());

    // Cannot transition from terminal state
    assert!(task.transition(TaskState::Working).is_err());
}

#[test]
fn test_task_serialization() {
    let task = Task::new();
    let json = task.to_json().to_text().unwrap();
    assert!(json.contains("SUBMITTED"));

    let parsed = Task::from_json(&Json::parse(&json).unwrap()).unwrap();
    assert_eq!(parsed.state, TaskState::Submitted);
}

#[test]
fn every_live_state_moves_to_every_state() {
    for from in ALL {
        if from.is_terminal() {
            continue;
        }
        for to in ALL {
            let mut task = Task::started("t".into(), ts(100, 0), ts(100, 0));
            task.state = from;
            let before = task.updated_at.unwrap();
            let now = ts(100, 1);
            assert_eq!(task.transition_at(to, now), Ok(()));
            assert_eq!(task.state, to);
            assert_eq!(task.updated_at, Some(now));
            assert!(before.is_before(&task.updated_at.unwrap()));
            assert_eq!(task.created_at, Some(ts(100, 0)));
        }
    }
}

#[test]
fn no_terminal_state_moves() {
    for from in [TaskState::Completed, TaskState::Failed, TaskState::Canceled, TaskState::Rejected] {
        for to in ALL {
            let mut task = Task::started("t".into(), ts(1, 0), ts(2, 0));
            task.state = from;
            let before = task.clone();
            assert_eq!(task.transition_at(to, ts(3, 0)), Err(InvalidTransition { from, to }));
            assert_eq!(task, before);
            assert_eq!(task.transition(to), Err(InvalidTransition { from, to }));
            assert_eq!(task, before);
        }
    }
}

#[test]
fn transition_takes_the_time_from_the_clock() {
    let mut task = Task::started("t".into(), ts(0, 0), ts(0, 0));
    task.transition(TaskState::Working).unwrap();
    let updated = task.updated_at.unwrap();
    assert!(ts(0, 0).is_before(&updated));
    assert!(updated.secs() > 1_600_000_000);
}

#[test]
fn terminal_and_interrupted_states() {
    let terminal: Vec<bool> = ALL.iter().map(|s| s.is_terminal()).collect();
    assert_eq!(terminal, vec![false, false, true, true, true, true, false, false]);
    let interrupted: Vec<bool> = ALL.iter().map(|s| s.is_interrupted()).collect();
    assert_eq!(interrupted, vec![false, false, false, false, false, false, true, true]);
}

#[test]
fn state_names() {
    let names: Vec<String> = ALL.iter().map(|s| s.to_text()).collect();
    assert_eq!(
        names,
        vec![
            "SUBMITTED", "WORKING", "COMPLETED", "FAILED", "CANCELED", "REJECTED", "INPUT_REQUIRED",
            "AUTH_REQUIRED"
        ]
    );
    for state in ALL {
        assert_eq!(TaskState::from_name(state.as_str()), Some(state));
        assert_eq!(TaskState::from_json(&state.to_json()), Some(state));
    }
    assert_eq!(TaskState::from_name("submitted"), None);
    assert_eq!(TaskState::from_name(""), None);
}

#[test]
fn invalid_transition_in_words() {
    let refusal = InvalidTransition { from: TaskState::Completed, to: TaskState::Working };
    assert_eq!(refusal.to_text(), "invalid task transition from COMPLETED to WORKING");
    let refusal = InvalidTransition { from: TaskState::Rejected, to: TaskState::InputRequired };
    assert_eq!(refusal.to_text(), "invalid task transition from REJECTED to INPUT_REQUIRED");
}

#[test]
fn new_task_is_submitted_and_empty() {
    let task = Task::new();
    assert_eq!(task.id.len(), 36);
    assert_eq!(task.context_id, None);
    assert!(task.messages.is_empty());
    assert!(task.artifacts.is_empty());
    assert_eq!(task.metadata, None);
    assert!(task.created_at.is_some());
    assert!(task.updated_at.is_some());
    let in_context = Task::with_context("session-1");
    assert_eq!(in_context.context_id.as_deref(), Some("session-1"));
    assert_eq!(in_context.state, TaskState::Submitted);
    assert_eq!(Task::default().state, TaskState::Submitted);
}

#[test]
fn adding_appends_and_sets_the_time() {
    let mut task = Task::started("t".into(), ts(10, 0), ts(10, 0));
    let first = Message::user_text("one");
    let second = Message::agent_text("two");
    task.add_message_at(first.clone(), ts(11, 0));
    assert_eq!(task.updated_at, Some(ts(11, 0)));
    task.add_message_at(second.clone(), ts(12, 5));
    assert_eq!(task.messages, vec![first, second]);
    assert_eq!(task.updated_at, Some(ts(12, 5)));
    let artifact = Artifact::text("a", "b");
    task.add_artifact_at(artifact.clone(), ts(13, 0));
    assert_eq!(task.artifacts, vec![artifact]);
    assert_eq!(task.updated_at, Some(ts(13, 0)));
    assert_eq!(task.created_at, Some(ts(10, 0)));
    assert_eq!(task.state, TaskState::Submitted);

    // a finished task still takes messages and artifacts
    task.state = TaskState::Completed;
    task.add_message(Message::user_text("late"));
    task.add_artifact(Artifact::text("late", "x"));
    assert_eq!(task.messages.len(), 3);
    assert_eq!(task.artifacts.len(), 2);
    assert!(ts(13, 0).is_before(&task.updated_at.unwrap()));
}

#[test]
fn task_round_trip_gives_an_equal_task() {
    let mut full = Task::started("task-1".into(), ts(1_700_000_000, 0), ts(1_700_000_001, 250_000_000));
    full.context_id = Some("ctx".into());
    full.state = TaskState::InputRequired;
    full.messages.push(Message::user_text("hello"));
    full.messages.push(Message::agent_text("more?"));
    full.artifacts.push(Artifact::text("out", "text"));
    full.metadata = Some(Json::Array(vec![Json::from_i64(1)]));
    let empty = Task {
        id: "task-2".into(),
        context_id: None,
        state: TaskState::Working,
        messages: vec![],
        artifacts: vec![],
        metadata: None,
        created_at: None,
        updated_at: None,
    };
    for task in [full, empty, Task::new()] {
        let text = task.to_json().to_text().unwrap();
        assert_eq!(Task::from_json(&Json::parse(&text).unwrap()).unwrap(), task);
    }
}

#[test]
fn task_wire_form() {
    let mut task = Task::started("task-1".into(), ts(0, 0), ts(1, 500_000_000));
    task.context_id = Some("c".into());
    assert_eq!(
        task.to_json().to_text().unwrap(),
        r#"{"contextId":"c","createdAt":"1970-01-01T00:00:00Z","id":"task-1","state":"SUBMITTED","updatedAt":"1970-01-01T00:00:01.500Z"}"#
    );
    let j = Json::parse(r#"{"id": "x", "state": "WORKING", "messages": [], "createdAt": "2024-05-06T07:08:09+02:00"}"#)
        .unwrap();
    let read = Task::from_json(&j).unwrap();
    assert_eq!(read.state, TaskState::Working);
    assert_eq!(read.created_at, Some(ts(1_714_972_089, 0)));
    assert_eq!(read.updated_at, None);
}

#[test]
fn task_with_a_flaw_is_not_read() {
    for text in [
        r#"{"state": "WORKING"}"#,
        r#"{"id": "x"}"#,
        r#"{"id": "x", "state": "DONE"}"#,
        r#"{"id": "x", "state": "WORKING", "messages": "none"}"#,
        r#"{"id": "x", "state": "WORKING", "createdAt": "yesterday"}"#,
        r#"{"id": "x", "state": "WORKING", "artifacts": [{"id": "a"}]}"#,
    ] {
        assert!(Task::from_json(&Json::parse(text).unwrap()).is_none(), "{}", text);
    }
}

#[test]
fn timestamps_have_rfc3339_text() {
    assert_eq!(ts(0, 0).to_text(), "1970-01-01T00:00:00Z");
    assert_eq!(ts(1_700_000_000, 123_000_000).to_text(), "2023-11-14T22:13:20.123Z");
    assert_eq!(ts(-1, 999_999_999).to_text(), "1969-12-31T23:59:59.999999999Z");
    assert_eq!(Timestamp::parse("1970-01-01T00:00:00Z"), Some(ts(0, 0)));
    assert_eq!(Timestamp::parse("2023-11-14T23:13:20.5+01:00"), Some(ts(1_700_000_000, 500_000_000)));
    assert_eq!(Timestamp::parse("not a time"), None);
    assert_eq!(Timestamp::parse(""), None);
    assert_eq!(Timestamp::new(i64::MAX, 0), None);
    assert_eq!(Timestamp::new(0, 2_000_000_000), None);
    assert_eq!(ts(5, 6).secs(), 5);
    assert_eq!(ts(5, 6).nanos(), 6);
    assert!(ts(0, 0).survives_text());
    assert!(ts(1_700_000_000, 1).survives_text());
    assert!(Timestamp::now().unwrap().survives_text());
    assert_eq!(Timestamp::from_epoch_nanos(None), None);
    assert_eq!(Timestamp::from_epoch_nanos(Some(0)), Timestamp::new(0, 0));
    assert_eq!(Timestamp::from_epoch_nanos(Some(1_700_000_000_123_456_789)), Timestamp::new(1_700_000_000, 123_456_789));
    assert_eq!(Timestamp::from_epoch_nanos(Some(999_999_999)), Timestamp::new(0, 999_999_999));
    assert_eq!(Timestamp::from_epoch_nanos(Some(u128::MAX)), None);
    assert_eq!(Timestamp::from_epoch_nanos(Some(i64::MAX as u128 * 1_000_000_000)), None);
}

#[test]
fn times_far_from_now_are_read_back_from_their_text() {
    let far = ts(300_000_000_000, 0);
    assert_eq!(far.to_text(), "+11476-08-15T05:20:00Z");
    assert!(far.survives_text());
    let mut task = Task::started("t".into(), far, far);
    task.state = TaskState::Working;
    assert_eq!(Task::from_json(&task.to_json()), Some(task));
    assert!(ts(59, 1_500_000_000).survives_text());
    let long_ago = ts(-100_000_000_000, 0);
    assert!(long_ago.survives_text(), "{}", long_ago.to_text());
}

#[test]
fn timestamps_are_ordered_by_seconds_then_nanoseconds() {
    assert!(ts(1, 0).is_before(&ts(2, 0)));
    assert!(ts(1, 5).is_before(&ts(1, 6)));
    assert!(ts(1, 999_999_999).is_before(&ts(2, 0)));
    assert!(!ts(1, 5).is_before(&ts(1, 5)));
    assert!(!ts(2, 0).is_before(&ts(1, 999)));
    assert!(ts(-5, 0).is_before(&ts(0, 0)));
}

#[test]
fn query_params_round_trip() {
    assert_eq!(TaskQueryParams::default().to_json().to_text().unwrap(), "{}");
    let params = TaskQueryParams {
        context_id: Some("c".into()),
        state: Some(TaskState::Working),
        limit: Some(25),
        cursor: Some("next".into()),
    };
    let text = params.to_json().to_text().unwrap();
    assert_eq!(text, r#"{"contextId":"c","cursor":"next","limit":25,"state":"WORKING"}"#);
    assert_eq!(TaskQueryParams::from_json(&Json::parse(&text).unwrap()).unwrap(), params);
    assert!(TaskQueryParams::from_json(&Json::parse(r#"{"limit": -1}"#).unwrap()).is_none());
    assert!(TaskQueryParams::from_json(&Json::parse(r#"{"limit": 4294967296}"#).unwrap()).is_none());
    assert_eq!(
        TaskQueryParams::from_json(&Json::parse(r#"{"limit": 4294967295}"#).unwrap()).unwrap().limit,
        Some(u32::MAX)
    );
}

#[test]
fn events_round_trip() {
    let events = vec![
        TaskEvent::StateChanged { task_id: "t".into(), state: TaskState::Completed },
        TaskEvent::MessageAdded { task_id: "t".into(), message: Message::agent_text("hi") },
        TaskEvent::ArtifactAdded { task_id: "t".into(), artifact: Artifact::text("a", "b") },
        TaskEvent::ArtifactChunk { task_id: "t".into(), artifact_id: "a".into(), chunk: "piece".into() },
    ];
    for event in events {
        assert_eq!(event.task_id(), "t");
        let text = event.to_json().to_text().unwrap();
        assert_eq!(TaskEvent::from_json(&Json::parse(&text).unwrap()).unwrap(), event);
    }
    let state = TaskEvent::StateChanged { task_id: "t".into(), state: TaskState::Working };
    assert_eq!(state.to_json().to_text().unwrap(), r#"{"state":"WORKING","task_id":"t","type":"stateChanged"}"#);
    assert!(TaskEvent::from_json(&Json::parse(r#"{"type": "state_changed", "task_id": "t", "state": "WORKING"}"#).unwrap()).is_none());
    assert!(TaskEvent::from_json(&Json::parse(r#"{"type": "stateChanged", "state": "WORKING"}"#).unwrap()).is_none());
}

#[test]
fn task_metadata_with_keys_out_of_order_comes_back_equal() {
    let mut task = Task::started("t".into(), ts(1, 0), ts(2, 0));
    task.metadata = Some(Json::Object(vec![
        ("b".to_string(), Json::from_i64(1)),
        ("a".to_string(), Json::from_i64(2)),
    ]));
    let text = task.to_json().to_text().unwrap();
    assert_eq!(Task::from_json(&Json::parse(&text).unwrap()).unwrap(), task);
}

#[test]
fn a_new_task_has_the_times_that_the_clock_reads() {
    let task = Task::default();
    assert_eq!(task.id.len(), 36);
    assert_eq!(task.state, TaskState::Submitted);
    assert!(task.created_at.is_some());
    assert!(task.updated_at.is_some());
    assert!(task.messages.is_empty() && task.artifacts.is_empty());
    assert_eq!(task.context_id, None);
    assert_eq!(task.metadata, None);
}
