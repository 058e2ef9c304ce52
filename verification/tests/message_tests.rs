use agentoven::artifact::Artifact;
use agentoven::json::Json;
use agentoven::message::{
    join_lines, parts_text, DataPart, FilePart, Message, MessagePart, MessageRole,
};
use agentoven::wire::Wire;

fn object(members: Vec<(&str, Json)>) -> Json {
    Json::Object(members.into_iter().map(|(k, v)| (k.to_string(), v)).collect())
}

fn file_part() -> MessagePart {
    MessagePart::file_url("https://example.com/doc.pdf", Some("doc.pdf".into()))
}

fn data_part() -> MessagePart {
    MessagePart::data(object(vec![("priority", Json::string("high"))]), Some("application/json".into()))
}

#[test]
fn test_message_creation() {
    let msg = Message::user_text("Hello, summarize this document");
    assert_eq!(msg.role, MessageRole::User);
    assert_eq!(msg.parts.len(), 1);
    assert_eq!(msg.text_content(), "Hello, summarize this document");
}

#[test]
fn test_message_serialization() {
    let msg = Message::user(vec![MessagePart::text("Check this file"), file_part(), data_part()]);

    let json = msg.to_json().to_pretty_text().unwrap();
    let parsed = Message::from_json(&Json::parse(&json).unwrap()).unwrap();
    assert_eq!(parsed.parts.len(), 3);
}

#[test]
fn message_round_trip_gives_an_equal_message() {
    let mut msg = Message::agent(vec![
        MessagePart::text("a"),
        MessagePart::text_with_type("# b", "text/markdown"),
        file_part(),
        MessagePart::file_inline("x.bin", "application/octet-stream", vec![0, 1, 2, 255]),
        data_part(),
    ]);
    msg.metadata = Some(object(vec![("k", Json::from_i64(1))]));
    let text = msg.to_json().to_text().unwrap();
    let back = Message::from_json(&Json::parse(&text).unwrap()).unwrap();
    assert_eq!(back, msg);

    let empty = Message::user(vec![]);
    let text = empty.to_json().to_text().unwrap();
    assert_eq!(Message::from_json(&Json::parse(&text).unwrap()).unwrap(), empty);
}

#[test]
fn null_metadata_is_read_back_as_none() {
    let mut msg = Message::user_text("x");
    msg.metadata = Some(Json::Null);
    let back = Message::from_json(&msg.to_json()).unwrap();
    assert_eq!(back.metadata, None);
}

#[test]
fn message_wire_form_keeps_the_tags() {
    let msg = Message::with_id("m-1".into(), MessageRole::User, vec![MessagePart::text("Hello"), file_part(), data_part()]);
    let text = msg.to_json().to_text().unwrap();
    assert_eq!(
        text,
        r#"{"id":"m-1","parts":[{"text":"Hello","type":"text"},{"file":{"name":"doc.pdf","url":"https://example.com/doc.pdf"},"type":"file"},{"data":{"mediaType":"application/json","value":{"priority":"high"}},"type":"data"}],"role":"user"}"#
    );
}

#[test]
fn message_is_read_from_its_wire_form() {
    let j = Json::parse(
        r#"{"id": "m-9", "role": "agent", "parts": [{"type": "text", "text": "Hi", "media_type": "text/plain"}], "metadata": null, "extra": 1}"#,
    )
    .unwrap();
    let msg = Message::from_json(&j).unwrap();
    assert_eq!(msg.id, "m-9");
    assert_eq!(msg.role, MessageRole::Agent);
    assert_eq!(msg.parts, vec![MessagePart::text_with_type("Hi", "text/plain")]);
    assert_eq!(msg.metadata, None);
}

#[test]
fn message_with_a_flaw_is_not_read() {
    for text in [
        r#"{"role": "user", "parts": []}"#,
        r#"{"id": "x", "role": "robot", "parts": []}"#,
        r#"{"id": "x", "role": "user"}"#,
        r#"{"id": "x", "role": "user", "parts": [{"type": "video"}]}"#,
        r#"{"id": "x", "role": "user", "parts": [{"text": "no tag"}]}"#,
        r#"{"id": 5, "role": "user", "parts": []}"#,
        r#"["id", "role"]"#,
        r#""text""#,
    ] {
        assert!(Message::from_json(&Json::parse(text).unwrap()).is_none(), "{}", text);
    }
}

#[test]
fn text_content_joins_text_parts_only() {
    let msg = Message::user(vec![MessagePart::text("a"), file_part(), MessagePart::text("b"), data_part()]);
    assert_eq!(msg.text_content(), "a\nb");
    let artifact = Artifact {
        id: "a-1".into(),
        name: None,
        description: None,
        parts: vec![MessagePart::text("a"), file_part(), MessagePart::text("b"), data_part()],
        metadata: None,
    };
    assert_eq!(artifact.text_content(), "a\nb");
}

#[test]
fn text_content_edge_cases() {
    assert_eq!(Message::user(vec![]).text_content(), "");
    assert_eq!(Message::user(vec![file_part(), data_part()]).text_content(), "");
    assert_eq!(Message::user(vec![MessagePart::text("only")]).text_content(), "only");
    assert_eq!(Message::user(vec![MessagePart::text(""), MessagePart::text("b")]).text_content(), "\nb");
    assert_eq!(
        parts_text(&vec![MessagePart::text("x"), MessagePart::text(""), MessagePart::text("z")]),
        "x\n\nz"
    );
    assert_eq!(join_lines(&vec!["a".to_string(), "b".to_string()]), "a\nb");
    assert_eq!(join_lines(&vec![]), "");
}

#[test]
fn constructors_fill_the_parts() {
    assert_eq!(MessagePart::text("t"), MessagePart::Text { text: "t".into(), media_type: None });
    assert_eq!(
        MessagePart::text_with_type("t", "text/html"),
        MessagePart::Text { text: "t".into(), media_type: Some("text/html".into()) }
    );
    assert_eq!(
        MessagePart::file_url("https://e.com/f", None),
        MessagePart::File {
            file: FilePart { name: None, media_type: None, data: None, url: Some("https://e.com/f".into()) }
        }
    );
    assert_eq!(
        MessagePart::data(Json::Null, None),
        MessagePart::Data { data: DataPart { value: Json::Null, media_type: None } }
    );
    let agent = Message::agent_text("done");
    assert_eq!(agent.role, MessageRole::Agent);
    assert_eq!(agent.text_content(), "done");
    assert_eq!(agent.metadata, None);
}

#[test]
fn file_inline_holds_standard_base64() {
    let part = MessagePart::file_inline("hello.txt", "text/plain", b"hello".to_vec());
    assert_eq!(
        part,
        MessagePart::File {
            file: FilePart {
                name: Some("hello.txt".into()),
                media_type: Some("text/plain".into()),
                data: Some("aGVsbG8=".into()),
                url: None,
            }
        }
    );
    match MessagePart::file_inline("e", "x/y", vec![]) {
        MessagePart::File { file } => assert_eq!(file.data.as_deref(), Some("")),
        other => panic!("no file part: {:?}", other),
    }
    match MessagePart::file_inline("e", "x/y", vec![0xfb, 0xff]) {
        MessagePart::File { file } => assert_eq!(file.data.as_deref(), Some("+/8=")),
        other => panic!("no file part: {:?}", other),
    }
}

#[test]
fn fresh_identifiers_are_uuids_and_differ() {
    let a = Message::user_text("x");
    let b = Message::user_text("x");
    assert_eq!(a.id.len(), 36);
    assert_eq!(a.id.matches('-').count(), 4);
    assert_ne!(a.id, b.id);
}

#[test]
fn artifact_constructors_and_round_trip() {
    let text = Artifact::text("summary", "Revenue grew 12%.");
    assert_eq!(text.name.as_deref(), Some("summary"));
    assert_eq!(text.description, None);
    assert_eq!(text.text_content(), "Revenue grew 12%.");
    assert_eq!(text.id.len(), 36);

    let data = Artifact::data("numbers", Json::from_i64(12));
    assert_eq!(
        data.parts,
        vec![MessagePart::Data {
            data: DataPart { value: Json::from_i64(12), media_type: Some("application/json".into()) }
        }]
    );
    assert_eq!(data.text_content(), "");

    let mut full = Artifact::text("n", "c");
    full.description = Some("d".into());
    full.metadata = Some(Json::string("m"));
    for artifact in [text, data, full] {
        let wire = artifact.to_json().to_text().unwrap();
        assert_eq!(Artifact::from_json(&Json::parse(&wire).unwrap()).unwrap(), artifact);
    }
}

#[test]
fn role_names_on_the_wire() {
    assert_eq!(MessageRole::User.to_json(), Json::string("user"));
    assert_eq!(MessageRole::Agent.to_json(), Json::string("agent"));
    assert_eq!(MessageRole::from_json(&Json::string("agent")), Some(MessageRole::Agent));
    assert_eq!(MessageRole::from_json(&Json::string("User")), None);
}

#[test]
fn metadata_with_keys_out_of_order_comes_back_equal() {
    let mut msg = Message::user_text("x");
    msg.metadata = Some(object(vec![("b", Json::from_i64(1)), ("a", Json::string("two"))]));
    let text = msg.to_json().to_text().unwrap();
    assert_eq!(Message::from_json(&Json::parse(&text).unwrap()).unwrap(), msg);

    let mut artifact = Artifact::text("r", "body");
    artifact.metadata = Some(object(vec![("z", Json::Null), ("y", object(vec![("n", Json::Bool(true)), ("m", Json::Null)]))]));
    let text = artifact.to_json().to_text().unwrap();
    assert_eq!(Artifact::from_json(&Json::parse(&text).unwrap()).unwrap(), artifact);
}

#[test]
fn a_key_that_a_text_gives_twice_counts_with_its_last_value() {
    let text = r#"{"id":"a","role":"user","parts":[],"id":"b"}"#;
    let msg = Message::from_json(&Json::parse(text).unwrap()).unwrap();
    assert_eq!(msg.id, "b");
    let built = object(vec![
        ("id", Json::string("a")),
        ("role", Json::string("agent")),
        ("parts", Json::Array(vec![])),
        ("role", Json::string("user")),
    ]);
    assert_eq!(Message::from_json(&built).unwrap().role, MessageRole::User);
}
