use agentoven::agent_card::{
    card_from_reply, discovery_request, discovery_url, fetch_failed, AgentCapabilities, AgentCard,
    AgentExtension, AgentInterface, AgentProvider, AgentSkill, ApiKeyLocation, ContentType,
    ProtocolBinding, SecurityRequirement, SecurityScheme,
};
use agentoven::error::A2AError;
use agentoven::http::{HttpMethod, HttpReply};
use agentoven::json::Json;
use agentoven::url::WebUrl;
use agentoven::wire::Wire;

fn url(text: &str) -> WebUrl {
    WebUrl::parse(text).unwrap()
}

fn summarizer() -> AgentCard {
    AgentCard {
        name: "summarizer".into(),
        description: "Summarizes documents with citations".into(),
        version: Some("1.0.0".into()),
        provider: Some(AgentProvider {
            organization: "AgentOven".into(),
            url: Some(url("https://agentoven.dev")),
        }),
        icon_url: None,
        documentation_url: None,
        supported_interfaces: vec![AgentInterface {
            url: url("https://agent.example.com/a2a"),
            protocol_binding: ProtocolBinding::JsonrpcHttp,
            protocol_version: Some("1.0".into()),
        }],
        capabilities: AgentCapabilities { streaming: true, push_notifications: true, ..Default::default() },
        security_schemes: vec![SecurityScheme::Http {
            scheme: "bearer".into(),
            bearer_format: Some("JWT".into()),
            description: None,
        }],
        security: vec![],
        default_input_modes: vec![ContentType::text()],
        default_output_modes: vec![ContentType::text(), ContentType::json()],
        skills: vec![AgentSkill {
            id: "summarize".into(),
            name: "Document Summarization".into(),
            description: "Summarizes long documents into concise summaries".into(),
            tags: vec!["summarization".into(), "nlp".into()],
            examples: vec!["Summarize this quarterly report".into()],
            input_modes: vec![],
            output_modes: vec![],
        }],
    }
}

fn minimal() -> AgentCard {
    AgentCard {
        name: "test-agent".into(),
        description: "test".into(),
        version: None,
        provider: None,
        icon_url: None,
        documentation_url: None,
        supported_interfaces: vec![AgentInterface {
            url: url("https://example.com"),
            protocol_binding: ProtocolBinding::JsonrpcHttp,
            protocol_version: None,
        }],
        capabilities: Default::default(),
        security_schemes: vec![],
        security: vec![],
        default_input_modes: vec![],
        default_output_modes: vec![],
        skills: vec![],
    }
}

fn reply(status: u16, status_text: &str, body: &str) -> HttpReply {
    HttpReply { status, status_text: status_text.into(), body: body.into() }
}

#[test]
fn test_serialize_agent_card() {
    let card = summarizer();

    let json = card.to_json().to_pretty_text().unwrap();
    assert!(json.contains("summarizer"));
    assert!(json.contains("agentoven.dev"));

    // Round-trip
    let parsed = AgentCard::from_json(&Json::parse(&json).unwrap()).unwrap();
    assert_eq!(parsed.name, "summarizer");
    assert!(parsed.capabilities.streaming);
}

#[test]
fn test_validate_agent_card() {
    let mut card = AgentCard {
        name: "".into(),
        description: "test".into(),
        version: None,
        provider: None,
        icon_url: None,
        documentation_url: None,
        supported_interfaces: vec![],
        capabilities: Default::default(),
        security_schemes: vec![],
        security: vec![],
        default_input_modes: vec![],
        default_output_modes: vec![],
        skills: vec![],
    };

    assert!(card.validate().is_err());

    card.name = "test-agent".into();
    assert!(card.validate().is_err()); // still missing interfaces

    card.supported_interfaces.push(AgentInterface {
        url: url("https://example.com"),
        protocol_binding: ProtocolBinding::JsonrpcHttp,
        protocol_version: None,
    });
    assert!(card.validate().is_ok());
}

#[test]
fn validation_says_what_is_missing() {
    let mut card = minimal();
    assert_eq!(card.validate(), Ok(()));
    card.name = "".into();
    assert_eq!(card.validate(), Err(A2AError::InvalidAgentCard("name is required".into())));
    card.description = "".into();
    card.supported_interfaces.clear();
    assert_eq!(card.validate(), Err(A2AError::InvalidAgentCard("name is required".into())));
    card.name = "n".into();
    assert_eq!(card.validate(), Err(A2AError::InvalidAgentCard("description is required".into())));
    card.description = "d".into();
    assert_eq!(
        card.validate(),
        Err(A2AError::InvalidAgentCard("at least one supported interface is required".into()))
    );
}

#[test]
fn card_round_trip_gives_an_equal_card() {
    let mut full = summarizer();
    full.icon_url = Some(url("https://agentoven.dev/icon.png"));
    full.documentation_url = Some(url("https://agentoven.dev/docs"));
    full.capabilities.extended_agent_card = true;
    full.capabilities.extensions = vec![AgentExtension {
        uri: "urn:x".into(),
        description: Some("ext".into()),
        required: true,
    }];
    full.security_schemes = vec![
        SecurityScheme::ApiKey { name: "X-Key".into(), location: ApiKeyLocation::Header, description: None },
        SecurityScheme::Http { scheme: "bearer".into(), bearer_format: Some("JWT".into()), description: Some("d".into()) },
        SecurityScheme::OAuth2 { flows: Json::parse(r#"{"implicit": {}}"#).unwrap(), description: None },
        SecurityScheme::OpenIdConnect {
            open_id_connect_url: url("https://idp.example.com/.well-known/openid-configuration"),
            description: None,
        },
    ];
    full.security = vec![SecurityRequirement { scheme: "oauth".into(), scopes: vec!["read".into()] }];
    full.supported_interfaces.push(AgentInterface {
        url: url("https://agent.example.com/grpc"),
        protocol_binding: ProtocolBinding::Custom("websocket".into()),
        protocol_version: None,
    });
    for card in [full, minimal(), summarizer()] {
        let text = card.to_json().to_text().unwrap();
        assert_eq!(AgentCard::from_json(&Json::parse(&text).unwrap()).unwrap(), card);
    }
}

#[test]
fn card_wire_form_uses_camel_case() {
    let text = minimal().to_json().to_text().unwrap();
    assert_eq!(
        text,
        r#"{"capabilities":{"extendedAgentCard":false,"pushNotifications":false,"streaming":false},"description":"test","name":"test-agent","supportedInterfaces":[{"protocolBinding":"jsonrpc-http","url":"https://example.com/"}]}"#
    );
}

#[test]
fn card_without_capabilities_has_none() {
    let j = Json::parse(
        r#"{"name": "n", "description": "d", "supportedInterfaces": [{"url": "https://e.com/a", "protocolBinding": "grpc"}]}"#,
    )
    .unwrap();
    let card = AgentCard::from_json(&j).unwrap();
    assert_eq!(card.capabilities, AgentCapabilities::default());
    assert!(!card.supports_streaming());
    assert!(!card.supports_push_notifications());
    assert_eq!(card.supported_interfaces[0].protocol_binding, ProtocolBinding::Grpc);
    assert_eq!(card.primary_url().unwrap().as_str(), "https://e.com/a");
}

#[test]
fn card_with_a_flaw_is_not_read() {
    for text in [
        r#"{"description": "d", "supportedInterfaces": []}"#,
        r#"{"name": "n", "supportedInterfaces": []}"#,
        r#"{"name": "n", "description": "d"}"#,
        r#"{"name": "n", "description": "d", "supportedInterfaces": [{"url": "not a url", "protocolBinding": "grpc"}]}"#,
        r#"{"name": "n", "description": "d", "supportedInterfaces": [], "capabilities": null}"#,
        r#"{"name": "n", "description": "d", "supportedInterfaces": [], "skills": [{"id": "s"}]}"#,
        r#"{"name": "n", "description": "d", "supportedInterfaces": [], "securitySchemes": [{"type": "magic"}]}"#,
    ] {
        assert!(AgentCard::from_json(&Json::parse(text).unwrap()).is_none(), "{}", text);
    }
}

#[test]
fn protocol_bindings_by_name() {
    for (binding, name) in [
        (ProtocolBinding::JsonrpcHttp, "jsonrpc-http"),
        (ProtocolBinding::Grpc, "grpc"),
        (ProtocolBinding::HttpJson, "http-json"),
        (ProtocolBinding::Custom("mqtt".into()), "mqtt"),
    ] {
        assert_eq!(binding.to_json(), Json::string(name));
        assert_eq!(ProtocolBinding::from_json(&Json::string(name)), Some(binding));
    }
    // a binding of the agent's own that goes by a reserved name is read as the reserved one
    assert_eq!(
        ProtocolBinding::from_json(&ProtocolBinding::Custom("grpc".into()).to_json()),
        Some(ProtocolBinding::Grpc)
    );
    assert_eq!(ProtocolBinding::from_json(&Json::from_i64(1)), None);
}

#[test]
fn security_schemes_on_the_wire() {
    let scheme = SecurityScheme::ApiKey { name: "k".into(), location: ApiKeyLocation::Query, description: None };
    assert_eq!(scheme.to_json().to_text().unwrap(), r#"{"in":"query","name":"k","type":"apiKey"}"#);
    let scheme = SecurityScheme::Http { scheme: "basic".into(), bearer_format: Some("x".into()), description: None };
    assert_eq!(scheme.to_json().to_text().unwrap(), r#"{"bearer_format":"x","scheme":"basic","type":"http"}"#);
    let scheme = SecurityScheme::OAuth2 { flows: Json::empty_object(), description: Some("d".into()) };
    assert_eq!(scheme.to_json().to_text().unwrap(), r#"{"description":"d","flows":{},"type":"oauth2"}"#);
    let scheme = SecurityScheme::OpenIdConnect { open_id_connect_url: url("https://i.d/x"), description: None };
    assert_eq!(
        scheme.to_json().to_text().unwrap(),
        r#"{"open_id_connect_url":"https://i.d/x","type":"openIdConnect"}"#
    );
    for (location, name) in
        [(ApiKeyLocation::Header, "header"), (ApiKeyLocation::Query, "query"), (ApiKeyLocation::Cookie, "cookie")]
    {
        assert_eq!(location.to_json(), Json::string(name));
        assert_eq!(ApiKeyLocation::from_json(&Json::string(name)), Some(location));
    }
}

#[test]
fn content_types() {
    assert_eq!(ContentType::text().media_type, "text/plain");
    assert_eq!(ContentType::json().media_type, "application/json");
    assert_eq!(ContentType::a2a_json().media_type, "application/a2a+json");
    assert_eq!(ContentType::text().to_json().to_text().unwrap(), r#"{"mediaType":"text/plain"}"#);
}

#[test]
fn skills_are_found_by_identifier() {
    let mut card = summarizer();
    let mut second = card.skills[0].clone();
    second.name = "Second".into();
    card.skills.push(second);
    card.skills.push(AgentSkill {
        id: "translate".into(),
        name: "Translation".into(),
        description: "d".into(),
        tags: vec![],
        examples: vec![],
        input_modes: vec![],
        output_modes: vec![],
    });
    assert_eq!(card.find_skill("summarize").unwrap().name, "Document Summarization");
    assert_eq!(card.find_skill("translate").unwrap().name, "Translation");
    assert!(card.find_skill("Summarize").is_none());
    assert!(card.find_skill("").is_none());
    assert!(minimal().find_skill("summarize").is_none());
}

#[test]
fn primary_url_is_the_first_interface() {
    assert_eq!(summarizer().primary_url().unwrap().as_str(), "https://agent.example.com/a2a");
    let mut card = minimal();
    card.supported_interfaces.clear();
    assert!(card.primary_url().is_none());
}

#[test]
fn discovery_address() {
    assert_eq!(discovery_url("https://agent.example.com"), "https://agent.example.com/.well-known/agent-card.json");
    assert_eq!(discovery_url("https://agent.example.com/"), "https://agent.example.com/.well-known/agent-card.json");
    assert_eq!(discovery_url("https://a.b/c//"), "https://a.b/c/.well-known/agent-card.json");
    assert_eq!(discovery_url(""), "/.well-known/agent-card.json");
    let request = discovery_request("https://a.b/");
    assert_eq!(request.method, HttpMethod::Get);
    assert_eq!(request.url, "https://a.b/.well-known/agent-card.json");
    assert!(request.headers.is_empty());
    assert_eq!(request.body, None);
}

#[test]
fn discovery_tells_unreachable_from_misconfigured() {
    let good = minimal().to_json().to_text().unwrap();
    assert_eq!(card_from_reply(&reply(200, "200 OK", &good)), Ok(minimal()));
    assert_eq!(card_from_reply(&reply(299, "299", &good)), Ok(minimal()));
    assert_eq!(
        card_from_reply(&reply(404, "404 Not Found", &good)),
        Err(A2AError::DiscoveryFailed("Agent card endpoint returned 404 Not Found".into()))
    );
    assert_eq!(
        card_from_reply(&reply(199, "199", &good)),
        Err(A2AError::DiscoveryFailed("Agent card endpoint returned 199".into()))
    );
    assert_eq!(
        card_from_reply(&reply(300, "300 Multiple Choices", &good)),
        Err(A2AError::DiscoveryFailed("Agent card endpoint returned 300 Multiple Choices".into()))
    );
    match card_from_reply(&reply(200, "200 OK", "<html>")) {
        Err(A2AError::InvalidAgentCard(message)) => {
            assert!(message.starts_with("Failed to parse agent card: "), "{}", message)
        },
        other => panic!("{:?}", other),
    }
    assert_eq!(
        card_from_reply(&reply(200, "200 OK", r#"{"name": "n"}"#)),
        Err(A2AError::InvalidAgentCard("Failed to parse agent card: not an agent card".into()))
    );
    let mut nameless = minimal();
    nameless.name = "".into();
    assert_eq!(
        card_from_reply(&reply(200, "200 OK", &nameless.to_json().to_text().unwrap())),
        Err(A2AError::InvalidAgentCard("name is required".into()))
    );
    let mut bare = minimal();
    bare.supported_interfaces.clear();
    assert_eq!(
        card_from_reply(&reply(200, "200 OK", &bare.to_json().to_text().unwrap())),
        Err(A2AError::InvalidAgentCard("at least one supported interface is required".into()))
    );
    assert_eq!(
        fetch_failed("connection refused"),
        A2AError::DiscoveryFailed("Failed to fetch agent card: connection refused".into())
    );
}

#[test]
fn urls_are_kept_as_the_url_crate_writes_them() {
    assert_eq!(url("https://Example.COM").as_str(), "https://example.com/");
    assert_eq!(url("https://example.com/a b").as_str(), "https://example.com/a%20b");
    assert!(WebUrl::parse("not a url").is_err());
    assert!(WebUrl::parse("").is_err());
    assert!(WebUrl::parse("/relative/path").is_err());
    assert_eq!(url("https://e.com/a/b").join("c").unwrap().as_str(), "https://e.com/a/c");
    assert_eq!(url("https://e.com/a/b").join("/x/y").unwrap().as_str(), "https://e.com/x/y");
    assert_eq!(
        url("https://e.com/t").with_query("limit", "5").unwrap().with_query("agent", "a b&c").unwrap().as_str(),
        "https://e.com/t?limit=5&agent=a+b%26c"
    );
    assert_eq!(url("https://e.com/x").clone(), url("https://e.com/x"));
}

#[test]
fn a_pair_is_added_to_a_url_with_a_fragment_or_a_query() {
    assert_eq!(url("https://e.com/t#top").with_query("a", "1").unwrap().as_str(), "https://e.com/t?a=1#top");
    assert_eq!(url("https://e.com/t?x=y").with_query("a", "\u{e9} b").unwrap().as_str(), "https://e.com/t?x=y&a=%C3%A9+b");
    assert_eq!(url("https://e.com/\u{e9}").as_str(), "https://e.com/%C3%A9");
}
