use agentoven::agent::{Agent, AgentBuilder};
use agentoven::error::A2AError;
use agentoven::http::HttpMethod::{Delete, Get, Post, Put};
use agentoven::http::{HttpMethod, HttpReply, HttpRequest};
use agentoven::json::Json;
use agentoven::oven::{
    approve_body, bake_body, digits_text, invoke_body, message_body, read_json, read_ok,
    read_replies, read_reply, AgentOvenClient,
};
use agentoven::recipe::Recipe;
use agentoven::time::Timestamp;
use agentoven::wire::Wire;

fn oven() -> AgentOvenClient {
    AgentOvenClient::new("http://localhost:8080").unwrap()
}

fn agent() -> Agent {
    AgentBuilder::new("summarizer").version("1.2.0").build_with("id".into(), Timestamp::new(1, 0).unwrap())
}

fn check(request: Result<HttpRequest, A2AError>, method: HttpMethod, path: &str, body: Option<&str>) {
    let request = request.unwrap();
    assert_eq!(request.method, method, "{}", path);
    assert_eq!(request.url, format!("http://localhost:8080{}", path));
    assert_eq!(request.body.as_deref(), body, "{}", path);
    let typed = request.headers.iter().any(|(n, v)| n == "Content-Type" && v == "application/json");
    assert_eq!(typed, body.is_some(), "{}", path);
}

#[test]
fn every_operation_has_its_method_and_path() {
    let c = oven();
    let a = agent();
    let raw = || Json::parse(r#"{"k": 1}"#).unwrap();
    let k = Some(r#"{"k":1}"#);
    let said = Some(r#"{"message":"hi","thinking_enabled":true}"#);
    check(c.register_request(&a), Post, "/api/v1/agents", Some(&a.to_json().to_text().unwrap()));
    check(c.get_agent_request("n", None), Get, "/api/v1/agents/n", None);
    check(c.get_agent_request("n", Some("1.0.0")), Get, "/api/v1/agents/n/versions/1.0.0", None);
    check(c.list_agents_request(), Get, "/api/v1/agents", None);
    check(
        c.bake_request(&a, "production"),
        Post,
        "/api/v1/agents/summarizer/bake",
        Some(r#"{"environment":"production","version":"1.2.0"}"#),
    );
    check(c.rewarm_request("n"), Post, "/api/v1/agents/n/rewarm", None);
    check(c.bake_recipe_request("r", raw()), Post, "/api/v1/recipes/r/bake", k);
    check(c.update_agent_request("n", raw()), Put, "/api/v1/agents/n", k);
    check(c.delete_agent_request("n"), Delete, "/api/v1/agents/n", None);
    check(c.recook_agent_request("n", raw()), Post, "/api/v1/agents/n/recook", k);
    check(c.cool_agent_request("n"), Post, "/api/v1/agents/n/cool", None);
    check(c.retire_agent_request("n"), Post, "/api/v1/agents/n/retire", None);
    check(c.test_agent_request("n", "hi", true), Post, "/api/v1/agents/n/test", said);
    check(
        c.invoke_agent_request("n", "hi", Some(raw()), false),
        Post,
        "/api/v1/agents/n/invoke",
        Some(r#"{"message":"hi","thinking_enabled":false,"variables":{"k":1}}"#),
    );
    check(
        c.invoke_agent_request("n", "hi", None, false),
        Post,
        "/api/v1/agents/n/invoke",
        Some(r#"{"message":"hi","thinking_enabled":false}"#),
    );
    check(c.agent_config_request("n"), Get, "/api/v1/agents/n/config", None);
    check(c.agent_card_request("n"), Get, "/api/v1/agents/n/card", None);
    check(c.agent_versions_request("n"), Get, "/api/v1/agents/n/versions", None);
    check(c.list_providers_request(), Get, "/api/v1/models/providers", None);
    check(c.add_provider_request(raw()), Post, "/api/v1/models/providers", k);
    check(c.get_provider_request("p"), Get, "/api/v1/models/providers/p", None);
    check(c.update_provider_request("p", raw()), Put, "/api/v1/models/providers/p", k);
    check(c.delete_provider_request("p"), Delete, "/api/v1/models/providers/p", None);
    check(c.test_provider_request("p"), Post, "/api/v1/models/providers/p/test", None);
    check(c.discover_provider_request("p"), Post, "/api/v1/models/providers/p/discover", None);
    check(c.list_tools_request(), Get, "/api/v1/tools", None);
    check(c.add_tool_request(raw()), Post, "/api/v1/tools", k);
    check(c.get_tool_request("t"), Get, "/api/v1/tools/t", None);
    check(c.update_tool_request("t", raw()), Put, "/api/v1/tools/t", k);
    check(c.delete_tool_request("t"), Delete, "/api/v1/tools/t", None);
    check(c.list_prompts_request(), Get, "/api/v1/prompts", None);
    check(c.add_prompt_request(raw()), Post, "/api/v1/prompts", k);
    check(c.get_prompt_request("p"), Get, "/api/v1/prompts/p", None);
    check(c.update_prompt_request("p", raw()), Put, "/api/v1/prompts/p", k);
    check(c.delete_prompt_request("p"), Delete, "/api/v1/prompts/p", None);
    check(c.validate_prompt_request("p"), Post, "/api/v1/prompts/p/validate", None);
    check(c.prompt_versions_request("p"), Get, "/api/v1/prompts/p/versions", None);
    check(c.list_kitchens_request(), Get, "/api/v1/kitchens", None);
    check(c.get_kitchen_request("k1"), Get, "/api/v1/kitchens/k1", None);
    check(c.get_settings_request(), Get, "/api/v1/settings", None);
    check(c.update_settings_request(raw()), Put, "/api/v1/settings", k);
    check(c.list_sessions_request("n"), Get, "/api/v1/agents/n/sessions", None);
    check(c.create_session_request("n"), Post, "/api/v1/agents/n/sessions", Some("{}"));
    check(c.get_session_request("n", "s1"), Get, "/api/v1/agents/n/sessions/s1", None);
    check(c.delete_session_request("n", "s1"), Delete, "/api/v1/agents/n/sessions/s1", None);
    check(c.send_session_message_request("n", "s1", "hi", true), Post, "/api/v1/agents/n/sessions/s1/messages", said);
    check(c.rag_query_request(raw()), Post, "/api/v1/rag/query", k);
    check(c.rag_ingest_request(raw()), Post, "/api/v1/rag/ingest", k);
    check(c.get_trace_request("tr"), Get, "/api/v1/traces/tr", None);
    check(c.model_catalog_request(), Get, "/api/v1/models/catalog", None);
    check(c.catalog_refresh_request(), Post, "/api/v1/models/catalog/refresh", None);
    check(c.model_cost_request(), Get, "/api/v1/models/cost", None);
    check(c.get_recipe_request("r"), Get, "/api/v1/recipes/r", None);
    check(c.list_recipes_request(), Get, "/api/v1/recipes", None);
    check(c.delete_recipe_request("r"), Delete, "/api/v1/recipes/r", None);
    check(c.recipe_runs_request("r"), Get, "/api/v1/recipes/r/runs", None);
    check(
        c.approve_gate_request("r", "run1", "review", true, Some("ok")),
        Post,
        "/api/v1/recipes/r/runs/run1/gates/review/approve",
        Some(r#"{"approved":true,"comment":"ok"}"#),
    );
    check(c.guardrail_kinds_request(), Get, "/api/v1/guardrails/kinds", None);
    check(c.list_traces_request(None, 20), Get, "/api/v1/traces?limit=20", None);
    check(c.list_traces_request(Some("my agent"), 5), Get, "/api/v1/traces?limit=5&agent=my+agent", None);
    check(c.list_audit_request(0), Get, "/api/v1/audit?limit=0", None);
    check(c.list_audit_request(u32::MAX), Get, "/api/v1/audit?limit=4294967295", None);
    let recipe = Recipe::plain("rid".into(), "r", vec![], Timestamp::new(0, 0).unwrap());
    check(c.create_recipe_request(&recipe), Post, "/api/v1/recipes", Some(&recipe.to_json().to_text().unwrap()));
}

#[test]
fn key_and_kitchen_travel_in_the_headers() {
    let plain = oven().list_agents_request().unwrap();
    assert!(plain.headers.is_empty());
    let c = oven().with_api_key("secret").with_kitchen("k1");
    assert_eq!(
        c.list_agents_request().unwrap().headers,
        vec![
            ("Authorization".to_string(), "Bearer secret".to_string()),
            ("X-Kitchen-Id".to_string(), "k1".to_string()),
        ]
    );
    assert_eq!(
        c.add_tool_request(Json::Null).unwrap().headers,
        vec![
            ("Authorization".to_string(), "Bearer secret".to_string()),
            ("X-Kitchen-Id".to_string(), "k1".to_string()),
            ("Content-Type".to_string(), "application/json".to_string()),
        ]
    );
    assert_eq!(c.authed_headers(false).len(), 2);
    assert_eq!(oven().with_kitchen("k").authed_headers(true).len(), 2);
}

#[test]
fn client_from_settings() {
    assert!(matches!(AgentOvenClient::new("nope"), Err(A2AError::InvalidUrl(_))));
    let default = AgentOvenClient::from_settings(None, None, None).unwrap();
    assert_eq!(default, oven());
    let set = AgentOvenClient::from_settings(Some("https://oven.example.com/base/"), Some("k".into()), Some("kit".into())).unwrap();
    assert_eq!(set.url("/api/v1/agents").unwrap().as_str(), "https://oven.example.com/api/v1/agents");
    assert_eq!(set.url("relative").unwrap().as_str(), "https://oven.example.com/base/relative");
    assert_eq!(set.authed_headers(false).len(), 2);
    assert!(matches!(AgentOvenClient::from_settings(Some(""), None, None), Err(A2AError::InvalidUrl(_))));
}

#[test]
fn bodies() {
    assert_eq!(bake_body("1.0", "staging").to_text().unwrap(), r#"{"environment":"staging","version":"1.0"}"#);
    assert_eq!(message_body("m", false).to_text().unwrap(), r#"{"message":"m","thinking_enabled":false}"#);
    assert_eq!(
        invoke_body("m", Some(Json::empty_object()), true).to_text().unwrap(),
        r#"{"message":"m","thinking_enabled":true,"variables":{}}"#
    );
    assert_eq!(approve_body(false, None).to_text().unwrap(), r#"{"approved":false}"#);
    assert_eq!(approve_body(true, Some("fine")).to_text().unwrap(), r#"{"approved":true,"comment":"fine"}"#);
    assert_eq!(digits_text(0), "0");
    assert_eq!(digits_text(8080), "8080");
}

#[test]
fn replies_are_read() {
    let ok = |body: &str| HttpReply { status: 200, status_text: "200 OK".into(), body: body.into() };
    let bad = HttpReply { status: 502, status_text: "502 Bad Gateway".into(), body: "{}".into() };
    assert_eq!(read_json(&ok(r#"{"status": "ready"}"#)).unwrap().str_at("status"), Some("ready"));
    assert_eq!(read_json(&bad), Err(A2AError::Transport("HTTP status 502 Bad Gateway".into())));
    match read_json(&ok("oops")) {
        Err(A2AError::Serialization(m)) => assert!(m.starts_with("invalid JSON: "), "{}", m),
        other => panic!("{:?}", other),
    }
    let a = agent();
    assert_eq!(read_reply::<Agent>(&ok(&a.to_json().to_text().unwrap())), Ok(a.clone()));
    assert_eq!(
        read_reply::<Agent>(&ok("{}")),
        Err(A2AError::Serialization("unexpected shape of the reply".into()))
    );
    let list = Json::Array(vec![a.to_json(), a.to_json()]).to_text().unwrap();
    assert_eq!(read_replies::<Agent>(&ok(&list)), Ok(vec![a.clone(), a]));
    assert_eq!(read_replies::<Json>(&ok("[1, 2]")), Ok(vec![Json::from_i64(1), Json::from_i64(2)]));
    assert_eq!(
        read_replies::<Agent>(&ok("{}")),
        Err(A2AError::Serialization("unexpected shape of the reply".into()))
    );
    assert_eq!(read_ok(&ok("")), Ok(()));
    assert_eq!(read_ok(&bad), Err(A2AError::Transport("HTTP status 502 Bad Gateway".into())));
}
