use agentoven::agent::{
    default_guardrail_stage, Agent, AgentBuilder, AgentFramework, AgentMode, AgentStatus, Guardrail,
};
use agentoven::config::{default_otlp_endpoint, default_url, AgentOvenConfig, TelemetryConfig};
use agentoven::ingredient::{default_required, Ingredient, IngredientKind};
use agentoven::json::Json;
use agentoven::recipe::{Recipe, RetryPolicy, Step, StepKind};
use agentoven::router::ProviderKind;
use agentoven::time::Timestamp;
use agentoven::wire::Wire;

#[test]
fn test_agent_builder() {
    let agent = Agent::builder("summarizer")
        .version("1.0.0")
        .description("Summarizes documents")
        .framework(AgentFramework::Langchain)
        .ingredient(Ingredient::model("gpt-4o").provider("azure-openai").build())
        .tag("nlp")
        .tag("summarization")
        .build()
        .unwrap();

    assert_eq!(agent.name, "summarizer");
    assert_eq!(agent.version, "1.0.0");
    assert_eq!(agent.qualified_name(), "summarizer@1.0.0");
    assert_eq!(agent.status, AgentStatus::Draft);
    assert_eq!(agent.ingredients.len(), 1);
    assert_eq!(agent.tags, vec!["nlp", "summarization"]);
}

#[test]
fn builder_starts_with_defaults() {
    let now = Timestamp::new(1_700_000_000, 0).unwrap();
    let agent = AgentBuilder::new("a").build_with("id-1".into(), now);
    assert_eq!(
        agent,
        Agent {
            id: "id-1".into(),
            name: "a".into(),
            version: "0.1.0".into(),
            description: "".into(),
            framework: AgentFramework::Custom,
            mode: AgentMode::Managed,
            model_provider: "".into(),
            model_name: "".into(),
            backup_provider: None,
            backup_model: None,
            system_prompt: None,
            max_turns: None,
            skills: vec![],
            guardrails: vec![],
            a2a_endpoint: None,
            ingredients: vec![],
            tags: vec![],
            status: AgentStatus::Draft,
            kitchen_id: None,
            resolved_config: None,
            created_by: None,
            created_at: now,
            updated_at: now,
            metadata: None,
        }
    );
    let built = AgentBuilder::new("a").build().unwrap();
    assert_eq!(built.id.len(), 36);
    assert_eq!(built.created_at, built.updated_at);
}

#[test]
fn builder_sets_every_field() {
    let now = Timestamp::new(5, 0).unwrap();
    let rail = Guardrail { kind: "pii".into(), stage: "post".into(), config: None };
    let tool = Ingredient::tool("reader").role("aux").config(Json::Bool(true)).build();
    let agent = Agent::builder("a")
        .mode(AgentMode::External)
        .model_provider("p")
        .model_name("m")
        .backup_provider("bp")
        .backup_model("bm")
        .system_prompt("sp")
        .max_turns(7)
        .skill("s1")
        .skill("s2")
        .guardrail(rail.clone())
        .a2a_endpoint("https://a2a")
        .ingredient(tool.clone())
        .kitchen("k")
        .metadata(Json::string("meta"))
        .build_with("i".into(), now);
    assert_eq!(agent.mode, AgentMode::External);
    assert_eq!(agent.model_provider, "p");
    assert_eq!(agent.model_name, "m");
    assert_eq!(agent.backup_provider.as_deref(), Some("bp"));
    assert_eq!(agent.backup_model.as_deref(), Some("bm"));
    assert_eq!(agent.system_prompt.as_deref(), Some("sp"));
    assert_eq!(agent.max_turns, Some(7));
    assert_eq!(agent.skills, vec!["s1", "s2"]);
    assert_eq!(agent.guardrails, vec![rail]);
    assert_eq!(agent.a2a_endpoint.as_deref(), Some("https://a2a"));
    assert_eq!(agent.ingredients, vec![tool]);
    assert_eq!(agent.kitchen_id.as_deref(), Some("k"));
    assert_eq!(agent.metadata, Some(Json::string("meta")));
}

#[test]
fn agent_round_trip_gives_an_equal_agent() {
    let now = Timestamp::new(1_700_000_000, 5_000_000).unwrap();
    let full = Agent::builder("a")
        .version("2.0.0")
        .description("d")
        .framework(AgentFramework::Openai)
        .mode(AgentMode::External)
        .model_provider("p")
        .model_name("m")
        .backup_provider("bp")
        .system_prompt("sp")
        .max_turns(u32::MAX)
        .skill("s")
        .guardrail(Guardrail { kind: "k".into(), stage: "pre".into(), config: Some(Json::from_i64(1)) })
        .a2a_endpoint("e")
        .ingredient(Ingredient::model("gpt").provider("x").role("primary").build())
        .ingredient(Ingredient::data("docs").build())
        .tag("t")
        .kitchen("kit")
        .metadata(Json::Array(vec![]))
        .build_with("id".into(), now);
    let plain = AgentBuilder::new("b").build_with("id2".into(), now);
    for agent in [full, plain] {
        let text = agent.to_json().to_text().unwrap();
        assert_eq!(Agent::from_json(&Json::parse(&text).unwrap()).unwrap(), agent);
    }
}

#[test]
fn agent_is_read_with_defaults_and_the_other_key_for_the_kitchen() {
    let j = Json::parse(
        r#"{"id": "i", "name": "n", "version": "1", "description": "d", "framework": "langgraph",
            "status": "ready", "kitchen": "k1", "mode": "",
            "created_at": "2024-01-01T00:00:00Z", "updated_at": "2024-01-02T00:00:00Z"}"#,
    )
    .unwrap();
    let agent = Agent::from_json(&j).unwrap();
    assert_eq!(agent.framework, AgentFramework::Langchain);
    assert_eq!(agent.mode, AgentMode::Unknown);
    assert_eq!(agent.status, AgentStatus::Ready);
    assert_eq!(agent.kitchen_id.as_deref(), Some("k1"));
    assert_eq!(agent.model_provider, "");
    assert!(agent.skills.is_empty());
    assert_eq!(agent.max_turns, None);
    let without_mode = Json::parse(
        r#"{"id": "i", "name": "n", "version": "1", "description": "d", "framework": "x",
            "status": "draft", "kitchen_id": "k2", "kitchen": "k1",
            "created_at": "2024-01-01T00:00:00Z", "updated_at": "2024-01-02T00:00:00Z"}"#,
    )
    .unwrap();
    let agent = Agent::from_json(&without_mode).unwrap();
    assert_eq!(agent.mode, AgentMode::Managed);
    assert_eq!(agent.framework, AgentFramework::Custom);
    assert_eq!(agent.kitchen_id.as_deref(), Some("k2"));
    assert!(Agent::from_json(&Json::parse(r#"{"id": "i", "name": "n"}"#).unwrap()).is_none());
}

#[test]
fn modes_frameworks_and_statuses_by_name() {
    assert_eq!(AgentMode::default(), AgentMode::Managed);
    assert_eq!(AgentMode::Managed.to_text(), "managed");
    assert_eq!(AgentMode::External.to_text(), "external");
    assert_eq!(AgentMode::Unknown.to_text(), "unknown");
    assert_eq!(AgentMode::from_name("external"), AgentMode::External);
    assert_eq!(AgentMode::from_name("something"), AgentMode::Unknown);
    assert_eq!(AgentFramework::default(), AgentFramework::Custom);
    for (name, framework) in [
        ("langchain", AgentFramework::Langchain),
        ("lang-graph", AgentFramework::Langchain),
        ("langgraph", AgentFramework::Langchain),
        ("crewai", AgentFramework::Crewai),
        ("crew-ai", AgentFramework::Crewai),
        ("openai", AgentFramework::Openai),
        ("openai-sdk", AgentFramework::Openai),
        ("open-ai-sdk", AgentFramework::Openai),
        ("autogen", AgentFramework::Autogen),
        ("auto-gen", AgentFramework::Autogen),
        ("managed", AgentFramework::Managed),
        ("custom", AgentFramework::Custom),
        ("haystack", AgentFramework::Custom),
    ] {
        assert_eq!(AgentFramework::from_name(name), framework, "{}", name);
    }
    assert_eq!(AgentFramework::Openai.as_str(), "openai");
    for (status, name, label) in [
        (AgentStatus::Draft, "draft", "\u{1f7e1} draft"),
        (AgentStatus::Baking, "baking", "\u{1f525} baking"),
        (AgentStatus::Ready, "ready", "\u{1f7e2} ready"),
        (AgentStatus::Cooled, "cooled", "\u{23f8}\u{fe0f}  cooled"),
        (AgentStatus::Burnt, "burnt", "\u{1f534} burnt"),
        (AgentStatus::Retired, "retired", "\u{26ab} retired"),
    ] {
        assert_eq!(status.as_str(), name);
        assert_eq!(status.to_text(), label);
        assert_eq!(AgentStatus::from_name(name), Some(status));
    }
    assert_eq!(AgentStatus::from_name("gone"), None);
}

#[test]
fn guardrail_stage_defaults_to_pre() {
    assert_eq!(default_guardrail_stage(), "pre");
    let rail = Guardrail::from_json(&Json::parse(r#"{"kind": "content-filter"}"#).unwrap()).unwrap();
    assert_eq!(rail, Guardrail { kind: "content-filter".into(), stage: "pre".into(), config: None });
    assert!(Guardrail::from_json(&Json::parse(r#"{"stage": "pre"}"#).unwrap()).is_none());
}

#[test]
fn ingredients_of_every_kind() {
    for (builder, kind, name) in [
        (Ingredient::model("n"), IngredientKind::Model, "model"),
        (Ingredient::tool("n"), IngredientKind::Tool, "tool"),
        (Ingredient::prompt("n"), IngredientKind::Prompt, "prompt"),
        (Ingredient::data("n"), IngredientKind::Data, "data"),
        (Ingredient::observability("n"), IngredientKind::Observability, "observability"),
        (Ingredient::embedding("n"), IngredientKind::Embedding, "embedding"),
        (Ingredient::vectorstore("n"), IngredientKind::VectorStore, "vectorstore"),
        (Ingredient::retriever("n"), IngredientKind::Retriever, "retriever"),
    ] {
        let ingredient = builder.build();
        assert_eq!(
            ingredient,
            Ingredient { id: "".into(), kind, name: "n".into(), provider: None, role: None, required: true, config: None }
        );
        assert_eq!(kind.as_str(), name);
        assert_eq!(ingredient.to_json().to_text().unwrap(), format!(r#"{{"kind":"{}","name":"n","required":true}}"#, name));
        assert_eq!(Ingredient::from_json(&ingredient.to_json()), Some(ingredient));
    }
    assert!(default_required());
    let read = Ingredient::from_json(&Json::parse(r#"{"id": "x", "kind": "tool", "name": "t", "required": false}"#).unwrap()).unwrap();
    assert_eq!(read.id, "x");
    assert!(!read.required);
}

#[test]
fn recipes_and_steps() {
    let agent = Step::agent("draft", "writer@1.0.0");
    assert_eq!(agent.kind, StepKind::Agent);
    assert_eq!(agent.agent.as_deref(), Some("writer@1.0.0"));
    assert_eq!(agent.id.len(), 36);
    assert!(!agent.parallel);
    let gate = Step::human_gate("approve", vec!["lead@example.com".into()]);
    assert_eq!(gate.kind, StepKind::HumanGate);
    assert_eq!(gate.agent, None);
    assert_eq!(gate.notify, vec!["lead@example.com"]);
    let eval = Step::evaluator("judge", "critic").with_parallel().with_timeout("30s").with_depends_on(vec![agent.id.clone()]);
    assert_eq!(eval.kind, StepKind::Evaluator);
    assert!(eval.parallel);
    assert_eq!(eval.timeout.as_deref(), Some("30s"));
    assert_eq!(eval.depends_on, vec![agent.id.clone()]);
    let mut retried = Step::plain("s".into(), "n", StepKind::FanOut, None, vec![]);
    retried.retry = Some(RetryPolicy { max_retries: 3, delay_seconds: 10, exponential_backoff: true });
    retried.config = Some(Json::from_i64(1));

    let recipe = Recipe::new("pipeline", vec![agent, gate, eval, retried]).unwrap();
    assert_eq!(recipe.name, "pipeline");
    assert_eq!(recipe.version, "0.1.0");
    assert_eq!(recipe.description, "");
    assert_eq!(recipe.steps.len(), 4);
    assert_eq!(recipe.metadata, None);
    let text = recipe.to_json().to_text().unwrap();
    assert_eq!(Recipe::from_json(&Json::parse(&text).unwrap()).unwrap(), recipe);
    for (kind, name) in [
        (StepKind::Agent, "agent"),
        (StepKind::HumanGate, "human-gate"),
        (StepKind::Evaluator, "evaluator"),
        (StepKind::Condition, "condition"),
        (StepKind::FanOut, "fan-out"),
        (StepKind::FanIn, "fan-in"),
    ] {
        assert_eq!(kind.as_str(), name);
        assert_eq!(StepKind::from_name(name), Some(kind));
    }
}

#[test]
fn settings_have_defaults() {
    assert_eq!(default_url(), "http://localhost:8080");
    assert_eq!(default_otlp_endpoint(), "http://localhost:4317");
    assert!(agentoven::config::default_true());
    assert!(agentoven::router::default_true());
    let config = AgentOvenConfig::default();
    assert_eq!(config.url, "http://localhost:8080");
    assert_eq!(config.api_key, None);
    assert_eq!(config.default_kitchen, None);
    assert_eq!(config.telemetry, TelemetryConfig { enabled: true, otlp_endpoint: "http://localhost:4317".into() });
    assert_eq!(AgentOvenConfig::from_json(&Json::empty_object()), Some(AgentOvenConfig::default()));
    let read = AgentOvenConfig::from_json(
        &Json::parse(r#"{"url": "https://oven", "api_key": "k", "telemetry": {"enabled": false}}"#).unwrap(),
    )
    .unwrap();
    assert_eq!(read.url, "https://oven");
    assert_eq!(read.api_key.as_deref(), Some("k"));
    assert!(!read.telemetry.enabled);
    assert_eq!(read.telemetry.otlp_endpoint, "http://localhost:4317");
    assert_eq!(AgentOvenConfig::from_json(&read.to_json()), Some(read));
}

#[test]
fn providers_by_name() {
    for (kind, name) in [
        (ProviderKind::AzureOpenai, "azure-openai"),
        (ProviderKind::OpenAi, "open-ai"),
        (ProviderKind::Anthropic, "anthropic"),
        (ProviderKind::Bedrock, "bedrock"),
        (ProviderKind::DatabricksFoundation, "databricks-foundation"),
        (ProviderKind::GoogleVertex, "google-vertex"),
        (ProviderKind::Ollama, "ollama"),
        (ProviderKind::Custom, "custom"),
    ] {
        assert_eq!(kind.as_str(), name);
        assert_eq!(ProviderKind::from_name(name), Some(kind));
        assert_eq!(ProviderKind::from_json(&kind.to_json()), Some(kind));
    }
    assert_eq!(ProviderKind::from_name("openai"), None);
}
