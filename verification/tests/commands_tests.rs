use agentoven::agent::{AgentBuilder, AgentFramework, AgentMode, Guardrail};
use agentoven::artifact::Artifact;
use agentoven::commands::agent::{
    agent_from_config, answer_text, framework_display, guardrail_from_flag, is_exit_command,
    parse_framework, parse_mode, playground_url, provider_column, reply_text, GetArgs, InvokeArgs,
    RecookArgs, RegisterArgs, UpdateArgs,
};
use agentoven::commands::dashboard::{dashboard_url, health_url, server_candidates, DashboardArgs};
use agentoven::commands::init::{config_text, system_prompt_text, InitArgs, GITIGNORE};
use agentoven::commands::kitchen::{kitchen_label, UpdateSettingsArgs};
use agentoven::commands::prompt;
use agentoven::commands::prompt::{choose_source, TemplateSource};
use agentoven::commands::provider;
use agentoven::commands::provider::switch_label;
use agentoven::commands::agent::{dialogue_step, dialogue_task, DialogueAction, TestArgs};
use agentoven::commands::rag::{
    chunk_preview, chunks_made, document, documents_taken, query_answer, query_sources,
    source_chunk, source_title, IngestArgs, QueryArgs,
};
use agentoven::commands::recipe::{check_source, run_id, verdict, verdict_action, RecipeBakeArgs};
use agentoven::commands::session::{is_quit, started_session_id};
use agentoven::commands::tool;
use agentoven::commands::tool::parse_opt_json;
use agentoven::commands::trace::{cost_items, short_id, short_time};
use agentoven::error::A2AError;
use agentoven::commands::{status_line, OutputFormat, BANNER};
use agentoven::ingredient::Ingredient;
use agentoven::json::Json;
use agentoven::message::Message;
use agentoven::task::Task;
use agentoven::time::Timestamp;
use agentoven::tomlfile::parse_toml;

fn now() -> Timestamp {
    Timestamp::new(1_700_000_000, 0).unwrap()
}

fn register_args() -> RegisterArgs {
    RegisterArgs {
        name: None,
        config: None,
        description: None,
        framework: None,
        mode: "managed".into(),
        model_provider: None,
        model_name: None,
        backup_provider: None,
        backup_model: None,
        system_prompt: None,
        max_turns: None,
        skill: vec![],
        tag: vec![],
        a2a_endpoint: None,
        guardrail: vec![],
    }
}

#[test]
fn frameworks_on_the_command_line() {
    for (name, framework) in [
        ("langgraph", AgentFramework::Langchain),
        ("crewai", AgentFramework::Crewai),
        ("openai", AgentFramework::Openai),
        ("openai-sdk", AgentFramework::Openai),
        ("autogen", AgentFramework::Autogen),
        ("managed", AgentFramework::Managed),
        ("custom", AgentFramework::Custom),
        ("agent-framework", AgentFramework::Custom),
        ("", AgentFramework::Custom),
    ] {
        assert_eq!(parse_framework(name), framework, "{}", name);
    }
    for framework in [
        AgentFramework::Langchain,
        AgentFramework::Crewai,
        AgentFramework::Openai,
        AgentFramework::Autogen,
        AgentFramework::Managed,
        AgentFramework::Custom,
    ] {
        assert_eq!(parse_framework(framework_display(&framework)), framework);
    }
    assert_eq!(framework_display(&AgentFramework::Langchain), "langgraph");
    assert_eq!(framework_display(&AgentFramework::Openai), "openai-sdk");
    assert_eq!(parse_mode("external"), AgentMode::External);
    assert_eq!(parse_mode("managed"), AgentMode::Managed);
    assert_eq!(parse_mode("whatever"), AgentMode::Managed);
}

#[test]
fn guardrail_flags() {
    assert_eq!(
        guardrail_from_flag("content-filter:post"),
        Guardrail { kind: "content-filter".into(), stage: "post".into(), config: None }
    );
    assert_eq!(guardrail_from_flag("pii"), Guardrail { kind: "pii".into(), stage: "pre".into(), config: None });
    assert_eq!(guardrail_from_flag("a:b:c"), Guardrail { kind: "a".into(), stage: "b:c".into(), config: None });
    assert_eq!(guardrail_from_flag("x:"), Guardrail { kind: "x".into(), stage: "".into(), config: None });
}

#[test]
fn register_chooses_between_file_and_flags() {
    let mut args = register_args();
    assert!(args.uses_config());
    assert_eq!(args.config_path(), "agentoven.toml");
    args.name = Some("a".into());
    assert!(!args.uses_config());
    args.config = Some("other.toml".into());
    assert!(args.uses_config());
    assert_eq!(args.config_path(), "other.toml");
    let mut args = register_args();
    args.model_provider = Some("p".into());
    assert!(!args.uses_config());
    assert_eq!(args.builder().unwrap_err(), "Agent name required");
}

#[test]
fn register_builds_the_agent_from_flags() {
    let mut args = register_args();
    args.name = Some("helper".into());
    args.description = Some("helps".into());
    args.mode = "external".into();
    args.model_provider = Some("openai".into());
    args.model_name = Some("gpt".into());
    args.backup_provider = Some("bp".into());
    args.backup_model = Some("bm".into());
    args.system_prompt = Some("be kind".into());
    args.max_turns = Some(9);
    args.skill = vec!["a".into(), "b".into()];
    args.tag = vec!["x".into()];
    args.a2a_endpoint = Some("https://e".into());
    args.guardrail = vec!["pii".into(), "budget:post".into()];
    let built = args.builder().unwrap().build_with("id".into(), now());
    let expected = AgentBuilder::new("helper")
        .description("helps")
        .framework(AgentFramework::Managed)
        .mode(AgentMode::External)
        .model_provider("openai")
        .model_name("gpt")
        .backup_provider("bp")
        .backup_model("bm")
        .system_prompt("be kind")
        .max_turns(9)
        .skill("a")
        .skill("b")
        .tag("x")
        .a2a_endpoint("https://e")
        .guardrail(Guardrail { kind: "pii".into(), stage: "pre".into(), config: None })
        .guardrail(Guardrail { kind: "budget".into(), stage: "post".into(), config: None })
        .build_with("id".into(), now());
    assert_eq!(built, expected);

    let mut bare = register_args();
    bare.name = Some("n".into());
    bare.framework = Some("crewai".into());
    let built = bare.builder().unwrap().build_with("id".into(), now());
    assert_eq!(built, AgentBuilder::new("n").framework(AgentFramework::Crewai).build_with("id".into(), now()));
}

#[test]
fn agent_from_a_configuration_file() {
    let config = parse_toml(
        r#"
[agent]
name = "summarizer"
version = "2.1.0"
description = "Summarizes"
framework = "langgraph"
mode = "external"
model_provider = "azure-openai"
model_name = "gpt-4o"
backup_provider = "other"
backup_model = "small"
system_prompt = "Summarize."
max_turns = 12
a2a_endpoint = "https://agent.example.com/a2a"

[[ingredients.models]]
name = "gpt-4o"
provider = "azure-openai"
role = "primary"

[[ingredients.models]]
provider = "backup"

[[ingredients.tools]]
name = "document-reader"
protocol = "mcp"
endpoint = "http://localhost:3001"
"#,
    )
    .unwrap();
    let built = agent_from_config(&config).unwrap().build_with("id".into(), now());
    let expected = AgentBuilder::new("summarizer")
        .version("2.1.0")
        .description("Summarizes")
        .framework(AgentFramework::Langchain)
        .mode(AgentMode::External)
        .model_provider("azure-openai")
        .model_name("gpt-4o")
        .backup_provider("other")
        .backup_model("small")
        .system_prompt("Summarize.")
        .max_turns(12)
        .a2a_endpoint("https://agent.example.com/a2a")
        .ingredient(Ingredient::model("gpt-4o").provider("azure-openai").role("primary").build())
        .ingredient(Ingredient::model("unknown").provider("backup").build())
        .ingredient(Ingredient::tool("document-reader").provider("mcp").build())
        .build_with("id".into(), now());
    assert_eq!(built, expected);
}

#[test]
fn configuration_file_defaults_and_flaws() {
    let minimal = parse_toml("[agent]\nname = \"a\"\n").unwrap();
    let built = agent_from_config(&minimal).unwrap().build_with("id".into(), now());
    assert_eq!(built, AgentBuilder::new("a").build_with("id".into(), now()));
    assert_eq!(
        agent_from_config(&parse_toml("[bake]\nreplicas = 1\n").unwrap()).unwrap_err(),
        "Missing [agent] section in agentoven.toml"
    );
    assert_eq!(
        agent_from_config(&parse_toml("[agent]\nversion = \"1\"\n").unwrap()).unwrap_err(),
        "Missing agent.name in agentoven.toml"
    );
    assert_eq!(
        agent_from_config(&parse_toml("[agent]\nname = 5\n").unwrap()).unwrap_err(),
        "Missing agent.name in agentoven.toml"
    );
    assert_eq!(
        agent_from_config(&parse_toml("agent = \"x\"\n").unwrap()).unwrap_err(),
        "Missing agent.name in agentoven.toml"
    );
    let odd = parse_toml("[agent]\nname = \"a\"\nmax_turns = 1.5\nmode = 3\n[ingredients]\nmodels = \"none\"\n").unwrap();
    let built = agent_from_config(&odd).unwrap().build_with("id".into(), now());
    assert_eq!(built, AgentBuilder::new("a").build_with("id".into(), now()));
    assert!(parse_toml("[agent\nname=").is_err());
}

#[test]
fn the_file_that_init_writes_describes_the_agent() {
    let text = config_text("my-agent", "crewai");
    assert!(text.starts_with("# AgentOven project configuration\n"));
    assert!(text.contains("[agent]\nname = \"my-agent\"\nversion = \"0.1.0\"\ndescription = \"\"\nframework = \"crewai\"\n"));
    assert!(text.ends_with("# kitchen = \"default\"\n"));
    let config = parse_toml(&text).unwrap();
    let built = agent_from_config(&config).unwrap().build_with("id".into(), now());
    assert_eq!(built, AgentBuilder::new("my-agent").framework(AgentFramework::Crewai).build_with("id".into(), now()));
    assert_eq!(
        system_prompt_text("bot"),
        "You are bot, an AI agent.\n\nDescribe this agent's purpose and behavior here.\n"
    );
    assert_eq!(GITIGNORE, ".agentoven/\n*.pyc\n__pycache__/\n.env\n");
    let args = InitArgs { path: ".".into(), name: None, framework: "custom".into() };
    assert_eq!(args.project_name(Some("dir")), "dir");
    assert_eq!(args.project_name(None), "my-agent");
    let named = InitArgs { path: ".".into(), name: Some("n".into()), framework: "custom".into() };
    assert_eq!(named.project_name(Some("dir")), "n");
}

#[test]
fn name_and_version_of_an_agent() {
    assert_eq!(GetArgs { name: "summarizer@1.0.0".into() }.target(), ("summarizer", Some("1.0.0")));
    assert_eq!(GetArgs { name: "summarizer".into() }.target(), ("summarizer", None));
    assert_eq!(GetArgs { name: "a@b@c".into() }.target(), ("a", Some("b@c")));
    assert_eq!(GetArgs { name: "@1".into() }.target(), ("", Some("1")));
}

#[test]
fn update_and_recook_bodies() {
    let mut update = UpdateArgs {
        name: "a".into(),
        description: Some("d".into()),
        model_provider: None,
        model_name: Some("m".into()),
        system_prompt: None,
        max_turns: Some(4),
        backup_provider: None,
        backup_model: Some("b".into()),
        json: None,
    };
    assert_eq!(
        update.body().unwrap().to_text().unwrap(),
        r#"{"backup_model":"b","description":"d","max_turns":4,"model_name":"m"}"#
    );
    update.json = Some(r#"{"raw": true}"#.into());
    assert_eq!(update.body().unwrap().to_text().unwrap(), r#"{"raw":true}"#);
    update.json = Some("{oops".into());
    assert!(update.body().is_err());
    let recook = RecookArgs { name: "a".into(), model_provider: Some("p".into()), model_name: None, system_prompt: Some("s".into()), json: None };
    assert_eq!(recook.body().unwrap().to_text().unwrap(), r#"{"model_provider":"p","system_prompt":"s"}"#);
    let nothing = RecookArgs { name: "a".into(), model_provider: None, model_name: None, system_prompt: None, json: None };
    assert_eq!(nothing.body().unwrap().to_text().unwrap(), "{}");
    let settings = UpdateSettingsArgs {
        max_template_size: Some(u64::MAX),
        trace_ttl: Some("7d".into()),
        audit_ttl: None,
        max_items: Some(10),
        archive: Some(false),
        json: None,
    };
    assert_eq!(
        settings.body().unwrap().to_text().unwrap(),
        r#"{"archive_enabled":false,"max_items":10,"max_template_size":18446744073709551615,"trace_ttl":"7d"}"#
    );
}

#[test]
fn variables_of_an_invocation() {
    let mut args = InvokeArgs { name: "a".into(), message: "m".into(), variables: None, thinking: false };
    assert_eq!(args.parsed_variables(), Ok(None));
    args.variables = Some(r#"{"x": 1}"#.into());
    assert_eq!(args.parsed_variables().unwrap().unwrap().to_text().unwrap(), r#"{"x":1}"#);
    args.variables = Some("x=1".into());
    assert!(args.parsed_variables().is_err());
}

#[test]
fn what_lists_and_dialogues_show() {
    let agent = |provider: &str, model: &str| {
        AgentBuilder::new("a").model_provider(provider).model_name(model).build_with("i".into(), now())
    };
    assert_eq!(provider_column(&agent("", "m")), "-");
    assert_eq!(provider_column(&agent("openai", "gpt-4o")), "openai/gpt-4o");
    assert_eq!(provider_column(&agent("azure-openai", "gpt-4o")), "azure-openai/g\u{2026}");
    assert_eq!(provider_column(&agent("123456789012", "34")), "123456789012/34");
    assert_eq!(playground_url("helper"), "http://localhost:8080/agents/helper/a2a");
    for line in ["/exit", " /quit ", "/q\n"] {
        assert!(is_exit_command(line), "{:?}", line);
    }
    for line in ["exit", "/Exit", "/exit now", ""] {
        assert!(!is_exit_command(line), "{:?}", line);
    }
    for line in ["quit", "EXIT", "  Quit  ", "exit\n"] {
        assert!(is_quit(line), "{:?}", line);
    }
    for line in ["/quit", "quit now", ""] {
        assert!(!is_quit(line), "{:?}", line);
    }

    let mut task = Task::started("t".into(), now(), now());
    assert_eq!(answer_text(&task), "(no response yet \u{2014} task is processing)");
    task.messages.push(Message::user_text("question"));
    task.messages.push(Message::agent_text("answer"));
    assert_eq!(answer_text(&task), "answer");
    task.artifacts.push(Artifact::text("a", "first"));
    assert_eq!(answer_text(&task), "first");
    task.artifacts.push(Artifact::data("d", Json::Null));
    task.artifacts.push(Artifact::text("b", "third"));
    assert_eq!(answer_text(&task), "first\n\nthird");

    let reply = Json::parse(r#"{"content": "c", "message": "m", "reply": 5}"#).unwrap();
    assert_eq!(reply_text(&reply, "reply", "content", "message"), Some("c"));
    assert_eq!(reply_text(&reply, "message", "content", "reply"), Some("m"));
    assert_eq!(reply_text(&reply, "a", "b", "final_answer"), None);
    assert_eq!(started_session_id(&Json::parse(r#"{"id": "s-1"}"#).unwrap()), "s-1");
    assert_eq!(started_session_id(&Json::parse(r#"{"id": 7}"#).unwrap()), "unknown");
    assert_eq!(kitchen_label(&Json::parse(r#"{"name": "main", "id": "k1"}"#).unwrap()), "main");
    assert_eq!(kitchen_label(&Json::parse(r#"{"id": "k1"}"#).unwrap()), "k1");
    assert_eq!(kitchen_label(&Json::empty_object()), "-");
    assert_eq!(switch_label(true), "\u{1f7e2} on");
    assert_eq!(switch_label(false), "\u{26aa} off");
    assert_eq!(short_time("2026-01-02T03:04:05.678Z"), "2026-01-02T03:04");
    assert_eq!(short_id("short"), "short");
    assert_eq!(short_id(&"x".repeat(40)), "x".repeat(34));
    assert_eq!(chunk_preview(&"y".repeat(121)), format!("{}...", "y".repeat(120)));
    assert_eq!(chunk_preview(&"y".repeat(120)), "y".repeat(120));
    assert_eq!(verdict(true), "approved");
    assert_eq!(verdict(false), "rejected");
    assert_eq!(verdict_action(true), "Approving");
    assert_eq!(verdict_action(false), "Rejecting");
    assert!(status_line(Some(3)).contains("connected"));
    assert!(status_line(None).contains("unreachable"));
    assert!(BANNER.contains("AgentOven"));
}

#[test]
fn provider_tool_prompt_and_rag_bodies() {
    let add = provider::AddArgs { name: "mine".into(), kind: "openai".into(), api_key: Some("k".into()), base_url: None, model: Some("gpt".into()) };
    assert_eq!(add.body().to_text().unwrap(), r#"{"api_key":"k","default_model":"gpt","kind":"openai","name":"mine"}"#);
    let update = provider::UpdateArgs { name: "mine".into(), api_key: None, base_url: Some("https://b".into()), model: None, enabled: Some(false) };
    assert_eq!(update.body().to_text().unwrap(), r#"{"base_url":"https://b","enabled":false}"#);

    let add = tool::AddArgs { name: "t".into(), description: Some("d".into()), schema: Some(r#"{"type": "object"}"#.into()), schema_file: Some("f".into()) };
    let schema = add.schema(Some("ignored")).unwrap();
    assert_eq!(add.body(schema).to_text().unwrap(), r#"{"description":"d","input_schema":{"type":"object"},"name":"t"}"#);
    let from_file = tool::AddArgs { name: "t".into(), description: None, schema: None, schema_file: Some("f".into()) };
    assert_eq!(from_file.schema(Some("[1]")).unwrap(), Some(Json::Array(vec![Json::from_i64(1)])));
    assert_eq!(from_file.schema(None).unwrap(), None);
    assert!(from_file.schema(Some("nope")).is_err());
    let none = tool::AddArgs { name: "t".into(), description: None, schema: None, schema_file: None };
    assert_eq!(none.schema(Some("[1]")).unwrap(), None);
    assert_eq!(none.body(None).to_text().unwrap(), r#"{"name":"t"}"#);
    let update = tool::UpdateArgs { name: "t".into(), description: None, schema: Some("{}".into()) };
    assert_eq!(update.body().unwrap().to_text().unwrap(), r#"{"input_schema":{}}"#);
    let broken = tool::UpdateArgs { name: "t".into(), description: None, schema: Some("{".into()) };
    assert!(broken.body().is_err());
    assert_eq!(parse_opt_json(None), Ok(None));

    let add = prompt::AddArgs { name: "p".into(), template: Some("Hi {{name}}".into()), from_file: Some("f".into()), variables: Some("name, tone ,x".into()) };
    assert_eq!(add.source(), Ok(TemplateSource::Inline("Hi {{name}}".into())));
    assert_eq!(add.body("Hi {{name}}").to_text().unwrap(), r#"{"name":"p","template":"Hi {{name}}","variables":["name","tone","x"]}"#);
    let from_file = prompt::AddArgs { name: "p".into(), template: None, from_file: Some("f.txt".into()), variables: None };
    assert_eq!(from_file.source(), Ok(TemplateSource::File("f.txt".into())));
    assert_eq!(from_file.body("t").to_text().unwrap(), r#"{"name":"p","template":"t"}"#);
    let nothing = prompt::AddArgs { name: "p".into(), template: None, from_file: None, variables: None };
    assert_eq!(nothing.source(), Err("Provide --template or --from-file".to_string()));
    let update = prompt::UpdateArgs { name: "p".into(), template: None, from_file: None };
    assert_eq!(update.source(), None);
    assert_eq!(update.body(&None).to_text().unwrap(), "{}");
    assert_eq!(update.body(&Some("new".into())).to_text().unwrap(), r#"{"template":"new"}"#);
    assert_eq!(choose_source(&None, &Some("f".into())), Some(TemplateSource::File("f".into())));

    let query = QueryArgs { query: "q".into(), strategy: "naive".into(), top_k: 5, sources: true };
    assert_eq!(query.body().to_text().unwrap(), r#"{"query":"q","strategy":"naive","top_k":5}"#);
    let ingest = IngestArgs { path: "docs".into(), chunk_size: 1000, chunk_overlap: 200, collection: "default".into() };
    let docs = vec![document(Some("a.md"), "A"), document(None, "B")];
    assert_eq!(
        ingest.body(&docs).to_text().unwrap(),
        r#"{"chunk_overlap":200,"chunk_size":1000,"collection":"default","documents":[{"content":"A","title":"a.md"},{"content":"B","title":"file"}]}"#
    );
}

#[test]
fn recipe_sources_and_inputs() {
    assert_eq!(check_source("r.toml", "[recipe]\nname = \"x\"\n"), Ok(()));
    assert!(check_source("r.toml", "{\"name\": \"x\"}").is_err());
    assert_eq!(check_source("r.json", "{\"name\": \"x\"}"), Ok(()));
    assert!(check_source("r.json", "[recipe]\nname = \"x\"\n").is_err());
    assert_eq!(check_source("toml", "[1]"), Ok(()));
    let mut args = RecipeBakeArgs { name: "r".into(), input: Some(r#"{"a": 1}"#.into()), input_file: Some("f".into()) };
    assert_eq!(args.input(Some("[2]")).unwrap().to_text().unwrap(), r#"{"a":1}"#);
    args.input = None;
    assert_eq!(args.input(Some("[2]")).unwrap().to_text().unwrap(), "[2]");
    assert!(args.input(Some("nope")).is_err());
    assert_eq!(args.input(None).unwrap().to_text().unwrap(), "{}");
    args.input_file = None;
    assert_eq!(args.input(Some("[2]")).unwrap().to_text().unwrap(), "{}");
}

#[test]
fn dashboard_addresses() {
    assert_eq!(dashboard_url(8080), "http://localhost:8080");
    assert_eq!(health_url(8080), "http://localhost:8080/health");
    assert_eq!(health_url(0), "http://localhost:0/health");
    assert_eq!(dashboard_url(u16::MAX), "http://localhost:65535");
    assert_eq!(
        server_candidates(),
        vec!["control-plane/cmd/server", "../control-plane/cmd/server", "../../control-plane/cmd/server"]
    );
    assert!(DashboardArgs { port: 1, no_open: false, server_bin: None }.opens_browser());
    assert!(!DashboardArgs { port: 1, no_open: true, server_bin: None }.opens_browser());
}

#[test]
fn output_formats_by_name() {
    assert_eq!(OutputFormat::default(), OutputFormat::Text);
    assert_eq!(OutputFormat::from_name("json"), Some(OutputFormat::Json));
    assert_eq!(OutputFormat::from_name("table"), Some(OutputFormat::Table));
    assert_eq!(OutputFormat::from_name("text"), Some(OutputFormat::Text));
    assert_eq!(OutputFormat::from_name("yaml"), None);
}

#[test]
fn a_date_in_a_configuration_is_not_taken_for_a_name() {
    let dated = parse_toml("[agent]\nname = 1979-05-27T07:32:00Z\n").unwrap();
    assert!(agent_from_config(&dated).is_err());
    let described = parse_toml("[agent]\nname = \"a\"\ndescription = 1979-05-27\n").unwrap();
    let built = agent_from_config(&described).unwrap().build_with("id".into(), now());
    assert_eq!(built, AgentBuilder::new("a").build_with("id".into(), now()));
}

#[test]
fn toml_values_become_trees() {
    let j = parse_toml("s = \"x\"\ni = -4\nf = 1.5\nb = true\nd = 1979-05-27T07:32:00Z\na = [1, \"two\"]\n[t]\nk = \"v\"\n").unwrap();
    assert_eq!(j.str_at("s"), Some("x"));
    assert_eq!(j.int_at("i"), Some(-4));
    assert_eq!(j.get("f").unwrap().to_text().unwrap(), "1.5");
    assert_eq!(j.get("b").unwrap().as_bool(), Some(true));
    assert_eq!(j.str_at("d"), None);
    assert_eq!(j.get("d").unwrap().as_str(), None);
    assert_eq!(j.get("d").unwrap().as_object().unwrap().len(), 1);
    assert_eq!(j.get("d").unwrap().as_object().unwrap()[0].1.as_str(), Some("1979-05-27T07:32:00Z"));
    assert_eq!(j.array_at("a").unwrap().len(), 2);
    assert_eq!(j.get("t").unwrap().str_at("k"), Some("v"));
}

fn tree(text: &str) -> Json {
    Json::parse(text).unwrap()
}

#[test]
fn a_test_is_one_request_or_a_dialogue() {
    let mut args = TestArgs { name: "a".into(), message: Some("hi".into()), thinking: false, interactive: false };
    assert_eq!(args.one_shot(), Some("hi"));
    args.interactive = true;
    assert_eq!(args.one_shot(), None);
    args.message = None;
    assert_eq!(args.one_shot(), None);
    args.interactive = false;
    assert_eq!(args.one_shot(), None);
}

#[test]
fn what_a_dialogue_does_with_a_line() {
    assert_eq!(dialogue_step(None, " /exit "), DialogueAction::Leave);
    assert_eq!(dialogue_step(Some("t"), "/quit"), DialogueAction::Leave);
    assert_eq!(dialogue_step(Some("t"), "/q\n"), DialogueAction::Leave);
    assert_eq!(dialogue_step(None, ""), DialogueAction::Skip);
    assert_eq!(dialogue_step(Some("t"), " \t "), DialogueAction::Skip);
    assert_eq!(dialogue_step(None, "  hello there "), DialogueAction::Start { text: "hello there".into() });
    assert_eq!(
        dialogue_step(Some("t-1"), "more\n"),
        DialogueAction::Continue { task_id: "t-1".into(), text: "more".into() }
    );
    assert_eq!(dialogue_step(None, "/exit now"), DialogueAction::Start { text: "/exit now".into() });

    let task = Task::started("t-9".into(), now(), now());
    assert_eq!(dialogue_task(None, &Ok(task.clone())), Some("t-9".to_string()));
    assert_eq!(dialogue_task(Some("t-1".into()), &Ok(task)), Some("t-9".to_string()));
    let failed = Err(A2AError::Transport("down".into()));
    assert_eq!(dialogue_task(Some("t-1".into()), &failed), Some("t-1".to_string()));
    assert_eq!(dialogue_task(None, &failed), None);
}

#[test]
fn what_the_replies_of_the_retrieval_pipeline_hold() {
    assert_eq!(query_answer(&tree(r#"{"answer":"a","response":"r"}"#)), Some("a"));
    assert_eq!(query_answer(&tree(r#"{"answer":5,"response":"r"}"#)), Some("r"));
    assert_eq!(query_answer(&tree(r#"{"other":"x"}"#)), None);
    assert_eq!(query_answer(&tree("[]")), None);

    assert_eq!(query_sources(&tree(r#"{"sources":[1],"documents":[1,2],"context":[]}"#)).unwrap().len(), 1);
    assert_eq!(query_sources(&tree(r#"{"sources":"no","documents":[1,2],"context":[]}"#)).unwrap().len(), 2);
    assert_eq!(query_sources(&tree(r#"{"context":[1,2,3]}"#)).unwrap().len(), 3);
    assert_eq!(query_sources(&tree(r#"{"context":{}}"#)), None);

    assert_eq!(source_title(&tree(r#"{"title":"t","source":"s"}"#)), "t");
    assert_eq!(source_title(&tree(r#"{"source":"s"}"#)), "s");
    assert_eq!(source_title(&tree(r#"{"title":null}"#)), "(untitled)");
    assert_eq!(source_chunk(&tree(r#"{"content":"c","text":"t"}"#)), Some("c"));
    assert_eq!(source_chunk(&tree(r#"{"text":"t"}"#)), Some("t"));
    assert_eq!(source_chunk(&tree(r#"{}"#)), None);

    assert_eq!(chunks_made(&tree(r#"{"chunks_created":4,"total_chunks":9}"#)), 4);
    assert_eq!(chunks_made(&tree(r#"{"chunks_created":-4,"total_chunks":9}"#)), 9);
    assert_eq!(chunks_made(&tree(r#"{"chunks_created":"4"}"#)), 0);
    assert_eq!(documents_taken(&tree(r#"{"documents_processed":2}"#), 7), 2);
    assert_eq!(documents_taken(&tree(r#"{"documents_processed":2.5}"#), 7), 7);
    assert_eq!(documents_taken(&tree(r#"{}"#), 7), 7);
}

#[test]
fn how_replies_name_runs_and_costs() {
    assert_eq!(run_id(&tree(r#"{"run_id":"r-1","task_id":"t-1"}"#)), Some("r-1"));
    assert_eq!(run_id(&tree(r#"{"task_id":"t-1"}"#)), Some("t-1"));
    assert_eq!(run_id(&tree(r#"{"run_id":7,"task_id":"t-1"}"#)), Some("?"));
    assert_eq!(run_id(&tree(r#"{"run_id":null}"#)), Some("?"));
    assert_eq!(run_id(&tree(r#"{"id":"x"}"#)), None);

    assert_eq!(cost_items(&tree(r#"{"items":[1,2]}"#)).unwrap().len(), 2);
    assert_eq!(cost_items(&tree(r#"[1,2,3]"#)).unwrap().len(), 3);
    assert_eq!(cost_items(&tree(r#"{"items":"none"}"#)), None);
    assert_eq!(cost_items(&tree(r#"{}"#)), None);
}
