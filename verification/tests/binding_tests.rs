use agentoven::binding::{
    ingredient_to_json, step_to_json, Agent, Ingredient, IngredientKind, Recipe, Step,
};
use agentoven::json::Json;
use agentoven::oven::AgentOvenClient;

fn oven() -> AgentOvenClient {
    AgentOvenClient::new("http://localhost:8080").unwrap()
}

fn tree(text: &str) -> Json {
    Json::parse(text).unwrap()
}

fn ingredient(kind: IngredientKind, name: &str) -> Ingredient {
    Ingredient { kind, name: name.into(), provider: None, role: None, protocol: None, required: true, config: None }
}

fn agent(ingredients: Vec<Ingredient>) -> Agent {
    Agent {
        name: "summarizer".into(),
        description: "Summarizes".into(),
        framework: "custom".into(),
        version: "0.1.0".into(),
        model_provider: String::new(),
        model_name: String::new(),
        mode: "managed".into(),
        system_prompt: None,
        ingredients,
    }
}

#[test]
fn a_bare_agent_of_a_binding_on_the_wire() {
    let body = oven().agent_to_json(&agent(vec![]));
    assert_eq!(
        body.to_text().unwrap(),
        r#"{"description":"Summarizes","framework":"custom","ingredients":[],"mode":"managed","name":"summarizer","version":"0.1.0"}"#
    );
    let mut quiet = agent(vec![]);
    quiet.mode = String::new();
    quiet.model_provider = "openai".into();
    quiet.model_name = "gpt-4o".into();
    quiet.system_prompt = Some(String::new());
    assert_eq!(
        oven().agent_to_json(&quiet),
        tree(r#"{"name":"summarizer","description":"Summarizes","framework":"custom","version":"0.1.0","ingredients":[],"model_provider":"openai","model_name":"gpt-4o"}"#)
    );
}

#[test]
fn a_model_gets_its_settings_from_the_agent_where_it_names_none() {
    let mut a = agent(vec![]);
    a.model_provider = "openai".into();
    a.model_name = "gpt-4o".into();
    let plain = ingredient(IngredientKind::Model, "mistral");
    assert_eq!(
        ingredient_to_json(&a, &plain),
        tree(r#"{"kind":"model","name":"mistral","required":true,"config":{"provider":"openai","model":"mistral"}}"#)
    );
    let mut nameless = ingredient(IngredientKind::Model, "");
    nameless.provider = Some("other".into());
    nameless.role = Some("fallback".into());
    nameless.required = false;
    assert_eq!(
        ingredient_to_json(&a, &nameless),
        tree(r#"{"kind":"model","name":"","required":false,"provider":"other","role":"fallback","config":{"provider":"other","model":"gpt-4o"}}"#)
    );
    let mut set = ingredient(IngredientKind::Model, "mistral");
    set.config = Some(r#"{"provider":"own","temperature":1}"#.into());
    assert_eq!(
        ingredient_to_json(&a, &set),
        tree(r#"{"kind":"model","name":"mistral","required":true,"config":{"provider":"own","temperature":1,"model":"mistral"}}"#)
    );
    let bare = agent(vec![]);
    assert_eq!(
        ingredient_to_json(&bare, &ingredient(IngredientKind::Model, "")),
        tree(r#"{"kind":"model","name":"","required":true,"config":{}}"#)
    );
}

#[test]
fn the_settings_of_a_tool_are_its_protocol_and_its_own() {
    let a = agent(vec![]);
    let mut tool = ingredient(IngredientKind::Tool, "reader");
    assert_eq!(ingredient_to_json(&a, &tool), tree(r#"{"kind":"tool","name":"reader","required":true}"#));
    tool.protocol = Some("mcp".into());
    assert_eq!(
        ingredient_to_json(&a, &tool),
        tree(r#"{"kind":"tool","name":"reader","required":true,"config":{"protocol":"mcp"}}"#)
    );
    tool.config = Some(r#"{"protocol":"a2a","depth":2}"#.into());
    assert_eq!(
        ingredient_to_json(&a, &tool),
        tree(r#"{"kind":"tool","name":"reader","required":true,"config":{"protocol":"a2a","depth":2}}"#)
    );
    tool.config = Some("[1]".into());
    assert_eq!(
        ingredient_to_json(&a, &tool),
        tree(r#"{"kind":"tool","name":"reader","required":true,"config":{"protocol":"mcp"}}"#)
    );
    tool.config = Some("not json".into());
    tool.protocol = None;
    assert_eq!(ingredient_to_json(&a, &tool), tree(r#"{"kind":"tool","name":"reader","required":true}"#));
    tool.config = Some("{}".into());
    assert_eq!(
        ingredient_to_json(&a, &tool),
        tree(r#"{"kind":"tool","name":"reader","required":true,"config":{}}"#)
    );
    assert_eq!(IngredientKind::Data.as_str(), "data");
    assert_eq!(IngredientKind::Prompt.as_str(), "prompt");
}

#[test]
fn a_system_prompt_becomes_an_ingredient_unless_there_is_a_prompt() {
    let mut a = agent(vec![ingredient(IngredientKind::Data, "kb")]);
    a.system_prompt = Some("Be brief.".into());
    assert_eq!(
        oven().agent_to_json(&a).get("ingredients").unwrap(),
        &tree(r#"[{"kind":"data","name":"kb","required":true},{"name":"system-prompt","kind":"prompt","config":{"text":"Be brief."},"required":true}]"#)
    );
    a.ingredients.push(ingredient(IngredientKind::Prompt, "system"));
    assert_eq!(
        oven().agent_to_json(&a).get("ingredients").unwrap(),
        &tree(r#"[{"kind":"data","name":"kb","required":true},{"kind":"prompt","name":"system","required":true}]"#)
    );
}

#[test]
fn a_recipe_of_a_binding_on_the_wire() {
    let plain = Step {
        name: "draft".into(),
        kind: "agent".into(),
        agent: Some("writer".into()),
        parallel: true,
        timeout: Some("30s".into()),
        human_gate: false,
        notify: vec![],
        depends_on: vec![],
    };
    let gate = Step {
        name: "review".into(),
        kind: "agent".into(),
        agent: None,
        parallel: false,
        timeout: None,
        human_gate: true,
        notify: vec!["ops".into(), "lead".into()],
        depends_on: vec!["draft".into()],
    };
    assert_eq!(
        step_to_json(&plain).to_text().unwrap(),
        r#"{"agent_ref":"writer","kind":"agent","name":"draft","timeout":"30s"}"#
    );
    assert_eq!(
        step_to_json(&gate),
        tree(r#"{"name":"review","kind":"human_gate","depends_on":["draft"],"notify":["ops","lead"]}"#)
    );
    let recipe = Recipe { name: "r".into(), description: "".into(), version: "0.1.0".into(), steps: vec![plain, gate] };
    assert_eq!(
        oven().recipe_to_json(&recipe),
        tree(r#"{"name":"r","description":"","version":"0.1.0","steps":[{"name":"draft","kind":"agent","agent_ref":"writer","timeout":"30s"},{"name":"review","kind":"human_gate","depends_on":["draft"],"notify":["ops","lead"]}]}"#)
    );
    let empty = Recipe { name: "e".into(), description: "d".into(), version: "1".into(), steps: vec![] };
    assert_eq!(oven().recipe_to_json(&empty), tree(r#"{"name":"e","description":"d","version":"1","steps":[]}"#));
}
