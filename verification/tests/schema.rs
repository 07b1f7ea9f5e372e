use auto_coordinator::decision::CLI_PROMPT_MIN_CHARS;
use auto_coordinator::json::Json;
use auto_coordinator::schema::{build_schema, AutoDriveSettings, SchemaFeatures};
use auto_coordinator::turn::{ReviewStrategy, ReviewTiming, TurnDescriptor, TurnMode};

const GUIDE: &str = "Pick a model.";

fn schema_for(active_agents: &Vec<String>, features: SchemaFeatures) -> Json {
    build_schema(active_agents, GUIDE, features)
}

fn has_text(list: &Json, text: &str) -> bool {
    list.as_array().expect("array").iter().any(|v| v.as_str() == Some(text))
}

fn texts(list: &Json) -> Vec<String> {
    list.as_array()
        .expect("array")
        .iter()
        .map(|v| v.as_str().expect("text").to_string())
        .collect()
}

fn model_enum(schema: &Json) -> Option<&Json> {
    schema
        .get("properties")
        .and_then(|v| v.get("agents"))
        .and_then(|v| v.get("properties"))
        .and_then(|v| v.get("list"))
        .and_then(|v| v.get("items"))
        .and_then(|v| v.get("properties"))
        .and_then(|v| v.get("models"))
        .and_then(|v| v.get("items"))
        .and_then(|v| v.get("enum"))
}

#[test]
fn turn_descriptor_defaults_to_normal_mode() {
    let descriptor = TurnDescriptor::default();
    assert_eq!(descriptor.mode, TurnMode::Normal);
    assert!(!descriptor.read_only);
    assert!(descriptor.complexity.is_none());
    assert!(descriptor.agent_preferences.is_none());
    assert!(descriptor.review_strategy.is_none());
}

#[test]
fn reviews_follow_turns_by_default() {
    let strategy = ReviewStrategy::default();
    assert_eq!(strategy.timing, ReviewTiming::PostTurn);
    assert!(strategy.custom_prompt.is_none());
    assert!(strategy.scope_hint.is_none());
    assert_eq!(ReviewTiming::default(), ReviewTiming::PostTurn);
    assert_eq!(TurnMode::default(), TurnMode::Normal);
}

#[test]
fn schema_includes_prompt_and_agents() {
    let active_agents = vec!["codex-plan".to_string(), "codex-research".to_string()];
    let schema = schema_for(&active_agents, SchemaFeatures::default());
    let props = schema.get("properties").expect("schema properties");
    assert!(props.get("goal").is_none());
    assert!(props.get("status_title").is_some(), "status_title property missing");
    assert!(props.get("status_sent_to_user").is_some(), "status_sent_to_user property missing");
    assert!(props.get("prompt_sent_to_cli").is_some(), "prompt_sent_to_cli property missing");
    assert!(props.get("input_required").is_some(), "input_required property missing");
    assert!(props.get("agents").is_some(), "agents property missing");
    assert!(props.get("code_review").is_none());
    assert!(props.get("cross_check").is_none());
    assert!(props.get("progress").is_none());

    let schema_required = schema.get("required").expect("root required");
    assert!(has_text(schema_required, "status_title"));
    assert!(has_text(schema_required, "status_sent_to_user"));
    assert!(has_text(schema_required, "prompt_sent_to_cli"));

    let agents_obj = props.get("agents").expect("agents schema object");
    let agents_required = agents_obj.get("required").expect("agents required");
    assert!(has_text(agents_required, "timing"));
    assert!(has_text(agents_required, "list"));
    assert!(!has_text(agents_required, "models"));

    let list_items_schema = agents_obj
        .get("properties")
        .and_then(|obj| obj.get("list"))
        .and_then(|obj| obj.get("items"))
        .expect("agents.list items");
    let item_props = list_items_schema.get("properties").expect("agents.list item properties");
    let models_schema = item_props.get("models").expect("agents.list item models schema");
    assert_eq!(models_schema.get("type").and_then(|v| v.as_str()), Some("array"));
    let enum_values = models_schema
        .get("items")
        .and_then(|obj| obj.get("enum"))
        .expect("models enum values");
    assert_eq!(texts(enum_values), active_agents);

    assert!(props.get("code_review").is_none());
    assert!(props.get("cross_check").is_none());
}

#[test]
fn schema_sets_prompt_sent_to_cli_min_but_no_max_length() {
    let active_agents: Vec<String> = Vec::new();
    let schema = schema_for(&active_agents, SchemaFeatures::default());
    let prompt_schema = schema
        .get("properties")
        .and_then(|obj| obj.get("prompt_sent_to_cli"))
        .expect("prompt_sent_to_cli schema");

    assert!(
        matches!(
            prompt_schema.get("minLength"),
            Some(Json::Number(n)) if *n == CLI_PROMPT_MIN_CHARS.to_string()
        ),
        "schema minLength should match CLI_PROMPT_MIN_CHARS"
    );
    assert!(
        prompt_schema.get("maxLength").is_none(),
        "schema should omit maxLength to avoid provider truncation"
    );
}

#[test]
fn schema_defaults_to_builtin_agents_enum() {
    let builtin = vec!["code-gpt-5.1".to_string(), "gemini".to_string(), "qwen".to_string()];
    let schema = schema_for(&builtin, SchemaFeatures::default());
    let item_enum = model_enum(&schema).expect("models enum");
    assert_eq!(texts(item_enum), builtin);
}

#[test]
fn schema_omits_agents_when_disabled() {
    let active_agents = vec!["codex-plan".to_string()];
    let schema = schema_for(
        &active_agents,
        SchemaFeatures { include_agents: false, ..SchemaFeatures::default() },
    );
    let props = schema.get("properties").expect("schema properties");
    assert!(props.get("agents").is_none());
    let required = schema.get("required").expect("required array");
    assert!(!has_text(required, "agents"));
    assert!(!has_text(required, "goal"));
}

#[test]
fn schema_marks_goal_required_with_bootstrap_description() {
    let mut features = SchemaFeatures::default();
    features.include_goal_field = true;
    let schema = schema_for(&Vec::new(), features);
    let required = schema.get("required").expect("required array");
    assert!(has_text(required, "goal"), "goal should be required");

    let props = schema.get("properties").expect("schema properties");
    let goal = props.get("goal").expect("goal schema");
    let description =
        goal.get("description").and_then(|v| v.as_str()).expect("goal description");
    assert!(description.contains("primary coding goal"));
}

#[test]
fn schema_lists_no_models_where_none_are_known() {
    let schema = schema_for(&Vec::new(), SchemaFeatures::default());
    assert!(model_enum(&schema).is_none());
    let models = schema
        .get("properties")
        .and_then(|v| v.get("agents"))
        .and_then(|v| v.get("properties"))
        .and_then(|v| v.get("list"))
        .and_then(|v| v.get("items"))
        .and_then(|v| v.get("properties"))
        .and_then(|v| v.get("models"))
        .expect("models");
    assert_eq!(models.get("description").and_then(|v| v.as_str()), Some(GUIDE));
}

#[test]
fn every_required_field_is_described() {
    for include_agents in [true, false] {
        for include_goal_field in [true, false] {
            let schema =
                schema_for(&Vec::new(), SchemaFeatures { include_agents, include_goal_field });
            let props = schema.get("properties").unwrap();
            for field in texts(schema.get("required").unwrap()) {
                assert!(props.get(&field).is_some(), "{field} is not described");
            }
            assert!(matches!(schema.get("additionalProperties"), Some(Json::Bool(false))));
            assert_eq!(schema.get("title").and_then(|v| v.as_str()), Some("Coordinator Turn"));
        }
    }
}

#[test]
fn limits_are_written_out() {
    let schema =
        schema_for(&Vec::new(), SchemaFeatures { include_agents: true, include_goal_field: true });
    let props = schema.get("properties").unwrap();
    let number = |value: Option<&Json>| match value {
        Some(Json::Number(n)) => n.clone(),
        other => panic!("expected a number, got {other:?}"),
    };
    assert_eq!(number(props.get("goal").unwrap().get("maxLength")), "200");
    assert_eq!(number(props.get("status_title").unwrap().get("maxLength")), "80");
    assert_eq!(number(props.get("status_sent_to_user").unwrap().get("maxLength")), "600");
    let list = props.get("agents").unwrap().get("properties").unwrap().get("list").unwrap();
    assert_eq!(number(list.get("maxItems")), "4");
    let entry = list.get("items").unwrap().get("properties").unwrap();
    assert_eq!(number(entry.get("context").unwrap().get("maxLength")), "1500");
    assert_eq!(number(entry.get("prompt").unwrap().get("minLength")), "8");
    assert_eq!(
        texts(list.get("items").unwrap().get("required").unwrap()),
        vec!["prompt", "context", "write", "models"]
    );
    assert_eq!(
        texts(props.get("finish_status").unwrap().get("enum").unwrap()),
        vec!["continue", "finish_success", "finish_failed"]
    );
}

#[test]
fn features_follow_the_settings() {
    let settings = AutoDriveSettings { agents_enabled: false, coordinator_turn_cap: 9 };
    let features = SchemaFeatures::from_auto_settings(&settings);
    assert!(!features.include_agents);
    assert!(!features.include_goal_field);
}

#[test]
fn values_can_be_copied_and_searched() {
    let value = Json::Object(vec![
        ("a".to_string(), Json::Array(vec![Json::Null, Json::Bool(true)])),
        ("b".to_string(), Json::Text("t".to_string())),
    ]);
    let copy = value.clone();
    assert_eq!(copy.get("a").unwrap().as_array().unwrap().len(), 2);
    assert_eq!(copy.get("b").unwrap().as_str(), Some("t"));
    assert!(copy.get("c").is_none());
    assert!(Json::Null.get("a").is_none());
    assert!(Json::Null.as_str().is_none());
}
