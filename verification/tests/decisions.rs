use auto_coordinator::convert::{
    agent_action_to_event, agent_action_to_event_with_write_guard, cli_action_to_event,
    convert_decision_legacy, convert_decision_new,
};
use auto_coordinator::decision::{
    clean_required, ensure_cli_prompt_length, parse_finish_status, AgentAction, AgentPayload,
    AgentsField, AgentsPayload, AgentsTimingValue, CliAction, CoordinatorDecisionLegacy,
    CoordinatorDecisionNew, DecisionError, ParsedCoordinatorDecision, ProgressPayload,
    CLI_PROMPT_MAX_CHARS,
};
use auto_coordinator::events::{AutoCoordinatorStatus, AutoTurnAgentsTiming};
use auto_coordinator::extract::extract_first_json_object;
use auto_coordinator::parse::{
    accept_part, choose_json, decision_json, parse_decision, snippet, DecodedDecision, JsonAttempt,
};
use auto_coordinator::prompts::build_initial_planning_seed;
use auto_coordinator::recovery::{
    classify_recoverable_decision_error, indent_lines, push_unique_guidance,
    summarize_json_for_debug, untick_str,
};
use serde_json::Value;

fn text(value: Option<&Value>) -> Option<String> {
    value.and_then(|v| v.as_str()).map(|s| s.to_string())
}

fn names(value: Option<&Value>) -> Option<Vec<String>> {
    let list = value?.as_array()?;
    Some(list.iter().filter_map(|v| v.as_str()).map(|s| s.to_string()).collect())
}

fn agent(value: &Value) -> Option<AgentPayload> {
    Some(AgentPayload {
        prompt: text(value.get("prompt"))?,
        context: text(value.get("context")),
        write: value.get("write").and_then(|v| v.as_bool()),
        models: names(value.get("models")),
    })
}

fn agents(value: Option<&Value>) -> Option<AgentsField> {
    let value = value?;
    if let Some(list) = value.as_array() {
        return Some(AgentsField::List(list.iter().filter_map(agent).collect()));
    }
    let requests = ["list", "agents", "entries", "requests"]
        .iter()
        .filter_map(|key| value.get(*key))
        .filter_map(|v| v.as_array())
        .next()
        .map(|list| list.iter().filter_map(agent).collect())
        .unwrap_or_default();
    let timing = match text(value.get("timing")).as_deref() {
        Some("parallel") => Some(AgentsTimingValue::Parallel),
        Some("blocking") => Some(AgentsTimingValue::Blocking),
        _ => None,
    };
    Some(AgentsField::Object(AgentsPayload { timing, models: names(value.get("models")), requests }))
}

fn decode(json: &str) -> DecodedDecision {
    let value: Value = serde_json::from_str(json).expect("compact JSON");
    match text(value.get("finish_status")) {
        Some(finish_status) => DecodedDecision::New(CoordinatorDecisionNew {
            finish_status,
            input_required: value.get("input_required").and_then(|v| v.as_bool()).unwrap_or(false),
            status_title: text(value.get("status_title")),
            status_sent_to_user: text(value.get("status_sent_to_user")),
            progress: value.get("progress").map(|p| ProgressPayload {
                past: text(p.get("past")),
                current: text(p.get("current")),
            }),
            prompt_sent_to_cli: text(value.get("prompt_sent_to_cli")),
            agents: agents(value.get("agents")),
            goal: text(value.get("goal")),
        }),
        None => DecodedDecision::Neither {
            new_err: "missing field `finish_status`".to_string(),
            legacy_err: "missing field `finish_status`".to_string(),
        },
    }
}

fn parse(raw: &str) -> Result<ParsedCoordinatorDecision, DecisionError> {
    let json = decision_json(raw)?;
    parse_decision(decode(&json), &json)
}

fn plain(finish_status: &str, prompt: Option<&str>) -> CoordinatorDecisionNew {
    CoordinatorDecisionNew {
        finish_status: finish_status.to_string(),
        input_required: false,
        status_title: None,
        status_sent_to_user: None,
        progress: None,
        prompt_sent_to_cli: prompt.map(|s| s.to_string()),
        agents: None,
        goal: None,
    }
}

fn request(prompt: &str) -> AgentPayload {
    AgentPayload { prompt: prompt.to_string(), context: None, write: None, models: None }
}

#[test]
fn parse_decision_new_schema() {
    let raw = r#"{
            "finish_status": "continue",
            "status_title": "Dispatching fix",
            "status_sent_to_user": "Ran smoke tests while validating the fix.",
            "prompt_sent_to_cli": "Apply the patch for the failing test",
            "agents": {
                "timing": "blocking",
                "list": [
                    {"prompt": "Draft alternative fix", "write": false, "context": "Consider module B", "models": ["codex-plan"]}
                ]
            }
        }"#;

    let decision = parse(raw).expect("parse new schema decision");
    assert_eq!(decision.status, AutoCoordinatorStatus::Continue);
    assert_eq!(
        decision.status_sent_to_user.as_deref(),
        Some("Ran smoke tests while validating the fix.")
    );
    assert_eq!(decision.status_title.as_deref(), Some("Dispatching fix"));

    let cli = decision.cli.expect("cli action expected");
    assert_eq!(cli.prompt, "Apply the patch for the failing test");
    assert!(cli.context.is_none());

    assert_eq!(decision.agents_timing, Some(AutoTurnAgentsTiming::Blocking));
    assert_eq!(decision.agents.len(), 1);
    let agent = &decision.agents[0];
    assert_eq!(agent.prompt, "Draft alternative fix");
    assert_eq!(agent.write, Some(false));
    assert_eq!(agent.models, Some(vec!["codex-plan".to_string()]));
}

#[test]
fn parse_decision_new_schema_array_backcompat() {
    let raw = r#"{
            "finish_status": "continue",
            "status_title": "Running tests",
            "status_sent_to_user": "Outlined fix before execution.",
            "prompt_sent_to_cli": "Run cargo test",
            "agents": [
                {"prompt": "Investigate benchmark", "write": false}
            ]
        }"#;

    let decision = parse(raw).expect("parse array-style agents");
    assert_eq!(decision.status, AutoCoordinatorStatus::Continue);
    assert!(decision.cli.is_some());
    assert_eq!(decision.agents.len(), 1);
    assert!(decision.agents_timing.is_none());
    assert_eq!(decision.status_title.as_deref(), Some("Running tests"));
    assert_eq!(
        decision.status_sent_to_user.as_deref(),
        Some("Outlined fix before execution.")
    );
}

#[test]
fn parse_decision_legacy_schema() {
    let raw = r#"{
            "finish_status": "continue",
            "progress": {"past": "Drafted fix", "current": "Running unit tests"},
            "prompt_sent_to_cli": "Run cargo test --package core"
        }"#;

    let decision = parse(raw).expect("parse legacy decision");
    assert_eq!(decision.status, AutoCoordinatorStatus::Continue);
    assert_eq!(decision.status_sent_to_user.as_deref(), Some("Drafted fix"));
    assert_eq!(decision.status_title.as_deref(), Some("Running unit tests"));

    let cli = decision.cli.expect("cli action expected");
    assert_eq!(cli.prompt, "Run cargo test --package core");
    assert!(cli.context.is_none());

    assert!(decision.agents.is_empty());
    assert!(decision.agents_timing.is_none());
}

#[test]
fn classify_missing_cli_prompt_is_recoverable() {
    let err = "model response missing prompt_sent_to_cli for continue";
    let info = classify_recoverable_decision_error(err).expect("recoverable error");
    assert!(info.summary.contains("prompt_sent_to_cli"));
    assert!(info.guidance.as_ref().expect("guidance").contains("prompt_sent_to_cli"));
}

#[test]
fn classify_empty_field_is_recoverable() {
    let err = "agents[*].prompt is empty";
    let info = classify_recoverable_decision_error(err).expect("recoverable error");
    assert!(info.summary.contains("agents[*].prompt"));
    assert!(info.guidance.as_ref().expect("guidance").contains("agents[*].prompt"));
}

#[test]
fn classify_overlong_cli_prompt_is_recoverable_and_guided() {
    let err = ensure_cli_prompt_length(&"x".repeat(CLI_PROMPT_MAX_CHARS + 1))
        .expect_err("length check should fail");
    let info = classify_recoverable_decision_error(&err.to_text()).expect("recoverable error");

    assert!(info.summary.contains("length cap"), "summary should mention length issue");
    let guidance = info.guidance.expect("guidance");
    assert!(guidance.contains("<=600"), "guidance should include limit");
}

#[test]
fn push_unique_guidance_trims_and_dedupes() {
    let mut guidance = vec!["Keep CLI prompts short".to_string()];
    push_unique_guidance(&mut guidance, "  keep cli prompts short  ");
    assert_eq!(guidance.len(), 1, "duplicate hint should not be added");
    push_unique_guidance(&mut guidance, "Respond with JSON only");
    assert_eq!(guidance.len(), 2);
    assert!(guidance.iter().any(|hint| hint == "Respond with JSON only"));
}

#[test]
fn blank_guidance_is_left_out() {
    let mut guidance: Vec<String> = Vec::new();
    push_unique_guidance(&mut guidance, " \n\t");
    assert!(guidance.is_empty());
    push_unique_guidance(&mut guidance, "one");
    push_unique_guidance(&mut guidance, "ONE ");
    assert_eq!(guidance, vec!["one".to_string()]);
}

#[test]
fn too_short_prompt_is_not_recoverable() {
    let err = ensure_cli_prompt_length("abc").expect_err("three characters");
    assert!(matches!(err, DecisionError::PromptTooShort));
    assert_eq!(
        err.to_text(),
        "prompt_sent_to_cli must be at least 4 characters; keep it concise but not empty"
    );
    assert!(classify_recoverable_decision_error(&err.to_text()).is_none());
}

#[test]
fn prompt_length_is_counted_in_characters() {
    assert!(ensure_cli_prompt_length("äöüß").is_ok());
    assert!(ensure_cli_prompt_length(&"é".repeat(600)).is_ok());
    let err = ensure_cli_prompt_length(&"é".repeat(601)).expect_err("601 characters");
    assert!(matches!(err, DecisionError::PromptTooLong));
    assert_eq!(
        err.to_text(),
        "prompt_sent_to_cli exceeds 600 characters; keep prompts succinct (<=600 chars) and let the CLI decide how to execute the task"
    );
}

#[test]
fn every_recoverable_fault_has_its_summary() {
    let summary = |text: &str| classify_recoverable_decision_error(text).map(|e| e.summary);
    assert_eq!(
        summary("model response missing prompt_sent_to_cli for continue").as_deref(),
        Some("missing `prompt_sent_to_cli` for `finish_status: \"continue\"`")
    );
    assert_eq!(
        summary("MISSING CLI PROMPT").as_deref(),
        Some("missing `prompt_sent_to_cli` for `finish_status: \"continue\"`")
    );
    assert_eq!(
        summary("the answer was cut off").as_deref(),
        Some("model output was cut off by a length cap")
    );
    assert_eq!(
        summary("hit the Length Limit").as_deref(),
        Some("model output was cut off by a length cap")
    );
    assert_eq!(summary("something exceeds something"), None);
    assert_eq!(
        summary("legacy model response missing cli_prompt for continue").as_deref(),
        Some("legacy response omitted `cli_prompt` for continue turn")
    );
    assert_eq!(summary("`goal` is empty").as_deref(), Some("`goal` was empty"));
    assert_eq!(summary("`` is empty"), None);
    assert_eq!(summary("THE FIELD IS EMPTY"), None);
    assert_eq!(
        summary("unexpected finish_status 'done'").as_deref(),
        Some("unexpected finish_status 'done'")
    );
    assert_eq!(
        summary("unexpected finish_status ''").as_deref(),
        Some("unexpected finish_status")
    );
    assert_eq!(
        summary("unexpected finish_status 'open").as_deref(),
        Some("unexpected finish_status 'open'")
    );
    assert_eq!(
        summary("unexpected finish_status").as_deref(),
        Some("unexpected finish_status")
    );
    assert_eq!(
        summary("model response was not valid JSON").as_deref(),
        Some("response was not valid JSON")
    );
    assert_eq!(
        summary("parsing JSON from model output").as_deref(),
        Some("response was not valid JSON")
    );
    assert_eq!(
        summary("decoding coordinator decision failed: x").as_deref(),
        Some("response did not match the coordinator schema")
    );
    assert_eq!(summary("connection refused"), None);
}

#[test]
fn backticks_are_stripped_from_both_ends() {
    assert_eq!(untick_str("``a`b`"), "a`b");
    assert_eq!(untick_str("``"), "");
}

#[test]
fn statuses_are_read_in_any_case() {
    assert_eq!(parse_finish_status(" Continue\n").unwrap(), AutoCoordinatorStatus::Continue);
    assert_eq!(parse_finish_status("FINISH_SUCCESS").unwrap(), AutoCoordinatorStatus::Success);
    assert_eq!(parse_finish_status("finish_failed").unwrap(), AutoCoordinatorStatus::Failed);
    let err = parse_finish_status(" Done ").unwrap_err();
    assert_eq!(err.to_text(), "unexpected finish_status 'done'");
    assert!(classify_recoverable_decision_error(&err.to_text()).is_some());
}

#[test]
fn required_texts_lose_their_role() {
    assert_eq!(clean_required("  Coordinator: go on ", "x").unwrap(), "go on");
    assert_eq!(clean_required("cli:go", "x").unwrap(), "go");
    let err = clean_required(" CLI: ", "cli_prompt").unwrap_err();
    assert_eq!(err.to_text(), "cli_prompt is empty");
    let err = clean_required("", "goal").unwrap_err();
    assert!(matches!(err, DecisionError::EmptyField { .. }));
}

#[test]
fn a_continuing_decision_needs_an_instruction() {
    let err = convert_decision_new(plain("continue", None), AutoCoordinatorStatus::Continue)
        .unwrap_err();
    assert!(matches!(err, DecisionError::MissingPrompt));
    assert_eq!(err.to_text(), "model response missing prompt_sent_to_cli for continue");

    let err = convert_decision_new(
        plain("continue", Some("CLI: CLI:")),
        AutoCoordinatorStatus::Continue,
    )
    .unwrap_err();
    assert_eq!(err.to_text(), "prompt_sent_to_cli is empty");

    let done = convert_decision_new(
        plain("finish_success", Some("ignored")),
        AutoCoordinatorStatus::Success,
    )
    .unwrap();
    assert!(done.cli.is_none());
    assert_eq!(done.model_slug, "gpt-5.1");
}

#[test]
fn batch_models_stand_in_for_missing_ones() {
    let mut decision = plain("continue", Some("Carry on"));
    let mut own = request("second");
    own.models = Some(vec![" b ".to_string(), "a".to_string(), "b".to_string()]);
    decision.agents = Some(AgentsField::Object(AgentsPayload {
        timing: Some(AgentsTimingValue::Parallel),
        models: Some(vec!["z".to_string(), " ".to_string()]),
        requests: vec![request("first"), own],
    }));
    let parsed = convert_decision_new(decision, AutoCoordinatorStatus::Continue).unwrap();
    assert_eq!(parsed.agents_timing, Some(AutoTurnAgentsTiming::Parallel));
    assert_eq!(parsed.agents[0].models, Some(vec!["z".to_string()]));
    assert_eq!(parsed.agents[1].models, Some(vec!["a".to_string(), "b".to_string()]));
}

#[test]
fn agents_need_prompts() {
    let mut decision = plain("continue", Some("Carry on"));
    decision.agents = Some(AgentsField::List(vec![request("ok"), request("  ")]));
    let err = convert_decision_new(decision, AutoCoordinatorStatus::Continue).unwrap_err();
    assert_eq!(err.to_text(), "agents[*].prompt is empty");

    let mut decision = plain("continue", Some("Carry on"));
    decision.agents = Some(AgentsField::Object(AgentsPayload {
        timing: None,
        models: None,
        requests: vec![request("Coordinator:")],
    }));
    let err = convert_decision_new(decision, AutoCoordinatorStatus::Continue).unwrap_err();
    assert_eq!(err.to_text(), "agents.requests[*].prompt is empty");
}

fn legacy(prompt: Option<&str>) -> CoordinatorDecisionLegacy {
    CoordinatorDecisionLegacy {
        finish_status: "continue".to_string(),
        progress_past: Some(" past ".to_string()),
        progress_current: Some("now".to_string()),
        cli_context: Some("CLI: why".to_string()),
        cli_prompt: prompt.map(|s| s.to_string()),
        goal: Some(" ".to_string()),
    }
}

#[test]
fn legacy_decisions_keep_their_context() {
    let parsed =
        convert_decision_legacy(legacy(Some("go")), AutoCoordinatorStatus::Continue).unwrap();
    assert_eq!(parsed.status_title.as_deref(), Some("now"));
    assert_eq!(parsed.status_sent_to_user.as_deref(), Some("past"));
    assert!(parsed.goal.is_none());
    let cli = parsed.cli.unwrap();
    assert_eq!(cli.prompt, "go");
    assert_eq!(cli.context.as_deref(), Some("why"));

    let err = convert_decision_legacy(legacy(None), AutoCoordinatorStatus::Continue).unwrap_err();
    assert_eq!(err.to_text(), "legacy model response missing cli_prompt for continue");
    let err =
        convert_decision_legacy(legacy(Some(" ")), AutoCoordinatorStatus::Success).unwrap_err();
    assert_eq!(err.to_text(), "cli_prompt is empty");
    assert!(convert_decision_legacy(legacy(None), AutoCoordinatorStatus::Failed)
        .unwrap()
        .cli
        .is_none());
}

#[test]
fn json_is_found_in_prose() {
    let json = decision_json("Sure! {\"a\": {\"b\": \"}\"}} and {\"c\": 1}").unwrap();
    assert_eq!(json, "{\"a\":{\"b\":\"}\"}}");
    let whole = decision_json(" [1,  2] ").unwrap();
    assert_eq!(whole, "[1,2]");
    let err = decision_json("no object here").unwrap_err();
    assert_eq!(err.to_text(), "model response was not valid JSON");
    let err = decision_json("look: {not json}").unwrap_err();
    assert!(matches!(err, DecisionError::BadJson { .. }));
    assert_eq!(err.to_text(), "parsing JSON from model output");
}

#[test]
fn the_first_object_is_taken_whole() {
    assert_eq!(
        extract_first_json_object("x } {\"k\": \"\\\"{\"} {}").as_deref(),
        Some("{\"k\": \"\\\"{\"}")
    );
    assert_eq!(extract_first_json_object("{ {} "), None);
    let object = extract_first_json_object("é {\"ü\":{}}!").unwrap();
    assert_eq!(object, "{\"ü\":{}}");
    assert_eq!(extract_first_json_object(&object), Some(object.clone()));
}

#[test]
fn text_around_the_first_object_changes_nothing() {
    let object = "{\"a\": \"}\"}";
    for text in [
        object.to_string(),
        format!("He said \"use {{}}\" and then: {object}"),
        format!("{object} and \"more\" {{\"b\": 1}}"),
        format!("{object}}}}}"),
        format!("}} {object} {{"),
    ] {
        assert_eq!(extract_first_json_object(&text).as_deref(), Some(object), "{text}");
    }
    assert_eq!(extract_first_json_object("an open \" quote {\"a\": 1}"), None);
}

#[test]
fn empty_fields_are_recoverable_where_they_are_named() {
    let recoverable = |field: &str| {
        let err = DecisionError::EmptyField { field: field.to_string() };
        classify_recoverable_decision_error(&err.to_text()).is_some()
    };
    assert!(recoverable("agents[0].prompt"));
    assert!(recoverable(" spaced"));
    assert!(recoverable("`x`"));
    assert!(!recoverable(""));
    assert!(!recoverable(" `` "));
    assert!(!recoverable(" is empty"));
    assert!(recoverable(" is empty: model response was not valid JSON"));
}

#[test]
fn parts_are_tried_only_where_the_whole_fails() {
    let whole = choose_json("{}", Ok("{}".to_string())).unwrap();
    assert!(matches!(whole, JsonAttempt::Whole(s) if s == "{}"));
    let part = choose_json("a {} b", Err("bad".to_string())).unwrap();
    assert!(matches!(part, JsonAttempt::Part(s) if s == "{}"));
    assert!(matches!(
        choose_json("a b", Err("bad".to_string())),
        Err(DecisionError::NotJson)
    ));
    assert!(accept_part(Ok("1".to_string())).is_ok());
    assert!(matches!(
        accept_part(Err("why".to_string())),
        Err(DecisionError::BadJson { cause }) if cause == "why"
    ));
}

#[test]
fn undecodable_replies_are_quoted() {
    let err = parse("{\"other\": 1}").unwrap_err();
    assert_eq!(
        err.to_text(),
        "decoding coordinator decision failed: new_schema_err=missing field `finish_status`; legacy_err=missing field `finish_status`; payload_snippet={\"other\":1}"
    );
    assert!(classify_recoverable_decision_error(&err.to_text()).is_some());
    let long = "a".repeat(2001);
    let mut expected = "a".repeat(2000);
    expected.push('…');
    assert_eq!(snippet(&long), expected);
    assert_eq!(snippet(&"a".repeat(2000)), "a".repeat(2000));
}

#[test]
fn the_planning_seed_is_a_valid_decision() {
    for include_agents in [true, false] {
        let seed = build_initial_planning_seed("goal", include_agents).unwrap();
        let decision = parse(&seed.response_json).unwrap();
        assert_eq!(decision.status_title.as_deref(), Some("Planning"));
        assert_eq!(decision.cli.unwrap().prompt, seed.cli_prompt);
    }
}

#[test]
fn write_requests_are_guarded() {
    let action = AgentAction {
        prompt: "p".to_string(),
        context: Some("c".to_string()),
        write: Some(true),
        models: Some(vec!["m".to_string()]),
    };
    let free = agent_action_to_event(&action);
    assert!(free.write);
    assert_eq!(free.write_requested, Some(true));
    let guarded = agent_action_to_event_with_write_guard(&action, false);
    assert!(!guarded.write);
    assert_eq!(guarded.write_requested, Some(true));
    assert_eq!(guarded.models, Some(vec!["m".to_string()]));
    assert!(agent_action_to_event_with_write_guard(&action, true).write);
    let silent = AgentAction { write: None, ..action };
    assert!(!agent_action_to_event(&silent).write);
    let cli = CliAction {
        prompt: "go".to_string(),
        context: None,
        suppress_ui_context: true,
    };
    let event = cli_action_to_event(&cli);
    assert_eq!(event.prompt, "go");
    assert!(event.suppress_ui_context);
}

#[test]
fn excerpts_are_cut_at_the_limit() {
    assert_eq!(summarize_json_for_debug("  {} "), "{}");
    let long = "é".repeat(1201);
    let cut = summarize_json_for_debug(&long);
    assert_eq!(cut.chars().count(), 1201);
    assert!(cut.ends_with('…'));
    assert_eq!(summarize_json_for_debug(&"é".repeat(1200)), "é".repeat(1200));
}

#[test]
fn lines_are_indented() {
    assert_eq!(indent_lines("a\r\n\nb\n", "  "), "  a\n  \n  b");
    assert_eq!(indent_lines("", "  "), "");
}
