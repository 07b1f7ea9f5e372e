use auto_coordinator::ask::{build_user_turn_prompt, build_user_turn_prompt_in, Question};
use auto_coordinator::clean::{clean_optional, strip_role_prefix};
use auto_coordinator::compaction::ModelFamily;
use auto_coordinator::events::{emit_auto_drive_metrics, AutoCoordinatorEvent, TokenUsage};
use auto_coordinator::items::{
    filter_popular_commands, is_popular_commands_message, make_message, ContentItem,
    ReasoningItemContent, ResponseItem,
};
use auto_coordinator::json::Json;
use auto_coordinator::models::clean_models;
use auto_coordinator::prompts::{
    build_developer_message, build_initial_planning_seed, developer_intro,
    format_environment_details, git_output, git_touches_tree, inside_work_tree,
    read_coordinator_prompt, role_text, sandbox_label, tidy_instructions, SandboxAccess,
};
use auto_coordinator::stream::{ResponseEvent, StreamState};

fn shown(item: &ResponseItem) -> (String, String) {
    match item {
        ResponseItem::Message { role, content, .. } => {
            let text = match &content[0] {
                ContentItem::InputText { text } => text.clone(),
                ContentItem::OutputText { text } => text.clone(),
                ContentItem::Other(text) => text.clone(),
            };
            (role.clone(), text)
        }
        other => panic!("expected a message, got {other:?}"),
    }
}

fn delta(text: &str) -> ResponseEvent {
    ResponseEvent::OutputTextDelta { delta: text.to_string() }
}

fn done(item: ResponseItem) -> ResponseEvent {
    ResponseEvent::OutputItemDone { item }
}

fn reasoning() -> ResponseItem {
    ResponseItem::Reasoning {
        id: "r".to_string(),
        summary: Vec::new(),
        content: None,
        encrypted_content: None,
    }
}

#[test]
fn developer_message_uses_bootstrap_instructions_when_deriving_goal() {
    let (_, _intro_bootstrap, primary_bootstrap) =
        build_developer_message("Deriving goal from recent conversation", "Env", None, true);
    assert!(primary_bootstrap.contains("You are preparing to start Auto Drive"));

    let (_, _intro_normal, primary_normal) =
        build_developer_message("Ship feature", "Env", None, false);
    assert!(primary_normal.contains("Ship feature"));
    assert!(!primary_normal.contains("You are preparing to start Auto Drive"));
}

#[test]
fn developer_messages_are_put_together() {
    let (role, intro, goal) = build_developer_message("g", "e", Some("  lead \n"), false);
    assert_eq!(role.as_deref(), Some("lead"));
    assert_eq!(intro, "Environment:\ne");
    assert_eq!(goal, "**Primary Goal**\ng");
    let (role, _, _) = build_developer_message("g", "e", Some(" "), false);
    assert!(role.is_none());
    assert_eq!(developer_intro("i".to_string(), true), "i");
    assert!(developer_intro("i".to_string(), false).starts_with("i\n\nThe current working directory is not a git"));
    assert_eq!(tidy_instructions(Some(" a ".to_string())).as_deref(), Some("a"));
    assert_eq!(tidy_instructions(Some(" ".to_string())), None);
    assert_eq!(tidy_instructions(None), None);
}

#[test]
fn the_role_is_told() {
    let role = read_coordinator_prompt(false, "check.me").expect("a role");
    assert!(role.starts_with("You have a special role within Code."));
    assert!(role.ends_with("time and diverse strategies."));
    let boxed = read_coordinator_prompt(true, "/tests/accept").expect("a role");
    assert!(boxed.starts_with(&role));
    assert!(boxed[role.len()..].starts_with("\n\n# Time Budget\nSYSTEM: Time-boxed autonomous exec is enabled."));
    assert!(boxed.contains("Prefer (in order): `/tests/accept` (read it, then run it)"));
    assert!(boxed.ends_with("the single next verification step."));
    assert!(role_text(" \n", true, "x").is_none());
}

#[test]
fn missions_begin_with_planning() {
    assert!(build_initial_planning_seed(" \t", true).is_none());
    let seed = build_initial_planning_seed(" Ship it ", true).unwrap();
    assert_eq!(seed.goal_message, "Primary Goal: Ship it");
    assert_eq!(seed.status_title, "Planning route");
    assert_eq!(seed.status_sent_to_user, "Planning best route to reach the goal.");
    assert!(seed.agents_timing.is_some());
    assert!(seed.cli_prompt.contains("launch agents"));
    let alone = build_initial_planning_seed("x", false).unwrap();
    assert!(alone.agents_timing.is_none());
    assert!(!alone.cli_prompt.contains("launch agents"));
}

#[test]
fn surroundings_are_described() {
    let text = format_environment_details(
        sandbox_label(SandboxAccess::Full),
        Some("/w".to_string()),
        None,
        Some(" M a.rs\n?? b.rs\n".to_string()),
    );
    assert_eq!(
        text,
        "- Access: full access\n- Working directory: /w\n- Git branch: <unknown>\n- Git status:\n   M a.rs\n  ?? b.rs"
    );
    let text = format_environment_details(
        sandbox_label(SandboxAccess::Limited),
        None,
        Some("main".to_string()),
        Some(" ".to_string()),
    );
    assert!(text.starts_with("- Access: limited sandbox\n- Working directory: <unknown>\n"));
    assert!(text.ends_with("- Git branch: main\n- Git status:\n  clean"));
    let text = format_environment_details("x", None, None, None);
    assert!(text.ends_with("\n  <git status unavailable>"));
}

#[test]
fn git_is_listened_to() {
    let args = |list: &[&str]| list.iter().map(|s| s.to_string()).collect::<Vec<String>>();
    assert!(git_touches_tree(&args(&["merge", "x"])));
    assert!(git_touches_tree(&args(&["-q", "apply"])));
    assert!(!git_touches_tree(&args(&["status", "--short"])));
    assert_eq!(git_output(true, Some(" a \n".to_string())).as_deref(), Some(" a"));
    assert_eq!(git_output(false, Some("a".to_string())), None);
    assert_eq!(git_output(true, None), None);
    assert!(inside_work_tree(&Some("true".to_string())));
    assert!(!inside_work_tree(&Some("false".to_string())));
    assert!(!inside_work_tree(&None));
}

#[test]
fn questions_hold_notes_and_conversation() {
    let schema = Json::Text("schema".to_string());
    let conversation = vec![make_message("user", "hello".to_string())];
    let family = ModelFamily { auto_compact_token_limit: None, context_window: Some(5) };
    let question = Question {
        developer_intro: "intro",
        primary_goal: "goal",
        coordinator_prompt: Some(" role "),
        time_budget_message: Some("  "),
        loop_warning: Some("loop"),
        schema: &schema,
        conversation: &conversation,
        model_slug: "m",
        model_family: family,
        auto_instructions: Some(" be kind "),
    };
    let prompt = build_user_turn_prompt_in(&question, 42);
    assert!(prompt.store);
    assert_eq!(prompt.session_id_override, Some(42));
    let seen: Vec<(String, String)> = prompt.input.iter().map(shown).collect();
    let expected: Vec<(String, String)> = [
        ("developer", "be kind"),
        ("developer", "loop"),
        ("developer", "intro"),
        ("developer", "goal"),
        ("user", "hello"),
    ]
    .iter()
    .map(|(a, b)| (a.to_string(), b.to_string()))
    .collect();
    assert_eq!(seen, expected);
    assert_eq!(prompt.prepend_developer_messages, vec!["role".to_string()]);
    let format = prompt.text_format.unwrap();
    assert_eq!(format.format_type, "json_schema");
    assert_eq!(format.name.as_deref(), Some("auto_coordinator_user_turn"));
    assert_eq!(format.strict, Some(true));
    assert_eq!(format.schema.unwrap().as_str(), Some("schema"));
    assert_eq!(prompt.model_override.as_deref(), Some("m"));
    assert_eq!(prompt.model_family_override.unwrap().context_window, Some(5));
    assert_eq!(prompt.log_tag.as_deref(), Some("auto/coordinator"));

    let first = build_user_turn_prompt(&question).session_id_override.unwrap();
    let second = build_user_turn_prompt(&question).session_id_override.unwrap();
    assert!(first != second);
    assert_eq!((first >> 76) & 0xf, 4);
    assert_eq!((first >> 62) & 3, 2);
}

#[test]
fn streamed_text_is_counted_once() {
    let mut state = StreamState::new();
    assert!(state.on_event(delta("Hel")).is_none());
    state.on_event(delta("lo"));
    state.on_event(done(make_message("assistant", "Hello".to_string())));
    state.on_event(done(make_message("assistant", " again".to_string())));
    state.on_event(done(make_message("user", "not put out".to_string())));
    let usage = TokenUsage {
        input_tokens: 1,
        cached_input_tokens: 0,
        output_tokens: 2,
        reasoning_output_tokens: 0,
        total_tokens: 3,
    };
    assert!(!state.is_done());
    state.on_event(ResponseEvent::Completed { token_usage: Some(usage) });
    assert!(state.is_done());
    state.on_event(delta("late"));
    let result = state.finish("m");
    assert_eq!(result.output_text, "Hello again");
    assert_eq!(result.response_items.len(), 3);
    assert_eq!(result.token_usage, Some(usage));
    assert_eq!(result.model_slug, "m");
}

#[test]
fn thoughts_are_shown_and_kept() {
    let mut state = StreamState::new();
    let event = state.on_event(ResponseEvent::ReasoningSummaryDelta {
        delta: "Coordinator: think".to_string(),
        summary_index: Some(2),
    });
    assert!(matches!(
        event,
        Some(AutoCoordinatorEvent::Thinking { delta, summary_index: Some(2) }) if delta == "think"
    ));
    let event =
        state.on_event(ResponseEvent::ReasoningContentDelta { delta: " more ".to_string() });
    assert!(matches!(
        event,
        Some(AutoCoordinatorEvent::Thinking { delta, summary_index: None }) if delta == " more "
    ));
    assert!(state.on_event(ResponseEvent::Other).is_none());
    let result = state.finish("m");
    match &result.response_items[0] {
        ResponseItem::Reasoning { id, content: Some(content), .. } => {
            assert!(id.is_empty());
            assert!(matches!(
                &content[0],
                ReasoningItemContent::ReasoningText { text } if text == "think more"
            ));
        }
        other => panic!("expected thoughts, got {other:?}"),
    }
}

#[test]
fn finished_thoughts_are_not_repeated() {
    let mut state = StreamState::new();
    state.on_event(ResponseEvent::ReasoningContentDelta { delta: "a".to_string() });
    state.on_event(done(reasoning()));
    state.on_event(ResponseEvent::ReasoningContentDelta { delta: "b".to_string() });
    assert_eq!(state.finish("m").response_items.len(), 1);
    let mut silent = StreamState::new();
    silent.on_event(ResponseEvent::ReasoningContentDelta { delta: " ".to_string() });
    assert!(silent.finish("m").response_items.is_empty());
}

#[test]
fn roles_are_dropped() {
    assert_eq!(strip_role_prefix("coordinator: hi"), "hi");
    assert_eq!(strip_role_prefix("CLI:  hi"), " hi");
    assert_eq!(strip_role_prefix("CLI"), "CLI");
    assert_eq!(strip_role_prefix("Über: hi"), "Über: hi");
    assert_eq!(clean_optional(Some(" CLI: x ".to_string())).as_deref(), Some("x"));
    assert_eq!(clean_optional(Some("CLI:".to_string())), None);
    assert_eq!(clean_optional(None), None);
}

#[test]
fn model_names_are_sorted_once() {
    let names = |list: &[&str]| Some(list.iter().map(|s| s.to_string()).collect::<Vec<String>>());
    assert_eq!(clean_models(names(&["b", " a ", "", "b", "ab"])), names(&["a", "ab", "b"]));
    assert_eq!(clean_models(names(&["a", "ab", "b"])), names(&["a", "ab", "b"]));
    assert_eq!(clean_models(names(&[" ", ""])), None);
    assert_eq!(clean_models(names(&[])), None);
    assert_eq!(clean_models(None), None);
    assert_eq!(clean_models(names(&["\u{1F600}", "\u{FFFD}"])), names(&["\u{FFFD}", "\u{1F600}"]));
}

#[test]
fn lists_of_commands_are_left_out() {
    let listed = make_message("User", "Popular commands:\n/help".to_string());
    assert!(is_popular_commands_message(&listed));
    let quoted = make_message("assistant", "Popular commands:".to_string());
    assert!(!is_popular_commands_message(&quoted));
    let kept = filter_popular_commands(vec![
        make_message("user", "a".to_string()),
        listed,
        quoted,
        reasoning(),
    ]);
    assert_eq!(kept.len(), 3);
    assert_eq!(filter_popular_commands(kept).len(), 3);
}

#[test]
fn metrics_are_told_once_there_are_some() {
    let zero = TokenUsage {
        input_tokens: 0,
        cached_input_tokens: 0,
        output_tokens: 0,
        reasoning_output_tokens: 0,
        total_tokens: 0,
    };
    assert!(emit_auto_drive_metrics(zero, true, zero, 0, 0, 0).is_none());
    let event = emit_auto_drive_metrics(zero, true, zero, 3, 1, 2).unwrap();
    assert_eq!(event.kind(), "token_metrics");
    assert!(matches!(
        event,
        AutoCoordinatorEvent::TokenMetrics { turn_count: 3, duplicate_items: 1, replay_updates: 2, .. }
    ));
    assert!(emit_auto_drive_metrics(zero, false, zero, 0, 0, 0).is_some());
    assert_eq!(AutoCoordinatorEvent::StopAck.kind(), "stop_ack");
}
