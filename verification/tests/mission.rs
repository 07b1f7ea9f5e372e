use auto_coordinator::compaction::CompactionResult;
use auto_coordinator::coordinator::{CommandAction, Coordinator, Mission, NextAction};
use auto_coordinator::decision::{
    AgentAction, CliAction, DecisionError, DecisionFailure, ParsedCoordinatorDecision,
};
use auto_coordinator::errors::ErrorChain;
use auto_coordinator::events::{
    AutoCoordinatorCommand, AutoCoordinatorEvent, AutoCoordinatorStatus, AutoTurnAgentsAction,
    AutoTurnAgentsTiming,
};
use auto_coordinator::items::{make_message, ContentItem, ResponseItem};
use auto_coordinator::schema::AutoDriveSettings;

fn say(text: &str) -> Vec<ResponseItem> {
    vec![make_message("user", text.to_string())]
}

fn words(items: &[ResponseItem]) -> Vec<String> {
    items
        .iter()
        .map(|item| match item {
            ResponseItem::Message { content, .. } => match &content[0] {
                ContentItem::InputText { text } => text.clone(),
                ContentItem::OutputText { text } => text.clone(),
                ContentItem::Other(text) => text.clone(),
            },
            other => panic!("expected a message, got {other:?}"),
        })
        .collect()
}

fn mission(goal: &str, derive: bool) -> Mission {
    Mission {
        goal_text: goal.to_string(),
        conversation: say("begin"),
        settings: AutoDriveSettings { agents_enabled: true, coordinator_turn_cap: 0 },
        derive_goal_from_history: derive,
        git_repo_present: true,
        model_slug: "first-model".to_string(),
    }
}

fn decision(status: AutoCoordinatorStatus) -> ParsedCoordinatorDecision {
    ParsedCoordinatorDecision {
        status,
        input_required: false,
        status_title: Some("title".to_string()),
        status_sent_to_user: Some("told".to_string()),
        cli: Some(CliAction {
            prompt: "go on".to_string(),
            context: None,
            suppress_ui_context: false,
        }),
        agents_timing: Some(AutoTurnAgentsTiming::Blocking),
        agents: vec![AgentAction {
            prompt: "help".to_string(),
            context: None,
            write: Some(true),
            models: None,
        }],
        goal: None,
        response_items: say("reply"),
        token_usage: None,
        model_slug: "second-model".to_string(),
    }
}

fn decided(next: NextAction) -> Vec<String> {
    match next {
        NextAction::Decide(conversation) => words(&conversation),
        NextAction::Finish => panic!("the mission has ended"),
        NextAction::Wait => panic!("the coordinator waits"),
    }
}

fn seq_and_status(event: &AutoCoordinatorEvent) -> (u64, AutoCoordinatorStatus) {
    match event {
        AutoCoordinatorEvent::Decision { seq, status, .. } => (*seq, *status),
        other => panic!("expected a decision, got {other:?}"),
    }
}

fn agents_of(event: &AutoCoordinatorEvent) -> &Vec<AutoTurnAgentsAction> {
    match event {
        AutoCoordinatorEvent::Decision { agents, .. } => agents,
        other => panic!("expected a decision, got {other:?}"),
    }
}

fn told(event: &AutoCoordinatorEvent) -> String {
    match event {
        AutoCoordinatorEvent::Decision { status_sent_to_user, .. } => {
            status_sent_to_user.clone().unwrap()
        }
        other => panic!("expected a decision, got {other:?}"),
    }
}

fn ack(seq: u64) -> Option<AutoCoordinatorCommand> {
    Some(AutoCoordinatorCommand::AckDecision { seq })
}

fn update(text: &str) -> Option<AutoCoordinatorCommand> {
    Some(AutoCoordinatorCommand::UpdateConversation(say(text)))
}

fn fault(raw: Option<&str>) -> DecisionFailure {
    DecisionFailure::new(
        DecisionError::PromptTooLong,
        "coordinator_decision",
        raw.map(|s| s.to_string()),
    )
}

#[test]
fn a_mission_with_a_goal_begins_with_a_plan() {
    let (mut coordinator, event) = Coordinator::start(mission(" Ship it ", false));
    let event = event.expect("a first decision");
    assert_eq!(seq_and_status(&event), (0, AutoCoordinatorStatus::Continue));
    match &event {
        AutoCoordinatorEvent::Decision { goal, cli, transcript, agents_timing, .. } => {
            assert_eq!(goal.as_deref(), Some(" Ship it "));
            let cli = cli.as_ref().unwrap();
            assert_eq!(cli.context.as_deref(), Some("Primary Goal: Ship it"));
            assert!(cli.suppress_ui_context);
            assert_eq!(transcript.len(), 1);
            assert_eq!(*agents_timing, Some(AutoTurnAgentsTiming::Parallel));
        }
        other => panic!("expected a decision, got {other:?}"),
    }
    assert!(matches!(coordinator.next_action(false), NextAction::Wait));
    assert!(matches!(coordinator.on_command(update("later")), CommandAction::CountReplay));
    assert!(matches!(coordinator.on_command(ack(7)), CommandAction::Nothing));
    assert!(matches!(coordinator.next_action(false), NextAction::Wait));
    coordinator.on_command(ack(0));
    assert_eq!(decided(coordinator.next_action(false)), vec!["later"]);
    assert_eq!(coordinator.requests_completed(), 1);
    assert_eq!(coordinator.primary_goal(), "**Primary Goal**\n Ship it ");
}

#[test]
fn a_mission_without_a_goal_asks_the_model() {
    let (mut coordinator, event) = Coordinator::start(mission("x", true));
    assert!(event.is_none());
    assert!(coordinator.schema_features().include_goal_field);
    assert!(coordinator.primary_goal().contains("You are preparing to start Auto Drive"));
    assert_eq!(decided(coordinator.next_action(false)), vec!["begin"]);

    let (mut blank, event) = Coordinator::start(mission("  ", false));
    assert!(event.is_none());
    assert!(!blank.schema_features().include_goal_field);
    assert_eq!(decided(blank.next_action(false)), vec!["begin"]);
}

#[test]
fn decisions_are_numbered_and_acknowledged() {
    let (mut coordinator, _) = Coordinator::start(mission("", true));
    coordinator.next_action(false);
    let mut first = decision(AutoCoordinatorStatus::Continue);
    first.goal = Some(" build it ".to_string());
    let event = coordinator.on_decision(first);
    assert_eq!(seq_and_status(&event), (1, AutoCoordinatorStatus::Continue));
    assert_eq!(coordinator.active_model(), "second-model");
    assert_eq!(coordinator.primary_goal(), "**Primary Goal**\nbuild it");
    assert!(!coordinator.schema_features().include_goal_field);
    assert!(matches!(coordinator.next_action(false), NextAction::Wait));
    coordinator.on_command(ack(1));
    assert!(matches!(coordinator.next_action(false), NextAction::Wait));
    assert!(matches!(coordinator.on_command(update("more")), CommandAction::Nothing));
    assert_eq!(decided(coordinator.next_action(false)), vec!["more"]);
    let event = coordinator.on_decision(decision(AutoCoordinatorStatus::Success));
    assert_eq!(seq_and_status(&event), (2, AutoCoordinatorStatus::Success));
    assert!(!coordinator.is_stopped());
    coordinator.on_command(ack(2));
    coordinator.on_command(update("again"));
    coordinator.next_action(false);
    let event = coordinator.on_decision(decision(AutoCoordinatorStatus::Failed));
    assert_eq!(seq_and_status(&event), (3, AutoCoordinatorStatus::Failed));
    assert!(coordinator.is_stopped());
    assert!(matches!(coordinator.next_action(false), NextAction::Finish));
}

#[test]
fn conversations_are_served_in_order() {
    let (mut coordinator, _) = Coordinator::start(mission("goal", false));
    coordinator.next_action(false);
    for text in ["a", "b", "c"] {
        coordinator.on_command(update(text));
    }
    let mut seen = Vec::new();
    for seq in 0..3 {
        coordinator.on_command(ack(seq));
        seen.extend(decided(coordinator.next_action(false)));
        coordinator.on_decision(decision(AutoCoordinatorStatus::Continue));
    }
    assert_eq!(seen, vec!["a", "b", "c"]);
    assert!(matches!(coordinator.next_action(false), NextAction::Wait));
}

#[test]
fn lists_of_commands_are_dropped_from_conversations() {
    let (mut coordinator, _) = Coordinator::start(mission("", true));
    coordinator.next_action(false);
    coordinator.on_decision(decision(AutoCoordinatorStatus::Continue));
    coordinator.on_command(ack(1));
    let mut conversation = say("Popular commands: /help");
    conversation.extend(say("real"));
    coordinator.on_command(Some(AutoCoordinatorCommand::UpdateConversation(conversation)));
    assert_eq!(decided(coordinator.next_action(false)), vec!["real"]);
}

#[test]
fn a_cancelled_run_ends() {
    let (mut coordinator, _) = Coordinator::start(mission("", true));
    assert!(matches!(coordinator.next_action(true), NextAction::Finish));
    assert!(coordinator.is_stopped());

    let (mut coordinator, _) = Coordinator::start(mission("", true));
    coordinator.next_action(false);
    let failure = DecisionFailure::new(
        DecisionError::Request(ErrorChain::cancelled().with_context("again".to_string())),
        "coordinator_decision",
        None,
    );
    assert!(coordinator.on_failure(failure, say("begin")).is_empty());
    assert!(coordinator.is_stopped());
}

#[test]
fn faulty_replies_are_asked_for_three_times() {
    let (mut coordinator, _) = Coordinator::start(mission("", true));
    let mut conversation = decided(coordinator.next_action(false));
    for attempt in 1..4 {
        let items: Vec<ResponseItem> = conversation
            .iter()
            .map(|text| make_message("user", text.clone()))
            .collect();
        let events = coordinator.on_failure(fault(Some("raw reply")), items);
        assert_eq!(events.len(), 3);
        assert!(matches!(
            &events[0],
            AutoCoordinatorEvent::Thinking { delta, .. } if *delta == format!(
                "Coordinator response invalid (attempt {attempt}/3): model output was cut off by a length cap. Retrying…\nSchema: coordinator_decision\nSee assistant message above for the full model output that failed validation."
            )
        ));
        assert!(matches!(
            &events[1],
            AutoCoordinatorEvent::CompactedHistory { show_notice: false, .. }
        ));
        assert!(matches!(
            &events[2],
            AutoCoordinatorEvent::Action { message } if message.starts_with("Retrying prompt generation")
        ));
        let before = conversation.len();
        conversation = decided(coordinator.next_action(false));
        assert_eq!(conversation.len(), before + 2);
        assert_eq!(conversation[before], "raw reply");
        assert!(conversation[before + 1].starts_with(&format!(
            "Previous coordinator response failed validation (attempt {attempt}/3).\nError: prompt_sent_to_cli exceeds 600 characters"
        )));
        assert!(conversation[before + 1].contains("\nGuidance: Regenerate with a shorter"));
        assert!(conversation[before + 1].ends_with("how to best execute the task."));
    }
    let events = coordinator.on_failure(fault(Some("raw reply")), say("x"));
    assert_eq!(events.len(), 1);
    assert_eq!(seq_and_status(&events[0]), (1, AutoCoordinatorStatus::Failed));
    assert!(told(&events[0]).starts_with("Encountered an error: prompt_sent_to_cli exceeds"));
    assert!(coordinator.is_stopped());
}

#[test]
fn a_fault_without_a_reply_is_noted_alone() {
    let (mut coordinator, _) = Coordinator::start(mission("", true));
    coordinator.next_action(false);
    let events = coordinator.on_failure(fault(None), say("begin"));
    assert!(matches!(
        &events[0],
        AutoCoordinatorEvent::Thinking { delta, .. } if delta.ends_with("\nSchema: coordinator_decision")
    ));
    let conversation = decided(coordinator.next_action(false));
    assert_eq!(conversation.len(), 2);
    assert!(!conversation[1].contains("ERROR: Your last prompt_sent_to_cli"));
}

#[test]
fn updates_forgive_faults() {
    let (mut coordinator, _) = Coordinator::start(mission("", true));
    coordinator.next_action(false);
    for _ in 0..3 {
        coordinator.on_failure(fault(None), say("x"));
        coordinator.next_action(false);
    }
    coordinator.on_command(update("fresh"));
    let events = coordinator.on_failure(fault(None), say("x"));
    assert_eq!(events.len(), 3);
    assert!(!coordinator.is_stopped());
}

#[test]
fn hopeless_faults_end_the_mission() {
    let (mut coordinator, _) = Coordinator::start(mission("", true));
    coordinator.next_action(false);
    let failure = DecisionFailure::new(
        DecisionError::Request(ErrorChain::message("no network".to_string())),
        "coordinator_decision",
        None,
    );
    let events = coordinator.on_failure(failure, say("x"));
    assert_eq!(events.len(), 1);
    assert_eq!(told(&events[0]), "Encountered an error: no network");
    assert!(matches!(coordinator.next_action(false), NextAction::Finish));
}

#[test]
fn the_turn_cap_ends_the_mission() {
    let mut capped = mission("", true);
    capped.settings.coordinator_turn_cap = 2;
    let (mut coordinator, _) = Coordinator::start(capped);
    coordinator.next_action(false);
    let event = coordinator.on_decision(decision(AutoCoordinatorStatus::Continue));
    assert_eq!(seq_and_status(&event), (1, AutoCoordinatorStatus::Continue));
    coordinator.on_command(ack(1));
    coordinator.on_command(update("x"));
    coordinator.next_action(false);
    let event = coordinator.on_decision(decision(AutoCoordinatorStatus::Continue));
    assert_eq!(seq_and_status(&event), (2, AutoCoordinatorStatus::Failed));
    assert_eq!(
        told(&event),
        "Stopped after 2 coordinator turns (cap=2) to prevent a runaway session."
    );
    assert!(agents_of(&event).is_empty());
    assert!(coordinator.is_stopped());
}

#[test]
fn agents_stay_within_bounds() {
    let (mut coordinator, _) = Coordinator::start(mission("", true));
    coordinator.next_action(false);
    let event = coordinator.on_decision(decision(AutoCoordinatorStatus::Continue));
    assert!(agents_of(&event)[0].write);

    let mut bare = mission("", true);
    bare.git_repo_present = false;
    let (mut coordinator, _) = Coordinator::start(bare);
    coordinator.next_action(false);
    let event = coordinator.on_decision(decision(AutoCoordinatorStatus::Continue));
    assert!(!agents_of(&event)[0].write);
    assert_eq!(agents_of(&event)[0].write_requested, Some(true));

    let mut alone = mission("", true);
    alone.settings.agents_enabled = false;
    let (mut coordinator, _) = Coordinator::start(alone);
    coordinator.next_action(false);
    let event = coordinator.on_decision(decision(AutoCoordinatorStatus::Success));
    assert!(agents_of(&event).is_empty());
    assert!(matches!(event, AutoCoordinatorEvent::Decision { agents_timing: None, .. }));
}

#[test]
fn a_whole_mission_keeps_its_order() {
    let mut bare = mission("goal", false);
    bare.git_repo_present = false;
    let (mut coordinator, event) = Coordinator::start(bare);
    let mut last = seq_and_status(&event.expect("a first decision")).0;
    assert_eq!(last, 0);
    for turn in 1..=3 {
        coordinator.on_command(update("more"));
        assert!(matches!(coordinator.next_action(false), NextAction::Wait));
        coordinator.on_command(ack(last + 5));
        assert!(matches!(coordinator.next_action(false), NextAction::Wait));
        coordinator.on_command(ack(last));
        assert_eq!(decided(coordinator.next_action(false)), vec!["more"]);
        let events = coordinator.on_failure(fault(None), say("more"));
        assert!(!events.iter().any(|e| matches!(e, AutoCoordinatorEvent::Decision { .. })));
        assert!(matches!(coordinator.next_action(false), NextAction::Decide(_)));
        let event = coordinator.on_decision(decision(AutoCoordinatorStatus::Continue));
        assert_eq!(seq_and_status(&event), (turn, AutoCoordinatorStatus::Continue));
        assert!(agents_of(&event).iter().all(|agent| !agent.write));
        last = turn;
    }
    assert!(matches!(
        coordinator.on_command(Some(AutoCoordinatorCommand::Stop)),
        CommandAction::Announce(AutoCoordinatorEvent::StopAck)
    ));
    assert!(matches!(coordinator.next_action(false), NextAction::Finish));
}

#[test]
fn users_are_answered() {
    let (mut coordinator, _) = Coordinator::start(mission("goal", false));
    coordinator.next_action(false);
    let command = AutoCoordinatorCommand::HandleUserPrompt {
        _prompt: "why?".to_string(),
        conversation: say("why?"),
    };
    let conversation = match coordinator.on_command(Some(command)) {
        CommandAction::AnswerUser(conversation) => conversation,
        _ => panic!("the user waits for an answer"),
    };
    let event = coordinator
        .on_user_turn(conversation, Ok((Some("because".to_string()), Some("ls".to_string()))));
    assert!(matches!(
        event,
        AutoCoordinatorEvent::UserReply { user_response: Some(text), cli_command: Some(command) }
            if text == "because" && command == "ls"
    ));
    assert!(matches!(coordinator.next_action(false), NextAction::Wait));
    coordinator.on_command(ack(0));
    assert_eq!(decided(coordinator.next_action(false)), vec!["why?", "because"]);

    let failure = DecisionFailure::new(DecisionError::NotJson, "auto_coordinator_user_turn", None);
    let event = coordinator.on_user_turn(say("what?"), Err(failure));
    assert!(matches!(
        event,
        AutoCoordinatorEvent::UserReply { user_response: Some(text), cli_command: None }
            if text == "Coordinator error: model response was not valid JSON"
    ));
}

#[test]
fn to_stop_is_final() {
    for command in [Some(AutoCoordinatorCommand::Stop), None] {
        let (mut coordinator, _) = Coordinator::start(mission("goal", false));
        coordinator.next_action(false);
        coordinator.on_command(update("x"));
        assert!(matches!(
            coordinator.on_command(command),
            CommandAction::Announce(AutoCoordinatorEvent::StopAck)
        ));
        assert!(matches!(coordinator.next_action(false), NextAction::Finish));
    }
}

#[test]
fn summaries_are_remembered() {
    let (mut coordinator, _) = Coordinator::start(mission("", true));
    let done = CompactionResult::Completed { summary_text: Some("sum".to_string()) };
    let event = coordinator.on_compaction(done, &say("short"));
    assert!(matches!(
        event,
        Some(AutoCoordinatorEvent::CompactedHistory { show_notice: true, conversation })
            if words(&conversation) == vec!["short"]
    ));
    assert_eq!(coordinator.previous_summary().as_deref(), Some("sum"));
    assert!(coordinator.on_compaction(CompactionResult::Skipped, &say("x")).is_none());
    assert_eq!(coordinator.previous_summary().as_deref(), Some("sum"));
    coordinator.on_compaction(CompactionResult::Completed { summary_text: None }, &say("x"));
    assert_eq!(coordinator.previous_summary(), None);
}
