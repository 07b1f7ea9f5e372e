use auto_coordinator::compaction::{
    fallback_message_limit, maybe_compact, on_local_compaction, on_remote_compaction,
    should_compact, slice_to_summarize, summary_warning_event, transcript_tokens, CompactionResult,
    ModelFamily, MESSAGE_LIMIT_FALLBACK,
};
use auto_coordinator::events::AutoCoordinatorEvent;
use auto_coordinator::items::{make_message, ResponseItem};

fn family(slug: &str) -> ModelFamily {
    match slug {
        "gpt-5.1" => ModelFamily { auto_compact_token_limit: None, context_window: Some(272_000) },
        _ => ModelFamily { auto_compact_token_limit: None, context_window: None },
    }
}

fn thinking(event: AutoCoordinatorEvent) -> String {
    match event {
        AutoCoordinatorEvent::Thinking { delta, summary_index: None } => delta,
        other => panic!("expected a thought, got {other:?}"),
    }
}

fn items(n: usize) -> Vec<ResponseItem> {
    (0..n).map(|i| make_message("user", format!("m{i}"))).collect()
}

fn text_of(item: &ResponseItem) -> String {
    format!("{item:?}")
}

#[test]
fn compaction_triggers_when_projected_exceeds_threshold() {
    assert!(should_compact(&family("gpt-5.1"), 220_000, 10_000, 0, true));
    assert!(!should_compact(&family("gpt-5.1"), 100_000, 10_000, 0, true));
}

#[test]
fn compaction_falls_back_to_message_limit_when_unknown_model() {
    assert!(should_compact(&family("unknown-model"), 0, 0, MESSAGE_LIMIT_FALLBACK, false));
    assert!(!should_compact(
        &family("unknown-model"),
        0,
        0,
        MESSAGE_LIMIT_FALLBACK.saturating_sub(1),
        false,
    ));
}

#[test]
fn compaction_skip_fallback_when_context_known() {
    assert!(!should_compact(&family("gpt-5.1"), 0, 4_000, MESSAGE_LIMIT_FALLBACK, false));
}

#[test]
fn compaction_fallback_stops_once_tokens_recorded() {
    assert!(!should_compact(&family("gpt-5.1"), 1, 0, MESSAGE_LIMIT_FALLBACK, true));
    assert!(!should_compact(&family("unknown-model"), 1, 0, MESSAGE_LIMIT_FALLBACK, true));
}

#[test]
fn four_fifths_of_the_limit_are_too_much() {
    assert!(should_compact(&family("gpt-5.1"), 217_600, 0, 0, true));
    assert!(!should_compact(&family("gpt-5.1"), 217_599, 0, 0, true));
    let small = ModelFamily { auto_compact_token_limit: Some(9), context_window: None };
    assert!(!should_compact(&small, 7, 0, 0, true));
    assert!(should_compact(&small, 7, 1, 0, true));
    assert!(should_compact(&small, u64::MAX, u64::MAX, 0, true));
    let both = ModelFamily { auto_compact_token_limit: Some(100), context_window: Some(1000) };
    assert!(!should_compact(&both, 100, 0, 0, true));
    assert!(!should_compact(&both, 799, 0, 0, true));
    assert!(should_compact(&both, 700, 100, 0, true));
}

#[test]
fn useless_limits_are_passed_over() {
    let zero = ModelFamily { auto_compact_token_limit: Some(0), context_window: Some(10) };
    assert!(should_compact(&zero, 8, 0, 0, true));
    let narrow = ModelFamily { auto_compact_token_limit: Some(10), context_window: Some(0) };
    assert!(should_compact(&narrow, 8, 0, 0, true));
    assert!(!should_compact(&narrow, 7, 0, 120, false));
    let none = ModelFamily { auto_compact_token_limit: Some(-1), context_window: Some(0) };
    assert!(should_compact(&none, 0, 0, 120, false));
    assert!(!should_compact(&none, 0, 0, 120, true));
    assert!(fallback_message_limit(120));
    assert!(!fallback_message_limit(119));
}

#[test]
fn tokens_are_added_up() {
    assert_eq!(transcript_tokens(&vec![1, 2, 39]), 42);
    assert_eq!(transcript_tokens(&Vec::new()), 0);
}

#[test]
fn compaction_begins_with_a_word() {
    let tokens = vec![200_000, 20_000];
    let event = maybe_compact(&family("gpt-5.1"), &tokens, 0, 1, Some((0, 1))).expect("too long");
    assert_eq!(thinking(event), "Compacting history to stay within the context window…");
    assert!(maybe_compact(&family("gpt-5.1"), &tokens, 0, 1, None).is_none());
    assert!(maybe_compact(&family("gpt-5.1"), &vec![1], 0, 1, Some((0, 1))).is_none());
    let many = vec![0; 120];
    assert!(maybe_compact(&family("x"), &many, 0, 0, Some((0, 1))).is_some());
    assert!(maybe_compact(&family("x"), &many, 0, 1, Some((0, 1))).is_none());
}

#[test]
fn remote_compaction_replaces_the_history() {
    let mut conversation = items(5);
    let (event, result) = on_remote_compaction(&mut conversation, Some(items(2)));
    assert_eq!(thinking(event), "Finished compacting history (3 messages -> 2 total).");
    assert!(matches!(result, Some(CompactionResult::Completed { summary_text: None })));
    assert_eq!(conversation.len(), 2);
    let (event, _) = on_remote_compaction(&mut conversation, Some(items(1)));
    assert_eq!(thinking(event), "Finished compacting history (1 message -> 1 total).");
    let (event, _) = on_remote_compaction(&mut conversation, Some(items(4)));
    assert_eq!(thinking(event), "Finished compacting history (0 messages -> 4 total).");
    let (event, result) = on_remote_compaction(&mut conversation, None);
    assert_eq!(thinking(event), "Remote compaction failed; falling back to local summary.");
    assert!(result.is_none());
    assert_eq!(conversation.len(), 4);
}

#[test]
fn local_compaction_puts_a_summary_in() {
    let conversation = items(6);
    let slice = slice_to_summarize(&conversation, (1, 4));
    assert_eq!(slice.len(), 3);
    assert_eq!(text_of(&slice[0]), text_of(&conversation[1]));
    assert_eq!(text_of(&slice[2]), text_of(&conversation[3]));
    let (event, result) = on_local_compaction(true, 3, 4, "sum".to_string());
    assert_eq!(thinking(event), "Finished compacting history (3 messages -> 4 total).");
    assert!(matches!(
        result,
        CompactionResult::Completed { summary_text: Some(text) } if text == "sum"
    ));
    let (event, result) = on_local_compaction(false, 3, 6, "sum".to_string());
    assert!(thinking(event).starts_with("Failed to compact history because"));
    assert!(matches!(result, CompactionResult::Skipped));
    let warning = summary_warning_event(Some("no model".to_string())).unwrap();
    assert_eq!(
        thinking(warning),
        "History compaction warning: no model. Falling back to a deterministic summary."
    );
    assert!(summary_warning_event(None).is_none());
}
