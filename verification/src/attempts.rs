//! Asking the model once more after a faulty reply.
use crate::decision::{DecisionFailure, DecisionErrorView};
use crate::events::{AutoCoordinatorEvent, EventView};
use crate::items::{copy_items, items_view, make_message, message, ItemView, ResponseItem};
use crate::recovery::{RecoverableDecisionError, RecoveryView};
use crate::text::{
    contains, decimal, decimal_text, lemma_part_stands, lemma_stands_at, opt_text,
};
use vstd::prelude::*;
use vstd::string::*;

verus! {

/// How often in a row a faulty reply is asked for again.
pub const MAX_DECISION_RECOVERY_ATTEMPTS: u32 = 3;

/// What the model is told of instructions that are too long.
pub const OVERLONG_MSG: &'static str = "ERROR: Your last prompt_sent_to_cli was greater than 600 characters and was not sent to the CLI. Please try again with a shorter prompt. You must keep prompts succinct (<=600 chars) to give the CLI autonomy to decide how to best execute the task.";

/// The count of an attempt.
pub open spec fn attempt_words(attempt: u32) -> Seq<char> {
    "(attempt "@ + decimal(attempt as nat) + "/3)"@
}

fn attempt_text(attempt: u32) -> (r: String)
    ensures
        r@ == attempt_words(attempt),
{
    let mut text = "(attempt ".to_owned();
    text.append(decimal_text(attempt as u64).as_str());
    text.append("/3)");
    text
}

/// What the user is told of a faulty reply that is asked for again.
pub open spec fn retry_notice(
    attempt: u32,
    fault: RecoveryView,
    label: Seq<char>,
    raw_shared: bool,
) -> Seq<char> {
    "Coordinator response invalid "@ + attempt_words(attempt) + ": "@ + fault.summary
        + ". Retrying…\nSchema: "@ + label + (if raw_shared {
        "\nSee assistant message above for the full model output that failed validation."@
    } else {
        ""@
    })
}

/// What the user is told of a faulty reply that is asked for again.
pub fn retry_notice_text(
    attempt: u32,
    fault: &RecoverableDecisionError,
    label: &str,
    raw_shared: bool,
) -> (r: String)
    ensures
        r@ == retry_notice(attempt, fault@, label@, raw_shared),
{
    let mut text = "Coordinator response invalid ".to_owned();
    text.append(attempt_text(attempt).as_str());
    text.append(": ");
    text.append(fault.summary.as_str());
    text.append(". Retrying…\nSchema: ");
    text.append(label);
    if raw_shared {
        text.append("\nSee assistant message above for the full model output that failed validation.");
    } else {
        text.append("");
    }
    text
}

/// What the model is told of its faulty reply.
pub open spec fn retry_note(
    attempt: u32,
    error: Seq<char>,
    fault: RecoveryView,
    label: Seq<char>,
    raw_shared: bool,
) -> Seq<char> {
    "Previous coordinator response failed validation "@ + attempt_words(attempt) + ".\nError: "@
        + error + "\nSchema: "@ + label + (match fault.guidance {
        Some(guidance) => "\nGuidance: "@ + guidance,
        None => ""@,
    }) + (if raw_shared {
        "\n"@ + OVERLONG_MSG@
    } else {
        ""@
    })
}

/// What the model is told of its faulty reply.
pub fn retry_note_text(
    attempt: u32,
    error: &str,
    fault: &RecoverableDecisionError,
    label: &str,
    raw_shared: bool,
) -> (r: String)
    ensures
        r@ == retry_note(attempt, error@, fault@, label@, raw_shared),
{
    let mut text = "Previous coordinator response failed validation ".to_owned();
    text.append(attempt_text(attempt).as_str());
    text.append(".\nError: ");
    text.append(error);
    text.append("\nSchema: ");
    text.append(label);
    let mut guidance_line = "".to_owned();
    if let Some(guidance) = &fault.guidance {
        guidance_line = "\nGuidance: ".to_owned();
        guidance_line.append(guidance.as_str());
    }
    text.append(guidance_line.as_str());
    let mut hint = "".to_owned();
    if raw_shared {
        hint = "\n".to_owned();
        hint.append(OVERLONG_MSG);
    }
    text.append(hint.as_str());
    text
}

/// The conversation in which a faulty reply is asked for again: the reply, if there was one, and
/// what is wrong with it.
pub open spec fn retry_conversation(
    conversation: Seq<ItemView>,
    raw: Option<Seq<char>>,
    note: Seq<char>,
) -> Seq<ItemView> {
    (match raw {
        Some(raw) => conversation.push(message("assistant"@, raw)),
        None => conversation,
    }).push(message("developer"@, note))
}

/// What is announced when a faulty reply is asked for again.
pub open spec fn retry_events(notice: Seq<char>, conversation: Seq<ItemView>) -> Seq<EventView> {
    seq![
        EventView::Thinking { delta: notice, summary_index: None },
        EventView::CompactedHistory { conversation, show_notice: false },
        EventView::Action {
            message: "Retrying prompt generation after the previous response was too long to send to the CLI."@,
        },
    ]
}

/// What is said of a faulty reply, and the conversation in which it is asked for again.
pub open spec fn retry_plan(
    attempt: u32,
    error: DecisionErrorView,
    label: Seq<char>,
    raw: Option<Seq<char>>,
    fault: RecoveryView,
    conversation: Seq<ItemView>,
) -> (Seq<EventView>, Seq<ItemView>) {
    let retry = retry_conversation(
        conversation,
        raw,
        retry_note(attempt, error.text(), fault, label, raw is Some),
    );
    (retry_events(retry_notice(attempt, fault, label, raw is Some), retry), retry)
}

/// Plans to ask for a faulty reply again: what is announced, and the conversation.
pub fn plan_retry(
    attempt: u32,
    failure: &DecisionFailure,
    fault: &RecoverableDecisionError,
    conversation: Vec<ResponseItem>,
) -> (r: (Vec<AutoCoordinatorEvent>, Vec<ResponseItem>))
    ensures
        (crate::events::events_view(r.0@), items_view(r.1@)) == retry_plan(
            attempt,
            failure.error@,
            failure.schema_label@,
            opt_text(failure.output_text),
            fault@,
            items_view(conversation@),
        ),
{
    let raw_shared = failure.output_text.is_some();
    let mut retry = conversation;
    if let Some(raw) = &failure.output_text {
        let item = make_message("assistant", raw.clone());
        retry.push(item);
        assert(items_view(retry@) =~= items_view(conversation@).push(item@));
    }
    let ghost before_note = items_view(retry@);
    let error = failure.error.to_text();
    let note = make_message(
        "developer",
        retry_note_text(attempt, error.as_str(), fault, failure.schema_label, raw_shared),
    );
    retry.push(note);
    assert(items_view(retry@) =~= before_note.push(note@));
    let mut events: Vec<AutoCoordinatorEvent> = Vec::new();
    let notice = AutoCoordinatorEvent::Thinking {
        delta: retry_notice_text(attempt, fault, failure.schema_label, raw_shared),
        summary_index: None,
    };
    let history = AutoCoordinatorEvent::CompactedHistory {
        conversation: copy_items(&retry),
        show_notice: false,
    };
    let action = AutoCoordinatorEvent::Action {
        message: "Retrying prompt generation after the previous response was too long to send to the CLI.".to_owned(),
    };
    events.push(notice);
    events.push(history);
    events.push(action);
    assert(crate::events::events_view(events@) =~= retry_events(notice@->delta, items_view(retry@)));
    (events, retry)
}

/// A faulty reply is asked for again with the whole conversation before it, and with a note on
/// what is wrong at the end.
pub proof fn law_retry_keeps_conversation(
    conversation: Seq<ItemView>,
    raw: Option<Seq<char>>,
    note: Seq<char>,
)
    ensures
        conversation.is_prefix_of(retry_conversation(conversation, raw, note)),
        retry_conversation(conversation, raw, note).last() == message("developer"@, note),
        raw matches Some(text) ==> retry_conversation(conversation, raw, note)[conversation.len() as int]
            == message("assistant"@, text),
{
}

/// The model is told which attempt it is, out of three, what was wrong in the words of the error,
/// which form the reply should have had, and how to do better; of a reply that it gets to see
/// again it is told to keep within 600 characters.
pub proof fn law_notes_say_what_is_wrong(
    attempt: u32,
    error: Seq<char>,
    fault: RecoveryView,
    label: Seq<char>,
    raw_shared: bool,
)
    ensures
        ({
            let note = retry_note(attempt, error, fault, label, raw_shared);
            &&& contains(note, "(attempt "@ + decimal(attempt as nat) + "/3)"@)
            &&& contains(note, error)
            &&& contains(note, label)
            &&& fault.guidance matches Some(guidance) ==> contains(note, guidance)
            &&& raw_shared ==> contains(note, OVERLONG_MSG@)
        }),
{
    let note = retry_note(attempt, error, fault, label, raw_shared);
    let a = "Previous coordinator response failed validation "@;
    let n = "(attempt "@ + decimal(attempt as nat) + "/3)"@;
    let b = ".\nError: "@;
    let c = "\nSchema: "@;
    let g = match fault.guidance {
        Some(guidance) => "\nGuidance: "@ + guidance,
        None => ""@,
    };
    let o = if raw_shared {
        "\n"@ + OVERLONG_MSG@
    } else {
        ""@
    };
    assert(note == a + n + b + error + c + label + g + o);
    lemma_part_stands(a, n, b + error + c + label + g + o);
    assert(note =~= a + n + (b + error + c + label + g + o));
    lemma_part_stands(a + n + b, error, c + label + g + o);
    assert(note =~= a + n + b + error + (c + label + g + o));
    lemma_part_stands(a + n + b + error + c, label, g + o);
    assert(note =~= a + n + b + error + c + label + (g + o));
    if let Some(guidance) = fault.guidance {
        let front = a + n + b + error + c + label + "\nGuidance: "@;
        lemma_part_stands(front, guidance, o);
        assert(note =~= front + guidance + o);
    }
    if raw_shared {
        let front = a + n + b + error + c + label + g + "\n"@;
        lemma_part_stands(front, OVERLONG_MSG@, Seq::empty());
        assert(note =~= front + OVERLONG_MSG@ + Seq::<char>::empty());
    }
}

/// The user is told which attempt it is, out of three, what is wrong and which form the reply should
/// have had.
pub proof fn law_notices_say_what_is_wrong(
    attempt: u32,
    fault: RecoveryView,
    label: Seq<char>,
    raw_shared: bool,
)
    ensures
        ({
            let notice = retry_notice(attempt, fault, label, raw_shared);
            &&& contains(notice, "(attempt "@ + decimal(attempt as nat) + "/3)"@)
            &&& contains(notice, fault.summary)
            &&& contains(notice, label)
        }),
{
    let notice = retry_notice(attempt, fault, label, raw_shared);
    let a = "Coordinator response invalid "@;
    let n = "(attempt "@ + decimal(attempt as nat) + "/3)"@;
    let b = ": "@;
    let c = ". Retrying…\nSchema: "@;
    let d = if raw_shared {
        "\nSee assistant message above for the full model output that failed validation."@
    } else {
        ""@
    };
    assert(notice == a + n + b + fault.summary + c + label + d);
    lemma_part_stands(a, n, b + fault.summary + c + label + d);
    assert(notice =~= a + n + (b + fault.summary + c + label + d));
    lemma_part_stands(a + n + b, fault.summary, c + label + d);
    assert(notice =~= a + n + b + fault.summary + (c + label + d));
    lemma_part_stands(a + n + b + fault.summary + c, label, d);
}

/// A faulty reply is asked for again three times in a row, and the model is told of instructions of
/// more than 600 characters.
pub proof fn law_three_attempts()
    ensures
        MAX_DECISION_RECOVERY_ATTEMPTS == 3,
        contains(OVERLONG_MSG@, "600 characters"@),
        contains(OVERLONG_MSG@, "was not sent to the CLI"@),
{
    reveal_strlit(
        "ERROR: Your last prompt_sent_to_cli was greater than 600 characters and was not sent to the CLI. Please try again with a shorter prompt. You must keep prompts succinct (<=600 chars) to give the CLI autonomy to decide how to best execute the task.",
    );
    reveal_strlit("600 characters");
    reveal_strlit("was not sent to the CLI");
    lemma_stands_at(OVERLONG_MSG@, "600 characters"@, 53);
    lemma_stands_at(OVERLONG_MSG@, "was not sent to the CLI"@, 72);
}

/// When a faulty reply is asked for again the user hears why, the history is replaced by the one
/// that is asked in, without a notice, and an action is announced.
pub proof fn law_retries_are_announced(
    attempt: u32,
    error: DecisionErrorView,
    label: Seq<char>,
    raw: Option<Seq<char>>,
    fault: RecoveryView,
    conversation: Seq<ItemView>,
)
    ensures
        ({
            let (events, next) = retry_plan(attempt, error, label, raw, fault, conversation);
            let n = conversation.len() as int;
            &&& events.len() == 3
            &&& events[0] matches EventView::Thinking { delta, summary_index: None } && contains(
                delta,
                fault.summary,
            )
            &&& events[1] == (EventView::CompactedHistory {
                conversation: next,
                show_notice: false,
            })
            &&& events[2] matches EventView::Action { message } && contains(
                message,
                "Retrying prompt generation"@,
            )
            &&& next.take(n) == conversation
            &&& next.len() == n + if raw is Some {
                2int
            } else {
                1int
            }
        }),
{
    law_notices_say_what_is_wrong(attempt, fault, label, raw is Some);
    let next = retry_plan(attempt, error, label, raw, fault, conversation).1;
    assert(next.take(conversation.len() as int) =~= conversation);
    let action =
        "Retrying prompt generation after the previous response was too long to send to the CLI."@;
    reveal_strlit(
        "Retrying prompt generation after the previous response was too long to send to the CLI.",
    );
    reveal_strlit("Retrying prompt generation");
    lemma_stands_at(action, "Retrying prompt generation"@, 0);
}

/// Where the faulty reply stands in the conversation, the notice points to it and is otherwise the
/// same.
pub proof fn law_faulty_replies_are_pointed_to(attempt: u32, fault: RecoveryView, label: Seq<char>)
    ensures
        retry_notice(attempt, fault, label, false).is_prefix_of(
            retry_notice(attempt, fault, label, true),
        ),
        contains(
            retry_notice(attempt, fault, label, true).skip(
                retry_notice(attempt, fault, label, false).len() as int,
            ),
            "See assistant message above"@,
        ),
{
    let less = retry_notice(attempt, fault, label, false);
    let more = retry_notice(attempt, fault, label, true);
    let pointer =
        "\nSee assistant message above for the full model output that failed validation."@;
    reveal_strlit("");
    reveal_strlit(
        "\nSee assistant message above for the full model output that failed validation.",
    );
    reveal_strlit("See assistant message above");
    assert(more =~= less + pointer);
    assert(more.subrange(0, less.len() as int) =~= less);
    assert(more.skip(less.len() as int) =~= pointer);
    lemma_stands_at(pointer, "See assistant message above"@, 1);
}

} // verus!
