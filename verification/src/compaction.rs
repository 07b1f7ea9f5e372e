//! Keeping the history within what a model can take in.
use crate::events::{AutoCoordinatorEvent, EventView};
use crate::items::{copy_item, items_view, ResponseItem};
use crate::text::{
    contains, decimal, decimal_text, lemma_part_stands, lemma_stands_at, opt_text,
};
use vstd::prelude::*;
use vstd::string::*;

verus! {

/// The number of messages from which on a history is too long, where nothing else is known.
pub const MESSAGE_LIMIT_FALLBACK: usize = 120;

/// What is known of how much a model can take in.
#[derive(Debug, Clone, Copy)]
pub struct ModelFamily {
    /// The number of tokens from which on a history should be made shorter.
    pub auto_compact_token_limit: Option<i64>,
    /// The number of tokens that the model can take in.
    pub context_window: Option<u64>,
}

/// The limit from which on a history should be made shorter, where it is of use.
pub open spec fn automatic_limit(family: ModelFamily) -> Option<u64> {
    match family.auto_compact_token_limit {
        Some(limit) => if limit > 0 {
            Some(limit as u64)
        } else {
            None
        },
        None => None,
    }
}

/// The number of tokens that counts as the most a model can take in, where it is known: the size of
/// its window, or else the limit from which on a history should be made shorter. It is never 0.
pub open spec fn token_limit(family: ModelFamily) -> Option<u64> {
    match family.context_window {
        Some(window) => if window > 0 {
            Some(window)
        } else {
            automatic_limit(family)
        },
        None => automatic_limit(family),
    }
}

/// Whether there are so many messages that a history is too long, where nothing else is known.
pub fn fallback_message_limit(message_count: usize) -> (r: bool)
    ensures
        r == (message_count >= MESSAGE_LIMIT_FALLBACK),
{
    message_count >= MESSAGE_LIMIT_FALLBACK
}

/// A history is too long: with the next turn it takes four fifths of the known limit or more, or,
/// where no limit is known and no turn was counted, it has too many messages.
pub open spec fn too_long(
    family: ModelFamily,
    transcript_tokens: int,
    estimated_next: int,
    message_count: int,
    has_recorded_turns: bool,
) -> bool {
    match token_limit(family) {
        Some(limit) => 5 * (transcript_tokens + estimated_next) >= 4 * limit,
        None => !has_recorded_turns && message_count >= MESSAGE_LIMIT_FALLBACK,
    }
}

/// The number of tokens that counts as the most a model can take in.
fn known_limit(family: &ModelFamily) -> (r: Option<u64>)
    ensures
        r == token_limit(*family),
{
    if let Some(window) = family.context_window {
        if window > 0 {
            return Some(window);
        }
    }
    match family.auto_compact_token_limit {
        Some(limit) => if limit > 0 {
            Some(limit as u64)
        } else {
            None
        },
        None => None,
    }
}

/// Decides whether a history is to be made shorter: with a known window, from four fifths of it on.
pub fn should_compact(
    family: &ModelFamily,
    transcript_tokens: u64,
    estimated_next: u64,
    message_count: usize,
    has_recorded_turns: bool,
) -> (r: bool)
    ensures
        r == too_long(
            *family,
            transcript_tokens as int,
            estimated_next as int,
            message_count as int,
            has_recorded_turns,
        ),
        family.context_window matches Some(w) ==> (w > 0 ==> r == (5 * (transcript_tokens
            + estimated_next) >= 4 * w)),
{
    if let Some(limit) = known_limit(family) {
        let projected: u128 = transcript_tokens as u128 + estimated_next as u128;
        return projected * 5 >= limit as u128 * 4;
    }
    if has_recorded_turns {
        return false;
    }
    fallback_message_limit(message_count)
}

/// A longer history is never spared where a shorter one is not.
pub proof fn law_too_long_monotone(
    family: ModelFamily,
    tokens: int,
    more_tokens: int,
    next: int,
    more_next: int,
    messages: int,
    more_messages: int,
    recorded: bool,
)
    requires
        tokens <= more_tokens,
        next <= more_next,
        messages <= more_messages,
        too_long(family, tokens, next, messages, recorded),
    ensures
        too_long(family, more_tokens, more_next, more_messages, recorded),
{
}

/// Where a limit in tokens is known, the number of messages does not count.
pub proof fn law_known_limit_decides(
    family: ModelFamily,
    tokens: int,
    next: int,
    messages: int,
    other_messages: int,
    recorded: bool,
    other_recorded: bool,
)
    requires
        token_limit(family) is Some,
    ensures
        too_long(family, tokens, next, messages, recorded) == too_long(
            family,
            tokens,
            next,
            other_messages,
            other_recorded,
        ),
{
}

/// The sum of numbers.
pub open spec fn sum(numbers: Seq<u64>) -> int
    decreases numbers.len(),
{
    if numbers.len() == 0 {
        0
    } else {
        sum(numbers.drop_last()) + numbers.last()
    }
}

proof fn lemma_sum_prefix(numbers: Seq<u64>, n: int)
    requires
        0 <= n <= numbers.len(),
    ensures
        0 <= sum(numbers.take(n)) <= sum(numbers),
    decreases numbers.len(),
{
    if n == numbers.len() {
        assert(numbers.take(n) =~= numbers);
        if n > 0 {
            lemma_sum_prefix(numbers.drop_last(), n - 1);
            assert(numbers.drop_last().take(n - 1) =~= numbers.drop_last());
        }
    } else {
        lemma_sum_prefix(numbers.drop_last(), n);
        assert(numbers.drop_last().take(n) =~= numbers.take(n));
    }
}

/// The tokens of a history, given the tokens of each item.
pub fn transcript_tokens(estimates: &Vec<u64>) -> (r: u64)
    requires
        sum(estimates@) <= u64::MAX,
    ensures
        r == sum(estimates@),
{
    let mut total: u64 = 0;
    let mut i: usize = 0;
    assert(estimates@.take(0) =~= Seq::empty());
    while i < estimates.len()
        invariant
            i <= estimates@.len(),
            total == sum(estimates@.take(i as int)),
            sum(estimates@) <= u64::MAX,
        decreases estimates.len() - i,
    {
        proof {
            lemma_sum_prefix(estimates@, i + 1);
            assert(estimates@.take(i + 1).drop_last() =~= estimates@.take(i as int));
        }
        total = total + estimates[i];
        i = i + 1;
    }
    assert(estimates@.take(i as int) =~= estimates@);
    total
}

/// What became of making a history shorter.
#[derive(Debug, Clone)]
pub enum CompactionResult {
    /// It was left as it was.
    Skipped,
    /// It was made shorter; the summary that stands for what was taken out, if there is one.
    Completed { summary_text: Option<String> },
}

/// A thought to be shown.
pub open spec fn thinking(text: Seq<char>) -> EventView {
    EventView::Thinking { delta: text, summary_index: None }
}

/// What is told when a history was made shorter.
pub open spec fn finished_words(removed: int, total: int) -> Seq<char> {
    "Finished compacting history ("@ + decimal(removed as nat) + " message"@ + (if removed == 1 {
        ""@
    } else {
        "s"@
    }) + " -> "@ + decimal(total as nat) + " total)."@
}

/// A thought to be shown.
fn thought(text: String) -> (r: AutoCoordinatorEvent)
    ensures
        r@ == thinking(text@),
{
    AutoCoordinatorEvent::Thinking { delta: text, summary_index: None }
}

/// What is told when a history was made shorter.
fn finished_event(removed: usize, total: usize) -> (r: AutoCoordinatorEvent)
    ensures
        r@ == thinking(finished_words(removed as int, total as int)),
{
    let mut text = "Finished compacting history (".to_owned();
    text.append(decimal_text(removed as u64).as_str());
    text.append(" message");
    if removed == 1 {
        text.append("");
    } else {
        text.append("s");
    }
    text.append(" -> ");
    text.append(decimal_text(total as u64).as_str());
    text.append(" total).");
    thought(text)
}

/// Begins to make a history shorter, where it is too long and some of it can be taken out; what is
/// told then. `item_tokens` are the tokens of each item, `estimated_next` those of the next turn,
/// `turn_count` the number of turns that were counted, and `bounds` the part that can be taken
/// out.
pub fn maybe_compact(
    family: &ModelFamily,
    item_tokens: &Vec<u64>,
    estimated_next: u64,
    turn_count: u32,
    bounds: Option<(usize, usize)>,
) -> (r: Option<AutoCoordinatorEvent>)
    requires
        sum(item_tokens@) <= u64::MAX,
    ensures
        r is Some <==> bounds is Some && too_long(
            *family,
            sum(item_tokens@),
            estimated_next as int,
            item_tokens@.len() as int,
            turn_count > 0,
        ),
        r matches Some(event) ==> event@ == thinking(
            "Compacting history to stay within the context window…"@,
        ),
{
    let tokens: u64 = transcript_tokens(item_tokens);
    if !should_compact(family, tokens, estimated_next, item_tokens.len(), turn_count > 0) {
        return None;
    }
    match bounds {
        Some(_) => Some(
            thought("Compacting history to stay within the context window…".to_owned()),
        ),
        None => None,
    }
}

/// How many items fewer a history has.
pub open spec fn taken_out(before: int, after: int) -> int {
    if before >= after {
        before - after
    } else {
        0
    }
}

/// What comes of asking the provider to make a history shorter: the history before and after, what is
/// told, and what became of it where it is done.
pub open spec fn remote_taken(
    before: Seq<ResponseItem>,
    compacted: Option<Vec<ResponseItem>>,
    after: Seq<ResponseItem>,
    r: (AutoCoordinatorEvent, Option<CompactionResult>),
) -> bool {
    match compacted {
        Some(items) => {
            &&& after == items@
            &&& r.0@ == thinking(
                finished_words(
                    taken_out(before.len() as int, items@.len() as int),
                    items@.len() as int,
                ),
            )
            &&& r.1 matches Some(CompactionResult::Completed { summary_text: None })
        },
        None => {
            &&& after == before
            &&& r.0@ == thinking("Remote compaction failed; falling back to local summary."@)
            &&& r.1 is None
        },
    }
}

/// Takes the history that the provider made shorter, or falls back to a summary where it could
/// not; what is told, and what became of it where it is done.
pub fn on_remote_compaction(
    conversation: &mut Vec<ResponseItem>,
    compacted: Option<Vec<ResponseItem>>,
) -> (r: (AutoCoordinatorEvent, Option<CompactionResult>))
    ensures
        remote_taken(old(conversation)@, compacted, final(conversation)@, r),
        match compacted {
            Some(items) => {
                &&& final(conversation)@ == items@
                &&& r.0@ == thinking(
                    finished_words(
                        taken_out(old(conversation)@.len() as int, items@.len() as int),
                        items@.len() as int,
                    ),
                )
                &&& r.1 matches Some(CompactionResult::Completed { summary_text: None })
            },
            None => {
                &&& *final(conversation) == *old(conversation)
                &&& r.0@ == thinking("Remote compaction failed; falling back to local summary."@)
                &&& r.1 is None
            },
        },
{
    match compacted {
        Some(items) => {
            let before: usize = conversation.len();
            let after: usize = items.len();
            let removed: usize = if before >= after {
                before - after
            } else {
                0
            };
            *conversation = items;
            (
                finished_event(removed, after),
                Some(CompactionResult::Completed { summary_text: None }),
            )
        },
        None => (
            thought("Remote compaction failed; falling back to local summary.".to_owned()),
            None,
        ),
    }
}

/// The part of a history that a summary is to stand for.
pub fn slice_to_summarize(conversation: &Vec<ResponseItem>, bounds: (usize, usize)) -> (r: Vec<
    ResponseItem,
>)
    requires
        bounds.0 <= bounds.1 <= conversation@.len(),
    ensures
        items_view(r@) == items_view(conversation@).subrange(bounds.0 as int, bounds.1 as int),
{
    let mut slice: Vec<ResponseItem> = Vec::new();
    let mut i: usize = bounds.0;
    while i < bounds.1
        invariant
            bounds.0 <= i <= bounds.1 <= conversation@.len(),
            slice@.len() == i - bounds.0,
            forall|j: int| 0 <= j < slice@.len() ==> (#[trigger] slice@[j])@ == conversation@[bounds.0 + j]@,
        decreases bounds.1 - i,
    {
        slice.push(copy_item(&conversation[i]));
        i = i + 1;
    }
    assert(items_view(slice@) =~= items_view(conversation@).subrange(
        bounds.0 as int,
        bounds.1 as int,
    ));
    slice
}

/// What is told where a summary could not be had from the model.
pub fn summary_warning_event(warning: Option<String>) -> (r: Option<AutoCoordinatorEvent>)
    ensures
        r is Some <==> warning is Some,
        r matches Some(event) ==> event@ == thinking(
            "History compaction warning: "@ + warning.unwrap()@
                + ". Falling back to a deterministic summary."@,
        ),
{
    match warning {
        Some(warning) => {
            let mut text = "History compaction warning: ".to_owned();
            text.append(warning.as_str());
            text.append(". Falling back to a deterministic summary.");
            Some(thought(text))
        },
        None => None,
    }
}

/// Ends making a history shorter with a summary: whether the summary was put in, how many items it
/// stands for, and how many items there are now.
pub fn on_local_compaction(applied: bool, removed: usize, total: usize, summary: String) -> (r: (
    AutoCoordinatorEvent,
    CompactionResult,
))
    ensures
        r.0@ == if applied {
            thinking(finished_words(removed as int, total as int))
        } else {
            thinking(
                "Failed to compact history because the conversation changed while applying the summary. Continuing without compaction."@,
            )
        },
        match r.1 {
            CompactionResult::Completed { summary_text } => applied && opt_text(summary_text)
                == Some(summary@),
            CompactionResult::Skipped => !applied,
        },
{
    if applied {
        (
            finished_event(removed, total),
            CompactionResult::Completed { summary_text: Some(summary) },
        )
    } else {
        (
            thought(
                "Failed to compact history because the conversation changed while applying the summary. Continuing without compaction.".to_owned(),
            ),
            CompactionResult::Skipped,
        )
    }
}

/// A history is too long from four fifths of the window on, where the window is known; else from four
/// fifths of the limit on from which on it should be made shorter; where neither is known and no turn
/// was counted, from 120 messages on, and otherwise never.
pub proof fn law_when_a_history_is_too_long(
    family: ModelFamily,
    tokens: int,
    next: int,
    messages: int,
    recorded: bool,
)
    ensures
        ({
            let long = too_long(family, tokens, next, messages, recorded);
            let window: int = match family.context_window {
                Some(w) => w as int,
                None => 0,
            };
            let limit: int = match family.auto_compact_token_limit {
                Some(l) => l as int,
                None => 0,
            };
            &&& window > 0 ==> (long <==> 5 * (tokens + next) >= 4 * window)
            &&& window == 0 && limit > 0 ==> (long <==> 5 * (tokens + next) >= 4 * limit)
            &&& window == 0 && limit <= 0 ==> (long <==> !recorded && messages >= 120)
        }),
{
}

/// The tokens of a history are those of its parts together, and every item counts.
pub proof fn law_tokens_add_up(a: Seq<u64>, b: Seq<u64>, n: u64)
    ensures
        sum(a + b) == sum(a) + sum(b),
        sum(seq![n]) == n,
        sum(Seq::<u64>::empty()) == 0,
    decreases b.len(),
{
    if b.len() == 0 {
        assert(a + b =~= a);
    } else {
        law_tokens_add_up(a, b.drop_last(), n);
        assert((a + b).drop_last() =~= a + b.drop_last());
    }
    assert(seq![n].drop_last() =~= Seq::<u64>::empty());
    assert(sum(seq![n].drop_last()) == 0);
}

/// When a history was made shorter the user is told how many messages fewer there are and how many
/// there are now, and nothing is said to be taken out of one that has grown.
pub proof fn law_what_was_taken_out_is_told(before: nat, after: nat)
    ensures
        ({
            let removed = taken_out(before as int, after as int);
            let words = finished_words(removed, after as int);
            &&& after <= before ==> removed + after == before
            &&& after > before ==> removed == 0
            &&& contains(words, "("@ + decimal(removed as nat) + " message"@)
            &&& contains(words, "-> "@ + decimal(after) + " total"@)
            &&& removed == 1 ==> contains(words, " message -> "@)
            &&& removed != 1 ==> contains(words, " messages -> "@)
        }),
{
    let removed = taken_out(before as int, after as int);
    let words = finished_words(removed, after as int);
    let n = decimal(removed as nat);
    let m = decimal(after);
    let a = "Finished compacting history ("@;
    let plural = if removed == 1 {
        ""@
    } else {
        "s"@
    };
    reveal_strlit("Finished compacting history (");
    reveal_strlit("(");
    reveal_strlit(" message");
    reveal_strlit("");
    reveal_strlit("s");
    reveal_strlit(" -> ");
    reveal_strlit("-> ");
    reveal_strlit(" total).");
    reveal_strlit(" total");
    reveal_strlit(" message -> ");
    reveal_strlit(" messages -> ");
    lemma_stands_at(words, "("@ + n + " message"@, 28);
    let p = a + n + " message"@ + plural;
    lemma_stands_at(words, "-> "@ + m + " total"@, (p.len() + 1) as int);
    if removed == 1 {
        lemma_stands_at(words, " message -> "@, (a.len() + n.len()) as int);
    } else {
        lemma_stands_at(words, " messages -> "@, (a.len() + n.len()) as int);
    }
}

/// A thought is shown in its own words, under no heading.
pub proof fn law_thoughts_are_shown(text: Seq<char>)
    ensures
        thinking(text) matches EventView::Thinking { delta, summary_index } && delta == text
            && summary_index is None,
{
}

/// To make a history shorter is begun exactly where it is too long and a part can be taken out, and
/// the user is told.
pub proof fn law_when_compaction_begins(
    family: &ModelFamily,
    item_tokens: &Vec<u64>,
    estimated_next: u64,
    turn_count: u32,
    bounds: Option<(usize, usize)>,
    r: Option<AutoCoordinatorEvent>,
)
    requires
        call_ensures(maybe_compact, (family, item_tokens, estimated_next, turn_count, bounds), r),
    ensures
        bounds is None ==> r is None,
        family.context_window matches Some(window) ==> (window > 0 && bounds is Some ==> (r is Some
            <==> 5 * (sum(item_tokens@) + estimated_next) >= 4 * window)),
        r matches Some(event) ==> (event@ matches EventView::Thinking { delta, .. } && contains(
            delta,
            "Compacting history"@,
        )),
{
    let told = "Compacting history to stay within the context window…"@;
    reveal_strlit("Compacting history to stay within the context window…");
    reveal_strlit("Compacting history");
    lemma_stands_at(told, "Compacting history"@, 0);
}

/// A history that could be made shorter with a summary is, and the summary is kept; else it is left as
/// it was, and the user is told so.
pub proof fn law_how_compaction_ends(
    applied: bool,
    removed: usize,
    total: usize,
    summary: String,
    r: (AutoCoordinatorEvent, CompactionResult),
)
    requires
        call_ensures(on_local_compaction, (applied, removed, total, summary), r),
    ensures
        applied ==> (r.1 matches CompactionResult::Completed { summary_text: Some(text) } && text@
            == summary@),
        !applied ==> r.1 is Skipped,
        applied ==> r.0@ == thinking(finished_words(removed as int, total as int)),
        !applied ==> (r.0@ matches EventView::Thinking { delta, .. } && contains(
            delta,
            "Failed to compact history"@,
        )),
{
    let told =
        "Failed to compact history because the conversation changed while applying the summary. Continuing without compaction."@;
    reveal_strlit(
        "Failed to compact history because the conversation changed while applying the summary. Continuing without compaction.",
    );
    reveal_strlit("Failed to compact history");
    lemma_stands_at(told, "Failed to compact history"@, 0);
}

/// What a summary is to stand for is the part of the history between the bounds, in its order.
pub proof fn law_what_is_summarized(
    conversation: &Vec<ResponseItem>,
    bounds: (usize, usize),
    r: Vec<ResponseItem>,
    i: int,
)
    requires
        call_ensures(slice_to_summarize, (conversation, bounds), r),
        bounds.0 <= bounds.1 <= conversation@.len(),
        0 <= i < bounds.1 - bounds.0,
    ensures
        r@.len() == bounds.1 - bounds.0,
        r@[i]@ == conversation@[bounds.0 + i]@,
{
    assert(items_view(r@).len() == r@.len());
    assert(items_view(r@)[i] == r@[i]@);
    assert(items_view(conversation@)[bounds.0 + i] == conversation@[bounds.0 + i]@);
}

/// A warning about a summary reaches the user in its own words.
pub proof fn law_warnings_are_told(warning: Option<String>, r: Option<AutoCoordinatorEvent>)
    requires
        call_ensures(summary_warning_event, (warning,), r),
    ensures
        warning is None ==> r is None,
        warning matches Some(text) ==> (r matches Some(event) && (
        event@ matches EventView::Thinking { delta, .. } && contains(delta, text@))),
{
    if let Some(text) = warning {
        lemma_part_stands(
            "History compaction warning: "@,
            text@,
            ". Falling back to a deterministic summary."@,
        );
    }
}

/// A history that the provider made shorter takes the place of the one before it, whole, and that is
/// the end of it; where the provider could not, the history stays as it was and a summary is to be
/// tried.
pub proof fn law_shorter_histories_are_taken(
    before: Seq<ResponseItem>,
    compacted: Option<Vec<ResponseItem>>,
    after: Seq<ResponseItem>,
    r: (AutoCoordinatorEvent, Option<CompactionResult>),
)
    requires
        remote_taken(before, compacted, after, r),
    ensures
        compacted matches Some(items) ==> after == items@ && (r.1 matches Some(
            CompactionResult::Completed { summary_text },
        ) && summary_text is None),
        compacted matches Some(items) ==> (before.len() >= items@.len() ==> r.0@ == thinking(
            finished_words(before.len() - items@.len(), items@.len() as int),
        )),
        compacted is None ==> after == before && r.1 is None,
        compacted is None ==> (r.0@ matches EventView::Thinking { delta, .. } && contains(
            delta,
            "Remote compaction failed"@,
        )),
{
    let told = "Remote compaction failed; falling back to local summary."@;
    reveal_strlit("Remote compaction failed; falling back to local summary.");
    reveal_strlit("Remote compaction failed");
    lemma_stands_at(told, "Remote compaction failed"@, 0);
}

} // verus!
