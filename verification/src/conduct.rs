//! What holds of a coordinator throughout a mission.
use crate::attempts::{
    law_notes_say_what_is_wrong, law_notices_say_what_is_wrong, law_retry_keeps_conversation,
    retry_note, MAX_DECISION_RECOVERY_ATTEMPTS,
};
use crate::compaction::CompactionResult;
use crate::coordinator::{
    ack_step, answer_step, asks_again, command_taken, compaction_step, decision_step, failure_step,
    is_cancelled, mission_start, next_seq, next_step, one_more, over_cap, seed_event, seeded,
    stop_step, update_step, AnswerView, CommandAction, CoordinatorView, Mission, NextView,
};
use crate::decision::{DecisionErrorView, DecisionView};
use crate::events::{AutoCoordinatorCommand, AutoTurnAgentsTiming, EventView};
use crate::items::{
    items_view, law_filter_popular_idempotent, law_messages_hold_their_text, message,
    without_popular, ContentView, ItemView,
};
use crate::prompts::{law_plans_are_asked_for, planning_json};
use crate::recovery::recoverable;
use crate::text::{
    blank, contains, decimal, law_same_but_for_capitals, lemma_part_stands, lemma_stands_at,
    opt_text, trim,
};
use vstd::prelude::*;

verus! {

/// What holds at all times: the decision that waits to be acknowledged is the last one, and no more
/// faulty replies in a row have come than are asked for again.
pub open spec fn sound(v: CoordinatorView) -> bool {
    &&& v.ack matches Some(seq) ==> seq == v.seq
    &&& v.failures <= MAX_DECISION_RECOVERY_ATTEMPTS
}

/// A mission begins sound, and nothing that happens makes it unsound.
pub proof fn law_missions_stay_sound(
    m: Mission,
    v: CoordinatorView,
    d: DecisionView,
    fault: Fault,
    conversation: Seq<ItemView>,
    result: CompactionResult,
    outcome: AnswerView,
    seq: u64,
    cancelled: bool,
)
    requires
        sound(v),
    ensures
        sound(mission_start(m)),
        sound(next_step(v, cancelled).0),
        sound(decision_step(v, d).0),
        sound(failure_step(v, fault.error, fault.label, fault.raw, fault.conversation).0),
        sound(ack_step(v, seq)),
        sound(update_step(v, conversation)),
        sound(stop_step(v)),
        sound(compaction_step(v, result, conversation).0),
        sound(answer_step(v, conversation, outcome).0),
{
}

/// To acknowledge the last decision leaves none that waits to be acknowledged.
pub proof fn law_last_ack_releases(v: CoordinatorView)
    requires
        sound(v),
    ensures
        ack_step(v, v.seq).ack is None,
{
}

/// The model is asked only while no decision waits to be acknowledged, and never once the mission
/// has ended or the run was cancelled.
pub proof fn law_one_decision_at_a_time(v: CoordinatorView, cancelled: bool)
    ensures
        next_step(v, cancelled).1 is Decide ==> v.ack is None && !v.stopped && !cancelled,
{
}

/// Each decision bears the next number, and from then on it is the one to be acknowledged.
pub proof fn law_decisions_are_numbered(v: CoordinatorView, d: DecisionView, cancelled: bool)
    ensures
        decision_step(v, d).1 matches EventView::Decision(event) && {
            &&& event.seq == next_seq(v.seq)
            &&& decision_step(v, d).0.seq == event.seq
            &&& decision_step(v, d).0.ack == Some(event.seq)
        },
        !(next_step(decision_step(v, d).0, cancelled).1 is Decide),
{
}

/// Only the acknowledgement of the decision that waits for it changes anything.
pub proof fn law_other_acks_are_ignored(v: CoordinatorView, seq: u64)
    requires
        v.ack != Some(seq),
    ensures
        ack_step(v, seq) == v,
{
}

/// The conversations that wait to be looked at, the next one first.
pub open spec fn waiting(v: CoordinatorView) -> Seq<Seq<ItemView>> {
    match v.pending {
        Some(conversation) => seq![conversation] + v.queue,
        None => v.queue,
    }
}

/// There is nothing to do but to wait to be told something.
pub open spec fn settled(v: CoordinatorView) -> bool {
    v.pending is None && (v.ack is None ==> v.queue.len() == 0)
}

/// The coordinator waits only when there is nothing else to do.
pub proof fn law_waits_when_settled(v: CoordinatorView, cancelled: bool)
    ensures
        next_step(v, cancelled).1 is Wait ==> settled(next_step(v, cancelled).0),
{
}

/// A conversation that is handed in waits behind all that were handed in before it.
pub proof fn law_updates_queue_up(v: CoordinatorView, conversation: Seq<ItemView>)
    requires
        settled(v),
    ensures
        waiting(update_step(v, conversation)) == waiting(v).push(without_popular(conversation)),
{
    assert(waiting(update_step(v, conversation)) =~= waiting(v).push(
        without_popular(conversation),
    ));
}

/// An acknowledgement neither loses a conversation nor changes their order.
pub proof fn law_acks_keep_conversations(v: CoordinatorView, seq: u64)
    requires
        settled(v),
    ensures
        waiting(ack_step(v, seq)) == waiting(v),
{
    assert(waiting(ack_step(v, seq)) =~= waiting(v));
}

/// The model is asked about the conversation that waits first, and the others go on waiting in
/// their order.
pub proof fn law_first_come_first_served(v: CoordinatorView, cancelled: bool)
    ensures
        next_step(v, cancelled).1 matches NextView::Decide(conversation) ==> {
            &&& waiting(v).len() > 0
            &&& conversation == without_popular(waiting(v)[0])
            &&& waiting(next_step(v, cancelled).0) == waiting(v).drop_first()
        },
{
    if let NextView::Decide(conversation) = next_step(v, cancelled).1 {
        assert(waiting(next_step(v, cancelled).0) =~= waiting(v).drop_first());
    }
}

/// While the coordinator waits, no conversation is lost.
pub proof fn law_waiting_loses_nothing(v: CoordinatorView, cancelled: bool)
    ensures
        next_step(v, cancelled).1 is Wait ==> waiting(next_step(v, cancelled).0).to_multiset()
            == waiting(v).to_multiset(),
{
    if next_step(v, cancelled).1 is Wait {
        if let Some(conversation) = v.pending {
            let one = seq![conversation];
            vstd::seq_lib::lemma_multiset_commutative(one, v.queue);
            vstd::seq_lib::lemma_multiset_commutative(v.queue, one);
            assert(v.queue.push(conversation) =~= v.queue + one);
            assert((one + v.queue).to_multiset() =~= (v.queue + one).to_multiset());
        }
    }
}

/// Conversations that are handed in while a decision waits for its acknowledgement are looked at
/// afterwards, the first of them first.
pub proof fn law_updates_follow_the_ack(
    v: CoordinatorView,
    seq: u64,
    first: Seq<ItemView>,
    second: Seq<ItemView>,
)
    requires
        v.ack == Some(seq),
        v.pending is None,
        v.queue.len() == 0,
        !v.stopped,
    ensures
        ({
            let told = ack_step(update_step(update_step(v, first), second), seq);
            let (after, action) = next_step(told, false);
            &&& action == NextView::Decide(without_popular(first))
            &&& waiting(after) == seq![without_popular(second)]
        }),
{
    law_filter_popular_idempotent(first);
    let told = ack_step(update_step(update_step(v, first), second), seq);
    assert(waiting(next_step(told, false).0) =~= seq![without_popular(second)]);
}

/// A decision leaves the waiting conversations as they are; a faulty reply puts its conversation
/// in front of them.
pub proof fn law_outcomes_keep_conversations(
    v: CoordinatorView,
    d: DecisionView,
    error: DecisionErrorView,
    label: Seq<char>,
    raw: Option<Seq<char>>,
    conversation: Seq<ItemView>,
)
    requires
        v.pending is None,
    ensures
        waiting(decision_step(v, d).0) == waiting(v),
        ({
            let after = failure_step(v, error, label, raw, conversation).0;
            if asks_again(v, error) && !is_cancelled(error) {
                &&& waiting(after).len() == waiting(v).len() + 1
                &&& waiting(after).drop_first() == waiting(v)
                &&& conversation.is_prefix_of(waiting(after)[0])
            } else {
                waiting(after) == waiting(v)
            }
        }),
{
    let after = failure_step(v, error, label, raw, conversation).0;
    if asks_again(v, error) && !is_cancelled(error) {
        assert(waiting(after).drop_first() =~= waiting(v));
    }
}

/// A faulty reply.
pub struct Fault {
    pub error: DecisionErrorView,
    pub label: Seq<char>,
    pub raw: Option<Seq<char>>,
    pub conversation: Seq<ItemView>,
}

/// Where a coordinator stands after faulty replies, one after the other.
pub open spec fn after_faults(v: CoordinatorView, faults: Seq<Fault>) -> CoordinatorView
    decreases faults.len(),
{
    if faults.len() == 0 {
        v
    } else {
        let before = after_faults(v, faults.drop_last());
        let fault = faults.last();
        if before.stopped {
            before
        } else {
            failure_step(
                CoordinatorView { pending: None, ..before },
                fault.error,
                fault.label,
                fault.raw,
                fault.conversation,
            ).0
        }
    }
}

/// Faulty replies in a row are counted as long as the mission goes on.
proof fn lemma_faults_are_counted(v: CoordinatorView, faults: Seq<Fault>)
    requires
        v.failures <= MAX_DECISION_RECOVERY_ATTEMPTS,
    ensures
        after_faults(v, faults).failures <= MAX_DECISION_RECOVERY_ATTEMPTS,
        after_faults(v, faults).stopped || after_faults(v, faults).failures == v.failures
            + faults.len(),
    decreases faults.len(),
{
    if faults.len() > 0 {
        lemma_faults_are_counted(v, faults.drop_last());
    }
}

/// A mission does not survive more faulty replies in a row than are asked for again, so that the
/// model is not asked for ever.
pub proof fn law_faults_in_a_row_end_the_mission(v: CoordinatorView, faults: Seq<Fault>)
    requires
        v.failures <= MAX_DECISION_RECOVERY_ATTEMPTS,
        faults.len() > MAX_DECISION_RECOVERY_ATTEMPTS,
    ensures
        after_faults(v, faults).stopped,
{
    lemma_faults_are_counted(v, faults);
}

/// A decision and a conversation that is handed in each forgive the faulty replies before them.
pub proof fn law_faults_are_forgiven(
    v: CoordinatorView,
    d: DecisionView,
    conversation: Seq<ItemView>,
)
    ensures
        decision_step(v, d).0.failures == 0,
        update_step(v, conversation).failures == 0,
{
}

/// A fault that cannot be mended ends the mission at once, with a decision that says so; a
/// cancelled run ends it without a word.
pub proof fn law_hopeless_faults_end_the_mission(v: CoordinatorView, fault: Fault)
    ensures
        ({
            let (after, events) = failure_step(
                v,
                fault.error,
                fault.label,
                fault.raw,
                fault.conversation,
            );
            &&& is_cancelled(fault.error) ==> after.stopped && events.len() == 0
            &&& !is_cancelled(fault.error) && recoverable(fault.error.text()) is None ==> {
                &&& after.stopped
                &&& events.len() == 1
                &&& events[0] matches EventView::Decision(event) && event.status is Failed
                    && after.ack == Some(event.seq)
            }
        }),
{
}

/// With a limit on decisions, the mission goes on only below it; at the limit it ends and says so.
pub proof fn law_turn_cap_holds(v: CoordinatorView, d: DecisionView)
    requires
        v.cap > 0,
    ensures
        ({
            let (after, event) = decision_step(v, d);
            &&& event matches EventView::Decision(e) && (e.status is Continue ==> after.turns < v.cap
                && !after.stopped)
            &&& d.status is Continue && one_more(v.turns) >= v.cap ==> after.stopped && (
            event matches EventView::Decision(e) && e.status is Failed)
        }),
{
}

/// A decision ends the mission exactly where the mission has failed or no more decisions may be
/// made.
pub proof fn law_what_ends_the_mission(v: CoordinatorView, d: DecisionView)
    ensures
        decision_step(v, d).0.stopped <==> d.status is Failed || over_cap(v, d),
{
}

/// Without a repository no helper agent may write, and without leave for helper agents there are
/// none, whatever the model asks for.
pub proof fn law_agents_are_kept_in_bounds(v: CoordinatorView, d: DecisionView)
    ensures
        decision_step(v, d).1 matches EventView::Decision(event) && {
            &&& !v.git ==> forall|i: int|
                0 <= i < event.agents.len() ==> !(#[trigger] event.agents[i]).write
            &&& !v.agents ==> event.agents.len() == 0 && event.agents_timing is None
        },
{
}

/// Once a goal is named it is not asked for again.
pub proof fn law_goal_is_asked_for_once(v: CoordinatorView, d: DecisionView)
    ensures
        decision_step(v, d).0.features.include_goal_field ==> v.features.include_goal_field,
        crate::coordinator::names_goal(d) && !over_cap(v, d) ==> !decision_step(
            v,
            d,
        ).0.features.include_goal_field,
        decision_step(v, d).0.features.include_agents == v.features.include_agents,
{
}

/// To be told to stop is final: nothing waits any more behind the next conversation, nothing is to
/// be acknowledged, and nothing more is done.
pub proof fn law_stop_is_final(v: CoordinatorView, cancelled: bool)
    ensures
        stop_step(v).ack is None,
        stop_step(v).queue.len() == 0,
        next_step(stop_step(v), cancelled) == (stop_step(v), NextView::Finish),
{
}

/// A mission that begins with a goal begins with a decision, and asks the model only after its
/// acknowledgement; any other begins by asking the model.
pub proof fn law_how_missions_begin(m: Mission)
    ensures
        seeded(m) ==> next_step(mission_start(m), false).1 is Wait,
        !seeded(m) ==> next_step(mission_start(m), false).1 == NextView::Decide(
            without_popular(crate::items::items_view(m.conversation@)),
        ),
{
    law_filter_popular_idempotent(crate::items::items_view(m.conversation@));
}

/// The last decision that may be made where the number of decisions is limited.
pub open spec fn at_the_limit(v: CoordinatorView, d: DecisionView) -> bool {
    d.status is Continue && 0 < v.cap && v.cap <= v.turns + 1
}

/// A decision is announced as it was made, unless the limit on decisions ends the mission: with its
/// status, its headline and message, its goal, its instruction, and the items of the reply.
pub proof fn law_decisions_are_announced_as_made(v: CoordinatorView, d: DecisionView)
    requires
        !at_the_limit(v, d),
    ensures
        decision_step(v, d).1 matches EventView::Decision(event) && {
            &&& event.cli == d.cli
            &&& event.status == d.status
            &&& event.input_required == d.input_required
            &&& event.status_title == d.status_title
            &&& event.status_sent_to_user == d.status_sent_to_user
            &&& event.goal == d.goal
            &&& event.transcript == d.response_items
        },
{
}

/// Every helper agent that a decision asks for is launched where helper agents are allowed, in the
/// same place, with its task, its background and its models; it may write exactly where it was
/// asked to and there is a repository.
pub proof fn law_helpers_are_launched_as_asked(v: CoordinatorView, d: DecisionView, i: int)
    requires
        !at_the_limit(v, d),
        v.agents,
        0 <= i < d.agents.len(),
    ensures
        decision_step(v, d).1 matches EventView::Decision(event) && {
            &&& event.agents.len() == d.agents.len()
            &&& event.agents_timing == d.agents_timing
            &&& event.agents[i].prompt == d.agents[i].prompt
            &&& event.agents[i].context == d.agents[i].context
            &&& event.agents[i].models == d.agents[i].models
            &&& event.agents[i].write_requested == d.agents[i].write
            &&& event.agents[i].write <==> d.agents[i].write == Some(true) && v.git
        },
{
}

/// Helper agents run when the decision says, and there are as many as it asks for, where they are
/// allowed.
pub proof fn law_helpers_are_counted(v: CoordinatorView, d: DecisionView)
    requires
        !at_the_limit(v, d),
    ensures
        decision_step(v, d).1 matches EventView::Decision(event) && {
            &&& v.agents ==> event.agents.len() == d.agents.len() && event.agents_timing
                == d.agents_timing
            &&& !v.agents ==> event.agents.len() == 0 && event.agents_timing is None
        },
{
}

/// At the limit on decisions the mission ends with a failure that says how many decisions were made
/// and how many may be; nothing is instructed and nobody is launched, but the goal and the items of
/// the reply are still announced.
pub proof fn law_the_limit_is_told(v: CoordinatorView, d: DecisionView)
    requires
        at_the_limit(v, d),
    ensures
        decision_step(v, d).0.stopped,
        decision_step(v, d).1 matches EventView::Decision(event) && {
            &&& event.status is Failed
            &&& !event.input_required
            &&& event.cli is None
            &&& event.agents.len() == 0
            &&& event.agents_timing is None
            &&& event.goal == d.goal
            &&& event.transcript == d.response_items
            &&& event.status_title == Some("Turn limit reached"@)
            &&& event.status_sent_to_user matches Some(told) && contains(
                told,
                decimal(one_more(v.turns) as nat),
            ) && contains(told, "(cap="@ + decimal(v.cap as nat) + ")"@)
        },
{
    let a = "Stopped after "@;
    let n = decimal(one_more(v.turns) as nat);
    let b = " coordinator turns (cap="@;
    let m = decimal(v.cap as nat);
    let c = ") to prevent a runaway session."@;
    let told = a + n + b + m + c;
    lemma_part_stands(a, n, b + m + c);
    assert(told =~= a + n + (b + m + c));
    reveal_strlit(" coordinator turns (cap=");
    reveal_strlit("(cap=");
    reveal_strlit(") to prevent a runaway session.");
    reveal_strlit(")");
    let part = "(cap="@ + m + ")"@;
    assert forall|j: int| 0 <= j < part.len() implies told[a.len() + n.len() + 19 + j]
        == #[trigger] part[j] by {
        if j < 5 {
            assert(told[a.len() + n.len() + 19 + j] == b[19 + j]);
        }
    }
    lemma_stands_at(told, part, (a.len() + n.len() + 19) as int);
}

/// A decision is counted and remembered: one more was made, by the model that made it, and none of
/// the faulty replies before it count any more. What it names as the goal is the goal from then on,
/// trimmed, and a blank goal changes nothing.
pub proof fn law_decisions_are_remembered(v: CoordinatorView, d: DecisionView)
    ensures
        ({
            let after = decision_step(v, d).0;
            &&& v.turns < u32::MAX ==> after.turns == v.turns + 1
            &&& v.turns == u32::MAX ==> after.turns == u32::MAX
            &&& v.seq < u64::MAX ==> after.seq == v.seq + 1
            &&& v.seq == u64::MAX ==> after.seq == 0
            &&& after.model == d.model_slug
            &&& after.failures == 0
            &&& match d.goal {
                Some(goal) => if !at_the_limit(v, d) && !blank(goal) {
                    after.goal == "**Primary Goal**\n"@ + trim(goal)
                        && !after.features.include_goal_field
                } else {
                    after.goal == v.goal && after.features == v.features
                },
                None => after.goal == v.goal && after.features == v.features,
            }
            &&& after.features.include_agents == v.features.include_agents
        }),
{
}

/// What does not belong to a step stays as it is: the limit, the leave for helper agents and the
/// repository are never changed, and only a few steps change the rest.
pub proof fn law_steps_leave_the_rest(
    v: CoordinatorView,
    d: DecisionView,
    fault: Fault,
    conversation: Seq<ItemView>,
    result: CompactionResult,
    outcome: AnswerView,
    seq: u64,
    cancelled: bool,
)
    ensures
        ({
            let decided = decision_step(v, d).0;
            let failed = failure_step(v, fault.error, fault.label, fault.raw, fault.conversation).0;
            let acked = ack_step(v, seq);
            let updated = update_step(v, conversation);
            let stopped = stop_step(v);
            let compacted = compaction_step(v, result, conversation).0;
            let answered = answer_step(v, conversation, outcome).0;
            let next = next_step(v, cancelled).0;
            &&& same_mission(v, decided) && same_mission(v, failed) && same_mission(v, acked)
            &&& same_mission(v, updated) && same_mission(v, stopped) && same_mission(v, compacted)
            &&& same_mission(v, answered) && same_mission(v, next)
            &&& same_course(v, failed) && same_course(v, acked) && same_course(v, updated)
            &&& same_course(v, stopped) && same_course(v, compacted) && same_course(v, answered)
            &&& same_course(v, next)
            &&& same_number(v, acked) && same_number(v, updated) && same_number(v, stopped)
            &&& same_number(v, compacted) && same_number(v, answered) && same_number(v, next)
            &&& decided.pending == v.pending && decided.queue == v.queue
            &&& decided.requests == v.requests && decided.summary == v.summary
            &&& failed.queue == v.queue && failed.requests == v.requests
            &&& failed.summary == v.summary
            &&& acked.requests == v.requests && acked.failures == v.failures
            &&& acked.stopped == v.stopped && acked.summary == v.summary
            &&& updated.ack == v.ack && updated.stopped == v.stopped
            &&& updated.summary == v.summary
            &&& stopped.pending == v.pending && stopped.requests == v.requests
            &&& stopped.summary == v.summary
            &&& compacted.pending == v.pending && compacted.queue == v.queue
            &&& compacted.ack == v.ack && compacted.stopped == v.stopped
            &&& answered.queue == v.queue && answered.ack == v.ack
            &&& answered.stopped == v.stopped && answered.summary == v.summary
            &&& answered.requests == v.requests && answered.failures == v.failures
            &&& next.ack == v.ack && next.requests == v.requests
            &&& next.failures == v.failures && next.summary == v.summary
        }),
{
}

/// Two states of one mission.
pub open spec fn same_mission(a: CoordinatorView, b: CoordinatorView) -> bool {
    a.cap == b.cap && a.agents == b.agents && a.git == b.git
}

/// Two states with the same goal, asked of the same model in the same form after as many decisions.
pub open spec fn same_course(a: CoordinatorView, b: CoordinatorView) -> bool {
    a.goal == b.goal && a.model == b.model && a.features == b.features && a.turns == b.turns
}

/// Two states with the same last decision.
pub open spec fn same_number(a: CoordinatorView, b: CoordinatorView) -> bool {
    a.seq == b.seq
}

/// What the coordinator does next: nothing more once the mission has ended; it waits while a
/// decision is to be acknowledged or no conversation is there; else it takes the next conversation,
/// and ends the mission where the run was cancelled.
pub proof fn law_what_is_done_next(v: CoordinatorView, cancelled: bool)
    ensures
        ({
            let (after, action) = next_step(v, cancelled);
            let free = !v.stopped && v.ack is None && waiting(v).len() > 0;
            &&& action is Finish <==> v.stopped || free && cancelled
            &&& action is Decide <==> free && !cancelled
            &&& action is Wait <==> !v.stopped && (v.ack is Some || waiting(v).len() == 0)
            &&& after.stopped <==> action is Finish
            &&& v.stopped ==> after == v
        }),
{
    if v.pending is Some {
        assert(waiting(v).len() > 0);
    }
}

/// An acknowledgement that fits lets the conversation that waits longest be looked at next, if one
/// waits; else it only releases the decision.
pub proof fn law_acks_release_conversations(v: CoordinatorView, seq: u64)
    requires
        v.ack == Some(seq),
    ensures
        ack_step(v, seq).ack is None,
        v.queue.len() > 0 ==> ack_step(v, seq).pending == Some(v.queue[0]) && ack_step(v, seq).queue
            == v.queue.skip(1),
        v.queue.len() == 0 ==> ack_step(v, seq).pending == v.pending && ack_step(v, seq).queue
            == v.queue,
{
    if v.queue.len() > 0 {
        assert(v.queue.drop_first() =~= v.queue.skip(1));
    }
}

/// A conversation that is handed in is counted and kept without the lists of popular commands: next
/// in line where nothing waits, else behind all the others.
pub proof fn law_updates_are_kept(v: CoordinatorView, conversation: Seq<ItemView>)
    ensures
        ({
            let after = update_step(v, conversation);
            let kept = without_popular(conversation);
            &&& v.requests < u64::MAX ==> after.requests == v.requests + 1
            &&& v.requests == u64::MAX ==> after.requests == u64::MAX
            &&& v.ack is None && v.pending is None ==> after.pending == Some(kept) && after.queue
                == v.queue
            &&& v.ack is Some || v.pending is Some ==> after.pending == v.pending && after.queue
                == v.queue.push(kept)
        }),
{
}

/// A faulty reply is asked for again exactly where it can be mended and fewer than three in a row
/// were faulty before it; then one more counts, nothing is decided, and the mission goes on with
/// the conversation, the reply if there was one, and a note at the end.
pub proof fn law_faulty_replies_are_asked_for_again(v: CoordinatorView, fault: Fault)
    requires
        !(fault.error matches DecisionErrorView::Request { cancelled, .. } && cancelled),
        v.failures <= 3,
    ensures
        ({
            let (after, events) = failure_step(
                v,
                fault.error,
                fault.label,
                fault.raw,
                fault.conversation,
            );
            let again = recoverable(fault.error.text()) is Some && v.failures < 3;
            let n = fault.conversation.len() as int;
            &&& again ==> {
                &&& after.failures == v.failures + 1
                &&& after.seq == v.seq && after.ack == v.ack && after.stopped == v.stopped
                &&& after.pending matches Some(next) && {
                    &&& fault.conversation.is_prefix_of(next)
                    &&& match fault.raw {
                        Some(raw) => next.len() == n + 2 && next[n] == message("assistant"@, raw),
                        None => next.len() == n + 1,
                    }
                    &&& next.last() matches ItemView::Message { role, content, .. } && role
                        == "developer"@ && content.len() == 1 && (
                    content[0] matches ContentView::Input(note) && contains(
                        note,
                        fault.error.text(),
                    ) && contains(note, fault.label))
                }
                &&& events.len() == 3
                &&& events[1] == (EventView::CompactedHistory {
                    conversation: after.pending.unwrap(),
                    show_notice: false,
                })
                &&& events[0] matches EventView::Thinking { delta, .. } && contains(
                    delta,
                    recoverable(fault.error.text()).unwrap().summary,
                )
                &&& events[2] is Action
            }
            &&& !again ==> {
                &&& after.stopped
                &&& after.failures == 0
                &&& after.seq == next_seq(v.seq)
                &&& after.pending == v.pending
                &&& events.len() == 1
                &&& events[0] matches EventView::Decision(event) && {
                    &&& event.status is Failed
                    &&& !event.input_required
                    &&& event.cli is None && event.goal is None && event.agents_timing is None
                    &&& event.agents.len() == 0 && event.transcript.len() == 0
                    &&& event.status_title == Some("Coordinator error"@)
                    &&& event.status_sent_to_user matches Some(told) && contains(
                        told,
                        fault.error.text(),
                    )
                }
            }
        }),
{
    let text = fault.error.text();
    let a = "Encountered an error: "@;
    lemma_part_stands(a, text, Seq::empty());
    assert(a + text + Seq::<char>::empty() =~= a + text);
    if let Some(found) = recoverable(text) {
        let attempt = one_more(v.failures);
        law_notes_say_what_is_wrong(attempt, text, found, fault.label, fault.raw is Some);
        law_notices_say_what_is_wrong(attempt, found, fault.label, fault.raw is Some);
        let note = retry_note(attempt, text, found, fault.label, fault.raw is Some);
        law_retry_keeps_conversation(fault.conversation, fault.raw, note);
        law_messages_hold_their_text("developer"@, note);
        reveal_strlit("developer");
        reveal_strlit("assistant");
        assert("developer"@[0] == 'd' && "assistant"@[0] == 'a');
        law_same_but_for_capitals("developer"@, "assistant"@);
        assert("developer"@[0] == "developer"@[0]);
    }
}

/// A conversation that was made shorter is announced as it is then, and its summary is remembered;
/// where nothing was done, nothing is announced and nothing changes.
pub proof fn law_shorter_conversations_are_announced(
    v: CoordinatorView,
    result: CompactionResult,
    conversation: Seq<ItemView>,
)
    ensures
        match result {
            CompactionResult::Completed { summary_text } => {
                let (after, event) = compaction_step(v, result, conversation);
                &&& after.summary == opt_text(summary_text)
                &&& event matches Some(EventView::CompactedHistory { conversation: told, show_notice })
                    && told == conversation && show_notice
            },
            CompactionResult::Skipped => compaction_step(v, result, conversation).0 == v
                && compaction_step(v, result, conversation).1 is None,
        },
{
}

/// An answer is handed to the user with its command, and the conversation goes on with it: the
/// answer is put behind it as the assistant's words. Where there is none the user is told why, and
/// nothing else changes.
pub proof fn law_answers_reach_the_user(
    v: CoordinatorView,
    conversation: Seq<ItemView>,
    answer: Option<Seq<char>>,
    command: Option<Seq<char>>,
    error: DecisionErrorView,
)
    ensures
        ({
            let (after, event) = answer_step(
                v,
                conversation,
                AnswerView::Given { answer, command },
            );
            &&& event == (EventView::UserReply { user_response: answer, cli_command: command })
            &&& after.pending == match answer {
                Some(text) => Some(conversation + seq![message("assistant"@, text)]),
                None => Some(conversation),
            }
        }),
        ({
            let (after, event) = answer_step(v, conversation, AnswerView::Failed(error));
            &&& after == v
            &&& event matches EventView::UserReply { user_response: Some(told), cli_command: None }
                && contains(told, error.text())
        }),
{
    if let Some(text) = answer {
        assert(conversation.push(message("assistant"@, text)) =~= conversation + seq![
            message("assistant"@, text),
        ]);
    }
    let a = "Coordinator error: "@;
    lemma_part_stands(a, error.text(), Seq::empty());
    assert(a + error.text() + Seq::<char>::empty() =~= a + error.text());
}

/// What a mission begins with is taken as it is: its goal, its settings, its repository and its
/// model; nothing was decided, counted or put in line before it.
pub proof fn law_missions_begin_as_told(m: Mission)
    ensures
        ({
            let v = mission_start(m);
            &&& v.cap == m.settings.coordinator_turn_cap
            &&& v.agents == m.settings.agents_enabled
            &&& v.features.include_agents == m.settings.agents_enabled
            &&& v.features.include_goal_field == m.derive_goal_from_history
            &&& v.git == m.git_repo_present
            &&& v.model == m.model_slug@
            &&& !m.derive_goal_from_history ==> v.goal == "**Primary Goal**\n"@ + m.goal_text@
            &&& v.seq == 0 && v.turns == 0 && v.requests == 0 && v.failures == 0
            &&& !v.stopped && v.queue.len() == 0 && v.summary is None
            &&& v.ack is Some <==> !m.derive_goal_from_history && !blank(m.goal_text@)
            &&& v.ack is Some ==> v.ack == Some(0u64) && v.pending is None
            &&& v.ack is None ==> v.pending == Some(without_popular(items_view(m.conversation@)))
        }),
{
}

/// The first decision of a mission with a goal asks for a plan: it continues, announces the goal,
/// and instructs with the goal as background that is not shown; helper agents run beside it where
/// they are allowed.
pub proof fn law_missions_begin_with_a_plan(goal: Seq<char>, agents: bool)
    ensures
        seed_event(goal, agents) matches EventView::Decision(event) && {
            &&& event.seq == 0
            &&& event.status is Continue
            &&& !event.input_required
            &&& event.goal == Some(goal)
            &&& event.cli matches Some(cli) && cli.context == Some("Primary Goal: "@ + trim(goal))
                && cli.suppress_ui_context && contains(cli.prompt, "Primary Goal"@)
            &&& event.agents.len() == 0
            &&& agents ==> event.agents_timing == Some(AutoTurnAgentsTiming::Parallel)
            &&& !agents ==> event.agents_timing is None
            &&& event.status_title == Some("Planning route"@)
            &&& event.status_sent_to_user == Some("Planning best route to reach the goal."@)
            &&& event.transcript.len() == 1
            &&& event.transcript[0] == message("assistant"@, planning_json(agents))
            &&& contains(planning_json(agents), event.cli.unwrap().prompt)
        },
{
    law_plans_are_asked_for(agents);
}

/// The coordinator does what it is told: a decision is acknowledged, a conversation is put in line and
/// counted as a replay where others are in front of it, a user is answered in the conversation that
/// was handed in, and a stop, or nobody left, ends the mission and is acknowledged.
pub proof fn law_commands_are_obeyed(
    before: CoordinatorView,
    command: Option<AutoCoordinatorCommand>,
    after: CoordinatorView,
    r: CommandAction,
)
    requires
        command_taken(before, command, after, r),
    ensures
        match command {
            Some(AutoCoordinatorCommand::AckDecision { seq }) => {
                &&& r is Nothing
                &&& before.ack == Some(seq) ==> after.ack is None
                &&& before.ack != Some(seq) ==> after == before
            },
            Some(AutoCoordinatorCommand::UpdateConversation(conversation)) => {
                let kept = without_popular(items_view(conversation@));
                &&& before.ack is Some || before.pending is Some ==> r is CountReplay && after.queue
                    == before.queue.push(kept)
                &&& before.ack is None && before.pending is None ==> r is Nothing && after.pending
                    == Some(kept)
            },
            Some(AutoCoordinatorCommand::HandleUserPrompt { conversation, .. }) => {
                &&& after == before
                &&& r matches CommandAction::AnswerUser(asked) && asked@ == conversation@
            },
            Some(AutoCoordinatorCommand::Stop) => {
                &&& after.stopped && after.ack is None && after.queue.len() == 0
                &&& r matches CommandAction::Announce(event) && event@ is StopAck
            },
            None => {
                &&& after.stopped && after.ack is None && after.queue.len() == 0
                &&& r matches CommandAction::Announce(event) && event@ is StopAck
            },
        },
{
}

} // verus!
