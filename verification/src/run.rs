//! Whole missions: what is told and announced from beginning to end.
use crate::compaction::CompactionResult;
use crate::conduct::{sound, Fault};
use crate::coordinator::{
    ack_step, answer_step, asks_again, compaction_step, decision_step, failure_event, failure_step,
    is_cancelled, mission_start, next_seq, next_step, seed_event, seeded, stop_step, update_step,
    AnswerView, CoordinatorView, Mission, NextView,
};
use crate::decision::DecisionView;
use crate::events::{DecisionEventView, EventView};
use crate::items::ItemView;
use vstd::prelude::*;

verus! {

/// What happens next in a mission.
#[allow(inconsistent_fields)]
pub enum Happening {
    /// The coordinator is asked what to do next.
    Next { cancelled: bool },
    /// While the model is asked, progress is announced.
    Progress(EventView),
    /// The conversation was made shorter, or was not.
    Compacted { result: CompactionResult, conversation: Seq<ItemView> },
    /// The model has decided.
    Decided(DecisionView),
    /// There is no decision.
    Failed(Fault),
    /// A decision is acknowledged.
    Ack(u64),
    /// A conversation is handed in.
    Update(Seq<ItemView>),
    /// The user asks something.
    UserPrompt(Seq<ItemView>),
    /// The user is answered.
    Answered(AnswerView),
    /// The coordinator is told to stop, or nobody is left to tell it anything.
    Stop,
}

/// What a mission is busy with.
pub enum Phase {
    /// About to ask what to do next.
    Ready,
    /// Asking the model to decide.
    Asking,
    /// Asking the model to answer the user, in a conversation.
    Answering(Seq<ItemView>),
    /// Waiting to be told something.
    Waiting,
    /// Nothing more.
    Over,
}

/// An entry in the record of a mission.
#[allow(inconsistent_fields)]
pub enum Entry {
    /// Something was announced.
    Said(EventView),
    /// A decision was acknowledged.
    Acked(u64),
    /// The coordinator was told to stop, or nobody was left to tell it anything.
    ToldToStop,
}

/// A mission so far.
pub struct Run {
    pub state: CoordinatorView,
    pub phase: Phase,
    pub record: Seq<Entry>,
}

/// A mission at its beginning.
pub open spec fn run_start(m: Mission) -> Run {
    Run {
        state: mission_start(m),
        phase: Phase::Ready,
        record: if seeded(m) {
            seq![Entry::Said(seed_event(m.goal_text@, m.settings.agents_enabled))]
        } else {
            Seq::empty()
        },
    }
}

/// Announcements, as entries.
pub open spec fn said(events: Seq<EventView>) -> Seq<Entry> {
    Seq::new(events.len(), |i: int| Entry::Said(events[i]))
}

/// What is announced while the model is asked.
pub open spec fn is_progress(event: EventView) -> bool {
    event is Thinking || event is Action || event is TokenMetrics
}

/// A mission after one more happening. What cannot happen in a phase changes nothing.
pub open spec fn run_step(r: Run, h: Happening) -> Run {
    match (r.phase, h) {
        (Phase::Ready, Happening::Next { cancelled }) => {
            let (state, action) = next_step(r.state, cancelled);
            Run {
                state,
                phase: match action {
                    NextView::Finish => Phase::Over,
                    NextView::Decide(_) => Phase::Asking,
                    NextView::Wait => Phase::Waiting,
                },
                ..r
            }
        },
        (Phase::Asking, Happening::Progress(event)) => if is_progress(event) {
            Run { record: r.record.push(Entry::Said(event)), ..r }
        } else {
            r
        },
        (Phase::Asking, Happening::Compacted { result, conversation }) => {
            let (state, event) = compaction_step(r.state, result, conversation);
            Run {
                state,
                record: match event {
                    Some(event) => r.record.push(Entry::Said(event)),
                    None => r.record,
                },
                ..r
            }
        },
        (Phase::Asking, Happening::Decided(d)) => {
            let (state, event) = decision_step(r.state, d);
            Run { state, phase: Phase::Ready, record: r.record.push(Entry::Said(event)) }
        },
        (Phase::Asking, Happening::Failed(fault)) => {
            let (state, events) = failure_step(
                r.state,
                fault.error,
                fault.label,
                fault.raw,
                fault.conversation,
            );
            Run { state, phase: Phase::Ready, record: r.record + said(events) }
        },
        (Phase::Waiting, Happening::Ack(seq)) => Run {
            state: ack_step(r.state, seq),
            phase: Phase::Ready,
            record: r.record.push(Entry::Acked(seq)),
        },
        (Phase::Waiting, Happening::Update(conversation)) => Run {
            state: update_step(r.state, conversation),
            phase: Phase::Ready,
            ..r
        },
        (Phase::Waiting, Happening::UserPrompt(conversation)) => Run {
            phase: Phase::Answering(conversation),
            ..r
        },
        (Phase::Waiting, Happening::Stop) => Run {
            state: stop_step(r.state),
            phase: Phase::Ready,
            record: r.record.push(Entry::ToldToStop).push(Entry::Said(EventView::StopAck)),
        },
        (Phase::Answering(_), Happening::Progress(event)) => if is_progress(event) {
            Run { record: r.record.push(Entry::Said(event)), ..r }
        } else {
            r
        },
        (Phase::Answering(conversation), Happening::Answered(outcome)) => {
            let (state, event) = answer_step(r.state, conversation, outcome);
            Run { state, phase: Phase::Ready, record: r.record.push(Entry::Said(event)) }
        },
        _ => r,
    }
}

/// A mission after happenings, one after the other.
pub open spec fn run(m: Mission, happenings: Seq<Happening>) -> Run
    decreases happenings.len(),
{
    if happenings.len() == 0 {
        run_start(m)
    } else {
        run_step(run(m, happenings.drop_last()), happenings.last())
    }
}

/// The decision that an entry announces, if it announces one.
pub open spec fn decision_in(entry: Entry) -> Option<DecisionEventView> {
    match entry {
        Entry::Said(EventView::Decision(d)) => Some(d),
        _ => None,
    }
}

/// The place of the last decision in a record.
pub open spec fn last_decision(record: Seq<Entry>) -> Option<int>
    decreases record.len(),
{
    if record.len() == 0 {
        None
    } else if decision_in(record.last()) is Some {
        Some(record.len() - 1)
    } else {
        last_decision(record.drop_last())
    }
}

/// A decision was acknowledged behind its place in a record.
pub open spec fn acked_after(record: Seq<Entry>, seq: u64, place: int) -> bool {
    exists|k: int| place < k < record.len() && #[trigger] record[k] == Entry::Acked(seq)
}

/// The decision at a place in a record comes in order: it bears the number behind that of the
/// decision before it, which was acknowledged in between. The first one bears `first`.
pub open spec fn in_turn(record: Seq<Entry>, place: int, first: u64) -> bool {
    match last_decision(record.take(place)) {
        Some(before) => {
            let seq = decision_in(record[before]).unwrap().seq;
            decision_in(record[place]).unwrap().seq == next_seq(seq) && acked_after(
                record.take(place),
                seq,
                before,
            )
        },
        None => decision_in(record[place]).unwrap().seq == first,
    }
}

/// The number of the first decision of a mission.
pub open spec fn first_number(m: Mission) -> u64 {
    if seeded(m) {
        0
    } else {
        1
    }
}

/// The launches of a decision keep to what is allowed.
pub open spec fn within_bounds(d: DecisionEventView, git: bool, agents: bool) -> bool {
    &&& !git ==> forall|i: int| 0 <= i < d.agents.len() ==> !(#[trigger] d.agents[i]).write
    &&& !agents ==> d.agents.len() == 0 && d.agents_timing is None
}

/// What holds of the record of a mission.
spec fn record_holds(m: Mission, record: Seq<Entry>) -> bool {
    &&& forall|j: int|
        0 <= j < record.len() && decision_in(#[trigger] record[j]) is Some ==> in_turn(
            record,
            j,
            first_number(m),
        ) && within_bounds(
            decision_in(record[j]).unwrap(),
            m.git_repo_present,
            m.settings.agents_enabled,
        )
    &&& forall|j: int|
        0 <= j < record.len() && (decision_in(#[trigger] record[j]) matches Some(d)
            && d.status is Failed) ==> j == record.len() - 1
    &&& forall|j: int|
        0 <= j < record.len() && #[trigger] record[j] == Entry::Said(EventView::StopAck) ==> j
            == record.len() - 1 && j > 0 && record[j - 1] == Entry::ToldToStop
    &&& forall|j: int|
        0 <= j < record.len() && #[trigger] record[j] == Entry::ToldToStop ==> j == record.len() - 2
            && record[j + 1] == Entry::Said(EventView::StopAck)
}

/// What holds of a mission at all times.
spec fn run_holds(m: Mission, r: Run) -> bool {
    &&& record_holds(m, r.record)
    &&& sound(r.state)
    &&& r.state.git == m.git_repo_present
    &&& r.state.agents == m.settings.agents_enabled
    // The last decision, and whether it waits to be acknowledged.
    &&& match last_decision(r.record) {
        Some(place) => {
            &&& decision_in(r.record[place]).unwrap().seq == r.state.seq
            &&& r.state.ack is None && !r.state.stopped ==> acked_after(
                r.record,
                r.state.seq,
                place,
            )
        },
        None => r.state.ack is None && r.state.seq == 0 && !seeded(m),
    }
    // What ends a mission comes last in the record.
    &&& !r.state.stopped ==> forall|j: int|
        0 <= j < r.record.len() ==> {
            &&& !(decision_in(#[trigger] r.record[j]) matches Some(d) && d.status is Failed)
            &&& r.record[j] != Entry::Said(EventView::StopAck)
            &&& r.record[j] != Entry::ToldToStop
        }
    // What a mission is busy with.
    &&& r.state.stopped ==> r.phase is Ready || r.phase is Over
    &&& r.phase is Asking ==> r.state.ack is None
}

/// The place of the last decision is one, and no decision stands behind it.
proof fn lemma_last_decision(record: Seq<Entry>)
    ensures
        match last_decision(record) {
            Some(i) => {
                &&& 0 <= i < record.len()
                &&& decision_in(record[i]) is Some
                &&& forall|k: int| i < k < record.len() ==> decision_in(#[trigger] record[k]) is None
            },
            None => forall|k: int|
                0 <= k < record.len() ==> decision_in(#[trigger] record[k]) is None,
        },
    decreases record.len(),
{
    if record.len() > 0 && decision_in(record.last()) is None {
        let before = record.drop_last();
        lemma_last_decision(before);
        assert forall|k: int| 0 <= k < before.len() implies #[trigger] record[k] == before[k] by {}
    }
}

/// A record in which nothing has ended the mission.
spec fn goes_on(record: Seq<Entry>) -> bool {
    forall|j: int|
        0 <= j < record.len() ==> {
            &&& !(decision_in(#[trigger] record[j]) matches Some(d) && d.status is Failed)
            &&& record[j] != Entry::Said(EventView::StopAck)
            &&& record[j] != Entry::ToldToStop
        }
}

/// An entry that neither decides nor ends anything.
spec fn plain(entry: Entry) -> bool {
    decision_in(entry) is None && entry != Entry::Said(EventView::StopAck) && entry
        != Entry::ToldToStop
}

/// What stood in order in a record still does when one more entry has come.
proof fn lemma_in_turn_stays(record: Seq<Entry>, entry: Entry, place: int, first: u64)
    requires
        0 <= place < record.len(),
    ensures
        in_turn(record.push(entry), place, first) == in_turn(record, place, first),
{
    assert(record.push(entry).take(place) =~= record.take(place));
    lemma_last_decision(record.take(place));
    if let Some(before) = last_decision(record.take(place)) {
        assert(record.take(place)[before] == record[before]);
    }
}

/// An acknowledgement stays in the record.
proof fn lemma_acked_stays(record: Seq<Entry>, entry: Entry, seq: u64, place: int)
    requires
        0 <= place,
        acked_after(record, seq, place),
    ensures
        acked_after(record.push(entry), seq, place),
{
    let k = choose|k: int| place < k < record.len() && #[trigger] record[k] == Entry::Acked(seq);
    assert(record.push(entry)[k] == Entry::Acked(seq));
}

/// A plain entry keeps what holds of a record.
proof fn lemma_push_plain(m: Mission, record: Seq<Entry>, entry: Entry)
    requires
        record_holds(m, record),
        goes_on(record),
        plain(entry),
    ensures
        record_holds(m, record.push(entry)),
        goes_on(record.push(entry)),
        last_decision(record.push(entry)) == last_decision(record),
{
    let longer = record.push(entry);
    assert(longer.drop_last() =~= record);
    assert forall|j: int|
        0 <= j < longer.len() && decision_in(#[trigger] longer[j]) is Some implies in_turn(
        longer,
        j,
        first_number(m),
    ) && within_bounds(
        decision_in(longer[j]).unwrap(),
        m.git_repo_present,
        m.settings.agents_enabled,
    ) by {
        assert(longer[j] == record[j]);
        lemma_in_turn_stays(record, entry, j, first_number(m));
    }
    assert forall|j: int| 0 <= j < longer.len() implies {
        &&& !(decision_in(#[trigger] longer[j]) matches Some(d) && d.status is Failed)
        &&& longer[j] != Entry::Said(EventView::StopAck)
        &&& longer[j] != Entry::ToldToStop
    } by {
        if j < record.len() {
            assert(longer[j] == record[j]);
        }
    }
}

/// Plain announcements keep what holds of a record.
proof fn lemma_push_said(m: Mission, record: Seq<Entry>, events: Seq<EventView>)
    requires
        record_holds(m, record),
        goes_on(record),
        forall|i: int| 0 <= i < events.len() ==> plain(Entry::Said(#[trigger] events[i])),
    ensures
        record_holds(m, record + said(events)),
        goes_on(record + said(events)),
        last_decision(record + said(events)) == last_decision(record),
    decreases events.len(),
{
    if events.len() == 0 {
        assert(record + said(events) =~= record);
    } else {
        let fewer = events.drop_last();
        lemma_push_said(m, record, fewer);
        lemma_push_plain(m, record + said(fewer), Entry::Said(events.last()));
        assert(record + said(events) =~= (record + said(fewer)).push(Entry::Said(events.last())));
    }
}

/// A decision that comes in order keeps what holds of a record.
proof fn lemma_push_decision(m: Mission, record: Seq<Entry>, d: DecisionEventView)
    requires
        record_holds(m, record),
        goes_on(record),
        match last_decision(record) {
            Some(before) => {
                let seq = decision_in(record[before]).unwrap().seq;
                d.seq == next_seq(seq) && acked_after(record, seq, before)
            },
            None => d.seq == first_number(m),
        },
        within_bounds(d, m.git_repo_present, m.settings.agents_enabled),
    ensures
        record_holds(m, record.push(Entry::Said(EventView::Decision(d)))),
        last_decision(record.push(Entry::Said(EventView::Decision(d)))) == Some(
            record.len() as int,
        ),
        !(d.status is Failed) ==> goes_on(record.push(Entry::Said(EventView::Decision(d)))),
{
    let entry = Entry::Said(EventView::Decision(d));
    let longer = record.push(entry);
    let n = record.len() as int;
    lemma_last_decision(record);
    assert(longer.take(n) =~= record);
    assert(longer[n] == entry);
    assert(in_turn(longer, n, first_number(m)));
    assert forall|j: int|
        0 <= j < longer.len() && decision_in(#[trigger] longer[j]) is Some implies in_turn(
        longer,
        j,
        first_number(m),
    ) && within_bounds(
        decision_in(longer[j]).unwrap(),
        m.git_repo_present,
        m.settings.agents_enabled,
    ) by {
        if j < n {
            assert(longer[j] == record[j]);
            lemma_in_turn_stays(record, entry, j, first_number(m));
        }
    }
    assert forall|j: int|
        0 <= j < longer.len() && (decision_in(#[trigger] longer[j]) matches Some(e)
            && e.status is Failed) implies j == longer.len() - 1 by {
        if j < n {
            assert(longer[j] == record[j]);
        }
    }
    assert forall|j: int| 0 <= j < n implies #[trigger] longer[j] == record[j] by {}
}

/// To be told to stop keeps what holds of a record.
proof fn lemma_push_stop(m: Mission, record: Seq<Entry>)
    requires
        record_holds(m, record),
        goes_on(record),
    ensures
        record_holds(
            m,
            record.push(Entry::ToldToStop).push(Entry::Said(EventView::StopAck)),
        ),
        last_decision(record.push(Entry::ToldToStop).push(Entry::Said(EventView::StopAck)))
            == last_decision(record),
{
    let told = record.push(Entry::ToldToStop);
    let longer = told.push(Entry::Said(EventView::StopAck));
    let n = record.len() as int;
    assert(longer.drop_last() =~= told);
    assert(told.drop_last() =~= record);
    assert(last_decision(told) == last_decision(record));
    assert forall|j: int| 0 <= j < n implies #[trigger] longer[j] == record[j] by {}
    assert forall|j: int|
        0 <= j < longer.len() && decision_in(#[trigger] longer[j]) is Some implies in_turn(
        longer,
        j,
        first_number(m),
    ) && within_bounds(
        decision_in(longer[j]).unwrap(),
        m.git_repo_present,
        m.settings.agents_enabled,
    ) by {
        lemma_in_turn_stays(record, Entry::ToldToStop, j, first_number(m));
        lemma_in_turn_stays(told, Entry::Said(EventView::StopAck), j, first_number(m));
    }
}

/// Whatever happens next, what holds of a mission still does.
proof fn lemma_run_step(m: Mission, r: Run, h: Happening)
    requires
        run_holds(m, r),
    ensures
        run_holds(m, run_step(r, h)),
{
    lemma_last_decision(r.record);
    let after = run_step(r, h);
    match (r.phase, h) {
        (Phase::Asking, Happening::Progress(event)) => {
            if is_progress(event) {
                lemma_push_plain(m, r.record, Entry::Said(event));
                lemma_kept_by(r, Entry::Said(event));
            }
        },
        (Phase::Asking, Happening::Compacted { result, conversation }) => {
            if let Some(event) = compaction_step(r.state, result, conversation).1 {
                lemma_push_plain(m, r.record, Entry::Said(event));
                lemma_kept_by(r, Entry::Said(event));
            }
        },
        (Phase::Asking, Happening::Decided(d)) => {
            if let EventView::Decision(event) = decision_step(r.state, d).1 {
                lemma_push_decision(m, r.record, event);
            }
        },
        (Phase::Asking, Happening::Failed(fault)) => {
            lemma_failed(m, r, fault);
        },
        (Phase::Waiting, Happening::Ack(seq)) => {
            lemma_push_plain(m, r.record, Entry::Acked(seq));
            lemma_kept_by(r, Entry::Acked(seq));
            if r.state.ack == Some(seq) {
                assert(after.record[r.record.len() as int] == Entry::Acked(seq));
            }
        },
        (Phase::Waiting, Happening::Stop) => {
            lemma_push_stop(m, r.record);
        },
        (Phase::Answering(_), Happening::Progress(event)) => {
            if is_progress(event) {
                lemma_push_plain(m, r.record, Entry::Said(event));
                lemma_kept_by(r, Entry::Said(event));
            }
        },
        (Phase::Answering(conversation), Happening::Answered(outcome)) => {
            let event = answer_step(r.state, conversation, outcome).1;
            lemma_push_plain(m, r.record, Entry::Said(event));
            lemma_kept_by(r, Entry::Said(event));
        },
        _ => {},
    }
}

/// One more entry takes away no acknowledgement of the last decision.
proof fn lemma_kept_by(r: Run, entry: Entry)
    ensures
        last_decision(r.record) matches Some(place) ==> (acked_after(
            r.record,
            r.state.seq,
            place,
        ) ==> acked_after(r.record.push(entry), r.state.seq, place)),
        last_decision(r.record) matches Some(place) ==> r.record.push(entry)[place]
            == r.record[place],
{
    lemma_last_decision(r.record);
    if let Some(place) = last_decision(r.record) {
        if acked_after(r.record, r.state.seq, place) {
            lemma_acked_stays(r.record, entry, r.state.seq, place);
        }
    }
}

/// A failure keeps what holds of a mission.
proof fn lemma_failed(m: Mission, r: Run, fault: Fault)
    requires
        run_holds(m, r),
        r.phase is Asking,
    ensures
        run_holds(m, run_step(r, Happening::Failed(fault))),
{
    let (state, events) = failure_step(
        r.state,
        fault.error,
        fault.label,
        fault.raw,
        fault.conversation,
    );
    let longer = r.record + said(events);
    lemma_last_decision(r.record);
    if is_cancelled(fault.error) {
        assert(longer =~= r.record);
    } else if asks_again(r.state, fault.error) {
        lemma_push_said(m, r.record, events);
        if let Some(place) = last_decision(r.record) {
            assert(longer[place] == r.record[place]);
            let k = choose|k: int|
                place < k < r.record.len() && #[trigger] r.record[k] == Entry::Acked(r.state.seq);
            assert(longer[k] == Entry::Acked(r.state.seq));
        }
    } else {
        let event = failure_event(r.state, fault.error);
        assert(longer =~= r.record.push(Entry::Said(event)));
        if let EventView::Decision(d) = event {
            lemma_push_decision(m, r.record, d);
            assert(longer[r.record.len() as int] == Entry::Said(EventView::Decision(d)));
        }
    }
}

/// However a mission goes, what holds of it does.
proof fn lemma_run(m: Mission, happenings: Seq<Happening>)
    ensures
        run_holds(m, run(m, happenings)),
    decreases happenings.len(),
{
    if happenings.len() == 0 {
        let record = run_start(m).record;
        if seeded(m) {
            assert(record.take(0) =~= Seq::empty());
            assert(in_turn(record, 0, first_number(m)));
            assert(record.drop_last() =~= Seq::empty());
            assert(last_decision(record) == Some(0int));
        }
    } else {
        lemma_run(m, happenings.drop_last());
        lemma_run_step(m, run(m, happenings.drop_last()), happenings.last());
    }
}

/// However a mission goes, its decisions bear numbers that follow each other, and between two of
/// them the first was acknowledged.
pub proof fn law_decisions_come_in_turn(m: Mission, happenings: Seq<Happening>, place: int)
    requires
        0 <= place < run(m, happenings).record.len(),
        decision_in(run(m, happenings).record[place]) is Some,
    ensures
        in_turn(run(m, happenings).record, place, first_number(m)),
{
    lemma_run(m, happenings);
}

/// However a mission goes, the acknowledgement of a stop is the last thing in its record, and it
/// comes exactly when the coordinator was told to stop or nobody was left to tell it anything.
pub proof fn law_stop_ack_comes_last(m: Mission, happenings: Seq<Happening>, place: int)
    requires
        0 <= place < run(m, happenings).record.len(),
    ensures
        ({
            let record = run(m, happenings).record;
            &&& record[place] == Entry::Said(EventView::StopAck) ==> place == record.len() - 1
                && place > 0 && record[place - 1] == Entry::ToldToStop
            &&& record[place] == Entry::ToldToStop ==> place == record.len() - 2 && record[place
                + 1] == Entry::Said(EventView::StopAck)
        }),
{
    lemma_run(m, happenings);
}

/// A coordinator that waits and is told to stop, or is left alone, acknowledges it.
pub proof fn law_stops_are_acknowledged(m: Mission, happenings: Seq<Happening>)
    requires
        run(m, happenings).phase is Waiting,
    ensures
        run(m, happenings.push(Happening::Stop)).record == run(m, happenings).record.push(
            Entry::ToldToStop,
        ).push(Entry::Said(EventView::StopAck)),
        run(m, happenings.push(Happening::Stop)).state.stopped,
{
    assert(happenings.push(Happening::Stop).drop_last() =~= happenings);
}

/// However a mission goes, nothing follows a decision that it has failed.
pub proof fn law_nothing_follows_failure(m: Mission, happenings: Seq<Happening>, place: int)
    requires
        0 <= place < run(m, happenings).record.len(),
        decision_in(run(m, happenings).record[place]) matches Some(d) && d.status is Failed,
    ensures
        place == run(m, happenings).record.len() - 1,
{
    lemma_run(m, happenings);
}

/// However a mission goes, no decision launches helper agents that write where there is no
/// repository, nor any where they are not allowed.
pub proof fn law_agents_stay_in_bounds(m: Mission, happenings: Seq<Happening>, place: int)
    requires
        0 <= place < run(m, happenings).record.len(),
        decision_in(run(m, happenings).record[place]) is Some,
    ensures
        within_bounds(
            decision_in(run(m, happenings).record[place]).unwrap(),
            m.git_repo_present,
            m.settings.agents_enabled,
        ),
{
    lemma_run(m, happenings);
}

/// However a mission goes, the model is asked to decide only while no decision waits to be
/// acknowledged and nothing has ended the mission.
pub proof fn law_model_is_asked_in_turn(m: Mission, happenings: Seq<Happening>)
    ensures
        run(m, happenings).phase is Asking ==> run(m, happenings).state.ack is None && !run(
            m,
            happenings,
        ).state.stopped,
{
    lemma_run(m, happenings);
}

} // verus!
