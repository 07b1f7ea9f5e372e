//! The coordinator: what it does next, and what it makes of what it is told.
use crate::accounts::opt_event;
use crate::attempts::{plan_retry, retry_plan, MAX_DECISION_RECOVERY_ATTEMPTS};
use crate::compaction::CompactionResult;
use crate::convert::{agent_action_to_event_with_write_guard, cli_action_to_event, guarded_launch};
use crate::decision::{
    agent_actions, opt_cli_action, AgentAction, CliAction, DecisionError, DecisionErrorView,
    DecisionFailure, DecisionView, ParsedCoordinatorDecision,
};
use crate::events::{
    events_view, opt_cli, turn_agents, AutoCoordinatorCommand, AutoCoordinatorEvent,
    AutoCoordinatorStatus, AutoTurnAgentsAction, AutoTurnCliAction, CliView, DecisionEventView,
    EventView, PendingDecision, TurnAgentView,
};
use crate::items::{
    copy_items, filter_popular_commands, items_view, make_message, message, without_popular,
    ItemView, ResponseItem,
};
use crate::prompts::{
    build_initial_planning_seed, goal_message, goal_words, planning_json, planning_prompt,
    planning_timing,
};
use crate::recovery::{classify_recoverable_decision_error, recoverable};
use crate::schema::{AutoDriveSettings, SchemaFeatures};
use crate::text::{blank, copy_opt, decimal, decimal_text, opt_text, trim, trim_str};
use std::collections::VecDeque;
use vstd::prelude::*;
use vstd::string::*;

verus! {

/// The coordinator of a mission.
pub struct Coordinator {
    pending_conversation: Option<Vec<ResponseItem>>,
    queued_updates: VecDeque<Vec<ResponseItem>>,
    pending_ack_seq: Option<u64>,
    decision_seq: u64,
    stopped: bool,
    requests_completed: u64,
    consecutive_decision_failures: u32,
    turns_seen: u32,
    turn_cap: u32,
    include_agents: bool,
    git_repo_present: bool,
    schema_features: SchemaFeatures,
    primary_goal_message: String,
    active_model_slug: String,
    prev_compact_summary: Option<String>,
}

/// Where a coordinator stands.
pub struct CoordinatorView {
    /// The conversation to be looked at next.
    pub pending: Option<Seq<ItemView>>,
    /// The conversations behind it, the oldest first.
    pub queue: Seq<Seq<ItemView>>,
    /// The decision that has not been acknowledged yet.
    pub ack: Option<u64>,
    /// The number of the last decision.
    pub seq: u64,
    /// Whether the mission has ended.
    pub stopped: bool,
    /// How many conversations were handed in.
    pub requests: u64,
    /// How many replies in a row were faulty.
    pub failures: u32,
    /// How many decisions were made.
    pub turns: u32,
    /// How many decisions may be made; any number where it is 0.
    pub cap: u32,
    /// Whether helper agents may be launched.
    pub agents: bool,
    /// Whether there is a repository, so that helper agents may write.
    pub git: bool,
    /// What the model is asked for.
    pub features: SchemaFeatures,
    /// The goal in words.
    pub goal: Seq<char>,
    /// The model that is asked.
    pub model: Seq<char>,
    /// The summary that stands for what was taken out of the conversation.
    pub summary: Option<Seq<char>>,
}

/// What queued conversations say.
pub open spec fn conversations(v: Seq<Vec<ResponseItem>>) -> Seq<Seq<ItemView>> {
    Seq::new(v.len(), |i: int| items_view(v[i]@))
}

/// What an optional conversation says.
pub open spec fn opt_conversation(o: Option<Vec<ResponseItem>>) -> Option<Seq<ItemView>> {
    match o {
        Some(v) => Some(items_view(v@)),
        None => None,
    }
}

impl View for Coordinator {
    type V = CoordinatorView;

    closed spec fn view(&self) -> CoordinatorView {
        CoordinatorView {
            pending: opt_conversation(self.pending_conversation),
            queue: conversations(self.queued_updates@),
            ack: self.pending_ack_seq,
            seq: self.decision_seq,
            stopped: self.stopped,
            requests: self.requests_completed,
            failures: self.consecutive_decision_failures,
            turns: self.turns_seen,
            cap: self.turn_cap,
            agents: self.include_agents,
            git: self.git_repo_present,
            features: self.schema_features,
            goal: self.primary_goal_message@,
            model: self.active_model_slug@,
            summary: opt_text(self.prev_compact_summary),
        }
    }
}

/// What a mission begins with.
pub struct Mission {
    pub goal_text: String,
    pub conversation: Vec<ResponseItem>,
    pub settings: AutoDriveSettings,
    /// Whether the goal is to be found in the conversation.
    pub derive_goal_from_history: bool,
    pub git_repo_present: bool,
    pub model_slug: String,
}

/// The first decision of a mission, made without asking the model.
pub open spec fn seed_event(goal_text: Seq<char>, include_agents: bool) -> EventView {
    EventView::Decision(
        DecisionEventView {
            seq: 0,
            status: AutoCoordinatorStatus::Continue,
            input_required: false,
            status_title: Some("Planning route"@),
            status_sent_to_user: Some("Planning best route to reach the goal."@),
            goal: Some(goal_text),
            cli: Some(
                CliView {
                    prompt: planning_prompt(include_agents),
                    context: Some("Primary Goal: "@ + trim(goal_text)),
                    suppress_ui_context: true,
                },
            ),
            agents_timing: planning_timing(include_agents),
            agents: Seq::empty(),
            transcript: seq![message("assistant"@, planning_json(include_agents))],
        },
    )
}

/// Whether a mission begins with a decision made without asking the model.
pub open spec fn seeded(m: Mission) -> bool {
    !m.derive_goal_from_history && !blank(m.goal_text@)
}

/// Where a coordinator stands when a mission begins.
pub open spec fn mission_start(m: Mission) -> CoordinatorView {
    CoordinatorView {
        pending: if seeded(m) {
            None
        } else {
            Some(without_popular(items_view(m.conversation@)))
        },
        queue: Seq::empty(),
        ack: if seeded(m) {
            Some(0u64)
        } else {
            None
        },
        seq: 0,
        stopped: false,
        requests: 0,
        failures: 0,
        turns: 0,
        cap: m.settings.coordinator_turn_cap,
        agents: m.settings.agents_enabled,
        git: m.git_repo_present,
        features: SchemaFeatures {
            include_agents: m.settings.agents_enabled,
            include_goal_field: m.derive_goal_from_history,
        },
        goal: goal_words(m.goal_text@, m.derive_goal_from_history),
        model: m.model_slug@,
        summary: None,
    }
}

/// What the coordinator does next.
pub enum NextAction {
    /// Nothing more: the mission has ended.
    Finish,
    /// Ask the model, in this conversation.
    Decide(Vec<ResponseItem>),
    /// Wait to be told something.
    Wait,
}

/// What the coordinator does next.
pub enum NextView {
    Finish,
    Decide(Seq<ItemView>),
    Wait,
}

impl View for NextAction {
    type V = NextView;

    open spec fn view(&self) -> NextView {
        match *self {
            NextAction::Finish => NextView::Finish,
            NextAction::Decide(conversation) => NextView::Decide(items_view(conversation@)),
            NextAction::Wait => NextView::Wait,
        }
    }
}

/// What comes of asking what to do next; `cancelled` tells whether the run was cancelled.
pub open spec fn next_step(v: CoordinatorView, cancelled: bool) -> (CoordinatorView, NextView) {
    if v.stopped {
        (v, NextView::Finish)
    } else if v.ack is Some {
        match v.pending {
            Some(conversation) => (
                CoordinatorView { pending: None, queue: v.queue.push(conversation), ..v },
                NextView::Wait,
            ),
            None => (v, NextView::Wait),
        }
    } else {
        match v.pending {
            Some(conversation) => if cancelled {
                (CoordinatorView { pending: None, stopped: true, ..v }, NextView::Finish)
            } else {
                (
                    CoordinatorView { pending: None, ..v },
                    NextView::Decide(without_popular(conversation)),
                )
            },
            None => if v.queue.len() == 0 {
                (v, NextView::Wait)
            } else if cancelled {
                (
                    CoordinatorView { queue: v.queue.drop_first(), stopped: true, ..v },
                    NextView::Finish,
                )
            } else {
                (
                    CoordinatorView { queue: v.queue.drop_first(), ..v },
                    NextView::Decide(without_popular(v.queue[0])),
                )
            },
        }
    }
}

/// The number of the next decision.
pub open spec fn next_seq(seq: u64) -> u64 {
    if seq == u64::MAX {
        0
    } else {
        (seq + 1) as u64
    }
}

/// One more, as far as that can be counted.
pub open spec fn one_more(n: u32) -> u32 {
    if n == u32::MAX {
        n
    } else {
        (n + 1) as u32
    }
}

/// A decision comes when no more may.
pub open spec fn over_cap(v: CoordinatorView, d: DecisionView) -> bool {
    v.cap > 0 && one_more(v.turns) >= v.cap && d.status is Continue
}

/// What is announced when no more decisions may be made.
pub open spec fn cap_event(v: CoordinatorView, d: DecisionView) -> EventView {
    EventView::Decision(
        DecisionEventView {
            seq: next_seq(v.seq),
            status: AutoCoordinatorStatus::Failed,
            input_required: false,
            status_title: Some("Turn limit reached"@),
            status_sent_to_user: Some(
                "Stopped after "@ + decimal(one_more(v.turns) as nat) + " coordinator turns (cap="@
                    + decimal(v.cap as nat) + ") to prevent a runaway session."@,
            ),
            goal: d.goal,
            cli: None,
            agents_timing: None,
            agents: Seq::empty(),
            transcript: d.response_items,
        },
    )
}

/// The launches that a decision asks for.
pub open spec fn launches(v: CoordinatorView, d: DecisionView) -> Seq<TurnAgentView> {
    if v.agents {
        Seq::new(d.agents.len(), |i: int| guarded_launch(d.agents[i], v.git))
    } else {
        Seq::empty()
    }
}

/// What is announced of a decision.
pub open spec fn decision_event(v: CoordinatorView, d: DecisionView) -> EventView {
    EventView::Decision(
        DecisionEventView {
            seq: next_seq(v.seq),
            status: d.status,
            input_required: d.input_required,
            status_title: d.status_title,
            status_sent_to_user: d.status_sent_to_user,
            goal: d.goal,
            cli: d.cli,
            agents_timing: if v.agents {
                d.agents_timing
            } else {
                None
            },
            agents: launches(v, d),
            transcript: d.response_items,
        },
    )
}

/// A decision names a goal.
pub open spec fn names_goal(d: DecisionView) -> bool {
    d.goal matches Some(goal) && !blank(goal)
}

/// What comes of a decision.
pub open spec fn decision_step(v: CoordinatorView, d: DecisionView) -> (CoordinatorView, EventView) {
    let counted = CoordinatorView {
        turns: one_more(v.turns),
        model: d.model_slug,
        failures: 0,
        seq: next_seq(v.seq),
        ack: Some(next_seq(v.seq)),
        ..v
    };
    if over_cap(v, d) {
        (CoordinatorView { stopped: true, ..counted }, cap_event(v, d))
    } else {
        (
            CoordinatorView {
                goal: if names_goal(d) {
                    goal_words(trim(d.goal.unwrap()), false)
                } else {
                    v.goal
                },
                features: if names_goal(d) {
                    SchemaFeatures { include_goal_field: false, ..v.features }
                } else {
                    v.features
                },
                stopped: d.status is Failed,
                ..counted
            },
            decision_event(v, d),
        )
    }
}

/// What is announced of a failure that ends the mission.
pub open spec fn failure_event(v: CoordinatorView, error: DecisionErrorView) -> EventView {
    EventView::Decision(
        DecisionEventView {
            seq: next_seq(v.seq),
            status: AutoCoordinatorStatus::Failed,
            input_required: false,
            status_title: Some("Coordinator error"@),
            status_sent_to_user: Some("Encountered an error: "@ + error.text()),
            goal: None,
            cli: None,
            agents_timing: None,
            agents: Seq::empty(),
            transcript: Seq::empty(),
        },
    )
}

/// A failure comes of the run being cancelled.
pub open spec fn is_cancelled(error: DecisionErrorView) -> bool {
    error matches DecisionErrorView::Request { cancelled, .. } && cancelled
}

/// A faulty reply is asked for again.
pub open spec fn asks_again(v: CoordinatorView, error: DecisionErrorView) -> bool {
    recoverable(error.text()) is Some && one_more(v.failures) <= MAX_DECISION_RECOVERY_ATTEMPTS
}

/// What comes of a failure to get a decision in a conversation; `raw` is the reply, if there was
/// one, and `label` the form asked for.
pub open spec fn failure_step(
    v: CoordinatorView,
    error: DecisionErrorView,
    label: Seq<char>,
    raw: Option<Seq<char>>,
    conversation: Seq<ItemView>,
) -> (CoordinatorView, Seq<EventView>) {
    if is_cancelled(error) {
        (CoordinatorView { stopped: true, ..v }, Seq::empty())
    } else if asks_again(v, error) {
        let plan = retry_plan(
            one_more(v.failures),
            error,
            label,
            raw,
            recoverable(error.text()).unwrap(),
            conversation,
        );
        (
            CoordinatorView { failures: one_more(v.failures), pending: Some(plan.1), ..v },
            plan.0,
        )
    } else {
        (
            CoordinatorView {
                failures: 0,
                seq: next_seq(v.seq),
                ack: Some(next_seq(v.seq)),
                stopped: true,
                ..v
            },
            seq![failure_event(v, error)],
        )
    }
}

/// What comes of an acknowledgement.
pub open spec fn ack_step(v: CoordinatorView, seq: u64) -> CoordinatorView {
    if v.ack == Some(seq) {
        if v.queue.len() > 0 {
            CoordinatorView {
                ack: None,
                pending: Some(v.queue[0]),
                queue: v.queue.drop_first(),
                ..v
            }
        } else {
            CoordinatorView { ack: None, ..v }
        }
    } else {
        v
    }
}

/// A conversation has to wait behind others.
pub open spec fn must_queue(v: CoordinatorView) -> bool {
    v.ack is Some || v.pending is Some
}

/// What comes of a conversation that is handed in.
pub open spec fn update_step(v: CoordinatorView, conversation: Seq<ItemView>) -> CoordinatorView {
    let counted = CoordinatorView {
        requests: if v.requests == u64::MAX {
            v.requests
        } else {
            (v.requests + 1) as u64
        },
        failures: 0,
        ..v
    };
    if must_queue(v) {
        CoordinatorView { queue: v.queue.push(without_popular(conversation)), ..counted }
    } else {
        CoordinatorView { pending: Some(without_popular(conversation)), ..counted }
    }
}

/// What comes of being told to stop.
pub open spec fn stop_step(v: CoordinatorView) -> CoordinatorView {
    CoordinatorView { stopped: true, ack: None, queue: Seq::empty(), ..v }
}

/// What comes of making a conversation shorter; `conversation` is what it is then.
pub open spec fn compaction_step(
    v: CoordinatorView,
    result: CompactionResult,
    conversation: Seq<ItemView>,
) -> (CoordinatorView, Option<EventView>) {
    match result {
        CompactionResult::Completed { summary_text } => (
            CoordinatorView { summary: opt_text(summary_text), ..v },
            Some(EventView::CompactedHistory { conversation, show_notice: true }),
        ),
        CompactionResult::Skipped => (v, None),
    }
}

/// The answer to a user, and a command to be run with it; or what went wrong.
pub enum AnswerView {
    Given { answer: Option<Seq<char>>, command: Option<Seq<char>> },
    Failed(DecisionErrorView),
}

/// What the outcome of asking for an answer says.
pub open spec fn answer_view(
    outcome: Result<(Option<String>, Option<String>), DecisionFailure>,
) -> AnswerView {
    match outcome {
        Ok((answer, command)) => AnswerView::Given {
            answer: opt_text(answer),
            command: opt_text(command),
        },
        Err(failure) => AnswerView::Failed(failure.error@),
    }
}

/// What comes of the answer to a user, in a conversation.
pub open spec fn answer_step(
    v: CoordinatorView,
    conversation: Seq<ItemView>,
    outcome: AnswerView,
) -> (CoordinatorView, EventView) {
    match outcome {
        AnswerView::Given { answer, command } => (
            CoordinatorView { pending: Some(with_answer(conversation, answer)), ..v },
            EventView::UserReply { user_response: answer, cli_command: command },
        ),
        AnswerView::Failed(error) => (
            v,
            EventView::UserReply {
                user_response: Some("Coordinator error: "@ + error.text()),
                cli_command: None,
            },
        ),
    }
}

/// What the coordinator asks of its surroundings when it was told something.
pub enum CommandAction {
    Nothing,
    /// Count a conversation that came before the last one was dealt with.
    CountReplay,
    /// Ask the model to answer the user, in this conversation.
    AnswerUser(Vec<ResponseItem>),
    /// Announce this.
    Announce(AutoCoordinatorEvent),
}

/// What comes of what the coordinator is told: where it stood, where it stands, and what it asks of
/// its surroundings.
pub open spec fn command_taken(
    before: CoordinatorView,
    command: Option<AutoCoordinatorCommand>,
    after: CoordinatorView,
    r: CommandAction,
) -> bool {
    match command {
        Some(AutoCoordinatorCommand::AckDecision { seq }) => {
            &&& after == ack_step(before, seq)
            &&& r is Nothing
        },
        Some(AutoCoordinatorCommand::UpdateConversation(conversation)) => {
            &&& after == update_step(before, items_view(conversation@))
            &&& r == if must_queue(before) {
                CommandAction::CountReplay
            } else {
                CommandAction::Nothing
            }
        },
        Some(AutoCoordinatorCommand::HandleUserPrompt { conversation, .. }) => {
            &&& after == before
            &&& r == CommandAction::AnswerUser(conversation)
        },
        Some(AutoCoordinatorCommand::Stop) => {
            &&& after == stop_step(before)
            &&& r == CommandAction::Announce(AutoCoordinatorEvent::StopAck)
        },
        None => {
            &&& after == stop_step(before)
            &&& r == CommandAction::Announce(AutoCoordinatorEvent::StopAck)
        },
    }
}

/// A conversation with an answer to the user at its end, if there is one.
pub open spec fn with_answer(conversation: Seq<ItemView>, answer: Option<Seq<char>>) -> Seq<ItemView> {
    match answer {
        Some(text) => conversation.push(message("assistant"@, text)),
        None => conversation,
    }
}

fn count_up(n: u32) -> (r: u32)
    ensures
        r == one_more(n),
{
    if n == u32::MAX {
        n
    } else {
        n + 1
    }
}

fn number_after(seq: u64) -> (r: u64)
    ensures
        r == next_seq(seq),
{
    if seq == u64::MAX {
        0
    } else {
        seq + 1
    }
}

/// The launches that a decision asks for.
fn launch_all(actions: &Vec<AgentAction>, allow_write: bool) -> (r: Vec<AutoTurnAgentsAction>)
    ensures
        turn_agents(r@) == Seq::new(
            actions@.len(),
            |i: int| guarded_launch(agent_actions(actions@)[i], allow_write),
        ),
{
    let mut out: Vec<AutoTurnAgentsAction> = Vec::new();
    let mut i: usize = 0;
    while i < actions.len()
        invariant
            i <= actions@.len(),
            out@.len() == i,
            forall|j: int|
                0 <= j < i ==> (#[trigger] out@[j])@ == guarded_launch(actions@[j]@, allow_write),
        decreases actions.len() - i,
    {
        out.push(agent_action_to_event_with_write_guard(&actions[i], allow_write));
        i = i + 1;
    }
    assert(turn_agents(out@) =~= Seq::new(
        actions@.len(),
        |j: int| guarded_launch(agent_actions(actions@)[j], allow_write),
    ));
    out
}

/// The instruction that a decision announces.
fn announced_cli(cli: &Option<CliAction>) -> (r: Option<AutoTurnCliAction>)
    ensures
        opt_cli(r) == opt_cli_action(*cli),
{
    match cli {
        Some(action) => Some(cli_action_to_event(action)),
        None => None,
    }
}

fn no_agents() -> (r: Vec<AutoTurnAgentsAction>)
    ensures
        turn_agents(r@) == Seq::<TurnAgentView>::empty(),
{
    let r: Vec<AutoTurnAgentsAction> = Vec::new();
    assert(turn_agents(r@) =~= Seq::empty());
    r
}

fn no_items() -> (r: Vec<ResponseItem>)
    ensures
        items_view(r@) == Seq::<ItemView>::empty(),
{
    let r: Vec<ResponseItem> = Vec::new();
    assert(items_view(r@) =~= Seq::empty());
    r
}

impl Coordinator {
    /// Begins a mission, and gives the decision that it begins with, if there is one.
    pub fn start(mission: Mission) -> (r: (Self, Option<AutoCoordinatorEvent>))
        ensures
            r.0@ == mission_start(mission),
            match r.1 {
                Some(event) => seeded(mission) && event@ == seed_event(
                    mission.goal_text@,
                    mission.settings.agents_enabled,
                ),
                None => !seeded(mission),
            },
    {
        let mut schema_features = SchemaFeatures::from_auto_settings(&mission.settings);
        if mission.derive_goal_from_history {
            schema_features.include_goal_field = true;
        }
        let include_agents = schema_features.include_agents;
        let primary_goal_message = if mission.derive_goal_from_history {
            "**Primary Goal**\nYou are preparing to start Auto Drive. Review the recent conversation history and identify the single primary coding goal the assistant should pursue next.".to_owned()
        } else {
            goal_message(mission.goal_text.as_str())
        };
        let mut coordinator = Coordinator {
            pending_conversation: Some(filter_popular_commands(mission.conversation)),
            queued_updates: VecDeque::new(),
            pending_ack_seq: None,
            decision_seq: 0,
            stopped: false,
            requests_completed: 0,
            consecutive_decision_failures: 0,
            turns_seen: 0,
            turn_cap: mission.settings.coordinator_turn_cap,
            include_agents,
            git_repo_present: mission.git_repo_present,
            schema_features,
            primary_goal_message,
            active_model_slug: mission.model_slug,
            prev_compact_summary: None,
        };
        assert(conversations(coordinator.queued_updates@) =~= Seq::<Seq<ItemView>>::empty());
        if mission.derive_goal_from_history {
            return (coordinator, None);
        }
        match build_initial_planning_seed(mission.goal_text.as_str(), include_agents) {
            Some(seed) => {
                let mut transcript: Vec<ResponseItem> = Vec::new();
                let item = make_message("assistant", seed.response_json);
                transcript.push(item);
                assert(items_view(transcript@) =~= seq![item@]);
                let event = AutoCoordinatorEvent::Decision {
                    seq: 0,
                    status: AutoCoordinatorStatus::Continue,
                    input_required: false,
                    status_title: Some(seed.status_title),
                    status_sent_to_user: Some(seed.status_sent_to_user),
                    goal: Some(mission.goal_text),
                    cli: Some(
                        AutoTurnCliAction {
                            prompt: seed.cli_prompt,
                            context: Some(seed.goal_message),
                            suppress_ui_context: true,
                        },
                    ),
                    agents_timing: seed.agents_timing,
                    agents: no_agents(),
                    transcript,
                };
                coordinator.pending_ack_seq = Some(0);
                coordinator.pending_conversation = None;
                (coordinator, Some(event))
            },
            None => (coordinator, None),
        }
    }

    /// What to do next; `cancelled` tells whether the run was cancelled.
    pub fn next_action(&mut self, cancelled: bool) -> (r: NextAction)
        ensures
            (final(self)@, r@) == next_step(old(self)@, cancelled),
    {
        if self.stopped {
            return NextAction::Finish;
        }
        let ghost before = self.queued_updates@;
        let mut next: Option<Vec<ResponseItem>> = None;
        match self.pending_conversation.take() {
            Some(conversation) => {
                if self.pending_ack_seq.is_some() {
                    self.queued_updates.push_back(conversation);
                    assert(conversations(self.queued_updates@) =~= conversations(before).push(
                        items_view(conversation@),
                    ));
                } else {
                    next = Some(conversation);
                }
            },
            None => {
                if self.pending_ack_seq.is_none() {
                    next = self.queued_updates.pop_front();
                    assert(before.len() > 0 ==> conversations(self.queued_updates@)
                        =~= conversations(before).drop_first());
                }
            },
        }
        match next {
            Some(conversation) => {
                if cancelled {
                    self.stopped = true;
                    NextAction::Finish
                } else {
                    NextAction::Decide(filter_popular_commands(conversation))
                }
            },
            None => NextAction::Wait,
        }
    }

    /// Takes what became of making a conversation shorter, and gives what is announced.
    pub fn on_compaction(&mut self, result: CompactionResult, conversation: &Vec<ResponseItem>) -> (r:
        Option<AutoCoordinatorEvent>)
        ensures
            (final(self)@, opt_event(r)) == compaction_step(
                old(self)@,
                result,
                items_view(conversation@),
            ),
    {
        match result {
            CompactionResult::Completed { summary_text } => {
                self.prev_compact_summary = summary_text;
                Some(
                    AutoCoordinatorEvent::CompactedHistory {
                        conversation: copy_items(conversation),
                        show_notice: true,
                    },
                )
            },
            CompactionResult::Skipped => None,
        }
    }

    /// Takes a decision, and gives what is announced.
    pub fn on_decision(&mut self, decision: ParsedCoordinatorDecision) -> (r: AutoCoordinatorEvent)
        ensures
            (final(self)@, r@) == decision_step(old(self)@, decision@),
    {
        self.turns_seen = count_up(self.turns_seen);
        self.active_model_slug = decision.model_slug;
        self.consecutive_decision_failures = 0;
        self.decision_seq = number_after(self.decision_seq);
        self.pending_ack_seq = Some(self.decision_seq);
        if self.turn_cap > 0 && self.turns_seen >= self.turn_cap && decision.status
            == AutoCoordinatorStatus::Continue {
            let mut told = "Stopped after ".to_owned();
            told.append(decimal_text(self.turns_seen as u64).as_str());
            told.append(" coordinator turns (cap=");
            told.append(decimal_text(self.turn_cap as u64).as_str());
            told.append(") to prevent a runaway session.");
            self.stopped = true;
            return AutoCoordinatorEvent::Decision {
                seq: self.decision_seq,
                status: AutoCoordinatorStatus::Failed,
                input_required: false,
                status_title: Some("Turn limit reached".to_owned()),
                status_sent_to_user: Some(told),
                goal: decision.goal,
                cli: None,
                agents_timing: None,
                agents: no_agents(),
                transcript: decision.response_items,
            };
        }
        if let Some(goal) = &decision.goal {
            let trimmed = trim_str(goal.as_str());
            if !trimmed.is_empty() {
                self.primary_goal_message = goal_message(trimmed);
                self.schema_features.include_goal_field = false;
            }
        }
        let agents = if self.include_agents {
            launch_all(&decision.agents, self.git_repo_present)
        } else {
            no_agents()
        };
        let pending = PendingDecision {
            seq: self.decision_seq,
            status: decision.status,
            input_required: decision.input_required,
            status_title: decision.status_title,
            status_sent_to_user: decision.status_sent_to_user,
            goal: decision.goal,
            cli: announced_cli(&decision.cli),
            agents_timing: if self.include_agents {
                decision.agents_timing
            } else {
                None
            },
            agents,
            transcript: decision.response_items,
        };
        assert(pending@.agents =~= launches(old(self)@, decision@));
        self.stopped = decision.status == AutoCoordinatorStatus::Failed;
        pending.into_event()
    }

    /// Takes a failure to get a decision in a conversation, and gives what is announced.
    pub fn on_failure(&mut self, failure: DecisionFailure, conversation: Vec<ResponseItem>) -> (r: Vec<
        AutoCoordinatorEvent,
    >)
        ensures
            (final(self)@, events_view(r@)) == failure_step(
                old(self)@,
                failure.error@,
                failure.schema_label@,
                opt_text(failure.output_text),
                items_view(conversation@),
            ),
    {
        let mut events: Vec<AutoCoordinatorEvent> = Vec::new();
        if let DecisionError::Request(chain) = &failure.error {
            if chain.cancelled {
                self.stopped = true;
                assert(events_view(events@) =~= Seq::<EventView>::empty());
                return events;
            }
        }
        let text = failure.error.to_text();
        if let Some(fault) = classify_recoverable_decision_error(text.as_str()) {
            let attempt: u32 = count_up(self.consecutive_decision_failures);
            if attempt <= MAX_DECISION_RECOVERY_ATTEMPTS {
                self.consecutive_decision_failures = attempt;
                let (events, retry) = plan_retry(attempt, &failure, &fault, conversation);
                self.pending_conversation = Some(retry);
                return events;
            }
        }
        self.consecutive_decision_failures = 0;
        self.decision_seq = number_after(self.decision_seq);
        self.pending_ack_seq = Some(self.decision_seq);
        self.stopped = true;
        let mut told = "Encountered an error: ".to_owned();
        told.append(text.as_str());
        let event = AutoCoordinatorEvent::Decision {
            seq: self.decision_seq,
            status: AutoCoordinatorStatus::Failed,
            input_required: false,
            status_title: Some("Coordinator error".to_owned()),
            status_sent_to_user: Some(told),
            goal: None,
            cli: None,
            agents_timing: None,
            agents: no_agents(),
            transcript: no_items(),
        };
        events.push(event);
        assert(events_view(events@) =~= seq![event@]);
        events
    }

    /// Takes what the coordinator is told; nothing is told when nobody is left to tell anything,
    /// which ends the mission.
    pub fn on_command(&mut self, command: Option<AutoCoordinatorCommand>) -> (r: CommandAction)
        ensures
            command_taken(old(self)@, command, final(self)@, r),
            match command {
                Some(AutoCoordinatorCommand::AckDecision { seq }) => {
                    &&& final(self)@ == ack_step(old(self)@, seq)
                    &&& r is Nothing
                },
                Some(AutoCoordinatorCommand::UpdateConversation(conversation)) => {
                    &&& final(self)@ == update_step(old(self)@, items_view(conversation@))
                    &&& r == if must_queue(old(self)@) {
                        CommandAction::CountReplay
                    } else {
                        CommandAction::Nothing
                    }
                },
                Some(AutoCoordinatorCommand::HandleUserPrompt { conversation, .. }) => {
                    &&& final(self)@ == old(self)@
                    &&& r == CommandAction::AnswerUser(conversation)
                },
                Some(AutoCoordinatorCommand::Stop) => {
                    &&& final(self)@ == stop_step(old(self)@)
                    &&& r == CommandAction::Announce(AutoCoordinatorEvent::StopAck)
                },
                None => {
                    &&& final(self)@ == stop_step(old(self)@)
                    &&& r == CommandAction::Announce(AutoCoordinatorEvent::StopAck)
                },
            },
    {
        let ghost before = self.queued_updates@;
        match command {
            Some(AutoCoordinatorCommand::AckDecision { seq }) => {
                if self.pending_ack_seq == Some(seq) {
                    self.pending_ack_seq = None;
                    if let Some(queued) = self.queued_updates.pop_front() {
                        self.pending_conversation = Some(queued);
                        assert(conversations(self.queued_updates@) =~= conversations(
                            before,
                        ).drop_first());
                    }
                }
                CommandAction::Nothing
            },
            Some(AutoCoordinatorCommand::UpdateConversation(conversation)) => {
                if self.requests_completed < u64::MAX {
                    self.requests_completed = self.requests_completed + 1;
                }
                self.consecutive_decision_failures = 0;
                let filtered = filter_popular_commands(conversation);
                if self.pending_ack_seq.is_some() || self.pending_conversation.is_some() {
                    self.queued_updates.push_back(filtered);
                    assert(conversations(self.queued_updates@) =~= conversations(before).push(
                        items_view(filtered@),
                    ));
                    CommandAction::CountReplay
                } else {
                    self.pending_conversation = Some(filtered);
                    CommandAction::Nothing
                }
            },
            Some(AutoCoordinatorCommand::HandleUserPrompt { conversation, .. }) => {
                CommandAction::AnswerUser(conversation)
            },
            Some(AutoCoordinatorCommand::Stop) | None => {
                self.stopped = true;
                self.pending_ack_seq = None;
                self.queued_updates.clear();
                assert(conversations(self.queued_updates@) =~= Seq::<Seq<ItemView>>::empty());
                CommandAction::Announce(AutoCoordinatorEvent::StopAck)
            },
        }
    }

    /// Takes the answer to a user, or the failure to get one, and gives what is announced.
    pub fn on_user_turn(
        &mut self,
        conversation: Vec<ResponseItem>,
        outcome: Result<(Option<String>, Option<String>), DecisionFailure>,
    ) -> (r: AutoCoordinatorEvent)
        ensures
            (final(self)@, r@) == answer_step(
                old(self)@,
                items_view(conversation@),
                answer_view(outcome),
            ),
    {
        match outcome {
            Ok((user_response, cli_command)) => {
                let mut updated = conversation;
                if let Some(text) = &user_response {
                    let item = make_message("assistant", text.clone());
                    updated.push(item);
                    assert(items_view(updated@) =~= items_view(conversation@).push(item@));
                }
                self.pending_conversation = Some(updated);
                AutoCoordinatorEvent::UserReply { user_response, cli_command }
            },
            Err(failure) => {
                let mut text = "Coordinator error: ".to_owned();
                text.append(failure.error.to_text().as_str());
                AutoCoordinatorEvent::UserReply { user_response: Some(text), cli_command: None }
            },
        }
    }

    /// Whether the mission has ended.
    pub fn is_stopped(&self) -> (r: bool)
        ensures
            r == self@.stopped,
    {
        self.stopped
    }

    /// What the model is asked for.
    pub fn schema_features(&self) -> (r: SchemaFeatures)
        ensures
            r == self@.features,
    {
        self.schema_features
    }

    /// The goal in words.
    pub fn primary_goal(&self) -> (r: &str)
        ensures
            r@ == self@.goal,
    {
        self.primary_goal_message.as_str()
    }

    /// The model that is asked.
    pub fn active_model(&self) -> (r: &str)
        ensures
            r@ == self@.model,
    {
        self.active_model_slug.as_str()
    }

    /// The summary that stands for what was taken out of the conversation.
    pub fn previous_summary(&self) -> (r: Option<String>)
        ensures
            opt_text(r) == self@.summary,
    {
        copy_opt(&self.prev_compact_summary)
    }

    /// How many conversations were handed in.
    pub fn requests_completed(&self) -> (r: u64)
        ensures
            r == self@.requests,
    {
        self.requests_completed
    }
}

} // verus!
