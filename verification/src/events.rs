//! What the coordinator tells its surroundings, and what it is told.
use crate::items::{items_view, ItemView, ResponseItem};
use crate::text::{opt_text, opt_texts};
use vstd::prelude::*;

verus! {

/// An instruction for the command line agent.
#[derive(Debug, Clone)]
pub struct AutoTurnCliAction {
    pub prompt: String,
    pub context: Option<String>,
    pub suppress_ui_context: bool,
}

/// Whether helper agents run beside the command line agent or before it.
#[derive(Debug, Clone, Copy, PartialEq, Eq, Structural)]
pub enum AutoTurnAgentsTiming {
    Parallel,
    Blocking,
}

/// A request to launch a helper agent.
#[derive(Debug, Clone)]
pub struct AutoTurnAgentsAction {
    pub prompt: String,
    pub context: Option<String>,
    /// Whether the agent may write.
    pub write: bool,
    /// What the coordinator asked for.
    pub write_requested: Option<bool>,
    pub models: Option<Vec<String>>,
}

/// Where the mission stands.
#[derive(Debug, Clone, Copy, PartialEq, Eq, Structural)]
pub enum AutoCoordinatorStatus {
    Continue,
    Success,
    Failed,
}

/// Tokens that a request has used.
#[derive(Debug, Clone, Copy, PartialEq, Eq, Structural)]
pub struct TokenUsage {
    pub input_tokens: u64,
    pub cached_input_tokens: u64,
    pub output_tokens: u64,
    pub reasoning_output_tokens: u64,
    pub total_tokens: u64,
}

/// What the coordinator tells its surroundings.
#[derive(Debug, Clone)]
pub enum AutoCoordinatorEvent {
    Decision {
        seq: u64,
        status: AutoCoordinatorStatus,
        input_required: bool,
        status_title: Option<String>,
        status_sent_to_user: Option<String>,
        goal: Option<String>,
        cli: Option<AutoTurnCliAction>,
        agents_timing: Option<AutoTurnAgentsTiming>,
        agents: Vec<AutoTurnAgentsAction>,
        transcript: Vec<ResponseItem>,
    },
    Thinking { delta: String, summary_index: Option<u32> },
    Action { message: String },
    UserReply { user_response: Option<String>, cli_command: Option<String> },
    TokenMetrics {
        total_usage: TokenUsage,
        last_turn_usage: TokenUsage,
        turn_count: u32,
        duplicate_items: u32,
        replay_updates: u32,
    },
    CompactedHistory { conversation: Vec<ResponseItem>, show_notice: bool },
    StopAck,
}

/// What the coordinator is told.
#[derive(Debug)]
pub enum AutoCoordinatorCommand {
    UpdateConversation(Vec<ResponseItem>),
    HandleUserPrompt { _prompt: String, conversation: Vec<ResponseItem> },
    AckDecision { seq: u64 },
    Stop,
}

/// The instruction that an action carries.
pub struct CliView {
    pub prompt: Seq<char>,
    pub context: Option<Seq<char>>,
    pub suppress_ui_context: bool,
}

/// The launch that an action asks for.
pub struct TurnAgentView {
    pub prompt: Seq<char>,
    pub context: Option<Seq<char>>,
    pub write: bool,
    pub write_requested: Option<bool>,
    pub models: Option<Seq<Seq<char>>>,
}

/// What a decision says.
pub struct DecisionEventView {
    pub seq: u64,
    pub status: AutoCoordinatorStatus,
    pub input_required: bool,
    pub status_title: Option<Seq<char>>,
    pub status_sent_to_user: Option<Seq<char>>,
    pub goal: Option<Seq<char>>,
    pub cli: Option<CliView>,
    pub agents_timing: Option<AutoTurnAgentsTiming>,
    pub agents: Seq<TurnAgentView>,
    pub transcript: Seq<ItemView>,
}

/// What an event says.
pub enum EventView {
    Decision(DecisionEventView),
    Thinking { delta: Seq<char>, summary_index: Option<u32> },
    Action { message: Seq<char> },
    UserReply { user_response: Option<Seq<char>>, cli_command: Option<Seq<char>> },
    TokenMetrics {
        total_usage: TokenUsage,
        last_turn_usage: TokenUsage,
        turn_count: u32,
        duplicate_items: u32,
        replay_updates: u32,
    },
    CompactedHistory { conversation: Seq<ItemView>, show_notice: bool },
    StopAck,
}

impl View for AutoTurnCliAction {
    type V = CliView;

    open spec fn view(&self) -> CliView {
        CliView {
            prompt: self.prompt@,
            context: opt_text(self.context),
            suppress_ui_context: self.suppress_ui_context,
        }
    }
}

impl View for AutoTurnAgentsAction {
    type V = TurnAgentView;

    open spec fn view(&self) -> TurnAgentView {
        TurnAgentView {
            prompt: self.prompt@,
            context: opt_text(self.context),
            write: self.write,
            write_requested: self.write_requested,
            models: opt_texts(self.models),
        }
    }
}

/// What an optional instruction says.
pub open spec fn opt_cli(o: Option<AutoTurnCliAction>) -> Option<CliView> {
    match o {
        Some(a) => Some(a@),
        None => None,
    }
}

/// What a list of launches asks for.
pub open spec fn turn_agents(v: Seq<AutoTurnAgentsAction>) -> Seq<TurnAgentView> {
    Seq::new(v.len(), |i: int| v[i]@)
}

impl View for AutoCoordinatorEvent {
    type V = EventView;

    open spec fn view(&self) -> EventView {
        match *self {
            AutoCoordinatorEvent::Decision {
                seq,
                status,
                input_required,
                status_title,
                status_sent_to_user,
                goal,
                cli,
                agents_timing,
                agents,
                transcript,
            } => EventView::Decision(
                DecisionEventView {
                    seq,
                    status,
                    input_required,
                    status_title: opt_text(status_title),
                    status_sent_to_user: opt_text(status_sent_to_user),
                    goal: opt_text(goal),
                    cli: opt_cli(cli),
                    agents_timing,
                    agents: turn_agents(agents@),
                    transcript: items_view(transcript@),
                },
            ),
            AutoCoordinatorEvent::Thinking { delta, summary_index } => EventView::Thinking {
                delta: delta@,
                summary_index,
            },
            AutoCoordinatorEvent::Action { message } => EventView::Action { message: message@ },
            AutoCoordinatorEvent::UserReply { user_response, cli_command } => EventView::UserReply {
                user_response: opt_text(user_response),
                cli_command: opt_text(cli_command),
            },
            AutoCoordinatorEvent::TokenMetrics {
                total_usage,
                last_turn_usage,
                turn_count,
                duplicate_items,
                replay_updates,
            } => EventView::TokenMetrics {
                total_usage,
                last_turn_usage,
                turn_count,
                duplicate_items,
                replay_updates,
            },
            AutoCoordinatorEvent::CompactedHistory { conversation, show_notice } => EventView::CompactedHistory {
                conversation: items_view(conversation@),
                show_notice,
            },
            AutoCoordinatorEvent::StopAck => EventView::StopAck,
        }
    }
}

/// What a list of events says.
pub open spec fn events_view(v: Seq<AutoCoordinatorEvent>) -> Seq<EventView> {
    Seq::new(v.len(), |i: int| v[i]@)
}

impl EventView {
    /// The name of the kind of event.
    pub open spec fn kind(self) -> Seq<char> {
        match self {
            EventView::Decision(_) => "decision"@,
            EventView::Thinking { .. } => "thinking"@,
            EventView::Action { .. } => "action"@,
            EventView::UserReply { .. } => "user_reply"@,
            EventView::TokenMetrics { .. } => "token_metrics"@,
            EventView::CompactedHistory { .. } => "compacted_history"@,
            EventView::StopAck => "stop_ack"@,
        }
    }
}

impl AutoCoordinatorEvent {
    /// The name of the kind of event.
    pub fn kind(&self) -> (r: &'static str)
        ensures
            r@ == self@.kind(),
    {
        match self {
            AutoCoordinatorEvent::Decision { .. } => "decision",
            AutoCoordinatorEvent::Thinking { .. } => "thinking",
            AutoCoordinatorEvent::Action { .. } => "action",
            AutoCoordinatorEvent::UserReply { .. } => "user_reply",
            AutoCoordinatorEvent::TokenMetrics { .. } => "token_metrics",
            AutoCoordinatorEvent::CompactedHistory { .. } => "compacted_history",
            AutoCoordinatorEvent::StopAck => "stop_ack",
        }
    }
}

/// A decision that waits to be sent.
pub struct PendingDecision {
    pub seq: u64,
    pub status: AutoCoordinatorStatus,
    pub input_required: bool,
    pub status_title: Option<String>,
    pub status_sent_to_user: Option<String>,
    pub goal: Option<String>,
    pub cli: Option<AutoTurnCliAction>,
    pub agents_timing: Option<AutoTurnAgentsTiming>,
    pub agents: Vec<AutoTurnAgentsAction>,
    pub transcript: Vec<ResponseItem>,
}

impl View for PendingDecision {
    type V = DecisionEventView;

    open spec fn view(&self) -> DecisionEventView {
        DecisionEventView {
            seq: self.seq,
            status: self.status,
            input_required: self.input_required,
            status_title: opt_text(self.status_title),
            status_sent_to_user: opt_text(self.status_sent_to_user),
            goal: opt_text(self.goal),
            cli: opt_cli(self.cli),
            agents_timing: self.agents_timing,
            agents: turn_agents(self.agents@),
            transcript: items_view(self.transcript@),
        }
    }
}

impl PendingDecision {
    /// The event that announces the decision.
    pub fn into_event(self) -> (r: AutoCoordinatorEvent)
        ensures
            r@ == EventView::Decision(self@),
    {
        AutoCoordinatorEvent::Decision {
            seq: self.seq,
            status: self.status,
            input_required: self.input_required,
            status_title: self.status_title,
            status_sent_to_user: self.status_sent_to_user,
            goal: self.goal,
            cli: self.cli,
            agents_timing: self.agents_timing,
            agents: self.agents,
            transcript: self.transcript,
        }
    }
}

/// The event that reports the tokens used, unless nothing was recorded yet.
pub fn emit_auto_drive_metrics(
    total_usage: TokenUsage,
    total_is_zero: bool,
    last_turn_usage: TokenUsage,
    turn_count: u32,
    duplicate_items: u32,
    replay_updates: u32,
) -> (r: Option<AutoCoordinatorEvent>)
    ensures
        r is None <==> turn_count == 0 && total_is_zero,
        r matches Some(event) ==> event@ == (EventView::TokenMetrics {
            total_usage,
            last_turn_usage,
            turn_count,
            duplicate_items,
            replay_updates,
        }),
{
    if turn_count == 0 && total_is_zero {
        return None;
    }
    Some(
        AutoCoordinatorEvent::TokenMetrics {
            total_usage,
            last_turn_usage,
            turn_count,
            duplicate_items,
            replay_updates,
        },
    )
}

/// Events of different kinds have different names.
pub proof fn law_kinds_are_told_apart(a: EventView, b: EventView)
    requires
        a.kind() == b.kind(),
    ensures
        a is Decision <==> b is Decision,
        a is Thinking <==> b is Thinking,
        a is Action <==> b is Action,
        a is UserReply <==> b is UserReply,
        a is TokenMetrics <==> b is TokenMetrics,
        a is CompactedHistory <==> b is CompactedHistory,
        a is StopAck <==> b is StopAck,
{
    reveal_strlit("decision");
    reveal_strlit("thinking");
    reveal_strlit("action");
    reveal_strlit("user_reply");
    reveal_strlit("token_metrics");
    reveal_strlit("compacted_history");
    reveal_strlit("stop_ack");
    assert("decision"@.len() == 8 && "decision"@[0] == 'd');
    assert("thinking"@.len() == 8 && "thinking"@[0] == 't');
    assert("stop_ack"@.len() == 8 && "stop_ack"@[0] == 's');
    assert("action"@.len() == 6);
    assert("user_reply"@.len() == 10);
    assert("token_metrics"@.len() == 13);
    assert("compacted_history"@.len() == 17);
}

/// What is seen of an event is all that it tells.
pub proof fn law_events_are_seen_whole(event: AutoCoordinatorEvent, i: int)
    ensures
        match event {
            AutoCoordinatorEvent::Decision {
                seq,
                status,
                input_required,
                status_title,
                status_sent_to_user,
                goal,
                cli,
                agents_timing,
                agents,
                transcript,
            } => event@ matches EventView::Decision(seen) && {
                &&& seen.seq == seq
                &&& seen.status == status
                &&& seen.input_required == input_required
                &&& seen.status_title == opt_text(status_title)
                &&& seen.status_sent_to_user == opt_text(status_sent_to_user)
                &&& seen.goal == opt_text(goal)
                &&& seen.cli is Some <==> cli is Some
                &&& cli matches Some(told) ==> {
                    &&& seen.cli.unwrap().prompt == told.prompt@
                    &&& seen.cli.unwrap().context == opt_text(told.context)
                    &&& seen.cli.unwrap().suppress_ui_context == told.suppress_ui_context
                }
                &&& seen.agents_timing == agents_timing
                &&& seen.agents.len() == agents@.len()
                &&& 0 <= i < agents@.len() ==> {
                    &&& seen.agents[i].prompt == agents@[i].prompt@
                    &&& seen.agents[i].context == opt_text(agents@[i].context)
                    &&& seen.agents[i].write == agents@[i].write
                    &&& seen.agents[i].write_requested == agents@[i].write_requested
                    &&& seen.agents[i].models == opt_texts(agents@[i].models)
                }
                &&& seen.transcript == items_view(transcript@)
            },
            AutoCoordinatorEvent::Thinking { delta, summary_index } => event@ matches
                EventView::Thinking { delta: a, summary_index: b } && a == delta@ && b
                == summary_index,
            AutoCoordinatorEvent::Action { message } => event@ matches EventView::Action {
                message: a,
            } && a == message@,
            AutoCoordinatorEvent::UserReply { user_response, cli_command } => event@ matches
                EventView::UserReply { user_response: a, cli_command: b } && a == opt_text(
                user_response,
            ) && b == opt_text(cli_command),
            AutoCoordinatorEvent::TokenMetrics {
                total_usage,
                last_turn_usage,
                turn_count,
                duplicate_items,
                replay_updates,
            } => event@ == (EventView::TokenMetrics {
                total_usage,
                last_turn_usage,
                turn_count,
                duplicate_items,
                replay_updates,
            }),
            AutoCoordinatorEvent::CompactedHistory { conversation, show_notice } => event@ matches
                EventView::CompactedHistory { conversation: a, show_notice: b } && a == items_view(
                conversation@,
            ) && b == show_notice,
            AutoCoordinatorEvent::StopAck => event@ is StopAck,
        },
{
}

/// The tokens that were used are reported as they were counted, unless nothing was.
pub proof fn law_tokens_are_reported(
    total_usage: TokenUsage,
    total_is_zero: bool,
    last_turn_usage: TokenUsage,
    turn_count: u32,
    duplicate_items: u32,
    replay_updates: u32,
    r: Option<AutoCoordinatorEvent>,
)
    requires
        call_ensures(
            emit_auto_drive_metrics,
            (
                total_usage,
                total_is_zero,
                last_turn_usage,
                turn_count,
                duplicate_items,
                replay_updates,
            ),
            r,
        ),
    ensures
        turn_count > 0 || !total_is_zero ==> (r matches Some(event) && event@
            == (EventView::TokenMetrics {
            total_usage,
            last_turn_usage,
            turn_count,
            duplicate_items,
            replay_updates,
        })),
        turn_count == 0 && total_is_zero ==> r is None,
{
}

/// The name of an event's kind says what the event is.
pub proof fn law_kinds_are_named(event: EventView)
    ensures
        event.kind() == "decision"@ <==> event is Decision,
        event.kind() == "thinking"@ <==> event is Thinking,
        event.kind() == "action"@ <==> event is Action,
        event.kind() == "user_reply"@ <==> event is UserReply,
        event.kind() == "token_metrics"@ <==> event is TokenMetrics,
        event.kind() == "compacted_history"@ <==> event is CompactedHistory,
        event.kind() == "stop_ack"@ <==> event is StopAck,
{
    reveal_strlit("decision");
    reveal_strlit("thinking");
    reveal_strlit("action");
    reveal_strlit("user_reply");
    reveal_strlit("token_metrics");
    reveal_strlit("compacted_history");
    reveal_strlit("stop_ack");
    assert("decision"@.len() == 8 && "decision"@[0] == 'd');
    assert("thinking"@.len() == 8 && "thinking"@[0] == 't');
    assert("stop_ack"@.len() == 8 && "stop_ack"@[0] == 's');
    assert("action"@.len() == 6);
    assert("user_reply"@.len() == 10);
    assert("token_metrics"@.len() == 13);
    assert("compacted_history"@.len() == 17);
}

} // verus!
