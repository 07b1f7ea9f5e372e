//! What a turn of the conversation is like.
use crate::json::Json;
use vstd::prelude::*;

verus! {

/// How demanding a turn is.
#[derive(Debug, Clone, Copy, PartialEq, Eq, Structural)]
pub enum TurnComplexity {
    Low,
    Medium,
    High,
}

/// The form that a model's text is asked to have.
#[derive(Debug, Clone)]
pub struct TextFormat {
    pub format_type: String,
    pub name: Option<String>,
    pub strict: Option<bool>,
    pub schema: Option<Json>,
}

/// The settings of a turn.
#[derive(Debug, Clone)]
pub struct TurnConfig {
    pub read_only: bool,
    pub complexity: Option<TurnComplexity>,
    pub text_format_override: Option<TextFormat>,
}

/// Who takes a turn, and to what end.
#[derive(Debug, Clone, Copy, PartialEq, Eq, Structural)]
pub enum TurnMode {
    Normal,
    SubAgentWrite,
    SubAgentReadOnly,
    Review,
}

impl Default for TurnMode {
    fn default() -> (r: Self)
        ensures
            r == TurnMode::Normal,
    {
        TurnMode::Normal
    }
}

/// What is wished of helper agents.
#[derive(Debug, Clone)]
pub struct AgentPreferences {
    pub prefer_research: bool,
    pub prefer_planning: bool,
    pub requested_models: Option<Vec<String>>,
}

impl Default for AgentPreferences {
    fn default() -> (r: Self)
        ensures
            !r.prefer_research,
            !r.prefer_planning,
            r.requested_models is None,
    {
        AgentPreferences { prefer_research: false, prefer_planning: false, requested_models: None }
    }
}

/// When a turn is reviewed.
#[derive(Debug, Clone, Copy, PartialEq, Eq, Structural)]
pub enum ReviewTiming {
    PostTurn,
    PreWrite,
    Immediate,
}

impl Default for ReviewTiming {
    fn default() -> (r: Self)
        ensures
            r == ReviewTiming::PostTurn,
    {
        ReviewTiming::PostTurn
    }
}

/// How a turn is reviewed.
#[derive(Debug, Clone)]
pub struct ReviewStrategy {
    pub timing: ReviewTiming,
    pub custom_prompt: Option<String>,
    pub scope_hint: Option<String>,
}

impl Default for ReviewStrategy {
    fn default() -> (r: Self)
        ensures
            r == (ReviewStrategy {
                timing: ReviewTiming::PostTurn,
                custom_prompt: None,
                scope_hint: None,
            }),
    {
        ReviewStrategy { timing: ReviewTiming::PostTurn, custom_prompt: None, scope_hint: None }
    }
}

/// What a turn is like.
#[derive(Debug, Clone)]
pub struct TurnDescriptor {
    pub mode: TurnMode,
    pub read_only: bool,
    pub complexity: Option<TurnComplexity>,
    pub agent_preferences: Option<AgentPreferences>,
    pub review_strategy: Option<ReviewStrategy>,
    pub text_format_override: Option<TextFormat>,
}

impl Default for TurnDescriptor {
    fn default() -> (r: Self)
        ensures
            r == (TurnDescriptor {
                mode: TurnMode::Normal,
                read_only: false,
                complexity: None,
                agent_preferences: None,
                review_strategy: None,
                text_format_override: None,
            }),
    {
        TurnDescriptor {
            mode: TurnMode::Normal,
            read_only: false,
            complexity: None,
            agent_preferences: None,
            review_strategy: None,
            text_format_override: None,
        }
    }
}

/// A turn is a normal one that may write, is reviewed afterwards and wishes nothing of helper agents,
/// unless it is said otherwise.
pub proof fn law_usual_turns(
    mode: TurnMode,
    wishes: AgentPreferences,
    timing: ReviewTiming,
    review: ReviewStrategy,
    turn: TurnDescriptor,
)
    requires
        call_ensures(TurnMode::default, (), mode),
        call_ensures(AgentPreferences::default, (), wishes),
        call_ensures(ReviewTiming::default, (), timing),
        call_ensures(ReviewStrategy::default, (), review),
        call_ensures(TurnDescriptor::default, (), turn),
    ensures
        mode is Normal,
        !wishes.prefer_research && !wishes.prefer_planning && wishes.requested_models is None,
        timing is PostTurn,
        review.timing == timing && review.custom_prompt is None && review.scope_hint is None,
        turn.mode == mode && !turn.read_only && turn.complexity is None,
        turn.agent_preferences is None && turn.review_strategy is None,
        turn.text_format_override is None,
{
}

} // verus!
