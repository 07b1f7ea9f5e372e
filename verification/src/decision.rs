//! The decisions that a model's reply holds.
use crate::clean::{
    clean, clean_str, law_plain_text_is_kept, law_what_leaves_nothing, plain, role_name,
};
use crate::errors::{Cause, ErrorChain};
use crate::events::{AutoCoordinatorStatus, AutoTurnAgentsTiming, CliView, TokenUsage};
use crate::items::{items_view, ItemView, ResponseItem};
use crate::text::{
    ascii_lower, blank, contains, from_chars, lemma_part_stands, lemma_stands_at, opt_text,
    opt_texts, same_ignoring_case, str_equal, to_lower_chars, trim, trim_str,
};
use vstd::prelude::*;
use vstd::string::*;

verus! {

/// The fewest characters that an instruction may have.
pub const CLI_PROMPT_MIN_CHARS: usize = 4;

/// The most characters that an instruction may have.
pub const CLI_PROMPT_MAX_CHARS: usize = 600;

/// A decision as the model writes it.
#[derive(Debug, Clone)]
pub struct CoordinatorDecisionNew {
    pub finish_status: String,
    pub input_required: bool,
    pub status_title: Option<String>,
    pub status_sent_to_user: Option<String>,
    pub progress: Option<ProgressPayload>,
    pub prompt_sent_to_cli: Option<String>,
    pub agents: Option<AgentsField>,
    pub goal: Option<String>,
}

/// What was done and what is being done.
#[derive(Debug, Clone)]
pub struct ProgressPayload {
    pub past: Option<String>,
    pub current: Option<String>,
}

/// A request for a helper agent, as the model writes it.
#[derive(Debug, Clone)]
pub struct AgentPayload {
    pub prompt: String,
    pub context: Option<String>,
    pub write: Option<bool>,
    pub models: Option<Vec<String>>,
}

/// Requests for helper agents: a bare list, or a list with settings for all.
#[derive(Debug, Clone)]
pub enum AgentsField {
    List(Vec<AgentPayload>),
    Object(AgentsPayload),
}

/// A list of requests for helper agents with settings for all.
#[derive(Debug, Clone)]
pub struct AgentsPayload {
    pub timing: Option<AgentsTimingValue>,
    /// The models of the requests that name none.
    pub models: Option<Vec<String>>,
    pub requests: Vec<AgentPayload>,
}

/// When helper agents run, as the model writes it.
#[derive(Debug, Clone, Copy)]
pub enum AgentsTimingValue {
    Parallel,
    Blocking,
}

impl From<AgentsTimingValue> for AutoTurnAgentsTiming {
    fn from(value: AgentsTimingValue) -> (r: Self) {
        match value {
            AgentsTimingValue::Parallel => AutoTurnAgentsTiming::Parallel,
            AgentsTimingValue::Blocking => AutoTurnAgentsTiming::Blocking,
        }
    }
}

impl vstd::std_specs::convert::FromSpecImpl<AgentsTimingValue> for AutoTurnAgentsTiming {
    open spec fn obeys_from_spec() -> bool {
        true
    }

    open spec fn from_spec(value: AgentsTimingValue) -> Self {
        timing_of(value)
    }
}

/// When helper agents run.
pub open spec fn timing_of(value: AgentsTimingValue) -> AutoTurnAgentsTiming {
    match value {
        AgentsTimingValue::Parallel => AutoTurnAgentsTiming::Parallel,
        AgentsTimingValue::Blocking => AutoTurnAgentsTiming::Blocking,
    }
}

/// A decision in the form that models wrote before.
#[derive(Debug, Clone)]
pub struct CoordinatorDecisionLegacy {
    pub finish_status: String,
    pub progress_past: Option<String>,
    pub progress_current: Option<String>,
    pub cli_context: Option<String>,
    pub cli_prompt: Option<String>,
    pub goal: Option<String>,
}

/// An instruction for the command line agent.
#[derive(Debug, Clone)]
pub struct CliAction {
    pub prompt: String,
    pub context: Option<String>,
    pub suppress_ui_context: bool,
}

/// A request for a helper agent.
#[derive(Debug, Clone)]
pub struct AgentAction {
    pub prompt: String,
    pub context: Option<String>,
    pub write: Option<bool>,
    pub models: Option<Vec<String>>,
}

/// A decision, checked and tidied.
#[derive(Debug, Clone)]
pub struct ParsedCoordinatorDecision {
    pub status: AutoCoordinatorStatus,
    pub input_required: bool,
    pub status_title: Option<String>,
    pub status_sent_to_user: Option<String>,
    pub cli: Option<CliAction>,
    pub agents_timing: Option<AutoTurnAgentsTiming>,
    pub agents: Vec<AgentAction>,
    pub goal: Option<String>,
    pub response_items: Vec<ResponseItem>,
    pub token_usage: Option<TokenUsage>,
    pub model_slug: String,
}

/// What a request for a helper agent says.
pub struct AgentView {
    pub prompt: Seq<char>,
    pub context: Option<Seq<char>>,
    pub write: Option<bool>,
    pub models: Option<Seq<Seq<char>>>,
}

/// What a decision says.
pub struct DecisionView {
    pub status: AutoCoordinatorStatus,
    pub input_required: bool,
    pub status_title: Option<Seq<char>>,
    pub status_sent_to_user: Option<Seq<char>>,
    pub cli: Option<CliView>,
    pub agents_timing: Option<AutoTurnAgentsTiming>,
    pub agents: Seq<AgentView>,
    pub goal: Option<Seq<char>>,
    pub response_items: Seq<ItemView>,
    pub token_usage: Option<TokenUsage>,
    pub model_slug: Seq<char>,
}

impl View for CliAction {
    type V = CliView;

    open spec fn view(&self) -> CliView {
        CliView {
            prompt: self.prompt@,
            context: opt_text(self.context),
            suppress_ui_context: self.suppress_ui_context,
        }
    }
}

impl View for AgentAction {
    type V = AgentView;

    open spec fn view(&self) -> AgentView {
        AgentView {
            prompt: self.prompt@,
            context: opt_text(self.context),
            write: self.write,
            models: opt_texts(self.models),
        }
    }
}

/// What an optional instruction says.
pub open spec fn opt_cli_action(o: Option<CliAction>) -> Option<CliView> {
    match o {
        Some(a) => Some(a@),
        None => None,
    }
}

/// What a list of requests says.
pub open spec fn agent_actions(v: Seq<AgentAction>) -> Seq<AgentView> {
    Seq::new(v.len(), |i: int| v[i]@)
}

impl View for ParsedCoordinatorDecision {
    type V = DecisionView;

    open spec fn view(&self) -> DecisionView {
        DecisionView {
            status: self.status,
            input_required: self.input_required,
            status_title: opt_text(self.status_title),
            status_sent_to_user: opt_text(self.status_sent_to_user),
            cli: opt_cli_action(self.cli),
            agents_timing: self.agents_timing,
            agents: agent_actions(self.agents@),
            goal: opt_text(self.goal),
            response_items: items_view(self.response_items@),
            token_usage: self.token_usage,
            model_slug: self.model_slug@,
        }
    }
}

/// What is wrong with a reply, or with the request for it.
#[derive(Debug, Clone)]
pub enum DecisionError {
    /// A field holds no text.
    EmptyField { field: String },
    /// The status is none of those that are known.
    UnexpectedStatus { value: String },
    /// The instruction has too few characters.
    PromptTooShort,
    /// The instruction has too many characters.
    PromptTooLong,
    /// There is no instruction, though the mission continues.
    MissingPrompt,
    /// There is no instruction in a reply of the earlier form, though the mission continues.
    MissingLegacyPrompt,
    /// The reply holds no JSON.
    NotJson,
    /// What looked like JSON in the reply is none.
    BadJson { cause: String },
    /// The JSON is of neither form.
    Undecodable { new_err: String, legacy_err: String, snippet: String },
    /// There was no reply.
    NoOutput,
    /// The answer to a user is not of its form.
    UserTurn { text: String },
    /// The request failed.
    Request(ErrorChain),
}

/// What an error says.
pub enum DecisionErrorView {
    EmptyField { field: Seq<char> },
    UnexpectedStatus { value: Seq<char> },
    PromptTooShort,
    PromptTooLong,
    MissingPrompt,
    MissingLegacyPrompt,
    NotJson,
    BadJson { cause: Seq<char> },
    Undecodable { new_err: Seq<char>, legacy_err: Seq<char>, snippet: Seq<char> },
    NoOutput,
    UserTurn { text: Seq<char> },
    Request { text: Seq<char>, causes: Seq<Cause>, cancelled: bool },
}

impl View for DecisionError {
    type V = DecisionErrorView;

    open spec fn view(&self) -> DecisionErrorView {
        match *self {
            DecisionError::EmptyField { field } => DecisionErrorView::EmptyField { field: field@ },
            DecisionError::UnexpectedStatus { value } => DecisionErrorView::UnexpectedStatus {
                value: value@,
            },
            DecisionError::PromptTooShort => DecisionErrorView::PromptTooShort,
            DecisionError::PromptTooLong => DecisionErrorView::PromptTooLong,
            DecisionError::MissingPrompt => DecisionErrorView::MissingPrompt,
            DecisionError::MissingLegacyPrompt => DecisionErrorView::MissingLegacyPrompt,
            DecisionError::NotJson => DecisionErrorView::NotJson,
            DecisionError::BadJson { cause } => DecisionErrorView::BadJson { cause: cause@ },
            DecisionError::Undecodable { new_err, legacy_err, snippet } => DecisionErrorView::Undecodable {
                new_err: new_err@,
                legacy_err: legacy_err@,
                snippet: snippet@,
            },
            DecisionError::NoOutput => DecisionErrorView::NoOutput,
            DecisionError::UserTurn { text } => DecisionErrorView::UserTurn { text: text@ },
            DecisionError::Request(chain) => DecisionErrorView::Request {
                text: chain.text@,
                causes: chain.causes@,
                cancelled: chain.cancelled,
            },
        }
    }
}

impl DecisionErrorView {
    /// The error in words.
    pub open spec fn text(self) -> Seq<char> {
        match self {
            DecisionErrorView::EmptyField { field } => field + " is empty"@,
            DecisionErrorView::UnexpectedStatus { value } => "unexpected finish_status '"@ + value
                + "'"@,
            DecisionErrorView::PromptTooShort =>
                "prompt_sent_to_cli must be at least 4 characters; keep it concise but not empty"@,
            DecisionErrorView::PromptTooLong =>
                "prompt_sent_to_cli exceeds 600 characters; keep prompts succinct (<=600 chars) and let the CLI decide how to execute the task"@,
            DecisionErrorView::MissingPrompt =>
                "model response missing prompt_sent_to_cli for continue"@,
            DecisionErrorView::MissingLegacyPrompt =>
                "legacy model response missing cli_prompt for continue"@,
            DecisionErrorView::NotJson => "model response was not valid JSON"@,
            DecisionErrorView::BadJson { .. } => "parsing JSON from model output"@,
            DecisionErrorView::Undecodable { new_err, legacy_err, snippet } =>
                "decoding coordinator decision failed: new_schema_err="@ + new_err + "; legacy_err="@
                    + legacy_err + "; payload_snippet="@ + snippet,
            DecisionErrorView::NoOutput =>
                "coordinator stream ended without producing output (possible transient error)"@,
            DecisionErrorView::UserTurn { text } => text,
            DecisionErrorView::Request { text, .. } => text,
        }
    }
}

impl DecisionError {
    /// The error in words.
    pub fn to_text(&self) -> (r: String)
        ensures
            r@ == self@.text(),
    {
        match self {
            DecisionError::EmptyField { field } => {
                let mut text = field.clone();
                text.append(" is empty");
                text
            },
            DecisionError::UnexpectedStatus { value } => {
                let mut text = "unexpected finish_status '".to_owned();
                text.append(value.as_str());
                text.append("'");
                text
            },
            DecisionError::PromptTooShort =>
                "prompt_sent_to_cli must be at least 4 characters; keep it concise but not empty".to_owned(),
            DecisionError::PromptTooLong =>
                "prompt_sent_to_cli exceeds 600 characters; keep prompts succinct (<=600 chars) and let the CLI decide how to execute the task".to_owned(),
            DecisionError::MissingPrompt =>
                "model response missing prompt_sent_to_cli for continue".to_owned(),
            DecisionError::MissingLegacyPrompt =>
                "legacy model response missing cli_prompt for continue".to_owned(),
            DecisionError::NotJson => "model response was not valid JSON".to_owned(),
            DecisionError::BadJson { .. } => "parsing JSON from model output".to_owned(),
            DecisionError::Undecodable { new_err, legacy_err, snippet } => {
                let mut text = "decoding coordinator decision failed: new_schema_err=".to_owned();
                text.append(new_err.as_str());
                text.append("; legacy_err=");
                text.append(legacy_err.as_str());
                text.append("; payload_snippet=");
                text.append(snippet.as_str());
                text
            },
            DecisionError::NoOutput =>
                "coordinator stream ended without producing output (possible transient error)".to_owned(),
            DecisionError::UserTurn { text } => text.clone(),
            DecisionError::Request(chain) => chain.text.clone(),
        }
    }
}

/// A failed attempt to get a decision.
#[derive(Debug, Clone)]
pub struct DecisionFailure {
    pub error: DecisionError,
    /// The form that the reply should have had.
    pub schema_label: &'static str,
    /// The reply, if there was one.
    pub output_text: Option<String>,
}

impl DecisionFailure {
    /// A failure with its error, the form asked for, and the reply.
    pub fn new(error: DecisionError, schema_label: &'static str, output_text: Option<String>) -> (r:
        Self)
        ensures
            r.error == error,
            r.schema_label == schema_label,
            r.output_text == output_text,
    {
        DecisionFailure { error, schema_label, output_text }
    }
}

/// What a result of texts says.
pub open spec fn text_result(r: Result<String, DecisionError>) -> Result<
    Seq<char>,
    DecisionErrorView,
> {
    match r {
        Ok(s) => Ok(s@),
        Err(e) => Err(e@),
    }
}

/// A field's text, cleaned; an error where no text is left.
pub open spec fn required(value: Seq<char>, field: Seq<char>) -> Result<Seq<char>, DecisionErrorView> {
    match clean(value) {
        Some(t) => Ok(t),
        None => Err(DecisionErrorView::EmptyField { field }),
    }
}

/// Cleans a field's text; an error where no text is left.
pub fn clean_required(value: &str, field: &str) -> (r: Result<String, DecisionError>)
    ensures
        text_result(r) == required(value@, field@),
{
    match clean_str(value) {
        Some(text) => Ok(text),
        None => Err(DecisionError::EmptyField { field: field.to_owned() }),
    }
}

/// The status that a word names, in capitals or small letters and with white space around it.
pub open spec fn status_named(word: Seq<char>) -> Option<AutoCoordinatorStatus> {
    let normal = ascii_lower(trim(word));
    if normal == "continue"@ {
        Some(AutoCoordinatorStatus::Continue)
    } else if normal == "finish_success"@ {
        Some(AutoCoordinatorStatus::Success)
    } else if normal == "finish_failed"@ {
        Some(AutoCoordinatorStatus::Failed)
    } else {
        None
    }
}

/// Reads the status that a word names.
pub fn parse_finish_status(finish_status: &str) -> (r: Result<AutoCoordinatorStatus, DecisionError>)
    ensures
        match r {
            Ok(status) => status_named(finish_status@) == Some(status),
            Err(e) => status_named(finish_status@) is None && e@
                == (DecisionErrorView::UnexpectedStatus { value: ascii_lower(trim(finish_status@)) }),
        },
{
    let normalized = from_chars(&to_lower_chars(trim_str(finish_status)));
    if str_equal(normalized.as_str(), "continue") {
        Ok(AutoCoordinatorStatus::Continue)
    } else if str_equal(normalized.as_str(), "finish_success") {
        Ok(AutoCoordinatorStatus::Success)
    } else if str_equal(normalized.as_str(), "finish_failed") {
        Ok(AutoCoordinatorStatus::Failed)
    } else {
        Err(DecisionError::UnexpectedStatus { value: normalized })
    }
}

/// What is wrong with the length of an instruction, if anything is.
pub open spec fn length_fault(len: int) -> Option<DecisionErrorView> {
    if len < CLI_PROMPT_MIN_CHARS {
        Some(DecisionErrorView::PromptTooShort)
    } else if len > CLI_PROMPT_MAX_CHARS {
        Some(DecisionErrorView::PromptTooLong)
    } else {
        None
    }
}

/// Checks the length of an instruction.
pub fn ensure_cli_prompt_length(prompt: &str) -> (r: Result<(), DecisionError>)
    ensures
        match r {
            Ok(_) => length_fault(prompt@.len() as int) is None,
            Err(e) => length_fault(prompt@.len() as int) == Some(e@),
        },
{
    let len: usize = prompt.unicode_len();
    if len < CLI_PROMPT_MIN_CHARS {
        return Err(DecisionError::PromptTooShort);
    }
    if len > CLI_PROMPT_MAX_CHARS {
        return Err(DecisionError::PromptTooLong);
    }
    Ok(())
}

/// The status that a word names, in capitals or small letters and with white space around it, is
/// the one whose word it is, and no other word names one.
pub proof fn law_words_name_statuses(word: Seq<char>)
    ensures
        status_named(word) == Some(AutoCoordinatorStatus::Continue) <==> same_ignoring_case(
            trim(word),
            "continue"@,
        ),
        status_named(word) == Some(AutoCoordinatorStatus::Success) <==> same_ignoring_case(
            trim(word),
            "finish_success"@,
        ),
        status_named(word) == Some(AutoCoordinatorStatus::Failed) <==> same_ignoring_case(
            trim(word),
            "finish_failed"@,
        ),
        status_named(word) is None <==> !same_ignoring_case(trim(word), "continue"@)
            && !same_ignoring_case(trim(word), "finish_success"@) && !same_ignoring_case(
            trim(word),
            "finish_failed"@,
        ),
{
    reveal_strlit("continue");
    reveal_strlit("finish_success");
    reveal_strlit("finish_failed");
    assert(ascii_lower("continue"@) =~= "continue"@);
    assert(ascii_lower("finish_success"@) =~= "finish_success"@);
    assert(ascii_lower("finish_failed"@) =~= "finish_failed"@);
    assert("continue"@.len() == 8);
    assert("finish_success"@.len() == 14);
    assert("finish_failed"@.len() == 13);
}

/// An instruction of 4 to 600 characters is in order, a shorter one is too short and a longer one
/// too long.
pub proof fn law_lengths_of_instructions(len: int)
    ensures
        length_fault(len) is None <==> 4 <= len <= 600,
        len < 4 <==> (length_fault(len) matches Some(fault) && fault is PromptTooShort),
        len > 600 <==> (length_fault(len) matches Some(fault) && fault is PromptTooLong),
{
}

/// Helper agents run when the reply says that they do.
pub proof fn law_timing_is_kept(value: AgentsTimingValue)
    ensures
        timing_of(value) is Blocking <==> value is Blocking,
        timing_of(value) is Parallel <==> value is Parallel,
{
}

/// A field must say something: what it says is taken as it is left by cleaning, and where nothing
/// is left the error names the field.
pub proof fn law_required_fields_say_something(value: Seq<char>, field: Seq<char>)
    ensures
        plain(value) ==> required(value, field) == Ok::<_, DecisionErrorView>(value),
        required(value, field) is Ok <==> !blank(value) && !role_name(trim(value)),
        required(value, field) matches Err(e) ==> e == (DecisionErrorView::EmptyField { field }),
        required(value, field) matches Ok(t) ==> Some(t) == clean(value),
{
    law_what_leaves_nothing(value);
    if plain(value) {
        law_plain_text_is_kept(Seq::empty(), value, Seq::empty());
    }
}

/// The words of an error hold all that is known of what went wrong: the field, the status, the two
/// faults and the quotation, or the words of the error that it stands for.
pub proof fn law_errors_tell_what_is_wrong(error: DecisionErrorView)
    ensures
        match error {
            DecisionErrorView::EmptyField { field } => field.is_prefix_of(error.text()),
            DecisionErrorView::UnexpectedStatus { value } => contains(error.text(), value),
            DecisionErrorView::Undecodable { new_err, legacy_err, snippet } => contains(
                error.text(),
                new_err,
            ) && contains(error.text(), legacy_err) && contains(error.text(), snippet),
            DecisionErrorView::UserTurn { text } => error.text() == text,
            DecisionErrorView::Request { text, .. } => error.text() == text,
            DecisionErrorView::PromptTooShort => contains(error.text(), "prompt_sent_to_cli"@)
                && contains(error.text(), "at least 4 characters"@),
            DecisionErrorView::PromptTooLong => contains(error.text(), "prompt_sent_to_cli"@)
                && contains(error.text(), "exceeds 600 characters"@),
            DecisionErrorView::MissingPrompt => contains(
                error.text(),
                "missing prompt_sent_to_cli"@,
            ),
            DecisionErrorView::MissingLegacyPrompt => contains(error.text(), "missing cli_prompt"@),
            DecisionErrorView::NotJson => contains(error.text(), "not valid JSON"@),
            DecisionErrorView::BadJson { .. } => contains(error.text(), "parsing JSON"@),
            DecisionErrorView::NoOutput => contains(error.text(), "without producing output"@),
        },
{
    let text = error.text();
    match error {
        DecisionErrorView::UnexpectedStatus { value } => {
            lemma_part_stands("unexpected finish_status '"@, value, "'"@);
        },
        DecisionErrorView::Undecodable { new_err, legacy_err, snippet } => {
            let a = "decoding coordinator decision failed: new_schema_err="@;
            let b = "; legacy_err="@;
            let c = "; payload_snippet="@;
            lemma_part_stands(a, new_err, b + legacy_err + c + snippet);
            assert(text =~= a + new_err + (b + legacy_err + c + snippet));
            lemma_part_stands(a + new_err + b, legacy_err, c + snippet);
            assert(text =~= a + new_err + b + legacy_err + (c + snippet));
            lemma_part_stands(a + new_err + b + legacy_err + c, snippet, Seq::empty());
            assert(text =~= a + new_err + b + legacy_err + c + snippet + Seq::<char>::empty());
        },
        DecisionErrorView::PromptTooShort => {
            reveal_strlit(
                "prompt_sent_to_cli must be at least 4 characters; keep it concise but not empty",
            );
            reveal_strlit("prompt_sent_to_cli");
            reveal_strlit("at least 4 characters");
            lemma_stands_at(text, "prompt_sent_to_cli"@, 0);
            lemma_stands_at(text, "at least 4 characters"@, 27);
        },
        DecisionErrorView::PromptTooLong => {
            reveal_strlit(
                "prompt_sent_to_cli exceeds 600 characters; keep prompts succinct (<=600 chars) and let the CLI decide how to execute the task",
            );
            reveal_strlit("prompt_sent_to_cli");
            reveal_strlit("exceeds 600 characters");
            lemma_stands_at(text, "prompt_sent_to_cli"@, 0);
            lemma_stands_at(text, "exceeds 600 characters"@, 19);
        },
        DecisionErrorView::MissingPrompt => {
            reveal_strlit("model response missing prompt_sent_to_cli for continue");
            reveal_strlit("missing prompt_sent_to_cli");
            lemma_stands_at(text, "missing prompt_sent_to_cli"@, 15);
        },
        DecisionErrorView::MissingLegacyPrompt => {
            reveal_strlit("legacy model response missing cli_prompt for continue");
            reveal_strlit("missing cli_prompt");
            lemma_stands_at(text, "missing cli_prompt"@, 22);
        },
        DecisionErrorView::NotJson => {
            reveal_strlit("model response was not valid JSON");
            reveal_strlit("not valid JSON");
            lemma_stands_at(text, "not valid JSON"@, 19);
        },
        DecisionErrorView::BadJson { .. } => {
            reveal_strlit("parsing JSON from model output");
            reveal_strlit("parsing JSON");
            lemma_stands_at(text, "parsing JSON"@, 0);
        },
        DecisionErrorView::NoOutput => {
            reveal_strlit(
                "coordinator stream ended without producing output (possible transient error)",
            );
            reveal_strlit("without producing output");
            lemma_stands_at(text, "without producing output"@, 25);
        },
        _ => {},
    }
}

/// What is seen of a decision is all that it says.
pub proof fn law_decisions_are_seen_whole(d: ParsedCoordinatorDecision, i: int)
    ensures
        d@.status == d.status,
        d@.input_required == d.input_required,
        d@.status_title == opt_text(d.status_title),
        d@.status_sent_to_user == opt_text(d.status_sent_to_user),
        d@.goal == opt_text(d.goal),
        d@.agents_timing == d.agents_timing,
        d@.token_usage == d.token_usage,
        d@.model_slug == d.model_slug@,
        d@.response_items == items_view(d.response_items@),
        d@.cli is Some <==> d.cli is Some,
        d.cli matches Some(cli) ==> {
            &&& d@.cli.unwrap().prompt == cli.prompt@
            &&& d@.cli.unwrap().context == opt_text(cli.context)
            &&& d@.cli.unwrap().suppress_ui_context == cli.suppress_ui_context
        },
        d@.agents.len() == d.agents@.len(),
        0 <= i < d.agents@.len() ==> {
            &&& d@.agents[i].prompt == d.agents@[i].prompt@
            &&& d@.agents[i].context == opt_text(d.agents@[i].context)
            &&& d@.agents[i].write == d.agents@[i].write
            &&& d@.agents[i].models == opt_texts(d.agents@[i].models)
        },
{
}

/// A status that is none of those that are known is reported as it was written, trimmed and in small
/// letters.
pub proof fn law_unknown_statuses_are_reported(
    word: &str,
    r: Result<AutoCoordinatorStatus, DecisionError>,
)
    requires
        call_ensures(parse_finish_status, (word,), r),
    ensures
        same_ignoring_case(trim(word@), "continue"@) ==> r == Ok::<_, DecisionError>(
            AutoCoordinatorStatus::Continue,
        ),
        same_ignoring_case(trim(word@), "finish_success"@) ==> r == Ok::<_, DecisionError>(
            AutoCoordinatorStatus::Success,
        ),
        same_ignoring_case(trim(word@), "finish_failed"@) ==> r == Ok::<_, DecisionError>(
            AutoCoordinatorStatus::Failed,
        ),
        r matches Err(e) ==> (e@ matches DecisionErrorView::UnexpectedStatus { value }
            && same_ignoring_case(value, trim(word@))),
{
    law_words_name_statuses(word@);
    assert(ascii_lower(ascii_lower(trim(word@))) =~= ascii_lower(trim(word@)));
}

/// Instructions of 4 to 600 characters pass, and no others.
pub proof fn law_which_instructions_pass(prompt: &str, r: Result<(), DecisionError>)
    requires
        call_ensures(ensure_cli_prompt_length, (prompt,), r),
    ensures
        r is Ok <==> 4 <= prompt@.len() <= 600,
        prompt@.len() < 4 ==> (r matches Err(e) && e@ is PromptTooShort),
        prompt@.len() > 600 ==> (r matches Err(e) && e@ is PromptTooLong),
{
}

} // verus!
