//! From what a model wrote to a decision.
use crate::clean::{
    clean, clean_opt, clean_optional, law_clean_is_a_part, law_clean_is_trimmed,
    law_plain_text_is_kept, plain,
};
use crate::decision::{
    agent_actions, clean_required, ensure_cli_prompt_length, law_lengths_of_instructions,
    length_fault, opt_cli_action, required, timing_of, AgentAction, AgentPayload, AgentView,
    AgentsField, AgentsTimingValue, CliAction,
    CoordinatorDecisionLegacy, CoordinatorDecisionNew, DecisionError, DecisionErrorView,
    DecisionView, ParsedCoordinatorDecision, ProgressPayload, CLI_PROMPT_MAX_CHARS,
    CLI_PROMPT_MIN_CHARS,
};
use crate::events::{
    AutoCoordinatorStatus, AutoTurnAgentsAction, AutoTurnAgentsTiming, AutoTurnCliAction,
    CliView, TurnAgentView,
};
use crate::fallback::MODEL_SLUG;
use crate::items::{items_view, ItemView, ResponseItem};
use crate::models::{clean_models, clean_names};
use crate::text::{
    contains, copy_opt, copy_opt_strings, lemma_stands_at, occurs_at, opt_text, opt_texts, trimmed,
};
use vstd::prelude::*;
use vstd::string::*;

verus! {

/// What a result of decisions says.
pub open spec fn decision_result(r: Result<ParsedCoordinatorDecision, DecisionError>) -> Result<
    DecisionView,
    DecisionErrorView,
> {
    match r {
        Ok(d) => Ok(d@),
        Err(e) => Err(e@),
    }
}

/// The first of two optional values that is there.
pub open spec fn first_given<T>(first: Option<T>, second: Option<T>) -> Option<T> {
    match first {
        Some(x) => Some(x),
        None => second,
    }
}

/// The instruction of a reply, given the status and the text for it. Only while the mission
/// continues is there one, and then there must be.
pub open spec fn new_cli(status: AutoCoordinatorStatus, prompt: Option<Seq<char>>) -> Result<
    Option<CliView>,
    DecisionErrorView,
> {
    match (status, clean_opt(prompt)) {
        (AutoCoordinatorStatus::Continue, Some(text)) => match required(
            text,
            "prompt_sent_to_cli"@,
        ) {
            Ok(prompt) => match length_fault(prompt.len() as int) {
                Some(fault) => Err(fault),
                None => Ok(
                    Some(CliView { prompt, context: None, suppress_ui_context: false }),
                ),
            },
            Err(e) => Err(e),
        },
        (AutoCoordinatorStatus::Continue, None) => Err(DecisionErrorView::MissingPrompt),
        (_, _) => Ok(None),
    }
}

/// What a result of instructions says.
pub open spec fn cli_result(r: Result<Option<CliAction>, DecisionError>) -> Result<
    Option<CliView>,
    DecisionErrorView,
> {
    match r {
        Ok(o) => Ok(opt_cli_action(o)),
        Err(e) => Err(e@),
    }
}

/// Makes the instruction of a reply.
fn convert_cli(status: AutoCoordinatorStatus, prompt: Option<String>) -> (r: Result<
    Option<CliAction>,
    DecisionError,
>)
    ensures
        cli_result(r) == new_cli(status, opt_text(prompt)),
{
    match (status, clean_optional(prompt)) {
        (AutoCoordinatorStatus::Continue, Some(text)) => match clean_required(
            text.as_str(),
            "prompt_sent_to_cli",
        ) {
            Ok(prompt) => match ensure_cli_prompt_length(prompt.as_str()) {
                Ok(_) => Ok(Some(CliAction { prompt, context: None, suppress_ui_context: false })),
                Err(e) => Err(e),
            },
            Err(e) => Err(e),
        },
        (AutoCoordinatorStatus::Continue, None) => Err(DecisionError::MissingPrompt),
        (_, _) => Ok(None),
    }
}

/// A request for a helper agent, tidied; `batch` are the models of a request that names none.
pub open spec fn agent_of(payload: AgentPayload, batch: Option<Seq<Seq<char>>>) -> AgentView {
    AgentView {
        prompt: clean(payload.prompt@).unwrap(),
        context: clean_opt(opt_text(payload.context)),
        write: payload.write,
        models: first_given(clean_names(opt_texts(payload.models)), batch),
    }
}

/// Every request says what to do.
pub open spec fn prompts_given(payloads: Seq<AgentPayload>) -> bool {
    forall|i: int| 0 <= i < payloads.len() ==> clean((#[trigger] payloads[i]).prompt@) is Some
}

/// The requests for helper agents, tidied; an error that names the field where one of them does
/// not say what to do.
pub open spec fn agents_of(
    payloads: Seq<AgentPayload>,
    field: Seq<char>,
    batch: Option<Seq<Seq<char>>>,
) -> Result<Seq<AgentView>, DecisionErrorView> {
    if prompts_given(payloads) {
        Ok(Seq::new(payloads.len(), |i: int| agent_of(payloads[i], batch)))
    } else {
        Err(DecisionErrorView::EmptyField { field })
    }
}

/// What a result of requests says.
pub open spec fn agents_result(r: Result<Vec<AgentAction>, DecisionError>) -> Result<
    Seq<AgentView>,
    DecisionErrorView,
> {
    match r {
        Ok(v) => Ok(agent_actions(v@)),
        Err(e) => Err(e@),
    }
}

/// Tidies the requests for helper agents.
fn convert_agents(payloads: &Vec<AgentPayload>, field: &str, batch: &Option<Vec<String>>) -> (r:
    Result<Vec<AgentAction>, DecisionError>)
    ensures
        agents_result(r) == agents_of(payloads@, field@, opt_texts(*batch)),
{
    let mut actions: Vec<AgentAction> = Vec::new();
    let mut i: usize = 0;
    while i < payloads.len()
        invariant
            i <= payloads@.len(),
            actions@.len() == i,
            forall|j: int| 0 <= j < i ==> clean((#[trigger] payloads@[j]).prompt@) is Some,
            forall|j: int|
                0 <= j < i ==> (#[trigger] actions@[j])@ == agent_of(payloads@[j], opt_texts(*batch)),
        decreases payloads.len() - i,
    {
        let payload = &payloads[i];
        match clean_required(payload.prompt.as_str(), field) {
            Ok(prompt) => {
                let models = match clean_models(copy_opt_strings(&payload.models)) {
                    Some(models) => Some(models),
                    None => copy_opt_strings(batch),
                };
                actions.push(
                    AgentAction {
                        prompt,
                        context: clean_optional(copy_opt(&payload.context)),
                        write: payload.write,
                        models,
                    },
                );
            },
            Err(e) => {
                assert(clean(payloads@[i as int].prompt@) is None);
                return Err(e);
            },
        }
        i = i + 1;
    }
    assert(agent_actions(actions@) =~= Seq::new(
        payloads@.len(),
        |j: int| agent_of(payloads@[j], opt_texts(*batch)),
    ));
    Ok(actions)
}

/// When the helper agents of a reply run, if it says so.
pub open spec fn timing_asked(agents: Option<AgentsField>) -> Option<AutoTurnAgentsTiming> {
    match agents {
        Some(AgentsField::Object(plan)) => match plan.timing {
            Some(value) => Some(timing_of(value)),
            None => None,
        },
        _ => None,
    }
}

/// The helper agents that a reply asks for.
pub open spec fn agents_asked(agents: Option<AgentsField>) -> Result<
    Seq<AgentView>,
    DecisionErrorView,
> {
    match agents {
        Some(AgentsField::List(list)) => agents_of(list@, "agents[*].prompt"@, None),
        Some(AgentsField::Object(plan)) => agents_of(
            plan.requests@,
            "agents.requests[*].prompt"@,
            clean_names(opt_texts(plan.models)),
        ),
        None => Ok(Seq::empty()),
    }
}

/// What was done, according to a reply.
pub open spec fn progress_past(progress: Option<ProgressPayload>) -> Option<Seq<char>> {
    match progress {
        Some(p) => clean_opt(opt_text(p.past)),
        None => None,
    }
}

/// What is being done, according to a reply.
pub open spec fn progress_current(progress: Option<ProgressPayload>) -> Option<Seq<char>> {
    match progress {
        Some(p) => clean_opt(opt_text(p.current)),
        None => None,
    }
}

/// The decision that a reply holds.
pub open spec fn new_decision(d: CoordinatorDecisionNew, status: AutoCoordinatorStatus) -> Result<
    DecisionView,
    DecisionErrorView,
> {
    match new_cli(status, opt_text(d.prompt_sent_to_cli)) {
        Err(e) => Err(e),
        Ok(cli) => match agents_asked(d.agents) {
            Err(e) => Err(e),
            Ok(agents) => Ok(
                DecisionView {
                    status,
                    input_required: d.input_required,
                    status_title: first_given(
                        clean_opt(opt_text(d.status_title)),
                        progress_current(d.progress),
                    ),
                    status_sent_to_user: first_given(
                        clean_opt(opt_text(d.status_sent_to_user)),
                        progress_past(d.progress),
                    ),
                    cli,
                    agents_timing: timing_asked(d.agents),
                    agents,
                    goal: clean_opt(opt_text(d.goal)),
                    response_items: Seq::empty(),
                    token_usage: None,
                    model_slug: MODEL_SLUG@,
                },
            ),
        },
    }
}

/// Makes the decision that a reply holds.
pub fn convert_decision_new(decision: CoordinatorDecisionNew, status: AutoCoordinatorStatus) -> (r:
    Result<ParsedCoordinatorDecision, DecisionError>)
    ensures
        decision_result(r) == new_decision(decision, status),
{
    let mut status_title = clean_optional(decision.status_title);
    let mut status_sent_to_user = clean_optional(decision.status_sent_to_user);
    if let Some(progress) = decision.progress {
        let past = clean_optional(progress.past);
        let current = clean_optional(progress.current);
        if status_title.is_none() {
            status_title = current;
        }
        if status_sent_to_user.is_none() {
            status_sent_to_user = past;
        }
    }
    let goal = clean_optional(decision.goal);
    let cli = match convert_cli(status, decision.prompt_sent_to_cli) {
        Ok(cli) => cli,
        Err(e) => return Err(e),
    };
    let mut agents: Vec<AgentAction> = Vec::new();
    let mut agents_timing: Option<AutoTurnAgentsTiming> = None;
    assert(agent_actions(agents@) =~= Seq::empty());
    if let Some(field) = decision.agents {
        match field {
            AgentsField::List(list) => match convert_agents(&list, "agents[*].prompt", &None) {
                Ok(actions) => {
                    agents = actions;
                },
                Err(e) => return Err(e),
            },
            AgentsField::Object(plan) => {
                if let Some(value) = plan.timing {
                    agents_timing = Some(AutoTurnAgentsTiming::from(value));
                }
                let batch = clean_models(plan.models);
                match convert_agents(&plan.requests, "agents.requests[*].prompt", &batch) {
                    Ok(actions) => {
                        agents = actions;
                    },
                    Err(e) => return Err(e),
                }
            },
        }
    }
    let response_items: Vec<ResponseItem> = Vec::new();
    assert(items_view(response_items@) =~= Seq::<ItemView>::empty());
    Ok(
        ParsedCoordinatorDecision {
            status,
            input_required: decision.input_required,
            status_title,
            status_sent_to_user,
            cli,
            agents_timing,
            agents,
            goal,
            response_items,
            token_usage: None,
            model_slug: MODEL_SLUG.to_owned(),
        },
    )
}

/// The instruction of a reply of the earlier form, given the status and the texts for it.
pub open spec fn legacy_cli(
    status: AutoCoordinatorStatus,
    prompt: Option<Seq<char>>,
    context: Option<Seq<char>>,
) -> Result<Option<CliView>, DecisionErrorView> {
    match prompt {
        Some(text) => match required(text, "cli_prompt"@) {
            Ok(prompt) => Ok(
                Some(
                    CliView { prompt, context: clean_opt(context), suppress_ui_context: false },
                ),
            ),
            Err(e) => Err(e),
        },
        None => if status is Continue {
            Err(DecisionErrorView::MissingLegacyPrompt)
        } else {
            Ok(None)
        },
    }
}

/// The decision that a reply of the earlier form holds.
pub open spec fn legacy_decision(d: CoordinatorDecisionLegacy, status: AutoCoordinatorStatus) -> Result<
    DecisionView,
    DecisionErrorView,
> {
    match legacy_cli(status, opt_text(d.cli_prompt), opt_text(d.cli_context)) {
        Err(e) => Err(e),
        Ok(cli) => Ok(
            DecisionView {
                status,
                input_required: false,
                status_title: clean_opt(opt_text(d.progress_current)),
                status_sent_to_user: clean_opt(opt_text(d.progress_past)),
                cli,
                agents_timing: None,
                agents: Seq::empty(),
                goal: clean_opt(opt_text(d.goal)),
                response_items: Seq::empty(),
                token_usage: None,
                model_slug: MODEL_SLUG@,
            },
        ),
    }
}

/// Makes the decision that a reply of the earlier form holds.
pub fn convert_decision_legacy(
    decision: CoordinatorDecisionLegacy,
    status: AutoCoordinatorStatus,
) -> (r: Result<ParsedCoordinatorDecision, DecisionError>)
    ensures
        decision_result(r) == legacy_decision(decision, status),
{
    let status_title = clean_optional(decision.progress_current);
    let status_sent_to_user = clean_optional(decision.progress_past);
    let context = clean_optional(decision.cli_context);
    let goal = clean_optional(decision.goal);
    let cli = match decision.cli_prompt {
        Some(text) => match clean_required(text.as_str(), "cli_prompt") {
            Ok(prompt) => Some(CliAction { prompt, context, suppress_ui_context: false }),
            Err(e) => return Err(e),
        },
        None => match status {
            AutoCoordinatorStatus::Continue => return Err(DecisionError::MissingLegacyPrompt),
            _ => None,
        },
    };
    let agents: Vec<AgentAction> = Vec::new();
    let response_items: Vec<ResponseItem> = Vec::new();
    assert(agent_actions(agents@) =~= Seq::empty());
    assert(items_view(response_items@) =~= Seq::<ItemView>::empty());
    Ok(
        ParsedCoordinatorDecision {
            status,
            input_required: false,
            status_title,
            status_sent_to_user,
            cli,
            agents_timing: None,
            agents,
            goal,
            response_items,
            token_usage: None,
            model_slug: MODEL_SLUG.to_owned(),
        },
    )
}

/// An accepted reply says what to do next exactly while the mission continues, in no fewer than 4
/// and no more than 600 characters, without white space at its ends.
pub proof fn law_new_decision_instructs(d: CoordinatorDecisionNew, status: AutoCoordinatorStatus)
    ensures
        new_decision(d, status) matches Ok(decision) ==> {
            &&& decision.status == status
            &&& decision.cli is Some <==> status is Continue
            &&& decision.cli matches Some(cli) ==> CLI_PROMPT_MIN_CHARS <= cli.prompt.len()
                <= CLI_PROMPT_MAX_CHARS && trimmed(cli.prompt)
        },
{
    if let Some(text) = clean_opt(opt_text(d.prompt_sent_to_cli)) {
        law_clean_is_trimmed(text);
    }
}

/// No helper agent of an accepted reply is without something to do.
pub proof fn law_agents_have_prompts(d: CoordinatorDecisionNew, status: AutoCoordinatorStatus)
    ensures
        new_decision(d, status) matches Ok(decision) ==> forall|i: int|
            0 <= i < decision.agents.len() ==> (#[trigger] decision.agents[i]).prompt.len() > 0
                && trimmed(decision.agents[i].prompt),
{
    if let Ok(decision) = new_decision(d, status) {
        assert forall|i: int| 0 <= i < decision.agents.len() implies (
        #[trigger] decision.agents[i]).prompt.len() > 0 && trimmed(decision.agents[i].prompt) by {
            match d.agents {
                Some(AgentsField::List(list)) => {
                    assert(clean(list@[i].prompt@) is Some);
                    law_clean_is_trimmed(list@[i].prompt@);
                },
                Some(AgentsField::Object(plan)) => {
                    assert(clean(plan.requests@[i].prompt@) is Some);
                    law_clean_is_trimmed(plan.requests@[i].prompt@);
                },
                None => {},
            }
        }
    }
}

/// A reply of the earlier form instructs while the mission continues, and asks for no helpers.
pub proof fn law_legacy_decision_instructs(
    d: CoordinatorDecisionLegacy,
    status: AutoCoordinatorStatus,
)
    ensures
        legacy_decision(d, status) matches Ok(decision) ==> {
            &&& decision.status == status
            &&& status is Continue ==> decision.cli is Some
            &&& decision.agents.len() == 0
            &&& !decision.input_required
        },
{
}

/// The instruction that a decision announces.
pub fn cli_action_to_event(action: &CliAction) -> (r: AutoTurnCliAction)
    ensures
        r@ == action@,
{
    AutoTurnCliAction {
        prompt: action.prompt.clone(),
        context: copy_opt(&action.context),
        suppress_ui_context: action.suppress_ui_context,
    }
}

/// The launch that a request asks for: it may write only where the request says so.
pub open spec fn launch(action: AgentView) -> TurnAgentView {
    TurnAgentView {
        prompt: action.prompt,
        context: action.context,
        write: action.write == Some(true),
        write_requested: action.write,
        models: action.models,
    }
}

/// The launch that a request asks for.
pub fn agent_action_to_event(action: &AgentAction) -> (r: AutoTurnAgentsAction)
    ensures
        r@ == launch(action@),
{
    AutoTurnAgentsAction {
        prompt: action.prompt.clone(),
        context: copy_opt(&action.context),
        write: match action.write {
            Some(write) => write,
            None => false,
        },
        write_requested: action.write,
        models: copy_opt_strings(&action.models),
    }
}

/// The launch that a request asks for, without leave to write where none may be given.
pub open spec fn guarded_launch(action: AgentView, allow_write: bool) -> TurnAgentView {
    TurnAgentView { write: launch(action).write && allow_write, ..launch(action) }
}

/// The launch that a request asks for, without leave to write where none may be given.
pub fn agent_action_to_event_with_write_guard(action: &AgentAction, allow_write: bool) -> (r:
    AutoTurnAgentsAction)
    ensures
        r@ == guarded_launch(action@, allow_write),
{
    let mut event = agent_action_to_event(action);
    if !allow_write && event.write {
        event.write = false;
    }
    event
}

/// Where none may write, no launch may, whatever was asked for; what was asked for is kept on
/// record.
pub proof fn law_write_guard(action: AgentView, allow_write: bool)
    ensures
        !allow_write ==> !guarded_launch(action, allow_write).write,
        guarded_launch(action, allow_write).write ==> action.write == Some(true),
        guarded_launch(action, allow_write).write_requested == action.write,
        guarded_launch(action, true) == launch(action),
{
}

/// The requests for helper agents that a reply makes.
pub open spec fn requests_of(agents: Option<AgentsField>) -> Seq<AgentPayload> {
    match agents {
        Some(AgentsField::List(list)) => list@,
        Some(AgentsField::Object(plan)) => plan.requests@,
        None => Seq::empty(),
    }
}

/// A reply is accepted exactly where every request for a helper agent says what to do and, while
/// the mission continues, so does the reply itself, in 4 to 600 characters. What is wrong is said
/// otherwise: of the instruction first, then of the helper agents.
pub proof fn law_which_replies_are_accepted(
    d: CoordinatorDecisionNew,
    status: AutoCoordinatorStatus,
)
    ensures
        ({
            let requests = requests_of(d.agents);
            let asked = forall|i: int|
                0 <= i < requests.len() ==> clean((#[trigger] requests[i]).prompt@) is Some;
            let said = match clean_opt(opt_text(d.prompt_sent_to_cli)) {
                Some(text) => clean(text),
                None => None,
            };
            let told = status is Continue ==> (said matches Some(text) && 4 <= text.len() <= 600);
            &&& new_decision(d, status) is Ok <==> told && asked
            &&& new_decision(d, status) matches Err(e) ==> {
                &&& e is EmptyField && told ==> !asked
                &&& e is PromptTooLong ==> status is Continue && (said matches Some(text)
                    && text.len() > 600)
                &&& e is PromptTooShort ==> status is Continue && (said matches Some(text)
                    && text.len() < 4)
                &&& e is MissingPrompt ==> status is Continue && clean_opt(
                    opt_text(d.prompt_sent_to_cli),
                ) is None
                &&& !told ==> e is PromptTooLong || e is PromptTooShort || e is MissingPrompt
                    || e is EmptyField
                &&& told ==> e is EmptyField
            }
        }),
{
    if let Some(text) = clean_opt(opt_text(d.prompt_sent_to_cli)) {
        law_lengths_of_instructions(
            match clean(text) {
                Some(t) => t.len() as int,
                None => 0,
            },
        );
    }
}

/// The instruction of an accepted reply is the text that the reply has for it: a plain one is
/// handed on word for word, without background.
pub proof fn law_instructions_are_handed_on(
    d: CoordinatorDecisionNew,
    status: AutoCoordinatorStatus,
    text: Seq<char>,
)
    requires
        opt_text(d.prompt_sent_to_cli) == Some(text),
    ensures
        new_decision(d, status) matches Ok(decision) ==> (decision.cli matches Some(cli) ==> {
            &&& cli.context is None
            &&& !cli.suppress_ui_context
            &&& plain(text) ==> cli.prompt == text
            &&& contains(text, cli.prompt)
        }),
{
    if plain(text) {
        law_plain_text_is_kept(Seq::empty(), text, Seq::empty());
    }
    if let Some(once) = clean(text) {
        law_clean_is_a_part(text);
        law_clean_is_a_part(once);
        if let Some(twice) = clean(once) {
            lemma_part_of_part(text, once, twice);
        }
    }
}

/// A part of a part stands in the whole.
proof fn lemma_part_of_part(s: Seq<char>, part: Seq<char>, piece: Seq<char>)
    requires
        contains(s, part),
        contains(part, piece),
    ensures
        contains(s, piece),
{
    let i = choose|i: int| occurs_at(s, part, i);
    let j = choose|j: int| occurs_at(part, piece, j);
    assert forall|k: int| 0 <= k < piece.len() implies s[i + j + k] == #[trigger] piece[k] by {
        assert(part.subrange(j, j + piece.len())[k] == part[j + k]);
        assert(s.subrange(i, i + part.len())[j + k] == s[i + j + k]);
    }
    lemma_stands_at(s, piece, i + j);
}

/// An accepted reply says of the mission what it was written to say: whether the user is waited
/// for, the goal, the headline and the message, each cleaned, and where the last two are missing
/// what is being done and what was done take their place.
pub proof fn law_replies_are_taken_at_their_word(
    d: CoordinatorDecisionNew,
    status: AutoCoordinatorStatus,
)
    ensures
        new_decision(d, status) matches Ok(decision) ==> {
            &&& decision.status == status
            &&& decision.input_required == d.input_required
            &&& decision.goal == clean_opt(opt_text(d.goal))
            &&& clean_opt(opt_text(d.status_title)) is Some ==> decision.status_title == clean_opt(
                opt_text(d.status_title),
            )
            &&& clean_opt(opt_text(d.status_sent_to_user)) is Some ==> decision.status_sent_to_user
                == clean_opt(opt_text(d.status_sent_to_user))
            &&& clean_opt(opt_text(d.status_title)) is None ==> decision.status_title
                == match d.progress {
                Some(p) => clean_opt(opt_text(p.current)),
                None => None,
            }
            &&& clean_opt(opt_text(d.status_sent_to_user)) is None ==> decision.status_sent_to_user
                == match d.progress {
                Some(p) => clean_opt(opt_text(p.past)),
                None => None,
            }
            &&& decision.response_items.len() == 0
            &&& decision.token_usage is None
            &&& decision.model_slug == MODEL_SLUG@
        },
{
}

/// Each request for a helper agent of an accepted reply becomes a helper agent, in the same place:
/// with its task and its background, cleaned, with the leave to write that it asks for, and with
/// the models that it names, or else those that the reply names for all.
pub proof fn law_requests_are_taken_at_their_word(
    d: CoordinatorDecisionNew,
    status: AutoCoordinatorStatus,
    i: int,
)
    requires
        0 <= i < requests_of(d.agents).len(),
    ensures
        new_decision(d, status) matches Ok(decision) ==> {
            let request = requests_of(d.agents)[i];
            let agent = decision.agents[i];
            let named = clean_names(opt_texts(request.models));
            &&& decision.agents.len() == requests_of(d.agents).len()
            &&& Some(agent.prompt) == clean(request.prompt@)
            &&& agent.context == clean_opt(opt_text(request.context))
            &&& agent.write == request.write
            &&& named is Some ==> agent.models == named
            &&& named is None ==> agent.models == match d.agents {
                Some(AgentsField::Object(plan)) => clean_names(opt_texts(plan.models)),
                _ => None,
            }
        },
{
    if new_decision(d, status) is Ok {
        let requests = requests_of(d.agents);
        assert(clean(requests[i].prompt@) is Some);
    }
}

/// A plain text is handed on word for word: the task and the background of a helper agent, the
/// goal, the headline and the message.
pub proof fn law_plain_texts_are_handed_on(
    d: CoordinatorDecisionNew,
    status: AutoCoordinatorStatus,
    i: int,
    text: Seq<char>,
)
    requires
        plain(text),
    ensures
        new_decision(d, status) matches Ok(decision) ==> {
            &&& opt_text(d.goal) == Some(text) ==> decision.goal == Some(text)
            &&& opt_text(d.status_title) == Some(text) ==> decision.status_title == Some(text)
            &&& opt_text(d.status_sent_to_user) == Some(text) ==> decision.status_sent_to_user == Some(
                text,
            )
            &&& 0 <= i < requests_of(d.agents).len() ==> {
                let request = requests_of(d.agents)[i];
                &&& request.prompt@ == text ==> decision.agents[i].prompt == text
                &&& opt_text(request.context) == Some(text) ==> decision.agents[i].context == Some(
                    text,
                )
                &&& request.context is None ==> decision.agents[i].context is None
            }
        },
{
    law_plain_text_is_kept(Seq::empty(), text, Seq::empty());
    if 0 <= i < requests_of(d.agents).len() {
        law_requests_are_taken_at_their_word(d, status, i);
    }
}

/// Helper agents run when the reply says, and only a reply that says so fixes it.
pub proof fn law_timing_is_taken_at_its_word(
    d: CoordinatorDecisionNew,
    status: AutoCoordinatorStatus,
)
    ensures
        new_decision(d, status) matches Ok(decision) ==> match d.agents {
            Some(AgentsField::Object(plan)) => match plan.timing {
                Some(AgentsTimingValue::Parallel) => decision.agents_timing == Some(
                    AutoTurnAgentsTiming::Parallel,
                ),
                Some(AgentsTimingValue::Blocking) => decision.agents_timing == Some(
                    AutoTurnAgentsTiming::Blocking,
                ),
                None => decision.agents_timing is None,
            },
            _ => decision.agents_timing is None,
        },
        d.agents is None ==> (new_decision(d, status) matches Ok(decision) ==> decision.agents.len()
            == 0),
{
}

/// A reply of the earlier form is accepted exactly where its instruction says something, or there
/// is none and the mission does not continue.
pub proof fn law_which_legacy_replies_are_accepted(
    d: CoordinatorDecisionLegacy,
    status: AutoCoordinatorStatus,
)
    ensures
        legacy_decision(d, status) is Ok <==> match d.cli_prompt {
            Some(text) => clean(text@) is Some,
            None => !(status is Continue),
        },
        legacy_decision(d, status) matches Err(e) ==> match d.cli_prompt {
            Some(_) => e == (DecisionErrorView::EmptyField { field: "cli_prompt"@ }),
            None => e is MissingLegacyPrompt,
        },
{
}

/// A reply of the earlier form is taken at its word: its instruction and background, its headline
/// from what is being done, its message from what was done, and its goal.
pub proof fn law_legacy_replies_are_taken_at_their_word(
    d: CoordinatorDecisionLegacy,
    status: AutoCoordinatorStatus,
    text: Seq<char>,
)
    requires
        plain(text),
    ensures
        legacy_decision(d, status) matches Ok(decision) ==> {
            &&& decision.status == status
            &&& decision.cli is Some <==> d.cli_prompt is Some
            &&& decision.cli matches Some(cli) ==> {
                &&& Some(cli.prompt) == clean_opt(opt_text(d.cli_prompt))
                &&& cli.context == clean_opt(opt_text(d.cli_context))
                &&& !cli.suppress_ui_context
                &&& opt_text(d.cli_prompt) == Some(text) ==> cli.prompt == text
                &&& opt_text(d.cli_context) == Some(text) ==> cli.context == Some(text)
            }
            &&& decision.status_title == clean_opt(opt_text(d.progress_current))
            &&& decision.status_sent_to_user == clean_opt(opt_text(d.progress_past))
            &&& decision.goal == clean_opt(opt_text(d.goal))
            &&& opt_text(d.goal) == Some(text) ==> decision.goal == Some(text)
            &&& decision.agents_timing is None
            &&& decision.response_items.len() == 0
            &&& decision.token_usage is None
            &&& decision.model_slug == MODEL_SLUG@
        },
{
    law_plain_text_is_kept(Seq::empty(), text, Seq::empty());
}

/// A helper agent is launched as it was asked for, and may write exactly where it was asked to and
/// that is allowed.
pub proof fn law_launches_are_as_asked(action: AgentView, allow_write: bool)
    ensures
        ({
            let launched = guarded_launch(action, allow_write);
            &&& launched.prompt == action.prompt
            &&& launched.context == action.context
            &&& launched.models == action.models
            &&& launched.write_requested == action.write
            &&& launched.write <==> action.write == Some(true) && allow_write
        }),
        launch(action) == guarded_launch(action, true),
{
}

/// A reply that leaves a needed text empty is told which: the instruction, or the task of a helper
/// agent, by the form in which it was asked for.
pub proof fn law_empty_texts_are_named(d: CoordinatorDecisionNew, status: AutoCoordinatorStatus)
    ensures
        new_decision(d, status) matches Err(DecisionErrorView::EmptyField { field }) ==> {
            ||| field == "prompt_sent_to_cli"@ && status is Continue
            ||| field == "agents[*].prompt"@ && (d.agents matches Some(AgentsField::List(_)))
            ||| field == "agents.requests[*].prompt"@ && (d.agents matches Some(
                AgentsField::Object(_),
            ))
        },
        !(status is Continue) ==> (new_decision(d, status) matches Err(e) ==> match d.agents {
            Some(AgentsField::List(_)) => e == (DecisionErrorView::EmptyField {
                field: "agents[*].prompt"@,
            }),
            _ => e == (DecisionErrorView::EmptyField { field: "agents.requests[*].prompt"@ }),
        }),
{
}

} // verus!
