//! Moving on to another account when one has used up its allowance.
use crate::calendar::{UtcTime, MAX_UTC_SECS, MIN_UTC_SECS};
use crate::errors::{find_in_chain, first_in_chain, CodexErr, ErrorChain};
use crate::events::{AutoCoordinatorEvent, EventView};
use crate::rate_limit::Moment;
use crate::retry::{classify_model_error_at, error_fits, verdict, RetryDecision, RetryView};
use crate::text::{contains, lemma_stands_at, opt_text};
use crate::time::Duration;
use vstd::prelude::*;
use vstd::string::*;

verus! {

/// How an account signs in.
#[derive(Debug, Clone, Copy, PartialEq, Eq, Structural)]
pub enum AuthMode {
    ApiKey,
    ChatGPT,
}

/// How a run signs in, given whether it uses a ChatGPT account.
pub fn preferred_auth(using_chatgpt_auth: bool) -> (r: AuthMode)
    ensures
        r == if using_chatgpt_auth {
            AuthMode::ChatGPT
        } else {
            AuthMode::ApiKey
        },
{
    if using_chatgpt_auth {
        AuthMode::ChatGPT
    } else {
        AuthMode::ApiKey
    }
}

/// The account that is signed in.
#[derive(Debug, Clone)]
pub struct CurrentAuth {
    pub account_id: Option<String>,
    pub mode: AuthMode,
}

/// The account to move away from.
#[derive(Debug, Clone)]
pub struct AccountSwitch {
    pub account_id: String,
    pub mode: AuthMode,
    /// When the account can be used again.
    pub blocked_until: Option<UtcTime>,
}

/// What became of an attempt to move to another account.
#[derive(Debug, Clone)]
pub enum SwitchOutcome {
    /// Another account is in use: its identifier, and its label if it has one.
    Switched { account_id: String, label: Option<String> },
    /// There is no other account.
    Unchanged,
    /// The other account could not be taken.
    Failed,
}

/// The limit that an error reports, in seconds until it ends; nothing where the error is another.
pub open spec fn usage_limit(error: ErrorChain) -> Option<Option<u64>> {
    match first_in_chain::<CodexErr>(error.causes@, 0) {
        Some(CodexErr::UsageLimitReached { resets_in_seconds }) => Some(resets_in_seconds),
        _ => None,
    }
}

/// Whether an error calls for another account: it reports a used up allowance, moving on is
/// allowed, and no key from the environment is in use.
pub fn wants_switch(error: &ErrorChain, auto_switch: bool, key_in_environment: bool) -> (r: bool)
    ensures
        r == (usage_limit(*error) is Some && auto_switch && !key_in_environment),
{
    match find_in_chain::<CodexErr>(error) {
        Some(CodexErr::UsageLimitReached { .. }) => auto_switch && !key_in_environment,
        _ => false,
    }
}

/// The account that is signed in, as far as it is known.
pub open spec fn known_account(auth: Option<CurrentAuth>, stored: Option<String>) -> Option<
    Seq<char>,
> {
    match auth {
        Some(CurrentAuth { account_id: Some(id), .. }) => Some(id@),
        _ => opt_text(stored),
    }
}

/// The account that is signed in: what the sign-in says, or else what is stored.
pub fn current_account(auth: &Option<CurrentAuth>, stored: Option<String>) -> (r: Option<String>)
    ensures
        opt_text(r) == known_account(*auth, stored),
{
    if let Some(current) = auth {
        if let Some(id) = &current.account_id {
            return Some(id.clone());
        }
    }
    stored
}

/// How the account signs in, as far as it is known.
pub open spec fn known_mode(auth: Option<CurrentAuth>, stored: Option<AuthMode>) -> Option<AuthMode> {
    match auth {
        Some(current) => Some(current.mode),
        None => stored,
    }
}

/// When an account can be used again.
pub open spec fn end_of_block(resets_in_seconds: Option<u64>, now: UtcTime) -> Option<UtcTime> {
    match resets_in_seconds {
        Some(secs) => Some(
            UtcTime { secs: (now.secs + (secs as i64)) as i64, nanos: now.nanos },
        ),
        None => None,
    }
}

/// The end of a block lies on the calendar.
pub open spec fn block_fits(resets_in_seconds: Option<u64>, now: UtcTime) -> bool {
    resets_in_seconds matches Some(secs) ==> MIN_UTC_SECS <= now.secs + (secs as i64)
        <= MAX_UTC_SECS
}

/// When an account can be used again.
pub fn blocked_until(resets_in_seconds: Option<u64>, now: UtcTime) -> (r: Option<UtcTime>)
    requires
        now.ordinary(),
        block_fits(resets_in_seconds, now),
    ensures
        r == end_of_block(resets_in_seconds, now),
{
    match resets_in_seconds {
        Some(secs) => Some(now.plus_seconds(secs as i64)),
        None => None,
    }
}

/// The account to move away from after an error, if there is one: it must be known, and how it
/// signs in. `stored_mode` is how the stored account of that name signs in.
pub fn plan_account_switch(
    error: &ErrorChain,
    account_id: Option<String>,
    auth: &Option<CurrentAuth>,
    stored_mode: Option<AuthMode>,
    now: UtcTime,
) -> (r: Option<AccountSwitch>)
    requires
        now.ordinary(),
        account_id is Some && known_mode(*auth, stored_mode) is Some ==> (usage_limit(
            *error,
        ) matches Some(resets) ==> block_fits(resets, now)),
    ensures
        r is Some <==> usage_limit(*error) is Some && account_id is Some && known_mode(
            *auth,
            stored_mode,
        ) is Some,
        r matches Some(plan) ==> {
            &&& Some(plan.account_id@) == opt_text(account_id)
            &&& Some(plan.mode) == known_mode(*auth, stored_mode)
            &&& plan.blocked_until == end_of_block(usage_limit(*error).unwrap(), now)
        },
{
    let mode = match auth {
        Some(current) => Some(current.mode),
        None => stored_mode,
    };
    match find_in_chain::<CodexErr>(error) {
        Some(CodexErr::UsageLimitReached { resets_in_seconds }) => match (account_id, mode) {
            (Some(account_id), Some(mode)) => Some(
                AccountSwitch { account_id, mode, blocked_until: blocked_until(*resets_in_seconds, now) },
            ),
            _ => None,
        },
        _ => None,
    }
}

/// What an account is called: by its label, or else by its identifier.
pub open spec fn account_name(account_id: Seq<char>, label: Option<Seq<char>>) -> Seq<char> {
    match label {
        Some(label) => label,
        None => account_id,
    }
}

/// What is announced after an attempt to move to another account.
pub open spec fn switch_event(outcome: Option<SwitchOutcome>) -> Option<EventView> {
    match outcome {
        Some(SwitchOutcome::Switched { account_id, label }) => Some(
            EventView::Action {
                message: "Auto-switch: now using "@ + account_name(account_id@, opt_text(label))
                    + " due to usage limit."@,
            },
        ),
        _ => None,
    }
}

/// What to do after an error and an attempt to move to another account.
pub open spec fn switch_verdict(
    error: ErrorChain,
    outcome: Option<SwitchOutcome>,
    readings: Seq<Option<Duration>>,
    moment: Moment,
) -> RetryView {
    if outcome matches Some(SwitchOutcome::Switched { .. }) {
        RetryView::RateLimited {
            wait_until: moment.now@,
            reason: "usage limit reached; switched accounts"@,
        }
    } else {
        verdict(error, readings, moment)
    }
}

/// An optional event.
pub open spec fn opt_event(o: Option<AutoCoordinatorEvent>) -> Option<EventView> {
    match o {
        Some(e) => Some(e@),
        None => None,
    }
}

/// Decides what to do after an error, given what became of an attempt to move to another account,
/// if one was made: with another account the request is made again at once.
pub fn classify_model_error_with_auto_switch(
    error: &ErrorChain,
    outcome: Option<SwitchOutcome>,
    readings: &Vec<Option<Duration>>,
    moment: Moment,
) -> (r: (Option<AutoCoordinatorEvent>, RetryDecision))
    requires
        moment.valid(),
        !(outcome matches Some(SwitchOutcome::Switched { .. })) ==> error_fits(*error, readings@),
    ensures
        opt_event(r.0) == switch_event(outcome),
        r.1@ == switch_verdict(*error, outcome, readings@, moment),
{
    if let Some(SwitchOutcome::Switched { account_id, label }) = outcome {
        let name = match label {
            Some(label) => label,
            None => account_id,
        };
        let mut message = "Auto-switch: now using ".to_owned();
        message.append(name.as_str());
        message.append(" due to usage limit.");
        return (
            Some(AutoCoordinatorEvent::Action { message }),
            RetryDecision::RateLimited {
                wait_until: moment.now,
                reason: "usage limit reached; switched accounts".to_owned(),
            },
        );
    }
    (None, classify_model_error_at(error, readings, moment))
}

/// Without another account, an error is met as if none had been looked for, and nothing is
/// announced.
pub proof fn law_no_switch_changes_nothing(
    error: ErrorChain,
    outcome: Option<SwitchOutcome>,
    readings: Seq<Option<Duration>>,
    moment: Moment,
)
    requires
        !(outcome matches Some(SwitchOutcome::Switched { .. })),
    ensures
        switch_event(outcome) is None,
        switch_verdict(error, outcome, readings, moment) == verdict(error, readings, moment),
{
}

/// With another account, the next attempt waits for nothing.
pub proof fn law_switch_retries_at_once(
    error: ErrorChain,
    account_id: String,
    label: Option<String>,
    readings: Seq<Option<Duration>>,
    moment: Moment,
)
    ensures
        switch_verdict(error, Some(SwitchOutcome::Switched { account_id, label }), readings, moment)
            matches RetryView::RateLimited { wait_until, .. } && wait_until == moment.now@,
{
}

/// An account is blocked for as long as its allowance is used up: until as many seconds from now as
/// the error names, and for no certain time where it names none.
pub proof fn law_accounts_are_blocked_for_the_limit(secs: u64, now: UtcTime)
    requires
        secs <= i64::MAX,
        now.ordinary(),
        block_fits(Some(secs), now),
    ensures
        end_of_block(Some(secs), now) matches Some(end) && {
            &&& end.place() - now.place() == secs * 1_000_000_000
            &&& end.ordinary()
        },
        end_of_block(None, now) is None,
{
}

/// Only a used up allowance calls for another account: it must be the first error of the model's
/// client in the chain.
pub proof fn law_what_calls_for_another_account(error: ErrorChain)
    ensures
        usage_limit(error) is Some <==> (first_in_chain::<CodexErr>(error.causes@, 0) matches Some(
            err,
        ) && err is UsageLimitReached),
        first_in_chain::<CodexErr>(error.causes@, 0) matches Some(err) ==> (err matches
            CodexErr::UsageLimitReached { resets_in_seconds } ==> usage_limit(error) == Some(
            resets_in_seconds,
        )),
{
}

/// The sign-in says which account is in use and how it signs in, and what is stored says it only
/// where the sign-in does not.
pub proof fn law_the_sign_in_comes_first(
    auth: CurrentAuth,
    stored: Option<String>,
    stored_mode: Option<AuthMode>,
)
    ensures
        auth.account_id matches Some(id) ==> known_account(Some(auth), stored) == Some(id@),
        auth.account_id is None ==> known_account(Some(auth), stored) == opt_text(stored),
        known_account(None, stored) == opt_text(stored),
        known_mode(Some(auth), stored_mode) == Some(auth.mode),
        known_mode(None, stored_mode) == stored_mode,
{
}

/// The user is told which account is in use after a move: by its label, or else by its identifier.
pub proof fn law_moves_are_announced(account_id: String, label: Option<String>)
    ensures
        switch_event(Some(SwitchOutcome::Switched { account_id, label })) matches Some(
            EventView::Action { message },
        ) && match label {
            Some(label) => contains(message, "now using "@ + label@ + " "@),
            None => contains(message, "now using "@ + account_id@ + " "@),
        },
{
    let name = match label {
        Some(label) => label@,
        None => account_id@,
    };
    let message = "Auto-switch: now using "@ + name + " due to usage limit."@;
    reveal_strlit("Auto-switch: now using ");
    reveal_strlit("now using ");
    reveal_strlit(" due to usage limit.");
    reveal_strlit(" ");
    lemma_stands_at(message, "now using "@ + name + " "@, 13);
}

/// With another account the reason tells both of the limit and of the move.
pub proof fn law_moves_are_given_as_the_reason(
    error: ErrorChain,
    account_id: String,
    label: Option<String>,
    readings: Seq<Option<Duration>>,
    moment: Moment,
)
    ensures
        switch_verdict(error, Some(SwitchOutcome::Switched { account_id, label }), readings, moment)
            matches RetryView::RateLimited { reason, .. } && contains(reason, "usage limit reached"@)
            && contains(reason, "switched accounts"@),
{
    let reason = "usage limit reached; switched accounts"@;
    reveal_strlit("usage limit reached; switched accounts");
    reveal_strlit("usage limit reached");
    reveal_strlit("switched accounts");
    lemma_stands_at(reason, "usage limit reached"@, 0);
    lemma_stands_at(reason, "switched accounts"@, 21);
}

/// Another account is wanted exactly after a used up allowance, where moving on is allowed and no key
/// comes from the environment.
pub proof fn law_when_another_account_is_wanted(
    error: &ErrorChain,
    auto_switch: bool,
    key_in_environment: bool,
    r: bool,
)
    requires
        call_ensures(wants_switch, (error, auto_switch, key_in_environment), r),
    ensures
        r ==> auto_switch && !key_in_environment,
        r ==> (first_in_chain::<CodexErr>(error.causes@, 0) matches Some(err)
            && err is UsageLimitReached),
        auto_switch && !key_in_environment && (first_in_chain::<CodexErr>(
            error.causes@,
            0,
        ) matches Some(err) && err is UsageLimitReached) ==> r,
{
}

/// The account that is moved away from is the one in use, with its sign-in, and it is blocked for as
/// long as its allowance is used up.
pub proof fn law_which_account_is_left(
    error: &ErrorChain,
    account_id: Option<String>,
    auth: &Option<CurrentAuth>,
    stored_mode: Option<AuthMode>,
    now: UtcTime,
    secs: u64,
    r: Option<AccountSwitch>,
)
    requires
        call_ensures(plan_account_switch, (error, account_id, auth, stored_mode, now), r),
        first_in_chain::<CodexErr>(error.causes@, 0) == Some(
            CodexErr::UsageLimitReached { resets_in_seconds: Some(secs) },
        ),
        secs <= i64::MAX,
        now.ordinary(),
        block_fits(Some(secs), now),
    ensures
        account_id is None ==> r is None,
        *auth is None && stored_mode is None ==> r is None,
        account_id matches Some(id) ==> (*auth matches Some(current) ==> (r matches Some(plan)
            && plan.account_id@ == id@ && plan.mode == current.mode)),
        account_id matches Some(id) ==> (*auth is None ==> (stored_mode matches Some(mode) ==> (
        r matches Some(plan) && plan.account_id@ == id@ && plan.mode == mode))),
        r matches Some(plan) ==> (plan.blocked_until matches Some(end) && end.place() - now.place()
            == secs * 1_000_000_000),
{
    law_accounts_are_blocked_for_the_limit(secs, now);
}

/// A run signs in with an account exactly where it uses one.
pub proof fn law_how_a_run_signs_in(using_chatgpt_auth: bool, r: AuthMode)
    requires
        call_ensures(preferred_auth, (using_chatgpt_auth,), r),
    ensures
        r is ChatGPT <==> using_chatgpt_auth,
{
}

} // verus!
