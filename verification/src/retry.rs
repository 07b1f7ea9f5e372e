//! What to do after a request to the model has failed.
use crate::budget::RATE_LIMIT_BUFFER_SECS;
use crate::errors::{
    client_error, find_in_chain, first_in_chain, law_context_keeps_causes, server_error,
    status_reason, status_words, Cause, CodexErr, ErrorChain, IoError, ReqwestError, Status,
};
use crate::rate_limit::{
    opt_instant, parse_rate_limit_hint, rate_limit_hint, rate_limit_wait_at, seconds_fit,
    wait_end, wait_fits, Moment,
};
use crate::text::{contains, decimal, lemma_part_stands, lemma_stands_at};
use crate::time::{seconds, Clock, Duration, Instant};
use vstd::prelude::*;
use vstd::string::*;

verus! {

/// What to do after a request has failed.
#[derive(Debug, Clone)]
pub enum RetryDecision {
    /// Try again after a pause.
    RetryAfterBackoff { reason: String },
    /// Try again at a point of time.
    RateLimited { wait_until: Instant, reason: String },
    /// Give up, with these words.
    Fatal(String),
}

/// What a decision says.
pub enum RetryView {
    RetryAfterBackoff { reason: Seq<char> },
    RateLimited { wait_until: int, reason: Seq<char> },
    Fatal(Seq<char>),
}

impl View for RetryDecision {
    type V = RetryView;

    open spec fn view(&self) -> RetryView {
        match *self {
            RetryDecision::RetryAfterBackoff { reason } => RetryView::RetryAfterBackoff {
                reason: reason@,
            },
            RetryDecision::RateLimited { wait_until, reason } => RetryView::RateLimited {
                wait_until: wait_until@,
                reason: reason@,
            },
            RetryDecision::Fatal(text) => RetryView::Fatal(text@),
        }
    }
}

/// A string that holds one after the other.
fn joined(first: &str, second: &str) -> (r: String)
    ensures
        r@ == first@ + second@,
{
    let mut text = first.to_owned();
    text.append(second);
    text
}

/// What to do after an error of the HTTP client.
pub open spec fn http_verdict(err: ReqwestError) -> RetryView {
    if err.is_timeout || err.is_connect || err.is_request && err.status is None {
        RetryView::RetryAfterBackoff { reason: "network error: "@ + err.text@ }
    } else {
        match err.status {
            Some(status) => if status@ == 429 {
                RetryView::RetryAfterBackoff { reason: "rate limited (429)"@ }
            } else if status@ == 408 {
                RetryView::RetryAfterBackoff {
                    reason: "provider returned "@ + status_words(status@),
                }
            } else if status@ == 499 {
                RetryView::RetryAfterBackoff { reason: "client closed request (499)"@ }
            } else if server_error(status@) {
                RetryView::RetryAfterBackoff { reason: "server error "@ + status_words(status@) }
            } else {
                RetryView::Fatal(err.text@)
            },
            None => RetryView::Fatal(err.text@),
        }
    }
}

/// Decides what to do after an error of the HTTP client.
pub fn classify_reqwest_error(err: &ReqwestError) -> (r: RetryDecision)
    ensures
        r@ == http_verdict(*err),
{
    if err.is_timeout || err.is_connect || err.is_request && err.status.is_none() {
        return RetryDecision::RetryAfterBackoff { reason: joined("network error: ", err.text.as_str()) };
    }
    if let Some(status) = err.status {
        let code: u16 = status.code();
        if code == 429 {
            return RetryDecision::RetryAfterBackoff { reason: "rate limited (429)".to_owned() };
        }
        if code == 408 {
            return RetryDecision::RetryAfterBackoff {
                reason: joined("provider returned ", status.words().as_str()),
            };
        }
        if code == 499 {
            return RetryDecision::RetryAfterBackoff {
                reason: "client closed request (499)".to_owned(),
            };
        }
        if 500 <= code && code < 600 {
            return RetryDecision::RetryAfterBackoff {
                reason: joined("server error ", status.words().as_str()),
            };
        }
    }
    RetryDecision::Fatal(err.text.clone())
}

/// What to do after a reply with an unexpected status, where the status alone decides; `text` is
/// the error in words and `hint` the time that the reply asks to wait until.
pub open spec fn status_verdict(code: u16, text: Seq<char>, hint: Option<int>) -> Option<RetryView> {
    if code == 408 {
        Some(RetryView::RetryAfterBackoff { reason: "provider returned "@ + status_words(code) })
    } else if code == 499 {
        Some(RetryView::RetryAfterBackoff { reason: "client closed request (499)"@ })
    } else if code == 429 {
        match hint {
            Some(wait_until) => Some(
                RetryView::RateLimited { wait_until, reason: "rate limited; waiting for reset"@ },
            ),
            None => Some(RetryView::RetryAfterBackoff { reason: "rate limited (429)"@ }),
        }
    } else if client_error(code) {
        Some(RetryView::Fatal(text))
    } else if server_error(code) {
        Some(RetryView::RetryAfterBackoff { reason: "server error "@ + status_words(code) })
    } else {
        None
    }
}

/// An optional decision.
pub open spec fn opt_verdict(o: Option<RetryDecision>) -> Option<RetryView> {
    match o {
        Some(d) => Some(d@),
        None => None,
    }
}

/// Decides what to do after a reply with an unexpected status.
pub fn classify_status(status: Status, text: &str, hint: Option<Instant>) -> (r: Option<
    RetryDecision,
>)
    ensures
        opt_verdict(r) == status_verdict(status@, text@, opt_instant(hint)),
{
    let code: u16 = status.code();
    if code == 408 {
        return Some(
            RetryDecision::RetryAfterBackoff {
                reason: joined("provider returned ", status.words().as_str()),
            },
        );
    }
    if code == 499 {
        return Some(
            RetryDecision::RetryAfterBackoff { reason: "client closed request (499)".to_owned() },
        );
    }
    if code == 429 {
        return match hint {
            Some(wait_until) => Some(
                RetryDecision::RateLimited {
                    wait_until,
                    reason: "rate limited; waiting for reset".to_owned(),
                },
            ),
            None => Some(RetryDecision::RetryAfterBackoff { reason: "rate limited (429)".to_owned() }),
        };
    }
    if 400 <= code && code < 500 {
        return Some(RetryDecision::Fatal(text.to_owned()));
    }
    if 500 <= code && code < 600 {
        return Some(
            RetryDecision::RetryAfterBackoff { reason: joined("server error ", status.words().as_str()) },
        );
    }
    None
}

/// What to do after an error of the model's client, where it decides.
pub open spec fn client_verdict(
    err: CodexErr,
    text: Seq<char>,
    readings: Seq<Option<Duration>>,
    moment: Moment,
) -> Option<RetryView> {
    match err {
        CodexErr::Stream(message) => Some(
            RetryView::RetryAfterBackoff { reason: "model stream error: "@ + message@ },
        ),
        CodexErr::Timeout => Some(
            RetryView::RetryAfterBackoff { reason: "model request timed out"@ },
        ),
        CodexErr::UnexpectedStatus { status, body } => status_verdict(
            status@,
            text,
            rate_limit_hint(body@, readings, moment),
        ),
        CodexErr::UsageLimitReached { resets_in_seconds: Some(secs) } => Some(
            RetryView::RateLimited {
                wait_until: wait_end(seconds(secs as int), moment),
                reason: "usage limit reached"@,
            },
        ),
        CodexErr::UsageLimitReached { resets_in_seconds: None } => Some(
            RetryView::RetryAfterBackoff { reason: "usage limit reached"@ },
        ),
        CodexErr::UsageNotIncluded => Some(RetryView::Fatal(text)),
        CodexErr::AuthRefreshPermanent => Some(RetryView::Fatal(text)),
        CodexErr::QuotaExceeded => Some(RetryView::Fatal(text)),
        CodexErr::ServerError => Some(RetryView::RetryAfterBackoff { reason: text }),
        CodexErr::RetryLimit { status, retryable: true } => Some(
            RetryView::RetryAfterBackoff {
                reason: "retry limit exceeded (status "@ + status_words(status@)
                    + "), treating as transient"@,
            },
        ),
        CodexErr::RetryLimit { status, retryable: false } => Some(
            RetryView::Fatal("retry limit exceeded (status "@ + status_words(status@) + ")"@),
        ),
        CodexErr::Reqwest(e) => Some(http_verdict(e)),
        CodexErr::Io(IoError { timed_out: true }) => Some(
            RetryView::RetryAfterBackoff { reason: "network timeout"@ },
        ),
        CodexErr::Io(IoError { timed_out: false }) => None,
        CodexErr::Other => None,
    }
}

/// What to do after an error in which the model's client does not decide.
pub open spec fn plain_verdict(error: ErrorChain) -> RetryView {
    match first_in_chain::<ReqwestError>(error.causes@, 0) {
        Some(e) => http_verdict(e),
        None => match first_in_chain::<IoError>(error.causes@, 0) {
            Some(IoError { timed_out: true }) => RetryView::RetryAfterBackoff {
                reason: "network timeout"@,
            },
            _ => RetryView::Fatal(error.text@),
        },
    }
}

/// What to do after an error.
pub open spec fn verdict(
    error: ErrorChain,
    readings: Seq<Option<Duration>>,
    moment: Moment,
) -> RetryView {
    match first_in_chain::<CodexErr>(error.causes@, 0) {
        Some(err) => match client_verdict(err, error.text@, readings, moment) {
            Some(v) => v,
            None => plain_verdict(error),
        },
        None => plain_verdict(error),
    }
}

/// The wait that an error asks for leaves room for the safety margin.
pub open spec fn error_fits(error: ErrorChain, readings: Seq<Option<Duration>>) -> bool {
    match first_in_chain::<CodexErr>(error.causes@, 0) {
        Some(CodexErr::UsageLimitReached { resets_in_seconds: Some(secs) }) => wait_fits(
            seconds(secs as int),
        ),
        Some(CodexErr::UnexpectedStatus { status, .. }) => status@ == 429 ==> seconds_fit(readings),
        _ => true,
    }
}

/// Decides what to do after an error of the model's client, where it decides.
fn classify_client_error(
    err: &CodexErr,
    text: &str,
    readings: &Vec<Option<Duration>>,
    moment: Moment,
) -> (r: Option<RetryDecision>)
    requires
        moment.valid(),
        *err matches CodexErr::UsageLimitReached { resets_in_seconds: Some(secs) } ==> wait_fits(
            seconds(secs as int),
        ),
        *err matches CodexErr::UnexpectedStatus { status, .. } ==> status@ == 429 ==> seconds_fit(
            readings@,
        ),
    ensures
        opt_verdict(r) == client_verdict(*err, text@, readings@, moment),
{
    match err {
        CodexErr::Stream(message) => Some(
            RetryDecision::RetryAfterBackoff {
                reason: joined("model stream error: ", message.as_str()),
            },
        ),
        CodexErr::Timeout => Some(
            RetryDecision::RetryAfterBackoff { reason: "model request timed out".to_owned() },
        ),
        CodexErr::UnexpectedStatus { status, body } => {
            let hint = if status.code() == 429 {
                parse_rate_limit_hint(body.as_str(), readings, moment)
            } else {
                None
            };
            classify_status(*status, text, hint)
        },
        CodexErr::UsageLimitReached { resets_in_seconds } => match resets_in_seconds {
            Some(secs) => Some(
                RetryDecision::RateLimited {
                    wait_until: rate_limit_wait_at(Duration::from_secs(*secs), moment),
                    reason: "usage limit reached".to_owned(),
                },
            ),
            None => Some(
                RetryDecision::RetryAfterBackoff { reason: "usage limit reached".to_owned() },
            ),
        },
        CodexErr::UsageNotIncluded => Some(RetryDecision::Fatal(text.to_owned())),
        CodexErr::AuthRefreshPermanent => Some(RetryDecision::Fatal(text.to_owned())),
        CodexErr::QuotaExceeded => Some(RetryDecision::Fatal(text.to_owned())),
        CodexErr::ServerError => Some(RetryDecision::RetryAfterBackoff { reason: text.to_owned() }),
        CodexErr::RetryLimit { status, retryable } => {
            let mut words = joined("retry limit exceeded (status ", status.words().as_str());
            if *retryable {
                words.append("), treating as transient");
                Some(RetryDecision::RetryAfterBackoff { reason: words })
            } else {
                words.append(")");
                Some(RetryDecision::Fatal(words))
            }
        },
        CodexErr::Reqwest(e) => Some(classify_reqwest_error(e)),
        CodexErr::Io(e) => if e.timed_out {
            Some(RetryDecision::RetryAfterBackoff { reason: "network timeout".to_owned() })
        } else {
            None
        },
        CodexErr::Other => None,
    }
}

/// Decides what to do after an error, at a given moment. `readings` are the numbers that
/// [`crate::rate_limit::seconds_fields`] names in words for the body of the reply.
pub fn classify_model_error_at(
    error: &ErrorChain,
    readings: &Vec<Option<Duration>>,
    moment: Moment,
) -> (r: RetryDecision)
    requires
        moment.valid(),
        error_fits(*error, readings@),
    ensures
        r@ == verdict(*error, readings@, moment),
{
    if let Some(err) = find_in_chain::<CodexErr>(error) {
        if let Some(decision) = classify_client_error(err, error.text.as_str(), readings, moment) {
            return decision;
        }
    }
    if let Some(err) = find_in_chain::<ReqwestError>(error) {
        return classify_reqwest_error(err);
    }
    if let Some(err) = find_in_chain::<IoError>(error) {
        if err.timed_out {
            return RetryDecision::RetryAfterBackoff { reason: "network timeout".to_owned() };
        }
    }
    RetryDecision::Fatal(error.text.clone())
}

/// Decides what to do after an error, now.
pub fn classify_model_error(
    error: &ErrorChain,
    readings: &Vec<Option<Duration>>,
    clock: &Clock,
) -> (r: RetryDecision)
    requires
        error_fits(*error, readings@),
    ensures
        exists|moment: Moment| moment.valid() && r@ == #[trigger] verdict(*error, readings@, moment),
{
    let moment = Moment::take(clock);
    classify_model_error_at(error, readings, moment)
}

/// Errors that no later attempt can mend: the plan, the sign-in or the quota stands in the way.
pub open spec fn permanent(err: CodexErr) -> bool {
    err is UsageNotIncluded || err is AuthRefreshPermanent || err is QuotaExceeded
}

/// A permanent error is never tried again, and is reported in its own words.
pub proof fn law_permanent_errors_are_fatal(
    error: ErrorChain,
    readings: Seq<Option<Duration>>,
    moment: Moment,
)
    requires
        first_in_chain::<CodexErr>(error.causes@, 0) matches Some(err) && permanent(err),
    ensures
        verdict(error, readings, moment) == RetryView::Fatal(error.text@),
{
}

/// A reply whose status blames the server is always tried again; one that blames the request is
/// tried again only where it timed out, was closed, or met a limit.
pub proof fn law_status_decides(
    error: ErrorChain,
    status: Status,
    body: String,
    readings: Seq<Option<Duration>>,
    moment: Moment,
)
    requires
        first_in_chain::<CodexErr>(error.causes@, 0) == Some(
            CodexErr::UnexpectedStatus { status, body },
        ),
    ensures
        server_error(status@) ==> verdict(error, readings, moment) is RetryAfterBackoff,
        client_error(status@) ==> (verdict(error, readings, moment) is Fatal <==> status@ != 408
            && status@ != 429 && status@ != 499),
        status@ == 429 ==> (verdict(error, readings, moment) is RateLimited <==> rate_limit_hint(
            body@,
            readings,
            moment,
        ) is Some),
{
}

/// A limit is never waited for less than the safety margin.
pub proof fn law_limits_are_waited_for(
    error: ErrorChain,
    readings: Seq<Option<Duration>>,
    moment: Moment,
)
    requires
        moment.valid(),
    ensures
        verdict(error, readings, moment) matches RetryView::RateLimited { wait_until, .. }
            ==> wait_until >= moment.now@ + seconds(RATE_LIMIT_BUFFER_SECS as int),
{
}

/// Two decisions do the same, whatever their words.
pub open spec fn same_course(a: RetryView, b: RetryView) -> bool {
    match (a, b) {
        (RetryView::RetryAfterBackoff { .. }, RetryView::RetryAfterBackoff { .. }) => true,
        (
            RetryView::RateLimited { wait_until: x, .. },
            RetryView::RateLimited { wait_until: y, .. },
        ) => x == y,
        (RetryView::Fatal(_), RetryView::Fatal(_)) => true,
        _ => false,
    }
}

/// Words put in front of an error do not change what is done about it.
pub proof fn law_context_keeps_course(
    error: ErrorChain,
    wrapped: ErrorChain,
    readings: Seq<Option<Duration>>,
    moment: Moment,
)
    requires
        wrapped.causes@ == seq![Cause::Other] + error.causes@,
    ensures
        same_course(verdict(wrapped, readings, moment), verdict(error, readings, moment)),
{
    law_context_keeps_causes::<CodexErr>(error.causes@);
    law_context_keeps_causes::<ReqwestError>(error.causes@);
    law_context_keeps_causes::<IoError>(error.causes@);
}

/// After a used up allowance that comes back in a number of seconds the next attempt waits for all of
/// them, and for five seconds more, but less than eight.
pub proof fn law_used_up_allowances_are_waited_out(
    error: ErrorChain,
    readings: Seq<Option<Duration>>,
    moment: Moment,
    secs: u64,
)
    requires
        first_in_chain::<CodexErr>(error.causes@, 0) == Some(
            CodexErr::UsageLimitReached { resets_in_seconds: Some(secs) },
        ),
        moment.valid(),
    ensures
        verdict(error, readings, moment) matches RetryView::RateLimited { wait_until, reason } && {
            &&& wait_until >= moment.now@ + (secs + 5) * 1_000_000_000
            &&& wait_until < moment.now@ + (secs + 8) * 1_000_000_000
            &&& reason == "usage limit reached"@
        },
{
}

/// Of two used up allowances the one that comes back later is waited for longer, by as much.
pub proof fn law_longer_allowances_are_waited_for_longer(
    error: ErrorChain,
    other: ErrorChain,
    readings: Seq<Option<Duration>>,
    moment: Moment,
    secs: u64,
    more: u64,
)
    requires
        first_in_chain::<CodexErr>(error.causes@, 0) == Some(
            CodexErr::UsageLimitReached { resets_in_seconds: Some(secs) },
        ),
        first_in_chain::<CodexErr>(other.causes@, 0) == Some(
            CodexErr::UsageLimitReached { resets_in_seconds: Some(more) },
        ),
    ensures
        ({
            let first = verdict(error, readings, moment);
            let second = verdict(other, readings, moment);
            first is RateLimited && second is RateLimited && second->wait_until - first->wait_until
                == (more - secs) * 1_000_000_000
        }),
{
}

/// An error of the HTTP client is met by another attempt exactly where the request timed out, found
/// no connection or was not sent, or the status says that it timed out, met a limit, was closed, or
/// blames the server; any other is reported in its own words. It is never waited for until a point
/// of time.
pub proof fn law_network_errors_are_tried_again(err: ReqwestError)
    ensures
        ({
            let network = err.is_timeout || err.is_connect || err.is_request && err.status is None;
            let passing = err.status matches Some(status) && (status@ == 408 || status@ == 429
                || status@ == 499 || 500 <= status@ <= 599);
            &&& http_verdict(err) is RetryAfterBackoff <==> network || passing
            &&& !(network || passing) ==> http_verdict(err) == RetryView::Fatal(err.text@)
            &&& network ==> (http_verdict(err) matches RetryView::RetryAfterBackoff { reason }
                && contains(reason, err.text@))
            &&& !network && passing ==> (
            http_verdict(err) matches RetryView::RetryAfterBackoff { reason } && contains(
                reason,
                decimal(err.status.unwrap()@ as nat),
            ))
        }),
{
    let text = err.text@;
    lemma_part_stands("network error: "@, text, Seq::empty());
    assert("network error: "@ + text + Seq::<char>::empty() =~= "network error: "@ + text);
    if let Some(status) = err.status {
        lemma_reason_names_status(status@);
    }
}

/// The reasons that are given for a status name it.
proof fn lemma_reason_names_status(code: u16)
    ensures
        contains("provider returned "@ + status_words(code), decimal(code as nat)),
        contains("server error "@ + status_words(code), decimal(code as nat)),
        code == 429 ==> contains("rate limited (429)"@, decimal(code as nat)),
        code == 499 ==> contains("client closed request (499)"@, decimal(code as nat)),
{
    let n = decimal(code as nat);
    let rest = " "@ + status_reason(code);
    lemma_part_stands("provider returned "@, n, rest);
    assert("provider returned "@ + status_words(code) =~= "provider returned "@ + n + rest);
    lemma_part_stands("server error "@, n, rest);
    assert("server error "@ + status_words(code) =~= "server error "@ + n + rest);
    reveal_with_fuel(decimal, 4);
    if code == 429 {
        reveal_strlit("rate limited (429)");
        assert(n =~= seq!['4', '2', '9']);
        lemma_stands_at("rate limited (429)"@, n, 14);
    }
    if code == 499 {
        reveal_strlit("client closed request (499)");
        assert(n =~= seq!['4', '9', '9']);
        lemma_stands_at("client closed request (499)"@, n, 23);
    }
}

/// What the status of a reply means: 408, 499 and 429 are tried again, the last at the time that the
/// reply asks for, if it asks for one; every other from 400 to 499 is reported in the words of the
/// error; from 500 to 599 it is tried again; any other status decides nothing.
pub proof fn law_what_a_status_means(code: u16, text: Seq<char>, hint: Option<int>)
    ensures
        code == 408 || code == 499 || 500 <= code <= 599 ==> (status_verdict(
            code,
            text,
            hint,
        ) matches Some(RetryView::RetryAfterBackoff { reason }) && contains(
            reason,
            decimal(code as nat),
        )),
        code == 429 ==> match hint {
            Some(at) => status_verdict(code, text, hint) matches Some(
                RetryView::RateLimited { wait_until, .. },
            ) && wait_until == at,
            None => status_verdict(code, text, hint) matches Some(
                RetryView::RetryAfterBackoff { .. },
            ),
        },
        400 <= code <= 499 && code != 408 && code != 429 && code != 499 ==> status_verdict(
            code,
            text,
            hint,
        ) == Some(RetryView::Fatal(text)),
        code < 400 || code >= 600 ==> status_verdict(code, text, hint) is None,
{
    lemma_reason_names_status(code);
}

/// What is done after each error of the model's client: a broken stream, a timeout, a fault of the
/// server and a limit without an end are tried again after a pause, and so is a client that gave up
/// on what may pass; one that gave up on what does not is fatal. What the HTTP client reports is met
/// as from anywhere else.
pub proof fn law_what_client_errors_mean(
    error: ErrorChain,
    err: CodexErr,
    readings: Seq<Option<Duration>>,
    moment: Moment,
)
    requires
        first_in_chain::<CodexErr>(error.causes@, 0) == Some(err),
    ensures
        ({
            let done = verdict(error, readings, moment);
            match err {
                CodexErr::Stream(message) => done matches RetryView::RetryAfterBackoff { reason }
                    && contains(reason, message@),
                CodexErr::Timeout => done is RetryAfterBackoff,
                CodexErr::ServerError => done == (RetryView::RetryAfterBackoff {
                    reason: error.text@,
                }),
                CodexErr::UsageLimitReached { resets_in_seconds: None } => done
                    == (RetryView::RetryAfterBackoff { reason: "usage limit reached"@ }),
                CodexErr::RetryLimit { status, retryable } => if retryable {
                    done matches RetryView::RetryAfterBackoff { reason } && contains(
                        reason,
                        decimal(status@ as nat),
                    )
                } else {
                    done matches RetryView::Fatal(text) && contains(text, decimal(status@ as nat))
                },
                CodexErr::UsageNotIncluded => done == RetryView::Fatal(error.text@),
                CodexErr::AuthRefreshPermanent => done == RetryView::Fatal(error.text@),
                CodexErr::QuotaExceeded => done == RetryView::Fatal(error.text@),
                CodexErr::Reqwest(e) => done == http_verdict(e),
                CodexErr::Io(e) => e.timed_out ==> done is RetryAfterBackoff,
                CodexErr::UnexpectedStatus { status, body } => {
                    let hint = rate_limit_hint(body@, readings, moment);
                    &&& 400 <= status@ <= 599 ==> Some(done) == status_verdict(
                        status@,
                        error.text@,
                        hint,
                    )
                    &&& status@ == 429 && hint is Some ==> (
                    done matches RetryView::RateLimited { wait_until, .. } && Some(wait_until)
                        == hint)
                },
                _ => true,
            }
        }),
{
    match err {
        CodexErr::Stream(message) => {
            lemma_part_stands("model stream error: "@, message@, Seq::empty());
            assert("model stream error: "@ + message@ + Seq::<char>::empty()
                =~= "model stream error: "@ + message@);
        },
        CodexErr::RetryLimit { status, retryable } => {
            let a = "retry limit exceeded (status "@;
            let n = decimal(status@ as nat);
            let b = " "@ + status_reason(status@) + "), treating as transient"@;
            let c = " "@ + status_reason(status@) + ")"@;
            lemma_part_stands(a, n, b);
            lemma_part_stands(a, n, c);
            assert(a + status_words(status@) + "), treating as transient"@ =~= a + n + b);
            assert(a + status_words(status@) + ")"@ =~= a + n + c);
        },
        _ => {},
    }
}

/// Where the model's client decides nothing, the first error of the HTTP client does; without one, an
/// input or output that timed out is tried again, and all else is reported in its own words.
pub proof fn law_other_errors(error: ErrorChain, readings: Seq<Option<Duration>>, moment: Moment)
    requires
        match first_in_chain::<CodexErr>(error.causes@, 0) {
            Some(CodexErr::Other) => true,
            Some(CodexErr::Io(e)) => !e.timed_out,
            Some(CodexErr::UnexpectedStatus { status, .. }) => status@ < 400 || status@ >= 600,
            Some(_) => false,
            None => true,
        },
    ensures
        match first_in_chain::<ReqwestError>(error.causes@, 0) {
            Some(e) => verdict(error, readings, moment) == http_verdict(e),
            None => if first_in_chain::<IoError>(error.causes@, 0) matches Some(e) && e.timed_out {
                verdict(error, readings, moment) is RetryAfterBackoff
            } else {
                verdict(error, readings, moment) == RetryView::Fatal(error.text@)
            },
        },
{
}

/// Whenever it is asked, a used up allowance is waited out, and what no attempt can mend is fatal.
pub proof fn law_errors_are_met_now(
    error: &ErrorChain,
    readings: &Vec<Option<Duration>>,
    clock: &Clock,
    secs: u64,
    r: RetryDecision,
)
    requires
        call_ensures(classify_model_error, (error, readings, clock), r),
    ensures
        first_in_chain::<CodexErr>(error.causes@, 0) == Some(
            CodexErr::UsageLimitReached { resets_in_seconds: Some(secs) },
        ) ==> (r@ matches RetryView::RateLimited { wait_until, .. } && wait_until >= (secs + 5)
            * 1_000_000_000),
        first_in_chain::<CodexErr>(error.causes@, 0) matches Some(err) ==> (err is UsageNotIncluded
            || err is AuthRefreshPermanent || err is QuotaExceeded ==> r@ == RetryView::Fatal(
            error.text@,
        )),
{
}

/// A reason for trying again says what went wrong: that a rate limit was hit, that no answer came in
/// time, that the stream broke, that the network failed, or that the server had been asked too often.
pub proof fn law_reasons_say_what_went_wrong(
    text: Seq<char>,
    hint: Option<int>,
    err: CodexErr,
    http: ReqwestError,
    readings: Seq<Option<Duration>>,
    moment: Moment,
)
    ensures
        hint is Some ==> (status_verdict(429, text, hint) matches Some(
            RetryView::RateLimited { reason, .. },
        ) && contains(reason, "rate limited"@) && contains(reason, "waiting for reset"@)),
        hint is None ==> (status_verdict(429, text, hint) matches Some(
            RetryView::RetryAfterBackoff { reason },
        ) && contains(reason, "rate limited"@) && contains(reason, "429"@)),
        http.is_timeout || http.is_connect ==> (http_verdict(
            http,
        ) matches RetryView::RetryAfterBackoff { reason } && "network error: "@.is_prefix_of(
            reason,
        )),
        ({
            let done = client_verdict(err, text, readings, moment);
            match err {
                CodexErr::Timeout => done matches Some(RetryView::RetryAfterBackoff { reason })
                    && contains(reason, "timed out"@),
                CodexErr::Stream(_) => done matches Some(RetryView::RetryAfterBackoff { reason })
                    && contains(reason, "stream error"@),
                CodexErr::Io(e) => if e.timed_out {
                    done matches Some(RetryView::RetryAfterBackoff { reason }) && contains(
                        reason,
                        "timeout"@,
                    )
                } else {
                    done is None
                },
                CodexErr::RetryLimit { retryable, .. } => if retryable {
                    done matches Some(RetryView::RetryAfterBackoff { reason }) && contains(
                        reason,
                        "retry limit exceeded"@,
                    ) && contains(reason, "transient"@)
                } else {
                    done matches Some(RetryView::Fatal(told)) && contains(
                        told,
                        "retry limit exceeded"@,
                    )
                },
                _ => true,
            }
        }),
{
    lemma_reasons_of_limits();
    lemma_reasons_of_networks();
    assert("network error: "@.is_prefix_of("network error: "@ + http.text@)) by {
        assert(("network error: "@ + http.text@).subrange(0, "network error: "@.len() as int)
            =~= "network error: "@);
    }
    if let CodexErr::Stream(message) = err {
        lemma_stream_errors(message@);
    }
    if let CodexErr::RetryLimit { status, .. } = err {
        lemma_exceeded_retries(status_words(status@));
    }
}

proof fn lemma_reasons_of_limits()
    ensures
        contains("rate limited; waiting for reset"@, "rate limited"@),
        contains("rate limited; waiting for reset"@, "waiting for reset"@),
        contains("rate limited (429)"@, "rate limited"@),
        contains("rate limited (429)"@, "429"@),
{
    reveal_strlit("rate limited; waiting for reset");
    reveal_strlit("rate limited (429)");
    reveal_strlit("rate limited");
    reveal_strlit("waiting for reset");
    reveal_strlit("429");
    lemma_stands_at("rate limited; waiting for reset"@, "rate limited"@, 0);
    lemma_stands_at("rate limited; waiting for reset"@, "waiting for reset"@, 14);
    lemma_stands_at("rate limited (429)"@, "rate limited"@, 0);
    lemma_stands_at("rate limited (429)"@, "429"@, 14);
}

proof fn lemma_reasons_of_networks()
    ensures
        contains("model request timed out"@, "timed out"@),
        contains("network timeout"@, "timeout"@),
{
    reveal_strlit("model request timed out");
    reveal_strlit("timed out");
    reveal_strlit("network timeout");
    reveal_strlit("timeout");
    lemma_stands_at("model request timed out"@, "timed out"@, 14);
    lemma_stands_at("network timeout"@, "timeout"@, 8);
}

proof fn lemma_stream_errors(message: Seq<char>)
    ensures
        contains("model stream error: "@ + message, "stream error"@),
{
    reveal_strlit("model stream error: ");
    reveal_strlit("stream error");
    lemma_stands_at("model stream error: "@ + message, "stream error"@, 6);
}

proof fn lemma_exceeded_retries(status: Seq<char>)
    ensures
        ({
            let passing = "retry limit exceeded (status "@ + status + "), treating as transient"@;
            &&& contains(passing, "retry limit exceeded"@)
            &&& contains(passing, "transient"@)
            &&& contains(
                "retry limit exceeded (status "@ + status + ")"@,
                "retry limit exceeded"@,
            )
        }),
{
    reveal_strlit("retry limit exceeded (status ");
    reveal_strlit("retry limit exceeded");
    reveal_strlit("), treating as transient");
    reveal_strlit("transient");
    let front = "retry limit exceeded (status "@;
    let passing = front + status + "), treating as transient"@;
    lemma_stands_at(passing, "retry limit exceeded"@, 0);
    lemma_stands_at(passing, "transient"@, (front.len() + status.len() + 15) as int);
    lemma_stands_at(front + status + ")"@, "retry limit exceeded"@, 0);
}

/// An error that is no more than an operation that took too long is tried again for that reason.
pub proof fn law_slow_operations_are_told(error: ErrorChain)
    requires
        first_in_chain::<ReqwestError>(error.causes@, 0) is None,
        first_in_chain::<IoError>(error.causes@, 0) == Some(IoError { timed_out: true }),
    ensures
        plain_verdict(error) matches RetryView::RetryAfterBackoff { reason } && contains(
            reason,
            "timeout"@,
        ),
{
    lemma_reasons_of_networks();
}

} // verus!
