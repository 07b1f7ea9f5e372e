//! From the end of a request to its result.
use crate::decision::{DecisionError, DecisionFailure, DecisionView, ParsedCoordinatorDecision};
use crate::errors::{Cause, ErrorChain};
use crate::fallback::{
    fallback_error, fallback_slug, fallback_words, law_both_errors_are_told,
    law_which_model_is_asked_instead, model_unknown, plan_fallback,
};
use crate::items::items_view;
use crate::stream::RequestStreamResult;
use crate::text::{
    blank, contains, decimal, decimal_text, is_blank, lemma_part_stands, lemma_stands_at, opt_text,
    same_ignoring_case,
};
use crate::time::{span_between, Duration, Instant, MAX_SPAN_NANOS};
use vstd::prelude::*;
use vstd::string::*;

verus! {

/// The form of a decision.
pub const DECISION_LABEL: &'static str = "coordinator_decision";

/// The form of an answer to a user.
pub const USER_TURN_LABEL: &'static str = "auto_coordinator_user_turn";

/// What is told of an attempt that is about to be made again.
#[derive(Debug, Clone)]
pub struct RetryStatus {
    pub attempt: u32,
    pub is_rate_limit: bool,
    pub reason: String,
}

/// Why attempts came to an end.
#[derive(Debug, Clone)]
pub enum RetryError {
    /// The run was cancelled.
    Aborted,
    /// An error that is not tried again.
    Fatal(ErrorChain),
    /// The time for attempts is over; the last error.
    Timeout { last_error: ErrorChain },
}

/// How long it is until a point of time, if it lies ahead.
pub fn resume_delay(resume_at: Option<Instant>, now: Instant) -> (r: Option<Duration>)
    ensures
        r is Some <==> (resume_at matches Some(at) && at@ > now@),
        r matches Some(delay) ==> delay@ == span_between(now@, resume_at.unwrap()@),
{
    match resume_at {
        Some(at) => if now.before(at) {
            Some(at.saturating_duration_since(now))
        } else {
            None
        },
        None => None,
    }
}

/// When the next attempt is made, in words; `local` is a point of time ahead in words.
pub open spec fn resume_words(resume_at: Option<int>, now: int, local: Option<Seq<char>>) -> Option<
    Seq<char>,
> {
    match resume_at {
        Some(at) => if at <= now {
            Some("now"@)
        } else {
            local
        },
        None => None,
    }
}

/// When the next attempt is made, in words.
pub fn resume_text(resume_at: Option<Instant>, now: Instant, local: Option<String>) -> (r: Option<
    String,
>)
    ensures
        opt_text(r) == resume_words(
            match resume_at {
                Some(at) => Some(at@),
                None => None,
            },
            now@,
            opt_text(local),
        ),
{
    match resume_at {
        Some(at) => if now.before(at) {
            local
        } else {
            Some("now".to_owned())
        },
        None => None,
    }
}

/// What is told of an attempt that is about to be made again.
pub open spec fn retry_words(
    status: RetryStatus,
    delay: Option<Seq<char>>,
    elapsed: Seq<char>,
    resume: Option<Seq<char>>,
) -> Seq<char> {
    (if status.is_rate_limit {
        "Rate limit"@
    } else {
        "Transient error"@
    }) + " (attempt "@ + decimal(status.attempt as nat) + "): "@ + status.reason@
        + "; retrying in "@ + (match delay {
        Some(delay) => delay,
        None => "0s"@,
    }) + " (elapsed "@ + elapsed + ")"@ + (match resume {
        Some(at) => "; next attempt at "@ + at,
        None => ""@,
    })
}

/// What is told of an attempt that is about to be made again; the spans and the point of time are
/// given in words.
pub fn retry_message(
    status: &RetryStatus,
    delay: Option<String>,
    elapsed: &str,
    resume: Option<String>,
) -> (r: String)
    ensures
        r@ == retry_words(*status, opt_text(delay), elapsed@, opt_text(resume)),
{
    let mut text = if status.is_rate_limit {
        "Rate limit".to_owned()
    } else {
        "Transient error".to_owned()
    };
    text.append(" (attempt ");
    text.append(decimal_text(status.attempt as u64).as_str());
    text.append("): ");
    text.append(status.reason.as_str());
    text.append("; retrying in ");
    match delay {
        Some(delay) => text.append(delay.as_str()),
        None => text.append("0s"),
    }
    text.append(" (elapsed ");
    text.append(elapsed);
    text.append(")");
    match resume {
        Some(at) => {
            let mut next = "; next attempt at ".to_owned();
            next.append(at.as_str());
            text.append(next.as_str());
        },
        None => text.append(""),
    }
    text
}

/// The error after attempts came to an end; `elapsed` is the time that they took, in words.
pub fn retry_failure(error: RetryError, elapsed: &str) -> (r: ErrorChain)
    ensures
        match error {
            RetryError::Aborted => r.cancelled && r.text@ == "auto coordinator cancelled"@
                && r.causes@ == seq![Cause::Other],
            RetryError::Fatal(e) => r == e,
            RetryError::Timeout { last_error } => r.text@
                == "auto coordinator retry window exceeded after "@ + elapsed@ && r.causes@
                == seq![Cause::Other] + last_error.causes@ && r.cancelled == last_error.cancelled,
        },
{
    match error {
        RetryError::Aborted => ErrorChain::cancelled(),
        RetryError::Fatal(e) => e,
        RetryError::Timeout { last_error } => {
            let mut text = "auto coordinator retry window exceeded after ".to_owned();
            text.append(elapsed);
            last_error.with_context(text)
        },
    }
}

/// What to do after the model was asked.
pub enum AttemptOutcome {
    /// Take what came of it.
    Done(Result<RequestStreamResult, ErrorChain>),
    /// Ask another model, since the provider does not know the first.
    AskOther { slug: String, original: ErrorChain },
}

/// Decides what to do after the preferred model was asked; `default_slug` is the model that is
/// configured.
pub fn request_decision(
    first: Result<RequestStreamResult, ErrorChain>,
    preferred: &str,
    default_slug: &str,
) -> (r: AttemptOutcome)
    ensures
        match first {
            Ok(_) => r == AttemptOutcome::Done(first),
            Err(e) => if model_unknown(e.causes@) && fallback_slug(preferred@, default_slug@)
                != preferred@ {
                r matches AttemptOutcome::AskOther { slug, original } && slug@ == fallback_slug(
                    preferred@,
                    default_slug@,
                ) && original == e
            } else {
                r == AttemptOutcome::Done(first)
            },
        },
{
    match first {
        Ok(stream) => AttemptOutcome::Done(Ok(stream)),
        Err(original) => match plan_fallback(preferred, default_slug, &original) {
            Some(slug) => AttemptOutcome::AskOther { slug, original },
            None => AttemptOutcome::Done(Err(original)),
        },
    }
}

/// Takes what came of asking another model.
pub fn request_fallback(
    second: Result<RequestStreamResult, ErrorChain>,
    slug: &str,
    original: &ErrorChain,
) -> (r: Result<RequestStreamResult, ErrorChain>)
    ensures
        match second {
            Ok(stream) => r == Ok::<_, ErrorChain>(stream),
            Err(e) => r matches Err(told) && told.text@ == fallback_words(slug@, original.text@)
                && told.causes@ == seq![Cause::Other] + e.causes@ && told.cancelled == e.cancelled,
        },
{
    match second {
        Ok(stream) => Ok(stream),
        Err(e) => Err(fallback_error(slug, original, e)),
    }
}

/// Nothing came of a stream.
pub open spec fn nothing_came(stream: RequestStreamResult) -> bool {
    blank(stream.output_text@) && stream.response_items@.len() == 0
}

/// Takes what came of a request for a decision, if anything did.
pub fn accept_stream(result: Result<RequestStreamResult, ErrorChain>) -> (r: Result<
    RequestStreamResult,
    DecisionFailure,
>)
    ensures
        match result {
            Ok(stream) => if nothing_came(stream) {
                r matches Err(failure) && failure.error@ is NoOutput && failure.schema_label@
                    == DECISION_LABEL@ && opt_text(failure.output_text) == Some(
                    stream.output_text@,
                )
            } else {
                r == Ok::<_, DecisionFailure>(stream)
            },
            Err(e) => r matches Err(failure) && failure.error == DecisionError::Request(e)
                && failure.schema_label@ == DECISION_LABEL@ && failure.output_text is None,
        },
{
    match result {
        Ok(stream) => if is_blank(stream.output_text.as_str()) && stream.response_items.len() == 0 {
            Err(
                DecisionFailure::new(
                    DecisionError::NoOutput,
                    DECISION_LABEL,
                    Some(stream.output_text),
                ),
            )
        } else {
            Ok(stream)
        },
        Err(e) => Err(DecisionFailure::new(DecisionError::Request(e), DECISION_LABEL, None)),
    }
}

/// A decision with the items, the tokens and the model of the stream that it came from.
pub open spec fn with_stream(d: DecisionView, stream: RequestStreamResult) -> DecisionView {
    DecisionView {
        response_items: items_view(stream.response_items@),
        token_usage: stream.token_usage,
        model_slug: stream.model_slug@,
        ..d
    }
}

/// Completes the decision that a stream's text holds, or reports what is wrong with it.
pub fn finish_decision(
    stream: RequestStreamResult,
    parsed: Result<ParsedCoordinatorDecision, DecisionError>,
) -> (r: Result<ParsedCoordinatorDecision, DecisionFailure>)
    ensures
        match parsed {
            Ok(d) => r matches Ok(out) && out@ == with_stream(d@, stream),
            Err(e) => r matches Err(failure) && failure.error == e && failure.schema_label@
                == DECISION_LABEL@ && opt_text(failure.output_text) == Some(stream.output_text@),
        },
{
    match parsed {
        Ok(decision) => {
            let mut decision = decision;
            decision.response_items = stream.response_items;
            decision.token_usage = stream.token_usage;
            decision.model_slug = stream.model_slug;
            Ok(decision)
        },
        Err(e) => Err(DecisionFailure::new(e, DECISION_LABEL, Some(stream.output_text))),
    }
}

/// Takes what came of a request to answer a user.
pub fn accept_user_stream(result: Result<RequestStreamResult, ErrorChain>) -> (r: Result<
    RequestStreamResult,
    DecisionFailure,
>)
    ensures
        match result {
            Ok(stream) => r == Ok::<_, DecisionFailure>(stream),
            Err(e) => r matches Err(failure) && failure.error == DecisionError::Request(e)
                && failure.schema_label@ == USER_TURN_LABEL@ && failure.output_text is None,
        },
{
    match result {
        Ok(stream) => Ok(stream),
        Err(e) => Err(DecisionFailure::new(DecisionError::Request(e), USER_TURN_LABEL, None)),
    }
}

/// The answer to a user that a stream's text holds, or a report of what is wrong with it.
pub fn finish_user_turn(
    stream: RequestStreamResult,
    reply: Result<(Option<String>, Option<String>), String>,
) -> (r: Result<(Option<String>, Option<String>), DecisionFailure>)
    ensures
        match reply {
            Ok(answer) => r == Ok::<_, DecisionFailure>(answer),
            Err(text) => r matches Err(failure) && failure.error == (DecisionError::UserTurn {
                text,
            }) && failure.schema_label@ == USER_TURN_LABEL@ && opt_text(failure.output_text) == Some(
                stream.output_text@,
            ),
        },
{
    match reply {
        Ok(answer) => Ok(answer),
        Err(text) => Err(
            DecisionFailure::new(
                DecisionError::UserTurn { text },
                USER_TURN_LABEL,
                Some(stream.output_text),
            ),
        ),
    }
}

/// What is told of an attempt that is made again names which one it is, why, in what time, how long
/// it has taken so far, and when it is made, as far as that is known.
pub proof fn law_attempts_are_told(
    status: RetryStatus,
    delay: Option<Seq<char>>,
    elapsed: Seq<char>,
    resume: Option<Seq<char>>,
)
    ensures
        ({
            let words = retry_words(status, delay, elapsed, resume);
            &&& status.is_rate_limit ==> "Rate limit"@.is_prefix_of(words)
            &&& !status.is_rate_limit ==> "Transient error"@.is_prefix_of(words)
            &&& contains(words, "(attempt "@ + decimal(status.attempt as nat) + ")"@)
            &&& contains(words, status.reason@)
            &&& delay matches Some(span) ==> contains(words, "retrying in "@ + span)
            &&& delay is None ==> contains(words, "retrying in 0s"@)
            &&& contains(words, "(elapsed "@ + elapsed + ")"@)
            &&& resume matches Some(at) ==> contains(words, "next attempt at "@ + at)
        }),
{
    let words = retry_words(status, delay, elapsed, resume);
    let kind = if status.is_rate_limit {
        "Rate limit"@
    } else {
        "Transient error"@
    };
    let n = decimal(status.attempt as nat);
    let reason = status.reason@;
    let span = match delay {
        Some(delay) => delay,
        None => "0s"@,
    };
    let end = match resume {
        Some(at) => "; next attempt at "@ + at,
        None => ""@,
    };
    reveal_strlit(" (attempt ");
    reveal_strlit("(attempt ");
    reveal_strlit("): ");
    reveal_strlit(")");
    reveal_strlit("; retrying in ");
    reveal_strlit("retrying in ");
    reveal_strlit("retrying in 0s");
    reveal_strlit("0s");
    reveal_strlit(" (elapsed ");
    reveal_strlit("(elapsed ");
    reveal_strlit("; next attempt at ");
    reveal_strlit("next attempt at ");
    let p1 = kind + " (attempt "@ + n + "): "@ + reason;
    let p2 = p1 + "; retrying in "@ + span;
    let p3 = p2 + " (elapsed "@ + elapsed + ")"@;
    assert(words == p3 + end);
    lemma_stands_at(words, "(attempt "@ + n + ")"@, (kind.len() + 1) as int);
    let front = kind + " (attempt "@ + n + "): "@;
    let tail = "; retrying in "@ + span + " (elapsed "@ + elapsed + ")"@ + end;
    lemma_part_stands(front, reason, tail);
    assert(words =~= front + reason + tail);
    if let Some(span) = delay {
        lemma_stands_at(words, "retrying in "@ + span, (p1.len() + 2) as int);
    } else {
        lemma_stands_at(words, "retrying in 0s"@, (p1.len() + 2) as int);
    }
    lemma_stands_at(words, "(elapsed "@ + elapsed + ")"@, (p2.len() + 1) as int);
    if let Some(at) = resume {
        lemma_stands_at(words, "next attempt at "@ + at, (p3.len() + 2) as int);
    }
}

/// An attempt that lies ahead is told with its time, and one whose time has come is told to be made
/// now.
pub proof fn law_when_attempts_are_made(at: int, now: int, local: Option<Seq<char>>)
    ensures
        at > now ==> resume_words(Some(at), now, local) == local,
        at <= now ==> resume_words(Some(at), now, local) == Some("now"@),
        resume_words(None, now, local) is None,
{
}

/// Nothing came of a stream exactly where its text is blank and it has no items.
pub proof fn law_when_nothing_came(stream: RequestStreamResult)
    ensures
        stream.response_items@.len() > 0 ==> !nothing_came(stream),
        !blank(stream.output_text@) ==> !nothing_came(stream),
        blank(stream.output_text@) && stream.response_items@.len() == 0 ==> nothing_came(stream),
{
}

/// A decision takes the items, the tokens and the model from its stream, and says what it said.
pub proof fn law_decisions_keep_their_stream(d: DecisionView, stream: RequestStreamResult)
    ensures
        ({
            let whole = with_stream(d, stream);
            &&& whole.response_items == stream@.response_items
            &&& whole.token_usage == stream@.token_usage
            &&& whole.model_slug == stream@.model_slug
            &&& whole.status == d.status
            &&& whole.input_required == d.input_required
            &&& whole.status_title == d.status_title
            &&& whole.status_sent_to_user == d.status_sent_to_user
            &&& whole.cli == d.cli
            &&& whole.agents_timing == d.agents_timing
            &&& whole.agents == d.agents
            &&& whole.goal == d.goal
        }),
{
}

/// What came of asking the model is taken as it is, unless the provider does not know the model and
/// there is another to be asked; then that is, and the error is kept.
pub proof fn law_what_is_done_after_asking(
    first: Result<RequestStreamResult, ErrorChain>,
    preferred: &str,
    default_slug: &str,
    r: AttemptOutcome,
)
    requires
        call_ensures(request_decision, (first, preferred, default_slug), r),
    ensures
        first is Ok ==> r == AttemptOutcome::Done(first),
        first matches Err(e) ==> (!model_unknown(e.causes@) ==> r == AttemptOutcome::Done(first)),
        first matches Err(e) ==> (model_unknown(e.causes@) && !same_ignoring_case(
            preferred@,
            default_slug@,
        ) ==> (r matches AttemptOutcome::AskOther { slug, original } && slug@ == default_slug@
            && original == e)),
        r matches AttemptOutcome::AskOther { slug, .. } ==> slug@ != preferred@,
{
    law_which_model_is_asked_instead(preferred@, default_slug@);
}

/// A second model that answers is heard, and one that does not leaves an error that tells of both,
/// with the causes of the second.
pub proof fn law_second_models_are_heard(
    second: Result<RequestStreamResult, ErrorChain>,
    slug: &str,
    original: &ErrorChain,
    r: Result<RequestStreamResult, ErrorChain>,
)
    requires
        call_ensures(request_fallback, (second, slug, original), r),
    ensures
        second matches Ok(stream) ==> r == Ok::<_, ErrorChain>(stream),
        second matches Err(e) ==> (r matches Err(told) && {
            &&& contains(told.text@, slug@)
            &&& contains(told.text@, original.text@)
            &&& told.causes@.len() == e.causes@.len() + 1
            &&& told.causes@.skip(1) == e.causes@
            &&& told.cancelled == e.cancelled
        }),
{
    if let Err(e) = second {
        law_both_errors_are_told(slug@, original.text@);
        assert((seq![Cause::Other] + e.causes@).skip(1) =~= e.causes@);
        let words = fallback_words(slug@, original.text@);
        let a = "coordinator fallback with model '"@;
        let b = "' failed after original error: "@;
        lemma_part_stands(a, slug@, b + original.text@);
        assert(words =~= a + slug@ + (b + original.text@));
    }
}

/// A reply of which something came is taken as it is; one of which nothing came, and a request that
/// failed, are failures to get a decision that keep what is known: the reply, or the error.
pub proof fn law_replies_are_taken(
    result: Result<RequestStreamResult, ErrorChain>,
    r: Result<RequestStreamResult, DecisionFailure>,
)
    requires
        call_ensures(accept_stream, (result,), r),
    ensures
        result matches Ok(stream) ==> (!blank(stream.output_text@) || stream.response_items@.len() > 0
            ==> r == Ok::<_, DecisionFailure>(stream)),
        result matches Ok(stream) ==> (blank(stream.output_text@) && stream.response_items@.len()
            == 0 ==> (r matches Err(failure) && failure.error@ is NoOutput && opt_text(
            failure.output_text,
        ) == Some(stream.output_text@))),
        result matches Err(e) ==> (r matches Err(failure) && failure.error
            == DecisionError::Request(e) && failure.output_text is None),
        r matches Err(failure) ==> failure.schema_label@ == "coordinator_decision"@,
{
}

/// A decision that was read is completed by its stream, and a fault in it is reported with the reply.
pub proof fn law_decisions_are_completed(
    stream: RequestStreamResult,
    parsed: Result<ParsedCoordinatorDecision, DecisionError>,
    r: Result<ParsedCoordinatorDecision, DecisionFailure>,
)
    requires
        call_ensures(finish_decision, (stream, parsed), r),
    ensures
        parsed matches Ok(d) ==> (r matches Ok(whole) && {
            &&& whole@.response_items == items_view(stream.response_items@)
            &&& whole@.token_usage == stream.token_usage
            &&& whole@.model_slug == stream.model_slug@
            &&& whole@.status == d@.status
            &&& whole@.cli == d@.cli
            &&& whole@.agents == d@.agents
            &&& whole@.agents_timing == d@.agents_timing
            &&& whole@.goal == d@.goal
            &&& whole@.status_title == d@.status_title
            &&& whole@.status_sent_to_user == d@.status_sent_to_user
            &&& whole@.input_required == d@.input_required
        }),
        parsed matches Err(e) ==> (r matches Err(failure) && failure.error == e
            && failure.schema_label@ == "coordinator_decision"@ && opt_text(failure.output_text)
            == Some(stream.output_text@)),
{
}

/// An answer to a user is handed on, and what stands in its way is reported: the request, or the
/// reply with its fault.
pub proof fn law_answers_are_taken(
    result: Result<RequestStreamResult, ErrorChain>,
    taken: Result<RequestStreamResult, DecisionFailure>,
    stream: RequestStreamResult,
    reply: Result<(Option<String>, Option<String>), String>,
    answered: Result<(Option<String>, Option<String>), DecisionFailure>,
)
    requires
        call_ensures(accept_user_stream, (result,), taken),
        call_ensures(finish_user_turn, (stream, reply), answered),
    ensures
        result matches Ok(s) ==> taken == Ok::<_, DecisionFailure>(s),
        result matches Err(e) ==> (taken matches Err(failure) && failure.error
            == DecisionError::Request(e) && failure.schema_label@ == "auto_coordinator_user_turn"@
            && failure.output_text is None),
        reply matches Ok(answer) ==> answered == Ok::<_, DecisionFailure>(answer),
        reply matches Err(text) ==> (answered matches Err(failure) && {
            &&& failure.error@.text() == text@
            &&& failure.schema_label@ == "auto_coordinator_user_turn"@
            &&& opt_text(failure.output_text) == Some(stream.output_text@)
        }),
{
}

/// Why attempts came to an end is kept: a cancelled run stays cancelled, a fatal error is handed on,
/// and of attempts that took too long the last error is the cause.
pub proof fn law_ends_of_attempts(error: RetryError, elapsed: &str, r: ErrorChain)
    requires
        call_ensures(retry_failure, (error, elapsed), r),
    ensures
        error is Aborted ==> r.cancelled,
        error matches RetryError::Fatal(e) ==> r == e,
        error matches RetryError::Timeout { last_error } ==> {
            &&& contains(r.text@, elapsed@)
            &&& r.causes@.len() == last_error.causes@.len() + 1
            &&& r.causes@.skip(1) == last_error.causes@
            &&& r.cancelled == last_error.cancelled
        },
{
    if let RetryError::Timeout { last_error } = error {
        let a = "auto coordinator retry window exceeded after "@;
        lemma_part_stands(a, elapsed@, Seq::empty());
        assert(r.text@ =~= a + elapsed@ + Seq::<char>::empty());
        assert((seq![Cause::Other] + last_error.causes@).skip(1) =~= last_error.causes@);
    }
}

/// How long it is until an attempt is made is told exactly where it lies ahead.
pub proof fn law_delays_lie_ahead(resume_at: Option<Instant>, now: Instant, r: Option<Duration>)
    requires
        call_ensures(resume_delay, (resume_at, now), r),
    ensures
        r is Some <==> (resume_at matches Some(at) && now@ < at@),
        resume_at matches Some(at) ==> (now@ < at@ <= now@ + MAX_SPAN_NANOS ==> (
        r matches Some(delay) && now@ + delay@ == at@)),
{
}

} // verus!
