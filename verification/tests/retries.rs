use auto_coordinator::accounts::{
    blocked_until, classify_model_error_with_auto_switch, current_account, plan_account_switch,
    preferred_auth, wants_switch, AuthMode, CurrentAuth, SwitchOutcome,
};
use auto_coordinator::calendar::{choose_reading, parse_reset_time, UtcTime};
use auto_coordinator::errors::{
    find_in_chain, Cause, CodexErr, ErrorChain, IoError, ReqwestError, Status,
};
use auto_coordinator::events::AutoCoordinatorEvent;
use auto_coordinator::fallback::{
    choose_verbosity, effective_effort, effective_model, fallback_model, names_unknown_model,
    plan_fallback, should_retry_with_default_model, supported_text_verbosity_for_model,
    ReasoningEffort, TextVerbosity, MODEL_SLUG,
};
use auto_coordinator::rate_limit::{
    compute_rate_limit_wait, extract_reset_at, extract_seconds, parse_rate_limit_hint,
    rate_limit_wait_at, seconds_fields, wait_for_reset, Moment,
};
use auto_coordinator::request::{
    accept_stream, accept_user_stream, finish_decision, finish_user_turn, request_decision,
    request_fallback, resume_delay, resume_text, retry_failure, retry_message, AttemptOutcome,
    RetryError, RetryStatus,
};
use auto_coordinator::retry::{
    classify_model_error, classify_model_error_at, classify_reqwest_error, RetryDecision,
};
use auto_coordinator::decision::DecisionError;
use auto_coordinator::stream::{RequestStreamResult, StreamState};
use auto_coordinator::time::{Clock, Duration, Instant};

fn at(secs: u64) -> Instant {
    Instant::after_origin(Duration::from_secs(secs))
}

fn moment() -> Moment {
    Moment {
        now: at(1000),
        utc: UtcTime { secs: 1_700_000_000, nanos: 0 },
        jitter: Duration::from_parts(1, 500_000_000),
    }
}

fn status(code: u16) -> Status {
    Status::new(code).expect("three digits")
}

fn chain(text: &str, cause: Cause) -> ErrorChain {
    ErrorChain { text: text.to_string(), causes: vec![cause], cancelled: false }
}

fn codex(err: CodexErr) -> ErrorChain {
    chain("outer words", Cause::Codex(err))
}

fn classify(error: &ErrorChain) -> RetryDecision {
    classify_model_error_at(error, &Vec::new(), moment())
}

fn reason(decision: RetryDecision) -> String {
    match decision {
        RetryDecision::RetryAfterBackoff { reason } => reason,
        other => panic!("expected retry, got {other:?}"),
    }
}

fn fatal(decision: RetryDecision) -> String {
    match decision {
        RetryDecision::Fatal(text) => text,
        other => panic!("expected fatal, got {other:?}"),
    }
}

#[test]
fn retry_limit_marked_retryable_is_retried() {
    let err = CodexErr::RetryLimit { status: status(503), retryable: true };

    match classify_model_error(&codex(err), &Vec::new(), &Clock::start()) {
        RetryDecision::RetryAfterBackoff { reason } => {
            assert!(reason.contains("retry limit"));
        }
        other => panic!("expected retry, got {other:?}"),
    }
}

#[test]
fn quota_exceeded_errors_short_circuit_retries() {
    let err = chain("Quota exceeded. Check your plan.", Cause::Codex(CodexErr::QuotaExceeded));
    match classify_model_error(&err, &Vec::new(), &Clock::start()) {
        RetryDecision::Fatal(e) => {
            assert!(e.contains("Quota exceeded"));
        }
        other => panic!("expected fatal quota decision, got {other:?}"),
    }
}

#[test]
fn status_codes_have_three_digits() {
    assert!(Status::new(99).is_none());
    assert!(Status::new(1000).is_none());
    assert_eq!(status(404).words(), "404 Not Found");
    assert_eq!(status(599).words(), "599 <unknown status code>");
    assert_eq!(status(503).code(), 503);
}

#[test]
fn client_errors_are_classified() {
    assert_eq!(
        reason(classify(&codex(CodexErr::Stream("cut".to_string())))),
        "model stream error: cut"
    );
    assert_eq!(reason(classify(&codex(CodexErr::Timeout))), "model request timed out");
    assert_eq!(reason(classify(&codex(CodexErr::ServerError))), "outer words");
    assert_eq!(fatal(classify(&codex(CodexErr::UsageNotIncluded))), "outer words");
    assert_eq!(fatal(classify(&codex(CodexErr::AuthRefreshPermanent))), "outer words");
    assert_eq!(
        reason(classify(&codex(CodexErr::RetryLimit { status: status(503), retryable: true }))),
        "retry limit exceeded (status 503 Service Unavailable), treating as transient"
    );
    assert_eq!(
        fatal(classify(&codex(CodexErr::RetryLimit { status: status(401), retryable: false }))),
        "retry limit exceeded (status 401 Unauthorized)"
    );
    assert_eq!(
        reason(classify(&codex(CodexErr::Io(IoError { timed_out: true })))),
        "network timeout"
    );
    assert_eq!(fatal(classify(&codex(CodexErr::Io(IoError { timed_out: false })))), "outer words");
    assert_eq!(fatal(classify(&codex(CodexErr::Other))), "outer words");
    assert_eq!(fatal(classify(&chain("plain", Cause::Other))), "plain");
    assert_eq!(
        reason(classify(&chain("x", Cause::Io(IoError { timed_out: true })))),
        "network timeout"
    );
}

#[test]
fn unexpected_statuses_are_classified() {
    let with = |code: u16| {
        classify(&codex(CodexErr::UnexpectedStatus {
            status: status(code),
            body: "not json".to_string(),
        }))
    };
    assert_eq!(reason(with(408)), "provider returned 408 Request Timeout");
    assert_eq!(reason(with(499)), "client closed request (499)");
    assert_eq!(reason(with(429)), "rate limited (429)");
    assert_eq!(fatal(with(404)), "outer words");
    assert_eq!(reason(with(500)), "server error 500 Internal Server Error");
    assert_eq!(fatal(with(302)), "outer words");
}

#[test]
fn http_client_errors_are_classified() {
    let plain = ReqwestError {
        is_timeout: false,
        is_connect: false,
        is_request: false,
        status: None,
        text: "boom".to_string(),
    };
    let timeout = ReqwestError { is_timeout: true, ..plain.clone() };
    assert_eq!(reason(classify_reqwest_error(&timeout)), "network error: boom");
    let request = ReqwestError { is_request: true, ..plain.clone() };
    assert_eq!(reason(classify_reqwest_error(&request)), "network error: boom");
    let answered = ReqwestError { is_request: true, status: Some(status(400)), ..plain.clone() };
    assert_eq!(fatal(classify_reqwest_error(&answered)), "boom");
    let coded = |code: u16| {
        classify_reqwest_error(&ReqwestError { status: Some(status(code)), ..plain.clone() })
    };
    assert_eq!(reason(coded(429)), "rate limited (429)");
    assert_eq!(reason(coded(408)), "provider returned 408 Request Timeout");
    assert_eq!(reason(coded(499)), "client closed request (499)");
    assert_eq!(reason(coded(502)), "server error 502 Bad Gateway");
    assert_eq!(fatal(coded(301)), "boom");
    assert_eq!(fatal(classify_reqwest_error(&plain)), "boom");
    assert_eq!(
        reason(classify(&chain("x", Cause::Reqwest(timeout.clone())))),
        "network error: boom"
    );
    assert_eq!(reason(classify(&codex(CodexErr::Reqwest(timeout)))), "network error: boom");
}

#[test]
fn usage_limits_are_waited_for() {
    match classify(&codex(CodexErr::UsageLimitReached { resets_in_seconds: Some(60) })) {
        RetryDecision::RateLimited { wait_until, reason } => {
            assert_eq!(wait_until, Instant::after_origin(Duration::from_parts(1066, 500_000_000)));
            assert_eq!(reason, "usage limit reached");
        }
        other => panic!("expected a wait, got {other:?}"),
    }
    assert_eq!(
        reason(classify(&codex(CodexErr::UsageLimitReached { resets_in_seconds: None }))),
        "usage limit reached"
    );
}

#[test]
fn a_wait_has_a_margin() {
    assert_eq!(
        rate_limit_wait_at(Duration::from_secs(10), moment()),
        Instant::after_origin(Duration::from_parts(1016, 500_000_000))
    );
    assert_eq!(
        rate_limit_wait_at(Duration::from_secs(25), moment())
            .saturating_duration_since(rate_limit_wait_at(Duration::from_secs(10), moment())),
        Duration::from_secs(15)
    );
    let clock = Clock::start();
    let until = compute_rate_limit_wait(Duration::from_secs(10), &clock);
    let wait = until.saturating_duration_since(clock.now()).as_nanos();
    assert!(wait <= 18_000_000_000);
    assert!(wait > 5_000_000_000);
}

#[test]
fn seconds_are_found_in_replies() {
    let fields = seconds_fields("{\"error\": {\"reset_in_seconds\": 12.5, \"x-ratelimit-reset\": \"7\"}}")
        .expect("JSON");
    assert_eq!(
        fields,
        vec![None, Some("12.5".to_string()), None, Some("7".to_string()), None]
    );
    let fields = seconds_fields("{\"reset_seconds\": null}").expect("JSON");
    assert_eq!(fields[0].as_deref(), Some("null"));
    assert!(seconds_fields("oops").is_none());
}

#[test]
fn the_first_reading_counts() {
    let some = |secs: u64| Some(Duration::from_secs(secs));
    assert_eq!(extract_seconds(&vec![None, some(3), some(4)]), some(3));
    assert_eq!(extract_seconds(&vec![None, None]), None);
    assert_eq!(extract_seconds(&Vec::new()), None);
}

#[test]
fn hints_name_seconds_or_an_end() {
    let readings = vec![None, Some(Duration::from_secs(20)), None, None, None];
    let until = parse_rate_limit_hint("{\"reset_in_seconds\": 20}", &readings, moment());
    assert_eq!(until, Some(Instant::after_origin(Duration::from_parts(1026, 500_000_000))));

    let none = vec![None, None, None, None, None];
    let body = "{\"error\": {\"reset_at\": \"2023-11-14T22:13:50Z\"}}";
    let until = parse_rate_limit_hint(body, &none, moment());
    assert_eq!(until, Some(Instant::after_origin(Duration::from_parts(1036, 500_000_000))));

    let passed = "{\"reset_at\": \"2001-01-01T00:00:00+00:00\"}";
    let until = parse_rate_limit_hint(passed, &none, moment());
    assert_eq!(until, Some(Instant::after_origin(Duration::from_parts(1006, 500_000_000))));

    assert_eq!(parse_rate_limit_hint("{\"reset_at\": \"soon\"}", &none, moment()), None);
    assert_eq!(parse_rate_limit_hint("{\"reset_at\": 5}", &none, moment()), None);
    assert_eq!(parse_rate_limit_hint("{}", &none, moment()), None);
    assert_eq!(parse_rate_limit_hint("no json", &readings, moment()), None);
}

#[test]
fn limited_requests_wait_for_the_reset() {
    let err = codex(CodexErr::UnexpectedStatus {
        status: status(429),
        body: "{\"error\": {\"reset_at\": \"2023-11-14T22:14:20Z\"}}".to_string(),
    });
    match classify(&err) {
        RetryDecision::RateLimited { wait_until, reason } => {
            assert_eq!(wait_until, Instant::after_origin(Duration::from_parts(1066, 500_000_000)));
            assert_eq!(reason, "rate limited; waiting for reset");
        }
        other => panic!("expected a wait, got {other:?}"),
    }
}

#[test]
fn reset_times_are_read() {
    let expected = UtcTime { secs: 1_700_000_000, nanos: 250_000_000 };
    assert_eq!(parse_reset_time("2023-11-14T22:13:20.25Z"), Some(expected));
    assert_eq!(parse_reset_time("2023-11-15T00:13:20.25+02:00"), Some(expected));
    assert_eq!(parse_reset_time("2023-11-14 22:13:20.25 UTC"), Some(expected));
    assert_eq!(parse_reset_time("yesterday"), None);
    assert_eq!(choose_reading(Some((1, 2)), Some((3, 4))), Some(UtcTime { secs: 1, nanos: 2 }));
    assert_eq!(choose_reading(None, Some((3, 4))), Some(UtcTime { secs: 3, nanos: 4 }));
    assert_eq!(choose_reading(None, None), None);
    assert!(extract_reset_at("{\"reset_at\":\"2023-11-14T22:13:20Z\"}", moment()).is_some());
    assert!(extract_reset_at("{}", moment()).is_none());
}

#[test]
fn times_lie_apart() {
    let early = UtcTime { secs: 100, nanos: 900_000_000 };
    let late = UtcTime { secs: 102, nanos: 100_000_000 };
    assert_eq!(late.until(early), Duration::from_parts(1, 200_000_000));
    assert_eq!(early.until(late), Duration::from_secs(0));
    assert_eq!(early.plus_seconds(-200), UtcTime { secs: -100, nanos: 900_000_000 });
    assert!(UtcTime::now().secs > 1_600_000_000);
    assert_eq!(wait_for_reset(early, moment()), rate_limit_wait_at(Duration::from_secs(0), moment()));
}

#[test]
fn causes_are_found_behind_context() {
    let inner = codex(CodexErr::Timeout);
    let outer = inner.clone().with_context("while asking".to_string());
    assert_eq!(outer.text, "while asking");
    assert!(matches!(find_in_chain::<CodexErr>(&outer), Some(CodexErr::Timeout)));
    assert!(find_in_chain::<IoError>(&outer).is_none());
    assert_eq!(reason(classify(&outer)), "model request timed out");
    assert_eq!(ErrorChain::message("m".to_string()).causes.len(), 1);
}

fn limit() -> ErrorChain {
    codex(CodexErr::UsageLimitReached { resets_in_seconds: Some(30) })
}

#[test]
fn accounts_are_switched_only_on_usage_limits() {
    assert!(wants_switch(&limit(), true, false));
    assert!(!wants_switch(&limit(), false, false));
    assert!(!wants_switch(&limit(), true, true));
    assert!(!wants_switch(&codex(CodexErr::Timeout), true, false));
    assert_eq!(preferred_auth(true), AuthMode::ChatGPT);
    assert_eq!(preferred_auth(false), AuthMode::ApiKey);
}

#[test]
fn the_current_account_is_known_from_the_sign_in_or_the_store() {
    let signed = Some(CurrentAuth { account_id: Some("a".to_string()), mode: AuthMode::ChatGPT });
    let nameless = Some(CurrentAuth { account_id: None, mode: AuthMode::ApiKey });
    assert_eq!(current_account(&signed, Some("b".to_string())).as_deref(), Some("a"));
    assert_eq!(current_account(&nameless, Some("b".to_string())).as_deref(), Some("b"));
    assert_eq!(current_account(&None, None), None);

    let now = UtcTime { secs: 1000, nanos: 7 };
    let plan = plan_account_switch(&limit(), Some("a".to_string()), &signed, None, now).unwrap();
    assert_eq!(plan.account_id, "a");
    assert_eq!(plan.mode, AuthMode::ChatGPT);
    assert_eq!(plan.blocked_until, Some(UtcTime { secs: 1030, nanos: 7 }));
    assert_eq!(blocked_until(None, now), None);
    let stored =
        plan_account_switch(&limit(), Some("a".to_string()), &None, Some(AuthMode::ApiKey), now);
    assert_eq!(stored.unwrap().mode, AuthMode::ApiKey);
    assert!(plan_account_switch(&limit(), Some("a".to_string()), &None, None, now).is_none());
    assert!(plan_account_switch(&limit(), None, &signed, None, now).is_none());
}

#[test]
fn a_switched_account_is_used_at_once() {
    let outcome = SwitchOutcome::Switched {
        account_id: "id".to_string(),
        label: Some("Work".to_string()),
    };
    let (event, decision) =
        classify_model_error_with_auto_switch(&limit(), Some(outcome), &Vec::new(), moment());
    assert!(matches!(
        event,
        Some(AutoCoordinatorEvent::Action { message })
            if message == "Auto-switch: now using Work due to usage limit."
    ));
    match decision {
        RetryDecision::RateLimited { wait_until, reason } => {
            assert_eq!(wait_until, at(1000));
            assert_eq!(reason, "usage limit reached; switched accounts");
        }
        other => panic!("expected a retry at once, got {other:?}"),
    }
    let unnamed = SwitchOutcome::Switched { account_id: "id".to_string(), label: None };
    let (event, _) =
        classify_model_error_with_auto_switch(&limit(), Some(unnamed), &Vec::new(), moment());
    assert!(matches!(
        event,
        Some(AutoCoordinatorEvent::Action { message })
            if message == "Auto-switch: now using id due to usage limit."
    ));
    for outcome in [None, Some(SwitchOutcome::Unchanged), Some(SwitchOutcome::Failed)] {
        let (event, decision) =
            classify_model_error_with_auto_switch(&limit(), outcome, &Vec::new(), moment());
        assert!(event.is_none());
        assert!(matches!(decision, RetryDecision::RateLimited { reason, .. } if reason == "usage limit reached"));
    }
}

fn unknown_model(code: u16, body: &str) -> ErrorChain {
    codex(CodexErr::UnexpectedStatus { status: status(code), body: body.to_string() })
}

#[test]
fn unknown_models_are_recognized() {
    assert!(should_retry_with_default_model(&unknown_model(400, "Unknown Model: x")));
    assert!(should_retry_with_default_model(&unknown_model(404, "{\"code\":\"MODEL_NOT_FOUND\"}")));
    assert!(should_retry_with_default_model(&unknown_model(404, "Model does not exist")));
    assert!(should_retry_with_default_model(&unknown_model(422, "Invalid model")));
    // The Kelvin sign has an ordinary small letter.
    assert!(should_retry_with_default_model(&unknown_model(400, "un\u{212a}nown model")));
    assert!(!should_retry_with_default_model(&unknown_model(500, "unknown model")));
    assert!(!should_retry_with_default_model(&unknown_model(400, "bad request")));
    assert!(!names_unknown_model("Unknown Model"));
}

#[test]
fn another_model_is_asked_in_place_of_an_unknown_one() {
    let err = unknown_model(400, "unknown model");
    assert_eq!(plan_fallback("fancy", "configured", &err).as_deref(), Some("configured"));
    assert_eq!(plan_fallback("Fancy", "fancy", &err).as_deref(), Some(MODEL_SLUG));
    assert_eq!(plan_fallback(MODEL_SLUG, MODEL_SLUG, &err), None);
    assert_eq!(plan_fallback("fancy", "configured", &codex(CodexErr::Timeout)), None);
    assert_eq!(fallback_model("a", "b", false), None);
    match request_decision(Err(err.clone()), "fancy", "configured") {
        AttemptOutcome::AskOther { slug, original } => {
            let second = request_fallback(Err(codex(CodexErr::Timeout)), &slug, &original);
            let told = second.unwrap_err();
            assert_eq!(
                told.text,
                "coordinator fallback with model 'configured' failed after original error: outer words"
            );
            assert_eq!(told.causes.len(), 2);
        }
        AttemptOutcome::Done(_) => panic!("another model should be asked"),
    }
    assert!(matches!(
        request_decision(Err(codex(CodexErr::Timeout)), "a", "b"),
        AttemptOutcome::Done(Err(_))
    ));
}

#[test]
fn settings_are_completed() {
    assert_eq!(effective_model("  ".to_string()), "gpt-5.1");
    assert_eq!(effective_model(" x ".to_string()), " x ");
    assert_eq!(effective_effort(ReasoningEffort::Unset), ReasoningEffort::High);
    assert_eq!(effective_effort(ReasoningEffort::Low), ReasoningEffort::Low);
    assert_eq!(
        supported_text_verbosity_for_model("GPT-5.1-Codex-Max"),
        vec![TextVerbosity::Medium]
    );
    assert_eq!(
        supported_text_verbosity_for_model("gpt-5.1"),
        vec![TextVerbosity::Low, TextVerbosity::Medium, TextVerbosity::High]
    );
    assert_eq!(choose_verbosity(&vec![TextVerbosity::High]), TextVerbosity::High);
    assert_eq!(choose_verbosity(&Vec::new()), TextVerbosity::Medium);
    assert_eq!(
        choose_verbosity(&supported_text_verbosity_for_model("any")),
        TextVerbosity::Medium
    );
}

#[test]
fn retries_are_announced() {
    let status = RetryStatus { attempt: 12, is_rate_limit: true, reason: "busy".to_string() };
    assert_eq!(
        retry_message(&status, Some("3s".to_string()), "1m", Some("now".to_string())),
        "Rate limit (attempt 12): busy; retrying in 3s (elapsed 1m); next attempt at now"
    );
    let status = RetryStatus { is_rate_limit: false, ..status };
    assert_eq!(
        retry_message(&status, None, "1m", None),
        "Transient error (attempt 12): busy; retrying in 0s (elapsed 1m)"
    );
    assert_eq!(resume_text(Some(at(5)), at(5), None).as_deref(), Some("now"));
    let local = Some("12:00".to_string());
    assert_eq!(resume_text(Some(at(6)), at(5), local.clone()), local);
    assert_eq!(resume_text(None, at(5), local), None);
    assert_eq!(resume_delay(Some(at(8)), at(5)), Some(Duration::from_secs(3)));
    assert_eq!(resume_delay(Some(at(5)), at(5)), None);
}

#[test]
fn retries_come_to_an_end() {
    let aborted = retry_failure(RetryError::Aborted, "1s");
    assert!(aborted.cancelled);
    assert_eq!(aborted.text, "auto coordinator cancelled");
    let fatal = retry_failure(RetryError::Fatal(codex(CodexErr::Other)), "1s");
    assert_eq!(fatal.text, "outer words");
    let timeout = retry_failure(
        RetryError::Timeout { last_error: codex(CodexErr::Timeout) },
        "2m",
    );
    assert_eq!(timeout.text, "auto coordinator retry window exceeded after 2m");
    assert!(find_in_chain::<CodexErr>(&timeout).is_some());
}

fn stream(output: &str) -> RequestStreamResult {
    let mut result = StreamState::new().finish("m");
    result.output_text = output.to_string();
    result
}

#[test]
fn empty_streams_are_failures() {
    let failure = accept_stream(Ok(stream(" \n"))).unwrap_err();
    assert!(matches!(failure.error, DecisionError::NoOutput));
    assert_eq!(
        failure.error.to_text(),
        "coordinator stream ended without producing output (possible transient error)"
    );
    assert_eq!(failure.schema_label, "coordinator_decision");
    assert_eq!(failure.output_text.as_deref(), Some(" \n"));
    assert!(accept_stream(Ok(stream("x"))).is_ok());
    let failure = accept_stream(Err(codex(CodexErr::Timeout))).unwrap_err();
    assert_eq!(failure.error.to_text(), "outer words");
    assert!(failure.output_text.is_none());
    let failure = finish_decision(stream("raw"), Err(DecisionError::NotJson)).unwrap_err();
    assert_eq!(failure.output_text.as_deref(), Some("raw"));
}

#[test]
fn user_turns_have_their_own_label() {
    let failure = accept_user_stream(Err(codex(CodexErr::Timeout))).unwrap_err();
    assert_eq!(failure.schema_label, "auto_coordinator_user_turn");
    assert!(accept_user_stream(Ok(stream(""))).is_ok());
    let failure = finish_user_turn(stream("raw"), Err("bad form".to_string())).unwrap_err();
    assert_eq!(failure.error.to_text(), "bad form");
    let answer = finish_user_turn(stream("raw"), Ok((Some("hi".to_string()), None))).unwrap();
    assert_eq!(answer.0.as_deref(), Some("hi"));
}
