use auto_coordinator::budget::{
    next_budget_nudge_interval, nudge_message, retry_max_elapsed, retry_max_elapsed_at,
    AutoTimeBudget, MAX_RETRY_ELAPSED_SECS,
};
use auto_coordinator::time::{random_jitter, Clock, Duration, Instant};

fn at(secs: u64) -> Instant {
    Instant::after_origin(Duration::from_secs(secs))
}

#[test]
fn retry_max_elapsed_defaults_to_global_limit() {
    let clock = Clock::start();
    assert_eq!(retry_max_elapsed(None, &clock), Duration::from_secs(MAX_RETRY_ELAPSED_SECS));
}

#[test]
fn retry_max_elapsed_zero_when_deadline_has_passed() {
    let clock = Clock::start();
    let deadline = clock.now();
    assert_eq!(retry_max_elapsed(Some(deadline), &clock), Duration::from_secs(0));
}

#[test]
fn the_retry_limit_is_a_week() {
    assert_eq!(MAX_RETRY_ELAPSED_SECS, 7 * 24 * 60 * 60);
    assert_eq!(
        retry_max_elapsed_at(Some(at(2_000_000)), at(0)),
        Duration::from_secs(MAX_RETRY_ELAPSED_SECS)
    );
}

#[test]
fn the_retry_window_ends_before_the_deadline() {
    assert_eq!(retry_max_elapsed_at(Some(at(100)), at(40)), Duration::from_secs(55));
    assert_eq!(retry_max_elapsed_at(Some(at(100)), at(96)), Duration::from_secs(0));
    assert_eq!(retry_max_elapsed_at(Some(at(100)), at(200)), Duration::from_secs(0));
}

#[test]
fn reminders_come_more_often_towards_the_end() {
    let interval = |secs: u64| next_budget_nudge_interval(Duration::from_secs(secs)).as_secs();
    assert_eq!(interval(1800), 300);
    assert_eq!(interval(1799), 120);
    assert_eq!(interval(600), 120);
    assert_eq!(interval(300), 60);
    assert_eq!(interval(120), 30);
    assert_eq!(interval(60), 15);
    assert_eq!(interval(30), 10);
    assert_eq!(interval(10), 5);
    assert_eq!(interval(9), 2);
    assert_eq!(interval(0), 2);
}

#[test]
fn the_first_reminder_is_due_at_half_time() {
    let mut budget = AutoTimeBudget::new(at(1000), Duration::from_secs(600));
    assert_eq!(budget.next_nudge_at, at(700));
    assert!(budget.maybe_nudge_at(at(699)).is_none());
    let nudge = budget.maybe_nudge_at(at(700)).expect("half of the time is over");
    assert_eq!(nudge.elapsed, Duration::from_secs(300));
    assert_eq!(nudge.remaining, Duration::from_secs(300));
    assert!(nudge.guidance.starts_with("Past 50% of the time budget"));
    assert_eq!(budget.next_nudge_at, at(760));
    assert!(budget.maybe_nudge_at(at(759)).is_none());
    let nudge = budget.maybe_nudge_at(at(900)).unwrap();
    assert!(nudge.guidance.starts_with("Time is tight"));
    let nudge = budget.maybe_nudge_at(at(990)).unwrap();
    assert!(nudge.guidance.starts_with("Time is nearly up"));
    assert_eq!(
        nudge_message(&nudge, "10m", "9m 50s", "10s"),
        "Time budget update: total=10m elapsed=9m 50s remaining=10s. Time is nearly up: stop exploring; take the simplest safe path and do one cheap verification before finishing."
    );
}

#[test]
fn a_deadline_far_ahead_postpones_the_first_reminder() {
    let mut budget = AutoTimeBudget::new(at(1000), Duration::from_secs(100));
    budget.next_nudge_at = at(0);
    assert!(budget.maybe_nudge_at(at(10)).is_none());
    assert_eq!(budget.next_nudge_at, at(950));
}

#[test]
fn reminders_follow_the_clock() {
    let clock = Clock::start();
    let mut budget = AutoTimeBudget::new(clock.now(), Duration::from_secs(0));
    assert!(budget.maybe_nudge(&clock).is_some());
    let mut early = AutoTimeBudget::new(at(100_000), Duration::from_secs(100));
    assert!(early.maybe_nudge(&clock).is_none());
}

#[test]
fn a_run_without_limit_has_no_budget() {
    assert!(AutoTimeBudget::for_run(None, Some(at(5)), at(0)).is_none());
    let budget = AutoTimeBudget::for_run(Some(60), None, at(40)).unwrap();
    assert_eq!(budget.deadline, at(100));
    assert_eq!(budget.next_nudge_at, at(70));
    let budget = AutoTimeBudget::for_run(Some(60), Some(at(50)), at(40)).unwrap();
    assert_eq!(budget.deadline, at(50));
}

#[test]
fn the_clock_runs_forward() {
    let clock = Clock::start();
    let first = clock.now();
    let mut later = clock.now();
    while !first.before(later) {
        later = clock.now();
    }
    assert!(later.saturating_duration_since(first).as_nanos() > 0);
    assert!(first.saturating_duration_since(later).is_zero());
}

#[test]
fn jitter_stays_below_its_limit() {
    assert!(random_jitter(Duration::from_secs(0)).is_zero());
    let mut seen = Vec::new();
    for _ in 0..200 {
        let jitter = random_jitter(Duration::from_secs(3));
        assert!(jitter.as_nanos() < 3_000_000_000);
        seen.push(jitter.as_nanos());
    }
    seen.sort();
    assert!(seen[0] != seen[199]);
}
