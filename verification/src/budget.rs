//! How a run spends the time that it was given.
use crate::text::{contains, lemma_part_stands, lemma_stands_at};
use crate::time::{seconds, span_between, Clock, Duration, Instant, INSTANT_LIMIT, MAX_SPAN_NANOS};
use vstd::prelude::*;
use vstd::string::*;

verus! {

/// Seconds kept in reserve before a deadline and after a rate limit.
pub const RATE_LIMIT_BUFFER_SECS: u64 = 5;

/// Upper end, in seconds, of the span that chance adds to a rate limit.
pub const RATE_LIMIT_JITTER_MAX_SECS: u64 = 3;

/// Seconds for which a request may be retried at most: seven days.
pub const MAX_RETRY_ELAPSED_SECS: u64 = 604_800;

/// How long a request may be retried when it is `now` and the run ends at `deadline`: until
/// the reserve before the deadline begins, and never beyond the general limit.
pub open spec fn retry_window(deadline: Option<int>, now: int) -> int {
    let limit = seconds(MAX_RETRY_ELAPSED_SECS as int);
    match deadline {
        None => limit,
        Some(deadline) => {
            let usable = span_between(now, deadline) - seconds(RATE_LIMIT_BUFFER_SECS as int);
            if usable < 0 {
                0
            } else if usable < limit {
                usable
            } else {
                limit
            }
        },
    }
}

/// The place of an optional point of time on the clock.
pub open spec fn opt_place(t: Option<Instant>) -> Option<int> {
    match t {
        Some(t) => Some(t@),
        None => None,
    }
}

/// How long a request may still be retried, seen from `now`.
pub fn retry_max_elapsed_at(deadline: Option<Instant>, now: Instant) -> (r: Duration)
    ensures
        r@ == retry_window(opt_place(deadline), now@),
{
    let limit = Duration::from_secs(MAX_RETRY_ELAPSED_SECS);
    match deadline {
        None => limit,
        Some(deadline) => {
            let remaining = deadline.saturating_duration_since(now);
            let usable = remaining.saturating_sub(Duration::from_secs(RATE_LIMIT_BUFFER_SECS));
            usable.shorter(limit)
        },
    }
}

/// How long a request may still be retried.
pub fn retry_max_elapsed(deadline: Option<Instant>, clock: &Clock) -> (r: Duration)
    ensures
        exists|now: int|
            0 <= now <= MAX_SPAN_NANOS && r@ == #[trigger] retry_window(opt_place(deadline), now),
        deadline is None ==> r@ == seconds(MAX_RETRY_ELAPSED_SECS as int),
{
    let now = clock.now();
    retry_max_elapsed_at(deadline, now)
}

/// The time to retry shrinks as the deadline draws near, never exceeds seven days, and is
/// nothing once the reserve has begun.
pub proof fn law_retry_window_shrinks(deadline: int, earlier: int, later: int)
    requires
        earlier <= later,
    ensures
        retry_window(Some(deadline), later) <= retry_window(Some(deadline), earlier),
        retry_window(Some(deadline), earlier) <= retry_window(None, earlier),
        deadline <= later + seconds(RATE_LIMIT_BUFFER_SECS as int) ==> retry_window(
            Some(deadline),
            later,
        ) == 0,
{
}

/// The pause between two reminders when `remaining` nanoseconds are left.
pub open spec fn nudge_interval(remaining: int) -> int {
    if remaining >= seconds(1800) {
        seconds(300)
    } else if remaining >= seconds(600) {
        seconds(120)
    } else if remaining >= seconds(300) {
        seconds(60)
    } else if remaining >= seconds(120) {
        seconds(30)
    } else if remaining >= seconds(60) {
        seconds(15)
    } else if remaining >= seconds(30) {
        seconds(10)
    } else if remaining >= seconds(10) {
        seconds(5)
    } else {
        seconds(2)
    }
}

/// The pause before the next reminder.
pub fn next_budget_nudge_interval(remaining: Duration) -> (r: Duration)
    ensures
        r@ == nudge_interval(remaining@ as int),
{
    if Duration::from_secs(1800).at_most(remaining) {
        Duration::from_secs(300)
    } else if Duration::from_secs(600).at_most(remaining) {
        Duration::from_secs(120)
    } else if Duration::from_secs(300).at_most(remaining) {
        Duration::from_secs(60)
    } else if Duration::from_secs(120).at_most(remaining) {
        Duration::from_secs(30)
    } else if Duration::from_secs(60).at_most(remaining) {
        Duration::from_secs(15)
    } else if Duration::from_secs(30).at_most(remaining) {
        Duration::from_secs(10)
    } else if Duration::from_secs(10).at_most(remaining) {
        Duration::from_secs(5)
    } else {
        Duration::from_secs(2)
    }
}

/// The less time is left, the shorter the pause; it lies between two seconds and five minutes.
pub proof fn law_nudge_interval_monotone(less: int, more: int)
    requires
        less <= more,
    ensures
        nudge_interval(less) <= nudge_interval(more),
        seconds(2) <= nudge_interval(less),
        nudge_interval(more) <= seconds(300),
{
}

/// The time that a run was given.
#[derive(Debug, Clone, Copy)]
pub struct AutoTimeBudget {
    /// When the run ends.
    pub deadline: Instant,
    /// How long the run may take in all.
    pub total: Duration,
    /// When the coordinator is next reminded of the time.
    pub next_nudge_at: Instant,
}

/// A reminder of the time.
#[derive(Debug, Clone)]
pub struct BudgetNudge {
    pub total: Duration,
    pub elapsed: Duration,
    pub remaining: Duration,
    pub guidance: String,
}

/// The advice that goes with a reminder when `remaining` nanoseconds are left.
pub open spec fn nudge_guidance(remaining: int) -> Seq<char> {
    if remaining <= seconds(30) {
        "Time is nearly up: stop exploring; take the simplest safe path and do one cheap verification before finishing."@
    } else if remaining <= seconds(120) {
        "Time is tight: parallelize any remaining scouting/verification (agents or tool-call batching) and finish with the cheapest proof."@
    } else {
        "Past 50% of the time budget: start converging; parallelize remaining scouting/verification and avoid detours."@
    }
}

/// The point at which half of `total` is left before `deadline`; the deadline itself where
/// that point cannot be expressed.
pub open spec fn halfway(deadline: int, total: nat) -> int {
    if deadline - total / 2 < -INSTANT_LIMIT {
        deadline
    } else {
        deadline - total / 2
    }
}

impl AutoTimeBudget {
    /// What is left of the budget at `now`.
    pub open spec fn remaining(&self, now: int) -> int {
        span_between(now, self.deadline@)
    }

    /// What has been spent of the budget at `now`.
    pub open spec fn elapsed(&self, now: int) -> int {
        if self.total@ >= self.remaining(now) {
            self.total@ - self.remaining(now)
        } else {
            0
        }
    }

    /// A reminder is owed at `now`: its time has come and half of the budget is spent.
    pub open spec fn nudge_due(&self, now: int) -> bool {
        now >= self.next_nudge_at@ && self.elapsed(now) >= self.total@ / 2
    }

    /// When the next reminder comes, once the budget was looked at at `now`.
    pub open spec fn nudge_after(&self, now: int) -> int {
        if now < self.next_nudge_at@ {
            self.next_nudge_at@
        } else if self.nudge_due(now) {
            now + nudge_interval(self.remaining(now))
        } else {
            halfway(self.deadline@, self.total@)
        }
    }

    /// What comes of looking at the budget at `now`: the budget then, and the reminder, if one is owed.
    pub open spec fn reminded(&self, now: int, after: AutoTimeBudget, r: Option<BudgetNudge>) -> bool {
        &&& after.deadline == self.deadline
        &&& after.total == self.total
        &&& after.next_nudge_at@ == self.nudge_after(now)
        &&& r is Some <==> self.nudge_due(now)
        &&& r matches Some(nudge) ==> {
            &&& nudge.total == self.total
            &&& nudge.elapsed@ == self.elapsed(now)
            &&& nudge.remaining@ == self.remaining(now)
            &&& nudge.guidance@ == nudge_guidance(self.remaining(now))
        }
    }

    /// A budget whose first reminder comes when half of the time is left.
    pub fn new(deadline: Instant, total: Duration) -> (r: Self)
        ensures
            r.deadline == deadline,
            r.total == total,
            r.next_nudge_at@ == halfway(deadline@, total@),
    {
        let next_nudge_at = match deadline.checked_sub(total.half()) {
            Some(t) => t,
            None => deadline,
        };
        AutoTimeBudget { deadline, total, next_nudge_at }
    }

    /// The time of a run that is limited to a number of seconds, if it is: until its deadline, or
    /// else from now on.
    pub fn for_run(max_run_seconds: Option<u64>, deadline: Option<Instant>, now: Instant) -> (r:
        Option<Self>)
        requires
            max_run_seconds matches Some(secs) ==> deadline is None ==> now@ + seconds(secs as int)
                <= INSTANT_LIMIT,
        ensures
            r is Some <==> max_run_seconds is Some,
            r matches Some(budget) ==> {
                let total = seconds(max_run_seconds.unwrap() as int);
                &&& budget.total@ == total
                &&& budget.deadline@ == match deadline {
                    Some(deadline) => deadline@,
                    None => now@ + total,
                }
                &&& budget.next_nudge_at@ == halfway(budget.deadline@, budget.total@)
            },
    {
        match max_run_seconds {
            Some(secs) => {
                let total = Duration::from_secs(secs);
                let deadline = match deadline {
                    Some(deadline) => deadline,
                    None => now.plus(total),
                };
                Some(AutoTimeBudget::new(deadline, total))
            },
            None => None,
        }
    }

    /// The reminder that is owed at `now`, if any; then the time of the next one is set.
    pub fn maybe_nudge_at(&mut self, now: Instant) -> (r: Option<BudgetNudge>)
        requires
            now@ + seconds(300) <= INSTANT_LIMIT,
        ensures
            old(self).reminded(now@, *final(self), r),
            final(self).deadline == old(self).deadline,
            final(self).total == old(self).total,
            final(self).next_nudge_at@ == old(self).nudge_after(now@),
            r is Some <==> old(self).nudge_due(now@),
            r matches Some(nudge) ==> {
                &&& nudge.total == old(self).total
                &&& nudge.elapsed@ == old(self).elapsed(now@)
                &&& nudge.remaining@ == old(self).remaining(now@)
                &&& nudge.guidance@ == nudge_guidance(old(self).remaining(now@))
            },
    {
        if now.before(self.next_nudge_at) {
            return None;
        }
        let remaining = self.deadline.saturating_duration_since(now);
        let elapsed = self.total.saturating_sub(remaining);
        let half = self.total.half();
        if !half.at_most(elapsed) {
            self.next_nudge_at = match self.deadline.checked_sub(half) {
                Some(t) => t,
                None => self.deadline,
            };
            return None;
        }
        let guidance = if remaining.at_most(Duration::from_secs(30)) {
            "Time is nearly up: stop exploring; take the simplest safe path and do one cheap verification before finishing."
        } else if remaining.at_most(Duration::from_secs(120)) {
            "Time is tight: parallelize any remaining scouting/verification (agents or tool-call batching) and finish with the cheapest proof."
        } else {
            "Past 50% of the time budget: start converging; parallelize remaining scouting/verification and avoid detours."
        };
        proof {
            law_nudge_interval_monotone(remaining@ as int, remaining@ as int);
        }
        self.next_nudge_at = now.plus(next_budget_nudge_interval(remaining));
        Some(BudgetNudge { total: self.total, elapsed, remaining, guidance: guidance.to_owned() })
    }

    /// The reminder that is owed now, if any; then the time of the next one is set.
    pub fn maybe_nudge(&mut self, clock: &Clock) -> (r: Option<BudgetNudge>)
        ensures
            exists|now: int|
                0 <= now <= MAX_SPAN_NANOS && #[trigger] old(self).reminded(now, *final(self), r),
            final(self).deadline == old(self).deadline,
            final(self).total == old(self).total,
            exists|now: int|
                {
                    &&& 0 <= now <= MAX_SPAN_NANOS
                    &&& final(self).next_nudge_at@ == #[trigger] old(self).nudge_after(now)
                    &&& r is Some <==> old(self).nudge_due(now)
                    &&& r matches Some(nudge) ==> {
                        &&& nudge.total == old(self).total
                        &&& nudge.elapsed@ == old(self).elapsed(now)
                        &&& nudge.remaining@ == old(self).remaining(now)
                        &&& nudge.guidance@ == nudge_guidance(old(self).remaining(now))
                    }
                },
    {
        let now = clock.now();
        let r = self.maybe_nudge_at(now);
        assert(old(self).reminded(now@, *self, r));
        assert(self.next_nudge_at@ == old(self).nudge_after(now@));
        r
    }
}

/// After a reminder at `now` none is owed until its interval has passed, which is two seconds at
/// least; none is owed before half of the budget is spent.
pub proof fn law_nudges_keep_apart(before: AutoTimeBudget, after: AutoTimeBudget, now: int, then_at: int)
    requires
        before.nudge_due(now),
        after.deadline == before.deadline,
        after.total == before.total,
        after.next_nudge_at@ == before.nudge_after(now),
        after.nudge_due(then_at),
    ensures
        then_at >= now + nudge_interval(before.remaining(now)),
        then_at >= now + seconds(2),
        after.elapsed(then_at) >= after.total@ / 2,
{
    law_nudge_interval_monotone(before.remaining(now), before.remaining(now));
}

/// The words of a reminder, given its three spans in words.
pub open spec fn nudge_words(
    total: Seq<char>,
    elapsed: Seq<char>,
    remaining: Seq<char>,
    guidance: Seq<char>,
) -> Seq<char> {
    "Time budget update: total="@ + total + " elapsed="@ + elapsed + " remaining="@ + remaining
        + ". "@ + guidance
}

/// Words a reminder.
pub fn nudge_message(
    nudge: &BudgetNudge,
    total_text: &str,
    elapsed_text: &str,
    remaining_text: &str,
) -> (r: String)
    ensures
        r@ == nudge_words(total_text@, elapsed_text@, remaining_text@, nudge.guidance@),
{
    let mut r = "Time budget update: total=".to_owned();
    r.append(total_text);
    r.append(" elapsed=");
    r.append(elapsed_text);
    r.append(" remaining=");
    r.append(remaining_text);
    r.append(". ");
    r.append(nudge.guidance.as_str());
    r
}

/// Without a deadline attempts may go on for seven days. With one they may go on until five seconds
/// before it, but no longer than that, and not at all once those have begun.
pub proof fn law_time_for_attempts(deadline: int, now: int)
    requires
        deadline - now <= MAX_SPAN_NANOS,
    ensures
        retry_window(None, now) == 7 * 24 * 3600 * 1_000_000_000,
        ({
            let left = deadline - now - 5 * 1_000_000_000;
            let window = retry_window(Some(deadline), now);
            &&& left <= 0 ==> window == 0
            &&& 0 <= left <= 7 * 24 * 3600 * 1_000_000_000 ==> window == left
            &&& left >= 7 * 24 * 3600 * 1_000_000_000 ==> window == 7 * 24 * 3600 * 1_000_000_000
        }),
{
}

/// The pause between two reminders, by the time that is left: five minutes while half an hour is
/// left, then two minutes, one, half a minute, a quarter, ten seconds, five and at last two.
pub proof fn law_pauses_between_reminders(secs: int)
    ensures
        secs >= 1800 ==> nudge_interval(seconds(secs)) == seconds(300),
        600 <= secs < 1800 ==> nudge_interval(seconds(secs)) == seconds(120),
        300 <= secs < 600 ==> nudge_interval(seconds(secs)) == seconds(60),
        120 <= secs < 300 ==> nudge_interval(seconds(secs)) == seconds(30),
        60 <= secs < 120 ==> nudge_interval(seconds(secs)) == seconds(15),
        30 <= secs < 60 ==> nudge_interval(seconds(secs)) == seconds(10),
        10 <= secs < 30 ==> nudge_interval(seconds(secs)) == seconds(5),
        secs < 10 ==> nudge_interval(seconds(secs)) == seconds(2),
{
}

/// While ten seconds or more are left, the next reminder comes before half of the time that is left
/// has passed.
pub proof fn law_reminders_come_in_time(remaining: int)
    requires
        remaining >= 10 * 1_000_000_000,
    ensures
        2 * nudge_interval(remaining) <= remaining,
{
}

/// What is spent and what is left of a budget make up its total, until it is spent; a reminder is
/// owed from its time on, once half of the budget is spent.
pub proof fn law_budgets_add_up(budget: AutoTimeBudget, now: int)
    requires
        budget.deadline@ - now <= MAX_SPAN_NANOS,
    ensures
        now <= budget.deadline@ ==> budget.remaining(now) == budget.deadline@ - now,
        now >= budget.deadline@ ==> budget.remaining(now) == 0,
        budget.remaining(now) <= budget.total@ ==> budget.elapsed(now) + budget.remaining(now)
            == budget.total@,
        budget.remaining(now) > budget.total@ ==> budget.elapsed(now) == 0,
        budget.nudge_due(now) <==> now >= budget.next_nudge_at@ && budget.elapsed(now)
            >= budget.total@ / 2,
        now < budget.next_nudge_at@ ==> budget.nudge_after(now) == budget.next_nudge_at@,
        budget.nudge_due(now) ==> budget.nudge_after(now) == now + nudge_interval(
            budget.remaining(now),
        ),
        now >= budget.next_nudge_at@ && !budget.nudge_due(now) ==> budget.nudge_after(now)
            == halfway(budget.deadline@, budget.total@),
{
}

/// The first reminder comes when half of the time is left.
pub proof fn law_first_reminder_is_halfway(deadline: int, total: nat)
    requires
        0 <= deadline,
        total <= MAX_SPAN_NANOS,
    ensures
        halfway(deadline, total) == deadline - total / 2,
        deadline - halfway(deadline, total) <= total - (deadline - halfway(deadline, total)),
{
}

/// The advice grows more urgent as the time runs out: from half a minute on the time is nearly up,
/// from two minutes on it is tight, and before that it is past half.
pub proof fn law_advice_fits_the_time(remaining: int)
    ensures
        remaining <= 30 * 1_000_000_000 ==> contains(
            nudge_guidance(remaining),
            "Time is nearly up"@,
        ),
        30 * 1_000_000_000 < remaining <= 120 * 1_000_000_000 ==> contains(
            nudge_guidance(remaining),
            "Time is tight"@,
        ),
        remaining > 120 * 1_000_000_000 ==> contains(
            nudge_guidance(remaining),
            "Past 50% of the time budget"@,
        ),
{
    reveal_strlit("Time is nearly up");
    reveal_strlit("Time is tight");
    reveal_strlit("Past 50% of the time budget");
    reveal_strlit(
        "Time is nearly up: stop exploring; take the simplest safe path and do one cheap verification before finishing.",
    );
    reveal_strlit(
        "Time is tight: parallelize any remaining scouting/verification (agents or tool-call batching) and finish with the cheapest proof.",
    );
    reveal_strlit(
        "Past 50% of the time budget: start converging; parallelize remaining scouting/verification and avoid detours.",
    );
    if remaining <= 30 * 1_000_000_000 {
        lemma_stands_at(nudge_guidance(remaining), "Time is nearly up"@, 0);
    } else if remaining <= 120 * 1_000_000_000 {
        lemma_stands_at(nudge_guidance(remaining), "Time is tight"@, 0);
    } else {
        lemma_stands_at(nudge_guidance(remaining), "Past 50% of the time budget"@, 0);
    }
}

/// A reminder tells the whole time, what is spent, what is left, and the advice.
pub proof fn law_reminders_tell_the_time(
    total: Seq<char>,
    elapsed: Seq<char>,
    remaining: Seq<char>,
    guidance: Seq<char>,
)
    ensures
        ({
            let words = nudge_words(total, elapsed, remaining, guidance);
            &&& contains(words, "total="@ + total)
            &&& contains(words, "elapsed="@ + elapsed)
            &&& contains(words, "remaining="@ + remaining)
            &&& contains(words, guidance)
        }),
{
    let words = nudge_words(total, elapsed, remaining, guidance);
    reveal_strlit("Time budget update: total=");
    reveal_strlit("total=");
    reveal_strlit(" elapsed=");
    reveal_strlit("elapsed=");
    reveal_strlit(" remaining=");
    reveal_strlit("remaining=");
    let a = "Time budget update: total="@;
    lemma_stands_at(words, "total="@ + total, 20);
    let n: int = (a.len() + total.len()) as int;
    lemma_stands_at(words, "elapsed="@ + elapsed, n + 1);
    let m: int = n + 9 + elapsed.len();
    lemma_stands_at(words, "remaining="@ + remaining, m + 1);
    let front = a + total + " elapsed="@ + elapsed + " remaining="@ + remaining + ". "@;
    lemma_part_stands(front, guidance, Seq::empty());
    assert(words =~= front + guidance + Seq::<char>::empty());
}

/// A run has a budget exactly where its time is limited: of as many seconds as it is limited to, until
/// its deadline, or else from now on, with the first reminder when half of it is left.
pub proof fn law_budgets_of_runs(
    max_run_seconds: Option<u64>,
    deadline: Option<Instant>,
    now: Instant,
    r: Option<AutoTimeBudget>,
)
    requires
        call_ensures(AutoTimeBudget::for_run, (max_run_seconds, deadline, now), r),
        0 <= now@,
        deadline matches Some(d) ==> 0 <= d@,
    ensures
        max_run_seconds is None ==> r is None,
        max_run_seconds matches Some(secs) ==> (r matches Some(budget) && {
            &&& budget.total@ == secs * 1_000_000_000
            &&& deadline matches Some(d) ==> budget.deadline@ == d@
            &&& deadline is None ==> budget.deadline@ - now@ == secs * 1_000_000_000
            &&& budget.deadline@ - budget.next_nudge_at@ == budget.total@ / 2
        }),
{
}

/// A reminder is given exactly where one is owed, and tells the whole time, what is spent and what is
/// left; the time and its end are never changed, and after a reminder the next one is two seconds away
/// at least.
pub proof fn law_reminders_are_given_when_owed(
    before: AutoTimeBudget,
    now: int,
    after: AutoTimeBudget,
    r: Option<BudgetNudge>,
)
    requires
        before.reminded(now, after, r),
        before.deadline@ - now <= MAX_SPAN_NANOS,
        now <= before.deadline@,
        before.deadline@ - now <= before.total@,
    ensures
        after.deadline == before.deadline,
        after.total == before.total,
        now < before.next_nudge_at@ ==> r is None && after.next_nudge_at@ == before.next_nudge_at@,
        now >= before.next_nudge_at@ ==> (r is Some <==> before.total@ - (before.deadline@ - now)
            >= before.total@ / 2),
        r matches Some(nudge) ==> {
            &&& nudge.total@ == before.total@
            &&& nudge.remaining@ == before.deadline@ - now
            &&& nudge.elapsed@ + nudge.remaining@ == nudge.total@
            &&& nudge.guidance@ == nudge_guidance(before.deadline@ - now)
            &&& after.next_nudge_at@ >= now + 2 * 1_000_000_000
            &&& after.next_nudge_at@ <= now + 300 * 1_000_000_000
        },
{
}

/// Whenever it is asked, attempts may go on for seven days at most, and for just these where there is
/// no deadline.
pub proof fn law_time_for_attempts_now(deadline: Option<Instant>, clock: &Clock, r: Duration)
    requires
        call_ensures(retry_max_elapsed, (deadline, clock), r),
    ensures
        r@ <= 7 * 24 * 3600 * 1_000_000_000,
        deadline is None ==> r@ == 7 * 24 * 3600 * 1_000_000_000,
        deadline matches Some(end) ==> (end@ <= 5 * 1_000_000_000 ==> r@ == 0),
{
}

} // verus!
