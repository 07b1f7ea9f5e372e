//! How long to wait for a provider that limits requests.
use crate::budget::{RATE_LIMIT_BUFFER_SECS, RATE_LIMIT_JITTER_MAX_SECS};
use crate::calendar::{parse_reset_time, reset_time, time_until, UtcTime};
use crate::json_text::{json_member, json_parsed, json_string, member_of, parse_json, string_of};
use crate::text::opt_text;
use crate::time::{random_jitter, seconds, Clock, Duration, Instant, MAX_SPAN_NANOS};
use vstd::prelude::*;
use vstd::string::*;

verus! {

/// What a decision on waiting takes from its surroundings.
#[derive(Debug, Clone, Copy)]
pub struct Moment {
    /// The reading of the clock.
    pub now: Instant,
    /// The time on the calendar.
    pub utc: UtcTime,
    /// A short span drawn by chance.
    pub jitter: Duration,
}

impl Moment {
    /// The readings are such as a clock and a draw give.
    pub open spec fn valid(self) -> bool {
        &&& 0 <= self.now@ <= MAX_SPAN_NANOS
        &&& self.utc.ordinary()
        &&& self.jitter@ < seconds(RATE_LIMIT_JITTER_MAX_SECS as int)
    }

    /// Reads the clock and the calendar, and draws a span.
    pub fn take(clock: &Clock) -> (r: Self)
        ensures
            r.valid(),
    {
        let jitter = random_jitter(Duration::from_secs(RATE_LIMIT_JITTER_MAX_SECS));
        Moment { now: clock.now(), utc: UtcTime::now(), jitter }
    }
}

/// A span that still fits when the safety margin is put on top.
pub open spec fn wait_fits(base: int) -> bool {
    base + seconds(RATE_LIMIT_BUFFER_SECS as int) + seconds(RATE_LIMIT_JITTER_MAX_SECS as int)
        <= MAX_SPAN_NANOS
}

/// When to try again after a limit that lasts for `base`.
pub open spec fn wait_end(base: int, moment: Moment) -> int {
    moment.now@ + base + seconds(RATE_LIMIT_BUFFER_SECS as int) + moment.jitter@
}

/// When to try again after a limit that lasts for `base`.
pub fn rate_limit_wait_at(base: Duration, moment: Moment) -> (r: Instant)
    requires
        moment.valid(),
        wait_fits(base@ as int),
    ensures
        r@ == wait_end(base@ as int, moment),
{
    let wait = base.plus(Duration::from_secs(RATE_LIMIT_BUFFER_SECS)).plus(moment.jitter);
    moment.now.plus(wait)
}

/// When to try again after a limit that lasts for `base`, from now on.
pub fn compute_rate_limit_wait(base: Duration, clock: &Clock) -> (r: Instant)
    requires
        wait_fits(base@ as int),
    ensures
        exists|moment: Moment| moment.valid() && r@ == #[trigger] wait_end(base@ as int, moment),
{
    let moment = Moment::take(clock);
    rate_limit_wait_at(base, moment)
}

/// A wait ends no sooner than the limit does, with the buffer on top, and no more than the longest
/// draw after that.
pub proof fn law_wait_covers_limit(base: int, moment: Moment)
    requires
        0 <= base,
        moment.valid(),
    ensures
        wait_end(base, moment) >= moment.now@ + base + seconds(RATE_LIMIT_BUFFER_SECS as int),
        wait_end(base, moment) < moment.now@ + base + seconds(
            RATE_LIMIT_BUFFER_SECS + RATE_LIMIT_JITTER_MAX_SECS,
        ),
{
}

/// At one moment, a longer limit is waited for longer by exactly the difference.
pub proof fn law_wait_monotone(shorter: int, longer: int, moment: Moment)
    requires
        shorter <= longer,
    ensures
        wait_end(shorter, moment) <= wait_end(longer, moment),
        wait_end(longer, moment) - wait_end(shorter, moment) == longer - shorter,
{
}

/// The keys under which a provider says in how many seconds a limit ends, in order.
pub open spec fn seconds_keys() -> Seq<Seq<char>> {
    seq![
        "reset_seconds"@,
        "reset_in_seconds"@,
        "resets_in_seconds"@,
        "x-ratelimit-reset"@,
        "x-ratelimit-reset-requests"@,
    ]
}

/// The part of a reply that speaks of the error: what stands under `error`, or else the whole.
pub open spec fn error_part(json: Seq<char>, member: Option<Seq<char>>) -> Seq<char> {
    match member {
        Some(e) => e,
        None => json,
    }
}

/// The part of a JSON text that speaks of the error.
pub open spec fn error_object(json: Seq<char>) -> Seq<char> {
    error_part(json, json_member(json, "error"@))
}

/// The words in which a value names a number: the text of a string, or the value as it is written.
pub open spec fn number_words(found: Seq<char>, text: Option<Seq<char>>) -> Seq<char> {
    match text {
        Some(t) => t,
        None => found,
    }
}

/// The words in which a member names a number, if there is such a member.
pub open spec fn member_words(json: Seq<char>, key: Seq<char>) -> Option<Seq<char>> {
    match json_member(json, key) {
        Some(found) => Some(number_words(found, json_string(found))),
        None => None,
    }
}

/// What optional strings say.
pub open spec fn opt_text_list(v: Seq<Option<String>>) -> Seq<Option<Seq<char>>> {
    Seq::new(v.len(), |i: int| opt_text(v[i]))
}

/// The part of a reply that speaks of the error, given what stands under `error`.
pub fn choose_error_part(json: String, member: Option<String>) -> (r: String)
    ensures
        r@ == error_part(json@, opt_text(member)),
{
    match member {
        Some(e) => e,
        None => json,
    }
}

/// The words in which a value names a number, given the text that it holds as a string.
pub fn choose_number_words(found: String, text: Option<String>) -> (r: String)
    ensures
        r@ == number_words(found@, opt_text(text)),
{
    match text {
        Some(t) => t,
        None => found,
    }
}

/// The words in which a member names a number.
fn words_under(json: &str, key: &str) -> (r: Option<String>)
    ensures
        opt_text(r) == member_words(json@, key@),
{
    match member_of(json, key) {
        Some(found) => {
            let text = string_of(found.as_str());
            Some(choose_number_words(found, text))
        },
        None => None,
    }
}

/// The part of a JSON text that speaks of the error.
fn error_object_of(json: String) -> (r: String)
    ensures
        r@ == error_object(json@),
{
    let member = member_of(json.as_str(), "error");
    choose_error_part(json, member)
}

/// The words in which a reply says in how many seconds a limit ends, one entry for each key; none
/// at all where the reply is not JSON.
pub fn seconds_fields(body: &str) -> (r: Option<Vec<Option<String>>>)
    ensures
        match (r, json_parsed(body@)) {
            (Some(fields), Ok(json)) => opt_text_list(fields@) == seconds_keys().map_values(
                |key: Seq<char>| member_words(error_object(json), key),
            ),
            (None, Err(_)) => true,
            _ => false,
        },
{
    match parse_json(body) {
        Ok(json) => {
            let part = error_object_of(json);
            let mut fields: Vec<Option<String>> = Vec::new();
            fields.push(words_under(part.as_str(), "reset_seconds"));
            fields.push(words_under(part.as_str(), "reset_in_seconds"));
            fields.push(words_under(part.as_str(), "resets_in_seconds"));
            fields.push(words_under(part.as_str(), "x-ratelimit-reset"));
            fields.push(words_under(part.as_str(), "x-ratelimit-reset-requests"));
            assert(opt_text_list(fields@) =~= seconds_keys().map_values(
                |key: Seq<char>| member_words(part@, key),
            ));
            Some(fields)
        },
        Err(_) => None,
    }
}

/// The first span among readings from index `from` on.
pub open spec fn first_seconds(readings: Seq<Option<Duration>>, from: int) -> Option<Duration>
    decreases readings.len() - from,
{
    if from >= readings.len() {
        None
    } else if readings[from] is Some {
        readings[from]
    } else {
        first_seconds(readings, from + 1)
    }
}

/// The first span among the readings of a reply's seconds, in the order of their keys. A key that
/// is absent, holds no number, or holds a negative one has no reading.
pub fn extract_seconds(readings: &Vec<Option<Duration>>) -> (r: Option<Duration>)
    ensures
        r == first_seconds(readings@, 0),
{
    let mut i: usize = 0;
    while i < readings.len()
        invariant
            i <= readings@.len(),
            first_seconds(readings@, 0) == first_seconds(readings@, i as int),
        decreases readings.len() - i,
    {
        if let Some(span) = readings[i] {
            return Some(span);
        }
        i = i + 1;
    }
    None
}

/// When a reply that names the end of the limit lets one try again: `text` is what it holds under
/// `reset_at`.
pub open spec fn reset_wait(text: Option<Seq<char>>, moment: Moment) -> Option<int> {
    match text {
        Some(text) => match reset_time(text) {
            Some(at) => Some(wait_end(time_until(at, moment.utc) as int, moment)),
            None => None,
        },
        None => None,
    }
}

/// The text that an object holds under `reset_at`.
pub open spec fn reset_text(json: Seq<char>) -> Option<Seq<char>> {
    match json_member(json, "reset_at"@) {
        Some(found) => json_string(found),
        None => None,
    }
}

/// The place of an optional point of time.
pub open spec fn opt_instant(t: Option<Instant>) -> Option<int> {
    match t {
        Some(t) => Some(t@),
        None => None,
    }
}

/// When to try again, given the point of time at which the limit ends.
pub fn wait_for_reset(at: UtcTime, moment: Moment) -> (r: Instant)
    requires
        moment.valid(),
    ensures
        r@ == wait_end(time_until(at, moment.utc) as int, moment),
        at.ordinary() && at.place() <= moment.utc.place() ==> r@ == wait_end(0, moment),
        at.ordinary() && at.place() > moment.utc.place() ==> r@ == wait_end(
            at.place() - moment.utc.place(),
            moment,
        ),
{
    rate_limit_wait_at(at.until(moment.utc), moment)
}

/// When an object that names the end of the limit lets one try again.
pub fn extract_reset_at(json: &str, moment: Moment) -> (r: Option<Instant>)
    requires
        moment.valid(),
    ensures
        opt_instant(r) == reset_wait(reset_text(json@), moment),
{
    let text = match member_of(json, "reset_at") {
        Some(found) => string_of(found.as_str()),
        None => None,
    };
    match text {
        Some(text) => match parse_reset_time(text.as_str()) {
            Some(at) => Some(wait_for_reset(at, moment)),
            None => None,
        },
        None => None,
    }
}

/// When a reply lets one try again, given the reply as JSON, the wait that its seconds ask for and
/// the wait that its end of the limit asks for.
pub open spec fn hint(
    json: Result<Seq<char>, Seq<char>>,
    readings: Seq<Option<Duration>>,
    by_reset: Option<int>,
    moment: Moment,
) -> Option<int> {
    match json {
        Ok(_) => match first_seconds(readings, 0) {
            Some(span) => Some(wait_end(span@ as int, moment)),
            None => by_reset,
        },
        Err(_) => None,
    }
}

/// When a reply lets one try again.
pub open spec fn rate_limit_hint(
    body: Seq<char>,
    readings: Seq<Option<Duration>>,
    moment: Moment,
) -> Option<int> {
    hint(
        json_parsed(body),
        readings,
        match json_parsed(body) {
            Ok(json) => reset_wait(reset_text(error_object(json)), moment),
            Err(_) => None,
        },
        moment,
    )
}

/// The seconds that count, if any do, leave room for the safety margin.
pub open spec fn seconds_fit(readings: Seq<Option<Duration>>) -> bool {
    first_seconds(readings, 0) matches Some(span) ==> wait_fits(span@ as int)
}

/// When a reply lets one try again: after the seconds that it names, or else at the end of the
/// limit that it names. `readings` are the numbers that [`seconds_fields`] names in words.
pub fn parse_rate_limit_hint(body: &str, readings: &Vec<Option<Duration>>, moment: Moment) -> (r:
    Option<Instant>)
    requires
        moment.valid(),
        seconds_fit(readings@),
    ensures
        opt_instant(r) == rate_limit_hint(body@, readings@, moment),
{
    match parse_json(body) {
        Ok(json) => match extract_seconds(readings) {
            Some(span) => Some(rate_limit_wait_at(span, moment)),
            None => extract_reset_at(error_object_of(json).as_str(), moment),
        },
        Err(_) => None,
    }
}

/// A limit is waited for to its end, and for five seconds more, but less than eight.
pub proof fn law_waits_in_seconds(base: int, moment: Moment)
    requires
        moment.valid(),
    ensures
        wait_end(base, moment) >= moment.now@ + base + 5 * 1_000_000_000,
        wait_end(base, moment) < moment.now@ + base + 8 * 1_000_000_000,
        wait_end(base, moment) - moment.jitter@ == moment.now@ + base + 5 * 1_000_000_000,
{
}

/// Of the readings of a reply the first that is there counts.
pub proof fn law_first_reading_counts(readings: Seq<Option<Duration>>, from: int)
    requires
        0 <= from,
    ensures
        match first_seconds(readings, from) {
            Some(span) => exists|i: int|
                {
                    &&& from <= i < readings.len()
                    &&& #[trigger] readings[i] == Some(span)
                    &&& forall|j: int| from <= j < i ==> #[trigger] readings[j] is None
                },
            None => forall|j: int| from <= j < readings.len() ==> #[trigger] readings[j] is None,
        },
    decreases readings.len() - from,
{
    if from < readings.len() && readings[from] is None {
        law_first_reading_counts(readings, from + 1);
    }
}

/// The seconds until a limit ends are looked for under five keys, in this order.
pub proof fn law_keys_of_seconds(key: Seq<char>)
    ensures
        seconds_keys().contains(key) <==> key == "reset_seconds"@ || key == "reset_in_seconds"@
            || key == "resets_in_seconds"@ || key == "x-ratelimit-reset"@ || key
            == "x-ratelimit-reset-requests"@,
        seconds_keys().len() == 5,
        seconds_keys()[0] == "reset_seconds"@,
        seconds_keys()[1] == "reset_in_seconds"@,
        seconds_keys()[2] == "resets_in_seconds"@,
        seconds_keys()[3] == "x-ratelimit-reset"@,
        seconds_keys()[4] == "x-ratelimit-reset-requests"@,
{
    let keys = seconds_keys();
    assert(keys[0] == "reset_seconds"@);
    assert(keys[1] == "reset_in_seconds"@);
    assert(keys[2] == "resets_in_seconds"@);
    assert(keys[3] == "x-ratelimit-reset"@);
    assert(keys[4] == "x-ratelimit-reset-requests"@);
}

/// What a reply says of a limit is looked for in what stands under `error`, or else in the whole; a
/// number is read from the text of a string, or else as it is written.
pub proof fn law_where_limits_are_looked_for(json: Seq<char>, key: Seq<char>)
    ensures
        error_object(json) == match json_member(json, "error"@) {
            Some(part) => part,
            None => json,
        },
        member_words(json, key) is Some <==> json_member(json, key) is Some,
        json_member(json, key) matches Some(found) ==> member_words(json, key) == match json_string(
            found,
        ) {
            Some(text) => Some(text),
            None => Some(found),
        },
        reset_text(json) == match json_member(json, "reset_at"@) {
            Some(found) => json_string(found),
            None => None,
        },
{
}

/// When a limited provider lets one try again: where the reply names seconds, all of them are waited
/// for, and five seconds more; else where it names a point of time, the time until then and five
/// seconds more. A reply that is no JSON, or names neither, lets one try again at no certain time.
pub proof fn law_hints_are_waited_for(
    body: Seq<char>,
    readings: Seq<Option<Duration>>,
    moment: Moment,
)
    requires
        moment.valid(),
    ensures
        json_parsed(body) is Err ==> rate_limit_hint(body, readings, moment) is None,
        json_parsed(body) matches Ok(json) ==> match first_seconds(readings, 0) {
            Some(span) => rate_limit_hint(body, readings, moment) matches Some(at) && {
                &&& at >= moment.now@ + span@ + 5 * 1_000_000_000
                &&& at < moment.now@ + span@ + 8 * 1_000_000_000
            },
            None => match reset_text(error_object(json)) {
                Some(text) => match reset_time(text) {
                    Some(end) => rate_limit_hint(body, readings, moment) matches Some(at) && {
                        &&& at >= moment.now@ + time_until(end, moment.utc) + 5 * 1_000_000_000
                        &&& at < moment.now@ + time_until(end, moment.utc) + 8 * 1_000_000_000
                    },
                    None => rate_limit_hint(body, readings, moment) is None,
                },
                None => rate_limit_hint(body, readings, moment) is None,
            },
        },
{
}

/// Whenever it is asked, a limit is waited for to its end and for five seconds more; a limit whose end
/// has passed is waited for those alone, and up to three that chance adds.
pub proof fn law_limits_are_waited_out_now(
    base: Duration,
    clock: &Clock,
    r: Instant,
    at: UtcTime,
    moment: Moment,
    reset: Instant,
)
    requires
        call_ensures(compute_rate_limit_wait, (base, clock), r),
        moment.valid(),
        at.ordinary(),
        call_ensures(wait_for_reset, (at, moment), reset),
    ensures
        r@ >= base@ + 5 * 1_000_000_000,
        reset@ >= moment.now@ + 5 * 1_000_000_000,
        reset@ >= moment.now@ + (at.place() - moment.utc.place()) + 5 * 1_000_000_000,
        at.place() <= moment.utc.place() ==> reset@ < moment.now@ + 8 * 1_000_000_000,
        at.place() > moment.utc.place() ==> reset@ < moment.now@ + (at.place()
            - moment.utc.place()) + 8 * 1_000_000_000,
{
}

} // verus!
