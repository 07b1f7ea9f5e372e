//! Replies that can be asked for again.
use crate::decision::DecisionErrorView;
use crate::parse::{decided, DecodedDecision};
use crate::text::{
    ascii_lower, ascii_lower_char, blank, chars_contain, contains, equal_ignoring_case,
    find_chars, find_from, join, join_strings, lemma_find_from, lines, lines_of, occurs_at,
    opt_text, same_ignoring_case, texts, to_chars, to_lower_chars, trim, trim_end, trim_str,
    is_white, lemma_part_stands, lemma_stands_at, lemma_trim_end_head,
};
use vstd::prelude::*;
use vstd::string::*;

verus! {

/// The most characters of a reply that are quoted.
pub const DEBUG_JSON_MAX_CHARS: usize = 1200;

/// What is wrong with a reply that can be asked for again, and how to do better.
#[derive(Debug, Clone)]
pub struct RecoverableDecisionError {
    pub summary: String,
    pub guidance: Option<String>,
}

/// What is wrong with a reply, and how to do better.
pub struct RecoveryView {
    pub summary: Seq<char>,
    pub guidance: Option<Seq<char>>,
}

impl View for RecoverableDecisionError {
    type V = RecoveryView;

    open spec fn view(&self) -> RecoveryView {
        RecoveryView { summary: self.summary@, guidance: opt_text(self.guidance) }
    }
}

/// A text without the backticks in front of it.
pub open spec fn untick_start(s: Seq<char>) -> Seq<char>
    decreases s.len(),
{
    if s.len() > 0 && s[0] == '`' {
        untick_start(s.drop_first())
    } else {
        s
    }
}

/// A text without the backticks behind it.
pub open spec fn untick_end(s: Seq<char>) -> Seq<char>
    decreases s.len(),
{
    if s.len() > 0 && s.last() == '`' {
        untick_end(s.drop_last())
    } else {
        s
    }
}

/// A text without the backticks around it.
pub open spec fn untick(s: Seq<char>) -> Seq<char> {
    untick_end(untick_start(s))
}

/// The string without the backticks around it.
pub fn untick_str<'a>(s: &'a str) -> (r: &'a str)
    ensures
        r@ == untick(s@),
{
    let chars = to_chars(s);
    let mut from: usize = 0;
    assert(s@.skip(0) =~= s@);
    while from < chars.len() && chars[from] == '`'
        invariant
            chars@ == s@,
            from <= chars.len(),
            untick_start(s@) == untick_start(s@.skip(from as int)),
        decreases chars.len() - from,
    {
        assert(s@.skip(from as int).drop_first() =~= s@.skip(from + 1));
        from = from + 1;
    }
    assert(untick_start(s@) == s@.skip(from as int));
    let mut to: usize = chars.len();
    assert(s@.subrange(from as int, to as int) =~= s@.skip(from as int));
    while from < to && chars[to - 1] == '`'
        invariant
            chars@ == s@,
            from <= to <= chars.len(),
            untick(s@) == untick_end(s@.subrange(from as int, to as int)),
        decreases to,
    {
        assert(s@.subrange(from as int, to as int).drop_last() =~= s@.subrange(
            from as int,
            to - 1,
        ));
        to = to - 1;
    }
    s.substring_char(from, to)
}

/// What stands in front of the first occurrence of `part`.
pub open spec fn text_before(s: Seq<char>, part: Seq<char>) -> Option<Seq<char>> {
    match find_from(s, part, 0) {
        Some(i) => Some(s.take(i)),
        None => None,
    }
}

/// What stands behind the first occurrence of `part`.
pub open spec fn text_after(s: Seq<char>, part: Seq<char>) -> Option<Seq<char>> {
    match find_from(s, part, 0) {
        Some(i) => Some(s.skip(i + part.len())),
        None => None,
    }
}

/// What stands in front of the first occurrence of `part`.
pub fn before_str<'a>(s: &'a str, part: &str) -> (r: Option<&'a str>)
    ensures
        match r {
            Some(t) => text_before(s@, part@) == Some(t@),
            None => text_before(s@, part@) is None,
        },
{
    proof {
        lemma_find_from(s@, part@, 0);
    }
    let chars = to_chars(s);
    match find_chars(&chars, part) {
        Some(i) => {
            let head = s.substring_char(0, i);
            assert(head@ =~= s@.take(i as int));
            Some(head)
        },
        None => None,
    }
}

/// What stands behind the first occurrence of `part`.
pub fn after_str<'a>(s: &'a str, part: &str) -> (r: Option<&'a str>)
    ensures
        match r {
            Some(t) => text_after(s@, part@) == Some(t@),
            None => text_after(s@, part@) is None,
        },
{
    proof {
        lemma_find_from(s@, part@, 0);
    }
    let chars = to_chars(s);
    match find_chars(&chars, part) {
        Some(i) => {
            let n: usize = part.unicode_len();
            let len: usize = chars.len();
            let tail = s.substring_char(i + n, len);
            assert(tail@ =~= s@.skip(i + n));
            Some(tail)
        },
        None => None,
    }
}

/// What stands between the first quotation mark and the next, or the end.
pub open spec fn quoted_word(s: Seq<char>) -> Option<Seq<char>> {
    match text_after(s, "'"@) {
        Some(rest) => match text_before(rest, "'"@) {
            Some(word) => Some(word),
            None => Some(rest),
        },
        None => None,
    }
}

/// The name of the field that is said to be empty.
pub open spec fn empty_field(text: Seq<char>) -> Option<Seq<char>> {
    match text_before(text, " is empty"@) {
        Some(field) => if untick(trim(field)).len() > 0 {
            Some(untick(trim(field)))
        } else {
            None
        },
        None => None,
    }
}

/// What is wrong where the status is none of those that are known.
pub open spec fn status_summary(text: Seq<char>) -> Seq<char> {
    match quoted_word(text) {
        Some(word) => if word.len() > 0 {
            "unexpected finish_status '"@ + word + "'"@
        } else {
            "unexpected finish_status"@
        },
        None => "unexpected finish_status"@,
    }
}

/// An error says that there is no instruction.
pub open spec fn says_missing(lower: Seq<char>) -> bool {
    ||| contains(lower, "missing prompt_sent_to_cli"@)
    ||| contains(lower, "missing cli prompt for continue"@)
    ||| contains(lower, "missing cli prompt for `finish_status"@)
    ||| contains(lower, "missing cli prompt"@)
}

/// An error says that a reply is too long.
pub open spec fn says_too_long(lower: Seq<char>) -> bool {
    ||| contains(lower, "length limit"@)
    ||| contains(lower, "cut off"@)
    ||| contains(lower, "exceeds"@) && contains(lower, "prompt_sent_to_cli"@)
}

/// An error says that a reply is not JSON.
pub open spec fn says_not_json(lower: Seq<char>) -> bool {
    ||| contains(lower, "model response was not valid json"@)
    ||| contains(lower, "parsing json from model output"@)
}

/// What is wrong with a reply that can be asked for again, given the error in words; nothing where
/// it cannot.
pub open spec fn recoverable(text: Seq<char>) -> Option<RecoveryView> {
    let lower = ascii_lower(text);
    if says_missing(lower) {
        Some(
            RecoveryView {
                summary: "missing `prompt_sent_to_cli` for `finish_status: \"continue\"`"@,
                guidance: Some(
                    "Include a non-empty `prompt_sent_to_cli` string whenever `finish_status` is `\"continue\"`."@,
                ),
            },
        )
    } else if says_too_long(lower) {
        Some(
            RecoveryView {
                summary: "model output was cut off by a length cap"@,
                guidance: Some(
                    "Regenerate with a shorter `prompt_sent_to_cli` (<=600 chars) and more concise status text so the response fits within provider limits."@,
                ),
            },
        )
    } else if contains(lower, "legacy model response missing cli_prompt for continue"@) {
        Some(
            RecoveryView {
                summary: "legacy response omitted `cli_prompt` for continue turn"@,
                guidance: Some(
                    "Legacy coordinator responses must populate `cli_prompt` when the turn continues."@,
                ),
            },
        )
    } else if contains(lower, " is empty"@) && empty_field(text) is Some {
        let field = empty_field(text).unwrap();
        Some(
            RecoveryView {
                summary: "`"@ + field + "` was empty"@,
                guidance: Some(
                    "Provide a meaningful value for `"@ + field
                        + "` instead of leaving it blank."@,
                ),
            },
        )
    } else if contains(lower, "unexpected finish_status"@) {
        Some(
            RecoveryView {
                summary: status_summary(text),
                guidance: Some(
                    "Use `finish_status` values: `continue`, `finish_success`, or `finish_failed`."@,
                ),
            },
        )
    } else if says_not_json(lower) {
        Some(
            RecoveryView {
                summary: "response was not valid JSON"@,
                guidance: Some(
                    "Return strictly valid JSON that matches the `auto_coordinator_flow` schema without extra prose."@,
                ),
            },
        )
    } else if contains(lower, "decoding coordinator decision failed"@) {
        Some(
            RecoveryView {
                summary: "response did not match the coordinator schema"@,
                guidance: Some(
                    "Ensure every required field is present and spelled correctly per the coordinator schema."@,
                ),
            },
        )
    } else {
        None
    }
}

/// What optional faults say.
pub open spec fn opt_recovery(o: Option<RecoverableDecisionError>) -> Option<RecoveryView> {
    match o {
        Some(e) => Some(e@),
        None => None,
    }
}

/// The name of the field that is said to be empty.
fn empty_field_of<'a>(text: &'a str) -> (r: Option<&'a str>)
    ensures
        match r {
            Some(field) => empty_field(text@) == Some(field@),
            None => empty_field(text@) is None,
        },
{
    match before_str(text, " is empty") {
        Some(field) => {
            let name = untick_str(trim_str(field));
            if name.is_empty() {
                None
            } else {
                Some(name)
            }
        },
        None => None,
    }
}

/// What is wrong where the status is none of those that are known.
fn status_summary_of(text: &str) -> (r: String)
    ensures
        r@ == status_summary(text@),
{
    let word = match after_str(text, "'") {
        Some(rest) => match before_str(rest, "'") {
            Some(word) => Some(word),
            None => Some(rest),
        },
        None => None,
    };
    if let Some(word) = word {
        if !word.is_empty() {
            let mut summary = "unexpected finish_status '".to_owned();
            summary.append(word);
            summary.append("'");
            return summary;
        }
    }
    "unexpected finish_status".to_owned()
}

/// A fault with how to do better.
fn fault(summary: &str, guidance: &str) -> (r: Option<RecoverableDecisionError>)
    ensures
        opt_recovery(r) == Some(RecoveryView { summary: summary@, guidance: Some(guidance@) }),
{
    Some(
        RecoverableDecisionError {
            summary: summary.to_owned(),
            guidance: Some(guidance.to_owned()),
        },
    )
}

/// Decides from an error in words whether the reply can be asked for again, and what is then said
/// of it.
pub fn classify_recoverable_decision_error(text: &str) -> (r: Option<RecoverableDecisionError>)
    ensures
        opt_recovery(r) == recoverable(text@),
{
    let lower = to_lower_chars(text);
    if chars_contain(&lower, "missing prompt_sent_to_cli") || chars_contain(
        &lower,
        "missing cli prompt for continue",
    ) || chars_contain(&lower, "missing cli prompt for `finish_status") || chars_contain(
        &lower,
        "missing cli prompt",
    ) {
        return fault(
            "missing `prompt_sent_to_cli` for `finish_status: \"continue\"`",
            "Include a non-empty `prompt_sent_to_cli` string whenever `finish_status` is `\"continue\"`.",
        );
    }
    if chars_contain(&lower, "length limit") || chars_contain(&lower, "cut off") || chars_contain(
        &lower,
        "exceeds",
    ) && chars_contain(&lower, "prompt_sent_to_cli") {
        return fault(
            "model output was cut off by a length cap",
            "Regenerate with a shorter `prompt_sent_to_cli` (<=600 chars) and more concise status text so the response fits within provider limits.",
        );
    }
    if chars_contain(&lower, "legacy model response missing cli_prompt for continue") {
        return fault(
            "legacy response omitted `cli_prompt` for continue turn",
            "Legacy coordinator responses must populate `cli_prompt` when the turn continues.",
        );
    }
    if chars_contain(&lower, " is empty") {
        if let Some(field) = empty_field_of(text) {
            let mut summary = "`".to_owned();
            summary.append(field);
            summary.append("` was empty");
            let mut guidance = "Provide a meaningful value for `".to_owned();
            guidance.append(field);
            guidance.append("` instead of leaving it blank.");
            return Some(RecoverableDecisionError { summary, guidance: Some(guidance) });
        }
    }
    if chars_contain(&lower, "unexpected finish_status") {
        return fault(
            status_summary_of(text).as_str(),
            "Use `finish_status` values: `continue`, `finish_success`, or `finish_failed`.",
        );
    }
    if chars_contain(&lower, "model response was not valid json") || chars_contain(
        &lower,
        "parsing json from model output",
    ) {
        return fault(
            "response was not valid JSON",
            "Return strictly valid JSON that matches the `auto_coordinator_flow` schema without extra prose.",
        );
    }
    if chars_contain(&lower, "decoding coordinator decision failed") {
        return fault(
            "response did not match the coordinator schema",
            "Ensure every required field is present and spelled correctly per the coordinator schema.",
        );
    }
    None
}

/// Every recoverable fault comes with guidance.
pub proof fn law_faults_come_with_guidance(text: Seq<char>)
    ensures
        recoverable(text) matches Some(fault) ==> fault.guidance is Some,
{
}

/// A part that stands in a text in small or capital letters stands in the text in small letters.
proof fn lemma_lower_holds(text: Seq<char>, part: Seq<char>, i: int)
    requires
        0 <= i <= text.len() - part.len(),
        forall|j: int| 0 <= j < part.len() ==> ascii_lower_char(#[trigger] text[i + j]) == part[j],
    ensures
        contains(ascii_lower(text), part),
{
    let lower = ascii_lower(text);
    assert forall|j: int| 0 <= j < part.len() implies lower.subrange(i, i + part.len())[j]
        == part[j] by {
        assert(lower[i + j] == ascii_lower_char(text[i + j]));
    }
    assert(lower.subrange(i, i + part.len()) =~= part);
    assert(occurs_at(lower, part, i));
}

/// Faults of a reply that a second attempt can mend.
pub open spec fn mendable(error: DecisionErrorView) -> bool {
    match error {
        DecisionErrorView::UnexpectedStatus { .. } => true,
        DecisionErrorView::PromptTooLong => true,
        DecisionErrorView::MissingPrompt => true,
        DecisionErrorView::MissingLegacyPrompt => true,
        DecisionErrorView::NotJson => true,
        DecisionErrorView::BadJson { .. } => true,
        DecisionErrorView::Undecodable { .. } => true,
        _ => false,
    }
}

/// A reply without JSON, of neither form, with an unknown status, or whose instruction is missing
/// or too long can be asked for again, whatever else it says.
pub proof fn law_mendable_faults_are_recoverable(error: DecisionErrorView)
    requires
        mendable(error),
    ensures
        recoverable(error.text()) is Some,
{
    let text = error.text();
    match error {
        DecisionErrorView::UnexpectedStatus { value } => {
            reveal_strlit("unexpected finish_status '");
            reveal_strlit("unexpected finish_status");
            lemma_lower_holds(text, "unexpected finish_status"@, 0);
        },
        DecisionErrorView::PromptTooLong => {
            reveal_strlit(
                "prompt_sent_to_cli exceeds 600 characters; keep prompts succinct (<=600 chars) and let the CLI decide how to execute the task",
            );
            reveal_strlit("prompt_sent_to_cli");
            reveal_strlit("exceeds");
            lemma_lower_holds(text, "prompt_sent_to_cli"@, 0);
            lemma_lower_holds(text, "exceeds"@, 19);
        },
        DecisionErrorView::MissingPrompt => {
            reveal_strlit("model response missing prompt_sent_to_cli for continue");
            reveal_strlit("missing prompt_sent_to_cli");
            lemma_lower_holds(text, "missing prompt_sent_to_cli"@, 15);
        },
        DecisionErrorView::MissingLegacyPrompt => {
            reveal_strlit("legacy model response missing cli_prompt for continue");
            lemma_lower_holds(text, "legacy model response missing cli_prompt for continue"@, 0);
        },
        DecisionErrorView::NotJson => {
            reveal_strlit("model response was not valid JSON");
            reveal_strlit("model response was not valid json");
            lemma_lower_holds(text, "model response was not valid json"@, 0);
        },
        DecisionErrorView::BadJson { .. } => {
            reveal_strlit("parsing JSON from model output");
            reveal_strlit("parsing json from model output");
            lemma_lower_holds(text, "parsing json from model output"@, 0);
        },
        DecisionErrorView::Undecodable { .. } => {
            reveal_strlit("decoding coordinator decision failed: new_schema_err=");
            reveal_strlit("decoding coordinator decision failed");
            lemma_lower_holds(text, "decoding coordinator decision failed"@, 0);
        },
        _ => {},
    }
}

/// A text that begins with neither white space nor a backtick keeps its beginning.
proof fn lemma_beginning_stays(s: Seq<char>)
    requires
        s.len() > 0,
        !is_white(s[0]),
        s[0] != '`',
    ensures
        trim_end(s).len() > 0,
        untick_end(s).len() > 0,
    decreases s.len(),
{
    if s.len() > 1 {
        lemma_beginning_stays(s.drop_last());
    }
}

/// What stands in front of ` is empty` in an error that calls a field empty: its name, up to the
/// first such words in the name itself.
pub open spec fn named_part(field: Seq<char>) -> Seq<char> {
    match text_before(field, " is empty"@) {
        Some(name) => name,
        None => field,
    }
}

/// An error that says what makes a reply recoverable, but for an empty field.
pub open spec fn says_other_fault(lower: Seq<char>) -> bool {
    ||| says_missing(lower)
    ||| says_too_long(lower)
    ||| contains(lower, "legacy model response missing cli_prompt for continue"@)
    ||| contains(lower, "unexpected finish_status"@)
    ||| says_not_json(lower)
    ||| contains(lower, "decoding coordinator decision failed"@)
}

/// The name is what stands in front of the first ` is empty` of the error.
proof fn lemma_named_part(field: Seq<char>)
    ensures
        text_before(field + " is empty"@, " is empty"@) == Some(named_part(field)),
        contains(ascii_lower(field + " is empty"@), " is empty"@),
{
    let part = " is empty"@;
    let text = field + part;
    reveal_strlit(" is empty");
    assert(part.len() == 9);
    lemma_lower_holds(text, part, field.len() as int);
    assert(text.subrange(field.len() as int, text.len() as int) =~= part);
    assert(occurs_at(text, part, field.len() as int));
    lemma_find_from(text, part, 0);
    lemma_find_from(field, part, 0);
    let i = find_from(text, part, 0).unwrap();
    assert forall|j: int| 0 <= j <= field.len() - 9 implies occurs_at(text, part, j) == occurs_at(
        field,
        part,
        j,
    ) by {
        assert(text.subrange(j, j + 9) =~= field.subrange(j, j + 9));
    }
    if let Some(f) = find_from(field, part, 0) {
        assert(occurs_at(text, part, f));
        assert(i == f);
    } else if i < field.len() {
        if i <= field.len() - 9 {
            assert(occurs_at(field, part, i));
        } else {
            let k = field.len() - i;
            let found = text.subrange(i, i + 9);
            assert(found[k] == part[0]);
            assert(found[k] == part[k]);
            assert(k == 3);
            assert(found[4] == part[1]);
        }
    }
    assert(text.take(i) =~= named_part(field));
}

/// A reply in which a field is empty can be asked for again exactly where the name of the field is
/// more than white space and backticks, or the error speaks of another such fault.
pub proof fn law_empty_fields_are_recoverable(field: Seq<char>)
    ensures
        ({
            let text = (DecisionErrorView::EmptyField { field }).text();
            recoverable(text) is Some <==> untick(trim(named_part(field))).len() > 0
                || says_other_fault(ascii_lower(text))
        }),
{
    lemma_named_part(field);
}

/// A name that begins with neither white space nor a backtick is more than these.
proof fn lemma_plain_name(field: Seq<char>)
    requires
        field.len() > 0,
        !is_white(field[0]),
        field[0] != '`',
    ensures
        untick(trim(named_part(field))).len() > 0,
{
    let part = " is empty"@;
    let head = named_part(field);
    reveal_strlit(" is empty");
    lemma_find_from(field, part, 0);
    if let Some(f) = find_from(field, part, 0) {
        if f == 0 {
            assert(field.subrange(0, part.len() as int)[0] == field[0]);
        }
    }
    assert(head[0] == field[0]);
    lemma_beginning_stays(head);
    lemma_trim_end_head(head);
    lemma_beginning_stays(trim(head));
}

/// A part with a character that a text lacks does not stand in the text.
pub proof fn lemma_absent_char(text: Seq<char>, part: Seq<char>, k: int)
    requires
        0 <= k < part.len(),
        forall|i: int| 0 <= i < text.len() ==> #[trigger] text[i] != part[k],
    ensures
        !contains(text, part),
{
    assert forall|i: int| !occurs_at(text, part, i) by {
        if occurs_at(text, part, i) {
            assert(text.subrange(i, i + part.len())[k] == text[i + k]);
        }
    }
}

/// A part with two neighbours that are none in a text does not stand in the text.
pub proof fn lemma_absent_pair(text: Seq<char>, part: Seq<char>, k: int)
    requires
        0 <= k < part.len() - 1,
        forall|i: int|
            0 <= i < text.len() - 1 ==> !(#[trigger] text[i] == part[k] && text[i + 1] == part[k + 1]),
    ensures
        !contains(text, part),
{
    assert forall|i: int| !occurs_at(text, part, i) by {
        if occurs_at(text, part, i) {
            assert(text.subrange(i, i + part.len())[k] == text[i + k]);
            assert(text.subrange(i, i + part.len())[k + 1] == text[i + k + 1]);
        }
    }
}

/// A reply whose instruction is too short cannot be asked for again.
pub proof fn law_short_prompts_are_not_recoverable()
    ensures
        recoverable(DecisionErrorView::PromptTooShort.text()) is None,
{
    let text =
        "prompt_sent_to_cli must be at least 4 characters; keep it concise but not empty"@;
    reveal_strlit(
        "prompt_sent_to_cli must be at least 4 characters; keep it concise but not empty",
    );
    assert(ascii_lower(text) =~= text);
    reveal_strlit("missing prompt_sent_to_cli");
    lemma_absent_pair(text, "missing prompt_sent_to_cli"@, 0);
    reveal_strlit("missing cli prompt for continue");
    lemma_absent_pair(text, "missing cli prompt for continue"@, 0);
    reveal_strlit("missing cli prompt for `finish_status");
    lemma_absent_pair(text, "missing cli prompt for `finish_status"@, 0);
    reveal_strlit("missing cli prompt");
    lemma_absent_pair(text, "missing cli prompt"@, 0);
    reveal_strlit("length limit");
    lemma_absent_pair(text, "length limit"@, 2);
    reveal_strlit("cut off");
    lemma_absent_pair(text, "cut off"@, 0);
    reveal_strlit("exceeds");
    lemma_absent_char(text, "exceeds"@, 1);
    reveal_strlit("legacy model response missing cli_prompt for continue");
    lemma_absent_char(text, "legacy model response missing cli_prompt for continue"@, 2);
    reveal_strlit(" is empty");
    lemma_absent_pair(text, " is empty"@, 2);
    reveal_strlit("unexpected finish_status");
    lemma_absent_char(text, "unexpected finish_status"@, 3);
    reveal_strlit("model response was not valid json");
    lemma_absent_char(text, "model response was not valid json"@, 2);
    reveal_strlit("parsing json from model output");
    lemma_absent_char(text, "parsing json from model output"@, 6);
    reveal_strlit("decoding coordinator decision failed");
    lemma_absent_char(text, "decoding coordinator decision failed"@, 0);
}

/// Every fault that is found in a reply can be asked to be mended, but for an instruction that is
/// too short.
pub proof fn law_reply_faults_are_recoverable(decoded: DecodedDecision, payload: Seq<char>)
    ensures
        decided(decoded, payload) matches Err(e) ==> (recoverable(e.text()) is None
            <==> e is PromptTooShort),
{
    if let Err(e) = decided(decoded, payload) {
        if mendable(e) {
            law_mendable_faults_are_recoverable(e);
        } else if let DecisionErrorView::EmptyField { field } = e {
            reveal_strlit("prompt_sent_to_cli");
            reveal_strlit("agents[*].prompt");
            reveal_strlit("agents.requests[*].prompt");
            reveal_strlit("cli_prompt");
            lemma_plain_name(field);
            law_empty_fields_are_recoverable(field);
        } else {
            law_short_prompts_are_not_recoverable();
        }
    }
}

/// A list with a piece of guidance put in, unless it is blank or there already, in capitals or
/// small letters.
pub open spec fn with_guidance(list: Seq<Seq<char>>, text: Seq<char>) -> Seq<Seq<char>> {
    if blank(text) || exists|i: int|
        0 <= i < list.len() && same_ignoring_case(#[trigger] list[i], trim(text)) {
        list
    } else {
        list.push(trim(text))
    }
}

/// Puts a piece of guidance into a list, unless it is blank or there already.
pub fn push_unique_guidance(guidance: &mut Vec<String>, message: &str)
    ensures
        texts(final(guidance)@) == with_guidance(texts(old(guidance)@), message@),
{
    let trimmed = trim_str(message);
    if trimmed.is_empty() {
        return;
    }
    let mut i: usize = 0;
    while i < guidance.len()
        invariant
            i <= guidance@.len(),
            guidance@ == old(guidance)@,
            trimmed@ == trim(message@),
            forall|j: int|
                0 <= j < i ==> !same_ignoring_case(
                    #[trigger] texts(guidance@)[j],
                    trim(message@),
                ),
        decreases guidance.len() - i,
    {
        assert(texts(guidance@)[i as int] == guidance@[i as int]@);
        if equal_ignoring_case(guidance[i].as_str(), trimmed) {
            return;
        }
        i = i + 1;
    }
    guidance.push(trimmed.to_owned());
    assert(texts(guidance@) =~= texts(old(guidance)@).push(trim(message@)));
}

/// Guidance is never put in twice: a second time changes nothing, in capitals or small letters,
/// with or without white space around it.
pub proof fn law_guidance_once(list: Seq<Seq<char>>, text: Seq<char>, again: Seq<char>)
    requires
        same_ignoring_case(trim(text), trim(again)),
    ensures
        with_guidance(with_guidance(list, text), again) == with_guidance(list, text),
{
    let after = with_guidance(list, text);
    assert(ascii_lower(trim(text)).len() == ascii_lower(trim(again)).len());
    if !blank(text) {
        if exists|i: int| 0 <= i < list.len() && same_ignoring_case(#[trigger] list[i], trim(text)) {
            let i = choose|i: int|
                0 <= i < list.len() && same_ignoring_case(#[trigger] list[i], trim(text));
            assert(same_ignoring_case(after[i], trim(again)));
        } else {
            assert(same_ignoring_case(after[list.len() as int], trim(again)));
        }
    }
}

/// What is quoted of a reply: its beginning, and a mark where that is not all.
pub open spec fn excerpt(raw: Seq<char>) -> Seq<char> {
    if trim(raw).len() <= DEBUG_JSON_MAX_CHARS {
        trim(raw)
    } else {
        trim(raw).take(DEBUG_JSON_MAX_CHARS as int).push('…')
    }
}

/// What is quoted of a reply.
pub fn summarize_json_for_debug(raw: &str) -> (r: String)
    ensures
        r@ == excerpt(raw@),
{
    let trimmed = trim_str(raw);
    if trimmed.unicode_len() <= DEBUG_JSON_MAX_CHARS {
        return trimmed.to_owned();
    }
    let head = trimmed.substring_char(0, DEBUG_JSON_MAX_CHARS);
    assert(head@ =~= trimmed@.take(DEBUG_JSON_MAX_CHARS as int));
    let mut summary = head.to_owned();
    summary.push('…');
    summary
}

/// What is quoted of a reply never has more than one character over the limit.
pub proof fn law_excerpt_is_short(raw: Seq<char>)
    ensures
        excerpt(raw).len() <= DEBUG_JSON_MAX_CHARS + 1,
        trim(raw).len() <= DEBUG_JSON_MAX_CHARS ==> excerpt(raw) == trim(raw),
{
}

/// Lines, each with `prefix` in front of it.
pub open spec fn prefixed(all: Seq<Seq<char>>, prefix: Seq<char>) -> Seq<Seq<char>> {
    Seq::new(all.len(), |i: int| prefix + all[i])
}

/// The text with `prefix` in front of each line.
pub fn indent_lines(text: &str, prefix: &str) -> (r: String)
    ensures
        r@ == join(prefixed(lines(text@), prefix@), "\n"@),
{
    let all = lines_of(text);
    let mut out: Vec<String> = Vec::new();
    let mut i: usize = 0;
    while i < all.len()
        invariant
            i <= all@.len(),
            out@.len() == i,
            forall|j: int| 0 <= j < i ==> (#[trigger] out@[j])@ == prefix@ + all@[j]@,
        decreases all.len() - i,
    {
        let mut line = prefix.to_owned();
        line.append(all[i].as_str());
        out.push(line);
        i = i + 1;
    }
    assert(texts(out@) =~= prefixed(lines(text@), prefix@)) by {
        assert forall|j: int| 0 <= j < all@.len() implies texts(out@)[j] == prefixed(
            lines(text@),
            prefix@,
        )[j] by {
            assert(texts(all@)[j] == all@[j]@);
        }
    }
    join_strings(&out, "\n")
}

/// The faults that are found in a reply are told by what is wrong, and the advice says how to do
/// better: an instruction that is missing must be there, one that is too long must be shorter, and a
/// reply that is no JSON must be JSON.
pub proof fn law_faults_are_told_apart()
    ensures
        recoverable(DecisionErrorView::MissingPrompt.text()) matches Some(fault) && contains(
            fault.summary,
            "missing `prompt_sent_to_cli`"@,
        ) && (fault.guidance matches Some(advice) && contains(
            advice,
            "non-empty `prompt_sent_to_cli`"@,
        )),
        recoverable(DecisionErrorView::PromptTooLong.text()) matches Some(fault) && contains(
            fault.summary,
            "length cap"@,
        ) && (fault.guidance matches Some(advice) && contains(
            advice,
            "shorter `prompt_sent_to_cli` (<=600 chars)"@,
        )),
        recoverable(DecisionErrorView::MissingLegacyPrompt.text()) matches Some(fault) && contains(
            fault.summary,
            "omitted `cli_prompt`"@,
        ) && (fault.guidance matches Some(advice) && contains(
            advice,
            "must populate `cli_prompt`"@,
        )),
        recoverable(DecisionErrorView::NotJson.text()) matches Some(fault) && contains(
            fault.summary,
            "not valid JSON"@,
        ) && (fault.guidance matches Some(advice) && contains(advice, "strictly valid JSON"@)),
        forall|cause: Seq<char>|
            recoverable((#[trigger] (DecisionErrorView::BadJson { cause }).text())) == recoverable(
                DecisionErrorView::NotJson.text(),
            ),
{
    lemma_missing_prompt();
    lemma_prompt_too_long();
    lemma_missing_legacy_prompt();
    lemma_not_json();
    lemma_advice_phrases();
}

proof fn lemma_missing_prompt()
    ensures
        says_missing(ascii_lower(DecisionErrorView::MissingPrompt.text())),
{
    let text = "model response missing prompt_sent_to_cli for continue"@;
    reveal_strlit("model response missing prompt_sent_to_cli for continue");
    reveal_strlit("missing prompt_sent_to_cli");
    lemma_lower_holds(text, "missing prompt_sent_to_cli"@, 15);
}

proof fn lemma_prompt_too_long()
    ensures
        !says_missing(ascii_lower(DecisionErrorView::PromptTooLong.text())),
        says_too_long(ascii_lower(DecisionErrorView::PromptTooLong.text())),
{
    let text = DecisionErrorView::PromptTooLong.text();
    reveal_strlit(
        "prompt_sent_to_cli exceeds 600 characters; keep prompts succinct (<=600 chars) and let the CLI decide how to execute the task",
    );
    reveal_strlit("prompt_sent_to_cli");
    reveal_strlit("exceeds");
    lemma_lower_holds(text, "prompt_sent_to_cli"@, 0);
    lemma_lower_holds(text, "exceeds"@, 19);
    let lower = ascii_lower(text);
    reveal_strlit("missing prompt_sent_to_cli");
    lemma_absent_pair(lower, "missing prompt_sent_to_cli"@, 0);
    reveal_strlit("missing cli prompt for continue");
    lemma_absent_pair(lower, "missing cli prompt for continue"@, 0);
    reveal_strlit("missing cli prompt for `finish_status");
    lemma_absent_pair(lower, "missing cli prompt for `finish_status"@, 0);
    reveal_strlit("missing cli prompt");
    lemma_absent_pair(lower, "missing cli prompt"@, 0);
}

#[verifier::rlimit(40)]
proof fn lemma_missing_legacy_prompt()
    ensures
        !says_missing(ascii_lower(DecisionErrorView::MissingLegacyPrompt.text())),
        !says_too_long(ascii_lower(DecisionErrorView::MissingLegacyPrompt.text())),
        contains(
            ascii_lower(DecisionErrorView::MissingLegacyPrompt.text()),
            "legacy model response missing cli_prompt for continue"@,
        ),
{
    let text = "legacy model response missing cli_prompt for continue"@;
    reveal_strlit("legacy model response missing cli_prompt for continue");
    assert(ascii_lower(text) =~= text);
    lemma_stands_at(text, text, 0);
    assert(forall|i: int| 0 <= i < text.len() ==> #[trigger] text[i] != 'h' && text[i] != 'x');
    lemma_neither_missing_nor_long(text);
}

/// A text in small letters without certain letters speaks neither of an instruction that is missing
/// nor of a reply that is too long.
proof fn lemma_neither_missing_nor_long(text: Seq<char>)
    requires
        forall|i: int| 0 <= i < text.len() - 1 ==> !(#[trigger] text[i] == ' ' && text[i + 1] == 'p'),
        forall|i: int| 0 <= i < text.len() - 1 ==> !(#[trigger] text[i] == 'o' && text[i + 1] == 'f'),
        forall|i: int| 0 <= i < text.len() ==> #[trigger] text[i] != 'h' && text[i] != 'x',
    ensures
        !says_missing(text),
        !says_too_long(text),
{
    reveal_strlit("missing prompt_sent_to_cli");
    lemma_absent_pair(text, "missing prompt_sent_to_cli"@, 7);
    reveal_strlit("missing cli prompt for continue");
    lemma_absent_pair(text, "missing cli prompt for continue"@, 11);
    reveal_strlit("missing cli prompt for `finish_status");
    lemma_absent_pair(text, "missing cli prompt for `finish_status"@, 11);
    reveal_strlit("missing cli prompt");
    lemma_absent_pair(text, "missing cli prompt"@, 11);
    reveal_strlit("length limit");
    lemma_absent_char(text, "length limit"@, 5);
    reveal_strlit("cut off");
    lemma_absent_pair(text, "cut off"@, 4);
    reveal_strlit("exceeds");
    lemma_absent_char(text, "exceeds"@, 1);
}

/// A text in small letters speaks of none of the faults that are looked for before a reply that is
/// no JSON.
proof fn lemma_nothing_before_json(text: Seq<char>)
    requires
        forall|i: int| 0 <= i < text.len() - 1 ==> !(#[trigger] text[i] == ' ' && text[i + 1] == 'p'),
        forall|i: int| 0 <= i < text.len() - 1 ==> !(#[trigger] text[i] == 'o' && text[i + 1] == 'f'),
        forall|i: int|
            0 <= i < text.len() ==> #[trigger] text[i] != 'h' && text[i] != 'c' && text[i] != 'x'
                && text[i] != 'y',
    ensures
        !says_missing(text),
        !says_too_long(text),
        !contains(text, "legacy model response missing cli_prompt for continue"@),
        !contains(text, " is empty"@),
        !contains(text, "unexpected finish_status"@),
{
    lemma_neither_missing_nor_long(text);
    reveal_strlit("legacy model response missing cli_prompt for continue");
    lemma_absent_char(text, "legacy model response missing cli_prompt for continue"@, 5);
    reveal_strlit(" is empty");
    lemma_absent_char(text, " is empty"@, 8);
    reveal_strlit("unexpected finish_status");
    lemma_absent_char(text, "unexpected finish_status"@, 3);
}

proof fn lemma_not_json()
    ensures
        recoverable("model response was not valid JSON"@) == recoverable(
            "parsing JSON from model output"@,
        ),
        recoverable("model response was not valid JSON"@) matches Some(fault) && fault.summary
            == "response was not valid JSON"@ && fault.guidance == Some(
            "Return strictly valid JSON that matches the `auto_coordinator_flow` schema without extra prose."@,
        ),
{
    let one = "model response was not valid JSON"@;
    let two = "parsing JSON from model output"@;
    reveal_strlit("model response was not valid JSON");
    reveal_strlit("model response was not valid json");
    reveal_strlit("parsing JSON from model output");
    reveal_strlit("parsing json from model output");
    lemma_lower_holds(one, "model response was not valid json"@, 0);
    lemma_lower_holds(two, "parsing json from model output"@, 0);
    assert(ascii_lower(one) =~= "model response was not valid json"@);
    assert(ascii_lower(two) =~= "parsing json from model output"@);
    lemma_nothing_before_json(ascii_lower(one));
    lemma_nothing_before_json(ascii_lower(two));
}

proof fn lemma_advice_phrases()
    ensures
        contains(
            "missing `prompt_sent_to_cli` for `finish_status: \"continue\"`"@,
            "missing `prompt_sent_to_cli`"@,
        ),
        contains(
            "Include a non-empty `prompt_sent_to_cli` string whenever `finish_status` is `\"continue\"`."@,
            "non-empty `prompt_sent_to_cli`"@,
        ),
        contains("model output was cut off by a length cap"@, "length cap"@),
        contains(
            "Regenerate with a shorter `prompt_sent_to_cli` (<=600 chars) and more concise status text so the response fits within provider limits."@,
            "shorter `prompt_sent_to_cli` (<=600 chars)"@,
        ),
        contains(
            "legacy response omitted `cli_prompt` for continue turn"@,
            "omitted `cli_prompt`"@,
        ),
        contains(
            "Legacy coordinator responses must populate `cli_prompt` when the turn continues."@,
            "must populate `cli_prompt`"@,
        ),
        contains("response was not valid JSON"@, "not valid JSON"@),
        contains(
            "Return strictly valid JSON that matches the `auto_coordinator_flow` schema without extra prose."@,
            "strictly valid JSON"@,
        ),
        contains(
            "Use `finish_status` values: `continue`, `finish_success`, or `finish_failed`."@,
            "`continue`, `finish_success`, or `finish_failed`"@,
        ),
{
    lemma_phrase_stands_0();
    lemma_phrase_stands_1();
    lemma_phrase_stands_2();
    lemma_phrase_stands_3();
    lemma_phrase_stands_4();
    lemma_phrase_stands_5();
    lemma_phrase_stands_6();
    lemma_phrase_stands_7();
    lemma_phrase_stands_8();
}

proof fn lemma_phrase_stands_0()
    ensures
        contains(
            "missing `prompt_sent_to_cli` for `finish_status: \"continue\"`"@,
            "missing `prompt_sent_to_cli`"@,
        ),
{
    reveal_strlit(
        "missing `prompt_sent_to_cli` for `finish_status: \"continue\"`",
    );
    reveal_strlit("missing `prompt_sent_to_cli`");
    lemma_stands_at(
        "missing `prompt_sent_to_cli` for `finish_status: \"continue\"`"@,
        "missing `prompt_sent_to_cli`"@,
        0,
    );
}

proof fn lemma_phrase_stands_1()
    ensures
        contains(
            "Include a non-empty `prompt_sent_to_cli` string whenever `finish_status` is `\"continue\"`."@,
            "non-empty `prompt_sent_to_cli`"@,
        ),
{
    reveal_strlit(
        "Include a non-empty `prompt_sent_to_cli` string whenever `finish_status` is `\"continue\"`.",
    );
    reveal_strlit("non-empty `prompt_sent_to_cli`");
    lemma_stands_at(
        "Include a non-empty `prompt_sent_to_cli` string whenever `finish_status` is `\"continue\"`."@,
        "non-empty `prompt_sent_to_cli`"@,
        10,
    );
}

proof fn lemma_phrase_stands_2()
    ensures
        contains(
            "model output was cut off by a length cap"@,
            "length cap"@,
        ),
{
    reveal_strlit(
        "model output was cut off by a length cap",
    );
    reveal_strlit("length cap");
    lemma_stands_at(
        "model output was cut off by a length cap"@,
        "length cap"@,
        30,
    );
}

proof fn lemma_phrase_stands_3()
    ensures
        contains(
            "Regenerate with a shorter `prompt_sent_to_cli` (<=600 chars) and more concise status text so the response fits within provider limits."@,
            "shorter `prompt_sent_to_cli` (<=600 chars)"@,
        ),
{
    reveal_strlit(
        "Regenerate with a shorter `prompt_sent_to_cli` (<=600 chars) and more concise status text so the response fits within provider limits.",
    );
    reveal_strlit("shorter `prompt_sent_to_cli` (<=600 chars)");
    lemma_stands_at(
        "Regenerate with a shorter `prompt_sent_to_cli` (<=600 chars) and more concise status text so the response fits within provider limits."@,
        "shorter `prompt_sent_to_cli` (<=600 chars)"@,
        18,
    );
}

proof fn lemma_phrase_stands_4()
    ensures
        contains(
            "legacy response omitted `cli_prompt` for continue turn"@,
            "omitted `cli_prompt`"@,
        ),
{
    reveal_strlit(
        "legacy response omitted `cli_prompt` for continue turn",
    );
    reveal_strlit("omitted `cli_prompt`");
    lemma_stands_at(
        "legacy response omitted `cli_prompt` for continue turn"@,
        "omitted `cli_prompt`"@,
        16,
    );
}

proof fn lemma_phrase_stands_5()
    ensures
        contains(
            "Legacy coordinator responses must populate `cli_prompt` when the turn continues."@,
            "must populate `cli_prompt`"@,
        ),
{
    reveal_strlit(
        "Legacy coordinator responses must populate `cli_prompt` when the turn continues.",
    );
    reveal_strlit("must populate `cli_prompt`");
    lemma_stands_at(
        "Legacy coordinator responses must populate `cli_prompt` when the turn continues."@,
        "must populate `cli_prompt`"@,
        29,
    );
}

proof fn lemma_phrase_stands_6()
    ensures
        contains(
            "response was not valid JSON"@,
            "not valid JSON"@,
        ),
{
    reveal_strlit(
        "response was not valid JSON",
    );
    reveal_strlit("not valid JSON");
    lemma_stands_at(
        "response was not valid JSON"@,
        "not valid JSON"@,
        13,
    );
}

proof fn lemma_phrase_stands_7()
    ensures
        contains(
            "Return strictly valid JSON that matches the `auto_coordinator_flow` schema without extra prose."@,
            "strictly valid JSON"@,
        ),
{
    reveal_strlit(
        "Return strictly valid JSON that matches the `auto_coordinator_flow` schema without extra prose.",
    );
    reveal_strlit("strictly valid JSON");
    lemma_stands_at(
        "Return strictly valid JSON that matches the `auto_coordinator_flow` schema without extra prose."@,
        "strictly valid JSON"@,
        7,
    );
}

proof fn lemma_phrase_stands_8()
    ensures
        contains(
            "Use `finish_status` values: `continue`, `finish_success`, or `finish_failed`."@,
            "`continue`, `finish_success`, or `finish_failed`"@,
        ),
{
    reveal_strlit(
        "Use `finish_status` values: `continue`, `finish_success`, or `finish_failed`.",
    );
    reveal_strlit("`continue`, `finish_success`, or `finish_failed`");
    lemma_stands_at(
        "Use `finish_status` values: `continue`, `finish_success`, or `finish_failed`."@,
        "`continue`, `finish_success`, or `finish_failed`"@,
        28,
    );
}

/// A status that is none of those that are known is quoted, and the advice names those that are;
/// unless the error speaks of a fault that is looked for before it.
pub proof fn law_unknown_statuses_are_quoted(value: Seq<char>)
    requires
        value.len() > 0,
        forall|k: int| 0 <= k < value.len() ==> #[trigger] value[k] != '\'',
        ({
            let lower = ascii_lower((DecisionErrorView::UnexpectedStatus { value }).text());
            &&& !says_missing(lower)
            &&& !says_too_long(lower)
            &&& !contains(lower, "legacy model response missing cli_prompt for continue"@)
            &&& !contains(lower, " is empty"@)
        }),
    ensures
        recoverable((DecisionErrorView::UnexpectedStatus { value }).text()) matches Some(fault) && {
            &&& contains(fault.summary, "'"@ + value + "'"@)
            &&& fault.guidance matches Some(advice) && contains(
                advice,
                "`continue`, `finish_success`, or `finish_failed`"@,
            )
        },
{
    let text = (DecisionErrorView::UnexpectedStatus { value }).text();
    let head = "unexpected finish_status "@;
    let mark = "'"@;
    lemma_advice_phrases();
    lemma_status_phrases();
    assert(text =~= head + mark + value + mark + Seq::<char>::empty());
    law_quoted_words_are_found(head, value, Seq::empty());
    assert(contains(ascii_lower(text), "unexpected finish_status"@)) by {
        lemma_begins_lower(text, "unexpected finish_status"@);
    }
    let told = "unexpected finish_status '"@ + value + mark;
    assert(status_summary(text) == told);
    assert(told =~= head + (mark + value + mark) + Seq::<char>::empty());
    lemma_part_stands(head, mark + value + mark, Seq::empty());
}

/// The words in which an unknown status is told, without a quotation mark in front of the status.
proof fn lemma_status_phrases()
    ensures
        "unexpected finish_status '"@ == "unexpected finish_status "@ + "'"@,
        "unexpected finish_status "@ == "unexpected finish_status"@ + " "@,
        forall|k: int|
            0 <= k < "unexpected finish_status "@.len()
                ==> #[trigger] "unexpected finish_status "@[k] != '\'',
        ascii_lower("unexpected finish_status"@) == "unexpected finish_status"@,
{
    reveal_strlit("unexpected finish_status '");
    reveal_strlit("unexpected finish_status ");
    reveal_strlit("unexpected finish_status");
    reveal_strlit("'");
    reveal_strlit(" ");
    assert("unexpected finish_status '"@ =~= "unexpected finish_status "@ + "'"@);
    assert("unexpected finish_status "@ =~= "unexpected finish_status"@ + " "@);
    assert(ascii_lower("unexpected finish_status"@) =~= "unexpected finish_status"@);
}

/// What a text begins with stands in the text in small letters, where it is in small letters itself.
proof fn lemma_begins_lower(text: Seq<char>, part: Seq<char>)
    requires
        part.is_prefix_of(text),
        ascii_lower(part) == part,
    ensures
        contains(ascii_lower(text), part),
{
    assert forall|j: int| 0 <= j < part.len() implies ascii_lower_char(#[trigger] text[0 + j])
        == part[j] by {
        assert(ascii_lower(part)[j] == ascii_lower_char(part[j]));
        assert(text.take(part.len() as int)[j] == text[j]);
    }
    lemma_lower_holds(text, part, 0);
}

/// The word between the first quotation mark and the next is found.
pub proof fn law_quoted_words_are_found(before: Seq<char>, word: Seq<char>, behind: Seq<char>)
    requires
        forall|k: int| 0 <= k < before.len() ==> #[trigger] before[k] != '\'',
        forall|k: int| 0 <= k < word.len() ==> #[trigger] word[k] != '\'',
    ensures
        quoted_word(before + "'"@ + word + "'"@ + behind) == Some(word),
        quoted_word(before + "'"@ + word) == Some(word),
        quoted_word(before) is None,
{
    let mark = "'"@;
    reveal_strlit("'");
    let rest = word + mark + behind;
    assert(before + mark + word + mark + behind =~= before + mark + rest);
    law_first_mark_parts(before, rest);
    law_first_mark_parts(word, behind);
    law_first_mark_parts(before, word);
    lemma_find_from(word, mark, 0);
    lemma_absent_char(word, mark, 0);
    lemma_find_from(before, mark, 0);
    lemma_absent_char(before, mark, 0);
}

/// The first quotation mark parts a text into what stands in front of it and what stands behind.
pub proof fn law_first_mark_parts(before: Seq<char>, behind: Seq<char>)
    requires
        forall|k: int| 0 <= k < before.len() ==> #[trigger] before[k] != '\'',
    ensures
        text_before(before + "'"@ + behind, "'"@) == Some(before),
        text_after(before + "'"@ + behind, "'"@) == Some(behind),
{
    let mark = "'"@;
    reveal_strlit("'");
    let s = before + mark + behind;
    let n = before.len() as int;
    assert(s.subrange(n, n + 1) =~= mark);
    assert(occurs_at(s, mark, n));
    lemma_find_from(s, mark, 0);
    assert forall|j: int| 0 <= j < n implies !occurs_at(s, mark, j) by {
        assert(s.subrange(j, j + 1)[0] == before[j]);
    }
    let i = find_from(s, mark, 0).unwrap();
    assert(i == n);
    assert(s.take(n) =~= before);
    assert(s.skip(n + 1) =~= behind);
}

/// A field that is empty is named in what is wrong and in the advice; unless the error speaks of a
/// fault that is looked for before it.
pub proof fn law_empty_fields_are_told(field: Seq<char>)
    requires
        untick(trim(named_part(field))).len() > 0,
        !says_other_fault(ascii_lower((DecisionErrorView::EmptyField { field }).text())),
    ensures
        ({
            let name = untick(trim(named_part(field)));
            recoverable((DecisionErrorView::EmptyField { field }).text()) matches Some(fault)
                && contains(fault.summary, "`"@ + name + "` was empty"@) && (
            fault.guidance matches Some(advice) && contains(advice, "`"@ + name + "`"@))
        }),
{
    lemma_named_part(field);
    let name = untick(trim(named_part(field)));
    let told = "`"@ + name + "` was empty"@;
    lemma_part_stands(Seq::empty(), told, Seq::empty());
    assert(told =~= Seq::<char>::empty() + told + Seq::<char>::empty());
    let a = "Provide a meaningful value for `"@;
    let b = "` instead of leaving it blank."@;
    assert(a == a.drop_last() + "`"@ && b == "`"@ + b.skip(1)) by {
        reveal_strlit("Provide a meaningful value for `");
        reveal_strlit("` instead of leaving it blank.");
        reveal_strlit("`");
        assert(a =~= a.drop_last() + "`"@);
        assert(b =~= "`"@ + b.skip(1));
    }
    lemma_part_stands(a.drop_last(), "`"@ + name + "`"@, b.skip(1));
    assert(a + name + b =~= a.drop_last() + ("`"@ + name + "`"@) + b.skip(1));
}

/// The words by which an error is known, in small letters, whatever stands around them.
pub proof fn law_words_of_faults(before: Seq<char>, behind: Seq<char>)
    ensures
        says_missing(before + "missing prompt_sent_to_cli"@ + behind),
        says_missing(before + "missing cli prompt"@ + behind),
        says_too_long(before + "length limit"@ + behind),
        says_too_long(before + "cut off"@ + behind),
        says_not_json(before + "model response was not valid json"@ + behind),
        says_not_json(before + "parsing json from model output"@ + behind),
{
    lemma_part_stands(before, "missing prompt_sent_to_cli"@, behind);
    lemma_part_stands(before, "missing cli prompt"@, behind);
    lemma_part_stands(before, "length limit"@, behind);
    lemma_part_stands(before, "cut off"@, behind);
    lemma_part_stands(before, "model response was not valid json"@, behind);
    lemma_part_stands(before, "parsing json from model output"@, behind);
}

/// An error that none of the words stands in cannot be asked to be mended.
pub proof fn law_other_errors_are_not_recoverable(text: Seq<char>)
    requires
        ({
            let lower = ascii_lower(text);
            &&& !contains(lower, "missing"@)
            &&& !contains(lower, "length limit"@)
            &&& !contains(lower, "cut off"@)
            &&& !contains(lower, "exceeds"@)
            &&& !contains(lower, " is empty"@)
            &&& !contains(lower, "unexpected finish_status"@)
            &&& !contains(lower, "json"@)
            &&& !contains(lower, "decoding coordinator decision failed"@)
        }),
    ensures
        recoverable(text) is None,
{
    let lower = ascii_lower(text);
    reveal_strlit("missing");
    reveal_strlit("json");
    reveal_strlit("missing prompt_sent_to_cli");
    lemma_shorter_absent(lower, "missing"@, "missing prompt_sent_to_cli"@, 0);
    reveal_strlit("missing cli prompt for continue");
    lemma_shorter_absent(lower, "missing"@, "missing cli prompt for continue"@, 0);
    reveal_strlit("missing cli prompt for `finish_status");
    lemma_shorter_absent(lower, "missing"@, "missing cli prompt for `finish_status"@, 0);
    reveal_strlit("missing cli prompt");
    lemma_shorter_absent(lower, "missing"@, "missing cli prompt"@, 0);
    reveal_strlit("legacy model response missing cli_prompt for continue");
    lemma_shorter_absent(
        lower,
        "missing"@,
        "legacy model response missing cli_prompt for continue"@,
        22,
    );
    reveal_strlit("model response was not valid json");
    lemma_shorter_absent(lower, "json"@, "model response was not valid json"@, 29);
    reveal_strlit("parsing json from model output");
    lemma_shorter_absent(lower, "json"@, "parsing json from model output"@, 8);
}

/// Where a piece of a part is absent the part is.
proof fn lemma_shorter_absent(text: Seq<char>, piece: Seq<char>, part: Seq<char>, at: int)
    requires
        !contains(text, piece),
        0 <= at <= part.len() - piece.len(),
        forall|j: int| 0 <= j < piece.len() ==> part[at + j] == #[trigger] piece[j],
    ensures
        !contains(text, part),
{
    if contains(text, part) {
        let i = choose|i: int| occurs_at(text, part, i);
        assert forall|j: int| 0 <= j < piece.len() implies text[i + at + j] == #[trigger] piece[j] by {
            assert(text.subrange(i, i + part.len())[at + j] == text[i + at + j]);
        }
        lemma_stands_at(text, piece, i + at);
    }
}

/// Advice that is new is put behind the rest, trimmed; blank advice and advice that is there already
/// change nothing.
pub proof fn law_new_advice_is_put_in(list: Seq<Seq<char>>, text: Seq<char>)
    ensures
        blank(text) ==> with_guidance(list, text) == list,
        !blank(text) && (forall|i: int|
            0 <= i < list.len() ==> !same_ignoring_case(#[trigger] list[i], trim(text)))
            ==> with_guidance(list, text) == list.push(trim(text)),
        list.is_prefix_of(with_guidance(list, text)),
        !blank(text) ==> exists|i: int|
            0 <= i < with_guidance(list, text).len() && same_ignoring_case(
                #[trigger] with_guidance(list, text)[i],
                trim(text),
            ),
{
    let after = with_guidance(list, text);
    if !blank(text) {
        if exists|i: int| 0 <= i < list.len() && same_ignoring_case(#[trigger] list[i], trim(text)) {
            let i = choose|i: int|
                0 <= i < list.len() && same_ignoring_case(#[trigger] list[i], trim(text));
            assert(same_ignoring_case(after[i], trim(text)));
        } else {
            assert(same_ignoring_case(after[list.len() as int], trim(text)));
        }
    }
}

/// Of a reply its first 1200 characters are quoted, trimmed, with a mark exactly where there are
/// more.
pub proof fn law_how_much_is_quoted(raw: Seq<char>)
    ensures
        trim(raw).len() <= 1200 ==> excerpt(raw) == trim(raw),
        trim(raw).len() > 1200 ==> excerpt(raw).len() == 1201 && excerpt(raw).last() == '…'
            && excerpt(raw).drop_last() == trim(raw).take(1200),
{
    if trim(raw).len() > 1200 {
        assert(excerpt(raw).drop_last() =~= trim(raw).take(1200));
    }
}

/// Each line is kept, with the prefix in front of it.
pub proof fn law_lines_are_indented(all: Seq<Seq<char>>, prefix: Seq<char>, i: int)
    requires
        0 <= i < all.len(),
    ensures
        prefixed(all, prefix).len() == all.len(),
        prefixed(all, prefix)[i].take(prefix.len() as int) == prefix,
        prefixed(all, prefix)[i].skip(prefix.len() as int) == all[i],
{
    assert((prefix + all[i]).take(prefix.len() as int) =~= prefix);
    assert((prefix + all[i]).skip(prefix.len() as int) =~= all[i]);
}

/// Backticks around a name are taken off, all of them and nothing else.
pub proof fn law_backticks_are_taken_off(before: nat, name: Seq<char>, behind: nat)
    requires
        name.len() > 0,
        name[0] != '`',
        name.last() != '`',
    ensures
        untick(
            Seq::new(before, |i: int| '`') + name + Seq::new(behind, |i: int| '`'),
        ) == name,
    decreases before + behind,
{
    let s = Seq::new(before, |i: int| '`') + name + Seq::new(behind, |i: int| '`');
    if before > 0 {
        let fewer = (before - 1) as nat;
        law_backticks_are_taken_off(fewer, name, behind);
        assert(s[0] == '`');
        assert(s.drop_first() =~= Seq::new(fewer, |i: int| '`') + name + Seq::new(
            behind,
            |i: int| '`',
        ));
    } else {
        assert(s[0] == name[0]);
        assert(untick_start(s) == s);
        if behind > 0 {
            let fewer = (behind - 1) as nat;
            law_backticks_are_taken_off(before, name, fewer);
            let shorter = Seq::new(before, |i: int| '`') + name + Seq::new(fewer, |i: int| '`');
            assert(s.last() == '`');
            assert(s.drop_last() =~= shorter);
            assert(shorter[0] == name[0]);
            assert(untick_start(shorter) == shorter);
        } else {
            assert(s =~= name);
        }
    }
}

/// A reply of neither form is told that it did not match, and advised to spell every field; unless
/// the error speaks of a fault that is looked for before it.
pub proof fn law_replies_of_neither_form_are_told(
    new_err: Seq<char>,
    legacy_err: Seq<char>,
    snippet: Seq<char>,
)
    requires
        ({
            let lower = ascii_lower(
                (DecisionErrorView::Undecodable { new_err, legacy_err, snippet }).text(),
            );
            &&& !says_missing(lower)
            &&& !says_too_long(lower)
            &&& !contains(lower, "legacy model response missing cli_prompt for continue"@)
            &&& !contains(lower, " is empty"@)
            &&& !contains(lower, "unexpected finish_status"@)
            &&& !says_not_json(lower)
        }),
    ensures
        recoverable((DecisionErrorView::Undecodable { new_err, legacy_err, snippet }).text()) matches
            Some(fault) && contains(fault.summary, "did not match the coordinator schema"@) && (
        fault.guidance matches Some(advice) && contains(advice, "every required field"@)),
{
    law_mendable_faults_are_recoverable(
        DecisionErrorView::Undecodable { new_err, legacy_err, snippet },
    );
    reveal_strlit("response did not match the coordinator schema");
    reveal_strlit("did not match the coordinator schema");
    lemma_stands_at(
        "response did not match the coordinator schema"@,
        "did not match the coordinator schema"@,
        9,
    );
    reveal_strlit(
        "Ensure every required field is present and spelled correctly per the coordinator schema.",
    );
    reveal_strlit("every required field");
    lemma_stands_at(
        "Ensure every required field is present and spelled correctly per the coordinator schema."@,
        "every required field"@,
        7,
    );
}

} // verus!
