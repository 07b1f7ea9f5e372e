//! From a model's reply to a decision.
use crate::convert::{
    convert_decision_legacy, convert_decision_new, decision_result, legacy_decision,
    new_decision,
};
use crate::decision::{
    parse_finish_status, status_named, text_result, CoordinatorDecisionLegacy,
    CoordinatorDecisionNew, DecisionError, DecisionErrorView, DecisionView,
    ParsedCoordinatorDecision,
};
use crate::extract::{extract_first_json_object, first_object, law_first_object_idempotent};
use crate::json_text::{json_parsed, parse_json, result_texts};
use crate::text::{ascii_lower, same_ignoring_case, trim};
use vstd::prelude::*;
use vstd::string::*;
use vstd::utf8::{
    decode_utf8, decode_utf8_encode_utf8, decode_utf8_split, encode_utf8, encode_utf8_decode_utf8,
    encode_utf8_valid_utf8, is_char_boundary, valid_utf8_split,
};

verus! {

/// What the JSON in a reply is read as.
#[derive(Debug, Clone)]
pub enum DecodedDecision {
    New(CoordinatorDecisionNew),
    Legacy(CoordinatorDecisionLegacy),
    /// It has neither form; what is wrong with it in each.
    Neither { new_err: String, legacy_err: String },
}

/// What to read as JSON in a reply.
#[derive(Debug, Clone)]
pub enum JsonAttempt {
    /// The whole reply is JSON: its compact form.
    Whole(String),
    /// A part of the reply looks like JSON.
    Part(String),
}

/// What to read as JSON in a reply.
pub enum JsonAttemptView {
    Whole(Seq<char>),
    Part(Seq<char>),
}

/// What to read as JSON in a reply, given what the whole of it is read as.
pub open spec fn attempt(raw: Seq<char>, whole: Result<Seq<char>, Seq<char>>) -> Result<
    JsonAttemptView,
    DecisionErrorView,
> {
    match whole {
        Ok(json) => Ok(JsonAttemptView::Whole(json)),
        Err(_) => match first_object(raw) {
            Some(part) => Ok(JsonAttemptView::Part(part)),
            None => Err(DecisionErrorView::NotJson),
        },
    }
}

/// What a result of attempts says.
pub open spec fn attempt_result(r: Result<JsonAttempt, DecisionError>) -> Result<
    JsonAttemptView,
    DecisionErrorView,
> {
    match r {
        Ok(JsonAttempt::Whole(s)) => Ok(JsonAttemptView::Whole(s@)),
        Ok(JsonAttempt::Part(s)) => Ok(JsonAttemptView::Part(s@)),
        Err(e) => Err(e@),
    }
}

/// Chooses what to read as JSON in a reply: the whole, or else the first object in it.
pub fn choose_json(raw: &str, whole: Result<String, String>) -> (r: Result<
    JsonAttempt,
    DecisionError,
>)
    ensures
        attempt_result(r) == attempt(raw@, result_texts(whole)),
{
    match whole {
        Ok(json) => Ok(JsonAttempt::Whole(json)),
        Err(_) => match extract_first_json_object(raw) {
            Some(part) => Ok(JsonAttempt::Part(part)),
            None => Err(DecisionError::NotJson),
        },
    }
}

/// What the part of a reply that looks like JSON is read as.
pub open spec fn part_read(part: Result<Seq<char>, Seq<char>>) -> Result<
    Seq<char>,
    DecisionErrorView,
> {
    match part {
        Ok(json) => Ok(json),
        Err(cause) => Err(DecisionErrorView::BadJson { cause }),
    }
}

/// Takes what the part of a reply that looks like JSON is read as.
pub fn accept_part(part: Result<String, String>) -> (r: Result<String, DecisionError>)
    ensures
        text_result(r) == part_read(result_texts(part)),
{
    match part {
        Ok(json) => Ok(json),
        Err(cause) => Err(DecisionError::BadJson { cause }),
    }
}

/// The JSON in a reply, in compact form.
pub open spec fn reply_json(raw: Seq<char>) -> Result<Seq<char>, DecisionErrorView> {
    match attempt(raw, json_parsed(raw)) {
        Ok(JsonAttemptView::Whole(json)) => Ok(json),
        Ok(JsonAttemptView::Part(part)) => part_read(json_parsed(part)),
        Err(e) => Err(e),
    }
}

/// Finds the JSON in a reply.
pub fn decision_json(raw: &str) -> (r: Result<String, DecisionError>)
    ensures
        text_result(r) == reply_json(raw@),
{
    match choose_json(raw, parse_json(raw)) {
        Ok(JsonAttempt::Whole(json)) => Ok(json),
        Ok(JsonAttempt::Part(part)) => accept_part(parse_json(part.as_str())),
        Err(e) => Err(e),
    }
}

/// How many bytes of a text an error quotes at most.
pub const SNIPPET_BYTES: usize = 2000;

/// A text can be cut where an error would cut it.
pub open spec fn cuttable(payload: Seq<char>) -> bool {
    encode_utf8(payload).len() > SNIPPET_BYTES ==> is_char_boundary(
        encode_utf8(payload),
        SNIPPET_BYTES as int,
    )
}

/// What an error quotes of a text: as much as it may, and a mark where that is not all.
pub open spec fn quoted(payload: Seq<char>) -> Seq<char> {
    if encode_utf8(payload).len() > SNIPPET_BYTES {
        decode_utf8(encode_utf8(payload).subrange(0, SNIPPET_BYTES as int)) + "…"@
    } else {
        payload
    }
}

/// What an error quotes of a text.
pub fn snippet(payload: &str) -> (r: String)
    requires
        cuttable(payload@),
    ensures
        r@ == quoted(payload@),
{
    if payload.as_bytes().len() > SNIPPET_BYTES {
        let (head, _) = payload.split_at(SNIPPET_BYTES);
        proof {
            encode_utf8_decode_utf8(head@);
        }
        let mut text = head.to_owned();
        text.append("…");
        text
    } else {
        payload.to_owned()
    }
}

/// The decision that a reply holds, given what its JSON is read as; `payload` is that JSON.
pub open spec fn decided(decoded: DecodedDecision, payload: Seq<char>) -> Result<
    DecisionView,
    DecisionErrorView,
> {
    match decoded {
        DecodedDecision::New(d) => match status_named(d.finish_status@) {
            Some(status) => new_decision(d, status),
            None => Err(
                DecisionErrorView::UnexpectedStatus { value: ascii_lower(trim(d.finish_status@)) },
            ),
        },
        DecodedDecision::Legacy(d) => match status_named(d.finish_status@) {
            Some(status) => legacy_decision(d, status),
            None => Err(
                DecisionErrorView::UnexpectedStatus { value: ascii_lower(trim(d.finish_status@)) },
            ),
        },
        DecodedDecision::Neither { new_err, legacy_err } => Err(
            DecisionErrorView::Undecodable {
                new_err: new_err@,
                legacy_err: legacy_err@,
                snippet: quoted(payload),
            },
        ),
    }
}

/// Makes the decision that a reply holds from what its JSON is read as. [`decision_json`] finds
/// the JSON.
pub fn parse_decision(decoded: DecodedDecision, payload: &str) -> (r: Result<
    ParsedCoordinatorDecision,
    DecisionError,
>)
    requires
        decoded is Neither ==> cuttable(payload@),
    ensures
        decision_result(r) == decided(decoded, payload@),
{
    match decoded {
        DecodedDecision::New(decision) => match parse_finish_status(decision.finish_status.as_str()) {
            Ok(status) => convert_decision_new(decision, status),
            Err(e) => Err(e),
        },
        DecodedDecision::Legacy(decision) => match parse_finish_status(
            decision.finish_status.as_str(),
        ) {
            Ok(status) => convert_decision_legacy(decision, status),
            Err(e) => Err(e),
        },
        DecodedDecision::Neither { new_err, legacy_err } => Err(
            DecisionError::Undecodable { new_err, legacy_err, snippet: snippet(payload) },
        ),
    }
}

/// A reply that is JSON as a whole is read as a whole, and one that is not is read as if it were
/// its first object alone.
pub proof fn law_reply_json(raw: Seq<char>)
    ensures
        json_parsed(raw) matches Ok(json) ==> reply_json(raw) == Ok::<_, DecisionErrorView>(json),
        json_parsed(raw) is Err && first_object(raw) is None ==> reply_json(raw) == Err::<
            Seq<char>,
            _,
        >(DecisionErrorView::NotJson),
        json_parsed(raw) is Err ==> (first_object(raw) matches Some(part) ==> reply_json(raw)
            == reply_json(part)),
{
    law_first_object_idempotent(raw);
}

/// A reply is decided by the status that it names, and one that names none is told which word it has,
/// in small letters; a reply of neither form is told what is wrong with it in each.
pub proof fn law_replies_are_decided_by_their_status(
    decoded: DecodedDecision,
    payload: Seq<char>,
)
    ensures
        match decoded {
            DecodedDecision::New(d) => {
                &&& decided(decoded, payload) matches Ok(decision) ==> status_named(
                    d.finish_status@,
                ) == Some(decision.status)
                &&& status_named(d.finish_status@) is None <==> (decided(decoded, payload) matches
                    Err(e) && e is UnexpectedStatus)
                &&& status_named(d.finish_status@) matches Some(status) ==> decided(
                    decoded,
                    payload,
                ) == new_decision(d, status)
                &&& decided(decoded, payload) matches Err(
                    DecisionErrorView::UnexpectedStatus { value },
                ) ==> same_ignoring_case(value, trim(d.finish_status@))
            },
            DecodedDecision::Legacy(d) => {
                &&& decided(decoded, payload) matches Ok(decision) ==> status_named(
                    d.finish_status@,
                ) == Some(decision.status)
                &&& status_named(d.finish_status@) is None <==> (decided(decoded, payload) matches
                    Err(e) && e is UnexpectedStatus)
                &&& status_named(d.finish_status@) matches Some(status) ==> decided(
                    decoded,
                    payload,
                ) == legacy_decision(d, status)
                &&& decided(decoded, payload) matches Err(
                    DecisionErrorView::UnexpectedStatus { value },
                ) ==> same_ignoring_case(value, trim(d.finish_status@))
            },
            DecodedDecision::Neither { new_err, legacy_err } => decided(decoded, payload) matches
                Err(DecisionErrorView::Undecodable { new_err: a, legacy_err: b, snippet }) && a
                == new_err@ && b == legacy_err@ && (encode_utf8(payload).len() <= 2000 ==> snippet
                == payload) && (encode_utf8(payload).len() > 2000 ==> snippet.len() > 0
                && snippet.last() == '…'),
        },
{
    reveal_strlit("…");
    match decoded {
        DecodedDecision::New(d) => {
            lemma_lower_is_same(trim(d.finish_status@));
        },
        DecodedDecision::Legacy(d) => {
            lemma_lower_is_same(trim(d.finish_status@));
        },
        _ => {},
    }
}

/// A text in small letters is the same but for capitals.
proof fn lemma_lower_is_same(s: Seq<char>)
    ensures
        same_ignoring_case(ascii_lower(s), s),
{
    assert(ascii_lower(ascii_lower(s)) =~= ascii_lower(s));
}

/// A part of a reply that is no JSON is told with its fault, and one that is JSON is taken.
pub proof fn law_parts_are_read(part: Result<Seq<char>, Seq<char>>)
    ensures
        part matches Ok(json) ==> part_read(part) == Ok::<_, DecisionErrorView>(json),
        part matches Err(cause) ==> part_read(part) == Err::<Seq<char>, _>(
            DecisionErrorView::BadJson { cause },
        ),
{
}

/// Of a text of more than 2000 bytes an error quotes the first 2000, and a mark behind them.
pub proof fn law_long_texts_are_quoted_in_part(payload: Seq<char>)
    requires
        encode_utf8(payload).len() > 2000,
        cuttable(payload),
    ensures
        ({
            let words = quoted(payload);
            &&& words.len() > 0
            &&& words.last() == '…'
            &&& words.drop_last().is_prefix_of(payload)
            &&& encode_utf8(words.drop_last()) == encode_utf8(payload).take(2000)
        }),
{
    let bytes = encode_utf8(payload);
    let head = bytes.subrange(0, 2000);
    encode_utf8_valid_utf8(payload);
    valid_utf8_split(bytes, 2000);
    decode_utf8_split(bytes, 2000);
    decode_utf8_encode_utf8(head);
    encode_utf8_decode_utf8(payload);
    reveal_strlit("…");
    assert(quoted(payload).drop_last() =~= decode_utf8(head));
    assert(head =~= bytes.take(2000));
}

} // verus!
