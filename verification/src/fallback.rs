//! Which model to ask, and which to ask when the provider does not know it.
use crate::errors::{client_error, Cause, CodexErr, ErrorChain};
use crate::text::{
    ascii_lower, blank, contains, equal_ignoring_case, is_blank, law_blank_is_white,
    lemma_part_stands, same_ignoring_case, str_contains, str_equal,
};
use vstd::prelude::*;
use vstd::string::*;
use vstd::utf8::is_ascii_chars;

verus! {

/// The model that is asked where no other is named.
pub const MODEL_SLUG: &'static str = "gpt-5.1";

/// How long a model's texts are.
#[derive(Debug, Clone, Copy, PartialEq, Eq, Structural)]
pub enum TextVerbosity {
    Low,
    Medium,
    High,
}

/// How hard a model thinks.
#[derive(Debug, Clone, Copy, PartialEq, Eq, Structural)]
pub enum ReasoningEffort {
    Minimal,
    Low,
    Medium,
    High,
    XHigh,
    /// Nothing is configured.
    Unset,
}

/// The lengths of text that a model can give, in order.
pub open spec fn verbosities(model: Seq<char>) -> Seq<TextVerbosity> {
    if same_ignoring_case(model, "gpt-5.1-codex-max"@) {
        seq![TextVerbosity::Medium]
    } else {
        seq![TextVerbosity::Low, TextVerbosity::Medium, TextVerbosity::High]
    }
}

/// The lengths of text that a model can give.
pub fn supported_text_verbosity_for_model(model: &str) -> (r: Vec<TextVerbosity>)
    ensures
        r@ == verbosities(model@),
{
    let mut supported: Vec<TextVerbosity> = Vec::new();
    if equal_ignoring_case(model, "gpt-5.1-codex-max") {
        supported.push(TextVerbosity::Medium);
    } else {
        supported.push(TextVerbosity::Low);
        supported.push(TextVerbosity::Medium);
        supported.push(TextVerbosity::High);
    }
    assert(supported@ =~= verbosities(model@));
    supported
}

/// The length of text to ask for, among those that can be had: medium, or else the first.
pub open spec fn chosen_verbosity(allowed: Seq<TextVerbosity>) -> TextVerbosity {
    if allowed.contains(TextVerbosity::Medium) || allowed.len() == 0 {
        TextVerbosity::Medium
    } else {
        allowed[0]
    }
}

/// Chooses the length of text to ask for.
pub fn choose_verbosity(allowed: &Vec<TextVerbosity>) -> (r: TextVerbosity)
    ensures
        r == chosen_verbosity(allowed@),
{
    let mut i: usize = 0;
    while i < allowed.len()
        invariant
            i <= allowed@.len(),
            forall|j: int| 0 <= j < i ==> allowed@[j] != TextVerbosity::Medium,
        decreases allowed.len() - i,
    {
        if allowed[i] == TextVerbosity::Medium {
            assert(allowed@[i as int] == TextVerbosity::Medium);
            return TextVerbosity::Medium;
        }
        i = i + 1;
    }
    if allowed.len() == 0 {
        TextVerbosity::Medium
    } else {
        allowed[0]
    }
}

/// Every model can give texts of medium length, and that is what is asked for.
pub proof fn law_medium_is_chosen(model: Seq<char>)
    ensures
        chosen_verbosity(verbosities(model)) == TextVerbosity::Medium,
{
    let all = verbosities(model);
    if same_ignoring_case(model, "gpt-5.1-codex-max"@) {
        assert(all[0] == TextVerbosity::Medium);
    } else {
        assert(all[1] == TextVerbosity::Medium);
    }
}

/// The model to ask: the configured one, unless it is blank.
pub fn effective_model(configured: String) -> (r: String)
    ensures
        r@ == if blank(configured@) {
            MODEL_SLUG@
        } else {
            configured@
        },
{
    if is_blank(configured.as_str()) {
        MODEL_SLUG.to_owned()
    } else {
        configured
    }
}

/// How hard the model is asked to think: as configured, and hard where nothing is configured.
pub fn effective_effort(configured: ReasoningEffort) -> (r: ReasoningEffort)
    ensures
        r == if configured is Unset {
            ReasoningEffort::High
        } else {
            configured
        },
{
    match configured {
        ReasoningEffort::Unset => ReasoningEffort::High,
        other => other,
    }
}

/// What `str::to_lowercase` makes of a text.
pub uninterp spec fn lowercase(text: Seq<char>) -> Seq<char>;

/// `str::to_lowercase`. What it gives depends on the text alone, and of a text of ASCII characters
/// it is the text with its capital letters made small. What it makes of other characters is left
/// unsaid.
#[verifier::external_body]
fn to_lowercase(text: &str) -> (r: String)
    ensures
        r@ == lowercase(text@),
        is_ascii_chars(text@) ==> r@ == ascii_lower(text@),
{
    text.to_lowercase()
}

/// A body, in small letters, that says that the model is not known.
pub open spec fn says_unknown_model(lower: Seq<char>) -> bool {
    ||| contains(lower, "invalid model"@)
    ||| contains(lower, "unknown model"@)
    ||| contains(lower, "model_not_found"@)
    ||| contains(lower, "model does not exist"@)
}

/// Whether a body, in small letters, says that the model is not known.
pub fn names_unknown_model(lower: &str) -> (r: bool)
    ensures
        r == says_unknown_model(lower@),
{
    str_contains(lower, "invalid model") || str_contains(lower, "unknown model") || str_contains(
        lower,
        "model_not_found",
    ) || str_contains(lower, "model does not exist")
}

/// A cause that blames the model that was asked for.
pub open spec fn blames_model(cause: Cause) -> bool {
    cause matches Cause::Codex(CodexErr::UnexpectedStatus { status, body }) && client_error(status@)
        && says_unknown_model(lowercase(body@))
}

/// A cause that blames the model in ASCII characters, in capitals or small letters.
pub open spec fn plainly_blames_model(cause: Cause) -> bool {
    cause matches Cause::Codex(CodexErr::UnexpectedStatus { status, body }) && client_error(status@)
        && is_ascii_chars(body@) && says_unknown_model(ascii_lower(body@))
}

/// Whether a cause blames the model that was asked for.
fn cause_blames_model(cause: &Cause) -> (r: bool)
    ensures
        r == blames_model(*cause),
        plainly_blames_model(*cause) ==> r,
{
    match cause {
        Cause::Codex(CodexErr::UnexpectedStatus { status, body }) => {
            let code: u16 = status.code();
            if 400 <= code && code < 500 {
                let lower = to_lowercase(body.as_str());
                names_unknown_model(lower.as_str())
            } else {
                false
            }
        },
        _ => false,
    }
}

/// An error in whose chain some cause blames the model that was asked for.
pub open spec fn model_unknown(causes: Seq<Cause>) -> bool {
    exists|i: int| 0 <= i < causes.len() && blames_model(#[trigger] causes[i])
}

/// Whether an error says that the provider does not know the model, so that another is worth
/// trying.
pub fn should_retry_with_default_model(error: &ErrorChain) -> (r: bool)
    ensures
        r == model_unknown(error.causes@),
        (exists|i: int|
            0 <= i < error.causes@.len() && plainly_blames_model(#[trigger] error.causes@[i])) ==> r,
{
    let mut i: usize = 0;
    while i < error.causes.len()
        invariant
            i <= error.causes@.len(),
            forall|j: int| 0 <= j < i ==> !blames_model(#[trigger] error.causes@[j]),
            forall|j: int| 0 <= j < i ==> !plainly_blames_model(#[trigger] error.causes@[j]),
        decreases error.causes.len() - i,
    {
        if cause_blames_model(&error.causes[i]) {
            assert(blames_model(error.causes@[i as int]));
            return true;
        }
        i = i + 1;
    }
    false
}

/// The model to ask in place of `preferred`.
pub open spec fn fallback_slug(preferred: Seq<char>, default_slug: Seq<char>) -> Seq<char> {
    if same_ignoring_case(default_slug, preferred) {
        MODEL_SLUG@
    } else {
        default_slug
    }
}

/// The model to ask after an error: another one than `preferred`, where the error says that the
/// provider does not know that. `unknown_model` is what [`should_retry_with_default_model`] says
/// of the error.
pub fn fallback_model(preferred: &str, default_slug: &str, unknown_model: bool) -> (r: Option<String>)
    ensures
        r is Some <==> unknown_model && fallback_slug(preferred@, default_slug@) != preferred@,
        r matches Some(slug) ==> slug@ == fallback_slug(preferred@, default_slug@),
{
    let slug = if equal_ignoring_case(default_slug, preferred) {
        MODEL_SLUG.to_owned()
    } else {
        default_slug.to_owned()
    };
    if unknown_model && !str_equal(slug.as_str(), preferred) {
        Some(slug)
    } else {
        None
    }
}

/// The model to ask after an error, if another is worth trying.
pub fn plan_fallback(preferred: &str, default_slug: &str, error: &ErrorChain) -> (r: Option<String>)
    ensures
        r is Some <==> model_unknown(error.causes@) && fallback_slug(preferred@, default_slug@)
            != preferred@,
        r matches Some(slug) ==> slug@ == fallback_slug(preferred@, default_slug@),
{
    fallback_model(preferred, default_slug, should_retry_with_default_model(error))
}

/// Every model but the one built in has another to be asked in its place.
pub proof fn law_only_builtin_lacks_fallback(preferred: Seq<char>, default_slug: Seq<char>)
    requires
        preferred != MODEL_SLUG@,
    ensures
        fallback_slug(preferred, default_slug) != preferred,
{
}

/// What is said of a second error, after another model was asked in vain.
pub open spec fn fallback_words(slug: Seq<char>, original: Seq<char>) -> Seq<char> {
    "coordinator fallback with model '"@ + slug + "' failed after original error: "@ + original
}

/// The error after another model was asked in vain.
pub fn fallback_error(slug: &str, original: &ErrorChain, second: ErrorChain) -> (r: ErrorChain)
    ensures
        r.text@ == fallback_words(slug@, original.text@),
        r.causes@ == seq![Cause::Other] + second.causes@,
        r.cancelled == second.cancelled,
{
    let mut text = "coordinator fallback with model '".to_owned();
    text.append(slug);
    text.append("' failed after original error: ");
    text.append(original.text.as_str());
    second.with_context(text)
}

/// In place of a model that is not known the configured one is asked, unless it is that model, in
/// capitals or small letters; then the one built in is.
pub proof fn law_which_model_is_asked_instead(preferred: Seq<char>, default_slug: Seq<char>)
    ensures
        !same_ignoring_case(preferred, default_slug) ==> fallback_slug(preferred, default_slug)
            == default_slug,
        same_ignoring_case(preferred, default_slug) ==> fallback_slug(preferred, default_slug)
            == "gpt-5.1"@,
{
}

/// A body says that the model is not known exactly where it holds one of four phrases.
pub proof fn law_how_unknown_models_are_told(before: Seq<char>, behind: Seq<char>, body: Seq<char>)
    ensures
        says_unknown_model(before + "invalid model"@ + behind),
        says_unknown_model(before + "unknown model"@ + behind),
        says_unknown_model(before + "model_not_found"@ + behind),
        says_unknown_model(before + "model does not exist"@ + behind),
        says_unknown_model(body) ==> contains(body, "invalid model"@) || contains(
            body,
            "unknown model"@,
        ) || contains(body, "model_not_found"@) || contains(body, "model does not exist"@),
{
    lemma_part_stands(before, "invalid model"@, behind);
    lemma_part_stands(before, "unknown model"@, behind);
    lemma_part_stands(before, "model_not_found"@, behind);
    lemma_part_stands(before, "model does not exist"@, behind);
}

/// A model is taken for unknown exactly where some error in the chain is a reply of the provider
/// with a status from 400 to 499 that says so.
pub proof fn law_when_a_model_is_unknown(causes: Seq<Cause>)
    ensures
        model_unknown(causes) <==> exists|i: int|
            0 <= i < causes.len() && (#[trigger] causes[i] matches Cause::Codex(
                CodexErr::UnexpectedStatus { status, body },
            ) && 400 <= status@ <= 499 && says_unknown_model(lowercase(body@))),
{
    if model_unknown(causes) {
        let i = choose|i: int| 0 <= i < causes.len() && blames_model(#[trigger] causes[i]);
        assert(causes[i] matches Cause::Codex(CodexErr::UnexpectedStatus { status, body })
            && 400 <= status@ <= 499 && says_unknown_model(lowercase(body@)));
    }
    if exists|i: int|
        0 <= i < causes.len() && (#[trigger] causes[i] matches Cause::Codex(
            CodexErr::UnexpectedStatus { status, body },
        ) && 400 <= status@ <= 499 && says_unknown_model(lowercase(body@))) {
        let i = choose|i: int|
            0 <= i < causes.len() && (#[trigger] causes[i] matches Cause::Codex(
                CodexErr::UnexpectedStatus { status, body },
            ) && 400 <= status@ <= 499 && says_unknown_model(lowercase(body@)));
        assert(blames_model(causes[i]));
    }
}

/// The error after two models were asked in vain names the second and what was said of the first.
pub proof fn law_both_errors_are_told(slug: Seq<char>, original: Seq<char>)
    ensures
        contains(fallback_words(slug, original), "'"@ + slug + "'"@),
        contains(fallback_words(slug, original), original),
{
    let words = fallback_words(slug, original);
    let a = "coordinator fallback with model '"@;
    let b = "' failed after original error: "@;
    reveal_strlit("coordinator fallback with model '");
    reveal_strlit("' failed after original error: ");
    reveal_strlit("'");
    let front = a.drop_last();
    let behind = b.skip(1) + original;
    assert(a =~= front + "'"@);
    assert(b =~= "'"@ + b.skip(1));
    lemma_part_stands(front, "'"@ + slug + "'"@, behind);
    assert(words =~= front + ("'"@ + slug + "'"@) + behind);
    lemma_part_stands(a + slug + b, original, Seq::empty());
    assert(words =~= a + slug + b + original + Seq::<char>::empty());
}

/// Every model gives texts of all three lengths, but for one that gives medium ones only.
pub proof fn law_lengths_of_texts(model: Seq<char>)
    ensures
        same_ignoring_case(model, "gpt-5.1-codex-max"@) ==> verbosities(model).len() == 1
            && verbosities(model)[0] is Medium,
        !same_ignoring_case(model, "gpt-5.1-codex-max"@) ==> verbosities(model).len() == 3
            && verbosities(model)[0] is Low && verbosities(model)[1] is Medium && verbosities(
            model,
        )[2] is High,
{
}

/// Of the lengths that can be had medium is chosen where it is among them, and else the first.
pub proof fn law_which_length_is_chosen(allowed: Seq<TextVerbosity>, i: int)
    ensures
        0 <= i < allowed.len() && allowed[i] is Medium ==> chosen_verbosity(allowed) is Medium,
        allowed.len() > 0 ==> allowed.contains(chosen_verbosity(allowed)),
        allowed.len() == 0 ==> chosen_verbosity(allowed) is Medium,
        chosen_verbosity(allowed) is Medium || chosen_verbosity(allowed) == allowed[0],
{
    if 0 <= i < allowed.len() && allowed[i] is Medium {
        assert(allowed[i] == TextVerbosity::Medium);
    }
    if allowed.len() > 0 && !allowed.contains(TextVerbosity::Medium) {
        assert(allowed[0] == chosen_verbosity(allowed));
    }
}

/// The model is asked to think as hard as is configured, and hard where nothing is.
pub proof fn law_how_hard_the_model_thinks(configured: ReasoningEffort, r: ReasoningEffort)
    requires
        call_ensures(effective_effort, (configured,), r),
    ensures
        !(r is Unset),
        configured is Unset ==> r is High,
        !(configured is Unset) ==> r == configured,
{
}

/// The model that is asked is the configured one, word for word, unless it is blank.
pub proof fn law_which_model_is_asked(configured: String, r: String)
    requires
        call_ensures(effective_model, (configured,), r),
    ensures
        !blank(r@),
        !blank(configured@) ==> r@ == configured@,
        blank(configured@) ==> r@ == "gpt-5.1"@,
{
    reveal_strlit("gpt-5.1");
    law_blank_is_white("gpt-5.1"@);
    assert("gpt-5.1"@[0] == 'g');
}

/// Another model is asked exactly where the provider does not know the first and there is another.
pub proof fn law_when_another_model_is_asked(
    preferred: &str,
    default_slug: &str,
    error: &ErrorChain,
    r: Option<String>,
)
    requires
        call_ensures(plan_fallback, (preferred, default_slug, error), r),
    ensures
        !model_unknown(error.causes@) ==> r is None,
        r matches Some(slug) ==> slug@ != preferred@,
        model_unknown(error.causes@) && !same_ignoring_case(preferred@, default_slug@) ==> (
        r matches Some(slug) && slug@ == default_slug@),
        model_unknown(error.causes@) && same_ignoring_case(preferred@, default_slug@) && preferred@
            != "gpt-5.1"@ ==> (r matches Some(slug) && slug@ == "gpt-5.1"@),
        same_ignoring_case(preferred@, default_slug@) && preferred@ == "gpt-5.1"@ ==> r is None,
{
}

} // verus!
