//! Putting a question to the coordinator's model.
use crate::compaction::ModelFamily;
use crate::items::{copy_item, items_view, make_message, message, ItemView, ResponseItem};
use crate::json::{copy_json, Json, JsonView};
use crate::prompts::{opt_str, role_message, USER_TURN_SCHEMA_NAME};
use crate::text::{blank, is_white, law_blank_is_white, opt_text, texts, trim, trim_str};
use crate::turn::TextFormat;
use vstd::prelude::*;
use vstd::string::*;

verus! {

/// A question to the model.
#[derive(Debug, Clone)]
pub struct Prompt {
    /// Whether the provider keeps the conversation.
    pub store: bool,
    /// The session that the question belongs to.
    pub session_id_override: Option<u128>,
    pub input: Vec<ResponseItem>,
    pub prepend_developer_messages: Vec<String>,
    pub text_format: Option<TextFormat>,
    pub model_override: Option<String>,
    pub model_family_override: Option<ModelFamily>,
    /// The name under which the question is logged.
    pub log_tag: Option<String>,
}

/// The form that a text is asked to have.
pub struct TextFormatView {
    pub format_type: Seq<char>,
    pub name: Option<Seq<char>>,
    pub strict: Option<bool>,
    pub schema: Option<JsonView>,
}

/// What a question says.
pub struct PromptView {
    pub store: bool,
    pub session_id_override: Option<u128>,
    pub input: Seq<ItemView>,
    pub prepend_developer_messages: Seq<Seq<char>>,
    pub text_format: Option<TextFormatView>,
    pub model_override: Option<Seq<char>>,
    pub model_family_override: Option<ModelFamily>,
    pub log_tag: Option<Seq<char>>,
}

impl View for TextFormat {
    type V = TextFormatView;

    open spec fn view(&self) -> TextFormatView {
        TextFormatView {
            format_type: self.format_type@,
            name: opt_text(self.name),
            strict: self.strict,
            schema: match self.schema {
                Some(schema) => Some(schema@),
                None => None,
            },
        }
    }
}

impl View for Prompt {
    type V = PromptView;

    open spec fn view(&self) -> PromptView {
        PromptView {
            store: self.store,
            session_id_override: self.session_id_override,
            input: items_view(self.input@),
            prepend_developer_messages: texts(self.prepend_developer_messages@),
            text_format: match self.text_format {
                Some(format) => Some(format@),
                None => None,
            },
            model_override: opt_text(self.model_override),
            model_family_override: self.model_family_override,
            log_tag: opt_text(self.log_tag),
        }
    }
}

/// What a question is made from.
pub struct Question<'a> {
    /// The surroundings in words.
    pub developer_intro: &'a str,
    /// The goal in words.
    pub primary_goal: &'a str,
    /// The role in words.
    pub coordinator_prompt: Option<&'a str>,
    /// What is said of the time that is left.
    pub time_budget_message: Option<&'a str>,
    /// What is said of a mission that goes round in circles.
    pub loop_warning: Option<&'a str>,
    /// The form that the reply is asked to have.
    pub schema: &'a Json,
    pub conversation: &'a Vec<ResponseItem>,
    pub model_slug: &'a str,
    pub model_family: ModelFamily,
    /// Instructions of the user's.
    pub auto_instructions: Option<&'a str>,
}

/// A message to the model about its work, unless it is blank.
pub open spec fn note(text: Option<Seq<char>>) -> Seq<ItemView> {
    match role_message(text) {
        Some(t) => seq![message("developer"@, t)],
        None => Seq::empty(),
    }
}

/// The items of a question: the notes on the work first, then the conversation.
pub open spec fn question_input(q: Question) -> Seq<ItemView> {
    note(opt_str(q.auto_instructions)) + note(opt_str(q.time_budget_message)) + note(
        opt_str(q.loop_warning),
    ) + seq![
        message("developer"@, q.developer_intro@),
        message("developer"@, q.primary_goal@),
    ] + items_view(q.conversation@)
}

/// A question in a given session.
pub open spec fn question(q: Question, session: u128) -> PromptView {
    PromptView {
        store: true,
        session_id_override: Some(session),
        input: question_input(q),
        prepend_developer_messages: match role_message(opt_str(q.coordinator_prompt)) {
            Some(role) => seq![role],
            None => Seq::empty(),
        },
        text_format: Some(
            TextFormatView {
                format_type: "json_schema"@,
                name: Some(USER_TURN_SCHEMA_NAME@),
                strict: Some(true),
                schema: Some(q.schema@),
            },
        ),
        model_override: Some(q.model_slug@),
        model_family_override: Some(q.model_family),
        log_tag: Some("auto/coordinator"@),
    }
}

/// Puts a message to the model about its work behind the others, unless it is blank.
fn push_note(input: &mut Vec<ResponseItem>, text: Option<&str>)
    ensures
        items_view(final(input)@) == items_view(old(input)@) + note(opt_str(text)),
{
    if let Some(text) = text {
        let trimmed = trim_str(text);
        if !trimmed.is_empty() {
            push_message(input, trimmed);
            return;
        }
    }
    assert(items_view(input@) =~= items_view(old(input)@) + Seq::<ItemView>::empty());
}

/// Puts a message to the model behind the others.
fn push_message(input: &mut Vec<ResponseItem>, text: &str)
    ensures
        items_view(final(input)@) == items_view(old(input)@) + seq![message("developer"@, text@)],
{
    let item = make_message("developer", text.to_owned());
    input.push(item);
    assert(items_view(input@) =~= items_view(old(input)@) + seq![message("developer"@, text@)]);
}

/// Puts copies of items behind the others.
fn push_items(input: &mut Vec<ResponseItem>, items: &Vec<ResponseItem>)
    ensures
        items_view(final(input)@) == items_view(old(input)@) + items_view(items@),
{
    let ghost before = items_view(input@);
    let mut i: usize = 0;
    assert(before + items_view(items@).take(0) =~= before);
    while i < items.len()
        invariant
            i <= items@.len(),
            items_view(input@) == before + items_view(items@).take(i as int),
        decreases items.len() - i,
    {
        let ghost so_far = input@;
        let item = copy_item(&items[i]);
        input.push(item);
        assert(items_view(input@) =~= items_view(so_far).push(item@));
        assert(items_view(input@) =~= before + items_view(items@).take(i + 1));
        i = i + 1;
    }
    assert(items_view(items@).take(i as int) =~= items_view(items@));
}

/// Makes a question in a given session.
pub fn build_user_turn_prompt_in(q: &Question, session: u128) -> (r: Prompt)
    ensures
        r@ == question(*q, session),
{
    let mut input: Vec<ResponseItem> = Vec::new();
    assert(items_view(input@) =~= Seq::<ItemView>::empty());
    push_note(&mut input, q.auto_instructions);
    push_note(&mut input, q.time_budget_message);
    push_note(&mut input, q.loop_warning);
    push_message(&mut input, q.developer_intro);
    push_message(&mut input, q.primary_goal);
    push_items(&mut input, q.conversation);
    assert(items_view(input@) =~= question_input(*q));
    let mut roles: Vec<String> = Vec::new();
    assert(texts(roles@) =~= Seq::<Seq<char>>::empty());
    if let Some(text) = q.coordinator_prompt {
        let trimmed = trim_str(text);
        if !trimmed.is_empty() {
            roles.push(trimmed.to_owned());
            assert(texts(roles@) =~= seq![trim(text@)]);
        }
    }
    Prompt {
        store: true,
        session_id_override: Some(session),
        input,
        prepend_developer_messages: roles,
        text_format: Some(
            TextFormat {
                format_type: "json_schema".to_owned(),
                name: Some(USER_TURN_SCHEMA_NAME.to_owned()),
                strict: Some(true),
                schema: Some(copy_json(q.schema)),
            },
        ),
        model_override: Some(q.model_slug.to_owned()),
        model_family_override: Some(q.model_family),
        log_tag: Some("auto/coordinator".to_owned()),
    }
}

/// A number with the marks of a random identifier: its version is 4, and its variant is that of
/// such identifiers.
pub open spec fn random_identifier(id: u128) -> bool {
    (id >> 76) & 0xf == 4 && (id >> 62) & 3 == 2
}

/// `uuid::Uuid::new_v4`, with the identifier handed out by `uuid::Uuid::as_u128`. It is drawn by
/// chance and carries the marks of a random identifier.
#[verifier::external_body]
fn new_session() -> (r: u128)
    ensures
        random_identifier(r),
{
    uuid::Uuid::new_v4().as_u128()
}

/// Makes a question in a session of its own.
pub fn build_user_turn_prompt(q: &Question) -> (r: Prompt)
    ensures
        r@.session_id_override matches Some(session) && random_identifier(session) && r@ == question(
            *q,
            session,
        ),
{
    let session: u128 = new_session();
    build_user_turn_prompt_in(q, session)
}

/// The conversation comes last in a question, whole and in its order, right behind the goal and
/// the surroundings.
pub proof fn law_conversation_comes_last(q: Question, session: u128)
    ensures
        ({
            let input = question(q, session).input;
            let before = input.len() - q.conversation@.len();
            &&& 2 <= before <= 5
            &&& input.skip(before) == items_view(q.conversation@)
            &&& input[before - 1] == message("developer"@, q.primary_goal@)
            &&& input[before - 2] == message("developer"@, q.developer_intro@)
        }),
{
    let input = question(q, session).input;
    let before = input.len() - q.conversation@.len();
    assert(input.skip(before) =~= items_view(q.conversation@));
}

/// Blank notes are not put to the model.
pub proof fn law_blank_notes_are_left_out(q: Question, session: u128)
    requires
        role_message(opt_str(q.auto_instructions)) is None,
        role_message(opt_str(q.time_budget_message)) is None,
        role_message(opt_str(q.loop_warning)) is None,
    ensures
        question(q, session).input.len() == q.conversation@.len() + 2,
{
}

/// What an optional note has to say: its text, trimmed, unless it is blank.
pub open spec fn said(text: Option<&str>) -> Seq<Seq<char>> {
    match text {
        Some(t) => if forall|k: int| 0 <= k < t@.len() ==> is_white(#[trigger] t@[k]) {
            Seq::empty()
        } else {
            seq![trim(t@)]
        },
        None => Seq::empty(),
    }
}

/// Every note that is not blank is put to the model, once and trimmed, as a message on its work:
/// the user's instructions first, then the time, then the warning, all in front of the surroundings
/// and the goal, behind which the conversation stands whole.
pub proof fn law_notes_reach_the_model(q: Question, session: u128)
    ensures
        ({
            let input = question(q, session).input;
            let notes = said(q.auto_instructions) + said(q.time_budget_message) + said(
                q.loop_warning,
            );
            let n = notes.len() as int;
            &&& input.len() == n + 2 + q.conversation@.len()
            &&& forall|i: int|
                0 <= i < n ==> #[trigger] input[i] == message("developer"@, notes[i])
            &&& input[n] == message("developer"@, q.developer_intro@)
            &&& input[n + 1] == message("developer"@, q.primary_goal@)
            &&& forall|i: int|
                0 <= i < q.conversation@.len() ==> #[trigger] input[n + 2 + i] == q.conversation@[i]@
        }),
{
    lemma_said(q.auto_instructions);
    lemma_said(q.time_budget_message);
    lemma_said(q.loop_warning);
}

/// What a note has to say is put to the model as one message.
proof fn lemma_said(text: Option<&str>)
    ensures
        said(text).len() == note(opt_str(text)).len(),
        said(text).len() <= 1,
        said(text).len() == 1 ==> note(opt_str(text))[0] == message("developer"@, said(text)[0]),
{
    if let Some(t) = text {
        law_blank_is_white(t@);
    }
}

/// A time budget that is given and not blank is told to the model, trimmed, in front of the
/// surroundings and the goal; so are the user's instructions and the warning.
pub proof fn law_no_note_is_lost(q: Question, session: u128, text: &str)
    requires
        !blank(text@),
        q.time_budget_message == Some(text) || q.auto_instructions == Some(text) || q.loop_warning
            == Some(text),
    ensures
        ({
            let input = question(q, session).input;
            let before = input.len() - q.conversation@.len() - 2;
            exists|i: int|
                0 <= i < before && #[trigger] input[i] == message("developer"@, trim(text@))
        }),
{
    law_notes_reach_the_model(q, session);
    law_blank_is_white(text@);
    let input = question(q, session).input;
    let a = said(q.auto_instructions);
    let t = said(q.time_budget_message);
    let l = said(q.loop_warning);
    let notes = a + t + l;
    let i: int = if q.auto_instructions == Some(text) {
        0
    } else if q.time_budget_message == Some(text) {
        a.len() as int
    } else {
        (a.len() + t.len()) as int
    };
    assert(notes[i] == trim(text@));
    assert(input[i] == message("developer"@, trim(text@)));
}

/// A question is put to the model that was chosen, in its session, with the role in front where
/// there is one, and asks for strict JSON in the form that was given.
pub proof fn law_how_a_question_is_put(q: Question, session: u128)
    ensures
        ({
            let put = question(q, session);
            &&& put.store
            &&& put.session_id_override == Some(session)
            &&& put.model_override == Some(q.model_slug@)
            &&& put.model_family_override == Some(q.model_family)
            &&& put.log_tag == Some("auto/coordinator"@)
            &&& put.prepend_developer_messages == said(q.coordinator_prompt)
            &&& put.text_format matches Some(format) && {
                &&& format.format_type == "json_schema"@
                &&& format.name == Some("auto_coordinator_user_turn"@)
                &&& format.strict == Some(true)
                &&& format.schema == Some(q.schema@)
            }
        }),
{
    if let Some(t) = q.coordinator_prompt {
        law_blank_is_white(t@);
    }
    assert(question(q, session).prepend_developer_messages =~= said(q.coordinator_prompt));
}

/// A question that is put in a session of its own says what it would in any other.
pub proof fn law_sessions_of_their_own(q: &Question, r: Prompt)
    requires
        call_ensures(build_user_turn_prompt, (q,), r),
    ensures
        r@.session_id_override is Some,
        r@.input.len() >= q.conversation@.len() + 2,
        r@.input.skip(r@.input.len() - q.conversation@.len()) == items_view(q.conversation@),
        r@.model_override == Some(q.model_slug@),
        r@.text_format matches Some(format) && format.schema == Some(q.schema@),
{
    let session = r@.session_id_override.unwrap();
    law_conversation_comes_last(*q, session);
}

} // verus!
