//! The form in which the model is asked to decide.
use crate::decision::{law_words_name_statuses, status_named, CLI_PROMPT_MIN_CHARS};
use crate::events::AutoCoordinatorStatus;
use crate::json::{
    array_value, bool_value, json_list, json_members, member_from, no_members, no_values,
    number_value, object_value, put, put_text, text_value, Json, JsonView,
};
use crate::text::{
    contains, decimal, law_decimal_is_the_number, lemma_stands_at, lemma_trim_of_trimmed,
    number_of, texts,
};
use vstd::prelude::*;

verus! {

/// What the model is told of the status.
pub const FINISH_STATUS_WORDS: &'static str = "Prefer 'continue' unless the mission is fully complete or truly blocked. Always consider what further work might be possible to confirm the goal is complete before ending.";

/// What the model is told of the goal.
pub const GOAL_WORDS: &'static str = "Provide the single primary coding goal derived from the recent conversation history to begin Auto Drive without a user-supplied prompt.";

/// What the model is told of the headline.
pub const STATUS_TITLE_WORDS: &'static str = "1-4 words, present-tense, what you asked the CLI to work on now.";

/// What the model is told of the message to the user.
pub const STATUS_SENT_WORDS: &'static str = "1-2 sentences shown to the user explaining what you asked the CLI to work on now. Will be shown in the UI to keep the user updated on the progress.";

/// What the model is told of waiting for the user.
pub const INPUT_REQUIRED_WORDS: &'static str = "Set true only if you are blocked and cannot proceed without specific user-provided data that you cannot derive yourself (e.g., credentials, missing permissions). If you can continue without it, keep this false. When true, Auto Drive will wait indefinitely for the user response instead of auto-continuing. Also set input_required to true if you are repeatedly waiting for user input in a loop; stop and require the input instead of continuing.";

/// What the model is told of the instruction.
pub const PROMPT_WORDS: &'static str = "Instruction sent to the CLI to push it forward with the task (4-600 chars). Write this like a human maintainer pushing the CLI forwards, without digging too deep into the technical side. Provide when finish_status is 'continue'. Keep it high-level; the CLI has more context and tools than you do. e.g. 'Execute the first two steps of the plan you provided in parellel using agents.' NEVER ask the CLI to show you files so you solve problems directly. ALWAYS allow the CLI to take control. You are the COORDINATOR not the WORKER. Prompts over 600 characters will be rejected as this indicates the CLI is not being given sufficient autonomy.";

/// What the model is told of helper agents.
pub const AGENTS_WORDS: &'static str = "Parallel help agents for the CLI to spawn. Use often. Agents are faster, parallelize work and allow exploration of a range of approaches.";

/// What the model is told of when helper agents run.
pub const TIMING_WORDS: &'static str = "Parallel: run while the CLI works. Blocking: wait for results before the CLI executes the prompt you provided.";

/// What the model is told of helper agents that write.
pub const WRITE_WORDS: &'static str = "Creates an isolated worktree for each agent and enable writes to that worktree. Default false so that the agent can only read files.";

/// What the model is told of the background of helper agents.
pub const CONTEXT_WORDS: &'static str = "Background details (agents can not see the conversation - you must provide ALL neccessary information here). You might want to include parts of the plan or conversation history relevant to the work given to the agent.";

/// What the model is told of what helper agents are to do.
pub const AGENT_PROMPT_WORDS: &'static str = "Outcome-oriented instruction (what to produce).";

/// What the model is told of the list of helper agents.
pub const AGENT_LIST_WORDS: &'static str = "Up to 3 batches per turn with up to 4 agents in each. Use agents whenever it will help to source a variety of opinions when planning/researching or when there a mulitple workstreams which can be extecuted at once. Instruct the agent to carefully merge in the results of the agents work. Another great reason to use agents is that it helps to split the work up in small batches with a new context history - this speeds up work and dramatically improve focus. Having said that, the CLI has to be responible for merging in the results and producing the final product, so you need to balance the work given to the agents vs work given to the CLI at each step.";

/// Settings of a run that the form depends on.
#[derive(Debug, Clone, Copy)]
pub struct AutoDriveSettings {
    pub agents_enabled: bool,
    /// The most turns that the coordinator may take; none where it is 0.
    pub coordinator_turn_cap: u32,
}

/// What the form asks for.
#[derive(Debug, Clone, Copy, PartialEq, Eq, Structural)]
pub struct SchemaFeatures {
    /// Helper agents.
    pub include_agents: bool,
    /// The goal.
    pub include_goal_field: bool,
}

impl SchemaFeatures {
    /// What the form asks for under given settings.
    pub fn from_auto_settings(settings: &AutoDriveSettings) -> (r: Self)
        ensures
            r.include_agents == settings.agents_enabled,
            !r.include_goal_field,
    {
        SchemaFeatures { include_agents: settings.agents_enabled, include_goal_field: false }
    }
}

impl Default for SchemaFeatures {
    fn default() -> (r: Self)
        ensures
            r.include_agents,
            !r.include_goal_field,
    {
        SchemaFeatures { include_agents: true, include_goal_field: false }
    }
}

/// Texts as JSON values.
pub open spec fn texts_json(list: Seq<Seq<char>>) -> Seq<JsonView> {
    Seq::new(list.len(), |i: int| JsonView::Text(list[i]))
}

/// An array of texts.
pub open spec fn text_list(list: Seq<Seq<char>>) -> JsonView {
    JsonView::Array(texts_json(list))
}

/// An array of two texts.
fn two_texts(a: &str, b: &str) -> (r: Json)
    ensures
        r@ == text_list(seq![a@, b@]),
{
    let mut list = no_values();
    put_text(&mut list, a);
    put_text(&mut list, b);
    assert(json_list(list@) =~= texts_json(seq![a@, b@]));
    array_value(list)
}

/// An array of three texts.
fn three_texts(a: &str, b: &str, c: &str) -> (r: Json)
    ensures
        r@ == text_list(seq![a@, b@, c@]),
{
    let mut list = no_values();
    put_text(&mut list, a);
    put_text(&mut list, b);
    put_text(&mut list, c);
    assert(json_list(list@) =~= texts_json(seq![a@, b@, c@]));
    array_value(list)
}

/// An array of four texts.
fn four_texts(a: &str, b: &str, c: &str, d: &str) -> (r: Json)
    ensures
        r@ == text_list(seq![a@, b@, c@, d@]),
{
    let mut list = no_values();
    put_text(&mut list, a);
    put_text(&mut list, b);
    put_text(&mut list, c);
    put_text(&mut list, d);
    assert(json_list(list@) =~= texts_json(seq![a@, b@, c@, d@]));
    array_value(list)
}

/// An array of texts.
fn all_texts(list: &Vec<String>) -> (r: Json)
    ensures
        r@ == text_list(texts(list@)),
{
    let mut out = no_values();
    let mut i: usize = 0;
    while i < list.len()
        invariant
            i <= list@.len(),
            json_list(out@) == texts_json(texts(list@).take(i as int)),
        decreases list.len() - i,
    {
        put_text(&mut out, list[i].as_str());
        assert(json_list(out@) =~= texts_json(texts(list@).take(i + 1)));
        i = i + 1;
    }
    assert(texts(list@).take(i as int) =~= texts(list@));
    array_value(out)
}

/// The status of the mission.
pub open spec fn finish_status_property() -> JsonView {
    JsonView::Object(
        seq![
            ("type"@, JsonView::Text("string"@)),
            ("enum"@, text_list(seq!["continue"@, "finish_success"@, "finish_failed"@])),
            ("description"@, JsonView::Text(FINISH_STATUS_WORDS@)),
        ],
    )
}

fn make_finish_status_property() -> (r: Json)
    ensures
        r@ == finish_status_property(),
{
    let mut members = no_members();
    put(&mut members, "type", text_value("string"));
    put(&mut members, "enum", three_texts("continue", "finish_success", "finish_failed"));
    put(&mut members, "description", text_value(FINISH_STATUS_WORDS));
    assert(json_members(members@) =~= finish_status_property()->Object_0);
    object_value(members)
}

/// The goal, where it is to be found in the conversation.
pub open spec fn goal_property() -> JsonView {
    JsonView::Object(
        seq![
            ("type"@, JsonView::Text("string"@)),
            ("minLength"@, JsonView::Number(decimal(4))),
            ("maxLength"@, JsonView::Number(decimal(200))),
            ("description"@, JsonView::Text(GOAL_WORDS@)),
        ],
    )
}

fn make_goal_property() -> (r: Json)
    ensures
        r@ == goal_property(),
{
    let mut members = no_members();
    put(&mut members, "type", text_value("string"));
    put(&mut members, "minLength", number_value(4));
    put(&mut members, "maxLength", number_value(200));
    put(&mut members, "description", text_value(GOAL_WORDS));
    assert(json_members(members@) =~= goal_property()->Object_0);
    object_value(members)
}

/// The headline.
pub open spec fn status_title_property() -> JsonView {
    JsonView::Object(
        seq![
            ("type"@, text_list(seq!["string"@, "null"@])),
            ("minLength"@, JsonView::Number(decimal(2))),
            ("maxLength"@, JsonView::Number(decimal(80))),
            ("description"@, JsonView::Text(STATUS_TITLE_WORDS@)),
        ],
    )
}

fn make_status_title_property() -> (r: Json)
    ensures
        r@ == status_title_property(),
{
    let mut members = no_members();
    put(&mut members, "type", two_texts("string", "null"));
    put(&mut members, "minLength", number_value(2));
    put(&mut members, "maxLength", number_value(80));
    put(&mut members, "description", text_value(STATUS_TITLE_WORDS));
    assert(json_members(members@) =~= status_title_property()->Object_0);
    object_value(members)
}

/// The message to the user.
pub open spec fn status_sent_property() -> JsonView {
    JsonView::Object(
        seq![
            ("type"@, text_list(seq!["string"@, "null"@])),
            ("minLength"@, JsonView::Number(decimal(4))),
            ("maxLength"@, JsonView::Number(decimal(600))),
            ("description"@, JsonView::Text(STATUS_SENT_WORDS@)),
        ],
    )
}

fn make_status_sent_property() -> (r: Json)
    ensures
        r@ == status_sent_property(),
{
    let mut members = no_members();
    put(&mut members, "type", two_texts("string", "null"));
    put(&mut members, "minLength", number_value(4));
    put(&mut members, "maxLength", number_value(600));
    put(&mut members, "description", text_value(STATUS_SENT_WORDS));
    assert(json_members(members@) =~= status_sent_property()->Object_0);
    object_value(members)
}

/// Whether the user is waited for.
pub open spec fn input_required_property() -> JsonView {
    JsonView::Object(
        seq![
            ("type"@, JsonView::Text("boolean"@)),
            ("description"@, JsonView::Text(INPUT_REQUIRED_WORDS@)),
        ],
    )
}

fn make_input_required_property() -> (r: Json)
    ensures
        r@ == input_required_property(),
{
    let mut members = no_members();
    put(&mut members, "type", text_value("boolean"));
    put(&mut members, "description", text_value(INPUT_REQUIRED_WORDS));
    assert(json_members(members@) =~= input_required_property()->Object_0);
    object_value(members)
}

/// The instruction. It has no longest length: a provider might cut it to fit, and nobody would see
/// that it was too long.
pub open spec fn prompt_property() -> JsonView {
    JsonView::Object(
        seq![
            ("type"@, text_list(seq!["string"@, "null"@])),
            ("minLength"@, JsonView::Number(decimal(CLI_PROMPT_MIN_CHARS as nat))),
            ("description"@, JsonView::Text(PROMPT_WORDS@)),
        ],
    )
}

fn make_prompt_property() -> (r: Json)
    ensures
        r@ == prompt_property(),
{
    let mut members = no_members();
    put(&mut members, "type", two_texts("string", "null"));
    put(&mut members, "minLength", number_value(CLI_PROMPT_MIN_CHARS as u64));
    put(&mut members, "description", text_value(PROMPT_WORDS));
    assert(json_members(members@) =~= prompt_property()->Object_0);
    object_value(members)
}

/// When helper agents run.
pub open spec fn timing_property() -> JsonView {
    JsonView::Object(
        seq![
            ("type"@, JsonView::Text("string"@)),
            ("enum"@, text_list(seq!["parallel"@, "blocking"@])),
            ("description"@, JsonView::Text(TIMING_WORDS@)),
        ],
    )
}

fn make_timing_property() -> (r: Json)
    ensures
        r@ == timing_property(),
{
    let mut members = no_members();
    put(&mut members, "type", text_value("string"));
    put(&mut members, "enum", two_texts("parallel", "blocking"));
    put(&mut members, "description", text_value(TIMING_WORDS));
    assert(json_members(members@) =~= timing_property()->Object_0);
    object_value(members)
}

/// Whether a helper agent may write.
pub open spec fn write_property() -> JsonView {
    JsonView::Object(
        seq![
            ("type"@, JsonView::Text("boolean"@)),
            ("description"@, JsonView::Text(WRITE_WORDS@)),
        ],
    )
}

fn make_write_property() -> (r: Json)
    ensures
        r@ == write_property(),
{
    let mut members = no_members();
    put(&mut members, "type", text_value("boolean"));
    put(&mut members, "description", text_value(WRITE_WORDS));
    assert(json_members(members@) =~= write_property()->Object_0);
    object_value(members)
}

/// What a helper agent is told of the background.
pub open spec fn context_property() -> JsonView {
    JsonView::Object(
        seq![
            ("type"@, text_list(seq!["string"@, "null"@])),
            ("maxLength"@, JsonView::Number(decimal(1500))),
            ("description"@, JsonView::Text(CONTEXT_WORDS@)),
        ],
    )
}

fn make_context_property() -> (r: Json)
    ensures
        r@ == context_property(),
{
    let mut members = no_members();
    put(&mut members, "type", two_texts("string", "null"));
    put(&mut members, "maxLength", number_value(1500));
    put(&mut members, "description", text_value(CONTEXT_WORDS));
    assert(json_members(members@) =~= context_property()->Object_0);
    object_value(members)
}

/// What a helper agent is to do.
pub open spec fn agent_prompt_property() -> JsonView {
    JsonView::Object(
        seq![
            ("type"@, JsonView::Text("string"@)),
            ("minLength"@, JsonView::Number(decimal(8))),
            ("maxLength"@, JsonView::Number(decimal(400))),
            ("description"@, JsonView::Text(AGENT_PROMPT_WORDS@)),
        ],
    )
}

fn make_agent_prompt_property() -> (r: Json)
    ensures
        r@ == agent_prompt_property(),
{
    let mut members = no_members();
    put(&mut members, "type", text_value("string"));
    put(&mut members, "minLength", number_value(8));
    put(&mut members, "maxLength", number_value(400));
    put(&mut members, "description", text_value(AGENT_PROMPT_WORDS));
    assert(json_members(members@) =~= agent_prompt_property()->Object_0);
    object_value(members)
}

/// The name of a model, one of those that are known where some are.
pub open spec fn model_name(names: Seq<Seq<char>>) -> JsonView {
    JsonView::Object(
        if names.len() == 0 {
            seq![("type"@, JsonView::Text("string"@))]
        } else {
            seq![("type"@, JsonView::Text("string"@)), ("enum"@, text_list(names))]
        },
    )
}

fn make_model_name(names: &Vec<String>) -> (r: Json)
    ensures
        r@ == model_name(texts(names@)),
{
    let mut members = no_members();
    put(&mut members, "type", text_value("string"));
    if names.len() != 0 {
        put(&mut members, "enum", all_texts(names));
    }
    assert(json_members(members@) =~= model_name(texts(names@))->Object_0);
    object_value(members)
}

/// The models of a helper agent; `guide` tells of them.
pub open spec fn models_property(names: Seq<Seq<char>>, guide: Seq<char>) -> JsonView {
    JsonView::Object(
        seq![
            ("type"@, JsonView::Text("array"@)),
            ("description"@, JsonView::Text(guide)),
            ("items"@, model_name(names)),
        ],
    )
}

fn make_models_property(names: &Vec<String>, guide: &str) -> (r: Json)
    ensures
        r@ == models_property(texts(names@), guide@),
{
    let mut members = no_members();
    put(&mut members, "type", text_value("array"));
    put(&mut members, "description", text_value(guide));
    put(&mut members, "items", make_model_name(names));
    assert(json_members(members@) =~= models_property(texts(names@), guide@)->Object_0);
    object_value(members)
}

/// What is said of a helper agent.
pub open spec fn agent_members(names: Seq<Seq<char>>, guide: Seq<char>) -> JsonView {
    JsonView::Object(
        seq![
            ("write"@, write_property()),
            ("context"@, context_property()),
            ("prompt"@, agent_prompt_property()),
            ("models"@, models_property(names, guide)),
        ],
    )
}

fn make_agent_members(names: &Vec<String>, guide: &str) -> (r: Json)
    ensures
        r@ == agent_members(texts(names@), guide@),
{
    let mut members = no_members();
    put(&mut members, "write", make_write_property());
    put(&mut members, "context", make_context_property());
    put(&mut members, "prompt", make_agent_prompt_property());
    put(&mut members, "models", make_models_property(names, guide));
    assert(json_members(members@) =~= agent_members(texts(names@), guide@)->Object_0);
    object_value(members)
}

/// A helper agent.
pub open spec fn agent_entry(names: Seq<Seq<char>>, guide: Seq<char>) -> JsonView {
    JsonView::Object(
        seq![
            ("type"@, JsonView::Text("object"@)),
            ("additionalProperties"@, JsonView::Bool(false)),
            ("properties"@, agent_members(names, guide)),
            ("required"@, text_list(seq!["prompt"@, "context"@, "write"@, "models"@])),
        ],
    )
}

fn make_agent_entry(names: &Vec<String>, guide: &str) -> (r: Json)
    ensures
        r@ == agent_entry(texts(names@), guide@),
{
    let mut members = no_members();
    put(&mut members, "type", text_value("object"));
    put(&mut members, "additionalProperties", bool_value(false));
    put(&mut members, "properties", make_agent_members(names, guide));
    put(&mut members, "required", four_texts("prompt", "context", "write", "models"));
    assert(json_members(members@) =~= agent_entry(texts(names@), guide@)->Object_0);
    object_value(members)
}

/// The helper agents.
pub open spec fn agent_list(names: Seq<Seq<char>>, guide: Seq<char>) -> JsonView {
    JsonView::Object(
        seq![
            ("type"@, JsonView::Text("array"@)),
            ("maxItems"@, JsonView::Number(decimal(4))),
            ("items"@, agent_entry(names, guide)),
            ("description"@, JsonView::Text(AGENT_LIST_WORDS@)),
        ],
    )
}

fn make_agent_list(names: &Vec<String>, guide: &str) -> (r: Json)
    ensures
        r@ == agent_list(texts(names@), guide@),
{
    let mut members = no_members();
    put(&mut members, "type", text_value("array"));
    put(&mut members, "maxItems", number_value(4));
    put(&mut members, "items", make_agent_entry(names, guide));
    put(&mut members, "description", text_value(AGENT_LIST_WORDS));
    assert(json_members(members@) =~= agent_list(texts(names@), guide@)->Object_0);
    object_value(members)
}

/// What is said of helper agents.
pub open spec fn plan_members(names: Seq<Seq<char>>, guide: Seq<char>) -> JsonView {
    JsonView::Object(
        seq![
            ("timing"@, timing_property()),
            ("list"@, agent_list(names, guide)),
        ],
    )
}

fn make_plan_members(names: &Vec<String>, guide: &str) -> (r: Json)
    ensures
        r@ == plan_members(texts(names@), guide@),
{
    let mut members = no_members();
    put(&mut members, "timing", make_timing_property());
    put(&mut members, "list", make_agent_list(names, guide));
    assert(json_members(members@) =~= plan_members(texts(names@), guide@)->Object_0);
    object_value(members)
}

/// The helper agents and when they run.
pub open spec fn agents_property(names: Seq<Seq<char>>, guide: Seq<char>) -> JsonView {
    JsonView::Object(
        seq![
            ("type"@, text_list(seq!["object"@, "null"@])),
            ("additionalProperties"@, JsonView::Bool(false)),
            ("description"@, JsonView::Text(AGENTS_WORDS@)),
            ("properties"@, plan_members(names, guide)),
            ("required"@, text_list(seq!["timing"@, "list"@])),
        ],
    )
}

fn make_agents_property(names: &Vec<String>, guide: &str) -> (r: Json)
    ensures
        r@ == agents_property(texts(names@), guide@),
{
    let mut members = no_members();
    put(&mut members, "type", two_texts("object", "null"));
    put(&mut members, "additionalProperties", bool_value(false));
    put(&mut members, "description", text_value(AGENTS_WORDS));
    put(&mut members, "properties", make_plan_members(names, guide));
    put(&mut members, "required", two_texts("timing", "list"));
    assert(json_members(members@) =~= agents_property(texts(names@), guide@)->Object_0);
    object_value(members)
}

/// The fields that a decision must have.
pub open spec fn required_fields(features: SchemaFeatures) -> Seq<Seq<char>> {
    seq!["finish_status"@] + (if features.include_goal_field {
        seq!["goal"@]
    } else {
        Seq::empty()
    }) + seq!["status_title"@, "status_sent_to_user"@, "prompt_sent_to_cli"@] + (
    if features.include_agents {
        seq!["agents"@]
    } else {
        Seq::empty()
    })
}

/// The fields that a decision may have.
pub open spec fn decision_fields(
    names: Seq<Seq<char>>,
    guide: Seq<char>,
    features: SchemaFeatures,
) -> Seq<(Seq<char>, JsonView)> {
    seq![("finish_status"@, finish_status_property())] + (if features.include_goal_field {
        seq![("goal"@, goal_property())]
    } else {
        Seq::empty()
    }) + seq![
        ("status_title"@, status_title_property()),
        ("status_sent_to_user"@, status_sent_property()),
        ("input_required"@, input_required_property()),
        ("prompt_sent_to_cli"@, prompt_property()),
    ] + (if features.include_agents {
        seq![("agents"@, agents_property(names, guide))]
    } else {
        Seq::empty()
    })
}

/// The form of a decision. `names` are the models that helper agents may use, and `guide` tells of
/// them.
pub open spec fn decision_schema(
    names: Seq<Seq<char>>,
    guide: Seq<char>,
    features: SchemaFeatures,
) -> JsonView {
    JsonView::Object(
        seq![
            ("title"@, JsonView::Text("Coordinator Turn"@)),
            ("type"@, JsonView::Text("object"@)),
            ("additionalProperties"@, JsonView::Bool(false)),
            ("properties"@, JsonView::Object(decision_fields(names, guide, features))),
            ("required"@, text_list(required_fields(features))),
        ],
    )
}

/// Makes the form of a decision.
pub fn build_schema(active_agents: &Vec<String>, models_description: &str, features: SchemaFeatures) -> (r:
    Json)
    ensures
        r@ == decision_schema(texts(active_agents@), models_description@, features),
{
    let mut properties = no_members();
    let mut required = no_values();
    put(&mut properties, "finish_status", make_finish_status_property());
    put_text(&mut required, "finish_status");
    if features.include_goal_field {
        put(&mut properties, "goal", make_goal_property());
        put_text(&mut required, "goal");
    }
    put(&mut properties, "status_title", make_status_title_property());
    put_text(&mut required, "status_title");
    put(&mut properties, "status_sent_to_user", make_status_sent_property());
    put_text(&mut required, "status_sent_to_user");
    put(&mut properties, "input_required", make_input_required_property());
    put(&mut properties, "prompt_sent_to_cli", make_prompt_property());
    put_text(&mut required, "prompt_sent_to_cli");
    if features.include_agents {
        put(&mut properties, "agents", make_agents_property(active_agents, models_description));
        put_text(&mut required, "agents");
    }
    assert(json_members(properties@) =~= decision_fields(
        texts(active_agents@),
        models_description@,
        features,
    ));
    assert(json_list(required@) =~= texts_json(required_fields(features)));
    let mut schema = no_members();
    put(&mut schema, "title", text_value("Coordinator Turn"));
    put(&mut schema, "type", text_value("object"));
    put(&mut schema, "additionalProperties", bool_value(false));
    put(&mut schema, "properties", object_value(properties));
    put(&mut schema, "required", array_value(required));
    assert(json_members(schema@) =~= decision_schema(
        texts(active_agents@),
        models_description@,
        features,
    )->Object_0);
    object_value(schema)
}

/// What is found under a key is the value of its first member, and is found exactly where there is
/// such a member.
proof fn lemma_member_from(v: Seq<(Seq<char>, JsonView)>, key: Seq<char>, from: int)
    requires
        0 <= from,
    ensures
        match member_from(v, key, from) {
            Some(found) => exists|i: int|
                from <= i < v.len() && (#[trigger] v[i]).0 == key && v[i].1 == found,
            None => forall|i: int| from <= i < v.len() ==> (#[trigger] v[i]).0 != key,
        },
    decreases v.len() - from,
{
    if from < v.len() && v[from].0 != key {
        lemma_member_from(v, key, from + 1);
    }
}

/// The names of the fields are different from one another.
proof fn lemma_field_names()
    ensures
        "goal"@ != "finish_status"@,
        "goal"@ != "status_title"@,
        "goal"@ != "status_sent_to_user"@,
        "goal"@ != "input_required"@,
        "goal"@ != "prompt_sent_to_cli"@,
        "goal"@ != "agents"@,
        "agents"@ != "finish_status"@,
        "agents"@ != "status_title"@,
        "agents"@ != "status_sent_to_user"@,
        "agents"@ != "input_required"@,
        "agents"@ != "prompt_sent_to_cli"@,
        "prompt_sent_to_cli"@ != "finish_status"@,
        "prompt_sent_to_cli"@ != "status_title"@,
        "prompt_sent_to_cli"@ != "status_sent_to_user"@,
        "prompt_sent_to_cli"@ != "input_required"@,
{
    reveal_strlit("goal");
    reveal_strlit("agents");
    reveal_strlit("prompt_sent_to_cli");
    reveal_strlit("finish_status");
    reveal_strlit("status_title");
    reveal_strlit("status_sent_to_user");
    reveal_strlit("input_required");
    assert("goal"@.len() == 4);
    assert("agents"@.len() == 6);
    assert("prompt_sent_to_cli"@.len() == 18);
    assert("finish_status"@.len() == 13);
    assert("status_title"@.len() == 12);
    assert("status_sent_to_user"@.len() == 19);
    assert("input_required"@.len() == 14);
}

/// The form lists the fields under `properties`, those that must be there under `required`, and
/// lets there be no others.
pub proof fn law_schema_members(names: Seq<Seq<char>>, guide: Seq<char>, features: SchemaFeatures)
    ensures
        decision_schema(names, guide, features).member("properties"@) == Some(
            JsonView::Object(decision_fields(names, guide, features)),
        ),
        decision_schema(names, guide, features).member("required"@) == Some(
            text_list(required_fields(features)),
        ),
        decision_schema(names, guide, features).member("additionalProperties"@) == Some(
            JsonView::Bool(false),
        ),
{
    reveal_strlit("title");
    reveal_strlit("type");
    reveal_strlit("additionalProperties");
    reveal_strlit("properties");
    reveal_strlit("required");
    assert("title"@.len() == 5);
    assert("type"@.len() == 4);
    assert("additionalProperties"@.len() == 20);
    assert("properties"@.len() == 10);
    assert("required"@.len() == 8);
    reveal_with_fuel(member_from, 6);
}

/// Every field that a decision must have is one that it may have, so that the form can be met.
pub proof fn law_required_fields_exist(
    names: Seq<Seq<char>>,
    guide: Seq<char>,
    features: SchemaFeatures,
    field: Seq<char>,
)
    requires
        required_fields(features).contains(field),
    ensures
        member_from(decision_fields(names, guide, features), field, 0) is Some,
{
    let fields = decision_fields(names, guide, features);
    lemma_member_from(fields, field, 0);
    let g: int = if features.include_goal_field {
        1
    } else {
        0
    };
    assert(fields[0].0 == "finish_status"@);
    if features.include_goal_field {
        assert(fields[1].0 == "goal"@);
    }
    assert(fields[1 + g].0 == "status_title"@);
    assert(fields[2 + g].0 == "status_sent_to_user"@);
    assert(fields[4 + g].0 == "prompt_sent_to_cli"@);
    if features.include_agents {
        assert(fields[5 + g].0 == "agents"@);
    }
}

/// The form asks for the goal and for helper agents exactly as its settings say.
pub proof fn law_features_decide_fields(
    names: Seq<Seq<char>>,
    guide: Seq<char>,
    features: SchemaFeatures,
)
    ensures
        member_from(decision_fields(names, guide, features), "goal"@, 0) is Some
            <==> features.include_goal_field,
        required_fields(features).contains("goal"@) <==> features.include_goal_field,
        member_from(decision_fields(names, guide, features), "agents"@, 0) is Some
            <==> features.include_agents,
        required_fields(features).contains("agents"@) <==> features.include_agents,
{
    let fields = decision_fields(names, guide, features);
    let needed = required_fields(features);
    lemma_field_names();
    lemma_member_from(fields, "goal"@, 0);
    lemma_member_from(fields, "agents"@, 0);
    if features.include_goal_field {
        assert(fields[1].0 == "goal"@);
        assert(needed[1] == "goal"@);
    }
    if features.include_agents {
        assert(fields[fields.len() - 1].0 == "agents"@);
        assert(needed[needed.len() - 1] == "agents"@);
    }
}

/// The form asks for instructions of a shortest length and names no longest one.
pub proof fn law_prompt_has_no_longest_length(
    names: Seq<Seq<char>>,
    guide: Seq<char>,
    features: SchemaFeatures,
)
    ensures
        member_from(decision_fields(names, guide, features), "prompt_sent_to_cli"@, 0) == Some(
            prompt_property(),
        ),
        prompt_property().member("minLength"@) == Some(
            JsonView::Number(decimal(CLI_PROMPT_MIN_CHARS as nat)),
        ),
        prompt_property().member("maxLength"@) is None,
{
    let fields = decision_fields(names, guide, features);
    lemma_field_names();
    lemma_member_from(fields, "prompt_sent_to_cli"@, 0);
    let g: int = if features.include_goal_field {
        1
    } else {
        0
    };
    assert(fields[4 + g] == ("prompt_sent_to_cli"@, prompt_property()));
    reveal_strlit("type");
    reveal_strlit("minLength");
    reveal_strlit("maxLength");
    reveal_strlit("description");
    reveal_with_fuel(member_from, 4);
    assert("minLength"@[1] == 'i');
    assert("maxLength"@[1] == 'a');
}

/// What stands under a key of a value that may be there.
pub open spec fn under(value: Option<JsonView>, key: Seq<char>) -> Option<JsonView> {
    match value {
        Some(v) => v.member(key),
        None => None,
    }
}

/// What the form of a decision says of a field.
pub open spec fn field_of(
    names: Seq<Seq<char>>,
    guide: Seq<char>,
    features: SchemaFeatures,
    field: Seq<char>,
) -> Option<JsonView> {
    under(under(Some(decision_schema(names, guide, features)), "properties"@), field)
}

/// A value is a list of exactly these texts.
pub open spec fn lists_texts(value: Option<JsonView>, words: Seq<Seq<char>>) -> bool {
    value matches Some(JsonView::Array(list)) && list.len() == words.len() && forall|i: int|
        0 <= i < words.len() ==> #[trigger] list[i] == JsonView::Text(words[i])
}

/// A value is a text or null.
pub open spec fn text_or_null(value: Option<JsonView>) -> bool {
    lists_texts(under(value, "type"@), seq!["string"@, "null"@])
}

/// A value is one of the given type.
pub open spec fn of_type(value: Option<JsonView>, name: Seq<char>) -> bool {
    under(value, "type"@) == Some(JsonView::Text(name))
}

/// A value holds a number under a key.
pub open spec fn holds_number(value: Option<JsonView>, key: Seq<char>, n: nat) -> bool {
    under(value, key) matches Some(JsonView::Number(digits)) && number_of(digits) == n
}

/// The words of the form are different from one another.
proof fn lemma_form_words()
    ensures
        "title"@.len() == 5,
        "type"@.len() == 4,
        "enum"@.len() == 4,
        "description"@.len() == 11,
        "minLength"@.len() == 9,
        "maxLength"@.len() == 9,
        "items"@.len() == 5,
        "maxItems"@.len() == 8,
        "additionalProperties"@.len() == 20,
        "properties"@.len() == 10,
        "required"@.len() == 8,
        "write"@.len() == 5,
        "context"@.len() == 7,
        "prompt"@.len() == 6,
        "models"@.len() == 6,
        "timing"@.len() == 6,
        "list"@.len() == 4,
        "type"@ != "enum"@,
        "minLength"@ != "maxLength"@,
        "prompt"@ != "models"@,
{
    reveal_strlit("title");
    reveal_strlit("type");
    reveal_strlit("enum");
    reveal_strlit("description");
    reveal_strlit("minLength");
    reveal_strlit("maxLength");
    reveal_strlit("items");
    reveal_strlit("maxItems");
    reveal_strlit("additionalProperties");
    reveal_strlit("properties");
    reveal_strlit("required");
    reveal_strlit("write");
    reveal_strlit("context");
    reveal_strlit("prompt");
    reveal_strlit("models");
    reveal_strlit("timing");
    reveal_strlit("list");
    assert("type"@[0] == 't' && "enum"@[0] == 'e');
    assert("minLength"@[1] == 'i' && "maxLength"@[1] == 'a');
    assert("prompt"@[0] == 'p' && "models"@[0] == 'm');
}

/// The names of the fields have different lengths.
proof fn lemma_field_lengths()
    ensures
        "goal"@.len() == 4,
        "agents"@.len() == 6,
        "prompt_sent_to_cli"@.len() == 18,
        "finish_status"@.len() == 13,
        "status_title"@.len() == 12,
        "status_sent_to_user"@.len() == 19,
        "input_required"@.len() == 14,
{
    reveal_strlit("goal");
    reveal_strlit("agents");
    reveal_strlit("prompt_sent_to_cli");
    reveal_strlit("finish_status");
    reveal_strlit("status_title");
    reveal_strlit("status_sent_to_user");
    reveal_strlit("input_required");
}

/// What the form says of each field.
proof fn lemma_fields(names: Seq<Seq<char>>, guide: Seq<char>, features: SchemaFeatures)
    ensures
        field_of(names, guide, features, "finish_status"@) == Some(finish_status_property()),
        field_of(names, guide, features, "status_title"@) == Some(status_title_property()),
        field_of(names, guide, features, "status_sent_to_user"@) == Some(status_sent_property()),
        field_of(names, guide, features, "input_required"@) == Some(input_required_property()),
        field_of(names, guide, features, "prompt_sent_to_cli"@) == Some(prompt_property()),
        features.include_goal_field ==> field_of(names, guide, features, "goal"@) == Some(
            goal_property(),
        ),
        features.include_agents ==> field_of(names, guide, features, "agents"@) == Some(
            agents_property(names, guide),
        ),
{
    law_schema_members(names, guide, features);
    lemma_field_lengths();
    let fields = decision_fields(names, guide, features);
    let g: int = if features.include_goal_field {
        1
    } else {
        0
    };
    assert(fields[0] == ("finish_status"@, finish_status_property()));
    if features.include_goal_field {
        assert(fields[1] == ("goal"@, goal_property()));
        lemma_member_from(fields, "goal"@, 0);
    }
    assert(fields[1 + g] == ("status_title"@, status_title_property()));
    assert(fields[2 + g] == ("status_sent_to_user"@, status_sent_property()));
    assert(fields[3 + g] == ("input_required"@, input_required_property()));
    assert(fields[4 + g] == ("prompt_sent_to_cli"@, prompt_property()));
    if features.include_agents {
        assert(fields[5 + g] == ("agents"@, agents_property(names, guide)));
        lemma_member_from(fields, "agents"@, 0);
    }
    lemma_member_from(fields, "finish_status"@, 0);
    lemma_member_from(fields, "status_title"@, 0);
    lemma_member_from(fields, "status_sent_to_user"@, 0);
    lemma_member_from(fields, "input_required"@, 0);
    lemma_member_from(fields, "prompt_sent_to_cli"@, 0);
}

/// The form lists exactly the words that statuses are read from: each word is read as a status, and
/// each status has its word.
pub proof fn law_statuses_can_be_read(
    names: Seq<Seq<char>>,
    guide: Seq<char>,
    features: SchemaFeatures,
)
    ensures
        ({
            let field = field_of(names, guide, features, "finish_status"@);
            &&& of_type(field, "string"@)
            &&& under(field, "enum"@) matches Some(JsonView::Array(list)) && {
                &&& list.len() == 3
                &&& list[0] matches JsonView::Text(word) && status_named(word) == Some(
                    AutoCoordinatorStatus::Continue,
                )
                &&& list[1] matches JsonView::Text(word) && status_named(word) == Some(
                    AutoCoordinatorStatus::Success,
                )
                &&& list[2] matches JsonView::Text(word) && status_named(word) == Some(
                    AutoCoordinatorStatus::Failed,
                )
            }
            &&& lists_texts(
                under(field, "enum"@),
                seq!["continue"@, "finish_success"@, "finish_failed"@],
            )
            &&& under(field, "description"@) == Some(JsonView::Text(FINISH_STATUS_WORDS@))
        }),
{
    lemma_fields(names, guide, features);
    lemma_form_words();
    reveal_with_fuel(member_from, 4);
    reveal_strlit("continue");
    reveal_strlit("finish_success");
    reveal_strlit("finish_failed");
    lemma_trim_of_trimmed("continue"@);
    lemma_trim_of_trimmed("finish_success"@);
    lemma_trim_of_trimmed("finish_failed"@);
    law_words_name_statuses("continue"@);
    law_words_name_statuses("finish_success"@);
    law_words_name_statuses("finish_failed"@);
}

/// The form asks for a headline of 2 to 80 characters and a message of 4 to 600, or null for either,
/// for a truth value on whether the user is waited for, and for an instruction of 4 characters or
/// more, or null.
pub proof fn law_texts_that_are_asked_for(
    names: Seq<Seq<char>>,
    guide: Seq<char>,
    features: SchemaFeatures,
)
    ensures
        ({
            let title = field_of(names, guide, features, "status_title"@);
            let sent = field_of(names, guide, features, "status_sent_to_user"@);
            let input = field_of(names, guide, features, "input_required"@);
            let prompt = field_of(names, guide, features, "prompt_sent_to_cli"@);
            &&& text_or_null(title) && holds_number(title, "minLength"@, 2) && holds_number(
                title,
                "maxLength"@,
                80,
            )
            &&& under(title, "description"@) == Some(JsonView::Text(STATUS_TITLE_WORDS@))
            &&& text_or_null(sent) && holds_number(sent, "minLength"@, 4) && holds_number(
                sent,
                "maxLength"@,
                600,
            )
            &&& under(sent, "description"@) == Some(JsonView::Text(STATUS_SENT_WORDS@))
            &&& of_type(input, "boolean"@)
            &&& under(input, "description"@) == Some(JsonView::Text(INPUT_REQUIRED_WORDS@))
            &&& text_or_null(prompt) && holds_number(prompt, "minLength"@, 4)
            &&& under(prompt, "maxLength"@) is None
            &&& under(prompt, "description"@) == Some(JsonView::Text(PROMPT_WORDS@))
        }),
{
    lemma_fields(names, guide, features);
    lemma_form_words();
    reveal_with_fuel(member_from, 5);
    law_decimal_is_the_number(2);
    law_decimal_is_the_number(80);
    law_decimal_is_the_number(4);
    law_decimal_is_the_number(600);
}

/// Where the goal is to be found in the conversation the form asks for one of 4 to 200 characters.
pub proof fn law_goals_that_are_asked_for(
    names: Seq<Seq<char>>,
    guide: Seq<char>,
    features: SchemaFeatures,
)
    requires
        features.include_goal_field,
    ensures
        ({
            let goal = field_of(names, guide, features, "goal"@);
            &&& of_type(goal, "string"@)
            &&& holds_number(goal, "minLength"@, 4)
            &&& holds_number(goal, "maxLength"@, 200)
            &&& under(goal, "description"@) == Some(JsonView::Text(GOAL_WORDS@))
        }),
{
    lemma_fields(names, guide, features);
    lemma_form_words();
    reveal_with_fuel(member_from, 5);
    law_decimal_is_the_number(4);
    law_decimal_is_the_number(200);
}

/// The form lists exactly the two timings that helper agents may have, beside the command line agent
/// or before it; it asks for a timing and for a list, and lets there be nothing else.
pub proof fn law_timings_that_are_asked_for(
    names: Seq<Seq<char>>,
    guide: Seq<char>,
    features: SchemaFeatures,
)
    requires
        features.include_agents,
    ensures
        ({
            let agents = field_of(names, guide, features, "agents"@);
            let timing = under(under(agents, "properties"@), "timing"@);
            &&& lists_texts(under(agents, "type"@), seq!["object"@, "null"@])
            &&& under(agents, "additionalProperties"@) == Some(JsonView::Bool(false))
            &&& under(agents, "description"@) == Some(JsonView::Text(AGENTS_WORDS@))
            &&& lists_texts(under(agents, "required"@), seq!["timing"@, "list"@])
            &&& of_type(timing, "string"@)
            &&& under(timing, "description"@) == Some(JsonView::Text(TIMING_WORDS@))
            &&& lists_texts(under(timing, "enum"@), seq!["parallel"@, "blocking"@])
        }),
{
    lemma_fields(names, guide, features);
    lemma_form_words();
    reveal_with_fuel(member_from, 6);
}

/// The form asks for up to four helper agents, each with what it is to do in 8 to 400 characters, its
/// background in at most 1500 characters or null, whether it may write, and its models, all of which
/// must be there and nothing else.
pub proof fn law_helpers_that_are_asked_for(
    names: Seq<Seq<char>>,
    guide: Seq<char>,
    features: SchemaFeatures,
)
    requires
        features.include_agents,
    ensures
        ({
            let agents = field_of(names, guide, features, "agents"@);
            let list = under(under(agents, "properties"@), "list"@);
            let agent = under(list, "items"@);
            let write = under(under(agent, "properties"@), "write"@);
            let context = under(under(agent, "properties"@), "context"@);
            let prompt = under(under(agent, "properties"@), "prompt"@);
            &&& of_type(list, "array"@) && holds_number(list, "maxItems"@, 4)
            &&& under(list, "description"@) == Some(JsonView::Text(AGENT_LIST_WORDS@))
            &&& of_type(agent, "object"@)
            &&& under(agent, "additionalProperties"@) == Some(JsonView::Bool(false))
            &&& lists_texts(
                under(agent, "required"@),
                seq!["prompt"@, "context"@, "write"@, "models"@],
            )
            &&& of_type(write, "boolean"@)
            &&& under(write, "description"@) == Some(JsonView::Text(WRITE_WORDS@))
            &&& text_or_null(context) && holds_number(context, "maxLength"@, 1500)
            &&& under(context, "description"@) == Some(JsonView::Text(CONTEXT_WORDS@))
            &&& of_type(prompt, "string"@) && holds_number(prompt, "minLength"@, 8)
                && holds_number(prompt, "maxLength"@, 400)
            &&& under(prompt, "description"@) == Some(JsonView::Text(AGENT_PROMPT_WORDS@))
        }),
{
    lemma_fields(names, guide, features);
    lemma_form_words();
    let agents = field_of(names, guide, features, "agents"@);
    assert(under(under(agents, "properties"@), "list"@) == Some(agent_list(names, guide))) by {
        reveal_with_fuel(member_from, 6);
    }
    assert(under(Some(agent_list(names, guide)), "items"@) == Some(agent_entry(names, guide))) by {
        reveal_with_fuel(member_from, 5);
    }
    assert(under(Some(agent_entry(names, guide)), "properties"@) == Some(
        agent_members(names, guide),
    )) by {
        reveal_with_fuel(member_from, 5);
    }
    assert(under(Some(agent_members(names, guide)), "write"@) == Some(write_property())
        && under(Some(agent_members(names, guide)), "context"@) == Some(context_property())
        && under(Some(agent_members(names, guide)), "prompt"@) == Some(agent_prompt_property())) by {
        reveal_with_fuel(member_from, 5);
    }
    reveal_with_fuel(member_from, 5);
    law_decimal_is_the_number(4);
    law_decimal_is_the_number(8);
    law_decimal_is_the_number(400);
    law_decimal_is_the_number(1500);
}

/// A helper agent may name any of the models that are known, and no other where some are known; the
/// form tells of them in the words of the guide.
pub proof fn law_models_that_are_asked_for(
    names: Seq<Seq<char>>,
    guide: Seq<char>,
    features: SchemaFeatures,
)
    requires
        features.include_agents,
    ensures
        ({
            let agents = field_of(names, guide, features, "agents"@);
            let agent = under(under(under(agents, "properties"@), "list"@), "items"@);
            let models = under(under(agent, "properties"@), "models"@);
            let model = under(models, "items"@);
            &&& of_type(models, "array"@)
            &&& under(models, "description"@) == Some(JsonView::Text(guide))
            &&& of_type(model, "string"@)
            &&& names.len() > 0 ==> lists_texts(under(model, "enum"@), names)
            &&& names.len() == 0 ==> under(model, "enum"@) is None
        }),
{
    lemma_fields(names, guide, features);
    lemma_form_words();
    let agents = field_of(names, guide, features, "agents"@);
    assert(under(under(agents, "properties"@), "list"@) == Some(agent_list(names, guide))) by {
        reveal_with_fuel(member_from, 6);
    }
    assert(under(Some(agent_list(names, guide)), "items"@) == Some(agent_entry(names, guide))) by {
        reveal_with_fuel(member_from, 5);
    }
    assert(under(Some(agent_entry(names, guide)), "properties"@) == Some(
        agent_members(names, guide),
    )) by {
        reveal_with_fuel(member_from, 5);
    }
    assert(under(Some(agent_members(names, guide)), "models"@) == Some(
        models_property(names, guide),
    )) by {
        reveal_with_fuel(member_from, 5);
    }
    reveal_with_fuel(member_from, 4);
}

/// The form is that of an object with a title that has no other fields than those it lists; every
/// field but the one on waiting for the user must be there.
pub proof fn law_fields_that_must_be_there(
    names: Seq<Seq<char>>,
    guide: Seq<char>,
    features: SchemaFeatures,
    field: Seq<char>,
)
    ensures
        ({
            let form = Some(decision_schema(names, guide, features));
            &&& of_type(form, "object"@)
            &&& under(form, "title"@) == Some(JsonView::Text("Coordinator Turn"@))
            &&& under(form, "additionalProperties"@) == Some(JsonView::Bool(false))
            &&& under(form, "required"@) matches Some(JsonView::Array(list)) && (list.contains(
                JsonView::Text(field),
            ) <==> field_of(names, guide, features, field) is Some && field != "input_required"@)
        }),
{
    law_schema_members(names, guide, features);
    lemma_form_words();
    lemma_field_lengths();
    assert(of_type(Some(decision_schema(names, guide, features)), "object"@) && under(
        Some(decision_schema(names, guide, features)),
        "title"@,
    ) == Some(JsonView::Text("Coordinator Turn"@))) by {
        reveal_with_fuel(member_from, 3);
    }
    let fields = decision_fields(names, guide, features);
    let needed = required_fields(features);
    let list = texts_json(needed);
    lemma_member_from(fields, field, 0);
    let g: int = if features.include_goal_field {
        1
    } else {
        0
    };
    assert(fields[0].0 == "finish_status"@ && needed[0] == "finish_status"@);
    if features.include_goal_field {
        assert(fields[1].0 == "goal"@ && needed[1] == "goal"@);
    }
    assert(fields[1 + g].0 == "status_title"@ && needed[1 + g] == "status_title"@);
    assert(fields[2 + g].0 == "status_sent_to_user"@ && needed[2 + g] == "status_sent_to_user"@);
    assert(fields[3 + g].0 == "input_required"@);
    assert(fields[4 + g].0 == "prompt_sent_to_cli"@ && needed[3 + g] == "prompt_sent_to_cli"@);
    if features.include_agents {
        assert(fields[5 + g].0 == "agents"@ && needed[4 + g] == "agents"@);
    }
    if list.contains(JsonView::Text(field)) {
        let k = choose|k: int| 0 <= k < list.len() && list[k] == JsonView::Text(field);
        assert(needed[k] == field);
    }
    if field_of(names, guide, features, field) is Some && field != "input_required"@ {
        let i = choose|i: int| 0 <= i < fields.len() && (#[trigger] fields[i]).0 == field;
        let k = if i > 3 + g {
            i - 1
        } else {
            i
        };
        assert(list[k] == JsonView::Text(field));
    }
}

/// The model is told the limits that its replies are held to.
pub proof fn law_limits_are_told()
    ensures
        contains(PROMPT_WORDS@, "4-600 chars"@),
        contains(PROMPT_WORDS@, "Prompts over 600 characters will be rejected"@),
        contains(PROMPT_WORDS@, "Provide when finish_status is 'continue'"@),
        contains(TIMING_WORDS@, "Parallel: run while the CLI works"@),
        contains(TIMING_WORDS@, "Blocking: wait for results"@),
        contains(WRITE_WORDS@, "Default false"@),
{
    reveal_strlit(
        "Instruction sent to the CLI to push it forward with the task (4-600 chars). Write this like a human maintainer pushing the CLI forwards, without digging too deep into the technical side. Provide when finish_status is 'continue'. Keep it high-level; the CLI has more context and tools than you do. e.g. 'Execute the first two steps of the plan you provided in parellel using agents.' NEVER ask the CLI to show you files so you solve problems directly. ALWAYS allow the CLI to take control. You are the COORDINATOR not the WORKER. Prompts over 600 characters will be rejected as this indicates the CLI is not being given sufficient autonomy.",
    );
    reveal_strlit("4-600 chars");
    lemma_stands_at(PROMPT_WORDS@, "4-600 chars"@, 62);
    reveal_strlit("Prompts over 600 characters will be rejected");
    lemma_stands_at(PROMPT_WORDS@, "Prompts over 600 characters will be rejected"@, 529);
    reveal_strlit("Provide when finish_status is 'continue'");
    lemma_stands_at(PROMPT_WORDS@, "Provide when finish_status is 'continue'"@, 187);
    reveal_strlit(
        "Parallel: run while the CLI works. Blocking: wait for results before the CLI executes the prompt you provided.",
    );
    reveal_strlit("Parallel: run while the CLI works");
    lemma_stands_at(TIMING_WORDS@, "Parallel: run while the CLI works"@, 0);
    reveal_strlit("Blocking: wait for results");
    lemma_stands_at(TIMING_WORDS@, "Blocking: wait for results"@, 35);
    reveal_strlit(
        "Creates an isolated worktree for each agent and enable writes to that worktree. Default false so that the agent can only read files.",
    );
    reveal_strlit("Default false");
    lemma_stands_at(WRITE_WORDS@, "Default false"@, 80);
}

/// The form asks for helper agents exactly where they are enabled, and for the goal only where it is
/// told to.
pub proof fn law_features_follow_settings(
    settings: &AutoDriveSettings,
    r: SchemaFeatures,
    usual: SchemaFeatures,
)
    requires
        call_ensures(SchemaFeatures::from_auto_settings, (settings,), r),
        call_ensures(SchemaFeatures::default, (), usual),
    ensures
        r.include_agents <==> settings.agents_enabled,
        !r.include_goal_field,
        usual.include_agents,
        !usual.include_goal_field,
{
}

} // verus!
