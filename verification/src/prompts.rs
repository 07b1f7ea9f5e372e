//! What the coordinator's model is told.
use crate::events::AutoTurnAgentsTiming;
use crate::recovery::{indent_lines, lemma_absent_pair, prefixed};
use crate::role::{COORDINATOR_PROMPT, TIMEBOXED_GUIDANCE_HEAD, TIMEBOXED_GUIDANCE_TAIL};
use crate::text::{
    blank, contains, is_blank, join, lemma_part_stands, lemma_stands_at, lines, occurs_at,
    opt_text, str_equal, texts, trim, trim_end, trim_end_str, trim_str,
};
use vstd::prelude::*;
use vstd::string::*;

verus! {

/// The name of the form of a decision.
pub const USER_TURN_SCHEMA_NAME: &'static str = "auto_coordinator_user_turn";

/// What is added to a role where the time of a run is limited; `script` is the script that accepts
/// the work.
pub open spec fn timeboxed_words(script: Seq<char>) -> Seq<char> {
    TIMEBOXED_GUIDANCE_HEAD@ + script + TIMEBOXED_GUIDANCE_TAIL@
}

/// A role, with what is added where the time of a run is limited.
pub open spec fn role_words(base: Seq<char>, time_boxed: bool, script: Seq<char>) -> Option<
    Seq<char>,
> {
    if blank(base) {
        None
    } else if time_boxed {
        Some(trim(base) + "\n\n# Time Budget\n"@ + timeboxed_words(script))
    } else {
        Some(trim(base))
    }
}

/// A role in words, with what is added where the time of a run is limited; nothing where it is
/// blank.
pub fn role_text(base: &str, time_boxed: bool, script: &str) -> (r: Option<String>)
    ensures
        opt_text(r) == role_words(base@, time_boxed, script@),
{
    let trimmed = trim_str(base);
    if trimmed.is_empty() {
        None
    } else {
        let mut text = trimmed.to_owned();
        if time_boxed {
            let mut guidance = TIMEBOXED_GUIDANCE_HEAD.to_owned();
            guidance.append(script);
            guidance.append(TIMEBOXED_GUIDANCE_TAIL);
            text.append("\n\n# Time Budget\n");
            text.append(guidance.as_str());
        }
        Some(text)
    }
}

/// The role of the coordinator in words; `script` is the script that accepts the work of a run
/// whose time is limited. Which script that is, the caller says.
pub fn read_coordinator_prompt(time_boxed: bool, script: &str) -> (r: Option<String>)
    ensures
        opt_text(r) == role_words(COORDINATOR_PROMPT@, time_boxed, script@),
{
    role_text(COORDINATOR_PROMPT, time_boxed, script)
}

/// The role, where there is one.
pub open spec fn role_message(coordinator_prompt: Option<Seq<char>>) -> Option<Seq<char>> {
    match coordinator_prompt {
        Some(text) => if blank(text) {
            None
        } else {
            Some(trim(text))
        },
        None => None,
    }
}

/// The goal in words: as given, or to be found in the conversation.
pub open spec fn goal_words(goal_text: Seq<char>, derive_goal_from_history: bool) -> Seq<char> {
    if derive_goal_from_history {
        "**Primary Goal**\nYou are preparing to start Auto Drive. Review the recent conversation history and identify the single primary coding goal the assistant should pursue next."@
    } else {
        "**Primary Goal**\n"@ + goal_text
    }
}

/// What an optional string says.
pub open spec fn opt_str(o: Option<&str>) -> Option<Seq<char>> {
    match o {
        Some(s) => Some(s@),
        None => None,
    }
}

/// The role, the surroundings and the goal, each in words.
pub fn build_developer_message(
    goal_text: &str,
    environment_details: &str,
    coordinator_prompt: Option<&str>,
    derive_goal_from_history: bool,
) -> (r: (Option<String>, String, String))
    ensures
        opt_text(r.0) == role_message(opt_str(coordinator_prompt)),
        r.1@ == "Environment:\n"@ + environment_details@,
        r.2@ == goal_words(goal_text@, derive_goal_from_history),
{
    let coordinator_message = match coordinator_prompt {
        Some(text) => {
            let body = trim_str(text);
            if body.is_empty() {
                None
            } else {
                Some(body.to_owned())
            }
        },
        None => None,
    };
    let mut intro = "Environment:\n".to_owned();
    intro.append(environment_details);
    let primary_goal = if derive_goal_from_history {
        "**Primary Goal**\nYou are preparing to start Auto Drive. Review the recent conversation history and identify the single primary coding goal the assistant should pursue next.".to_owned()
    } else {
        goal_message(goal_text)
    };
    (coordinator_message, intro, primary_goal)
}

/// A given goal in words.
pub fn goal_message(goal_text: &str) -> (r: String)
    ensures
        r@ == goal_words(goal_text@, false),
{
    let mut text = "**Primary Goal**\n".to_owned();
    text.append(goal_text);
    text
}

/// The surroundings in words, with what is said where there is no repository.
pub open spec fn intro_words(intro: Seq<char>, git_repo_present: bool) -> Seq<char> {
    if git_repo_present {
        intro
    } else {
        intro
            + "\n\nThe current working directory is not a git repository. Auto Drive must only launch read-only agents. If a request includes write: true, downgrade it to read-only."@
    }
}

/// The surroundings in words, with what is said where there is no repository.
pub fn developer_intro(intro: String, git_repo_present: bool) -> (r: String)
    ensures
        r@ == intro_words(intro@, git_repo_present),
{
    let mut intro = intro;
    if !git_repo_present {
        intro.append(
            "\n\nThe current working directory is not a git repository. Auto Drive must only launch read-only agents. If a request includes write: true, downgrade it to read-only.",
        );
    }
    intro
}

/// Instructions of the user's, trimmed; nothing where they are blank.
pub fn tidy_instructions(text: Option<String>) -> (r: Option<String>)
    ensures
        opt_text(r) == role_message(opt_text(text)),
{
    match text {
        Some(text) => {
            let trimmed = trim_str(text.as_str());
            if trimmed.is_empty() {
                None
            } else {
                Some(trimmed.to_owned())
            }
        },
        None => None,
    }
}

/// The first step of a mission.
#[derive(Debug, Clone)]
pub struct InitialPlanningSeed {
    pub response_json: String,
    pub cli_prompt: String,
    pub goal_message: String,
    pub status_title: String,
    pub status_sent_to_user: String,
    pub agents_timing: Option<AutoTurnAgentsTiming>,
}

/// What the command line agent is asked first.
pub open spec fn planning_prompt(include_agents: bool) -> Seq<char> {
    if include_agents {
        "Please provide a clear plan to best achieve the Primary Goal. If this is not a trivial task, launch agents and use your tools to research the best approach. If this is a trivial task, or the plan is already in the conversation history, immediately provide the plan. Judge the length of research and planning you perform based on the complexity of the task. For more complex tasks, you can break the plan into workstreams that can be performed at the same time."@
    } else {
        "Please provide a clear plan to best achieve the Primary Goal. If this is not a trivial task, use your tools to research the best approach. If this is a trivial task, or the plan is already in the conversation history, immediately provide the plan. Judge the length of research and planning you perform based on the complexity of the task."@
    }
}

/// The first step as the model would have written it.
pub open spec fn planning_json(include_agents: bool) -> Seq<char> {
    "{\"finish_status\":\"continue\",\"status_title\":\"Planning\",\"status_sent_to_user\":\"Started initial planning phase\",\"prompt_sent_to_cli\":\""@
        + planning_prompt(include_agents) + "\"}"@
}

/// When helper agents run in the first step.
pub open spec fn planning_timing(include_agents: bool) -> Option<AutoTurnAgentsTiming> {
    if include_agents {
        Some(AutoTurnAgentsTiming::Parallel)
    } else {
        None
    }
}

/// The first step of a mission: to plan. There is none without a goal.
pub fn build_initial_planning_seed(goal_text: &str, include_agents: bool) -> (r: Option<
    InitialPlanningSeed,
>)
    ensures
        r is Some <==> !blank(goal_text@),
        r matches Some(seed) ==> {
            &&& seed.cli_prompt@ == planning_prompt(include_agents)
            &&& seed.response_json@ == planning_json(include_agents)
            &&& seed.goal_message@ == "Primary Goal: "@ + trim(goal_text@)
            &&& seed.status_title@ == "Planning route"@
            &&& seed.status_sent_to_user@ == "Planning best route to reach the goal."@
            &&& seed.agents_timing == planning_timing(include_agents)
        },
{
    let goal = trim_str(goal_text);
    if goal.is_empty() {
        return None;
    }
    let cli_prompt = if include_agents {
        "Please provide a clear plan to best achieve the Primary Goal. If this is not a trivial task, launch agents and use your tools to research the best approach. If this is a trivial task, or the plan is already in the conversation history, immediately provide the plan. Judge the length of research and planning you perform based on the complexity of the task. For more complex tasks, you can break the plan into workstreams that can be performed at the same time.".to_owned()
    } else {
        "Please provide a clear plan to best achieve the Primary Goal. If this is not a trivial task, use your tools to research the best approach. If this is a trivial task, or the plan is already in the conversation history, immediately provide the plan. Judge the length of research and planning you perform based on the complexity of the task.".to_owned()
    };
    let mut response_json =
        "{\"finish_status\":\"continue\",\"status_title\":\"Planning\",\"status_sent_to_user\":\"Started initial planning phase\",\"prompt_sent_to_cli\":\"".to_owned();
    response_json.append(cli_prompt.as_str());
    response_json.append("\"}");
    let mut goal_line = "Primary Goal: ".to_owned();
    goal_line.append(goal);
    Some(
        InitialPlanningSeed {
            response_json,
            cli_prompt,
            goal_message: goal_line,
            status_title: "Planning route".to_owned(),
            status_sent_to_user: "Planning best route to reach the goal.".to_owned(),
            agents_timing: if include_agents {
                Some(AutoTurnAgentsTiming::Parallel)
            } else {
                None
            },
        },
    )
}

/// How freely the command line agent may act.
#[derive(Debug, Clone, Copy, PartialEq, Eq, Structural)]
pub enum SandboxAccess {
    Full,
    Limited,
}

/// How freely the command line agent may act, in words.
pub fn sandbox_label(access: SandboxAccess) -> (r: &'static str)
    ensures
        r@ == if access is Full {
            "full access"@
        } else {
            "limited sandbox"@
        },
{
    match access {
        SandboxAccess::Full => "full access",
        SandboxAccess::Limited => "limited sandbox",
    }
}

/// The state of the working tree in words; `status` is what `git status --short` says.
pub open spec fn git_status_words(status: Option<Seq<char>>) -> Seq<char> {
    match status {
        Some(raw) => if blank(raw) {
            "  clean"@
        } else {
            join(prefixed(lines(raw), "  "@), "\n"@)
        },
        None => "  <git status unavailable>"@,
    }
}

/// What is known, or a mark that nothing is.
pub open spec fn or_unknown(text: Option<Seq<char>>) -> Seq<char> {
    match text {
        Some(t) => t,
        None => "<unknown>"@,
    }
}

/// The surroundings in words.
pub open spec fn environment_words(
    sandbox: Seq<char>,
    cwd: Option<Seq<char>>,
    branch: Option<Seq<char>>,
    status: Option<Seq<char>>,
) -> Seq<char> {
    "- Access: "@ + sandbox + "\n- Working directory: "@ + or_unknown(cwd) + "\n- Git branch: "@
        + or_unknown(branch) + "\n- Git status:\n"@ + git_status_words(status)
}

fn known_or_mark(text: Option<String>) -> (r: String)
    ensures
        r@ == or_unknown(opt_text(text)),
{
    match text {
        Some(t) => t,
        None => "<unknown>".to_owned(),
    }
}

/// The surroundings in words: the access, and the working directory, the branch and the state of
/// the working tree as far as they are known.
pub fn format_environment_details(
    sandbox: &str,
    cwd: Option<String>,
    branch: Option<String>,
    git_status: Option<String>,
) -> (r: String)
    ensures
        r@ == environment_words(sandbox@, opt_text(cwd), opt_text(branch), opt_text(git_status)),
{
    let status = match git_status {
        Some(raw) => if is_blank(raw.as_str()) {
            "  clean".to_owned()
        } else {
            indent_lines(raw.as_str(), "  ")
        },
        None => "  <git status unavailable>".to_owned(),
    };
    let mut text = "- Access: ".to_owned();
    text.append(sandbox);
    text.append("\n- Working directory: ");
    text.append(known_or_mark(cwd).as_str());
    text.append("\n- Git branch: ");
    text.append(known_or_mark(branch).as_str());
    text.append("\n- Git status:\n");
    text.append(status.as_str());
    text
}

/// A git command that changes the working tree.
pub open spec fn touches_tree(args: Seq<Seq<char>>) -> bool {
    exists|i: int|
        0 <= i < args.len() && ((#[trigger] args[i]) == "pull"@ || args[i] == "checkout"@ || args[i]
            == "merge"@ || args[i] == "apply"@)
}

/// Whether a git command changes the working tree.
pub fn git_touches_tree(args: &Vec<String>) -> (r: bool)
    ensures
        r == touches_tree(texts(args@)),
{
    let mut i: usize = 0;
    while i < args.len()
        invariant
            i <= args@.len(),
            forall|j: int|
                0 <= j < i ==> !((#[trigger] texts(args@)[j]) == "pull"@ || texts(args@)[j]
                    == "checkout"@ || texts(args@)[j] == "merge"@ || texts(args@)[j] == "apply"@),
        decreases args.len() - i,
    {
        let arg = args[i].as_str();
        assert(texts(args@)[i as int] == arg@);
        if str_equal(arg, "pull") || str_equal(arg, "checkout") || str_equal(arg, "merge")
            || str_equal(arg, "apply") {
            return true;
        }
        i = i + 1;
    }
    false
}

/// What a git command said, where it succeeded and wrote text: without the white space at the end.
pub fn git_output(success: bool, text: Option<String>) -> (r: Option<String>)
    ensures
        r is Some <==> success && text is Some,
        r matches Some(out) ==> out@ == trim_end(text.unwrap()@),
{
    match text {
        Some(text) => if success {
            Some(trim_end_str(text.as_str()).to_owned())
        } else {
            None
        },
        None => None,
    }
}

/// Whether there is a repository: what `git rev-parse --is-inside-work-tree` says.
pub fn inside_work_tree(answer: &Option<String>) -> (r: bool)
    ensures
        r == (opt_text(*answer) == Some("true"@)),
{
    match answer {
        Some(text) => str_equal(text.as_str(), "true"),
        None => false,
    }
}

/// The first step asks for a plan that reaches the primary goal, names helper agents exactly where
/// they are allowed, and is written down as the model would have written it: it continues, with
/// that instruction.
pub proof fn law_plans_are_asked_for(include_agents: bool)
    ensures
        contains(planning_prompt(include_agents), "Primary Goal"@),
        contains(planning_prompt(include_agents), "plan"@),
        contains(planning_prompt(include_agents), "agents"@) <==> include_agents,
        contains(planning_json(include_agents), planning_prompt(include_agents)),
        contains(planning_json(include_agents), "\"finish_status\":\"continue\""@),
{
    let text = planning_prompt(include_agents);
    reveal_strlit("Primary Goal");
    reveal_strlit("plan");
    reveal_strlit("agents");
    if include_agents {
        reveal_strlit(
            "Please provide a clear plan to best achieve the Primary Goal. If this is not a trivial task, launch agents and use your tools to research the best approach. If this is a trivial task, or the plan is already in the conversation history, immediately provide the plan. Judge the length of research and planning you perform based on the complexity of the task. For more complex tasks, you can break the plan into workstreams that can be performed at the same time.",
        );
        lemma_stands_at(text, "agents"@, 100);
    } else {
        reveal_strlit(
            "Please provide a clear plan to best achieve the Primary Goal. If this is not a trivial task, use your tools to research the best approach. If this is a trivial task, or the plan is already in the conversation history, immediately provide the plan. Judge the length of research and planning you perform based on the complexity of the task.",
        );
        lemma_absent_pair(text, "agents"@, 0);
    }
    lemma_stands_at(text, "plan"@, 23);
    lemma_stands_at(text, "Primary Goal"@, 48);
    let a =
        "{\"finish_status\":\"continue\",\"status_title\":\"Planning\",\"status_sent_to_user\":\"Started initial planning phase\",\"prompt_sent_to_cli\":\""@;
    lemma_part_stands(a, text, "\"}"@);
    reveal_strlit(
        "{\"finish_status\":\"continue\",\"status_title\":\"Planning\",\"status_sent_to_user\":\"Started initial planning phase\",\"prompt_sent_to_cli\":\"",
    );
    reveal_strlit("\"finish_status\":\"continue\"");
    lemma_stands_at(planning_json(include_agents), "\"finish_status\":\"continue\""@, 1);
}

/// A role is told trimmed, and unless it is blank it is told; where the time of a run is limited the
/// advice for that, with the script that accepts the work, stands behind it, and else nothing does.
pub proof fn law_roles_are_told(base: Seq<char>, script: Seq<char>)
    ensures
        blank(base) <==> role_words(base, true, script) is None,
        blank(base) <==> role_words(base, false, script) is None,
        !blank(base) ==> role_words(base, false, script) == Some(trim(base)),
        !blank(base) ==> (role_words(base, true, script) matches Some(told) && {
            &&& trim(base).is_prefix_of(told)
            &&& contains(told, "# Time Budget"@)
            &&& contains(told, "`"@ + script + "`"@)
            &&& contains(told, TIMEBOXED_GUIDANCE_HEAD@)
            &&& contains(told, TIMEBOXED_GUIDANCE_TAIL@)
        }),
        role_message(Some(base)) == if blank(base) {
            None
        } else {
            Some(trim(base))
        },
        role_message(None) is None,
{
    if !blank(base) {
        let told = role_words(base, true, script).unwrap();
        let b = "\n\n# Time Budget\n"@;
        let head = TIMEBOXED_GUIDANCE_HEAD@;
        let tail = TIMEBOXED_GUIDANCE_TAIL@;
        let front = trim(base) + b;
        assert(told =~= front + head + script + tail);
        lemma_part_stands(front, head, script + tail);
        assert(told =~= front + head + (script + tail));
        lemma_part_stands(front + head + script, tail, Seq::empty());
        assert(told =~= front + head + script + tail + Seq::<char>::empty());
        lemma_guidance_quotes();
        lemma_part_stands(trim(base) + "\n\n"@, "# Time Budget"@, "\n"@ + head + script + tail);
        assert(told =~= trim(base) + "\n\n"@ + "# Time Budget"@ + ("\n"@ + head + script + tail));
        let inner = head.drop_last();
        let rest = tail.skip(1);
        let quote = "`"@ + script + "`"@;
        assert(told =~= front + (inner + "`"@) + script + ("`"@ + rest));
        assert(told =~= front + inner + quote + rest);
        lemma_part_stands(front + inner, quote, rest);
    }
}

/// The advice for a run whose time is limited quotes the script.
proof fn lemma_guidance_quotes()
    ensures
        TIMEBOXED_GUIDANCE_HEAD@ == TIMEBOXED_GUIDANCE_HEAD@.drop_last() + "`"@,
        TIMEBOXED_GUIDANCE_TAIL@ == "`"@ + TIMEBOXED_GUIDANCE_TAIL@.skip(1),
        "\n\n# Time Budget\n"@ == "\n\n"@ + "# Time Budget"@ + "\n"@,
{
    lemma_time_budget_phrase();
    reveal_strlit("`");
    reveal_strlit(
        "SYSTEM: Time-boxed autonomous exec is enabled.\n\nYou are coordinating a non-interactive coding run. Optimize for verifier success, not exploration.\n\nContract-first and evidence-led:\n- In the first 3 minutes, force a concrete failing signal by running the most authoritative acceptance check available. Prefer (in order): `",
    );
    reveal_strlit(
        "` (read it, then run it) > a task-provided verifier script > the narrowest relevant test (e.g. `pytest -q /tests/test_outputs.py`).\n- Treat that check as the contract: exact paths, ports, formats, exit codes, and stated constraints.\n\nConverge with small diffs:\n- Ship a minimal first-pass fix quickly, then iterate against the same check.\n- Avoid speculative redesigns, broad refactors, or dependency churn unless forced by the contract.\n\nDelegate by outcomes only:\n- Each turn: give one short directive phrased as an outcome (\"make X pass\", \"produce file Y at path Z\", \"ensure binary at /path is executable\"). Let the CLI pick tactics.\n\nTime discipline:\n- Prefer cheap proofs before expensive steps (long builds/downloads/services).\n- Prefer local files and official libraries over scraping web UIs/config endpoints.\n\nFinish standard:\n- finish_success only with proof (acceptance check green + required artifacts present exactly where asserted).\n- Otherwise finish_failed with the last check, its output/error, what changed, and the single next verification step.",
    );
    let head = TIMEBOXED_GUIDANCE_HEAD@;
    let tail = TIMEBOXED_GUIDANCE_TAIL@;
    assert(head.last() == '`' && tail[0] == '`');
    assert(head =~= head.drop_last() + "`"@);
    assert(tail =~= "`"@ + tail.skip(1));
}

proof fn lemma_time_budget_phrase()
    ensures
        "\n\n# Time Budget\n"@ == "\n\n"@ + "# Time Budget"@ + "\n"@,
{
    reveal_strlit("\n\n# Time Budget\n");
    reveal_strlit("\n\n");
    reveal_strlit("# Time Budget");
    reveal_strlit("\n");
    assert("\n\n# Time Budget\n"@ =~= "\n\n"@ + "# Time Budget"@ + "\n"@);
}

/// A goal that is given is told word for word; one that is to be found is asked for in the history.
pub proof fn law_goals_are_told(goal: Seq<char>)
    ensures
        contains(goal_words(goal, false), goal),
        contains(goal_words(goal, false), "Primary Goal"@),
        contains(goal_words(goal, true), "Primary Goal"@),
        contains(goal_words(goal, true), "Review the recent conversation history"@),
{
    let a = "**Primary Goal**\n"@;
    lemma_part_stands(a, goal, Seq::empty());
    assert(goal_words(goal, false) =~= a + goal + Seq::<char>::empty());
    lemma_goal_phrases();
    lemma_part_stands("**"@, "Primary Goal"@, "**\n"@ + goal);
    assert(goal_words(goal, false) =~= "**"@ + "Primary Goal"@ + ("**\n"@ + goal));
}

/// Where the phrases stand in what is said of a goal.
proof fn lemma_goal_phrases()
    ensures
        "**Primary Goal**\n"@ == "**"@ + "Primary Goal"@ + "**\n"@,
        contains(goal_words(Seq::empty(), true), "Primary Goal"@),
        contains(goal_words(Seq::empty(), true), "Review the recent conversation history"@),
{
    reveal_strlit("**");
    reveal_strlit("**\n");
    reveal_strlit("**Primary Goal**\n");
    reveal_strlit("Primary Goal");
    reveal_strlit("Review the recent conversation history");
    reveal_strlit(
        "**Primary Goal**\nYou are preparing to start Auto Drive. Review the recent conversation history and identify the single primary coding goal the assistant should pursue next.",
    );
    assert("**Primary Goal**\n"@ =~= "**"@ + "Primary Goal"@ + "**\n"@);
    let words = goal_words(Seq::empty(), true);
    lemma_stands_at(words, "Primary Goal"@, 2);
    lemma_stands_at(words, "Review the recent conversation history"@, 56);
}

/// Without a repository the model is told to launch helper agents that only read; with one the
/// surroundings are told as they are.
pub proof fn law_missing_repositories_are_told(intro: Seq<char>)
    ensures
        intro_words(intro, true) == intro,
        intro.is_prefix_of(intro_words(intro, false)),
        contains(intro_words(intro, false), "not a git repository"@),
        contains(intro_words(intro, false), "only launch read-only agents"@),
{
    let warning =
        "\n\nThe current working directory is not a git repository. Auto Drive must only launch read-only agents. If a request includes write: true, downgrade it to read-only."@;
    assert(contains(warning, "not a git repository"@) && contains(
        warning,
        "only launch read-only agents"@,
    )) by {
        reveal_strlit(
            "\n\nThe current working directory is not a git repository. Auto Drive must only launch read-only agents. If a request includes write: true, downgrade it to read-only.",
        );
        reveal_strlit("not a git repository");
        reveal_strlit("only launch read-only agents");
        lemma_stands_at(warning, "not a git repository"@, 35);
        lemma_stands_at(warning, "only launch read-only agents"@, 73);
    }
    lemma_part_behind(intro, warning, "not a git repository"@);
    lemma_part_behind(intro, warning, "only launch read-only agents"@);
}

/// A part of what stands behind a text stands in the whole.
proof fn lemma_part_behind(front: Seq<char>, behind: Seq<char>, part: Seq<char>)
    requires
        contains(behind, part),
    ensures
        contains(front + behind, part),
{
    let i = choose|i: int| occurs_at(behind, part, i);
    let n = front.len() as int;
    assert((front + behind).subrange(n + i, n + i + part.len()) =~= behind.subrange(
        i,
        i + part.len(),
    ));
    assert(occurs_at(front + behind, part, n + i));
}

/// The surroundings are told with the access, the working directory, the branch and the state of the
/// working tree, each as far as it is known.
pub proof fn law_surroundings_are_told(
    sandbox: Seq<char>,
    cwd: Option<Seq<char>>,
    branch: Option<Seq<char>>,
    status: Option<Seq<char>>,
)
    ensures
        ({
            let words = environment_words(sandbox, cwd, branch, status);
            let place = match cwd {
                Some(t) => t,
                None => "<unknown>"@,
            };
            let name = match branch {
                Some(t) => t,
                None => "<unknown>"@,
            };
            &&& contains(words, "Access: "@ + sandbox + "\n"@)
            &&& contains(words, "Working directory: "@ + place + "\n"@)
            &&& contains(words, "Git branch: "@ + name + "\n"@)
            &&& status is None ==> contains(words, "git status unavailable"@)
            &&& status matches Some(raw) ==> (blank(raw) ==> contains(words, "  clean"@))
            &&& status matches Some(raw) ==> (!blank(raw) ==> contains(
                words,
                join(prefixed(lines(raw), "  "@), "\n"@),
            ))
        }),
{
    let words = environment_words(sandbox, cwd, branch, status);
    let place = or_unknown(cwd);
    let name = or_unknown(branch);
    let state = git_status_words(status);
    lemma_surrounding_phrases();
    let front = "- Access: "@ + sandbox + "\n- Working directory: "@ + place + "\n- Git branch: "@ + name
        + "\n- Git status:\n"@;
    assert(words == front + state);
    lemma_part_stands(front, state, Seq::empty());
    assert(words =~= front + state + Seq::<char>::empty());
    lemma_lines_stand(
        "- "@,
        "\n"@,
        "Access: "@,
        sandbox,
        "Working directory: "@,
        place,
        "Git branch: "@,
        name,
        "- Git status:\n"@,
        state,
    );
    if status is None {
        lemma_part_behind(front, state, "git status unavailable"@);
    }
}

/// Lines that begin with a mark and a label stand in the whole.
proof fn lemma_lines_stand(
    mark: Seq<char>,
    end: Seq<char>,
    l1: Seq<char>,
    t1: Seq<char>,
    l2: Seq<char>,
    t2: Seq<char>,
    l3: Seq<char>,
    t3: Seq<char>,
    l4: Seq<char>,
    t4: Seq<char>,
)
    ensures
        ({
            let whole = (mark + l1) + t1 + (end + mark + l2) + t2 + (end + mark + l3) + t3 + (end
                + l4) + t4;
            &&& contains(whole, l1 + t1 + end)
            &&& contains(whole, l2 + t2 + end)
            &&& contains(whole, l3 + t3 + end)
        }),
{
    let whole = (mark + l1) + t1 + (end + mark + l2) + t2 + (end + mark + l3) + t3 + (end + l4) + t4;
    let one = l1 + t1 + end;
    let two = l2 + t2 + end;
    let three = l3 + t3 + end;
    let r3 = l4 + t4;
    let r2 = mark + l3 + t3 + (end + r3);
    let r1 = mark + l2 + t2 + (end + r2);
    assert(whole == mark + one + r1) by {
        assert(whole =~= mark + one + r1);
    }
    lemma_part_stands(mark, one, r1);
    let f2 = mark + one + mark;
    assert(whole =~= f2 + two + r2);
    lemma_part_stands(f2, two, r2);
    let f3 = f2 + two + mark;
    assert(whole =~= f3 + three + r3);
    lemma_part_stands(f3, three, r3);
}

/// The phrases of what is said of the surroundings.
proof fn lemma_surrounding_phrases()
    ensures
        "- Access: "@ == "- "@ + "Access: "@,
        "\n- Working directory: "@ == "\n"@ + "- "@ + "Working directory: "@,
        "\n- Git branch: "@ == "\n"@ + "- "@ + "Git branch: "@,
        "\n- Git status:\n"@ == "\n"@ + "- Git status:\n"@,
        contains("  <git status unavailable>"@, "git status unavailable"@),
{
    reveal_strlit("- ");
    reveal_strlit("\n");
    reveal_strlit("- Access: ");
    reveal_strlit("Access: ");
    reveal_strlit("\n- Working directory: ");
    reveal_strlit("Working directory: ");
    reveal_strlit("\n- Git branch: ");
    reveal_strlit("Git branch: ");
    reveal_strlit("\n- Git status:\n");
    reveal_strlit("- Git status:\n");
    reveal_strlit("  <git status unavailable>");
    reveal_strlit("git status unavailable");
    assert("- Access: "@ =~= "- "@ + "Access: "@);
    assert("\n- Working directory: "@ =~= "\n"@ + "- "@ + "Working directory: "@);
    assert("\n- Git branch: "@ =~= "\n"@ + "- "@ + "Git branch: "@);
    assert("\n- Git status:\n"@ =~= "\n"@ + "- Git status:\n"@);
    lemma_stands_at("  <git status unavailable>"@, "git status unavailable"@, 3);
}

/// A git command changes the working tree exactly where one of its words is one of four.
pub proof fn law_which_commands_change_the_tree(before: Seq<Seq<char>>, behind: Seq<Seq<char>>)
    ensures
        touches_tree(before.push("pull"@) + behind),
        touches_tree(before.push("checkout"@) + behind),
        touches_tree(before.push("merge"@) + behind),
        touches_tree(before.push("apply"@) + behind),
        touches_tree(before) ==> before.contains("pull"@) || before.contains("checkout"@)
            || before.contains("merge"@) || before.contains("apply"@),
{
    let n = before.len() as int;
    assert((before.push("pull"@) + behind)[n] == "pull"@);
    assert((before.push("checkout"@) + behind)[n] == "checkout"@);
    assert((before.push("merge"@) + behind)[n] == "merge"@);
    assert((before.push("apply"@) + behind)[n] == "apply"@);
}

/// The role, the surroundings and the goal are each told in their own message.
pub proof fn law_three_messages(
    goal_text: &str,
    environment_details: &str,
    coordinator_prompt: Option<&str>,
    derive: bool,
    r: (Option<String>, String, String),
)
    requires
        call_ensures(
            build_developer_message,
            (goal_text, environment_details, coordinator_prompt, derive),
            r,
        ),
    ensures
        coordinator_prompt matches Some(text) ==> (!blank(text@) ==> opt_text(r.0) == Some(
            trim(text@),
        )),
        coordinator_prompt matches Some(text) ==> (blank(text@) ==> r.0 is None),
        coordinator_prompt is None ==> r.0 is None,
        contains(r.1@, environment_details@),
        "Environment:"@.is_prefix_of(r.1@),
        !derive ==> contains(r.2@, goal_text@),
        contains(r.2@, "Primary Goal"@),
{
    let a = "Environment:\n"@;
    lemma_part_stands(a, environment_details@, Seq::empty());
    assert(r.1@ =~= a + environment_details@ + Seq::<char>::empty());
    reveal_strlit("Environment:\n");
    reveal_strlit("Environment:");
    assert("Environment:"@ =~= r.1@.take("Environment:"@.len() as int));
    law_goals_are_told(goal_text@);
}

/// What a git command says is taken without the white space at its end, where it succeeded and wrote
/// text; only the word `true` says that there is a repository.
pub proof fn law_what_git_says(
    success: bool,
    text: Option<String>,
    out: Option<String>,
    answer: &Option<String>,
    inside: bool,
)
    requires
        call_ensures(git_output, (success, text), out),
        call_ensures(inside_work_tree, (answer,), inside),
    ensures
        !success || text is None ==> out is None,
        success ==> (text matches Some(said) ==> opt_text(out) == Some(trim_end(said@))),
        inside <==> (*answer matches Some(word) && word@ == "true"@),
{
}

/// The access is told as full exactly where it is, and the user's instructions are told trimmed where
/// they are not blank.
pub proof fn law_access_and_instructions(
    access: SandboxAccess,
    label: &'static str,
    text: Option<String>,
    tidy: Option<String>,
)
    requires
        call_ensures(sandbox_label, (access,), label),
        call_ensures(tidy_instructions, (text,), tidy),
    ensures
        access is Full ==> label@ == "full access"@,
        access is Limited ==> label@ == "limited sandbox"@,
        text matches Some(said) ==> (!blank(said@) ==> opt_text(tidy) == Some(trim(said@))),
        text matches Some(said) ==> (blank(said@) ==> tidy is None),
        text is None ==> tidy is None,
{
}

/// There is a first step exactly where there is a goal, which it tells trimmed.
pub proof fn law_first_steps(goal_text: &str, include_agents: bool, r: Option<InitialPlanningSeed>)
    requires
        call_ensures(build_initial_planning_seed, (goal_text, include_agents), r),
    ensures
        blank(goal_text@) <==> r is None,
        r matches Some(seed) ==> {
            &&& contains(seed.goal_message@, trim(goal_text@))
            &&& contains(seed.response_json@, seed.cli_prompt@)
            &&& include_agents ==> seed.agents_timing == Some(AutoTurnAgentsTiming::Parallel)
            &&& !include_agents ==> seed.agents_timing is None
        },
{
    law_plans_are_asked_for(include_agents);
    let a = "Primary Goal: "@;
    lemma_part_stands(a, trim(goal_text@), Seq::empty());
    assert(a + trim(goal_text@) + Seq::<char>::empty() =~= a + trim(goal_text@));
}

} // verus!
