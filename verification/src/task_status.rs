//! Task status messages in the user's language.
//!
//! Cloud agents report their status in US English, as the en-US catalog
//! words it. A message that is the en-US text of a known key, or that the
//! en-US template of a known key produces, is shown in the user's language
//! instead; any other message is shown as it came.

use vstd::prelude::*;

use crate::localization::{fill_spec, text_spec, CatalogBundle, LocaleId, LocalizedMessage, PlaceholderError};
use crate::template::{
    extract_single_placeholder_value, extract_template_args, extract_template_args_spec,
    pairs_view, single_placeholder_name, single_placeholder_name_spec,
    single_placeholder_value_spec,
};
use crate::text::{chars_eq, chars_of};

verus! {

/// The failure message of a task that ran out of credits.
pub const OUT_OF_CREDITS_TASK_FAILURE_MESSAGE: &'static str =
    "Out of credits. Upgrade your Warp plan to continue running cloud agents.";

/// The failure message of a task that the server was too busy to run.
pub const SERVER_OVERLOADED_TASK_FAILURE_MESSAGE: &'static str =
    "Warp is temporarily overloaded. Please try again shortly.";

/// The action a blocked CLI agent names while it waits for the user's answer.
pub const CLI_AGENT_WAITING_FOR_ANSWER_BLOCKED_ACTION: &'static str = "Waiting for your answer";

pub open spec fn strs(v: Seq<&str>) -> Seq<Seq<char>> {
    v.map_values(|s: &str| s@)
}

pub open spec fn str_pairs(v: Seq<(&str, &str)>) -> Seq<(Seq<char>, Seq<char>)> {
    v.map_values(|p: (&str, &str)| (p.0@, p.1@))
}

/// The en-US text of `key`: how a cloud agent words it.
pub open spec fn en(b: CatalogBundle, key: Seq<char>) -> Seq<char> {
    text_spec(b, LocaleId::EnUs, key)
}

/// Task statuses without placeholders.
pub open spec fn task_status_keys() -> Seq<Seq<char>> {
    seq![
        "agent.task_status.quota_limit"@,
        "agent.task_status.server_overloaded"@,
        "agent.task_status.internal_error"@,
    ]
}

fn task_status_keys_exec() -> (v: Vec<&'static str>)
    ensures
        strs(v@) == task_status_keys(),
{
    let v = vec![
        "agent.task_status.quota_limit",
        "agent.task_status.server_overloaded",
        "agent.task_status.internal_error",
    ];
    assert(strs(v@) =~= task_status_keys());
    v
}

/// Task statuses with one placeholder, and its name.
pub open spec fn task_status_patterns() -> Seq<(Seq<char>, Seq<char>)> {
    seq![
        ("agent.task_status.blocked"@, "action"@),
        ("agent.task_status.context_window_exceeded"@, "message"@),
        ("agent.task_status.invalid_api_key"@, "provider"@),
        ("agent.task_status.aws_bedrock_credentials_expired_or_invalid"@, "model_name"@),
    ]
}

fn task_status_patterns_exec() -> (v: Vec<(&'static str, &'static str)>)
    ensures
        str_pairs(v@) == task_status_patterns(),
{
    let v = vec![
        ("agent.task_status.blocked", "action"),
        ("agent.task_status.context_window_exceeded", "message"),
        ("agent.task_status.invalid_api_key", "provider"),
        ("agent.task_status.aws_bedrock_credentials_expired_or_invalid", "model_name"),
    ];
    assert(str_pairs(v@) =~= task_status_patterns());
    v
}

/// The driver's error classifications.
pub open spec fn driver_error_keys() -> Seq<Seq<char>> {
    seq![
        "agent_sdk.driver.error_classification.aws_bedrock_credentials_failed"@,
        "agent_sdk.driver.error_classification.bootstrap_error.internal"@,
        "agent_sdk.driver.error_classification.bootstrap_error.pty_spawn_failed"@,
        "agent_sdk.driver.error_classification.bootstrap_error.pty_spawn_failed_with_reason"@,
        "agent_sdk.driver.error_classification.bootstrap_error.timed_out"@,
        "agent_sdk.driver.error_classification.bootstrap_failed"@,
        "agent_sdk.driver.error_classification.cloud_provider_setup_failed"@,
        "agent_sdk.driver.error_classification.config_build_failed"@,
        "agent_sdk.driver.error_classification.conversation_blocked"@,
        "agent_sdk.driver.error_classification.conversation_cancelled"@,
        "agent_sdk.driver.error_classification.conversation_harness_mismatch"@,
        "agent_sdk.driver.error_classification.conversation_load_failed"@,
        "agent_sdk.driver.error_classification.conversation_resume_state_missing"@,
        "agent_sdk.driver.error_classification.environment_not_found"@,
        "agent_sdk.driver.error_classification.environment_setup_failed"@,
        "agent_sdk.driver.error_classification.harness_auth_check_failed"@,
        "agent_sdk.driver.error_classification.harness_command_failed"@,
        "agent_sdk.driver.error_classification.harness_config_setup_failed"@,
        "agent_sdk.driver.error_classification.harness_runtime_failure_detected"@,
        "agent_sdk.driver.error_classification.harness_setup_failed"@,
        "agent_sdk.driver.error_classification.internal_error"@,
        "agent_sdk.driver.error_classification.invalid_working_directory"@,
        "agent_sdk.driver.error_classification.managed_mcp_resolution_failed"@,
        "agent_sdk.driver.error_classification.mcp_json_parse_error"@,
        "agent_sdk.driver.error_classification.mcp_missing_variables"@,
        "agent_sdk.driver.error_classification.mcp_server_not_found"@,
        "agent_sdk.driver.error_classification.mcp_startup_failed"@,
        "agent_sdk.driver.error_classification.not_logged_in"@,
        "agent_sdk.driver.error_classification.profile_not_found"@,
        "agent_sdk.driver.error_classification.prompt_resolution_failed"@,
        "agent_sdk.driver.error_classification.saved_prompt_not_found"@,
        "agent_sdk.driver.error_classification.secrets_fetch_failed"@,
        "agent_sdk.driver.error_classification.share_disabled"@,
        "agent_sdk.driver.error_classification.share_failed"@,
        "agent_sdk.driver.error_classification.share_internal"@,
        "agent_sdk.driver.error_classification.share_interrupted"@,
        "agent_sdk.driver.error_classification.share_timeout"@,
        "agent_sdk.driver.error_classification.skill_resolution_failed"@,
        "agent_sdk.driver.error_classification.task_harness_mismatch"@,
        "agent_sdk.driver.error_classification.team_metadata_refresh_timeout"@,
        "agent_sdk.driver.error_classification.warp_drive_sync_failed"@,
    ]
}

fn driver_error_keys_exec() -> (v: Vec<&'static str>)
    ensures
        strs(v@) == driver_error_keys(),
{
    let v = vec![
        "agent_sdk.driver.error_classification.aws_bedrock_credentials_failed",
        "agent_sdk.driver.error_classification.bootstrap_error.internal",
        "agent_sdk.driver.error_classification.bootstrap_error.pty_spawn_failed",
        "agent_sdk.driver.error_classification.bootstrap_error.pty_spawn_failed_with_reason",
        "agent_sdk.driver.error_classification.bootstrap_error.timed_out",
        "agent_sdk.driver.error_classification.bootstrap_failed",
        "agent_sdk.driver.error_classification.cloud_provider_setup_failed",
        "agent_sdk.driver.error_classification.config_build_failed",
        "agent_sdk.driver.error_classification.conversation_blocked",
        "agent_sdk.driver.error_classification.conversation_cancelled",
        "agent_sdk.driver.error_classification.conversation_harness_mismatch",
        "agent_sdk.driver.error_classification.conversation_load_failed",
        "agent_sdk.driver.error_classification.conversation_resume_state_missing",
        "agent_sdk.driver.error_classification.environment_not_found",
        "agent_sdk.driver.error_classification.environment_setup_failed",
        "agent_sdk.driver.error_classification.harness_auth_check_failed",
        "agent_sdk.driver.error_classification.harness_command_failed",
        "agent_sdk.driver.error_classification.harness_config_setup_failed",
        "agent_sdk.driver.error_classification.harness_runtime_failure_detected",
        "agent_sdk.driver.error_classification.harness_setup_failed",
        "agent_sdk.driver.error_classification.internal_error",
        "agent_sdk.driver.error_classification.invalid_working_directory",
        "agent_sdk.driver.error_classification.managed_mcp_resolution_failed",
        "agent_sdk.driver.error_classification.mcp_json_parse_error",
        "agent_sdk.driver.error_classification.mcp_missing_variables",
        "agent_sdk.driver.error_classification.mcp_server_not_found",
        "agent_sdk.driver.error_classification.mcp_startup_failed",
        "agent_sdk.driver.error_classification.not_logged_in",
        "agent_sdk.driver.error_classification.profile_not_found",
        "agent_sdk.driver.error_classification.prompt_resolution_failed",
        "agent_sdk.driver.error_classification.saved_prompt_not_found",
        "agent_sdk.driver.error_classification.secrets_fetch_failed",
        "agent_sdk.driver.error_classification.share_disabled",
        "agent_sdk.driver.error_classification.share_failed",
        "agent_sdk.driver.error_classification.share_internal",
        "agent_sdk.driver.error_classification.share_interrupted",
        "agent_sdk.driver.error_classification.share_timeout",
        "agent_sdk.driver.error_classification.skill_resolution_failed",
        "agent_sdk.driver.error_classification.task_harness_mismatch",
        "agent_sdk.driver.error_classification.team_metadata_refresh_timeout",
        "agent_sdk.driver.error_classification.warp_drive_sync_failed",
    ];
    assert(strs(v@) =~= driver_error_keys());
    v
}

/// The names of the agent's actions.
pub open spec fn action_name_keys() -> Seq<Seq<char>> {
    seq![
        "agent.action.name.ask_user_question"@,
        "agent.action.name.call_mcp_tool"@,
        "agent.action.name.create_documents"@,
        "agent.action.name.edit_documents"@,
        "agent.action.name.edit_files"@,
        "agent.action.name.fetch_conversation"@,
        "agent.action.name.file_glob"@,
        "agent.action.name.grep"@,
        "agent.action.name.init_project"@,
        "agent.action.name.insert_code_review_comments"@,
        "agent.action.name.open_code_review"@,
        "agent.action.name.read_documents"@,
        "agent.action.name.read_files"@,
        "agent.action.name.read_mcp_resource"@,
        "agent.action.name.read_shell_command_output"@,
        "agent.action.name.read_skill"@,
        "agent.action.name.request_computer_use"@,
        "agent.action.name.run_agents"@,
        "agent.action.name.run_command"@,
        "agent.action.name.search_codebase"@,
        "agent.action.name.send_message_to_agent"@,
        "agent.action.name.start_agent"@,
        "agent.action.name.suggest_new_conversation"@,
        "agent.action.name.suggest_prompt"@,
        "agent.action.name.transfer_shell_command_control_to_user"@,
        "agent.action.name.upload_artifact"@,
        "agent.action.name.use_computer"@,
        "agent.action.name.write_to_long_running_shell_command"@,
    ]
}

fn action_name_keys_exec() -> (v: Vec<&'static str>)
    ensures
        strs(v@) == action_name_keys(),
{
    let v = vec![
        "agent.action.name.ask_user_question",
        "agent.action.name.call_mcp_tool",
        "agent.action.name.create_documents",
        "agent.action.name.edit_documents",
        "agent.action.name.edit_files",
        "agent.action.name.fetch_conversation",
        "agent.action.name.file_glob",
        "agent.action.name.grep",
        "agent.action.name.init_project",
        "agent.action.name.insert_code_review_comments",
        "agent.action.name.open_code_review",
        "agent.action.name.read_documents",
        "agent.action.name.read_files",
        "agent.action.name.read_mcp_resource",
        "agent.action.name.read_shell_command_output",
        "agent.action.name.read_skill",
        "agent.action.name.request_computer_use",
        "agent.action.name.run_agents",
        "agent.action.name.run_command",
        "agent.action.name.search_codebase",
        "agent.action.name.send_message_to_agent",
        "agent.action.name.start_agent",
        "agent.action.name.suggest_new_conversation",
        "agent.action.name.suggest_prompt",
        "agent.action.name.transfer_shell_command_control_to_user",
        "agent.action.name.upload_artifact",
        "agent.action.name.use_computer",
        "agent.action.name.write_to_long_running_shell_command",
    ];
    assert(strs(v@) =~= action_name_keys());
    v
}

/// Action names that agents word otherwise than the catalog, with the key
/// they stand for.
pub open spec fn action_name_aliases() -> Seq<(Seq<char>, Seq<char>)> {
    seq![
        (CLI_AGENT_WAITING_FOR_ANSWER_BLOCKED_ACTION@, "agent.action.name.waiting_for_your_answer"@),
        ("Call mcp tool"@, "agent.action.name.call_mcp_tool"@),
        ("Read mcp resource"@, "agent.action.name.read_mcp_resource"@),
        ("Write to long running shell command"@, "agent.action.name.write_to_long_running_shell_command"@),
    ]
}

fn action_name_aliases_exec() -> (v: Vec<(&'static str, &'static str)>)
    ensures
        str_pairs(v@) == action_name_aliases(),
{
    let v = vec![
        (CLI_AGENT_WAITING_FOR_ANSWER_BLOCKED_ACTION, "agent.action.name.waiting_for_your_answer"),
        ("Call mcp tool", "agent.action.name.call_mcp_tool"),
        ("Read mcp resource", "agent.action.name.read_mcp_resource"),
        ("Write to long running shell command", "agent.action.name.write_to_long_running_shell_command"),
    ];
    assert(str_pairs(v@) =~= action_name_aliases());
    v
}


// ---------------------------------------------------------------------------
// Matching
// ---------------------------------------------------------------------------

/// A lookup that may recognize a message: `None` when it does not; when it
/// does, the localized text, or `None` inside where the user's catalog
/// template names a placeholder that the message does not supply.
pub open spec fn res_view(r: Result<String, PlaceholderError>) -> Option<Seq<char>> {
    match r {
        Ok(s) => Some(s@),
        Err(_) => None,
    }
}

pub open spec fn opt_res_view(r: Option<Result<String, PlaceholderError>>) -> Option<Option<Seq<char>>> {
    match r {
        Some(x) => Some(res_view(x)),
        None => None,
    }
}

/// The index of the first key, from `i` on, whose en-US text is `m`.
pub open spec fn first_exact_from(b: CatalogBundle, keys: Seq<Seq<char>>, m: Seq<char>, i: int) -> Option<
    int,
>
    decreases keys.len() - i,
{
    if i < 0 || i >= keys.len() {
        None
    } else if en(b, keys[i]) == m {
        Some(i)
    } else {
        first_exact_from(b, keys, m, i + 1)
    }
}

/// The key of the first alias, from `i` on, that is `name`.
pub open spec fn alias_from(aliases: Seq<(Seq<char>, Seq<char>)>, name: Seq<char>, i: int) -> Option<
    Seq<char>,
>
    decreases aliases.len() - i,
{
    if i < 0 || i >= aliases.len() {
        None
    } else if aliases[i].0 == name {
        Some(aliases[i].1)
    } else {
        alias_from(aliases, name, i + 1)
    }
}

/// `t` in the user's language if it is the en-US text of `key`, or what the
/// en-US template of `key`, with a single placeholder, makes of some value.
pub open spec fn canonical_text_for_key(b: CatalogBundle, locale: LocaleId, key: Seq<char>, t: Seq<char>) -> Option<
    Option<Seq<char>>,
> {
    let pattern = en(b, key);
    if pattern == t {
        Some(Some(text_spec(b, locale, key)))
    } else {
        match single_placeholder_value_spec(pattern, t) {
            None => None,
            Some(v) => match single_placeholder_name_spec(pattern) {
                None => None,
                Some(n) => Some(fill_spec(text_spec(b, locale, key), seq![(n, v)])),
            },
        }
    }
}

pub open spec fn action_key_from(b: CatalogBundle, locale: LocaleId, keys: Seq<Seq<char>>, t: Seq<char>, i: int) -> Option<
    Option<Seq<char>>,
>
    decreases keys.len() - i,
{
    if i < 0 || i >= keys.len() {
        None
    } else {
        match canonical_text_for_key(b, locale, keys[i], t) {
            Some(r) => Some(r),
            None => action_key_from(b, locale, keys, t, i + 1),
        }
    }
}

/// An action name in the user's language: an alias's key first, then the
/// first action key whose en-US text makes the name.
pub open spec fn action_name_spec(b: CatalogBundle, locale: LocaleId, name: Seq<char>) -> Option<Option<Seq<char>>> {
    match alias_from(action_name_aliases(), name, 0) {
        Some(key) => Some(Some(text_spec(b, locale, key))),
        None => action_key_from(b, locale, action_name_keys(), name, 0),
    }
}

/// The value of a task status placeholder in the user's language: the action
/// of a blocked task is translated where it is a known action name.
pub open spec fn task_status_arg(b: CatalogBundle, locale: LocaleId, key: Seq<char>, arg: Seq<char>, v: Seq<char>) -> Option<
    Seq<char>,
> {
    if key == "agent.task_status.blocked"@ && arg == "action"@ {
        match action_name_spec(b, locale, v) {
            Some(r) => r,
            None => Some(v),
        }
    } else {
        Some(v)
    }
}

pub open spec fn pattern_from(
    b: CatalogBundle,
    locale: LocaleId,
    pats: Seq<(Seq<char>, Seq<char>)>,
    m: Seq<char>,
    i: int,
) -> Option<Option<Seq<char>>>
    decreases pats.len() - i,
{
    if i < 0 || i >= pats.len() {
        None
    } else {
        let key = pats[i].0;
        let arg = pats[i].1;
        match single_placeholder_value_spec(en(b, key), m) {
            Some(v) => Some(
                match task_status_arg(b, locale, key, arg, v) {
                    Some(a) => fill_spec(text_spec(b, locale, key), seq![(arg, a)]),
                    None => None,
                },
            ),
            None => pattern_from(b, locale, pats, m, i + 1),
        }
    }
}

/// A task status in the user's language: a status without placeholders, else
/// one with a single placeholder.
pub open spec fn canonical_task_status_spec(b: CatalogBundle, locale: LocaleId, m: Seq<char>) -> Option<Option<Seq<char>>> {
    match first_exact_from(b, task_status_keys(), m, 0) {
        Some(i) => Some(Some(text_spec(b, locale, task_status_keys()[i]))),
        None => pattern_from(b, locale, task_status_patterns(), m, 0),
    }
}

/// A driver error in the user's language: the first classification, from the
/// `i`-th on, whose en-US text is the message or whose en-US template makes
/// it; the error inside a failed bootstrap is translated in turn.
pub open spec fn driver_error_from(b: CatalogBundle, locale: LocaleId, m: Seq<char>, i: int) -> Option<
    Option<Seq<char>>,
>
    decreases m.len(), 1nat, driver_error_keys().len() - i,
{
    let keys = driver_error_keys();
    if i < 0 || i >= keys.len() {
        None
    } else {
        let key = keys[i];
        let canonical = en(b, key);
        if canonical == m {
            Some(Some(text_spec(b, locale, key)))
        } else {
            match extract_template_args_spec(canonical, m) {
                None => driver_error_from(b, locale, m, i + 1),
                Some(args) => Some(
                    match localized_driver_args(b, locale, key, args, m.len()) {
                        Some(la) => fill_spec(text_spec(b, locale, key), la),
                        None => None,
                    },
                ),
            }
        }
    }
}

/// The values read from a driver error, in the user's language: the `error`
/// of a failed bootstrap is itself a driver error, translated where it is
/// shorter than the whole message (a template that is only that placeholder
/// would otherwise name itself).
pub open spec fn localized_driver_args(
    b: CatalogBundle,
    locale: LocaleId,
    key: Seq<char>,
    args: Seq<(Seq<char>, Seq<char>)>,
    mlen: nat,
) -> Option<Seq<(Seq<char>, Seq<char>)>>
    decreases mlen, 0nat, args.len(),
{
    if args.len() == 0 {
        Some(Seq::empty())
    } else {
        match localized_driver_args(b, locale, key, args.drop_last(), mlen) {
            None => None,
            Some(front) => {
                let name = args.last().0;
                let value = args.last().1;
                if key == "agent_sdk.driver.error_classification.bootstrap_failed"@ && name
                    == "error"@ && value.len() < mlen {
                    match driver_error_from(b, locale, value, 0) {
                        Some(Some(r)) => Some(front.push((name, r))),
                        Some(None) => None,
                        None => Some(front.push((name, value))),
                    }
                } else {
                    Some(front.push((name, value)))
                }
            },
        }
    }
}

/// A task status message in the user's language: the generic error and
/// cancellation texts, then a known task status, then a known driver error;
/// any other message as it came. `None` where the user's catalog template
/// names a placeholder that the message does not supply.
pub open spec fn task_status_message_spec(b: CatalogBundle, locale: LocaleId, m: Seq<char>) -> Option<Seq<char>> {
    if m == en(b, "agent.task_status.error"@) {
        Some(text_spec(b, locale, "agent.task_status.error"@))
    } else if m == en(b, "agent.task_status.cancelled"@) {
        Some(text_spec(b, locale, "agent.task_status.cancelled"@))
    } else {
        match canonical_task_status_spec(b, locale, m) {
            Some(r) => r,
            None => match driver_error_from(b, locale, m, 0) {
                Some(r) => r,
                None => Some(m),
            },
        }
    }
}

// ---------------------------------------------------------------------------
// Executable
// ---------------------------------------------------------------------------

fn str_is(s: &[char], lit: &str) -> (b: bool)
    ensures
        b == (s@ == lit@),
{
    let l = chars_of(lit);
    chars_eq(s, l.as_slice())
}

fn render_one(catalogs: &CatalogBundle, locale: LocaleId, key: &str, name: &str, value: &str) -> (r: Result<
    String,
    PlaceholderError,
>)
    ensures
        res_view(r) == fill_spec(text_spec(*catalogs, locale, key@), seq![(name@, value@)]),
{
    let mut args: Vec<(String, String)> = Vec::new();
    args.push((name.to_owned(), value.to_owned()));
    assert(pairs_view(args@) =~= seq![(name@, value@)]);
    catalogs.render(locale, &LocalizedMessage { key: key.to_owned(), args })
}

fn first_exact(catalogs: &CatalogBundle, keys: &Vec<&'static str>, m: &[char]) -> (r: Option<usize>)
    ensures
        match r {
            Some(i) => first_exact_from(*catalogs, strs(keys@), m@, 0) == Some(i as int) && i
                < keys@.len(),
            None => first_exact_from(*catalogs, strs(keys@), m@, 0) is None,
        },
{
    let ghost ks = strs(keys@);
    let mut i: usize = 0;
    while i < keys.len()
        invariant
            ks == strs(keys@),
            i <= keys@.len(),
            first_exact_from(*catalogs, ks, m@, 0) == first_exact_from(*catalogs, ks, m@, i as int),
        decreases keys@.len() - i,
    {
        let t = catalogs.text(LocaleId::EnUs, keys[i]);
        let tc = chars_of(t.as_str());
        if chars_eq(tc.as_slice(), m) {
            return Some(i);
        }
        i = i + 1;
    }
    None
}

fn canonical_text_for_key_exec(catalogs: &CatalogBundle, locale: LocaleId, key: &str, t: &str) -> (r:
    Option<Result<String, PlaceholderError>>)
    ensures
        opt_res_view(r) == canonical_text_for_key(*catalogs, locale, key@, t@),
{
    let pattern = catalogs.text(LocaleId::EnUs, key);
    let pc = chars_of(pattern.as_str());
    let tc = chars_of(t);
    if chars_eq(pc.as_slice(), tc.as_slice()) {
        return Some(Ok(catalogs.text(locale, key)));
    }
    match extract_single_placeholder_value(pattern.as_str(), t) {
        None => None,
        Some(v) => match single_placeholder_name(pattern.as_str()) {
            None => None,
            Some(n) => Some(render_one(catalogs, locale, key, n.as_str(), v.as_str())),
        },
    }
}

/// The user's-language form of an agent action name, if it is a known one
/// (see [`action_name_spec`]).
pub fn localized_canonical_agent_action_name(catalogs: &CatalogBundle, locale: LocaleId, name: &str) -> (r:
    Option<Result<String, PlaceholderError>>)
    ensures
        opt_res_view(r) == action_name_spec(*catalogs, locale, name@),
{
    let nc = chars_of(name);
    let aliases = action_name_aliases_exec();
    let ghost al = str_pairs(aliases@);
    let mut i: usize = 0;
    while i < aliases.len()
        invariant
            al == str_pairs(aliases@),
            al == action_name_aliases(),
            nc@ == name@,
            i <= aliases@.len(),
            alias_from(al, name@, 0) == alias_from(al, name@, i as int),
        decreases aliases@.len() - i,
    {
        let (alias, key) = aliases[i];
        if str_is(nc.as_slice(), alias) {
            assert(alias_from(al, name@, i as int) == Some(key@));
            return Some(Ok(catalogs.text(locale, key)));
        }
        i = i + 1;
    }
    let keys = action_name_keys_exec();
    let ghost ks = strs(keys@);
    let mut j: usize = 0;
    while j < keys.len()
        invariant
            ks == strs(keys@),
            ks == action_name_keys(),
            alias_from(action_name_aliases(), name@, 0) is None,
            j <= keys@.len(),
            action_key_from(*catalogs, locale, ks, name@, 0) == action_key_from(
                *catalogs,
                locale,
                ks,
                name@,
                j as int,
            ),
        decreases keys@.len() - j,
    {
        match canonical_text_for_key_exec(catalogs, locale, keys[j], name) {
            Some(r) => return Some(r),
            None => {},
        }
        j = j + 1;
    }
    None
}

fn task_status_arg_exec(catalogs: &CatalogBundle, locale: LocaleId, key: &str, arg: &str, v: &str) -> (r:
    Result<String, PlaceholderError>)
    ensures
        res_view(r) == task_status_arg(*catalogs, locale, key@, arg@, v@),
{
    let kc = chars_of(key);
    let ac = chars_of(arg);
    if str_is(kc.as_slice(), "agent.task_status.blocked") && str_is(ac.as_slice(), "action") {
        match localized_canonical_agent_action_name(catalogs, locale, v) {
            Some(r) => r,
            None => Ok(v.to_owned()),
        }
    } else {
        Ok(v.to_owned())
    }
}

fn canonical_task_status_exec(catalogs: &CatalogBundle, locale: LocaleId, message: &str) -> (r: Option<
    Result<String, PlaceholderError>,
>)
    ensures
        opt_res_view(r) == canonical_task_status_spec(*catalogs, locale, message@),
{
    let mc = chars_of(message);
    let keys = task_status_keys_exec();
    match first_exact(catalogs, &keys, mc.as_slice()) {
        Some(i) => {
            return Some(Ok(catalogs.text(locale, keys[i])));
        },
        None => {},
    }
    let pats = task_status_patterns_exec();
    let ghost ps = str_pairs(pats@);
    let mut i: usize = 0;
    while i < pats.len()
        invariant
            ps == str_pairs(pats@),
            ps == task_status_patterns(),
            first_exact_from(*catalogs, task_status_keys(), message@, 0) is None,
            i <= pats@.len(),
            pattern_from(*catalogs, locale, ps, message@, 0) == pattern_from(
                *catalogs,
                locale,
                ps,
                message@,
                i as int,
            ),
        decreases pats@.len() - i,
    {
        let (key, arg) = pats[i];
        let pattern = catalogs.text(LocaleId::EnUs, key);
        match extract_single_placeholder_value(pattern.as_str(), message) {
            Some(v) => {
                let a = task_status_arg_exec(catalogs, locale, key, arg, v.as_str());
                return Some(
                    match a {
                        Ok(av) => render_one(catalogs, locale, key, arg, av.as_str()),
                        Err(e) => Err(e),
                    },
                );
            },
            None => {},
        }
        i = i + 1;
    }
    None
}

/// The user's-language form of a driver error, if it is a known one (see
/// [`driver_error_from`]).
pub fn localized_canonical_driver_error_message(
    catalogs: &CatalogBundle,
    locale: LocaleId,
    message: &str,
) -> (r: Option<Result<String, PlaceholderError>>)
    ensures
        opt_res_view(r) == driver_error_from(*catalogs, locale, message@, 0),
    decreases message@.len(),
{
    let mc = chars_of(message);
    let keys = driver_error_keys_exec();
    let ghost ks = strs(keys@);
    let mut i: usize = 0;
    while i < keys.len()
        invariant
            ks == strs(keys@),
            ks == driver_error_keys(),
            mc@ == message@,
            i <= keys@.len(),
            driver_error_from(*catalogs, locale, message@, 0) == driver_error_from(
                *catalogs,
                locale,
                message@,
                i as int,
            ),
        decreases keys@.len() - i,
    {
        let key = keys[i];
        let canonical = catalogs.text(LocaleId::EnUs, key);
        let cc = chars_of(canonical.as_str());
        if chars_eq(cc.as_slice(), mc.as_slice()) {
            return Some(Ok(catalogs.text(locale, key)));
        }
        assert(key@ == ks[i as int]);
        match extract_template_args(canonical.as_str(), message) {
            None => {},
            Some(args) => {
                let ghost av = pairs_view(args@);
                let kc = chars_of(key);
                let is_bootstrap = str_is(kc.as_slice(), "agent_sdk.driver.error_classification.bootstrap_failed");
                let mut localized: Vec<(String, String)> = Vec::new();
                let mut j: usize = 0;
                assert(av.take(0) =~= Seq::<(Seq<char>, Seq<char>)>::empty());
                assert(pairs_view(localized@) =~= Seq::<(Seq<char>, Seq<char>)>::empty());
                while j < args.len()
                    invariant
                        av == pairs_view(args@),
                        mc@ == message@,
                        i < driver_error_keys().len(),
                        key@ == driver_error_keys()[i as int],
                        en(*catalogs, key@) != message@,
                        extract_template_args_spec(en(*catalogs, key@), message@) == Some(av),
                        driver_error_from(*catalogs, locale, message@, 0) == driver_error_from(
                            *catalogs,
                            locale,
                            message@,
                            i as int,
                        ),
                        is_bootstrap == (key@ == "agent_sdk.driver.error_classification.bootstrap_failed"@),
                        j <= args@.len(),
                        localized_driver_args(*catalogs, locale, key@, av.take(j as int), message@.len())
                            == Some(pairs_view(localized@)),
                    decreases args@.len() - j,
                {
                    assert(av.take(j + 1).drop_last() =~= av.take(j as int));
                    assert(av.take(j + 1).last() == (args@[j as int].0@, args@[j as int].1@));
                    let name = &args[j].0;
                    let value = &args[j].1;
                    let nc = chars_of(name.as_str());
                    let vc = chars_of(value.as_str());
                    let ghost before = localized@;
                    if is_bootstrap && str_is(nc.as_slice(), "error") && vc.len() < mc.len() {
                        match localized_canonical_driver_error_message(catalogs, locale, value.as_str()) {
                            Some(Ok(t)) => {
                                localized.push((name.clone(), t));
                            },
                            Some(Err(e)) => {
                                proof {
                                    lemma_localized_args_prefix_none(
                                        *catalogs,
                                        locale,
                                        key@,
                                        av,
                                        message@.len(),
                                        j + 1,
                                    );
                                }
                                return Some(Err(e));
                            },
                            None => {
                                localized.push((name.clone(), value.clone()));
                            },
                        }
                    } else {
                        localized.push((name.clone(), value.clone()));
                    }
                    assert(pairs_view(localized@) =~= pairs_view(before).push(
                        pairs_view(localized@).last(),
                    ));
                    j = j + 1;
                }
                assert(av.take(args@.len() as int) =~= av);
                return Some(catalogs.render(locale, &LocalizedMessage { key: key.to_owned(), args: localized }));
            },
        }
        i = i + 1;
    }
    None
}

proof fn lemma_localized_args_prefix_none(
    b: CatalogBundle,
    locale: LocaleId,
    key: Seq<char>,
    args: Seq<(Seq<char>, Seq<char>)>,
    mlen: nat,
    k: int,
)
    requires
        0 <= k <= args.len(),
        localized_driver_args(b, locale, key, args.take(k), mlen) is None,
    ensures
        localized_driver_args(b, locale, key, args, mlen) is None,
    decreases args.len() - k,
{
    if k < args.len() {
        assert(args.take(k + 1).drop_last() =~= args.take(k));
        lemma_localized_args_prefix_none(b, locale, key, args, mlen, k + 1);
    } else {
        assert(args.take(k) =~= args);
    }
}

/// A task status message in the user's language (see
/// [`task_status_message_spec`]); `Err` where the user's catalog template
/// names a placeholder that the message does not supply.
pub fn localized_task_status_message_for_locale(
    catalogs: &CatalogBundle,
    locale: LocaleId,
    message: &str,
) -> (r: Result<String, PlaceholderError>)
    ensures
        res_view(r) == task_status_message_spec(*catalogs, locale, message@),
{
    let mc = chars_of(message);
    let err = catalogs.text(LocaleId::EnUs, "agent.task_status.error");
    let ec = chars_of(err.as_str());
    if chars_eq(mc.as_slice(), ec.as_slice()) {
        return Ok(catalogs.text(locale, "agent.task_status.error"));
    }
    let cancelled = catalogs.text(LocaleId::EnUs, "agent.task_status.cancelled");
    let cc = chars_of(cancelled.as_str());
    if chars_eq(mc.as_slice(), cc.as_slice()) {
        return Ok(catalogs.text(locale, "agent.task_status.cancelled"));
    }
    match canonical_task_status_exec(catalogs, locale, message) {
        Some(r) => r,
        None => match localized_canonical_driver_error_message(catalogs, locale, message) {
            Some(r) => r,
            None => Ok(message.to_owned()),
        },
    }
}

} // verus!
