//! Checks that run before an orchestrated run of child agents may be accepted.

use vstd::prelude::*;

use crate::host_picker::ORCHESTRATION_WARP_WORKER_HOST;
use crate::localization::{text_spec, CatalogBundle, LocaleId};
use crate::template::{lookup_arg, pairs_view};
use crate::text::{ascii_lowercase_spec, chars_of, to_ascii_lowercase, trim_chars, trim_spec, chars_eq};

verus! {

/// Where child agents run.
#[derive(Clone, Debug)]
pub enum RunAgentsExecutionMode {
    Local,
    Remote {
        environment_id: String,
        worker_host: String,
        computer_use_enabled: bool,
        runner_id: String,
    },
}

/// The harness that runs a child agent.
#[derive(Clone, Copy, Debug, PartialEq, Eq, Structural)]
pub enum Harness {
    Oz,
    Claude,
    Codex,
    Gemini,
    OpenCode,
}

/// Which API key a cloud child agent authenticates with.
#[derive(Clone, Debug)]
pub enum AuthSecretSelection {
    Unset,
    CreatingNew,
    Named(String),
    Inherit,
}

/// The state of a harness's local setup.
#[derive(Clone, Debug)]
pub enum LocalHarnessSetupState {
    Ready,
    MissingHarness { tooltip: String },
    ProductDisabled { message: String },
}

/// Whether two texts are equal ignoring ASCII case.
pub open spec fn eq_ignore_ascii_case(a: Seq<char>, b: Seq<char>) -> bool {
    ascii_lowercase_spec(a) == ascii_lowercase_spec(b)
}

/// The advice shown when a cloud run on Warp's own workers has no
/// environment: to select one when the user has any, else to create one.
/// `None` for local runs, runs with an environment, and other worker hosts.
pub open spec fn empty_env_recommendation_spec(
    b: CatalogBundle,
    locale: LocaleId,
    mode: RunAgentsExecutionMode,
    environment_count: nat,
) -> Option<Seq<char>> {
    match mode {
        RunAgentsExecutionMode::Local => None,
        RunAgentsExecutionMode::Remote { environment_id, worker_host, .. } => {
            if trim_spec(environment_id@).len() != 0 {
                None
            } else if !eq_ignore_ascii_case(worker_host@, ORCHESTRATION_WARP_WORKER_HOST@) {
                None
            } else if environment_count > 0 {
                Some(text_spec(b, locale, "agent.orchestration.controls.recommend_select_environment"@))
            } else {
                Some(text_spec(b, locale, "agent.orchestration.controls.recommend_create_environment"@))
            }
        },
    }
}

/// The advice for a run without an environment (see
/// [`empty_env_recommendation_spec`]); `environment_count` is how many cloud
/// environments the user has.
pub fn empty_env_recommendation_message(
    execution_mode: &RunAgentsExecutionMode,
    environment_count: usize,
    catalogs: &CatalogBundle,
    locale: LocaleId,
) -> (r: Option<String>)
    ensures
        match r {
            Some(s) => empty_env_recommendation_spec(
                *catalogs,
                locale,
                *execution_mode,
                environment_count as nat,
            ) == Some(s@),
            None => empty_env_recommendation_spec(
                *catalogs,
                locale,
                *execution_mode,
                environment_count as nat,
            ) is None,
        },
{
    match execution_mode {
        RunAgentsExecutionMode::Local => None,
        RunAgentsExecutionMode::Remote { environment_id, worker_host, .. } => {
            let id = chars_of(environment_id.as_str());
            if trim_chars(id.as_slice()).len() != 0 {
                return None;
            }
            let host = to_ascii_lowercase(worker_host.as_str());
            let warp = to_ascii_lowercase(ORCHESTRATION_WARP_WORKER_HOST);
            let hc = chars_of(host.as_str());
            let wc = chars_of(warp.as_str());
            if !chars_eq(hc.as_slice(), wc.as_slice()) {
                return None;
            }
            if environment_count > 0 {
                Some(catalogs.text(locale, "agent.orchestration.controls.recommend_select_environment"))
            } else {
                Some(catalogs.text(locale, "agent.orchestration.controls.recommend_create_environment"))
            }
        },
    }
}

/// Whether a harness may be chosen for the whole run: never Gemini (not yet
/// supported for runs of several agents); for a local run, only a harness
/// the product enables and whose local setup allows it.
pub open spec fn harness_is_selectable_spec(
    harness: Harness,
    is_local: bool,
    product_enabled: bool,
    setup_selectable: bool,
) -> bool {
    harness != Harness::Gemini && (!is_local || (product_enabled && setup_selectable))
}

/// Whether a harness may be chosen (see [`harness_is_selectable_spec`]);
/// `product_enabled` and `setup_selectable` say whether the product enables
/// the harness locally and whether its local setup allows choosing it.
pub fn harness_is_selectable(harness: Harness, is_local: bool, product_enabled: bool, setup_selectable: bool) -> (r:
    bool)
    ensures
        r == harness_is_selectable_spec(harness, is_local, product_enabled, setup_selectable),
{
    if harness == Harness::Gemini {
        return false;
    }
    if is_local && !product_enabled {
        return false;
    }
    !is_local || setup_selectable
}

/// Whether to show the API key picker: a cloud run of a harness other than
/// Oz that supports at least one kind of managed secret.
pub open spec fn should_show_auth_secret_picker_spec(
    is_remote: bool,
    harness: Option<Harness>,
    auth_secret_type_count: nat,
) -> bool {
    is_remote && match harness {
        Some(h) => h != Harness::Oz && auth_secret_type_count > 0,
        None => false,
    }
}

/// Whether to show the API key picker (see [`should_show_auth_secret_picker_spec`]).
pub fn should_show_auth_secret_picker(
    is_remote: bool,
    harness: Option<Harness>,
    auth_secret_type_count: usize,
) -> (r: bool)
    ensures
        r == should_show_auth_secret_picker_spec(is_remote, harness, auth_secret_type_count as nat),
{
    if !is_remote {
        return false;
    }
    match harness {
        None => false,
        Some(h) => {
            if h == Harness::Oz {
                return false;
            }
            auth_secret_type_count > 0
        },
    }
}

/// Whether the user must still choose an API key (or to inherit one) before
/// accepting: the picker is shown and nothing is chosen yet, or a new key is
/// being created.
pub open spec fn auth_secret_selection_required_spec(
    is_remote: bool,
    harness: Option<Harness>,
    auth_secret_type_count: nat,
    selection: AuthSecretSelection,
) -> bool {
    should_show_auth_secret_picker_spec(is_remote, harness, auth_secret_type_count) && (
    selection is Unset || selection is CreatingNew)
}

/// Whether an API key must still be chosen (see [`auth_secret_selection_required_spec`]).
pub fn auth_secret_selection_required(
    is_remote: bool,
    harness: Option<Harness>,
    auth_secret_type_count: usize,
    selection: &AuthSecretSelection,
) -> (r: bool)
    ensures
        r == auth_secret_selection_required_spec(
            is_remote,
            harness,
            auth_secret_type_count as nat,
            *selection,
        ),
{
    if !should_show_auth_secret_picker(is_remote, harness, auth_secret_type_count) {
        return false;
    }
    match selection {
        AuthSecretSelection::Unset | AuthSecretSelection::CreatingNew => true,
        _ => false,
    }
}

/// A reason in the user's language: the catalog text of its key where it has
/// one, else the reason as it is.
pub open spec fn localized_reason_spec(b: CatalogBundle, locale: LocaleId, reason: Seq<char>, key: Option<Seq<char>>) -> Seq<
    char,
> {
    match key {
        Some(k) => text_spec(b, locale, k),
        None => reason,
    }
}

/// The catalog key of a reason why a run cannot be accepted, for the two
/// reasons worded here; `setup_message_key` is the key that the local
/// harness setup has for any other.
pub open spec fn disabled_reason_key(reason: Seq<char>, setup_message_key: Option<Seq<char>>) -> Option<Seq<char>> {
    if reason == "Disabled by your administrator"@ {
        Some("terminal.ambient_agent.harness_selector.tooltip.disabled_by_admin"@)
    } else if reason == "OpenCode is not supported on Cloud yet. Switch to Local or pick a different harness."@ {
        Some("agent.orchestration.controls.opencode_cloud_unsupported"@)
    } else {
        setup_message_key
    }
}

fn str_is(s: &str, lit: &str) -> (b: bool)
    ensures
        b == (s@ == lit@),
{
    let a = chars_of(s);
    let l = chars_of(lit);
    chars_eq(a.as_slice(), l.as_slice())
}

/// A reason why a run cannot be accepted, in the user's language (see
/// [`disabled_reason_key`] and [`localized_reason_spec`]).
pub fn localized_orchestration_disabled_reason(
    reason: &str,
    setup_message_key: Option<&str>,
    catalogs: &CatalogBundle,
    locale: LocaleId,
) -> (r: String)
    ensures
        r@ == localized_reason_spec(
            *catalogs,
            locale,
            reason@,
            disabled_reason_key(
                reason@,
                match setup_message_key {
                    Some(k) => Some(k@),
                    None => None,
                },
            ),
        ),
{
    if str_is(reason, "Disabled by your administrator") {
        catalogs.text(locale, "terminal.ambient_agent.harness_selector.tooltip.disabled_by_admin")
    } else if str_is(reason, "OpenCode is not supported on Cloud yet. Switch to Local or pick a different harness.") {
        catalogs.text(locale, "agent.orchestration.controls.opencode_cloud_unsupported")
    } else {
        match setup_message_key {
            Some(k) => catalogs.text(locale, k),
            None => reason.to_owned(),
        }
    }
}


/// A reason in the user's language, its setup key looked up among
/// `setup_message_keys` (reason text to catalog key).
pub open spec fn localized_disabled_reason(
    b: CatalogBundle,
    locale: LocaleId,
    reason: Seq<char>,
    setup_message_keys: Seq<(Seq<char>, Seq<char>)>,
) -> Seq<char> {
    localized_reason_spec(b, locale, reason, disabled_reason_key(reason, lookup_arg(setup_message_keys, reason)))
}

/// Why a run cannot be accepted, in the user's language, if it cannot: the
/// configuration's own reason first; then, for a local run, a harness whose
/// CLI is missing or that the product disables; then an API key still to be
/// chosen.
pub open spec fn accept_disabled_reason_spec(
    b: CatalogBundle,
    locale: LocaleId,
    state_reason: Option<Seq<char>>,
    local_setup: Option<LocalHarnessSetupState>,
    is_remote: bool,
    harness: Option<Harness>,
    auth_secret_type_count: nat,
    selection: AuthSecretSelection,
    setup_message_keys: Seq<(Seq<char>, Seq<char>)>,
) -> Option<Seq<char>> {
    match state_reason {
        Some(reason) => Some(localized_disabled_reason(b, locale, reason, setup_message_keys)),
        None => match local_setup {
            Some(LocalHarnessSetupState::MissingHarness { tooltip }) => Some(
                localized_disabled_reason(b, locale, tooltip@, setup_message_keys),
            ),
            Some(LocalHarnessSetupState::ProductDisabled { message }) => Some(
                localized_disabled_reason(b, locale, message@, setup_message_keys),
            ),
            _ => if auth_secret_selection_required_spec(
                is_remote,
                harness,
                auth_secret_type_count,
                selection,
            ) {
                Some(text_spec(b, locale, "agent.orchestration.controls.select_api_key_required"@))
            } else {
                None
            },
        },
    }
}

fn localized_with_keys(
    reason: &str,
    setup_message_keys: &Vec<(String, String)>,
    catalogs: &CatalogBundle,
    locale: LocaleId,
) -> (r: String)
    ensures
        r@ == localized_disabled_reason(*catalogs, locale, reason@, pairs_view(setup_message_keys@)),
{
    let rc = chars_of(reason);
    let mut i: usize = 0;
    assert(pairs_view(setup_message_keys@).skip(0) =~= pairs_view(setup_message_keys@));
    while i < setup_message_keys.len()
        invariant
            rc@ == reason@,
            i <= setup_message_keys@.len(),
            lookup_arg(pairs_view(setup_message_keys@), reason@) == lookup_arg(
                pairs_view(setup_message_keys@).skip(i as int),
                reason@,
            ),
        decreases setup_message_keys@.len() - i,
    {
        let ghost rest = pairs_view(setup_message_keys@).skip(i as int);
        assert(rest[0] == (setup_message_keys@[i as int].0@, setup_message_keys@[i as int].1@));
        let k = chars_of(setup_message_keys[i].0.as_str());
        if chars_eq(k.as_slice(), rc.as_slice()) {
            return localized_orchestration_disabled_reason(
                reason,
                Some(setup_message_keys[i].1.as_str()),
                catalogs,
                locale,
            );
        }
        assert(rest.drop_first() =~= pairs_view(setup_message_keys@).skip(i + 1));
        i = i + 1;
    }
    localized_orchestration_disabled_reason(reason, None, catalogs, locale)
}

/// Why a run cannot be accepted, if it cannot (see [`accept_disabled_reason_spec`]).
/// `state_reason` is the configuration's own reason; `local_setup` the state
/// of the child harness's local setup, for a local run with one.
pub fn accept_disabled_reason_with_auth(
    state_reason: Option<&str>,
    local_setup: Option<&LocalHarnessSetupState>,
    is_remote: bool,
    harness: Option<Harness>,
    auth_secret_type_count: usize,
    selection: &AuthSecretSelection,
    setup_message_keys: &Vec<(String, String)>,
    catalogs: &CatalogBundle,
    locale: LocaleId,
) -> (r: Option<String>)
    ensures
        match r {
            Some(s) => accept_disabled_reason_spec(
                *catalogs,
                locale,
                match state_reason {
                    Some(x) => Some(x@),
                    None => None,
                },
                match local_setup {
                    Some(x) => Some(*x),
                    None => None,
                },
                is_remote,
                harness,
                auth_secret_type_count as nat,
                *selection,
                pairs_view(setup_message_keys@),
            ) == Some(s@),
            None => accept_disabled_reason_spec(
                *catalogs,
                locale,
                match state_reason {
                    Some(x) => Some(x@),
                    None => None,
                },
                match local_setup {
                    Some(x) => Some(*x),
                    None => None,
                },
                is_remote,
                harness,
                auth_secret_type_count as nat,
                *selection,
                pairs_view(setup_message_keys@),
            ) is None,
        },
{
    match state_reason {
        Some(reason) => {
            return Some(localized_with_keys(reason, setup_message_keys, catalogs, locale));
        },
        None => {},
    }
    match local_setup {
        Some(LocalHarnessSetupState::MissingHarness { tooltip }) => {
            return Some(localized_with_keys(tooltip.as_str(), setup_message_keys, catalogs, locale));
        },
        Some(LocalHarnessSetupState::ProductDisabled { message }) => {
            return Some(localized_with_keys(message.as_str(), setup_message_keys, catalogs, locale));
        },
        _ => {},
    }
    if auth_secret_selection_required(is_remote, harness, auth_secret_type_count, selection) {
        return Some(catalogs.text(locale, "agent.orchestration.controls.select_api_key_required"));
    }
    None
}

} // verus!
