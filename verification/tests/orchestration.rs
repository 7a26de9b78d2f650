use warp_app::localization::{Catalog, CatalogBundle, LocaleId};
use warp_app::orchestration::{
    accept_disabled_reason_with_auth, auth_secret_selection_required,
    empty_env_recommendation_message, harness_is_selectable, localized_orchestration_disabled_reason,
    should_show_auth_secret_picker, AuthSecretSelection, Harness, LocalHarnessSetupState,
    RunAgentsExecutionMode,
};

const OPENCODE_CLOUD: &str =
    "OpenCode is not supported on Cloud yet. Switch to Local or pick a different harness.";
const CODEX_DISABLED: &str = "Local Codex child agents are temporarily disabled.";

fn pairs(items: &[(&str, &str)]) -> Vec<(String, String)> {
    items.iter().map(|(k, v)| (k.to_string(), v.to_string())).collect()
}

fn catalogs() -> CatalogBundle {
    let en = pairs(&[
        (
            "agent.orchestration.controls.recommend_create_environment",
            "We recommend creating an environment for cloud agents.",
        ),
        (
            "agent.orchestration.controls.recommend_select_environment",
            "We recommend selecting an environment for cloud agents.",
        ),
        (
            "agent.orchestration.controls.select_api_key_required",
            "Select an API key for this harness to continue.",
        ),
        ("agent.orchestration.controls.opencode_cloud_unsupported", OPENCODE_CLOUD),
        (
            "terminal.ambient_agent.harness_selector.tooltip.disabled_by_admin",
            "Disabled by your administrator",
        ),
        ("agent.local_harness.codex_disabled", CODEX_DISABLED),
    ]);
    let zh = pairs(&[
        (
            "agent.orchestration.controls.recommend_create_environment",
            "建议为云端 Agent 创建一个环境。",
        ),
        (
            "agent.orchestration.controls.recommend_select_environment",
            "建议为云端 Agent 选择一个环境。",
        ),
        (
            "agent.orchestration.controls.select_api_key_required",
            "请选择此 harness 的 API key 以继续。",
        ),
        (
            "terminal.ambient_agent.harness_selector.tooltip.disabled_by_admin",
            "已被管理员禁用",
        ),
    ]);
    CatalogBundle {
        default_locale: LocaleId::EnUs,
        catalogs: vec![
            Catalog { locale: LocaleId::EnUs, entries: en },
            Catalog { locale: LocaleId::ZhCn, entries: zh },
        ],
    }
}

fn setup_keys() -> Vec<(String, String)> {
    pairs(&[(CODEX_DISABLED, "agent.local_harness.codex_disabled")])
}

fn cloud() -> RunAgentsExecutionMode {
    RunAgentsExecutionMode::Remote {
        environment_id: "env-1".to_string(),
        worker_host: "warp".to_string(),
        computer_use_enabled: false,
        runner_id: String::new(),
    }
}

fn empty_warp_cloud() -> RunAgentsExecutionMode {
    RunAgentsExecutionMode::Remote {
        environment_id: String::new(),
        worker_host: "warp".to_string(),
        computer_use_enabled: false,
        runner_id: String::new(),
    }
}

/// Whether a run of `harness` in `mode` with `auth` can be accepted: the
/// configuration's own reason (only OpenCode on Cloud has one here), the
/// local setup of the child harness, and the API key kinds of the harness.
fn accept(
    harness: Harness,
    mode: &RunAgentsExecutionMode,
    auth: &AuthSecretSelection,
) -> Option<String> {
    let is_remote = matches!(mode, RunAgentsExecutionMode::Remote { .. });
    let state_reason = if is_remote && harness == Harness::OpenCode {
        Some(OPENCODE_CLOUD)
    } else {
        None
    };
    let local_setup = match harness {
        Harness::Codex => LocalHarnessSetupState::ProductDisabled { message: CODEX_DISABLED.to_string() },
        _ => LocalHarnessSetupState::Ready,
    };
    let secret_kinds = match harness {
        Harness::Oz => 0,
        _ => 1,
    };
    accept_disabled_reason_with_auth(
        state_reason,
        if is_remote { None } else { Some(&local_setup) },
        is_remote,
        Some(harness),
        secret_kinds,
        auth,
        &setup_keys(),
        &catalogs(),
        LocaleId::EnUs,
    )
}

#[test]
fn empty_environment_recommendation_localizes_for_empty_catalog() {
    let catalogs = catalogs();
    let mode = empty_warp_cloud();
    assert_eq!(
        empty_env_recommendation_message(&mode, 0, &catalogs, LocaleId::EnUs),
        Some("We recommend creating an environment for cloud agents.".to_string())
    );
    assert_eq!(
        empty_env_recommendation_message(&mode, 0, &catalogs, LocaleId::ZhCn),
        Some("建议为云端 Agent 创建一个环境。".to_string())
    );
    assert_eq!(LocaleId::ZhCn.code(), "zh-CN");
}

#[test]
fn empty_environment_recommendation_localizes_for_existing_catalog() {
    let catalogs = catalogs();
    let mode = empty_warp_cloud();
    assert_eq!(
        empty_env_recommendation_message(&mode, 1, &catalogs, LocaleId::EnUs),
        Some("We recommend selecting an environment for cloud agents.".to_string())
    );
    assert_eq!(
        empty_env_recommendation_message(&mode, 1, &catalogs, LocaleId::ZhCn),
        Some("建议为云端 Agent 选择一个环境。".to_string())
    );
}

#[test]
fn empty_environment_recommendation_only_for_warp_hosted_runs_without_environment() {
    let catalogs = catalogs();
    assert_eq!(
        empty_env_recommendation_message(&RunAgentsExecutionMode::Local, 0, &catalogs, LocaleId::EnUs),
        None
    );
    assert_eq!(empty_env_recommendation_message(&cloud(), 0, &catalogs, LocaleId::EnUs), None);
    let blank = RunAgentsExecutionMode::Remote {
        environment_id: "   ".to_string(),
        worker_host: "WARP".to_string(),
        computer_use_enabled: true,
        runner_id: String::new(),
    };
    assert!(empty_env_recommendation_message(&blank, 0, &catalogs, LocaleId::EnUs).is_some());
    let other_host = RunAgentsExecutionMode::Remote {
        environment_id: String::new(),
        worker_host: "self-hosted".to_string(),
        computer_use_enabled: false,
        runner_id: String::new(),
    };
    assert_eq!(empty_env_recommendation_message(&other_host, 0, &catalogs, LocaleId::EnUs), None);
}

#[test]
fn accept_allowed_for_oz_local_and_cloud() {
    for mode in [RunAgentsExecutionMode::Local, cloud()] {
        assert_eq!(accept(Harness::Oz, &mode, &AuthSecretSelection::Unset), None);
    }
}

#[test]
fn accept_blocked_for_product_disabled_local_codex() {
    assert_eq!(
        accept(Harness::Codex, &RunAgentsExecutionMode::Local, &AuthSecretSelection::Unset),
        Some("Local Codex child agents are temporarily disabled.".to_string())
    );
}

#[test]
fn accept_blocked_for_opencode_cloud() {
    let reason = accept(Harness::OpenCode, &cloud(), &AuthSecretSelection::Unset)
        .expect("OpenCode + Cloud should block Accept");
    assert!(reason.contains("OpenCode"));
}

#[test]
fn accept_blocked_for_cloud_harness_with_unset_auth_secret() {
    for harness in [Harness::Claude, Harness::Codex] {
        for auth in [AuthSecretSelection::Unset, AuthSecretSelection::CreatingNew] {
            assert_eq!(
                accept(harness, &cloud(), &auth),
                Some("Select an API key for this harness to continue.".to_string()),
                "Cloud + {harness:?} without an API key choice should block Accept"
            );
        }
    }
}

#[test]
fn accept_allowed_for_cloud_harness_with_named_or_inherited_auth() {
    for harness in [Harness::Claude, Harness::Codex] {
        for auth in [
            AuthSecretSelection::Named("my-key".to_string()),
            AuthSecretSelection::Inherit,
        ] {
            assert_eq!(accept(harness, &cloud(), &auth), None);
        }
    }
}

#[test]
fn disabled_reasons_are_localized_through_their_keys() {
    let catalogs = catalogs();
    assert_eq!(
        localized_orchestration_disabled_reason(
            "Disabled by your administrator",
            None,
            &catalogs,
            LocaleId::ZhCn
        ),
        "已被管理员禁用"
    );
    assert_eq!(
        localized_orchestration_disabled_reason("Something else", None, &catalogs, LocaleId::ZhCn),
        "Something else"
    );
    // A key without a Chinese text falls back to the US English text.
    assert_eq!(
        localized_orchestration_disabled_reason(
            CODEX_DISABLED,
            Some("agent.local_harness.codex_disabled"),
            &catalogs,
            LocaleId::ZhCn
        ),
        CODEX_DISABLED
    );
}

#[test]
fn harness_selection_rules() {
    assert!(!harness_is_selectable(Harness::Gemini, false, true, true));
    assert!(harness_is_selectable(Harness::Claude, false, false, false));
    assert!(!harness_is_selectable(Harness::Codex, true, false, true));
    assert!(!harness_is_selectable(Harness::Claude, true, true, false));
    assert!(harness_is_selectable(Harness::Claude, true, true, true));

    assert!(!should_show_auth_secret_picker(false, Some(Harness::Claude), 2));
    assert!(!should_show_auth_secret_picker(true, Some(Harness::Oz), 2));
    assert!(!should_show_auth_secret_picker(true, None, 2));
    assert!(!should_show_auth_secret_picker(true, Some(Harness::Claude), 0));
    assert!(should_show_auth_secret_picker(true, Some(Harness::Claude), 1));

    assert!(auth_secret_selection_required(true, Some(Harness::Codex), 1, &AuthSecretSelection::Unset));
    assert!(!auth_secret_selection_required(true, Some(Harness::Codex), 1, &AuthSecretSelection::Inherit));
    assert!(!auth_secret_selection_required(false, Some(Harness::Codex), 1, &AuthSecretSelection::Unset));
}
