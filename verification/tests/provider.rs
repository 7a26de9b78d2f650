use warp_app::localization::{Catalog, CatalogBundle, LocaleId};
use warp_app::provider::{
    authenticate_message, provider_info, provider_info_header_for_locale, provider_setup_url,
    ProviderInfo, ProviderSetupError, ProviderType, PROVIDER_STATUS_NOT_CONNECTED,
};

fn catalogs() -> CatalogBundle {
    let en = [
        ("agent_sdk.secret.scope.personal", "Personal"),
        ("agent_sdk.secret.scope.team", "Team"),
        ("agent_sdk.provider.status.not_connected", "Not connected"),
        ("agent_sdk.provider.table.name", "Name"),
        ("agent_sdk.provider.table.slug", "Slug"),
        ("agent_sdk.provider.table.allowed_for", "Allowed for"),
        ("agent_sdk.provider.table.status", "Status"),
        ("agent_sdk.provider.error.scope_required", "Choose --team or --personal for {provider}."),
        ("agent_sdk.common.error.user_not_on_team", "You are not on a team."),
        ("agent_sdk.provider.output.authenticate_url", "Open {url} to connect {provider}."),
    ];
    let zh = [
        ("agent_sdk.secret.scope.personal", "个人"),
        ("agent_sdk.secret.scope.team", "团队"),
        ("agent_sdk.provider.status.not_connected", "未连接"),
        ("agent_sdk.provider.table.name", "名称"),
    ];
    let to_vec = |v: &[(&str, &str)]| v.iter().map(|(k, t)| (k.to_string(), t.to_string())).collect();
    CatalogBundle {
        default_locale: LocaleId::EnUs,
        catalogs: vec![
            Catalog { locale: LocaleId::EnUs, entries: to_vec(&en) },
            Catalog { locale: LocaleId::ZhCn, entries: to_vec(&zh) },
        ],
    }
}

fn linear() -> ProviderType {
    ProviderType {
        name: "Linear".to_string(),
        slug: "linear".to_string(),
        allowed_in_personal_context: true,
        allowed_in_team_context: true,
    }
}

fn team_only() -> ProviderType {
    ProviderType {
        name: "Slack".to_string(),
        slug: "slack".to_string(),
        allowed_in_personal_context: false,
        allowed_in_team_context: true,
    }
}

#[test]
fn provider_list_localizes_text_without_localizing_json_values() {
    let provider = || ProviderInfo {
        name: "Linear".to_owned(),
        slug: "linear".to_owned(),
        allowed_for: "personal, team".to_owned(),
        status: PROVIDER_STATUS_NOT_CONNECTED.to_owned(),
    };

    let text_output = provider().row_for_locale(&catalogs(), LocaleId::ZhCn).join(" | ");
    assert!(text_output.contains("个人, 团队"));
    assert!(text_output.contains("未连接"));

    // Machine output keeps the canonical values.
    let row = provider().row();
    assert_eq!(row[2], "personal, team");
    assert_eq!(row[3], PROVIDER_STATUS_NOT_CONNECTED);
}

#[test]
fn provider_infos_list_allowed_contexts() {
    let info = provider_info(&linear());
    assert_eq!(info.name, "Linear");
    assert_eq!(info.slug, "linear");
    assert_eq!(info.allowed_for, "personal, team");
    assert_eq!(info.status, "Not Connected");
    assert_eq!(provider_info(&team_only()).allowed_for, "team");
}

#[test]
fn unknown_scopes_and_statuses_stay_as_they_are() {
    let info = ProviderInfo {
        name: "X".to_owned(),
        slug: "x".to_owned(),
        allowed_for: "team, org".to_owned(),
        status: "Connected".to_owned(),
    };
    assert_eq!(
        info.row_for_locale(&catalogs(), LocaleId::ZhCn),
        vec!["X", "x", "团队, org", "Connected"]
    );
    assert_eq!(
        provider_info_header_for_locale(&catalogs(), LocaleId::ZhCn),
        vec!["名称", "Slug", "Allowed for", "Status"]
    );
}

#[test]
fn setup_urls_for_team_and_personal_links() {
    let server = "https://app.warp.dev";
    assert_eq!(
        provider_setup_url(&linear(), false, false, server, Some("team-1")),
        Err(ProviderSetupError::ScopeRequired)
    );
    assert_eq!(
        provider_setup_url(&linear(), true, false, server, Some("team-1")),
        Ok("https://app.warp.dev/oauth/connect/linear?principalType=team&principalId=team-1".to_string())
    );
    assert_eq!(
        provider_setup_url(&linear(), true, true, server, Some("team-1")),
        Ok("https://app.warp.dev/oauth/connect/linear".to_string())
    );
    assert_eq!(
        provider_setup_url(&team_only(), false, false, server, None),
        Err(ProviderSetupError::UserNotOnTeam)
    );
    assert_eq!(
        provider_setup_url(&team_only(), false, false, server, Some("t")),
        Ok("https://app.warp.dev/oauth/connect/slack?principalType=team&principalId=t".to_string())
    );
}

#[test]
fn setup_messages() {
    let c = catalogs();
    assert_eq!(
        ProviderSetupError::ScopeRequired.message(&linear(), &c, LocaleId::EnUs),
        Ok("Choose --team or --personal for linear.".to_string())
    );
    assert_eq!(
        ProviderSetupError::UserNotOnTeam.message(&linear(), &c, LocaleId::ZhCn),
        Ok("You are not on a team.".to_string())
    );
    assert_eq!(
        authenticate_message(&linear(), "https://x", &c, LocaleId::EnUs),
        Ok("Open https://x to connect linear.".to_string())
    );
}
