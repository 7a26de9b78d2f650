use warp_app::localization::{Catalog, CatalogBundle, LocaleId};
use warp_app::runner::{
    build_create_input, build_update_input, confirm_delete, localized_runner_arch,
    localized_runner_os, localized_scope, merge_instance_shape, resolve_arch, resolve_runner,
    resolve_updated_name, runner_info_header_for_locale, validate_os_config_for_locale,
    CreateRunnerArgs, InstanceShape, LinuxConfig, MacOsConfig, Owner, Runner, RunnerArch,
    RunnerArchArg, RunnerConfig, RunnerConfigError, RunnerInfo, RunnerLookupError,
    RunnerMacOsVersion, RunnerMacosVersionArg, RunnerOs, RunnerOsArg, SpaceType, UpdateRunnerArgs,
};
use warp_app::runner::{
    deleted_message, sort_by_to_gql, space_display, upsert_result_message, RunnerSortBy,
    RunnerSortByArg,
};

fn config(name: &str) -> RunnerConfig {
    RunnerConfig {
        name: name.to_string(),
        description: Some("old".to_string()),
        setup_commands: Some(vec!["make".to_string()]),
        instance_shape: Some(InstanceShape { vcpus: 4, memory_gb: 16 }),
        os: RunnerOs::Linux,
        arch: RunnerArch::X8664,
        mac: None,
        linux: Some(LinuxConfig { docker_image: "ubuntu:24.04".to_string() }),
    }
}

fn runner(uid: &str, name: &str) -> Runner {
    Runner {
        uid: uid.to_string(),
        config: config(name),
        scope: SpaceType::Team,
        last_updated: "2024-01-01T00:00:00Z".to_string(),
    }
}

fn no_changes() -> UpdateRunnerArgs {
    UpdateRunnerArgs {
        id: None,
        name: None,
        description: None,
        os: None,
        arch: None,
        docker_image: None,
        macos_version: None,
        vcpus: None,
        memory_gb: None,
        setup_command: vec![],
    }
}

#[test]
fn shapes_merge_dimension_by_dimension() {
    assert_eq!(merge_instance_shape(None, None, Some((2, 8))), Ok(Some((2, 8))));
    assert_eq!(merge_instance_shape(None, None, None), Ok(None));
    assert_eq!(merge_instance_shape(Some(8), None, Some((2, 8))), Ok(Some((8, 8))));
    assert_eq!(merge_instance_shape(None, Some(32), Some((2, 8))), Ok(Some((2, 32))));
    assert_eq!(merge_instance_shape(Some(8), None, None), Err(RunnerConfigError::MemoryRequired));
    assert_eq!(merge_instance_shape(None, Some(8), None), Err(RunnerConfigError::VcpusRequired));
}

#[test]
fn a_name_renames_only_alongside_a_uid() {
    assert_eq!(resolve_updated_name(true, Some("new"), "old"), "new");
    assert_eq!(resolve_updated_name(false, Some("new"), "old"), "old");
    assert_eq!(resolve_updated_name(true, None, "old"), "old");
}

#[test]
fn os_settings_must_match_the_os() {
    assert_eq!(validate_os_config_for_locale(RunnerOsArg::Linux, &Some("img".to_string()), None), Ok(()));
    assert_eq!(
        validate_os_config_for_locale(RunnerOsArg::Linux, &None, Some(RunnerMacosVersionArg::Macos15)),
        Err(RunnerConfigError::MacosVersionRequiresMacos)
    );
    assert_eq!(
        validate_os_config_for_locale(RunnerOsArg::Macos, &Some("img".to_string()), None),
        Err(RunnerConfigError::DockerImageRequiresLinux)
    );
    assert_eq!(
        RunnerConfigError::DockerImageRequiresLinux.key(),
        "agent_sdk.runner.error.docker_image_requires_linux"
    );
}

#[test]
fn auto_architecture_follows_the_os() {
    assert_eq!(resolve_arch(RunnerArchArg::Auto, RunnerOsArg::Linux), RunnerArch::X8664);
    assert_eq!(resolve_arch(RunnerArchArg::Auto, RunnerOsArg::Macos), RunnerArch::Aarch64);
    assert_eq!(resolve_arch(RunnerArchArg::X8664, RunnerOsArg::Macos), RunnerArch::X8664);
}

#[test]
fn create_keeps_only_the_settings_of_its_os() {
    let args = CreateRunnerArgs {
        name: "r".to_string(),
        description: None,
        os: RunnerOsArg::Macos,
        arch: RunnerArchArg::Auto,
        docker_image: None,
        macos_version: Some(RunnerMacosVersionArg::Macos26),
        vcpus: Some(4),
        memory_gb: None,
        setup_command: vec![],
    };
    let input = build_create_input(args, Owner { space: SpaceType::User, uid: "me".to_string() });
    assert!(input.uid.is_none());
    assert_eq!(input.runner.os, Some(RunnerOs::Macos));
    assert_eq!(input.runner.arch, Some(RunnerArch::Aarch64));
    assert!(input.runner.linux.is_none());
    assert_eq!(input.runner.mac, Some(MacOsConfig { version: Some(RunnerMacOsVersion::Macos26) }));
    assert_eq!(input.runner.instance_shape, None);
    assert!(input.runner.setup_commands.is_none());
}

#[test]
fn update_keeps_what_is_not_changed() {
    let existing = config("old-name");
    let mut args = no_changes();
    args.id = Some("uid-1".to_string());
    args.name = Some("new-name".to_string());
    args.memory_gb = Some(32);
    let input = build_update_input(&args, &existing).unwrap();
    assert_eq!(input.name, "new-name");
    assert_eq!(input.description.as_deref(), Some("old"));
    assert_eq!(input.setup_commands, Some(vec!["make".to_string()]));
    assert_eq!(input.instance_shape, Some(InstanceShape { vcpus: 4, memory_gb: 32 }));
    assert_eq!(input.os, Some(RunnerOs::Linux));
    assert_eq!(input.arch, Some(RunnerArch::X8664));
    assert_eq!(input.linux.map(|l| l.docker_image), Some("ubuntu:24.04".to_string()));
    assert!(input.mac.is_none());
}

#[test]
fn update_to_macos_drops_linux_settings_and_checks_the_effective_os() {
    let existing = config("r");
    let mut args = no_changes();
    args.os = Some(RunnerOsArg::Macos);
    let input = build_update_input(&args, &existing).unwrap();
    assert!(input.linux.is_none());
    assert_eq!(input.mac, Some(MacOsConfig { version: None }));

    let mut bad = no_changes();
    bad.macos_version = Some(RunnerMacosVersionArg::Macos14);
    assert_eq!(
        build_update_input(&bad, &existing).err(),
        Some(RunnerConfigError::MacosVersionRequiresMacos)
    );
}

#[test]
fn runners_resolve_by_uid_or_unambiguous_name() {
    let runners = vec![runner("u1", "alpha"), runner("u2", "beta"), runner("u3", "beta")];
    assert_eq!(resolve_runner(&runners, Some("u2"), Some("alpha")).unwrap(), 1);
    assert_eq!(resolve_runner(&runners, None, Some("alpha")).unwrap(), 0);
    assert!(matches!(
        resolve_runner(&runners, None, Some("beta")),
        Err(RunnerLookupError::MultipleMatches { name }) if name == "beta"
    ));
    assert!(matches!(
        resolve_runner(&runners, Some("u9"), None),
        Err(RunnerLookupError::NotFound { identifier }) if identifier == "u9"
    ));
    assert!(matches!(resolve_runner(&runners, None, None), Err(RunnerLookupError::IdentifierRequired)));
    let message = RunnerLookupError::MultipleMatches { name: "beta".to_string() }.message();
    assert_eq!(message.key, "agent_sdk.runner.error.multiple_matches_specify_uid");
}

#[test]
fn deleting_without_a_terminal_is_refused() {
    let refused = confirm_delete("u1", false).unwrap_err();
    assert_eq!(refused.key, "agent_sdk.runner.error.delete_non_interactive_requires_force");
    assert_eq!(refused.args, vec![("uid".to_string(), "u1".to_string())]);
    assert_eq!(confirm_delete("u1", true).unwrap().key, "agent_sdk.runner.confirm.delete");
}

fn catalogs() -> CatalogBundle {
    let zh = vec![
        ("agent_sdk.runner.table.uid".to_string(), "UID".to_string()),
        ("agent_sdk.runner.table.name".to_string(), "名称".to_string()),
        ("agent_sdk.runner.value.shape".to_string(), "{vcpus} vCPU / {memory_gb} GB".to_string()),
        ("agent_sdk.runner.value.docker_image".to_string(), "镜像：{image}".to_string()),
        ("agent_sdk.runner.value.os.linux".to_string(), "Linux 系统".to_string()),
        ("agent_sdk.runner.value.arch.x86_64".to_string(), "x86-64 架构".to_string()),
        ("agent_sdk.secret.scope.team".to_string(), "团队".to_string()),
    ];
    CatalogBundle {
        default_locale: LocaleId::EnUs,
        catalogs: vec![
            Catalog { locale: LocaleId::EnUs, entries: vec![] },
            Catalog { locale: LocaleId::ZhCn, entries: zh },
        ],
    }
}

#[test]
fn runner_rows_are_localized() {
    let c = catalogs();
    let info = RunnerInfo::from_ref(&runner("u1", "alpha"), "2 days ago".to_string());
    assert_eq!(info.os, "Linux");
    assert_eq!(info.arch, "x86-64");
    assert_eq!(info.scope, "Team");
    let row = info.row_for_locale(&c, LocaleId::ZhCn).unwrap();
    assert_eq!(
        row,
        vec![
            "u1",
            "alpha",
            "old",
            "4 vCPU / 16 GB",
            "Linux 系统",
            "x86-64 架构",
            "镜像：ubuntu:24.04",
            "团队",
            "2 days ago"
        ]
    );
    let header = runner_info_header_for_locale(&c, LocaleId::ZhCn);
    assert_eq!(header.len(), 9);
    assert_eq!(header[1], "名称");
    assert_eq!(header[8], "agent_sdk.runner.table.last_updated");
}

#[test]
fn unknown_values_stay_as_they_are() {
    let c = catalogs();
    assert_eq!(localized_scope(&c, LocaleId::ZhCn, "Org"), "Org");
    assert_eq!(localized_runner_os(&c, LocaleId::ZhCn, "BeOS"), "BeOS");
    assert_eq!(localized_runner_arch(&c, LocaleId::ZhCn, "riscv"), "riscv");
}

#[test]
fn runner_result_lines_and_sorting() {
    let created = upsert_result_message("runner-1", false);
    assert_eq!(created.key, "agent_sdk.runner.output.created");
    assert_eq!(created.args, vec![("uid".to_string(), "runner-1".to_string())]);
    assert_eq!(upsert_result_message("runner-1", true).key, "agent_sdk.runner.output.updated");
    let deleted = deleted_message("runner-2");
    assert_eq!(deleted.key, "agent_sdk.runner.output.deleted");
    assert_eq!(deleted.args, vec![("uid".to_string(), "runner-2".to_string())]);
    assert!(matches!(sort_by_to_gql(RunnerSortByArg::Name), RunnerSortBy::Name));
    assert!(matches!(sort_by_to_gql(RunnerSortByArg::LastUpdated), RunnerSortBy::LastUpdated));
    assert_eq!(space_display(SpaceType::Team), "Team");
    assert_eq!(space_display(SpaceType::User), "Personal");
}
