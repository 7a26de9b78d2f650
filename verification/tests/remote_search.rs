use warp_app::localization::{Catalog, CatalogBundle, LocaleId};
use warp_app::remote_search::{
    codebase_unavailable_message, protocol_message, protocol_message_with_args,
    search_failed_message, send_request, SearchCodebaseFailureReason,
};

fn catalogs() -> CatalogBundle {
    let en = vec![
        (
            "agent.search_codebase.error.remote_read_failed".to_string(),
            "Failed to read remote search result files: {failed}".to_string(),
        ),
        (
            "agent.search_codebase.error.missing_files".to_string(),
            "These files do not exist: {files}".to_string(),
        ),
        (
            "agent.search_codebase.error.remote_not_enabled".to_string(),
            "Remote codebase search is not enabled.".to_string(),
        ),
        (
            "agent.search_codebase.error.remote_unavailable".to_string(),
            "Remote codebase search is unavailable.".to_string(),
        ),
        (
            "agent.search_codebase.error.search_failed".to_string(),
            "Codebase search failed.".to_string(),
        ),
        (
            "agent.search_codebase.error.codebase_unavailable".to_string(),
            "The codebase is not available for search.".to_string(),
        ),
    ];
    let zh = vec![
        (
            "agent.search_codebase.error.remote_read_failed".to_string(),
            "读取远程搜索结果文件失败：{failed}".to_string(),
        ),
        (
            "agent.search_codebase.error.remote_not_enabled".to_string(),
            "未启用远程代码库搜索。".to_string(),
        ),
        (
            "agent.search_codebase.error.search_failed".to_string(),
            "代码库搜索失败。".to_string(),
        ),
        (
            "agent.search_codebase.error.codebase_unavailable".to_string(),
            "代码库无法搜索。".to_string(),
        ),
    ];
    CatalogBundle {
        default_locale: LocaleId::EnUs,
        catalogs: vec![
            Catalog { locale: LocaleId::EnUs, entries: en },
            Catalog { locale: LocaleId::ZhCn, entries: zh },
        ],
    }
}

fn args(pairs: &[(&str, &str)]) -> Vec<(String, String)> {
    pairs.iter().map(|(k, v)| (k.to_string(), v.to_string())).collect()
}

#[test]
fn remote_search_protocol_errors_keep_en_us_templates_with_arguments() {
    let message = protocol_message_with_args(
        &catalogs(),
        "agent.search_codebase.error.remote_read_failed",
        &args(&[("failed", "/repo/src/main.rs: denied")]),
    )
    .unwrap();

    assert_eq!(
        message,
        "Failed to read remote search result files: /repo/src/main.rs: denied"
    );
}

#[test]
fn search_codebase_protocol_errors_keep_arguments() {
    let message = protocol_message_with_args(
        &catalogs(),
        "agent.search_codebase.error.missing_files",
        &args(&[("files", "src/main.rs, src/lib.rs")]),
    )
    .unwrap();

    assert_eq!(message, "These files do not exist: src/main.rs, src/lib.rs");
}

#[test]
fn remote_search_protocol_errors_use_en_us_text() {
    let c = catalogs();
    let message = protocol_message(&c, "agent.search_codebase.error.remote_not_enabled");
    assert_eq!(message, c.text(LocaleId::EnUs, "agent.search_codebase.error.remote_not_enabled"));
    assert_ne!(message, c.text(LocaleId::ZhCn, "agent.search_codebase.error.remote_not_enabled"));
}

#[test]
fn protocol_message_without_its_argument_is_an_error() {
    assert!(protocol_message_with_args(
        &catalogs(),
        "agent.search_codebase.error.missing_files",
        &args(&[("other", "x")]),
    )
    .is_err());
}

#[test]
fn search_without_remote_support_reports_an_unindexed_codebase() {
    let failure = send_request(&catalogs());
    assert_eq!(failure.reason, SearchCodebaseFailureReason::CodebaseNotIndexed);
    assert_eq!(failure.message, "Remote codebase search is unavailable.");
}

#[test]
fn search_codebase_protocol_errors_use_en_us_text() {
    let c = catalogs();
    assert_eq!(
        search_failed_message(&c),
        c.text(LocaleId::EnUs, "agent.search_codebase.error.search_failed")
    );
    assert_ne!(
        search_failed_message(&c),
        c.text(LocaleId::ZhCn, "agent.search_codebase.error.search_failed")
    );
    assert_eq!(
        codebase_unavailable_message(&c),
        c.text(LocaleId::EnUs, "agent.search_codebase.error.codebase_unavailable")
    );
    assert_ne!(
        codebase_unavailable_message(&c),
        c.text(LocaleId::ZhCn, "agent.search_codebase.error.codebase_unavailable")
    );
}
