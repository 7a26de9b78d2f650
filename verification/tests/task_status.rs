use warp_app::localization::{Catalog, CatalogBundle, LocaleId};
use warp_app::task_status::{
    localized_canonical_agent_action_name, localized_canonical_driver_error_message,
    localized_task_status_message_for_locale,
};

fn pairs(items: &[(&str, &str)]) -> Vec<(String, String)> {
    items.iter().map(|(k, v)| (k.to_string(), v.to_string())).collect()
}

fn catalogs() -> CatalogBundle {
    let en = pairs(&[
        ("agent.task_status.error", "Agent encountered an error"),
        ("agent.task_status.cancelled", "Cancelled by user"),
        (
            "agent.task_status.blocked",
            "The agent got stuck waiting for user confirmation on the action: {action}",
        ),
        (
            "agent.task_status.quota_limit",
            "Your team has run out of credits. Purchase more credits to continue.",
        ),
        (
            "agent.task_status.server_overloaded",
            "Warp is temporarily overloaded. Please try again shortly.",
        ),
        (
            "agent.task_status.internal_error",
            "An internal error occurred during the conversation. Please try again.",
        ),
        ("agent.task_status.context_window_exceeded", "Context window exceeded: {message}"),
        (
            "agent.task_status.invalid_api_key",
            "Invalid API key for {provider}. Update your API key in settings.",
        ),
        (
            "agent.task_status.aws_bedrock_credentials_expired_or_invalid",
            "AWS Bedrock credentials expired or invalid for {model_name}.",
        ),
        ("agent.action.name.read_files", "Read files"),
        ("agent.action.name.run_command", "Run command: {command}"),
        ("agent.action.name.read_mcp_resource", "Read MCP resource"),
        (
            "agent.action.name.write_to_long_running_shell_command",
            "Write to long-running shell command",
        ),
        ("agent.action.name.waiting_for_your_answer", "Waiting for your answer"),
        (
            "agent_sdk.driver.error_classification.bootstrap_failed",
            "Bootstrap failed: {error}",
        ),
        ("agent_sdk.driver.error_classification.internal_error", "Internal error"),
    ]);
    let zh = pairs(&[
        ("agent.task_status.error", "Agent 遇到错误"),
        ("agent.task_status.cancelled", "用户已取消"),
        ("agent.task_status.blocked", "Agent 卡在等待用户确认操作：{action}"),
        ("agent.task_status.quota_limit", "你的团队额度已用完。请购买更多额度后继续。"),
        ("agent.task_status.server_overloaded", "Warp 暂时过载。请稍后重试。"),
        ("agent.task_status.internal_error", "对话期间发生内部错误。请重试。"),
        ("agent.task_status.context_window_exceeded", "上下文窗口超出限制：{message}"),
        ("agent.task_status.invalid_api_key", "{provider} 的 API key 无效。请在设置中更新 API key。"),
        (
            "agent.task_status.aws_bedrock_credentials_expired_or_invalid",
            "{model_name} 的 AWS Bedrock 凭证已过期或无效。",
        ),
        ("agent.action.name.read_files", "读取文件"),
        ("agent.action.name.run_command", "运行命令：{command}"),
        ("agent.action.name.read_mcp_resource", "读取 MCP 资源"),
        ("agent.action.name.write_to_long_running_shell_command", "写入长时间运行的 shell 命令"),
        ("agent.action.name.waiting_for_your_answer", "等待你的回答"),
        ("agent_sdk.driver.error_classification.bootstrap_failed", "启动失败：{error}"),
        ("agent_sdk.driver.error_classification.internal_error", "内部错误"),
    ]);
    CatalogBundle {
        default_locale: LocaleId::EnUs,
        catalogs: vec![
            Catalog { locale: LocaleId::EnUs, entries: en },
            Catalog { locale: LocaleId::ZhCn, entries: zh },
        ],
    }
}

#[test]
fn localized_task_status_message_localizes_canonical_specific_errors() {
    let catalogs = catalogs();
    let cases = [
        ("Agent encountered an error", "Agent 遇到错误"),
        ("Cancelled by user", "用户已取消"),
        (
            "The agent got stuck waiting for user confirmation on the action: delete file",
            "Agent 卡在等待用户确认操作：delete file",
        ),
        (
            "The agent got stuck waiting for user confirmation on the action: Read files",
            "Agent 卡在等待用户确认操作：读取文件",
        ),
        (
            "The agent got stuck waiting for user confirmation on the action: Run command: pwd",
            "Agent 卡在等待用户确认操作：运行命令：pwd",
        ),
        (
            "The agent got stuck waiting for user confirmation on the action: Read mcp resource",
            "Agent 卡在等待用户确认操作：读取 MCP 资源",
        ),
        (
            "The agent got stuck waiting for user confirmation on the action: Write to long running shell command",
            "Agent 卡在等待用户确认操作：写入长时间运行的 shell 命令",
        ),
        (
            "The agent got stuck waiting for user confirmation on the action: Waiting for your answer",
            "Agent 卡在等待用户确认操作：等待你的回答",
        ),
        (
            "Your team has run out of credits. Purchase more credits to continue.",
            "你的团队额度已用完。请购买更多额度后继续。",
        ),
        (
            "Warp is temporarily overloaded. Please try again shortly.",
            "Warp 暂时过载。请稍后重试。",
        ),
        (
            "An internal error occurred during the conversation. Please try again.",
            "对话期间发生内部错误。请重试。",
        ),
        ("Context window exceeded: too big", "上下文窗口超出限制：too big"),
        (
            "Invalid API key for OpenAI. Update your API key in settings.",
            "OpenAI 的 API key 无效。请在设置中更新 API key。",
        ),
        (
            "AWS Bedrock credentials expired or invalid for titan-v2.",
            "titan-v2 的 AWS Bedrock 凭证已过期或无效。",
        ),
    ];

    for (canonical_message, localized_message) in cases {
        assert_eq!(
            localized_task_status_message_for_locale(&catalogs, LocaleId::ZhCn, canonical_message)
                .unwrap(),
            localized_message
        );
    }
}

#[test]
fn localized_task_status_message_keeps_unknown_errors() {
    assert_eq!(
        localized_task_status_message_for_locale(&catalogs(), LocaleId::ZhCn, "provider exploded")
            .unwrap(),
        "provider exploded"
    );
}

#[test]
fn bootstrap_failure_translates_the_inner_driver_error() {
    let catalogs = catalogs();
    assert_eq!(
        localized_canonical_driver_error_message(
            &catalogs,
            LocaleId::ZhCn,
            "Bootstrap failed: Internal error"
        )
        .unwrap()
        .unwrap(),
        "启动失败：内部错误"
    );
    assert_eq!(
        localized_canonical_driver_error_message(
            &catalogs,
            LocaleId::ZhCn,
            "Bootstrap failed: disk full"
        )
        .unwrap()
        .unwrap(),
        "启动失败：disk full"
    );
    assert!(localized_canonical_driver_error_message(&catalogs, LocaleId::ZhCn, "nope").is_none());
}

#[test]
fn action_names_translate_by_alias_or_template() {
    let catalogs = catalogs();
    assert_eq!(
        localized_canonical_agent_action_name(&catalogs, LocaleId::ZhCn, "Run command: ls")
            .unwrap()
            .unwrap(),
        "运行命令：ls"
    );
    assert!(localized_canonical_agent_action_name(&catalogs, LocaleId::ZhCn, "Fly").is_none());
}

#[test]
fn english_status_messages_stay_english() {
    assert_eq!(
        localized_task_status_message_for_locale(
            &catalogs(),
            LocaleId::EnUs,
            "Context window exceeded: too big"
        )
        .unwrap(),
        "Context window exceeded: too big"
    );
}
