use warp_app::agent::{
    AIAgentActionResultType, AIAgentActionType, AIAgentInput, AIAgentOutput,
    AIAgentOutputMessageType, AIAgentText, AIAgentTextSection, AIAgentTodo, CallMCPToolResult,
    CodeSource, FileGlobResult, McpContent, McpResourceContents, RequestCommandOutputResult,
    TodoOperation,
};
use warp_app::localization::{Catalog, CatalogBundle, LocaleId};
use warp_app::output::format_agent_text;
use warp_app::output::text::{
    conversation_started, format_input, format_input_for_locale, format_output, format_queries,
    format_todos, plan_artifact_created, run_started,
};

fn pairs(items: &[(&str, &str)]) -> Vec<(String, String)> {
    items.iter().map(|(k, v)| (k.to_string(), v.to_string())).collect()
}

fn catalogs() -> CatalogBundle {
    let en = pairs(&[
        (
            "agent_sdk.driver.output.command_completed",
            "Command `{command}` finished with exit code {exit_code}:\n{output}",
        ),
        ("agent_sdk.driver.output.cancelled", "Cancelled"),
        ("agent_sdk.driver.output.running_command", "Running `{command}`"),
        ("agent_sdk.driver.output.updated_todo_list", "Updated todo list:"),
        ("agent_sdk.driver.output.conversation_started", "Conversation started: {conversation_id}"),
        ("agent_sdk.driver.output.run_id", "Run ID: {run_id}"),
        ("agent_sdk.driver.output.open_in_oz", "Open in Oz: {run_url}"),
        ("agent_sdk.driver.output.editing_files", "Editing files"),
        ("agent_sdk.driver.output.grepping_for_in", "Grepping for {queries} in {path}"),
        ("agent_sdk.driver.output.finding_files", "Finding {patterns} in {path}"),
        ("agent_sdk.driver.output.current_directory", "the current directory"),
        ("agent_sdk.driver.output.image_content", "Image ({mime_type})"),
        ("agent_sdk.driver.output.codebase_search_results", "Results for {query}:"),
        ("agent_sdk.driver.output.created_plan", "Created plan {title} ({document_id}): {notebook_link}"),
        ("agent_sdk.driver.output.broken", "Needs {missing}"),
    ]);
    let zh = pairs(&[
        ("agent_sdk.driver.output.cancelled", "已取消"),
        ("agent_sdk.driver.output.running_command", "正在运行 `{command}`"),
    ]);
    CatalogBundle {
        default_locale: LocaleId::EnUs,
        catalogs: vec![
            Catalog { locale: LocaleId::EnUs, entries: en },
            Catalog { locale: LocaleId::ZhCn, entries: zh },
        ],
    }
}

fn plain(text: &str) -> AIAgentText {
    AIAgentText { sections: vec![AIAgentTextSection::PlainText { text: text.to_string() }] }
}

#[test]
fn completed_command_reports_exit_code_and_output() {
    let input = AIAgentInput::ActionResult(AIAgentActionResultType::RequestCommandOutput(
        RequestCommandOutputResult::Completed {
            command: "ls".to_string(),
            output: "a b".to_string(),
            exit_code: -1,
        },
    ));
    assert_eq!(
        format_input(&input, &catalogs()).unwrap(),
        "Command `ls` finished with exit code -1:\na b\n"
    );
}

#[test]
fn queries_are_not_reported() {
    assert_eq!(format_input(&AIAgentInput::Query, &catalogs()).unwrap(), "");
}

#[test]
fn cancelled_results_use_the_locale_and_fall_back_to_english() {
    let input = AIAgentInput::ActionResult(AIAgentActionResultType::RequestCommandOutput(
        RequestCommandOutputResult::CancelledBeforeExecution,
    ));
    assert_eq!(format_input_for_locale(&input, &catalogs(), LocaleId::ZhCn).unwrap(), "已取消\n");
    let glob = AIAgentInput::ActionResult(AIAgentActionResultType::FileGlob(FileGlobResult::Cancelled));
    assert_eq!(format_input(&glob, &catalogs()).unwrap(), "Cancelled\n");
}

#[test]
fn mcp_tool_content_is_listed() {
    let input = AIAgentInput::ActionResult(AIAgentActionResultType::CallMCPTool(
        CallMCPToolResult::Success {
            content: vec![
                McpContent::Text { text: "hello".to_string() },
                McpContent::Image { mime_type: "image/png".to_string() },
                McpContent::Resource(McpResourceContents {
                    uri: "file:///a".to_string(),
                    mime_type: None,
                    text: Some("body".to_string()),
                }),
                McpContent::ResourceLink {
                    uri: "file:///b".to_string(),
                    mime_type: None,
                    name: "b".to_string(),
                },
            ],
            json: "{}".to_string(),
        },
    ));
    assert_eq!(
        format_input(&input, &catalogs()).unwrap(),
        "- hello\n- Image (image/png)\n- file:///a (text/plain)\nbody\n- b: file:///b (unknown)\n"
    );
}

#[test]
fn plain_text_ends_with_exactly_one_newline() {
    assert_eq!(format_agent_text(&plain("hi")), "hi\n");
    assert_eq!(format_agent_text(&plain("hi\n")), "hi\n");
    assert_eq!(format_agent_text(&AIAgentText { sections: vec![] }), "\n");
}

#[test]
fn code_blocks_are_fenced_with_language_and_source() {
    let text = AIAgentText {
        sections: vec![AIAgentTextSection::Code {
            code: "fn main() {}".to_string(),
            language: Some("Rust".to_string()),
            source: Some(CodeSource::Link {
                path: "src/lib.rs".to_string(),
                range_start: Some(3),
                range_end: Some(5),
            }),
        }],
    };
    assert_eq!(
        format_agent_text(&text),
        "```Rust path=src/lib.rs start=3 end=5\nfn main() {}\n```\n"
    );
    let bare = AIAgentText {
        sections: vec![AIAgentTextSection::Code {
            code: "x".to_string(),
            language: None,
            source: None,
        }],
    };
    assert_eq!(format_agent_text(&bare), "```x\n```\n");
}

#[test]
fn output_messages_are_reported_in_order() {
    let output = AIAgentOutput {
        messages: vec![
            AIAgentOutputMessageType::Text(plain("Thinking")),
            AIAgentOutputMessageType::Action(AIAgentActionType::RequestCommandOutput {
                command: "pwd".to_string(),
            }),
            AIAgentOutputMessageType::TodoOperation(TodoOperation::UpdateTodos {
                todos: vec![AIAgentTodo { title: "one".to_string(), description: "d".to_string() }],
            }),
            AIAgentOutputMessageType::DebugOutput { text: "dbg".to_string() },
            AIAgentOutputMessageType::Action(AIAgentActionType::Unreported),
        ],
    };
    assert_eq!(
        format_output(&output, &catalogs()).unwrap(),
        "Thinking\nRunning `pwd`\nUpdated todo list:\n* one\n[DEBUG] dbg\n"
    );
}

#[test]
fn file_edits_list_each_file_once() {
    let output = AIAgentOutput {
        messages: vec![AIAgentOutputMessageType::Action(AIAgentActionType::RequestFileEdits {
            file_edits: vec![
                Some("a.rs".to_string()),
                None,
                Some("b.rs".to_string()),
                Some("a.rs".to_string()),
            ],
            title: Some("Fix".to_string()),
        })],
    };
    assert_eq!(
        format_output(&output, &catalogs()).unwrap(),
        "Editing files Fix\n- a.rs\n- b.rs\n"
    );
}

#[test]
fn searches_name_their_queries_and_directory() {
    let output = AIAgentOutput {
        messages: vec![
            AIAgentOutputMessageType::Action(AIAgentActionType::Grep {
                queries: vec!["foo".to_string()],
                path: "src".to_string(),
            }),
            AIAgentOutputMessageType::Action(AIAgentActionType::FileGlob {
                patterns: vec!["*.rs".to_string(), "*.toml".to_string()],
                path: None,
            }),
        ],
    };
    assert_eq!(
        format_output(&output, &catalogs()).unwrap(),
        "Grepping for foo in src\nFinding [*.rs, *.toml] in the current directory\n"
    );
}

#[test]
fn queries_format_bare_when_single() {
    assert_eq!(format_queries(&vec!["a".to_string()]), "a");
    assert_eq!(format_queries(&vec![]), "[]");
    assert_eq!(format_queries(&vec!["a".to_string(), "b".to_string()]), "[a, b]");
}

#[test]
fn todos_are_bulleted() {
    let todos = vec![
        AIAgentTodo { title: "a".to_string(), description: String::new() },
        AIAgentTodo { title: "b".to_string(), description: String::new() },
    ];
    assert_eq!(format_todos(&todos), "* a\n* b\n");
}

#[test]
fn system_events_use_their_templates() {
    let c = catalogs();
    assert_eq!(conversation_started("c-1", &c).unwrap(), "Conversation started: c-1\n");
    assert_eq!(
        run_started("r-1", "https://oz.warp.dev", &c).unwrap(),
        "Run ID: r-1\nOpen in Oz: https://oz.warp.dev/runs/r-1\n"
    );
    assert_eq!(
        plan_artifact_created("doc", "https://n", "Plan", &c).unwrap(),
        "Created plan Plan (doc): https://n\n"
    );
}

#[test]
fn catalog_text_lines_are_not_filled() {
    let input = AIAgentInput::ActionResult(AIAgentActionResultType::SearchCodebase(
        warp_app::agent::SearchCodebaseResult::Success { files: vec![] },
    ));
    assert_eq!(format_input(&input, &catalogs()).unwrap(), "Results for {query}:\n");
}

#[test]
fn a_template_missing_an_argument_is_an_error() {
    let c = CatalogBundle {
        default_locale: LocaleId::EnUs,
        catalogs: vec![Catalog {
            locale: LocaleId::EnUs,
            entries: pairs(&[("agent_sdk.driver.output.conversation_started", "Started {other}")]),
        }],
    };
    assert!(conversation_started("c-1", &c).is_err());
}
