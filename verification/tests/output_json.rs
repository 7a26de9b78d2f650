use warp_app::agent::{
    AIAgentActionResultType, AIAgentActionType, AIAgentInput, AIAgentOutput,
    AIAgentOutputMessageType, AIAgentText, AIAgentTextSection, AIAgentTodo, ArtifactCreatedData,
    FileContext, FileGlobResult, GrepFileMatch, GrepResult, ReadFilesFailedFile, ReadFilesResult,
    RequestCommandOutputResult, TodoOperation, UploadArtifactResult,
};
use warp_app::localization::{Catalog, CatalogBundle, LocaleId};
use warp_app::output::json::{
    conversation_started, format_input, format_output, from_action_result, from_output_message,
    plan_artifact_created, run_started, shared_session_established,
};

fn catalogs() -> CatalogBundle {
    CatalogBundle {
        default_locale: LocaleId::EnUs,
        catalogs: vec![
            Catalog {
                locale: LocaleId::EnUs,
                entries: vec![(
                    "agent_sdk.driver.output.command_denylisted".to_string(),
                    "Command is denylisted".to_string(),
                )],
            },
            Catalog {
                locale: LocaleId::ZhCn,
                entries: vec![(
                    "agent_sdk.driver.output.command_denylisted".to_string(),
                    "命令已被禁止".to_string(),
                )],
            },
        ],
    }
}

fn result(r: AIAgentActionResultType) -> String {
    from_action_result(&catalogs(), &r).expect("result should have a line")
}

fn assert_valid_json(line: &str) {
    serde_json::from_str::<serde_json::Value>(line).expect("line should be JSON");
}

#[test]
fn system_events_are_tagged() {
    assert_eq!(
        conversation_started("abc"),
        "{\"type\":\"system\",\"event_type\":\"conversation_started\",\"conversation_id\":\"abc\"}\n"
    );
    assert_eq!(
        run_started("r1", "https://oz.warp.dev"),
        "{\"type\":\"system\",\"event_type\":\"run_started\",\"run_id\":\"r1\",\"run_url\":\"https://oz.warp.dev/runs/r1\"}\n"
    );
    assert_eq!(
        shared_session_established("https://j"),
        "{\"type\":\"system\",\"event_type\":\"shared_session_established\",\"join_url\":\"https://j\"}\n"
    );
    assert_eq!(
        plan_artifact_created("d", "n", "t"),
        "{\"type\":\"artifact_created\",\"artifact_type\":\"plan\",\"document_id\":\"d\",\"notebook_link\":\"n\",\"title\":\"t\"}\n"
    );
}

#[test]
fn strings_are_escaped() {
    let line = result(AIAgentActionResultType::RequestCommandOutput(
        RequestCommandOutputResult::Completed {
            command: "x".to_string(),
            output: "a\"b\\c\nd\u{1}é".to_string(),
            exit_code: 0,
        },
    ));
    assert_eq!(
        line,
        "{\"type\":\"tool_result\",\"tool\":\"run_command\",\"status\":\"complete\",\"exit_code\":0,\"output\":\"a\\\"b\\\\c\\nd\\u0001é\"}"
    );
    assert_valid_json(&line);
}

#[test]
fn denylisted_commands_report_the_english_error() {
    assert_eq!(
        result(AIAgentActionResultType::RequestCommandOutput(
            RequestCommandOutputResult::Denylisted
        )),
        "{\"type\":\"tool_error\",\"error\":\"Command is denylisted\"}"
    );
    assert_eq!(
        result(AIAgentActionResultType::RequestCommandOutput(
            RequestCommandOutputResult::CancelledBeforeExecution
        )),
        "{\"type\":\"tool_canceled\"}"
    );
}

#[test]
fn read_files_lists_ranges_and_failures_only_where_present() {
    let files = vec![
        FileContext { file_name: "a.rs".to_string(), line_range: Some((1, 4)), display: String::new() },
        FileContext { file_name: "b.rs".to_string(), line_range: None, display: String::new() },
    ];
    assert_eq!(
        result(AIAgentActionResultType::ReadFiles(ReadFilesResult::Success {
            files: files.clone(),
            failed_files: vec![],
        })),
        "{\"type\":\"tool_result\",\"tool\":\"read_files\",\"files\":[{\"path\":\"a.rs\",\"lines\":[{\"start\":1,\"end\":4}]},{\"path\":\"b.rs\"}]}"
    );
    let line = result(AIAgentActionResultType::ReadFiles(ReadFilesResult::Success {
        files,
        failed_files: vec![ReadFilesFailedFile { path: "c.rs".to_string(), message: "gone".to_string() }],
    }));
    assert!(line.ends_with(",\"failed_files\":[{\"path\":\"c.rs\",\"message\":\"gone\"}]}"));
    assert_valid_json(&line);
}

#[test]
fn uploads_skip_missing_optional_fields() {
    assert_eq!(
        result(AIAgentActionResultType::UploadArtifact(UploadArtifactResult::Success {
            artifact_uid: "u".to_string(),
            filepath: None,
            mime_type: "text/plain".to_string(),
            description: Some("d".to_string()),
            size_bytes: -3,
        })),
        "{\"type\":\"tool_result\",\"tool\":\"upload_artifact\",\"artifact_uid\":\"u\",\"mime_type\":\"text/plain\",\"description\":\"d\",\"size_bytes\":-3}"
    );
}

#[test]
fn glob_listings_are_trimmed_and_grep_lines_are_ranges() {
    assert_eq!(
        result(AIAgentActionResultType::FileGlob(FileGlobResult::Success {
            matched_files: " a.rs \r\n\n b.rs\n".to_string(),
        })),
        "{\"type\":\"tool_result\",\"tool\":\"file_glob\",\"files\":[{\"path\":\"a.rs\"},{\"path\":\"b.rs\"}]}"
    );
    assert_eq!(
        result(AIAgentActionResultType::Grep(GrepResult::Success {
            matched_files: vec![GrepFileMatch {
                file_path: "a.rs".to_string(),
                line_numbers: vec![7, usize::MAX],
                display: String::new(),
            }],
        })),
        format!(
            "{{\"type\":\"tool_result\",\"tool\":\"grep\",\"files\":[{{\"path\":\"a.rs\",\"lines\":[{{\"start\":7,\"end\":8}},{{\"start\":{m},\"end\":{m}}}]}}]}}",
            m = usize::MAX
        )
    );
}

#[test]
fn unreported_results_have_no_line() {
    assert_eq!(from_action_result(&catalogs(), &AIAgentActionResultType::Unreported), None);
    assert_eq!(format_input(&catalogs(), &AIAgentInput::Query), "");
}

#[test]
fn output_messages_become_lines() {
    let output = AIAgentOutput {
        messages: vec![
            AIAgentOutputMessageType::Text(AIAgentText {
                sections: vec![AIAgentTextSection::PlainText { text: "hi".to_string() }],
            }),
            AIAgentOutputMessageType::WebFetch(warp_app::agent::WebFetchStatus::Error),
            AIAgentOutputMessageType::TodoOperation(TodoOperation::MarkAsCompleted {
                completed_todos: vec![AIAgentTodo { title: "t".to_string(), description: "d".to_string() }],
            }),
            AIAgentOutputMessageType::Action(AIAgentActionType::RequestFileEdits {
                file_edits: vec![Some("a.rs".to_string()), None, Some("a.rs".to_string())],
                title: None,
            }),
            AIAgentOutputMessageType::Subagent { task_id: "t1".to_string(), display: String::new() },
        ],
    };
    let text = format_output(&output);
    assert_eq!(
        text,
        "{\"type\":\"agent\",\"text\":\"hi\\n\"}\n\
         {\"type\":\"complete_todos\",\"completed_todos\":[{\"title\":\"t\",\"description\":\"d\"}]}\n\
         {\"type\":\"tool_call\",\"tool\":\"edit_files\",\"title\":null,\"file_paths\":[\"a.rs\",\"a.rs\"]}\n\
         {\"type\":\"Subagent\",\"task_id\":\"t1\"}\n"
    );
    for line in text.lines() {
        assert_valid_json(line);
    }
}

#[test]
fn artifacts_carry_their_fields() {
    let line = from_output_message(&AIAgentOutputMessageType::ArtifactCreated(ArtifactCreatedData::File {
        artifact_uid: "u".to_string(),
        filepath: "/p/f.txt".to_string(),
        filename: "f.txt".to_string(),
        mime_type: "text/plain".to_string(),
        description: None,
        size_bytes: 12,
    }))
    .unwrap();
    assert_eq!(
        line,
        "{\"type\":\"artifact_created\",\"artifact_type\":\"file\",\"artifact_uid\":\"u\",\"filepath\":\"/p/f.txt\",\"filename\":\"f.txt\",\"mime_type\":\"text/plain\",\"description\":null,\"size_bytes\":12}"
    );
}

#[test]
fn tool_calls_embed_mcp_input_as_json() {
    let line = from_output_message(&AIAgentOutputMessageType::Action(AIAgentActionType::CallMCPTool {
        name: "search".to_string(),
        input_pretty: "{\n  \"q\": 1\n}".to_string(),
        input_json: "{\"q\":1}".to_string(),
    }))
    .unwrap();
    assert_eq!(
        line,
        "{\"type\":\"tool_call\",\"tool\":\"call_mcp_tool\",\"name\":\"search\",\"input\":{\"q\":1}}"
    );
}
