use warp_app::conversation::{
    conversation_output_status_from_conversation, AIAgentOutputStatus, AIConversation,
    AmbientConversationStatus, CancellationReason, ConversationStatus, FinishedAIAgentOutput,
    RenderableAIError,
};

fn error(message: &str) -> RenderableAIError {
    RenderableAIError::Other {
        error_message: message.to_string(),
        will_attempt_resume: true,
        waiting_for_network: false,
        is_user_error: true,
    }
}

fn conversation(
    status: ConversationStatus,
    last: Option<AIAgentOutputStatus>,
    message: Option<&str>,
) -> AIConversation {
    AIConversation {
        status,
        last_exchange_output: last,
        status_error_message: message.map(|m| m.to_string()),
    }
}

fn finished(output: FinishedAIAgentOutput) -> Option<AIAgentOutputStatus> {
    Some(AIAgentOutputStatus::Finished { finished_output: output })
}

#[test]
fn transient_errors_report_nothing() {
    let c = conversation(ConversationStatus::TransientError, finished(FinishedAIAgentOutput::Success), None);
    assert!(conversation_output_status_from_conversation(&c).is_none());
}

#[test]
fn blocked_conversations_report_the_action() {
    let c = conversation(
        ConversationStatus::Blocked { blocked_action: "rm -rf".to_string() },
        None,
        None,
    );
    match conversation_output_status_from_conversation(&c) {
        Some(AmbientConversationStatus::Blocked { blocked_action }) => assert_eq!(blocked_action, "rm -rf"),
        other => panic!("unexpected {other:?}"),
    }
}

#[test]
fn errors_prefer_the_structured_error_then_the_message() {
    let structured = conversation(
        ConversationStatus::Error,
        finished(FinishedAIAgentOutput::Error { error: error("boom") }),
        Some("status message"),
    );
    match conversation_output_status_from_conversation(&structured) {
        Some(AmbientConversationStatus::Error { error: e }) => assert_eq!(e, error("boom")),
        other => panic!("unexpected {other:?}"),
    }
    let from_message = conversation(ConversationStatus::Error, None, Some("status message"));
    match conversation_output_status_from_conversation(&from_message) {
        Some(AmbientConversationStatus::Error { error: e }) => assert_eq!(
            e,
            RenderableAIError::Other {
                error_message: "status message".to_string(),
                will_attempt_resume: false,
                waiting_for_network: false,
                is_user_error: false,
            }
        ),
        other => panic!("unexpected {other:?}"),
    }
    let cancelled = conversation(
        ConversationStatus::Error,
        finished(FinishedAIAgentOutput::Cancelled { reason: CancellationReason { code: 7 } }),
        None,
    );
    match conversation_output_status_from_conversation(&cancelled) {
        Some(AmbientConversationStatus::Cancelled { reason }) => assert_eq!(reason.code, 7),
        other => panic!("unexpected {other:?}"),
    }
}

#[test]
fn other_states_follow_the_last_exchange() {
    let success = conversation(ConversationStatus::Success, finished(FinishedAIAgentOutput::Success), None);
    assert!(matches!(
        conversation_output_status_from_conversation(&success),
        Some(AmbientConversationStatus::Success)
    ));
    let streaming = conversation(ConversationStatus::InProgress, Some(AIAgentOutputStatus::Streaming), None);
    assert!(conversation_output_status_from_conversation(&streaming).is_none());
    let none = conversation(ConversationStatus::Cancelled, None, Some("ignored"));
    assert!(conversation_output_status_from_conversation(&none).is_none());
}

#[test]
fn status_predicates() {
    assert!(ConversationStatus::Success.is_done());
    assert!(ConversationStatus::Cancelled.is_done());
    assert!(!ConversationStatus::InProgress.is_done());
    assert!(ConversationStatus::Blocked { blocked_action: String::new() }.is_blocked());
    assert!(ConversationStatus::WaitingForEvents.is_waiting_for_events());
    assert_eq!(error("x").duplicate(), error("x"));
}
