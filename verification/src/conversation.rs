//! The status of an agent conversation, as the agent driver and the ambient
//! agent reporting read it.

use vstd::prelude::*;

verus! {

/// Where a conversation stands.
#[derive(Debug, Clone)]
pub enum ConversationStatus {
    /// A turn is running.
    InProgress,
    /// The last turn finished successfully.
    Success,
    /// The conversation failed.
    Error,
    /// The user cancelled the conversation.
    Cancelled,
    /// The agent waits for the user to approve `blocked_action`.
    Blocked { blocked_action: String },
    /// A turn failed and is about to be retried.
    TransientError,
    /// The agent waits for events from other agents.
    WaitingForEvents,
}

impl ConversationStatus {
    /// The conversation has ended, successfully or not.
    pub open spec fn is_done_spec(&self) -> bool {
        match self {
            ConversationStatus::Success | ConversationStatus::Error
            | ConversationStatus::Cancelled => true,
            _ => false,
        }
    }

    pub fn is_done(&self) -> (b: bool)
        ensures
            b == self.is_done_spec(),
    {
        match self {
            ConversationStatus::Success | ConversationStatus::Error
            | ConversationStatus::Cancelled => true,
            _ => false,
        }
    }

    pub fn is_blocked(&self) -> (b: bool)
        ensures
            b == (self is Blocked),
    {
        match self {
            ConversationStatus::Blocked { .. } => true,
            _ => false,
        }
    }

    pub fn is_waiting_for_events(&self) -> (b: bool)
        ensures
            b == (self is WaitingForEvents),
    {
        match self {
            ConversationStatus::WaitingForEvents => true,
            _ => false,
        }
    }
}


/// An agent error in the form the UI renders it.
#[derive(Debug, Clone, PartialEq, Eq)]
pub enum RenderableAIError {
    /// An error known only by its message.
    Other {
        error_message: String,
        will_attempt_resume: bool,
        waiting_for_network: bool,
        is_user_error: bool,
    },
}

impl RenderableAIError {
    /// A copy of this error.
    pub fn duplicate(&self) -> (r: Self)
        ensures
            r == *self,
    {
        match self {
            RenderableAIError::Other {
                error_message,
                will_attempt_resume,
                waiting_for_network,
                is_user_error,
            } => RenderableAIError::Other {
                error_message: error_message.clone(),
                will_attempt_resume: *will_attempt_resume,
                waiting_for_network: *waiting_for_network,
                is_user_error: *is_user_error,
            },
        }
    }
}

/// Why a turn was cancelled, identified by the code the agent reports.
#[derive(Debug, Clone, Copy, PartialEq, Eq)]
pub struct CancellationReason {
    pub code: u32,
}

/// How a finished exchange ended.
#[derive(Debug, Clone)]
pub enum FinishedAIAgentOutput {
    Success,
    Error { error: RenderableAIError },
    Cancelled { reason: CancellationReason },
}

/// The output status of an exchange.
#[derive(Debug, Clone)]
pub enum AIAgentOutputStatus {
    /// The exchange has not finished yet.
    Streaming,
    Finished { finished_output: FinishedAIAgentOutput },
}

/// What the ambient-agent reporting reads of a conversation.
#[derive(Debug, Clone)]
pub struct AIConversation {
    pub status: ConversationStatus,
    /// The output status of the root task's last exchange, if any.
    pub last_exchange_output: Option<AIAgentOutputStatus>,
    /// The error message attached to the status, if any.
    pub status_error_message: Option<String>,
}

/// High-level outcome of an ambient agent conversation.
#[derive(Debug, Clone)]
pub enum AmbientConversationStatus {
    Success,
    Error { error: RenderableAIError },
    Cancelled { reason: CancellationReason },
    Blocked { blocked_action: String },
}

/// The terminal outcome the last exchange carries, if it has finished.
pub open spec fn last_exchange_status_spec(c: AIConversation) -> Option<AmbientConversationStatus> {
    match c.last_exchange_output {
        Some(AIAgentOutputStatus::Finished { finished_output }) => Some(
            match finished_output {
                FinishedAIAgentOutput::Cancelled { reason } => AmbientConversationStatus::Cancelled {
                    reason,
                },
                FinishedAIAgentOutput::Error { error } => AmbientConversationStatus::Error { error },
                FinishedAIAgentOutput::Success => AmbientConversationStatus::Success,
            },
        ),
        _ => None,
    }
}

pub open spec fn ambient_status_spec(c: AIConversation) -> Option<AmbientConversationStatus> {
    match c.status {
        ConversationStatus::TransientError => None,
        ConversationStatus::Blocked { blocked_action } => Some(
            AmbientConversationStatus::Blocked { blocked_action },
        ),
        ConversationStatus::Error => match c.last_exchange_output {
            Some(
                AIAgentOutputStatus::Finished {
                    finished_output: FinishedAIAgentOutput::Error { error },
                },
            ) => Some(AmbientConversationStatus::Error { error }),
            _ => match c.status_error_message {
                Some(message) => Some(
                    AmbientConversationStatus::Error {
                        error: RenderableAIError::Other {
                            error_message: message,
                            will_attempt_resume: false,
                            waiting_for_network: false,
                            is_user_error: false,
                        },
                    },
                ),
                None => last_exchange_status_spec(c),
            },
        },
        _ => last_exchange_status_spec(c),
    }
}

fn terminal_status_from_last_exchange(conversation: &AIConversation) -> (r: Option<
    AmbientConversationStatus,
>)
    ensures
        r == last_exchange_status_spec(*conversation),
{
    match &conversation.last_exchange_output {
        Some(AIAgentOutputStatus::Finished { finished_output }) => Some(
            match finished_output {
                FinishedAIAgentOutput::Cancelled { reason } => AmbientConversationStatus::Cancelled {
                    reason: *reason,
                },
                FinishedAIAgentOutput::Error { error } => AmbientConversationStatus::Error {
                    error: error.duplicate(),
                },
                FinishedAIAgentOutput::Success => AmbientConversationStatus::Success,
            },
        ),
        _ => None,
    }
}

/// Derives the outcome of a conversation that reached a terminal state that
/// matters for ambient agents: nothing while a failed turn awaits recovery;
/// the blocked action when blocked; for an error, the last exchange's
/// structured error, else the status message, else whatever the last exchange
/// carries; in every other state, the outcome of the last exchange if it has
/// finished.
pub fn conversation_output_status_from_conversation(conversation: &AIConversation) -> (r: Option<
    AmbientConversationStatus,
>)
    ensures
        r == ambient_status_spec(*conversation),
{
    match &conversation.status {
        ConversationStatus::TransientError => None,
        ConversationStatus::Blocked { blocked_action } => Some(
            AmbientConversationStatus::Blocked { blocked_action: blocked_action.clone() },
        ),
        ConversationStatus::Error => {
            if let Some(
                AIAgentOutputStatus::Finished {
                    finished_output: FinishedAIAgentOutput::Error { error },
                },
            ) = &conversation.last_exchange_output {
                return Some(AmbientConversationStatus::Error { error: error.duplicate() });
            }
            if let Some(message) = &conversation.status_error_message {
                return Some(
                    AmbientConversationStatus::Error {
                        error: RenderableAIError::Other {
                            error_message: message.clone(),
                            will_attempt_resume: false,
                            waiting_for_network: false,
                            is_user_error: false,
                        },
                    },
                );
            }
            terminal_status_from_last_exchange(conversation)
        },
        _ => terminal_status_from_last_exchange(conversation),
    }
}

} // verus!
