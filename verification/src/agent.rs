//! The agent conversation values that the SDK driver reports: inputs (action
//! results), output messages (text, tool calls, todos, artifacts, ...), held
//! as the plain values that the reports read.
//!
//! Values that only an outside library can print (an MCP tool's JSON input or
//! result, a file's display form) are carried as the text that library made.

use vstd::prelude::*;

verus! {

/// An item of the agent's todo list.
#[derive(Clone, Debug)]
pub struct AIAgentTodo {
    pub title: String,
    pub description: String,
}

/// A file with an optional line range `start..end`, as a tool reports it.
#[derive(Clone, Debug)]
pub struct FileContext {
    pub file_name: String,
    pub line_range: Option<(usize, usize)>,
    /// How the file is shown in a text report.
    pub display: String,
}

/// A file that could not be read, with the reason.
#[derive(Clone, Debug)]
pub struct ReadFilesFailedFile {
    pub path: String,
    pub message: String,
}

/// A file in which grep found matches, with the matched line numbers.
#[derive(Clone, Debug)]
pub struct GrepFileMatch {
    pub file_path: String,
    pub line_numbers: Vec<usize>,
    /// How the match is shown in a text report.
    pub display: String,
}

/// A file found by a glob search.
#[derive(Clone, Debug)]
pub struct FileGlobMatch {
    pub file_path: String,
    /// How the match is shown in a text report.
    pub display: String,
}

/// The contents of an MCP resource: text contents carry `text`, binary ones do not.
#[derive(Clone, Debug)]
pub struct McpResourceContents {
    pub uri: String,
    pub mime_type: Option<String>,
    pub text: Option<String>,
}

/// One item of the content an MCP tool returned.
#[derive(Clone, Debug)]
pub enum McpContent {
    Text { text: String },
    Image { mime_type: String },
    Resource(McpResourceContents),
    Audio { mime_type: String },
    ResourceLink { uri: String, mime_type: Option<String>, name: String },
}

#[derive(Clone, Debug)]
pub enum RequestCommandOutputResult {
    Completed { command: String, output: String, exit_code: i32 },
    LongRunningCommandSnapshot { command: String },
    CancelledBeforeExecution,
    Denylisted,
}

#[derive(Clone, Debug)]
pub enum WriteToLongRunningShellCommandResult {
    Snapshot,
    CommandFinished { output: String, exit_code: i32 },
    Cancelled,
    Error,
}

#[derive(Clone, Debug)]
pub enum RequestFileEditsResult {
    Success { diff: String, updated_files: Vec<String>, deleted_files: Vec<String> },
    Cancelled,
    DiffApplicationFailed { error: String },
}

#[derive(Clone, Debug)]
pub enum ReadFilesResult {
    Success { files: Vec<FileContext>, failed_files: Vec<ReadFilesFailedFile> },
    Error(String),
    Cancelled,
}

#[derive(Clone, Debug)]
pub enum UploadArtifactResult {
    Success {
        artifact_uid: String,
        filepath: Option<String>,
        mime_type: String,
        description: Option<String>,
        size_bytes: i64,
    },
    Error(String),
    Cancelled,
}

#[derive(Clone, Debug)]
pub enum SearchCodebaseResult {
    Success { files: Vec<FileContext> },
    Failed { message: String },
    Cancelled,
}

#[derive(Clone, Debug)]
pub enum GrepResult {
    Success { matched_files: Vec<GrepFileMatch> },
    Error(String),
    Cancelled,
}

#[derive(Clone, Debug)]
pub enum FileGlobResult {
    /// The matched paths, one per line.
    Success { matched_files: String },
    Error(String),
    Cancelled,
}

#[derive(Clone, Debug)]
pub enum FileGlobV2Result {
    Success { matched_files: Vec<FileGlobMatch> },
    Error(String),
    Cancelled,
}

#[derive(Clone, Debug)]
pub enum ReadMCPResourceResult {
    /// The resource contents, and the same contents as the MCP library serializes them.
    Success { resource_contents: Vec<McpResourceContents>, json: String },
    Error(String),
    Cancelled,
}

#[derive(Clone, Debug)]
pub enum CallMCPToolResult {
    /// The content the tool returned, and the whole result as the MCP library serializes it.
    Success { content: Vec<McpContent>, json: String },
    Error(String),
    Cancelled,
}

#[derive(Clone, Debug)]
pub enum ReadSkillResult {
    Success { file_name: String },
    Error(String),
    Cancelled,
}

#[derive(Clone, Debug)]
pub enum SuggestNewConversationResult {
    Accepted,
    Rejected,
    Cancelled,
}

#[derive(Clone, Debug)]
pub enum SuggestPromptResult {
    Accepted,
    Cancelled,
}

#[derive(Clone, Debug)]
pub enum UseComputerResult {
    Success,
    Error(String),
    Cancelled,
}

#[derive(Clone, Debug)]
pub enum FetchConversationResult {
    Success { directory_path: String },
    Error(String),
    Cancelled,
}

/// The result of an action the agent asked for.
#[derive(Clone, Debug)]
pub enum AIAgentActionResultType {
    RequestCommandOutput(RequestCommandOutputResult),
    WriteToLongRunningShellCommand(WriteToLongRunningShellCommandResult),
    RequestFileEdits(RequestFileEditsResult),
    ReadFiles(ReadFilesResult),
    UploadArtifact(UploadArtifactResult),
    SearchCodebase(SearchCodebaseResult),
    Grep(GrepResult),
    FileGlob(FileGlobResult),
    FileGlobV2(FileGlobV2Result),
    ReadMCPResource(ReadMCPResourceResult),
    CallMCPTool(CallMCPToolResult),
    ReadSkill(ReadSkillResult),
    SuggestNewConversation(SuggestNewConversationResult),
    SuggestPrompt(SuggestPromptResult),
    UseComputer(UseComputerResult),
    FetchConversation(FetchConversationResult),
    /// A result with nothing to report: code review, project setup, document
    /// operations, shell hand-over, recordings, messages to other agents,
    /// questions to the user, child agents, waits.
    Unreported,
}

/// An input to the agent.
#[derive(Clone, Debug)]
pub enum AIAgentInput {
    /// The result of an action.
    ActionResult(AIAgentActionResultType),
    /// A query or other input the caller already knows about (a user query,
    /// a project command, a resumed conversation, messages from other agents, ...).
    Query,
}

/// A file location the agent asks to read.
#[derive(Clone, Debug)]
pub struct FileLocation {
    pub name: String,
    pub lines: Vec<(usize, usize)>,
}

/// An action the agent asks for.
#[derive(Clone, Debug)]
pub enum AIAgentActionType {
    RequestCommandOutput { command: String },
    WriteToLongRunningShellCommand { input: Vec<u8> },
    ReadFiles { locations: Vec<FileLocation> },
    UploadArtifact { file_path: String, description: Option<String> },
    SearchCodebase { query: String, codebase_path: Option<String> },
    /// The file of each edit, where the edit names one.
    RequestFileEdits { file_edits: Vec<Option<String>>, title: Option<String> },
    Grep { queries: Vec<String>, path: String },
    FileGlob { patterns: Vec<String>, path: Option<String> },
    FileGlobV2 { patterns: Vec<String>, search_dir: Option<String> },
    ReadMCPResource { name: String, uri: Option<String> },
    /// The tool input as pretty-printed JSON and as compact JSON.
    CallMCPTool { name: String, input_pretty: String, input_json: String },
    UseComputer { action_summary: String },
    RequestComputerUse { task_summary: String },
    StartRecording,
    StopRecording { recording_id: String, should_persist: bool },
    ReadSkill { skill: String },
    FetchConversation { conversation_id: String },
    SendMessageToAgent { addresses: Vec<String>, subject: String },
    /// An action with nothing to report (suggestions, code review, project
    /// setup, documents, shell hand-over, questions, child agents, waits).
    Unreported,
}

/// A section of the agent's text.
#[derive(Clone, Debug)]
pub enum AIAgentTextSection {
    PlainText { text: String },
    Code { code: String, language: Option<String>, source: Option<CodeSource> },
    Table { markdown_source: String },
    Image { markdown_source: String },
    MermaidDiagram { markdown_source: String },
}

/// Where a code block comes from.
#[derive(Clone, Debug)]
pub enum CodeSource {
    ProjectRules { location: String },
    Link { path: String, range_start: Option<usize>, range_end: Option<usize> },
    Skill { location: String },
    /// A source that is not shown (an AI action, a new file, the file tree, ...).
    Other,
}

/// The agent's text: a list of sections.
#[derive(Clone, Debug)]
pub struct AIAgentText {
    pub sections: Vec<AIAgentTextSection>,
}

#[derive(Clone, Debug)]
pub enum TodoOperation {
    UpdateTodos { todos: Vec<AIAgentTodo> },
    MarkAsCompleted { completed_todos: Vec<AIAgentTodo> },
}

#[derive(Clone, Debug)]
pub enum WebSearchStatus {
    Searching { query: Option<String> },
    Success { query: String, page_count: usize },
    Error { query: String },
}

#[derive(Clone, Debug)]
pub enum WebFetchStatus {
    Fetching { url_count: usize },
    Success { page_count: usize },
    Error,
}

/// A review comment the agent addressed.
#[derive(Clone, Debug)]
pub struct ReviewComment {
    pub content: String,
    pub file_path: Option<String>,
    pub line_number: Option<usize>,
    pub head_title: Option<String>,
}

#[derive(Clone, Debug)]
pub enum ArtifactCreatedData {
    PullRequest { url: String, branch: String },
    Screenshot { artifact_uid: String, mime_type: String, description: Option<String> },
    File {
        artifact_uid: String,
        filepath: String,
        filename: String,
        mime_type: String,
        description: Option<String>,
        size_bytes: i64,
    },
}

/// A message the agent produced.
#[derive(Clone, Debug)]
pub enum AIAgentOutputMessageType {
    Text(AIAgentText),
    Reasoning(AIAgentText),
    Summarization(AIAgentText),
    Action(AIAgentActionType),
    TodoOperation(TodoOperation),
    /// A sub-agent call: its task id and its display form.
    Subagent { task_id: String, display: String },
    WebSearch(WebSearchStatus),
    WebFetch(WebFetchStatus),
    CommentsAddressed { comments: Vec<ReviewComment> },
    DebugOutput { text: String },
    ArtifactCreated(ArtifactCreatedData),
    SkillInvoked { name: String },
    MessagesReceivedFromAgents { message_count: usize },
    EventsFromAgents { event_count: usize },
}

/// An output of the agent: its messages in order.
#[derive(Clone, Debug)]
pub struct AIAgentOutput {
    pub messages: Vec<AIAgentOutputMessageType>,
}

} // verus!
