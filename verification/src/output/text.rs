//! The human-readable report of a conversation, in the user's language.
//!
//! Each function first lays a report out as chunks (see [`crate::output`]) with
//! an exact contract, then renders them against the catalogs.

use vstd::prelude::*;

use crate::agent::{
    AIAgentActionResultType, AIAgentActionType, AIAgentInput, AIAgentOutput,
    AIAgentOutputMessageType, AIAgentTodo, ArtifactCreatedData, CallMCPToolResult,
    FetchConversationResult, FileContext, FileGlobMatch, FileGlobResult, FileGlobV2Result,
    FileLocation, GrepFileMatch, GrepResult, McpContent, McpResourceContents,
    ReadFilesResult, ReadMCPResourceResult, ReadSkillResult, RequestCommandOutputResult,
    RequestFileEditsResult, SearchCodebaseResult, SuggestNewConversationResult,
    SuggestPromptResult, TodoOperation, UploadArtifactResult, UseComputerResult,
    WebFetchStatus, WebSearchStatus, WriteToLongRunningShellCommandResult,
};
use crate::localization::{text_spec, CatalogBundle, LocaleId, PlaceholderError};
use crate::template::lookup_arg;
use crate::output::{
    agent_text_spec, args0, args1, args2, args3, chunk_views, format_agent_text, msg,
    msg_line, push_msg, push_msg_line, push_text, push_text_line, push_verbatim,
    push_verbatim_line, render_chunks, render_chunks_spec, run_url, run_url_spec, txt,
    txt_line, verb, verb_line, Chunk, ChunkView,
};
use crate::text::{chars_eq, chars_of, decimal_spec, extend_str, i64_to_decimal, string_from_chars, u64_to_decimal};

verus! {

/// The MIME type shown for an MCP resource that names none.
pub const DEFAULT_MIME_TYPE: &'static str = "text/plain";

/// The MIME type shown for an MCP resource link that names none.
pub const UNKNOWN_VALUE: &'static str = "unknown";

// ---------------------------------------------------------------------------
// Lists
// ---------------------------------------------------------------------------

/// `items` joined with `sep` between them.
pub open spec fn join_spec(items: Seq<Seq<char>>, sep: Seq<char>) -> Seq<char>
    decreases items.len(),
{
    if items.len() == 0 {
        Seq::empty()
    } else if items.len() == 1 {
        items[0]
    } else {
        join_spec(items.drop_last(), sep) + sep + items.last()
    }
}

pub open spec fn string_views(v: Seq<String>) -> Seq<Seq<char>> {
    v.map_values(|s: String| s@)
}

/// Joins `items` with `sep` between them.
pub fn join(items: &Vec<String>, sep: &str) -> (r: String)
    ensures
        r@ == join_spec(string_views(items@), sep@),
{
    let ghost all = string_views(items@);
    let mut out: Vec<char> = Vec::new();
    let mut i: usize = 0;
    while i < items.len()
        invariant
            all == string_views(items@),
            i <= items@.len(),
            out@ == join_spec(all.take(i as int), sep@),
        decreases items@.len() - i,
    {
        assert(all.take(i + 1).drop_last() =~= all.take(i as int));
        if i > 0 {
            extend_str(&mut out, sep);
        }
        extend_str(&mut out, items[i].as_str());
        proof {
            if i == 0 {
                assert(out@ =~= join_spec(all.take(1), sep@));
            }
        }
        i = i + 1;
    }
    assert(all.take(items@.len() as int) =~= all);
    string_from_chars(out.as_slice())
}

/// A list of queries or patterns: a single one as it is, any other number in
/// brackets, separated by `, `.
pub open spec fn format_queries_spec(queries: Seq<Seq<char>>) -> Seq<char> {
    if queries.len() == 1 {
        queries[0]
    } else {
        "["@ + join_spec(queries, ", "@) + "]"@
    }
}

/// Formats a list of query patterns (see [`format_queries_spec`]).
pub fn format_queries(queries: &Vec<String>) -> (r: String)
    ensures
        r@ == format_queries_spec(string_views(queries@)),
{
    if queries.len() == 1 {
        assert(string_views(queries@)[0] == queries@[0]@);
        queries[0].clone()
    } else {
        let mut out: Vec<char> = Vec::new();
        extend_str(&mut out, "[");
        let inner = join(queries, ", ");
        extend_str(&mut out, inner.as_str());
        extend_str(&mut out, "]");
        string_from_chars(out.as_slice())
    }
}

/// Each item on a line of its own after `- `.
pub open spec fn bullet_lines(items: Seq<Seq<char>>) -> Seq<char>
    decreases items.len(),
{
    if items.len() == 0 {
        Seq::empty()
    } else {
        bullet_lines(items.drop_last()) + "- "@ + items.last() + "\n"@
    }
}

pub open spec fn file_context_displays(v: Seq<FileContext>) -> Seq<Seq<char>> {
    v.map_values(|f: FileContext| f.display@)
}

pub open spec fn grep_match_displays(v: Seq<GrepFileMatch>) -> Seq<Seq<char>> {
    v.map_values(|f: GrepFileMatch| f.display@)
}

pub open spec fn glob_match_displays(v: Seq<FileGlobMatch>) -> Seq<Seq<char>> {
    v.map_values(|f: FileGlobMatch| f.display@)
}

pub open spec fn location_names(v: Seq<FileLocation>) -> Seq<Seq<char>> {
    v.map_values(|f: FileLocation| f.name@)
}

fn bullet_lines_of(items: &Vec<String>) -> (r: String)
    ensures
        r@ == bullet_lines(string_views(items@)),
{
    let ghost all = string_views(items@);
    let mut out: Vec<char> = Vec::new();
    let mut i: usize = 0;
    while i < items.len()
        invariant
            all == string_views(items@),
            i <= items@.len(),
            out@ == bullet_lines(all.take(i as int)),
        decreases items@.len() - i,
    {
        assert(all.take(i + 1).drop_last() =~= all.take(i as int));
        extend_str(&mut out, "- ");
        extend_str(&mut out, items[i].as_str());
        extend_str(&mut out, "\n");
        i = i + 1;
    }
    assert(all.take(items@.len() as int) =~= all);
    string_from_chars(out.as_slice())
}

fn file_context_display_list(v: &Vec<FileContext>) -> (r: Vec<String>)
    ensures
        string_views(r@) == file_context_displays(v@),
{
    let mut r: Vec<String> = Vec::new();
    let mut i: usize = 0;
    while i < v.len()
        invariant
            i <= v@.len(),
            string_views(r@) == file_context_displays(v@).take(i as int),
        decreases v@.len() - i,
    {
        let ghost before = r@;
        r.push(v[i].display.clone());
        assert(string_views(r@) =~= string_views(before).push(v@[i as int].display@));
        assert(file_context_displays(v@).take(i + 1) =~= file_context_displays(v@).take(i as int).push(v@[i as int].display@));
        i = i + 1;
    }
    assert(file_context_displays(v@).take(v@.len() as int) =~= file_context_displays(v@));
    r
}

fn grep_match_display_list(v: &Vec<GrepFileMatch>) -> (r: Vec<String>)
    ensures
        string_views(r@) == grep_match_displays(v@),
{
    let mut r: Vec<String> = Vec::new();
    let mut i: usize = 0;
    while i < v.len()
        invariant
            i <= v@.len(),
            string_views(r@) == grep_match_displays(v@).take(i as int),
        decreases v@.len() - i,
    {
        let ghost before = r@;
        r.push(v[i].display.clone());
        assert(string_views(r@) =~= string_views(before).push(v@[i as int].display@));
        assert(grep_match_displays(v@).take(i + 1) =~= grep_match_displays(v@).take(i as int).push(v@[i as int].display@));
        i = i + 1;
    }
    assert(grep_match_displays(v@).take(v@.len() as int) =~= grep_match_displays(v@));
    r
}

fn glob_match_display_list(v: &Vec<FileGlobMatch>) -> (r: Vec<String>)
    ensures
        string_views(r@) == glob_match_displays(v@),
{
    let mut r: Vec<String> = Vec::new();
    let mut i: usize = 0;
    while i < v.len()
        invariant
            i <= v@.len(),
            string_views(r@) == glob_match_displays(v@).take(i as int),
        decreases v@.len() - i,
    {
        let ghost before = r@;
        r.push(v[i].display.clone());
        assert(string_views(r@) =~= string_views(before).push(v@[i as int].display@));
        assert(glob_match_displays(v@).take(i + 1) =~= glob_match_displays(v@).take(i as int).push(v@[i as int].display@));
        i = i + 1;
    }
    assert(glob_match_displays(v@).take(v@.len() as int) =~= glob_match_displays(v@));
    r
}

fn location_name_list(v: &Vec<FileLocation>) -> (r: Vec<String>)
    ensures
        string_views(r@) == location_names(v@),
{
    let mut r: Vec<String> = Vec::new();
    let mut i: usize = 0;
    while i < v.len()
        invariant
            i <= v@.len(),
            string_views(r@) == location_names(v@).take(i as int),
        decreases v@.len() - i,
    {
        let ghost before = r@;
        r.push(v[i].name.clone());
        assert(string_views(r@) =~= string_views(before).push(v@[i as int].name@));
        assert(location_names(v@).take(i + 1) =~= location_names(v@).take(i as int).push(v@[i as int].name@));
        i = i + 1;
    }
    assert(location_names(v@).take(v@.len() as int) =~= location_names(v@));
    r
}

/// Each todo's title on a line of its own after `* `.
pub open spec fn todo_lines(todos: Seq<AIAgentTodo>) -> Seq<char>
    decreases todos.len(),
{
    if todos.len() == 0 {
        Seq::empty()
    } else {
        todo_lines(todos.drop_last()) + "* "@ + todos.last().title@ + "\n"@
    }
}

/// Formats a list of todo items (see [`todo_lines`]).
pub fn format_todos(todos: &Vec<AIAgentTodo>) -> (r: String)
    ensures
        r@ == todo_lines(todos@),
{
    let mut out: Vec<char> = Vec::new();
    let mut i: usize = 0;
    while i < todos.len()
        invariant
            i <= todos@.len(),
            out@ == todo_lines(todos@.take(i as int)),
        decreases todos@.len() - i,
    {
        assert(todos@.take(i + 1).drop_last() =~= todos@.take(i as int));
        extend_str(&mut out, "* ");
        extend_str(&mut out, todos[i].title.as_str());
        extend_str(&mut out, "\n");
        i = i + 1;
    }
    assert(todos@.take(todos@.len() as int) =~= todos@);
    string_from_chars(out.as_slice())
}

/// The distinct files named by the edits, in the order they first occur.
pub open spec fn distinct_edit_files(edits: Seq<Option<String>>) -> Seq<Seq<char>>
    decreases edits.len(),
{
    if edits.len() == 0 {
        Seq::empty()
    } else {
        let front = distinct_edit_files(edits.drop_last());
        match edits.last() {
            Some(p) => if front.contains(p@) {
                front
            } else {
                front.push(p@)
            },
            None => front,
        }
    }
}

fn contains_chars(v: &Vec<Vec<char>>, x: &Vec<char>) -> (b: bool)
    ensures
        b == v@.map_values(|c: Vec<char>| c@).contains(x@),
{
    let ghost views = v@.map_values(|c: Vec<char>| c@);
    let mut i: usize = 0;
    while i < v.len()
        invariant
            views == v@.map_values(|c: Vec<char>| c@),
            i <= v@.len(),
            forall|j: int| 0 <= j < i ==> views[j] != x@,
        decreases v@.len() - i,
    {
        if chars_eq(v[i].as_slice(), x.as_slice()) {
            assert(views[i as int] == x@);
            return true;
        }
        i = i + 1;
    }
    false
}

fn distinct_edit_file_list(edits: &Vec<Option<String>>) -> (r: Vec<String>)
    ensures
        string_views(r@) == distinct_edit_files(edits@),
{
    let mut seen: Vec<Vec<char>> = Vec::new();
    let mut r: Vec<String> = Vec::new();
    let mut i: usize = 0;
    while i < edits.len()
        invariant
            i <= edits@.len(),
            string_views(r@) == distinct_edit_files(edits@.take(i as int)),
            seen@.map_values(|c: Vec<char>| c@) == string_views(r@),
        decreases edits@.len() - i,
    {
        assert(edits@.take(i + 1).drop_last() =~= edits@.take(i as int));
        assert(edits@.take(i + 1).last() == edits@[i as int]);
        match &edits[i] {
            Some(p) => {
                let pc = chars_of(p.as_str());
                if !contains_chars(&seen, &pc) {
                    let ghost before_r = r@;
                    let ghost before_seen = seen@;
                    seen.push(pc);
                    r.push(p.clone());
                    assert(string_views(r@) =~= string_views(before_r).push(p@));
                    assert(seen@.map_values(|c: Vec<char>| c@) =~= before_seen.map_values(
                        |c: Vec<char>| c@,
                    ).push(p@));
                }
            },
            None => {},
        }
        i = i + 1;
    }
    assert(edits@.take(edits@.len() as int) =~= edits@);
    r
}

// ---------------------------------------------------------------------------
// MCP content
// ---------------------------------------------------------------------------

pub open spec fn or_default(o: Option<String>, default: Seq<char>) -> Seq<char> {
    match o {
        Some(s) => s@,
        None => default,
    }
}

/// An MCP resource: `uri (mime type)`, then its text on the next line if it has any.
pub open spec fn resource_text(r: McpResourceContents) -> Seq<char> {
    r.uri@ + " ("@ + or_default(r.mime_type, DEFAULT_MIME_TYPE@) + ")\n"@ + match r.text {
        Some(t) => t@ + "\n"@,
        None => Seq::empty(),
    }
}

/// Each resource after `- `.
pub open spec fn resources_text(rs: Seq<McpResourceContents>) -> Seq<char>
    decreases rs.len(),
{
    if rs.len() == 0 {
        Seq::empty()
    } else {
        resources_text(rs.drop_last()) + "- "@ + resource_text(rs.last())
    }
}

fn push_resource_text(out: &mut Vec<char>, r: &McpResourceContents)
    ensures
        final(out)@ == old(out)@ + resource_text(*r),
{
    extend_str(out, r.uri.as_str());
    extend_str(out, " (");
    match &r.mime_type {
        Some(m) => extend_str(out, m.as_str()),
        None => extend_str(out, DEFAULT_MIME_TYPE),
    }
    extend_str(out, ")\n");
    match &r.text {
        Some(t) => {
            extend_str(out, t.as_str());
            extend_str(out, "\n");
        },
        None => {},
    }
    assert(final(out)@ =~= old(out)@ + resource_text(*r));
}

fn resources_text_exec(rs: &Vec<McpResourceContents>) -> (s: String)
    ensures
        s@ == resources_text(rs@),
{
    let mut out: Vec<char> = Vec::new();
    let mut i: usize = 0;
    while i < rs.len()
        invariant
            i <= rs@.len(),
            out@ == resources_text(rs@.take(i as int)),
        decreases rs@.len() - i,
    {
        assert(rs@.take(i + 1).drop_last() =~= rs@.take(i as int));
        extend_str(&mut out, "- ");
        push_resource_text(&mut out, &rs[i]);
        assert(out@ =~= resources_text(rs@.take(i + 1)));
        i = i + 1;
    }
    assert(rs@.take(rs@.len() as int) =~= rs@);
    string_from_chars(out.as_slice())
}

/// The report of one item of an MCP tool's content.
pub open spec fn content_chunks(c: McpContent) -> Seq<ChunkView> {
    match c {
        McpContent::Text { text } => verb_line(text@),
        McpContent::Image { mime_type } => msg_line(
            "agent_sdk.driver.output.image_content"@,
            seq![("mime_type"@, mime_type@)],
        ),
        McpContent::Resource(r) => seq![verb(resource_text(r))],
        McpContent::Audio { mime_type } => msg_line(
            "agent_sdk.driver.output.audio_content"@,
            seq![("mime_type"@, mime_type@)],
        ),
        McpContent::ResourceLink { uri, mime_type, name } => seq![
            verb(name@ + ": "@ + uri@ + " ("@ + or_default(mime_type, UNKNOWN_VALUE@) + ")\n"@),
        ],
    }
}

/// Each content item after `- `.
pub open spec fn contents_chunks(cs: Seq<McpContent>) -> Seq<ChunkView>
    decreases cs.len(),
{
    if cs.len() == 0 {
        Seq::empty()
    } else {
        contents_chunks(cs.drop_last()) + seq![verb("- "@)] + content_chunks(cs.last())
    }
}

fn push_content(chunks: &mut Vec<Chunk>, c: &McpContent)
    ensures
        chunk_views(final(chunks)@) == chunk_views(old(chunks)@) + content_chunks(*c),
{
    let ghost before = chunk_views(chunks@);
    match c {
        McpContent::Text { text } => {
            push_verbatim_line(chunks, text.as_str());
        },
        McpContent::Image { mime_type } => {
            push_msg_line(
                chunks,
                "agent_sdk.driver.output.image_content",
                args1("mime_type", mime_type.as_str()),
            );
        },
        McpContent::Resource(r) => {
            let mut out: Vec<char> = Vec::new();
            push_resource_text(&mut out, r);
            assert(out@ =~= resource_text(*r));
            let s = string_from_chars(out.as_slice());
            push_verbatim(chunks, s.as_str());
            assert(before.push(verb(resource_text(*r))) =~= before + content_chunks(*c));
        },
        McpContent::Audio { mime_type } => {
            push_msg_line(
                chunks,
                "agent_sdk.driver.output.audio_content",
                args1("mime_type", mime_type.as_str()),
            );
        },
        McpContent::ResourceLink { uri, mime_type, name } => {
            let mut out: Vec<char> = Vec::new();
            extend_str(&mut out, name.as_str());
            extend_str(&mut out, ": ");
            extend_str(&mut out, uri.as_str());
            extend_str(&mut out, " (");
            match mime_type {
                Some(m) => extend_str(&mut out, m.as_str()),
                None => extend_str(&mut out, UNKNOWN_VALUE),
            }
            extend_str(&mut out, ")\n");
            let ghost line = name@ + ": "@ + uri@ + " ("@ + or_default(*mime_type, UNKNOWN_VALUE@)
                + ")\n"@;
            assert(out@ =~= line);
            let s = string_from_chars(out.as_slice());
            push_verbatim(chunks, s.as_str());
            assert(before.push(verb(line)) =~= before + content_chunks(*c));
        },
    }
}

fn push_contents(chunks: &mut Vec<Chunk>, cs: &Vec<McpContent>)
    ensures
        chunk_views(final(chunks)@) == chunk_views(old(chunks)@) + contents_chunks(cs@),
{
    let ghost start = chunk_views(chunks@);
    let mut i: usize = 0;
    assert(start + contents_chunks(cs@.take(0)) =~= start);
    while i < cs.len()
        invariant
            i <= cs@.len(),
            chunk_views(chunks@) == start + contents_chunks(cs@.take(i as int)),
        decreases cs@.len() - i,
    {
        assert(cs@.take(i + 1).drop_last() =~= cs@.take(i as int));
        assert(cs@.take(i + 1).last() == cs@[i as int]);
        let ghost mid = chunk_views(chunks@);
        push_verbatim(chunks, "- ");
        push_content(chunks, &cs[i]);
        assert(mid.push(verb("- "@)) + content_chunks(cs@[i as int]) =~= start + contents_chunks(
            cs@.take(i + 1),
        ));
        i = i + 1;
    }
    assert(cs@.take(cs@.len() as int) =~= cs@);
}

// ---------------------------------------------------------------------------
// Inputs
// ---------------------------------------------------------------------------

/// The line that reports a cancelled action.
pub open spec fn cancelled_line() -> Seq<ChunkView> {
    txt_line("agent_sdk.driver.output.cancelled"@)
}

/// A message with one `error` argument on a line of its own.
pub open spec fn error_line(key: Seq<char>, error: Seq<char>) -> Seq<ChunkView> {
    msg_line(key, seq![("error"@, error)])
}

/// Whether the driver has no report for a result: a codebase search that was
/// cancelled is never reported to it.
pub open spec fn is_cancelled_codebase_search(r: AIAgentActionResultType) -> bool {
    r matches AIAgentActionResultType::SearchCodebase(SearchCodebaseResult::Cancelled)
}

/// Whether the driver has a report for an input (see [`is_cancelled_codebase_search`]).
pub open spec fn input_reportable(input: AIAgentInput) -> bool {
    match input {
        AIAgentInput::ActionResult(r) => !is_cancelled_codebase_search(r),
        AIAgentInput::Query => true,
    }
}

/// The report of an action result; the action itself was shown just before.
pub open spec fn action_result_chunks(r: AIAgentActionResultType) -> Seq<ChunkView> {
    match r {
        AIAgentActionResultType::RequestCommandOutput(res) => match res {
            RequestCommandOutputResult::Completed { command, output, exit_code } => msg_line(
                "agent_sdk.driver.output.command_completed"@,
                seq![
                    ("output"@, output@),
                    ("command"@, command@),
                    ("exit_code"@, decimal_spec(exit_code as int)),
                ],
            ),
            RequestCommandOutputResult::LongRunningCommandSnapshot { command } => msg_line(
                "agent_sdk.driver.output.command_still_running_named"@,
                seq![("command"@, command@)],
            ),
            RequestCommandOutputResult::CancelledBeforeExecution => cancelled_line(),
            RequestCommandOutputResult::Denylisted => txt_line(
                "agent_sdk.driver.output.command_denylisted"@,
            ),
        },
        AIAgentActionResultType::WriteToLongRunningShellCommand(res) => match res {
            WriteToLongRunningShellCommandResult::Snapshot => txt_line(
                "agent_sdk.driver.output.command_still_running"@,
            ),
            WriteToLongRunningShellCommandResult::CommandFinished { output, exit_code } => msg_line(
                "agent_sdk.driver.output.command_finished"@,
                seq![("output"@, output@), ("exit_code"@, decimal_spec(exit_code as int))],
            ),
            WriteToLongRunningShellCommandResult::Cancelled => cancelled_line(),
            WriteToLongRunningShellCommandResult::Error => txt_line(
                "agent_sdk.driver.output.command_write_failed"@,
            ),
        },
        AIAgentActionResultType::RequestFileEdits(res) => match res {
            RequestFileEditsResult::Success { diff, updated_files, deleted_files } => msg_line(
                "agent_sdk.driver.output.files_updated_deleted"@,
                seq![
                    ("updated_count"@, decimal_spec(updated_files.len() as int)),
                    ("deleted_count"@, decimal_spec(deleted_files.len() as int)),
                    ("diff"@, diff@),
                ],
            ),
            RequestFileEditsResult::Cancelled => cancelled_line(),
            RequestFileEditsResult::DiffApplicationFailed { error } => error_line(
                "agent_sdk.driver.output.file_edits_failed"@,
                error@,
            ),
        },
        AIAgentActionResultType::ReadFiles(res) => match res {
            ReadFilesResult::Success { .. } => Seq::empty(),
            ReadFilesResult::Error(error) => error_line(
                "agent_sdk.driver.output.read_files_failed"@,
                error@,
            ),
            ReadFilesResult::Cancelled => cancelled_line(),
        },
        AIAgentActionResultType::UploadArtifact(res) => match res {
            UploadArtifactResult::Success { artifact_uid, filepath, .. } => match filepath {
                Some(fp) => msg_line(
                    "agent_sdk.driver.output.uploaded_artifact_from"@,
                    seq![("artifact_uid"@, artifact_uid@), ("filepath"@, fp@)],
                ),
                None => msg_line(
                    "agent_sdk.driver.output.uploaded_artifact"@,
                    seq![("artifact_uid"@, artifact_uid@)],
                ),
            },
            UploadArtifactResult::Error(error) => error_line(
                "agent_sdk.driver.output.upload_artifact_failed"@,
                error@,
            ),
            UploadArtifactResult::Cancelled => cancelled_line(),
        },
        AIAgentActionResultType::SearchCodebase(res) => match res {
            SearchCodebaseResult::Success { files } => txt_line(
                "agent_sdk.driver.output.codebase_search_results"@,
            ) + seq![verb(bullet_lines(file_context_displays(files@)))],
            SearchCodebaseResult::Failed { message } => msg_line(
                "agent_sdk.driver.output.search_codebase_failed"@,
                seq![("message"@, message@)],
            ),
            SearchCodebaseResult::Cancelled => Seq::empty(),
        },
        AIAgentActionResultType::Grep(res) => match res {
            GrepResult::Success { matched_files } => seq![
                verb(bullet_lines(grep_match_displays(matched_files@))),
            ],
            GrepResult::Error(error) => error_line("agent_sdk.driver.output.grep_failed"@, error@),
            GrepResult::Cancelled => cancelled_line(),
        },
        AIAgentActionResultType::FileGlob(res) => match res {
            FileGlobResult::Success { matched_files } => verb_line(matched_files@),
            FileGlobResult::Error(error) => error_line("agent_sdk.driver.output.find_failed"@, error@),
            FileGlobResult::Cancelled => cancelled_line(),
        },
        AIAgentActionResultType::FileGlobV2(res) => match res {
            FileGlobV2Result::Success { matched_files } => seq![
                verb(bullet_lines(glob_match_displays(matched_files@))),
            ],
            FileGlobV2Result::Error(error) => error_line(
                "agent_sdk.driver.output.find_failed"@,
                error@,
            ),
            FileGlobV2Result::Cancelled => cancelled_line(),
        },
        AIAgentActionResultType::ReadMCPResource(res) => match res {
            ReadMCPResourceResult::Success { resource_contents, .. } => seq![
                verb(resources_text(resource_contents@)),
            ],
            ReadMCPResourceResult::Error(error) => error_line(
                "agent_sdk.driver.output.read_mcp_resource_failed"@,
                error@,
            ),
            ReadMCPResourceResult::Cancelled => cancelled_line(),
        },
        AIAgentActionResultType::CallMCPTool(res) => match res {
            CallMCPToolResult::Success { content, .. } => contents_chunks(content@),
            CallMCPToolResult::Error(error) => error_line(
                "agent_sdk.driver.output.call_mcp_tool_failed"@,
                error@,
            ),
            CallMCPToolResult::Cancelled => cancelled_line(),
        },
        AIAgentActionResultType::ReadSkill(res) => match res {
            ReadSkillResult::Success { file_name } => msg_line(
                "agent_sdk.driver.output.skill_read_successfully"@,
                seq![("file_name"@, file_name@)],
            ),
            ReadSkillResult::Error(error) => error_line(
                "agent_sdk.driver.output.skill_read_error"@,
                error@,
            ),
            ReadSkillResult::Cancelled => cancelled_line(),
        },
        AIAgentActionResultType::SuggestNewConversation(res) => match res {
            SuggestNewConversationResult::Cancelled => cancelled_line(),
            _ => Seq::empty(),
        },
        AIAgentActionResultType::SuggestPrompt(res) => match res {
            SuggestPromptResult::Cancelled => cancelled_line(),
            _ => Seq::empty(),
        },
        AIAgentActionResultType::UseComputer(res) => match res {
            UseComputerResult::Success => Seq::empty(),
            UseComputerResult::Error(error) => error_line(
                "agent_sdk.driver.output.use_computer_error"@,
                error@,
            ),
            UseComputerResult::Cancelled => cancelled_line(),
        },
        AIAgentActionResultType::FetchConversation(res) => match res {
            FetchConversationResult::Success { directory_path } => msg_line(
                "agent_sdk.driver.output.fetched_conversation"@,
                seq![("directory_path"@, directory_path@)],
            ),
            FetchConversationResult::Error(error) => error_line(
                "agent_sdk.driver.output.fetch_conversation_error"@,
                error@,
            ),
            FetchConversationResult::Cancelled => cancelled_line(),
        },
        AIAgentActionResultType::Unreported => Seq::empty(),
    }
}

/// The report of an input: action results are reported, queries are not
/// (the caller already has them).
pub open spec fn input_chunks(input: AIAgentInput) -> Seq<ChunkView> {
    match input {
        AIAgentInput::ActionResult(r) => action_result_chunks(r),
        AIAgentInput::Query => Seq::empty(),
    }
}

fn push_cancelled(chunks: &mut Vec<Chunk>)
    ensures
        chunk_views(final(chunks)@) == chunk_views(old(chunks)@) + cancelled_line(),
{
    push_text_line(chunks, "agent_sdk.driver.output.cancelled");
}

fn push_error_line(chunks: &mut Vec<Chunk>, key: &str, error: &str)
    ensures
        chunk_views(final(chunks)@) == chunk_views(old(chunks)@) + error_line(key@, error@),
{
    push_msg_line(chunks, key, args1("error", error));
}

fn empty_chunks() -> (cs: Vec<Chunk>)
    ensures
        chunk_views(cs@) == Seq::<ChunkView>::empty(),
{
    let cs: Vec<Chunk> = Vec::new();
    assert(chunk_views(cs@) =~= Seq::<ChunkView>::empty());
    cs
}

/// Lays out the report of an action result (see [`action_result_chunks`]).
pub fn action_result_report(r: &AIAgentActionResultType) -> (cs: Vec<Chunk>)
    requires
        !is_cancelled_codebase_search(*r),
    ensures
        chunk_views(cs@) == action_result_chunks(*r),
{
    let mut cs = empty_chunks();
    let ghost e = chunk_views(cs@);
    match r {
        AIAgentActionResultType::RequestCommandOutput(res) => match res {
            RequestCommandOutputResult::Completed { command, output, exit_code } => {
                let ec = i64_to_decimal(*exit_code as i64);
                push_msg_line(
                    &mut cs,
                    "agent_sdk.driver.output.command_completed",
                    args3("output", output.as_str(), "command", command.as_str(), "exit_code", ec.as_str()),
                );
            },
            RequestCommandOutputResult::LongRunningCommandSnapshot { command } => {
                push_msg_line(
                    &mut cs,
                    "agent_sdk.driver.output.command_still_running_named",
                    args1("command", command.as_str()),
                );
            },
            RequestCommandOutputResult::CancelledBeforeExecution => push_cancelled(&mut cs),
            RequestCommandOutputResult::Denylisted => {
                push_text_line(&mut cs, "agent_sdk.driver.output.command_denylisted");
            },
        },
        AIAgentActionResultType::WriteToLongRunningShellCommand(res) => match res {
            WriteToLongRunningShellCommandResult::Snapshot => {
                push_text_line(&mut cs, "agent_sdk.driver.output.command_still_running");
            },
            WriteToLongRunningShellCommandResult::CommandFinished { output, exit_code } => {
                let ec = i64_to_decimal(*exit_code as i64);
                push_msg_line(
                    &mut cs,
                    "agent_sdk.driver.output.command_finished",
                    args2("output", output.as_str(), "exit_code", ec.as_str()),
                );
            },
            WriteToLongRunningShellCommandResult::Cancelled => push_cancelled(&mut cs),
            WriteToLongRunningShellCommandResult::Error => {
                push_text_line(&mut cs, "agent_sdk.driver.output.command_write_failed");
            },
        },
        AIAgentActionResultType::RequestFileEdits(res) => match res {
            RequestFileEditsResult::Success { diff, updated_files, deleted_files } => {
                let uc = u64_to_decimal(updated_files.len() as u64);
                let dc = u64_to_decimal(deleted_files.len() as u64);
                push_msg_line(
                    &mut cs,
                    "agent_sdk.driver.output.files_updated_deleted",
                    args3("updated_count", uc.as_str(), "deleted_count", dc.as_str(), "diff", diff.as_str()),
                );
            },
            RequestFileEditsResult::Cancelled => push_cancelled(&mut cs),
            RequestFileEditsResult::DiffApplicationFailed { error } => {
                push_error_line(&mut cs, "agent_sdk.driver.output.file_edits_failed", error.as_str());
            },
        },
        AIAgentActionResultType::ReadFiles(res) => match res {
            ReadFilesResult::Success { .. } => {},
            ReadFilesResult::Error(error) => {
                push_error_line(&mut cs, "agent_sdk.driver.output.read_files_failed", error.as_str());
            },
            ReadFilesResult::Cancelled => push_cancelled(&mut cs),
        },
        AIAgentActionResultType::UploadArtifact(res) => match res {
            UploadArtifactResult::Success { artifact_uid, filepath, .. } => match filepath {
                Some(fp) => {
                    push_msg_line(
                        &mut cs,
                        "agent_sdk.driver.output.uploaded_artifact_from",
                        args2("artifact_uid", artifact_uid.as_str(), "filepath", fp.as_str()),
                    );
                },
                None => {
                    push_msg_line(
                        &mut cs,
                        "agent_sdk.driver.output.uploaded_artifact",
                        args1("artifact_uid", artifact_uid.as_str()),
                    );
                },
            },
            UploadArtifactResult::Error(error) => {
                push_error_line(&mut cs, "agent_sdk.driver.output.upload_artifact_failed", error.as_str());
            },
            UploadArtifactResult::Cancelled => push_cancelled(&mut cs),
        },
        AIAgentActionResultType::SearchCodebase(res) => match res {
            SearchCodebaseResult::Success { files } => {
                push_text_line(&mut cs, "agent_sdk.driver.output.codebase_search_results");
                let list = bullet_lines_of(&file_context_display_list(files));
                push_verbatim(&mut cs, list.as_str());
            },
            SearchCodebaseResult::Failed { message } => {
                push_msg_line(
                    &mut cs,
                    "agent_sdk.driver.output.search_codebase_failed",
                    args1("message", message.as_str()),
                );
            },
            SearchCodebaseResult::Cancelled => {},
        },
        AIAgentActionResultType::Grep(res) => match res {
            GrepResult::Success { matched_files } => {
                let list = bullet_lines_of(&grep_match_display_list(matched_files));
                push_verbatim(&mut cs, list.as_str());
            },
            GrepResult::Error(error) => {
                push_error_line(&mut cs, "agent_sdk.driver.output.grep_failed", error.as_str());
            },
            GrepResult::Cancelled => push_cancelled(&mut cs),
        },
        AIAgentActionResultType::FileGlob(res) => match res {
            FileGlobResult::Success { matched_files } => {
                push_verbatim_line(&mut cs, matched_files.as_str());
            },
            FileGlobResult::Error(error) => {
                push_error_line(&mut cs, "agent_sdk.driver.output.find_failed", error.as_str());
            },
            FileGlobResult::Cancelled => push_cancelled(&mut cs),
        },
        AIAgentActionResultType::FileGlobV2(res) => match res {
            FileGlobV2Result::Success { matched_files } => {
                let list = bullet_lines_of(&glob_match_display_list(matched_files));
                push_verbatim(&mut cs, list.as_str());
            },
            FileGlobV2Result::Error(error) => {
                push_error_line(&mut cs, "agent_sdk.driver.output.find_failed", error.as_str());
            },
            FileGlobV2Result::Cancelled => push_cancelled(&mut cs),
        },
        AIAgentActionResultType::ReadMCPResource(res) => match res {
            ReadMCPResourceResult::Success { resource_contents, .. } => {
                let t = resources_text_exec(resource_contents);
                push_verbatim(&mut cs, t.as_str());
            },
            ReadMCPResourceResult::Error(error) => {
                push_error_line(
                    &mut cs,
                    "agent_sdk.driver.output.read_mcp_resource_failed",
                    error.as_str(),
                );
            },
            ReadMCPResourceResult::Cancelled => push_cancelled(&mut cs),
        },
        AIAgentActionResultType::CallMCPTool(res) => match res {
            CallMCPToolResult::Success { content, .. } => {
                push_contents(&mut cs, content);
            },
            CallMCPToolResult::Error(error) => {
                push_error_line(&mut cs, "agent_sdk.driver.output.call_mcp_tool_failed", error.as_str());
            },
            CallMCPToolResult::Cancelled => push_cancelled(&mut cs),
        },
        AIAgentActionResultType::ReadSkill(res) => match res {
            ReadSkillResult::Success { file_name } => {
                push_msg_line(
                    &mut cs,
                    "agent_sdk.driver.output.skill_read_successfully",
                    args1("file_name", file_name.as_str()),
                );
            },
            ReadSkillResult::Error(error) => {
                push_error_line(&mut cs, "agent_sdk.driver.output.skill_read_error", error.as_str());
            },
            ReadSkillResult::Cancelled => push_cancelled(&mut cs),
        },
        AIAgentActionResultType::SuggestNewConversation(res) => match res {
            SuggestNewConversationResult::Cancelled => push_cancelled(&mut cs),
            _ => {},
        },
        AIAgentActionResultType::SuggestPrompt(res) => match res {
            SuggestPromptResult::Cancelled => push_cancelled(&mut cs),
            _ => {},
        },
        AIAgentActionResultType::UseComputer(res) => match res {
            UseComputerResult::Success => {},
            UseComputerResult::Error(error) => {
                push_error_line(&mut cs, "agent_sdk.driver.output.use_computer_error", error.as_str());
            },
            UseComputerResult::Cancelled => push_cancelled(&mut cs),
        },
        AIAgentActionResultType::FetchConversation(res) => match res {
            FetchConversationResult::Success { directory_path } => {
                push_msg_line(
                    &mut cs,
                    "agent_sdk.driver.output.fetched_conversation",
                    args1("directory_path", directory_path.as_str()),
                );
            },
            FetchConversationResult::Error(error) => {
                push_error_line(
                    &mut cs,
                    "agent_sdk.driver.output.fetch_conversation_error",
                    error.as_str(),
                );
            },
            FetchConversationResult::Cancelled => push_cancelled(&mut cs),
        },
        AIAgentActionResultType::Unreported => {},
    }
    assert(chunk_views(cs@) =~= action_result_chunks(*r));
    cs
}

/// The text report of an input for `locale`; `Err` when a catalog template
/// names a placeholder that the report does not supply.
pub fn format_input_for_locale(
    input: &AIAgentInput,
    catalogs: &CatalogBundle,
    locale: LocaleId,
) -> (r: Result<String, PlaceholderError>)
    requires
        input_reportable(*input),
    ensures
        match r {
            Ok(s) => render_chunks_spec(*catalogs, locale, input_chunks(*input)) == Some(s@),
            Err(_) => render_chunks_spec(*catalogs, locale, input_chunks(*input)) is None,
        },
{
    let cs = match input {
        AIAgentInput::ActionResult(res) => action_result_report(res),
        AIAgentInput::Query => empty_chunks(),
    };
    render_chunks(catalogs, locale, &cs)
}

/// The text report of an input in US English (see [`format_input_for_locale`]).
pub fn format_input(input: &AIAgentInput, catalogs: &CatalogBundle) -> (r: Result<
    String,
    PlaceholderError,
>)
    requires
        input_reportable(*input),
    ensures
        match r {
            Ok(s) => render_chunks_spec(*catalogs, LocaleId::EnUs, input_chunks(*input)) == Some(
                s@,
            ),
            Err(_) => render_chunks_spec(*catalogs, LocaleId::EnUs, input_chunks(*input)) is None,
        },
{
    format_input_for_locale(input, catalogs, LocaleId::EnUs)
}


// ---------------------------------------------------------------------------
// Outputs
// ---------------------------------------------------------------------------

/// The report of an action the agent asks for. Where the action names no
/// codebase or directory, the catalog's words for the codebase or the
/// current directory stand in.
pub open spec fn action_chunks(b: CatalogBundle, locale: LocaleId, a: AIAgentActionType) -> Seq<ChunkView> {
    match a {
        AIAgentActionType::RequestCommandOutput { command } => msg_line(
            "agent_sdk.driver.output.running_command"@,
            seq![("command"@, command@)],
        ),
        AIAgentActionType::WriteToLongRunningShellCommand { input } => msg_line(
            "agent_sdk.driver.output.write_bytes_to_command"@,
            seq![("byte_count"@, decimal_spec(input.len() as int))],
        ),
        AIAgentActionType::ReadFiles { locations } => msg_line(
            "agent_sdk.driver.output.reading"@,
            seq![("locations"@, join_spec(location_names(locations@), ", "@))],
        ),
        AIAgentActionType::UploadArtifact { file_path, .. } => msg_line(
            "agent_sdk.driver.output.uploading_artifact"@,
            seq![("file_path"@, file_path@)],
        ),
        AIAgentActionType::SearchCodebase { query, codebase_path } => msg_line(
            "agent_sdk.driver.output.searching_codebase"@,
            seq![
                ("codebase_path"@, or_default(
                    codebase_path,
                    text_spec(b, locale, "agent_sdk.driver.output.codebase"@),
                )),
                ("query"@, query@),
            ],
        ),
        AIAgentActionType::RequestFileEdits { file_edits, title } => seq![
            txt("agent_sdk.driver.output.editing_files"@),
            verb(
                match title {
                    Some(t) => " "@ + t@,
                    None => Seq::empty(),
                },
            ),
            verb("\n"@),
            verb(bullet_lines(distinct_edit_files(file_edits@))),
        ],
        AIAgentActionType::Grep { queries, path } => msg_line(
            "agent_sdk.driver.output.grepping_for_in"@,
            seq![("queries"@, format_queries_spec(string_views(queries@))), ("path"@, path@)],
        ),
        AIAgentActionType::FileGlob { patterns, path } => msg_line(
            "agent_sdk.driver.output.finding_files"@,
            seq![
                ("patterns"@, format_queries_spec(string_views(patterns@))),
                ("path"@, or_default(
                    path,
                    text_spec(b, locale, "agent_sdk.driver.output.current_directory"@),
                )),
            ],
        ),
        AIAgentActionType::FileGlobV2 { patterns, search_dir } => msg_line(
            "agent_sdk.driver.output.finding_files"@,
            seq![
                ("patterns"@, format_queries_spec(string_views(patterns@))),
                ("path"@, or_default(
                    search_dir,
                    text_spec(b, locale, "agent_sdk.driver.output.current_directory"@),
                )),
            ],
        ),
        AIAgentActionType::ReadMCPResource { name, uri } => match uri {
            Some(u) => msg_line(
                "agent_sdk.driver.output.reading_mcp_resource_uri"@,
                seq![("uri"@, u@)],
            ),
            None => msg_line(
                "agent_sdk.driver.output.reading_mcp_resource_name"@,
                seq![("name"@, name@)],
            ),
        },
        AIAgentActionType::CallMCPTool { name, input_pretty, .. } => msg_line(
            "agent_sdk.driver.output.mcp_tool_call"@,
            seq![("name"@, name@), ("input"@, input_pretty@)],
        ),
        AIAgentActionType::UseComputer { action_summary } => msg_line(
            "agent_sdk.driver.output.computer_use_action"@,
            seq![("action_summary"@, action_summary@)],
        ),
        AIAgentActionType::RequestComputerUse { task_summary } => msg_line(
            "agent_sdk.driver.output.requesting_computer_use"@,
            seq![("task_summary"@, task_summary@)],
        ),
        AIAgentActionType::StartRecording => txt_line("agent_sdk.driver.output.starting_recording"@),
        AIAgentActionType::StopRecording { recording_id, should_persist } => if should_persist {
            msg_line(
                "agent_sdk.driver.output.stopping_recording"@,
                seq![("recording_id"@, recording_id@)],
            )
        } else {
            msg_line(
                "agent_sdk.driver.output.stopping_recording_discarded"@,
                seq![("recording_id"@, recording_id@)],
            )
        },
        AIAgentActionType::ReadSkill { skill } => msg_line(
            "agent_sdk.driver.output.reading_skill"@,
            seq![("skill"@, skill@)],
        ),
        AIAgentActionType::FetchConversation { conversation_id } => msg_line(
            "agent_sdk.driver.output.fetching_conversation"@,
            seq![("conversation_id"@, conversation_id@)],
        ),
        AIAgentActionType::SendMessageToAgent { addresses, subject } => msg_line(
            "agent_sdk.driver.output.sending_message_to"@,
            seq![("addresses"@, join_spec(string_views(addresses@), ", "@)), ("subject"@, subject@)],
        ),
        AIAgentActionType::Unreported => Seq::empty(),
    }
}

/// The report of one output message.
pub open spec fn output_message_chunks(
    b: CatalogBundle,
    locale: LocaleId,
    m: AIAgentOutputMessageType,
) -> Seq<ChunkView> {
    match m {
        AIAgentOutputMessageType::Text(t) => seq![verb(agent_text_spec(t))],
        AIAgentOutputMessageType::Reasoning(t) => seq![verb(agent_text_spec(t))],
        AIAgentOutputMessageType::Summarization(t) => seq![verb(agent_text_spec(t))],
        AIAgentOutputMessageType::Action(a) => action_chunks(b, locale, a),
        AIAgentOutputMessageType::TodoOperation(op) => match op {
            TodoOperation::UpdateTodos { todos } => txt_line(
                "agent_sdk.driver.output.updated_todo_list"@,
            ) + seq![verb(todo_lines(todos@))],
            TodoOperation::MarkAsCompleted { completed_todos } => txt_line(
                "agent_sdk.driver.output.completed_todos"@,
            ) + seq![verb(todo_lines(completed_todos@))],
        },
        AIAgentOutputMessageType::Subagent { display, .. } => verb_line(display@),
        AIAgentOutputMessageType::WebSearch(status) => match status {
            WebSearchStatus::Searching { query } => match query {
                Some(q) => msg_line("agent_sdk.driver.output.searching_web_for"@, seq![("query"@, q@)]),
                None => txt_line("agent_sdk.driver.output.searching_web"@),
            },
            WebSearchStatus::Success { query, page_count } => msg_line(
                "agent_sdk.driver.output.searched_web_for"@,
                seq![("query"@, query@), ("count"@, decimal_spec(page_count as int))],
            ),
            WebSearchStatus::Error { query } => msg_line(
                "agent_sdk.driver.output.web_search_failed_for"@,
                seq![("query"@, query@)],
            ),
        },
        AIAgentOutputMessageType::WebFetch(status) => match status {
            WebFetchStatus::Fetching { url_count } => msg_line(
                "agent_sdk.driver.output.fetching_web_pages"@,
                seq![("count"@, decimal_spec(url_count as int))],
            ),
            WebFetchStatus::Success { page_count } => msg_line(
                "agent_sdk.driver.output.fetched_web_pages"@,
                seq![("count"@, decimal_spec(page_count as int))],
            ),
            WebFetchStatus::Error => txt_line("agent_sdk.driver.output.web_fetch_failed"@),
        },
        AIAgentOutputMessageType::CommentsAddressed { comments } => msg_line(
            "agent_sdk.driver.output.addressed_comments"@,
            seq![("count"@, decimal_spec(comments.len() as int))],
        ),
        AIAgentOutputMessageType::DebugOutput { text } => verb_line("[DEBUG] "@ + text@),
        AIAgentOutputMessageType::ArtifactCreated(data) => match data {
            ArtifactCreatedData::PullRequest { url, branch } => msg_line(
                "agent_sdk.driver.output.created_pr"@,
                seq![("url"@, url@), ("branch"@, branch@)],
            ),
            ArtifactCreatedData::Screenshot { artifact_uid, .. } => msg_line(
                "agent_sdk.driver.output.screenshot_captured"@,
                seq![("artifact_uid"@, artifact_uid@)],
            ),
            ArtifactCreatedData::File { artifact_uid, filepath, .. } => msg_line(
                "agent_sdk.driver.output.file_artifact_uploaded"@,
                seq![("filepath"@, filepath@), ("artifact_uid"@, artifact_uid@)],
            ),
        },
        AIAgentOutputMessageType::SkillInvoked { name } => msg_line(
            "agent_sdk.driver.output.skill_read"@,
            seq![("name"@, name@)],
        ),
        AIAgentOutputMessageType::MessagesReceivedFromAgents { message_count } => msg_line(
            "agent_sdk.driver.output.received_messages"@,
            seq![("count"@, decimal_spec(message_count as int))],
        ),
        AIAgentOutputMessageType::EventsFromAgents { event_count } => msg_line(
            "agent_sdk.driver.output.received_agent_events"@,
            seq![("count"@, decimal_spec(event_count as int))],
        ),
    }
}

/// The report of an output: each message's report in order.
pub open spec fn output_chunks(b: CatalogBundle, locale: LocaleId, ms: Seq<AIAgentOutputMessageType>) -> Seq<
    ChunkView,
>
    decreases ms.len(),
{
    if ms.len() == 0 {
        Seq::empty()
    } else {
        output_chunks(b, locale, ms.drop_last()) + output_message_chunks(b, locale, ms.last())
    }
}

fn push_count_line(chunks: &mut Vec<Chunk>, key: &str, count: usize)
    ensures
        chunk_views(final(chunks)@) == chunk_views(old(chunks)@) + msg_line(
            key@,
            seq![("count"@, decimal_spec(count as int))],
        ),
{
    let c = u64_to_decimal(count as u64);
    push_msg_line(chunks, key, args1("count", c.as_str()));
}

fn or_text(o: &Option<String>, catalogs: &CatalogBundle, locale: LocaleId, key: &str) -> (r: String)
    ensures
        r@ == or_default(*o, text_spec(*catalogs, locale, key@)),
{
    match o {
        Some(s) => s.clone(),
        None => catalogs.text(locale, key),
    }
}

fn push_action(chunks: &mut Vec<Chunk>, catalogs: &CatalogBundle, locale: LocaleId, a: &AIAgentActionType)
    ensures
        chunk_views(final(chunks)@) == chunk_views(old(chunks)@) + action_chunks(*catalogs, locale, *a),
{
    let ghost before = chunk_views(chunks@);
    match a {
        AIAgentActionType::RequestCommandOutput { command } => {
            push_msg_line(chunks, "agent_sdk.driver.output.running_command", args1("command", command.as_str()));
        },
        AIAgentActionType::WriteToLongRunningShellCommand { input } => {
            let n = u64_to_decimal(input.len() as u64);
            push_msg_line(chunks, "agent_sdk.driver.output.write_bytes_to_command", args1("byte_count", n.as_str()));
        },
        AIAgentActionType::ReadFiles { locations } => {
            let names = join(&location_name_list(locations), ", ");
            push_msg_line(chunks, "agent_sdk.driver.output.reading", args1("locations", names.as_str()));
        },
        AIAgentActionType::UploadArtifact { file_path, .. } => {
            push_msg_line(chunks, "agent_sdk.driver.output.uploading_artifact", args1("file_path", file_path.as_str()));
        },
        AIAgentActionType::SearchCodebase { query, codebase_path } => {
            let cp = or_text(codebase_path, catalogs, locale, "agent_sdk.driver.output.codebase");
            push_msg_line(
                chunks,
                "agent_sdk.driver.output.searching_codebase",
                args2("codebase_path", cp.as_str(), "query", query.as_str()),
            );
        },
        AIAgentActionType::RequestFileEdits { file_edits, title } => {
            push_text(chunks, "agent_sdk.driver.output.editing_files");
            let mut t: Vec<char> = Vec::new();
            match title {
                Some(tt) => {
                    extend_str(&mut t, " ");
                    extend_str(&mut t, tt.as_str());
                },
                None => {},
            }
            let ts = string_from_chars(t.as_slice());
            push_verbatim(chunks, ts.as_str());
            push_verbatim(chunks, "\n");
            let list = bullet_lines_of(&distinct_edit_file_list(file_edits));
            push_verbatim(chunks, list.as_str());
            assert(ts@ =~= match *title {
                Some(tt) => " "@ + tt@,
                None => Seq::empty(),
            });
        },
        AIAgentActionType::Grep { queries, path } => {
            let q = format_queries(queries);
            push_msg_line(chunks, "agent_sdk.driver.output.grepping_for_in", args2("queries", q.as_str(), "path", path.as_str()));
        },
        AIAgentActionType::FileGlob { patterns, path } => {
            let q = format_queries(patterns);
            let p = or_text(path, catalogs, locale, "agent_sdk.driver.output.current_directory");
            push_msg_line(chunks, "agent_sdk.driver.output.finding_files", args2("patterns", q.as_str(), "path", p.as_str()));
        },
        AIAgentActionType::FileGlobV2 { patterns, search_dir } => {
            let q = format_queries(patterns);
            let p = or_text(search_dir, catalogs, locale, "agent_sdk.driver.output.current_directory");
            push_msg_line(chunks, "agent_sdk.driver.output.finding_files", args2("patterns", q.as_str(), "path", p.as_str()));
        },
        AIAgentActionType::ReadMCPResource { name, uri } => match uri {
            Some(u) => {
                push_msg_line(chunks, "agent_sdk.driver.output.reading_mcp_resource_uri", args1("uri", u.as_str()));
            },
            None => {
                push_msg_line(chunks, "agent_sdk.driver.output.reading_mcp_resource_name", args1("name", name.as_str()));
            },
        },
        AIAgentActionType::CallMCPTool { name, input_pretty, .. } => {
            push_msg_line(
                chunks,
                "agent_sdk.driver.output.mcp_tool_call",
                args2("name", name.as_str(), "input", input_pretty.as_str()),
            );
        },
        AIAgentActionType::UseComputer { action_summary } => {
            push_msg_line(
                chunks,
                "agent_sdk.driver.output.computer_use_action",
                args1("action_summary", action_summary.as_str()),
            );
        },
        AIAgentActionType::RequestComputerUse { task_summary } => {
            push_msg_line(
                chunks,
                "agent_sdk.driver.output.requesting_computer_use",
                args1("task_summary", task_summary.as_str()),
            );
        },
        AIAgentActionType::StartRecording => {
            push_text_line(chunks, "agent_sdk.driver.output.starting_recording");
        },
        AIAgentActionType::StopRecording { recording_id, should_persist } => {
            if *should_persist {
                push_msg_line(
                    chunks,
                    "agent_sdk.driver.output.stopping_recording",
                    args1("recording_id", recording_id.as_str()),
                );
            } else {
                push_msg_line(
                    chunks,
                    "agent_sdk.driver.output.stopping_recording_discarded",
                    args1("recording_id", recording_id.as_str()),
                );
            }
        },
        AIAgentActionType::ReadSkill { skill } => {
            push_msg_line(chunks, "agent_sdk.driver.output.reading_skill", args1("skill", skill.as_str()));
        },
        AIAgentActionType::FetchConversation { conversation_id } => {
            push_msg_line(
                chunks,
                "agent_sdk.driver.output.fetching_conversation",
                args1("conversation_id", conversation_id.as_str()),
            );
        },
        AIAgentActionType::SendMessageToAgent { addresses, subject } => {
            let a = join(addresses, ", ");
            push_msg_line(
                chunks,
                "agent_sdk.driver.output.sending_message_to",
                args2("addresses", a.as_str(), "subject", subject.as_str()),
            );
        },
        AIAgentActionType::Unreported => {},
    }
    assert(chunk_views(chunks@) =~= before + action_chunks(*catalogs, locale, *a));
}

fn push_output_message(
    chunks: &mut Vec<Chunk>,
    catalogs: &CatalogBundle,
    locale: LocaleId,
    m: &AIAgentOutputMessageType,
)
    ensures
        chunk_views(final(chunks)@) == chunk_views(old(chunks)@) + output_message_chunks(
            *catalogs,
            locale,
            *m,
        ),
{
    let ghost before = chunk_views(chunks@);
    match m {
        AIAgentOutputMessageType::Text(t) => {
            let s = format_agent_text(t);
            push_verbatim(chunks, s.as_str());
        },
        AIAgentOutputMessageType::Reasoning(t) => {
            let s = format_agent_text(t);
            push_verbatim(chunks, s.as_str());
        },
        AIAgentOutputMessageType::Summarization(t) => {
            let s = format_agent_text(t);
            push_verbatim(chunks, s.as_str());
        },
        AIAgentOutputMessageType::Action(a) => {
            push_action(chunks, catalogs, locale, a);
        },
        AIAgentOutputMessageType::TodoOperation(op) => match op {
            TodoOperation::UpdateTodos { todos } => {
                push_text_line(chunks, "agent_sdk.driver.output.updated_todo_list");
                let s = format_todos(todos);
                push_verbatim(chunks, s.as_str());
            },
            TodoOperation::MarkAsCompleted { completed_todos } => {
                push_text_line(chunks, "agent_sdk.driver.output.completed_todos");
                let s = format_todos(completed_todos);
                push_verbatim(chunks, s.as_str());
            },
        },
        AIAgentOutputMessageType::Subagent { display, .. } => {
            push_verbatim_line(chunks, display.as_str());
        },
        AIAgentOutputMessageType::WebSearch(status) => match status {
            WebSearchStatus::Searching { query } => match query {
                Some(q) => {
                    push_msg_line(chunks, "agent_sdk.driver.output.searching_web_for", args1("query", q.as_str()));
                },
                None => {
                    push_text_line(chunks, "agent_sdk.driver.output.searching_web");
                },
            },
            WebSearchStatus::Success { query, page_count } => {
                let c = u64_to_decimal(*page_count as u64);
                push_msg_line(
                    chunks,
                    "agent_sdk.driver.output.searched_web_for",
                    args2("query", query.as_str(), "count", c.as_str()),
                );
            },
            WebSearchStatus::Error { query } => {
                push_msg_line(chunks, "agent_sdk.driver.output.web_search_failed_for", args1("query", query.as_str()));
            },
        },
        AIAgentOutputMessageType::WebFetch(status) => match status {
            WebFetchStatus::Fetching { url_count } => {
                push_count_line(chunks, "agent_sdk.driver.output.fetching_web_pages", *url_count);
            },
            WebFetchStatus::Success { page_count } => {
                push_count_line(chunks, "agent_sdk.driver.output.fetched_web_pages", *page_count);
            },
            WebFetchStatus::Error => {
                push_text_line(chunks, "agent_sdk.driver.output.web_fetch_failed");
            },
        },
        AIAgentOutputMessageType::CommentsAddressed { comments } => {
            push_count_line(chunks, "agent_sdk.driver.output.addressed_comments", comments.len());
        },
        AIAgentOutputMessageType::DebugOutput { text } => {
            let mut t: Vec<char> = Vec::new();
            extend_str(&mut t, "[DEBUG] ");
            extend_str(&mut t, text.as_str());
            let ts = string_from_chars(t.as_slice());
            push_verbatim_line(chunks, ts.as_str());
        },
        AIAgentOutputMessageType::ArtifactCreated(data) => match data {
            ArtifactCreatedData::PullRequest { url, branch } => {
                push_msg_line(
                    chunks,
                    "agent_sdk.driver.output.created_pr",
                    args2("url", url.as_str(), "branch", branch.as_str()),
                );
            },
            ArtifactCreatedData::Screenshot { artifact_uid, .. } => {
                push_msg_line(
                    chunks,
                    "agent_sdk.driver.output.screenshot_captured",
                    args1("artifact_uid", artifact_uid.as_str()),
                );
            },
            ArtifactCreatedData::File { artifact_uid, filepath, .. } => {
                push_msg_line(
                    chunks,
                    "agent_sdk.driver.output.file_artifact_uploaded",
                    args2("filepath", filepath.as_str(), "artifact_uid", artifact_uid.as_str()),
                );
            },
        },
        AIAgentOutputMessageType::SkillInvoked { name } => {
            push_msg_line(chunks, "agent_sdk.driver.output.skill_read", args1("name", name.as_str()));
        },
        AIAgentOutputMessageType::MessagesReceivedFromAgents { message_count } => {
            push_count_line(chunks, "agent_sdk.driver.output.received_messages", *message_count);
        },
        AIAgentOutputMessageType::EventsFromAgents { event_count } => {
            push_count_line(chunks, "agent_sdk.driver.output.received_agent_events", *event_count);
        },
    }
    assert(chunk_views(chunks@) =~= before + output_message_chunks(*catalogs, locale, *m));
}

/// Lays out the report of an output (see [`output_chunks`]).
pub fn output_report(output: &AIAgentOutput, catalogs: &CatalogBundle, locale: LocaleId) -> (cs: Vec<Chunk>)
    ensures
        chunk_views(cs@) == output_chunks(*catalogs, locale, output.messages@),
{
    let ghost ms = output.messages@;
    let mut cs = empty_chunks();
    let mut i: usize = 0;
    while i < output.messages.len()
        invariant
            ms == output.messages@,
            i <= ms.len(),
            chunk_views(cs@) == output_chunks(*catalogs, locale, ms.take(i as int)),
        decreases ms.len() - i,
    {
        assert(ms.take(i + 1).drop_last() =~= ms.take(i as int));
        assert(ms.take(i + 1).last() == ms[i as int]);
        push_output_message(&mut cs, catalogs, locale, &output.messages[i]);
        i = i + 1;
    }
    assert(ms.take(ms.len() as int) =~= ms);
    cs
}

/// The text report of an output for `locale`; `Err` when a catalog template
/// names a placeholder that the report does not supply.
pub fn format_output_for_locale(
    output: &AIAgentOutput,
    catalogs: &CatalogBundle,
    locale: LocaleId,
) -> (r: Result<String, PlaceholderError>)
    ensures
        match r {
            Ok(s) => render_chunks_spec(*catalogs, locale, output_chunks(*catalogs, locale, output.messages@))
                == Some(s@),
            Err(_) => render_chunks_spec(*catalogs, locale, output_chunks(*catalogs, locale, output.messages@)) is None,
        },
{
    let cs = output_report(output, catalogs, locale);
    render_chunks(catalogs, locale, &cs)
}

/// The text report of an output in US English (see [`format_output_for_locale`]).
pub fn format_output(output: &AIAgentOutput, catalogs: &CatalogBundle) -> (r: Result<
    String,
    PlaceholderError,
>)
    ensures
        match r {
            Ok(s) => render_chunks_spec(
                *catalogs,
                LocaleId::EnUs,
                output_chunks(*catalogs, LocaleId::EnUs, output.messages@),
            ) == Some(s@),
            Err(_) => render_chunks_spec(
                *catalogs,
                LocaleId::EnUs,
                output_chunks(*catalogs, LocaleId::EnUs, output.messages@),
            ) is None,
        },
{
    format_output_for_locale(output, catalogs, LocaleId::EnUs)
}

// ---------------------------------------------------------------------------
// System events
// ---------------------------------------------------------------------------

/// Renders a single message line.
fn render_message_line(
    catalogs: &CatalogBundle,
    locale: LocaleId,
    key: &str,
    args: Vec<(String, String)>,
) -> (r: Result<String, PlaceholderError>)
    ensures
        match r {
            Ok(s) => render_chunks_spec(*catalogs, locale, msg_line(key@, crate::template::pairs_view(args@))) == Some(s@),
            Err(_) => render_chunks_spec(*catalogs, locale, msg_line(key@, crate::template::pairs_view(args@))) is None,
        },
{
    let ghost a = crate::template::pairs_view(args@);
    let mut cs = empty_chunks();
    push_msg_line(&mut cs, key, args);
    assert(chunk_views(cs@) =~= msg_line(key@, a));
    render_chunks(catalogs, locale, &cs)
}

/// The report that a conversation started, with its id for troubleshooting.
pub fn conversation_started_for_locale(
    conversation_id: &str,
    catalogs: &CatalogBundle,
    locale: LocaleId,
) -> (r: Result<String, PlaceholderError>)
    ensures
        match r {
            Ok(s) => render_chunks_spec(*catalogs, locale, msg_line(
                "agent_sdk.driver.output.conversation_started"@,
                seq![("conversation_id"@, conversation_id@)],
            )) == Some(s@),
            Err(_) => render_chunks_spec(*catalogs, locale, msg_line(
                "agent_sdk.driver.output.conversation_started"@,
                seq![("conversation_id"@, conversation_id@)],
            )) is None,
        },
{
    render_message_line(
        catalogs,
        locale,
        "agent_sdk.driver.output.conversation_started",
        args1("conversation_id", conversation_id),
    )
}

/// [`conversation_started_for_locale`] in US English.
pub fn conversation_started(conversation_id: &str, catalogs: &CatalogBundle) -> (r: Result<
    String,
    PlaceholderError,
>)
    ensures
        match r {
            Ok(s) => render_chunks_spec(*catalogs, LocaleId::EnUs, msg_line(
                "agent_sdk.driver.output.conversation_started"@,
                seq![("conversation_id"@, conversation_id@)],
            )) == Some(s@),
            Err(_) => render_chunks_spec(*catalogs, LocaleId::EnUs, msg_line(
                "agent_sdk.driver.output.conversation_started"@,
                seq![("conversation_id"@, conversation_id@)],
            )) is None,
        },
{
    conversation_started_for_locale(conversation_id, catalogs, LocaleId::EnUs)
}

/// The report of a run: its id, then a link to it on the Oz dashboard under `oz_root_url`.
pub open spec fn run_started_chunks(oz_root_url: Seq<char>, run_id: Seq<char>) -> Seq<ChunkView> {
    msg_line("agent_sdk.driver.output.run_id"@, seq![("run_id"@, run_id)]) + msg_line(
        "agent_sdk.driver.output.open_in_oz"@,
        seq![("run_url"@, run_url_spec(oz_root_url, run_id))],
    )
}

/// The report that a run started (see [`run_started_chunks`]).
pub fn run_started_for_locale(
    run_id: &str,
    oz_root_url: &str,
    catalogs: &CatalogBundle,
    locale: LocaleId,
) -> (r: Result<String, PlaceholderError>)
    ensures
        match r {
            Ok(s) => render_chunks_spec(*catalogs, locale, run_started_chunks(oz_root_url@, run_id@))
                == Some(s@),
            Err(_) => render_chunks_spec(*catalogs, locale, run_started_chunks(oz_root_url@, run_id@)) is None,
        },
{
    let url = run_url(oz_root_url, run_id);
    let mut cs = empty_chunks();
    push_msg_line(&mut cs, "agent_sdk.driver.output.run_id", args1("run_id", run_id));
    push_msg_line(&mut cs, "agent_sdk.driver.output.open_in_oz", args1("run_url", url.as_str()));
    assert(chunk_views(cs@) =~= run_started_chunks(oz_root_url@, run_id@));
    render_chunks(catalogs, locale, &cs)
}

/// [`run_started_for_locale`] in US English.
pub fn run_started(run_id: &str, oz_root_url: &str, catalogs: &CatalogBundle) -> (r: Result<
    String,
    PlaceholderError,
>)
    ensures
        match r {
            Ok(s) => render_chunks_spec(*catalogs, LocaleId::EnUs, run_started_chunks(oz_root_url@, run_id@))
                == Some(s@),
            Err(_) => render_chunks_spec(*catalogs, LocaleId::EnUs, run_started_chunks(oz_root_url@, run_id@))
                is None,
        },
{
    run_started_for_locale(run_id, oz_root_url, catalogs, LocaleId::EnUs)
}

/// The report that a shared session is established, with the link to join it.
pub fn shared_session_established_for_locale(
    join_url: &str,
    catalogs: &CatalogBundle,
    locale: LocaleId,
) -> (r: Result<String, PlaceholderError>)
    ensures
        match r {
            Ok(s) => render_chunks_spec(*catalogs, locale, msg_line(
                "agent_sdk.driver.output.sharing_session_at"@,
                seq![("join_url"@, join_url@)],
            )) == Some(s@),
            Err(_) => render_chunks_spec(*catalogs, locale, msg_line(
                "agent_sdk.driver.output.sharing_session_at"@,
                seq![("join_url"@, join_url@)],
            )) is None,
        },
{
    render_message_line(
        catalogs,
        locale,
        "agent_sdk.driver.output.sharing_session_at",
        args1("join_url", join_url),
    )
}

/// [`shared_session_established_for_locale`] in US English.
pub fn shared_session_established(join_url: &str, catalogs: &CatalogBundle) -> (r: Result<
    String,
    PlaceholderError,
>)
    ensures
        match r {
            Ok(s) => render_chunks_spec(*catalogs, LocaleId::EnUs, msg_line(
                "agent_sdk.driver.output.sharing_session_at"@,
                seq![("join_url"@, join_url@)],
            )) == Some(s@),
            Err(_) => render_chunks_spec(*catalogs, LocaleId::EnUs, msg_line(
                "agent_sdk.driver.output.sharing_session_at"@,
                seq![("join_url"@, join_url@)],
            )) is None,
        },
{
    shared_session_established_for_locale(join_url, catalogs, LocaleId::EnUs)
}

/// The report that a plan was created: its title, document id and notebook link.
pub open spec fn plan_created_chunks(
    document_id: Seq<char>,
    notebook_link: Seq<char>,
    title: Seq<char>,
) -> Seq<ChunkView> {
    msg_line(
        "agent_sdk.driver.output.created_plan"@,
        seq![("title"@, title), ("document_id"@, document_id), ("notebook_link"@, notebook_link)],
    )
}

/// The report that a plan was created (see [`plan_created_chunks`]).
pub fn plan_artifact_created_for_locale(
    document_id: &str,
    notebook_link: &str,
    title: &str,
    catalogs: &CatalogBundle,
    locale: LocaleId,
) -> (r: Result<String, PlaceholderError>)
    ensures
        match r {
            Ok(s) => render_chunks_spec(*catalogs, locale, plan_created_chunks(document_id@, notebook_link@, title@))
                == Some(s@),
            Err(_) => render_chunks_spec(*catalogs, locale, plan_created_chunks(document_id@, notebook_link@, title@))
                is None,
        },
{
    render_message_line(
        catalogs,
        locale,
        "agent_sdk.driver.output.created_plan",
        args3("title", title, "document_id", document_id, "notebook_link", notebook_link),
    )
}

/// [`plan_artifact_created_for_locale`] in US English.
pub fn plan_artifact_created(
    document_id: &str,
    notebook_link: &str,
    title: &str,
    catalogs: &CatalogBundle,
) -> (r: Result<String, PlaceholderError>)
    ensures
        match r {
            Ok(s) => render_chunks_spec(*catalogs, LocaleId::EnUs, plan_created_chunks(document_id@, notebook_link@, title@))
                == Some(s@),
            Err(_) => render_chunks_spec(*catalogs, LocaleId::EnUs, plan_created_chunks(document_id@, notebook_link@, title@))
                is None,
        },
{
    plan_artifact_created_for_locale(document_id, notebook_link, title, catalogs, LocaleId::EnUs)
}

/// A successful file edit is reported by the `files_updated_deleted`
/// message, whose `updated_count` is the number of updated files, whose
/// `deleted_count` is the number of deleted files, and whose `diff` is the
/// diff.
pub proof fn law_file_edit_report_counts_files(
    diff: String,
    updated_files: Vec<String>,
    deleted_files: Vec<String>,
)
    ensures
        ({
            let cs = action_result_chunks(
                AIAgentActionResultType::RequestFileEdits(
                    RequestFileEditsResult::Success { diff, updated_files, deleted_files },
                ),
            );
            &&& cs.len() == 2
            &&& cs[0] matches ChunkView::Message(key, args)
            &&& key == "agent_sdk.driver.output.files_updated_deleted"@
            &&& lookup_arg(args, "updated_count"@) == Some(decimal_spec(updated_files.len() as int))
            &&& lookup_arg(args, "deleted_count"@) == Some(decimal_spec(deleted_files.len() as int))
            &&& lookup_arg(args, "diff"@) == Some(diff@)
        }),
{
    reveal_strlit("updated_count");
    reveal_strlit("deleted_count");
    reveal_strlit("diff");
    assert("updated_count"@[0] != "deleted_count"@[0]);
    assert("diff"@.len() != "updated_count"@.len());
    assert("diff"@.len() != "deleted_count"@.len());
    let args = seq![
        ("updated_count"@, decimal_spec(updated_files.len() as int)),
        ("deleted_count"@, decimal_spec(deleted_files.len() as int)),
        ("diff"@, diff@),
    ];
    let rest = seq![("deleted_count"@, decimal_spec(deleted_files.len() as int)), ("diff"@, diff@)];
    let last = seq![("diff"@, diff@)];
    assert(args.drop_first() =~= rest);
    assert(rest.drop_first() =~= last);
    assert(lookup_arg(last, "diff"@) == Some(diff@));
    assert(lookup_arg(rest, "diff"@) == Some(diff@));
    assert(lookup_arg(args, "diff"@) == Some(diff@));
    assert(lookup_arg(rest, "deleted_count"@) == Some(decimal_spec(deleted_files.len() as int)));
    assert(lookup_arg(args, "deleted_count"@) == Some(decimal_spec(deleted_files.len() as int)));
}

} // verus!
