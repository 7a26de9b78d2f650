//! The machine-readable report of a conversation: one JSON object per line,
//! a stable interface for callers that does not follow the internal types
//! one for one. Messages that callers do not need produce no line.
//!
//! Strings are quoted by `serde_json`; objects and arrays are framed here, with
//! their fields in a fixed order and no spaces.

use vstd::prelude::*;

use crate::agent::{
    AIAgentActionResultType, AIAgentActionType, AIAgentInput, AIAgentOutput,
    AIAgentOutputMessageType, AIAgentTodo, ArtifactCreatedData, CallMCPToolResult, FileContext,
    FileGlobMatch, FileGlobResult, FileGlobV2Result, FileLocation, GrepFileMatch, GrepResult,
    ReadFilesFailedFile, ReadFilesResult, ReadMCPResourceResult, RequestCommandOutputResult,
    RequestFileEditsResult, ReviewComment, SearchCodebaseResult, TodoOperation,
    UploadArtifactResult, WriteToLongRunningShellCommandResult,
};
use crate::localization::{text_spec, CatalogBundle, LocaleId};
use crate::output::{agent_text_spec, format_agent_text, run_url, run_url_spec};
use crate::output::text::{join_spec, string_views};
use crate::text::{
    chars_of, decimal_spec, extend_chars, extend_str, i64_to_decimal, is_whitespace_spec,
    split_chars, split_spec, string_from_chars, trim_chars, trim_spec, u64_to_decimal,
};

verus! {

// ---------------------------------------------------------------------------
// JSON text
// ---------------------------------------------------------------------------

/// A lower-case hexadecimal digit.
pub open spec fn hex_digit(n: nat) -> char {
    if n == 10 {
        'a'
    } else if n == 11 {
        'b'
    } else if n == 12 {
        'c'
    } else if n == 13 {
        'd'
    } else if n == 14 {
        'e'
    } else if n == 15 {
        'f'
    } else {
        crate::text::digit_char(n)
    }
}

/// How a character stands inside a JSON string: `"` and `\` and the control
/// characters below U+0020 are escaped (by their short escape where JSON has
/// one, else as `\u00XX`); every other character stands for itself.
pub open spec fn json_escape_char(c: char) -> Seq<char> {
    let n = c as u32;
    if c == '"' {
        seq!['\\', '"']
    } else if c == '\\' {
        seq!['\\', '\\']
    } else if n == 8 {
        seq!['\\', 'b']
    } else if n == 9 {
        seq!['\\', 't']
    } else if n == 10 {
        seq!['\\', 'n']
    } else if n == 12 {
        seq!['\\', 'f']
    } else if n == 13 {
        seq!['\\', 'r']
    } else if n < 32 {
        seq!['\\', 'u', '0', '0', hex_digit((n / 16) as nat), hex_digit((n % 16) as nat)]
    } else {
        seq![c]
    }
}

pub open spec fn json_escape(s: Seq<char>) -> Seq<char>
    decreases s.len(),
{
    if s.len() == 0 {
        Seq::empty()
    } else {
        json_escape(s.drop_last()) + json_escape_char(s.last())
    }
}

/// `s` as a JSON string: quoted, with its characters escaped.
pub open spec fn json_quoted(s: Seq<char>) -> Seq<char> {
    seq!['"'] + json_escape(s) + seq!['"']
}

/// `serde_json::to_string` on a `str`: the JSON string that stands for `s`,
/// quoted and escaped as [`json_quoted`] states (serde_json's escape table:
/// `"`, `\`, and the bytes below 0x20, with `\b \t \n \f \r` where they apply
/// and `\u00XX` in lower-case hex otherwise). Serializing a `str` does not fail.
#[verifier::external_body]
fn json_string(s: &str) -> (r: String)
    ensures
        r@ == json_quoted(s@),
{
    serde_json::to_string(s).unwrap_or_default()
}

/// A field of a JSON object.
pub open spec fn jfield(name: Seq<char>, value: Seq<char>) -> Seq<char> {
    json_quoted(name) + ":"@ + value
}

/// A JSON object with the given fields, in order.
pub open spec fn jobject(fields: Seq<Seq<char>>) -> Seq<char> {
    "{"@ + join_spec(fields, ","@) + "}"@
}

/// A JSON array of the given items, in order.
pub open spec fn jarray(items: Seq<Seq<char>>) -> Seq<char> {
    "["@ + join_spec(items, ","@) + "]"@
}

/// A string field.
pub open spec fn jstr_field(name: Seq<char>, value: Seq<char>) -> Seq<char> {
    jfield(name, json_quoted(value))
}

/// An optional string: the string, or `null`.
pub open spec fn jopt_str(o: Option<String>) -> Seq<char> {
    match o {
        Some(s) => json_quoted(s@),
        None => "null"@,
    }
}

/// The field only where the value is present.
pub open spec fn jopt_field(name: Seq<char>, o: Option<String>) -> Seq<Seq<char>> {
    match o {
        Some(s) => seq![jstr_field(name, s@)],
        None => Seq::empty(),
    }
}

pub open spec fn char_views(v: Seq<Vec<char>>) -> Seq<Seq<char>> {
    v.map_values(|x: Vec<char>| x@)
}

fn join_parts(items: &Vec<Vec<char>>, sep: &str) -> (r: Vec<char>)
    ensures
        r@ == join_spec(char_views(items@), sep@),
{
    let ghost all = char_views(items@);
    let mut out: Vec<char> = Vec::new();
    let mut i: usize = 0;
    while i < items.len()
        invariant
            all == char_views(items@),
            i <= items@.len(),
            out@ == join_spec(all.take(i as int), sep@),
        decreases items@.len() - i,
    {
        assert(all.take(i + 1).drop_last() =~= all.take(i as int));
        if i > 0 {
            extend_str(&mut out, sep);
        }
        extend_chars(&mut out, items[i].as_slice());
        proof {
            if i == 0 {
                assert(out@ =~= join_spec(all.take(1), sep@));
            }
        }
        i = i + 1;
    }
    assert(all.take(items@.len() as int) =~= all);
    out
}

/// Frames the fields as a JSON object.
fn object(fields: &Vec<Vec<char>>) -> (r: Vec<char>)
    ensures
        r@ == jobject(char_views(fields@)),
{
    let mut out: Vec<char> = Vec::new();
    extend_str(&mut out, "{");
    let inner = join_parts(fields, ",");
    extend_chars(&mut out, inner.as_slice());
    extend_str(&mut out, "}");
    out
}

/// Frames the items as a JSON array.
fn array(items: &Vec<Vec<char>>) -> (r: Vec<char>)
    ensures
        r@ == jarray(char_views(items@)),
{
    let mut out: Vec<char> = Vec::new();
    extend_str(&mut out, "[");
    let inner = join_parts(items, ",");
    extend_chars(&mut out, inner.as_slice());
    extend_str(&mut out, "]");
    out
}

fn quoted(s: &str) -> (r: Vec<char>)
    ensures
        r@ == json_quoted(s@),
{
    let q = json_string(s);
    chars_of(q.as_str())
}

/// Adds a field whose value is JSON text.
fn push_field(fields: &mut Vec<Vec<char>>, name: &str, value: Vec<char>)
    ensures
        char_views(final(fields)@) == char_views(old(fields)@).push(jfield(name@, value@)),
{
    let ghost before = fields@;
    let mut f = quoted(name);
    extend_str(&mut f, ":");
    extend_chars(&mut f, value.as_slice());
    fields.push(f);
    assert(char_views(fields@) =~= char_views(before).push(jfield(name@, value@)));
}

/// Adds a string field.
fn push_str_field(fields: &mut Vec<Vec<char>>, name: &str, value: &str)
    ensures
        char_views(final(fields)@) == char_views(old(fields)@).push(jstr_field(name@, value@)),
{
    push_field(fields, name, quoted(value));
}

/// Adds a field holding a string or `null`.
fn push_opt_str_field(fields: &mut Vec<Vec<char>>, name: &str, value: &Option<String>)
    ensures
        char_views(final(fields)@) == char_views(old(fields)@).push(jfield(name@, jopt_str(*value))),
{
    match value {
        Some(s) => push_field(fields, name, quoted(s.as_str())),
        None => {
            let mut n: Vec<char> = Vec::new();
            extend_str(&mut n, "null");
            push_field(fields, name, n);
        },
    }
}

/// Adds a string field where the value is present.
fn push_skip_none_field(fields: &mut Vec<Vec<char>>, name: &str, value: &Option<String>)
    ensures
        char_views(final(fields)@) == char_views(old(fields)@) + jopt_field(name@, *value),
{
    let ghost before = char_views(fields@);
    match value {
        Some(s) => push_str_field(fields, name, s.as_str()),
        None => {},
    }
    assert(char_views(fields@) =~= before + jopt_field(name@, *value));
}

fn decimal_chars_i64(n: i64) -> (r: Vec<char>)
    ensures
        r@ == decimal_spec(n as int),
{
    let d = i64_to_decimal(n);
    chars_of(d.as_str())
}

fn decimal_chars_usize(n: usize) -> (r: Vec<char>)
    ensures
        r@ == decimal_spec(n as int),
{
    let d = u64_to_decimal(n as u64);
    chars_of(d.as_str())
}

fn no_fields() -> (f: Vec<Vec<char>>)
    ensures
        char_views(f@) == Seq::<Seq<char>>::empty(),
{
    let f: Vec<Vec<char>> = Vec::new();
    assert(char_views(f@) =~= Seq::<Seq<char>>::empty());
    f
}

// ---------------------------------------------------------------------------
// Files, todos, comments
// ---------------------------------------------------------------------------

/// A line range `start..end`.
pub open spec fn range_json(r: (usize, usize)) -> Seq<char> {
    jobject(seq![jfield("start"@, decimal_spec(r.0 as int)), jfield("end"@, decimal_spec(r.1 as int))])
}

pub open spec fn ranges_json(rs: Seq<(usize, usize)>) -> Seq<Seq<char>> {
    rs.map_values(|r: (usize, usize)| range_json(r))
}

/// A file with its line ranges; `lines` only where there are any.
pub open spec fn file_json(path: Seq<char>, lines: Seq<(usize, usize)>) -> Seq<char> {
    jobject(
        seq![jstr_field("path"@, path)] + if lines.len() == 0 {
            Seq::<Seq<char>>::empty()
        } else {
            seq![jfield("lines"@, jarray(ranges_json(lines)))]
        },
    )
}

/// The line ranges of a file context: its range, if it has one.
pub open spec fn context_lines(f: FileContext) -> Seq<(usize, usize)> {
    match f.line_range {
        Some(r) => seq![r],
        None => Seq::empty(),
    }
}

pub open spec fn file_contexts_json(fs: Seq<FileContext>) -> Seq<Seq<char>> {
    fs.map_values(|f: FileContext| file_json(f.file_name@, context_lines(f)))
}

pub open spec fn locations_json(ls: Seq<FileLocation>) -> Seq<Seq<char>> {
    ls.map_values(|l: FileLocation| file_json(l.name@, l.lines@))
}

/// The one-line range of a matched line: `n..n+1`, the end saturating at the
/// largest `usize`.
pub open spec fn matched_line_range(n: usize) -> (usize, usize) {
    (n, if n == usize::MAX { n } else { (n + 1) as usize })
}

pub open spec fn grep_lines(ns: Seq<usize>) -> Seq<(usize, usize)> {
    ns.map_values(|n: usize| matched_line_range(n))
}

pub open spec fn grep_matches_json(ms: Seq<GrepFileMatch>) -> Seq<Seq<char>> {
    ms.map_values(|m: GrepFileMatch| file_json(m.file_path@, grep_lines(m.line_numbers@)))
}

pub open spec fn glob_matches_json(ms: Seq<FileGlobMatch>) -> Seq<Seq<char>> {
    ms.map_values(|m: FileGlobMatch| file_json(m.file_path@, Seq::empty()))
}

pub open spec fn failed_files_json(fs: Seq<ReadFilesFailedFile>) -> Seq<Seq<char>> {
    fs.map_values(
        |f: ReadFilesFailedFile|
            jobject(seq![jstr_field("path"@, f.path@), jstr_field("message"@, f.message@)]),
    )
}

pub open spec fn todos_json(ts: Seq<AIAgentTodo>) -> Seq<Seq<char>> {
    ts.map_values(
        |t: AIAgentTodo|
            jobject(seq![jstr_field("title"@, t.title@), jstr_field("description"@, t.description@)]),
    )
}

/// An optional number: the number, or `null`.
pub open spec fn jopt_usize(o: Option<usize>) -> Seq<char> {
    match o {
        Some(n) => decimal_spec(n as int),
        None => "null"@,
    }
}

pub open spec fn comment_json(c: ReviewComment) -> Seq<char> {
    jobject(
        seq![
            jstr_field("comment_text"@, c.content@),
            jfield("file_path"@, jopt_str(c.file_path)),
            jfield("line_number"@, jopt_usize(c.line_number)),
            jfield("head_title"@, jopt_str(c.head_title)),
        ],
    )
}

pub open spec fn comments_json(cs: Seq<ReviewComment>) -> Seq<Seq<char>> {
    cs.map_values(|c: ReviewComment| comment_json(c))
}

/// The paths that a file-glob listing names: its lines, trimmed, without the empty ones.
pub open spec fn listed_paths(pieces: Seq<Seq<char>>) -> Seq<Seq<char>>
    decreases pieces.len(),
{
    if pieces.len() == 0 {
        Seq::empty()
    } else {
        let front = listed_paths(pieces.drop_last());
        let p = trim_spec(pieces.last());
        if p.len() == 0 {
            front
        } else {
            front.push(p)
        }
    }
}

pub open spec fn paths_json(ps: Seq<Seq<char>>) -> Seq<Seq<char>> {
    ps.map_values(|p: Seq<char>| file_json(p, Seq::empty()))
}

fn file_json_exec(path: &str, lines: &Vec<(usize, usize)>) -> (r: Vec<char>)
    ensures
        r@ == file_json(path@, lines@),
{
    let mut fields = no_fields();
    push_str_field(&mut fields, "path", path);
    if lines.len() > 0 {
        let mut items: Vec<Vec<char>> = Vec::new();
        let mut i: usize = 0;
        while i < lines.len()
            invariant
                i <= lines@.len(),
                char_views(items@) == ranges_json(lines@).take(i as int),
            decreases lines@.len() - i,
        {
            let (s, e) = lines[i];
            let mut rf = no_fields();
            push_field(&mut rf, "start", decimal_chars_usize(s));
            push_field(&mut rf, "end", decimal_chars_usize(e));
            let ghost before = items@;
            items.push(object(&rf));
            assert(char_views(rf@) =~= seq![
                jfield("start"@, decimal_spec(s as int)),
                jfield("end"@, decimal_spec(e as int)),
            ]);
            assert(char_views(items@) =~= char_views(before).push(range_json(lines@[i as int])));
            assert(ranges_json(lines@).take(i + 1) =~= ranges_json(lines@).take(i as int).push(
                range_json(lines@[i as int]),
            ));
            i = i + 1;
        }
        assert(ranges_json(lines@).take(lines@.len() as int) =~= ranges_json(lines@));
        push_field(&mut fields, "lines", array(&items));
        assert(char_views(fields@) =~= seq![jstr_field("path"@, path@)] + seq![
            jfield("lines"@, jarray(ranges_json(lines@))),
        ]);
    } else {
        assert(char_views(fields@) =~= seq![jstr_field("path"@, path@)] + Seq::<Seq<char>>::empty());
    }
    let r = object(&fields);
    assert(r@ =~= file_json(path@, lines@));
    r
}

fn file_contexts_json_exec(fs: &Vec<FileContext>) -> (r: Vec<char>)
    ensures
        r@ == jarray(file_contexts_json(fs@)),
{
    let mut items: Vec<Vec<char>> = Vec::new();
    let mut i: usize = 0;
    while i < fs.len()
        invariant
            i <= fs@.len(),
            char_views(items@) == file_contexts_json(fs@).take(i as int),
        decreases fs@.len() - i,
    {
        let mut lines: Vec<(usize, usize)> = Vec::new();
        match fs[i].line_range {
            Some(r) => lines.push(r),
            None => {},
        }
        assert(lines@ =~= context_lines(fs@[i as int]));
        let ghost before = items@;
        items.push(file_json_exec(fs[i].file_name.as_str(), &lines));
        assert(char_views(items@) =~= char_views(before).push(file_contexts_json(fs@)[i as int]));
        assert(file_contexts_json(fs@).take(i + 1) =~= file_contexts_json(fs@).take(i as int).push(
            file_contexts_json(fs@)[i as int],
        ));
        i = i + 1;
    }
    assert(file_contexts_json(fs@).take(fs@.len() as int) =~= file_contexts_json(fs@));
    array(&items)
}

fn locations_json_exec(ls: &Vec<FileLocation>) -> (r: Vec<char>)
    ensures
        r@ == jarray(locations_json(ls@)),
{
    let mut items: Vec<Vec<char>> = Vec::new();
    let mut i: usize = 0;
    while i < ls.len()
        invariant
            i <= ls@.len(),
            char_views(items@) == locations_json(ls@).take(i as int),
        decreases ls@.len() - i,
    {
        let ghost before = items@;
        items.push(file_json_exec(ls[i].name.as_str(), &ls[i].lines));
        assert(char_views(items@) =~= char_views(before).push(locations_json(ls@)[i as int]));
        assert(locations_json(ls@).take(i + 1) =~= locations_json(ls@).take(i as int).push(
            locations_json(ls@)[i as int],
        ));
        i = i + 1;
    }
    assert(locations_json(ls@).take(ls@.len() as int) =~= locations_json(ls@));
    array(&items)
}

fn grep_matches_json_exec(ms: &Vec<GrepFileMatch>) -> (r: Vec<char>)
    ensures
        r@ == jarray(grep_matches_json(ms@)),
{
    let mut items: Vec<Vec<char>> = Vec::new();
    let mut i: usize = 0;
    while i < ms.len()
        invariant
            i <= ms@.len(),
            char_views(items@) == grep_matches_json(ms@).take(i as int),
        decreases ms@.len() - i,
    {
        let ns = &ms[i].line_numbers;
        let mut lines: Vec<(usize, usize)> = Vec::new();
        let mut j: usize = 0;
        while j < ns.len()
            invariant
                j <= ns@.len(),
                lines@ == grep_lines(ns@).take(j as int),
            decreases ns@.len() - j,
        {
            let n = ns[j];
            lines.push((n, n.saturating_add(1)));
            assert(grep_lines(ns@).take(j + 1) =~= grep_lines(ns@).take(j as int).push(
                matched_line_range(n),
            ));
            j = j + 1;
        }
        assert(grep_lines(ns@).take(ns@.len() as int) =~= grep_lines(ns@));
        let ghost before = items@;
        items.push(file_json_exec(ms[i].file_path.as_str(), &lines));
        assert(char_views(items@) =~= char_views(before).push(grep_matches_json(ms@)[i as int]));
        assert(grep_matches_json(ms@).take(i + 1) =~= grep_matches_json(ms@).take(i as int).push(
            grep_matches_json(ms@)[i as int],
        ));
        i = i + 1;
    }
    assert(grep_matches_json(ms@).take(ms@.len() as int) =~= grep_matches_json(ms@));
    array(&items)
}

fn glob_matches_json_exec(ms: &Vec<FileGlobMatch>) -> (r: Vec<char>)
    ensures
        r@ == jarray(glob_matches_json(ms@)),
{
    let mut items: Vec<Vec<char>> = Vec::new();
    let mut i: usize = 0;
    let empty: Vec<(usize, usize)> = Vec::new();
    while i < ms.len()
        invariant
            i <= ms@.len(),
            empty@ == Seq::<(usize, usize)>::empty(),
            char_views(items@) == glob_matches_json(ms@).take(i as int),
        decreases ms@.len() - i,
    {
        let ghost before = items@;
        items.push(file_json_exec(ms[i].file_path.as_str(), &empty));
        assert(char_views(items@) =~= char_views(before).push(glob_matches_json(ms@)[i as int]));
        assert(glob_matches_json(ms@).take(i + 1) =~= glob_matches_json(ms@).take(i as int).push(
            glob_matches_json(ms@)[i as int],
        ));
        i = i + 1;
    }
    assert(glob_matches_json(ms@).take(ms@.len() as int) =~= glob_matches_json(ms@));
    array(&items)
}

fn listed_paths_json_exec(listing: &str) -> (r: Vec<char>)
    ensures
        r@ == jarray(paths_json(listed_paths(split_spec(listing@, '\n')))),
{
    let cs = chars_of(listing);
    let pieces = split_chars(cs.as_slice(), '\n');
    let ghost ps = split_spec(listing@, '\n');
    let mut items: Vec<Vec<char>> = Vec::new();
    let empty: Vec<(usize, usize)> = Vec::new();
    let mut i: usize = 0;
    while i < pieces.len()
        invariant
            ps == split_spec(listing@, '\n'),
            pieces@.len() == ps.len(),
            forall|k: int| 0 <= k < pieces@.len() ==> #[trigger] pieces@[k]@ == ps[k],
            i <= pieces@.len(),
            empty@ == Seq::<(usize, usize)>::empty(),
            char_views(items@) == paths_json(listed_paths(ps.take(i as int))),
        decreases pieces@.len() - i,
    {
        assert(ps.take(i + 1).drop_last() =~= ps.take(i as int));
        assert(ps.take(i + 1).last() == pieces@[i as int]@);
        let p = trim_chars(pieces[i].as_slice());
        if p.len() > 0 {
            let ps_str = string_from_chars(p.as_slice());
            let ghost before = items@;
            items.push(file_json_exec(ps_str.as_str(), &empty));
            assert(paths_json(listed_paths(ps.take(i + 1))) =~= paths_json(
                listed_paths(ps.take(i as int)),
            ).push(file_json(p@, Seq::empty())));
            assert(char_views(items@) =~= char_views(before).push(file_json(p@, Seq::empty())));
        } else {
            assert(listed_paths(ps.take(i + 1)) == listed_paths(ps.take(i as int)));
        }
        i = i + 1;
    }
    assert(ps.take(ps.len() as int) =~= ps);
    array(&items)
}

fn failed_files_json_exec(fs: &Vec<ReadFilesFailedFile>) -> (r: Vec<char>)
    ensures
        r@ == jarray(failed_files_json(fs@)),
{
    let mut items: Vec<Vec<char>> = Vec::new();
    let mut i: usize = 0;
    while i < fs.len()
        invariant
            i <= fs@.len(),
            char_views(items@) == failed_files_json(fs@).take(i as int),
        decreases fs@.len() - i,
    {
        let mut f = no_fields();
        push_str_field(&mut f, "path", fs[i].path.as_str());
        push_str_field(&mut f, "message", fs[i].message.as_str());
        assert(char_views(f@) =~= seq![
            jstr_field("path"@, fs@[i as int].path@),
            jstr_field("message"@, fs@[i as int].message@),
        ]);
        let ghost before = items@;
        items.push(object(&f));
        assert(char_views(items@) =~= char_views(before).push(failed_files_json(fs@)[i as int]));
        assert(failed_files_json(fs@).take(i + 1) =~= failed_files_json(fs@).take(i as int).push(
            failed_files_json(fs@)[i as int],
        ));
        i = i + 1;
    }
    assert(failed_files_json(fs@).take(fs@.len() as int) =~= failed_files_json(fs@));
    array(&items)
}

fn todos_json_exec(ts: &Vec<AIAgentTodo>) -> (r: Vec<char>)
    ensures
        r@ == jarray(todos_json(ts@)),
{
    let mut items: Vec<Vec<char>> = Vec::new();
    let mut i: usize = 0;
    while i < ts.len()
        invariant
            i <= ts@.len(),
            char_views(items@) == todos_json(ts@).take(i as int),
        decreases ts@.len() - i,
    {
        let mut f = no_fields();
        push_str_field(&mut f, "title", ts[i].title.as_str());
        push_str_field(&mut f, "description", ts[i].description.as_str());
        assert(char_views(f@) =~= seq![
            jstr_field("title"@, ts@[i as int].title@),
            jstr_field("description"@, ts@[i as int].description@),
        ]);
        let ghost before = items@;
        items.push(object(&f));
        assert(char_views(items@) =~= char_views(before).push(todos_json(ts@)[i as int]));
        assert(todos_json(ts@).take(i + 1) =~= todos_json(ts@).take(i as int).push(
            todos_json(ts@)[i as int],
        ));
        i = i + 1;
    }
    assert(todos_json(ts@).take(ts@.len() as int) =~= todos_json(ts@));
    array(&items)
}

fn comments_json_exec(cs: &Vec<ReviewComment>) -> (r: Vec<char>)
    ensures
        r@ == jarray(comments_json(cs@)),
{
    let mut items: Vec<Vec<char>> = Vec::new();
    let mut i: usize = 0;
    while i < cs.len()
        invariant
            i <= cs@.len(),
            char_views(items@) == comments_json(cs@).take(i as int),
        decreases cs@.len() - i,
    {
        let c = &cs[i];
        let mut f = no_fields();
        push_str_field(&mut f, "comment_text", c.content.as_str());
        push_opt_str_field(&mut f, "file_path", &c.file_path);
        let ln = match c.line_number {
            Some(n) => decimal_chars_usize(n),
            None => {
                let mut n: Vec<char> = Vec::new();
                extend_str(&mut n, "null");
                n
            },
        };
        assert(ln@ == jopt_usize(c.line_number));
        push_field(&mut f, "line_number", ln);
        push_opt_str_field(&mut f, "head_title", &c.head_title);
        assert(char_views(f@) =~= seq![
            jstr_field("comment_text"@, c.content@),
            jfield("file_path"@, jopt_str(c.file_path)),
            jfield("line_number"@, jopt_usize(c.line_number)),
            jfield("head_title"@, jopt_str(c.head_title)),
        ]);
        let ghost before = items@;
        items.push(object(&f));
        assert(char_views(items@) =~= char_views(before).push(comments_json(cs@)[i as int]));
        assert(comments_json(cs@).take(i + 1) =~= comments_json(cs@).take(i as int).push(
            comments_json(cs@)[i as int],
        ));
        i = i + 1;
    }
    assert(comments_json(cs@).take(cs@.len() as int) =~= comments_json(cs@));
    array(&items)
}

fn strings_json_exec(ss: &Vec<String>) -> (r: Vec<char>)
    ensures
        r@ == jarray(string_views(ss@).map_values(|s: Seq<char>| json_quoted(s))),
{
    let ghost want = string_views(ss@).map_values(|s: Seq<char>| json_quoted(s));
    let mut items: Vec<Vec<char>> = Vec::new();
    let mut i: usize = 0;
    while i < ss.len()
        invariant
            want == string_views(ss@).map_values(|s: Seq<char>| json_quoted(s)),
            i <= ss@.len(),
            char_views(items@) == want.take(i as int),
        decreases ss@.len() - i,
    {
        let ghost before = items@;
        items.push(quoted(ss[i].as_str()));
        assert(char_views(items@) =~= char_views(before).push(want[i as int]));
        assert(want.take(i + 1) =~= want.take(i as int).push(want[i as int]));
        i = i + 1;
    }
    assert(want.take(ss@.len() as int) =~= want);
    array(&items)
}

/// The files named by the edits, in order, where an edit names one.
pub open spec fn edit_files(edits: Seq<Option<String>>) -> Seq<Seq<char>>
    decreases edits.len(),
{
    if edits.len() == 0 {
        Seq::empty()
    } else {
        match edits.last() {
            Some(p) => edit_files(edits.drop_last()).push(p@),
            None => edit_files(edits.drop_last()),
        }
    }
}

fn edit_files_json_exec(edits: &Vec<Option<String>>) -> (r: Vec<char>)
    ensures
        r@ == jarray(edit_files(edits@).map_values(|s: Seq<char>| json_quoted(s))),
{
    let mut items: Vec<Vec<char>> = Vec::new();
    let mut i: usize = 0;
    while i < edits.len()
        invariant
            i <= edits@.len(),
            char_views(items@) == edit_files(edits@.take(i as int)).map_values(
                |s: Seq<char>| json_quoted(s),
            ),
        decreases edits@.len() - i,
    {
        assert(edits@.take(i + 1).drop_last() =~= edits@.take(i as int));
        assert(edits@.take(i + 1).last() == edits@[i as int]);
        match &edits[i] {
            Some(p) => {
                let ghost before = items@;
                let ghost prev = edit_files(edits@.take(i as int));
                items.push(quoted(p.as_str()));
                assert(edit_files(edits@.take(i + 1)) == prev.push(p@));
                assert(prev.push(p@).map_values(|s: Seq<char>| json_quoted(s)) =~= prev.map_values(
                    |s: Seq<char>| json_quoted(s),
                ).push(json_quoted(p@)));
                assert(char_views(items@) =~= char_views(before).push(json_quoted(p@)));
            },
            None => {
                assert(edit_files(edits@.take(i + 1)) == edit_files(edits@.take(i as int)));
            },
        }
        i = i + 1;
    }
    assert(edits@.take(edits@.len() as int) =~= edits@);
    array(&items)
}


// ---------------------------------------------------------------------------
// Messages
// ---------------------------------------------------------------------------

/// A message of the given `type`, with more fields after it.
pub open spec fn message(ty: Seq<char>, rest: Seq<Seq<char>>) -> Seq<char> {
    jobject(seq![jstr_field("type"@, ty)] + rest)
}

/// A tool result of the given `tool`, with more fields after it.
pub open spec fn tool_result(tool: Seq<char>, rest: Seq<Seq<char>>) -> Seq<char> {
    message("tool_result"@, seq![jstr_field("tool"@, tool)] + rest)
}

/// A tool call of the given `tool`, with more fields after it.
pub open spec fn tool_call(tool: Seq<char>, rest: Seq<Seq<char>>) -> Seq<char> {
    message("tool_call"@, seq![jstr_field("tool"@, tool)] + rest)
}

pub open spec fn tool_canceled() -> Seq<char> {
    message("tool_canceled"@, Seq::empty())
}

pub open spec fn tool_error(error: Seq<char>) -> Seq<char> {
    message("tool_error"@, seq![jstr_field("error"@, error)])
}

/// A finished command: its exit code and output.
pub open spec fn command_complete(exit_code: i32, output: Seq<char>) -> Seq<char> {
    tool_result(
        "run_command"@,
        seq![
            jstr_field("status"@, "complete"@),
            jfield("exit_code"@, decimal_spec(exit_code as int)),
            jstr_field("output"@, output),
        ],
    )
}

pub open spec fn command_running() -> Seq<char> {
    tool_result("run_command"@, seq![jstr_field("status"@, "running"@)])
}

/// The line of an action result, if it has one. The two errors that the
/// driver itself words are worded in US English.
pub open spec fn result_json(b: CatalogBundle, r: AIAgentActionResultType) -> Option<Seq<char>> {
    match r {
        AIAgentActionResultType::RequestCommandOutput(res) => Some(
            match res {
                RequestCommandOutputResult::Completed { output, exit_code, .. } => command_complete(
                    exit_code,
                    output@,
                ),
                RequestCommandOutputResult::LongRunningCommandSnapshot { .. } => command_running(),
                RequestCommandOutputResult::CancelledBeforeExecution => tool_canceled(),
                RequestCommandOutputResult::Denylisted => tool_error(
                    text_spec(b, LocaleId::EnUs, "agent_sdk.driver.output.command_denylisted"@),
                ),
            },
        ),
        AIAgentActionResultType::WriteToLongRunningShellCommand(res) => Some(
            match res {
                WriteToLongRunningShellCommandResult::Snapshot => command_running(),
                WriteToLongRunningShellCommandResult::CommandFinished { output, exit_code } => command_complete(
                    exit_code,
                    output@,
                ),
                WriteToLongRunningShellCommandResult::Error => tool_error(
                    text_spec(b, LocaleId::EnUs, "agent_sdk.driver.output.command_write_failed"@),
                ),
                WriteToLongRunningShellCommandResult::Cancelled => tool_canceled(),
            },
        ),
        AIAgentActionResultType::RequestFileEdits(res) => Some(
            match res {
                RequestFileEditsResult::Success { diff, .. } => tool_result(
                    "edit_files"@,
                    seq![jstr_field("diff"@, diff@)],
                ),
                RequestFileEditsResult::DiffApplicationFailed { error } => tool_error(error@),
                RequestFileEditsResult::Cancelled => tool_canceled(),
            },
        ),
        AIAgentActionResultType::ReadFiles(res) => Some(
            match res {
                ReadFilesResult::Success { files, failed_files } => tool_result(
                    "read_files"@,
                    seq![jfield("files"@, jarray(file_contexts_json(files@)))] + if failed_files.len()
                        == 0 {
                        Seq::<Seq<char>>::empty()
                    } else {
                        seq![jfield("failed_files"@, jarray(failed_files_json(failed_files@)))]
                    },
                ),
                ReadFilesResult::Error(error) => tool_error(error@),
                ReadFilesResult::Cancelled => tool_canceled(),
            },
        ),
        AIAgentActionResultType::UploadArtifact(res) => Some(
            match res {
                UploadArtifactResult::Success {
                    artifact_uid,
                    filepath,
                    mime_type,
                    description,
                    size_bytes,
                } => tool_result(
                    "upload_artifact"@,
                    seq![jstr_field("artifact_uid"@, artifact_uid@)] + jopt_field("filepath"@, filepath)
                        + seq![jstr_field("mime_type"@, mime_type@)] + jopt_field(
                        "description"@,
                        description,
                    ) + seq![jfield("size_bytes"@, decimal_spec(size_bytes as int))],
                ),
                UploadArtifactResult::Error(error) => tool_error(error@),
                UploadArtifactResult::Cancelled => tool_canceled(),
            },
        ),
        AIAgentActionResultType::SearchCodebase(res) => Some(
            match res {
                SearchCodebaseResult::Success { files } => tool_result(
                    "search_codebase"@,
                    seq![jfield("files"@, jarray(file_contexts_json(files@)))],
                ),
                SearchCodebaseResult::Failed { message } => tool_error(message@),
                SearchCodebaseResult::Cancelled => tool_canceled(),
            },
        ),
        AIAgentActionResultType::Grep(res) => Some(
            match res {
                GrepResult::Success { matched_files } => tool_result(
                    "grep"@,
                    seq![jfield("files"@, jarray(grep_matches_json(matched_files@)))],
                ),
                GrepResult::Error(error) => tool_error(error@),
                GrepResult::Cancelled => tool_canceled(),
            },
        ),
        AIAgentActionResultType::FileGlobV2(res) => Some(
            match res {
                FileGlobV2Result::Success { matched_files } => tool_result(
                    "file_glob"@,
                    seq![jfield("files"@, jarray(glob_matches_json(matched_files@)))],
                ),
                FileGlobV2Result::Error(error) => tool_error(error@),
                FileGlobV2Result::Cancelled => tool_canceled(),
            },
        ),
        AIAgentActionResultType::FileGlob(res) => Some(
            match res {
                FileGlobResult::Success { matched_files } => tool_result(
                    "file_glob"@,
                    seq![
                        jfield(
                            "files"@,
                            jarray(paths_json(listed_paths(split_spec(matched_files@, '\n')))),
                        ),
                    ],
                ),
                FileGlobResult::Error(error) => tool_error(error@),
                FileGlobResult::Cancelled => tool_canceled(),
            },
        ),
        AIAgentActionResultType::ReadMCPResource(res) => Some(
            match res {
                ReadMCPResourceResult::Success { json, .. } => tool_result(
                    "read_mcp_resource"@,
                    seq![jfield("resource_contents"@, json@)],
                ),
                ReadMCPResourceResult::Error(error) => tool_error(error@),
                ReadMCPResourceResult::Cancelled => tool_canceled(),
            },
        ),
        AIAgentActionResultType::CallMCPTool(res) => Some(
            match res {
                CallMCPToolResult::Success { json, .. } => tool_result(
                    "call_mcp_tool"@,
                    seq![jfield("result"@, json@)],
                ),
                CallMCPToolResult::Error(error) => tool_error(error@),
                CallMCPToolResult::Cancelled => tool_canceled(),
            },
        ),
        _ => None,
    }
}

/// The line of an input, if it has one: only action results have one.
pub open spec fn input_json(b: CatalogBundle, input: AIAgentInput) -> Option<Seq<char>> {
    match input {
        AIAgentInput::ActionResult(r) => result_json(b, r),
        AIAgentInput::Query => None,
    }
}

fn message_exec(ty: &str, rest: Vec<Vec<char>>) -> (r: Vec<char>)
    ensures
        r@ == message(ty@, char_views(rest@)),
{
    let mut fields = no_fields();
    push_str_field(&mut fields, "type", ty);
    let ghost first = char_views(fields@);
    let mut i: usize = 0;
    while i < rest.len()
        invariant
            i <= rest@.len(),
            first == seq![jstr_field("type"@, ty@)],
            char_views(fields@) == first + char_views(rest@).take(i as int),
        decreases rest@.len() - i,
    {
        let ghost before = fields@;
        fields.push(rest[i].clone());
        assert(char_views(fields@) =~= char_views(before).push(rest@[i as int]@));
        assert(char_views(rest@).take(i + 1) =~= char_views(rest@).take(i as int).push(
            rest@[i as int]@,
        ));
        i = i + 1;
    }
    assert(char_views(rest@).take(rest@.len() as int) =~= char_views(rest@));
    object(&fields)
}

fn tool_message_exec(ty: &str, tool: &str, rest: Vec<Vec<char>>) -> (r: Vec<char>)
    ensures
        r@ == message(ty@, seq![jstr_field("tool"@, tool@)] + char_views(rest@)),
{
    let mut fields = no_fields();
    push_str_field(&mut fields, "tool", tool);
    let ghost first = char_views(fields@);
    let mut i: usize = 0;
    while i < rest.len()
        invariant
            i <= rest@.len(),
            first == seq![jstr_field("tool"@, tool@)],
            char_views(fields@) == first + char_views(rest@).take(i as int),
        decreases rest@.len() - i,
    {
        let ghost before = fields@;
        fields.push(rest[i].clone());
        assert(char_views(fields@) =~= char_views(before).push(rest@[i as int]@));
        assert(char_views(rest@).take(i + 1) =~= char_views(rest@).take(i as int).push(
            rest@[i as int]@,
        ));
        i = i + 1;
    }
    assert(char_views(rest@).take(rest@.len() as int) =~= char_views(rest@));
    message_exec(ty, fields)
}

fn canceled_exec() -> (r: Vec<char>)
    ensures
        r@ == tool_canceled(),
{
    let r = message_exec("tool_canceled", no_fields());
    assert(r@ =~= tool_canceled());
    r
}

fn error_exec(error: &str) -> (r: Vec<char>)
    ensures
        r@ == tool_error(error@),
{
    let mut f = no_fields();
    push_str_field(&mut f, "error", error);
    message_exec("tool_error", f)
}

fn complete_exec(exit_code: i32, output: &str) -> (r: Vec<char>)
    ensures
        r@ == command_complete(exit_code, output@),
{
    let mut f = no_fields();
    push_str_field(&mut f, "status", "complete");
    push_field(&mut f, "exit_code", decimal_chars_i64(exit_code as i64));
    push_str_field(&mut f, "output", output);
    assert(char_views(f@) =~= seq![
        jstr_field("status"@, "complete"@),
        jfield("exit_code"@, decimal_spec(exit_code as int)),
        jstr_field("output"@, output@),
    ]);
    let r = tool_message_exec("tool_result", "run_command", f);
    assert(r@ =~= command_complete(exit_code, output@));
    r
}

fn running_exec() -> (r: Vec<char>)
    ensures
        r@ == command_running(),
{
    let mut f = no_fields();
    push_str_field(&mut f, "status", "running");
    tool_message_exec("tool_result", "run_command", f)
}

fn one_field_result(tool: &str, name: &str, value: Vec<char>) -> (r: Vec<char>)
    ensures
        r@ == tool_result(tool@, seq![jfield(name@, value@)]),
{
    let mut f = no_fields();
    push_field(&mut f, name, value);
    let r = tool_message_exec("tool_result", tool, f);
    r
}

/// The JSON line of an action result, if it has one (see [`result_json`]).
pub fn from_action_result(catalogs: &CatalogBundle, r: &AIAgentActionResultType) -> (line: Option<
    String,
>)
    ensures
        match line {
            Some(s) => result_json(*catalogs, *r) == Some(s@),
            None => result_json(*catalogs, *r) is None,
        },
{
    let v: Option<Vec<char>> = match r {
        AIAgentActionResultType::RequestCommandOutput(res) => Some(
            match res {
                RequestCommandOutputResult::Completed { output, exit_code, .. } => complete_exec(
                    *exit_code,
                    output.as_str(),
                ),
                RequestCommandOutputResult::LongRunningCommandSnapshot { .. } => running_exec(),
                RequestCommandOutputResult::CancelledBeforeExecution => canceled_exec(),
                RequestCommandOutputResult::Denylisted => {
                    let t = catalogs.text(LocaleId::EnUs, "agent_sdk.driver.output.command_denylisted");
                    error_exec(t.as_str())
                },
            },
        ),
        AIAgentActionResultType::WriteToLongRunningShellCommand(res) => Some(
            match res {
                WriteToLongRunningShellCommandResult::Snapshot => running_exec(),
                WriteToLongRunningShellCommandResult::CommandFinished { output, exit_code } => complete_exec(
                    *exit_code,
                    output.as_str(),
                ),
                WriteToLongRunningShellCommandResult::Error => {
                    let t = catalogs.text(LocaleId::EnUs, "agent_sdk.driver.output.command_write_failed");
                    error_exec(t.as_str())
                },
                WriteToLongRunningShellCommandResult::Cancelled => canceled_exec(),
            },
        ),
        AIAgentActionResultType::RequestFileEdits(res) => Some(
            match res {
                RequestFileEditsResult::Success { diff, .. } => one_field_result(
                    "edit_files",
                    "diff",
                    quoted(diff.as_str()),
                ),
                RequestFileEditsResult::DiffApplicationFailed { error } => error_exec(error.as_str()),
                RequestFileEditsResult::Cancelled => canceled_exec(),
            },
        ),
        AIAgentActionResultType::ReadFiles(res) => Some(
            match res {
                ReadFilesResult::Success { files, failed_files } => {
                    let mut f = no_fields();
                    push_field(&mut f, "files", file_contexts_json_exec(files));
                    let ghost first = char_views(f@);
                    if failed_files.len() > 0 {
                        push_field(&mut f, "failed_files", failed_files_json_exec(failed_files));
                    }
                    assert(char_views(f@) =~= first + if failed_files.len() == 0 {
                        Seq::<Seq<char>>::empty()
                    } else {
                        seq![jfield("failed_files"@, jarray(failed_files_json(failed_files@)))]
                    });
                    tool_message_exec("tool_result", "read_files", f)
                },
                ReadFilesResult::Error(error) => error_exec(error.as_str()),
                ReadFilesResult::Cancelled => canceled_exec(),
            },
        ),
        AIAgentActionResultType::UploadArtifact(res) => Some(
            match res {
                UploadArtifactResult::Success {
                    artifact_uid,
                    filepath,
                    mime_type,
                    description,
                    size_bytes,
                } => {
                    let mut f = no_fields();
                    push_str_field(&mut f, "artifact_uid", artifact_uid.as_str());
                    push_skip_none_field(&mut f, "filepath", filepath);
                    push_str_field(&mut f, "mime_type", mime_type.as_str());
                    push_skip_none_field(&mut f, "description", description);
                    push_field(&mut f, "size_bytes", decimal_chars_i64(*size_bytes));
                    assert(char_views(f@) =~= seq![jstr_field("artifact_uid"@, artifact_uid@)]
                        + jopt_field("filepath"@, *filepath) + seq![
                        jstr_field("mime_type"@, mime_type@),
                    ] + jopt_field("description"@, *description) + seq![
                        jfield("size_bytes"@, decimal_spec(*size_bytes as int)),
                    ]);
                    tool_message_exec("tool_result", "upload_artifact", f)
                },
                UploadArtifactResult::Error(error) => error_exec(error.as_str()),
                UploadArtifactResult::Cancelled => canceled_exec(),
            },
        ),
        AIAgentActionResultType::SearchCodebase(res) => Some(
            match res {
                SearchCodebaseResult::Success { files } => one_field_result(
                    "search_codebase",
                    "files",
                    file_contexts_json_exec(files),
                ),
                SearchCodebaseResult::Failed { message } => error_exec(message.as_str()),
                SearchCodebaseResult::Cancelled => canceled_exec(),
            },
        ),
        AIAgentActionResultType::Grep(res) => Some(
            match res {
                GrepResult::Success { matched_files } => one_field_result(
                    "grep",
                    "files",
                    grep_matches_json_exec(matched_files),
                ),
                GrepResult::Error(error) => error_exec(error.as_str()),
                GrepResult::Cancelled => canceled_exec(),
            },
        ),
        AIAgentActionResultType::FileGlobV2(res) => Some(
            match res {
                FileGlobV2Result::Success { matched_files } => one_field_result(
                    "file_glob",
                    "files",
                    glob_matches_json_exec(matched_files),
                ),
                FileGlobV2Result::Error(error) => error_exec(error.as_str()),
                FileGlobV2Result::Cancelled => canceled_exec(),
            },
        ),
        AIAgentActionResultType::FileGlob(res) => Some(
            match res {
                FileGlobResult::Success { matched_files } => one_field_result(
                    "file_glob",
                    "files",
                    listed_paths_json_exec(matched_files.as_str()),
                ),
                FileGlobResult::Error(error) => error_exec(error.as_str()),
                FileGlobResult::Cancelled => canceled_exec(),
            },
        ),
        AIAgentActionResultType::ReadMCPResource(res) => Some(
            match res {
                ReadMCPResourceResult::Success { json, .. } => one_field_result(
                    "read_mcp_resource",
                    "resource_contents",
                    chars_of(json.as_str()),
                ),
                ReadMCPResourceResult::Error(error) => error_exec(error.as_str()),
                ReadMCPResourceResult::Cancelled => canceled_exec(),
            },
        ),
        AIAgentActionResultType::CallMCPTool(res) => Some(
            match res {
                CallMCPToolResult::Success { json, .. } => one_field_result(
                    "call_mcp_tool",
                    "result",
                    chars_of(json.as_str()),
                ),
                CallMCPToolResult::Error(error) => error_exec(error.as_str()),
                CallMCPToolResult::Cancelled => canceled_exec(),
            },
        ),
        _ => None,
    };
    match v {
        Some(chars) => Some(string_from_chars(chars.as_slice())),
        None => None,
    }
}


/// The line of an action the agent asks for, if it has one.
pub open spec fn action_json(a: AIAgentActionType) -> Option<Seq<char>> {
    match a {
        AIAgentActionType::RequestCommandOutput { command } => Some(
            tool_call("run_command"@, seq![jstr_field("command"@, command@)]),
        ),
        AIAgentActionType::WriteToLongRunningShellCommand { .. } => Some(
            tool_call("write_to_command"@, Seq::empty()),
        ),
        AIAgentActionType::ReadFiles { locations } => Some(
            tool_call("read_files"@, seq![jfield("files"@, jarray(locations_json(locations@)))]),
        ),
        AIAgentActionType::UploadArtifact { file_path, description } => Some(
            tool_call(
                "upload_artifact"@,
                seq![jstr_field("path"@, file_path@), jfield("description"@, jopt_str(description))],
            ),
        ),
        AIAgentActionType::SearchCodebase { query, codebase_path } => Some(
            tool_call(
                "search_codebase"@,
                seq![jstr_field("query"@, query@), jfield("codebase"@, jopt_str(codebase_path))],
            ),
        ),
        AIAgentActionType::RequestFileEdits { file_edits, title } => Some(
            tool_call(
                "edit_files"@,
                seq![
                    jfield("title"@, jopt_str(title)),
                    jfield(
                        "file_paths"@,
                        jarray(edit_files(file_edits@).map_values(|s: Seq<char>| json_quoted(s))),
                    ),
                ],
            ),
        ),
        AIAgentActionType::Grep { queries, path } => Some(
            tool_call(
                "grep"@,
                seq![
                    jfield(
                        "queries"@,
                        jarray(string_views(queries@).map_values(|s: Seq<char>| json_quoted(s))),
                    ),
                    jstr_field("path"@, path@),
                ],
            ),
        ),
        AIAgentActionType::FileGlob { patterns, path } => Some(
            tool_call(
                "file_glob"@,
                seq![
                    jfield(
                        "patterns"@,
                        jarray(string_views(patterns@).map_values(|s: Seq<char>| json_quoted(s))),
                    ),
                    jfield("path"@, jopt_str(path)),
                ],
            ),
        ),
        AIAgentActionType::FileGlobV2 { patterns, search_dir } => Some(
            tool_call(
                "file_glob"@,
                seq![
                    jfield(
                        "patterns"@,
                        jarray(string_views(patterns@).map_values(|s: Seq<char>| json_quoted(s))),
                    ),
                    jfield("path"@, jopt_str(search_dir)),
                ],
            ),
        ),
        AIAgentActionType::ReadMCPResource { name, uri } => Some(
            tool_call(
                "read_mcp_resource"@,
                seq![jstr_field("name"@, name@), jfield("uri"@, jopt_str(uri))],
            ),
        ),
        AIAgentActionType::CallMCPTool { name, input_json, .. } => Some(
            tool_call(
                "call_mcp_tool"@,
                seq![jstr_field("name"@, name@), jfield("input"@, input_json@)],
            ),
        ),
        _ => None,
    }
}

/// The line of an output message, if it has one.
pub open spec fn output_message_json(m: AIAgentOutputMessageType) -> Option<Seq<char>> {
    match m {
        AIAgentOutputMessageType::Text(t) => Some(
            message("agent"@, seq![jstr_field("text"@, agent_text_spec(t))]),
        ),
        AIAgentOutputMessageType::Reasoning(t) => Some(
            message("agent_reasoning"@, seq![jstr_field("text"@, agent_text_spec(t))]),
        ),
        AIAgentOutputMessageType::Summarization(t) => Some(
            message("agent_reasoning"@, seq![jstr_field("text"@, agent_text_spec(t))]),
        ),
        AIAgentOutputMessageType::Action(a) => action_json(a),
        AIAgentOutputMessageType::TodoOperation(op) => Some(
            match op {
                TodoOperation::UpdateTodos { todos } => message(
                    "update_todos"@,
                    seq![jfield("todo_list"@, jarray(todos_json(todos@)))],
                ),
                TodoOperation::MarkAsCompleted { completed_todos } => message(
                    "complete_todos"@,
                    seq![jfield("completed_todos"@, jarray(todos_json(completed_todos@)))],
                ),
            },
        ),
        AIAgentOutputMessageType::Subagent { task_id, .. } => Some(
            message("Subagent"@, seq![jstr_field("task_id"@, task_id@)]),
        ),
        AIAgentOutputMessageType::CommentsAddressed { comments } => Some(
            message(
                "num_comments_addressed"@,
                seq![jfield("addressed_comments"@, jarray(comments_json(comments@)))],
            ),
        ),
        AIAgentOutputMessageType::ArtifactCreated(data) => Some(artifact_json(data)),
        AIAgentOutputMessageType::SkillInvoked { name } => Some(
            message("SkillInvoked"@, seq![jstr_field("name"@, name@)]),
        ),
        _ => None,
    }
}

/// An `artifact_created` line of the given `artifact_type`, with more fields after it.
pub open spec fn artifact(ty: Seq<char>, rest: Seq<Seq<char>>) -> Seq<char> {
    message("artifact_created"@, seq![jstr_field("artifact_type"@, ty)] + rest)
}

pub open spec fn artifact_json(data: ArtifactCreatedData) -> Seq<char> {
    match data {
        ArtifactCreatedData::PullRequest { url, branch } => artifact(
            "pull_request"@,
            seq![jstr_field("url"@, url@), jstr_field("branch"@, branch@)],
        ),
        ArtifactCreatedData::Screenshot { artifact_uid, mime_type, description } => artifact(
            "screenshot"@,
            seq![
                jstr_field("artifact_uid"@, artifact_uid@),
                jstr_field("mime_type"@, mime_type@),
                jfield("description"@, jopt_str(description)),
            ],
        ),
        ArtifactCreatedData::File {
            artifact_uid,
            filepath,
            filename,
            mime_type,
            description,
            size_bytes,
        } => artifact(
            "file"@,
            seq![
                jstr_field("artifact_uid"@, artifact_uid@),
                jstr_field("filepath"@, filepath@),
                jstr_field("filename"@, filename@),
                jstr_field("mime_type"@, mime_type@),
                jfield("description"@, jopt_str(description)),
                jfield("size_bytes"@, decimal_spec(size_bytes as int)),
            ],
        ),
    }
}

fn artifact_exec(ty: &str, rest: Vec<Vec<char>>) -> (r: Vec<char>)
    ensures
        r@ == artifact(ty@, char_views(rest@)),
{
    let mut fields = no_fields();
    push_str_field(&mut fields, "artifact_type", ty);
    let ghost first = char_views(fields@);
    let mut i: usize = 0;
    while i < rest.len()
        invariant
            i <= rest@.len(),
            first == seq![jstr_field("artifact_type"@, ty@)],
            char_views(fields@) == first + char_views(rest@).take(i as int),
        decreases rest@.len() - i,
    {
        let ghost before = fields@;
        fields.push(rest[i].clone());
        assert(char_views(fields@) =~= char_views(before).push(rest@[i as int]@));
        assert(char_views(rest@).take(i + 1) =~= char_views(rest@).take(i as int).push(
            rest@[i as int]@,
        ));
        i = i + 1;
    }
    assert(char_views(rest@).take(rest@.len() as int) =~= char_views(rest@));
    message_exec("artifact_created", fields)
}

fn artifact_json_exec(data: &ArtifactCreatedData) -> (r: Vec<char>)
    ensures
        r@ == artifact_json(*data),
{
    match data {
        ArtifactCreatedData::PullRequest { url, branch } => {
            let mut f = no_fields();
            push_str_field(&mut f, "url", url.as_str());
            push_str_field(&mut f, "branch", branch.as_str());
            assert(char_views(f@) =~= seq![jstr_field("url"@, url@), jstr_field("branch"@, branch@)]);
            artifact_exec("pull_request", f)
        },
        ArtifactCreatedData::Screenshot { artifact_uid, mime_type, description } => {
            let mut f = no_fields();
            push_str_field(&mut f, "artifact_uid", artifact_uid.as_str());
            push_str_field(&mut f, "mime_type", mime_type.as_str());
            push_opt_str_field(&mut f, "description", description);
            assert(char_views(f@) =~= seq![
                jstr_field("artifact_uid"@, artifact_uid@),
                jstr_field("mime_type"@, mime_type@),
                jfield("description"@, jopt_str(*description)),
            ]);
            artifact_exec("screenshot", f)
        },
        ArtifactCreatedData::File {
            artifact_uid,
            filepath,
            filename,
            mime_type,
            description,
            size_bytes,
        } => {
            let mut f = no_fields();
            push_str_field(&mut f, "artifact_uid", artifact_uid.as_str());
            push_str_field(&mut f, "filepath", filepath.as_str());
            push_str_field(&mut f, "filename", filename.as_str());
            push_str_field(&mut f, "mime_type", mime_type.as_str());
            push_opt_str_field(&mut f, "description", description);
            push_field(&mut f, "size_bytes", decimal_chars_i64(*size_bytes));
            assert(char_views(f@) =~= seq![
                jstr_field("artifact_uid"@, artifact_uid@),
                jstr_field("filepath"@, filepath@),
                jstr_field("filename"@, filename@),
                jstr_field("mime_type"@, mime_type@),
                jfield("description"@, jopt_str(*description)),
                jfield("size_bytes"@, decimal_spec(*size_bytes as int)),
            ]);
            artifact_exec("file", f)
        },
    }
}

fn one_field_message(ty: &str, name: &str, value: Vec<char>) -> (r: Vec<char>)
    ensures
        r@ == message(ty@, seq![jfield(name@, value@)]),
{
    let mut f = no_fields();
    push_field(&mut f, name, value);
    message_exec(ty, f)
}

fn two_field_call(tool: &str, n1: &str, v1: Vec<char>, n2: &str, v2: Vec<char>) -> (r: Vec<char>)
    ensures
        r@ == tool_call(tool@, seq![jfield(n1@, v1@), jfield(n2@, v2@)]),
{
    let mut f = no_fields();
    push_field(&mut f, n1, v1);
    push_field(&mut f, n2, v2);
    assert(char_views(f@) =~= seq![jfield(n1@, v1@), jfield(n2@, v2@)]);
    tool_message_exec("tool_call", tool, f)
}

fn opt_str_json(o: &Option<String>) -> (r: Vec<char>)
    ensures
        r@ == jopt_str(*o),
{
    match o {
        Some(s) => quoted(s.as_str()),
        None => {
            let mut n: Vec<char> = Vec::new();
            extend_str(&mut n, "null");
            n
        },
    }
}

fn action_json_exec(a: &AIAgentActionType) -> (r: Option<Vec<char>>)
    ensures
        match r {
            Some(v) => action_json(*a) == Some(v@),
            None => action_json(*a) is None,
        },
{
    match a {
        AIAgentActionType::RequestCommandOutput { command } => {
            let mut f = no_fields();
            push_str_field(&mut f, "command", command.as_str());
            Some(tool_message_exec("tool_call", "run_command", f))
        },
        AIAgentActionType::WriteToLongRunningShellCommand { .. } => {
            let r = tool_message_exec("tool_call", "write_to_command", no_fields());
            assert(r@ =~= tool_call("write_to_command"@, Seq::empty()));
            Some(r)
        },
        AIAgentActionType::ReadFiles { locations } => {
            let mut f = no_fields();
            push_field(&mut f, "files", locations_json_exec(locations));
            Some(tool_message_exec("tool_call", "read_files", f))
        },
        AIAgentActionType::UploadArtifact { file_path, description } => Some(
            two_field_call("upload_artifact", "path", quoted(file_path.as_str()), "description", opt_str_json(description)),
        ),
        AIAgentActionType::SearchCodebase { query, codebase_path } => Some(
            two_field_call("search_codebase", "query", quoted(query.as_str()), "codebase", opt_str_json(codebase_path)),
        ),
        AIAgentActionType::RequestFileEdits { file_edits, title } => Some(
            two_field_call("edit_files", "title", opt_str_json(title), "file_paths", edit_files_json_exec(file_edits)),
        ),
        AIAgentActionType::Grep { queries, path } => Some(
            two_field_call("grep", "queries", strings_json_exec(queries), "path", quoted(path.as_str())),
        ),
        AIAgentActionType::FileGlob { patterns, path } => Some(
            two_field_call("file_glob", "patterns", strings_json_exec(patterns), "path", opt_str_json(path)),
        ),
        AIAgentActionType::FileGlobV2 { patterns, search_dir } => Some(
            two_field_call("file_glob", "patterns", strings_json_exec(patterns), "path", opt_str_json(search_dir)),
        ),
        AIAgentActionType::ReadMCPResource { name, uri } => Some(
            two_field_call("read_mcp_resource", "name", quoted(name.as_str()), "uri", opt_str_json(uri)),
        ),
        AIAgentActionType::CallMCPTool { name, input_json, .. } => Some(
            two_field_call("call_mcp_tool", "name", quoted(name.as_str()), "input", chars_of(input_json.as_str())),
        ),
        _ => None,
    }
}

/// The JSON line of an output message, if it has one (see [`output_message_json`]).
pub fn from_output_message(m: &AIAgentOutputMessageType) -> (line: Option<String>)
    ensures
        match line {
            Some(s) => output_message_json(*m) == Some(s@),
            None => output_message_json(*m) is None,
        },
{
    let v: Option<Vec<char>> = match m {
        AIAgentOutputMessageType::Text(t) => {
            let text = format_agent_text(t);
            Some(one_field_message("agent", "text", quoted(text.as_str())))
        },
        AIAgentOutputMessageType::Reasoning(t) => {
            let text = format_agent_text(t);
            Some(one_field_message("agent_reasoning", "text", quoted(text.as_str())))
        },
        AIAgentOutputMessageType::Summarization(t) => {
            let text = format_agent_text(t);
            Some(one_field_message("agent_reasoning", "text", quoted(text.as_str())))
        },
        AIAgentOutputMessageType::Action(a) => action_json_exec(a),
        AIAgentOutputMessageType::TodoOperation(op) => Some(
            match op {
                TodoOperation::UpdateTodos { todos } => one_field_message(
                    "update_todos",
                    "todo_list",
                    todos_json_exec(todos),
                ),
                TodoOperation::MarkAsCompleted { completed_todos } => one_field_message(
                    "complete_todos",
                    "completed_todos",
                    todos_json_exec(completed_todos),
                ),
            },
        ),
        AIAgentOutputMessageType::Subagent { task_id, .. } => Some(
            one_field_message("Subagent", "task_id", quoted(task_id.as_str())),
        ),
        AIAgentOutputMessageType::CommentsAddressed { comments } => Some(
            one_field_message("num_comments_addressed", "addressed_comments", comments_json_exec(comments)),
        ),
        AIAgentOutputMessageType::ArtifactCreated(data) => Some(artifact_json_exec(data)),
        AIAgentOutputMessageType::SkillInvoked { name } => Some(
            one_field_message("SkillInvoked", "name", quoted(name.as_str())),
        ),
        _ => None,
    };
    match v {
        Some(chars) => Some(string_from_chars(chars.as_slice())),
        None => None,
    }
}

/// The JSON line of an input, if it has one (see [`input_json`]).
pub fn from_input(catalogs: &CatalogBundle, input: &AIAgentInput) -> (line: Option<String>)
    ensures
        match line {
            Some(s) => input_json(*catalogs, *input) == Some(s@),
            None => input_json(*catalogs, *input) is None,
        },
{
    match input {
        AIAgentInput::ActionResult(r) => from_action_result(catalogs, r),
        AIAgentInput::Query => None,
    }
}

// ---------------------------------------------------------------------------
// What the driver writes
// ---------------------------------------------------------------------------

/// A line, if any, followed by a newline.
pub open spec fn written(line: Option<Seq<char>>) -> Seq<char> {
    match line {
        Some(l) => l + "\n"@,
        None => Seq::empty(),
    }
}

/// What the driver writes for an output: the line of each message that has one.
pub open spec fn output_json(ms: Seq<AIAgentOutputMessageType>) -> Seq<char>
    decreases ms.len(),
{
    if ms.len() == 0 {
        Seq::empty()
    } else {
        output_json(ms.drop_last()) + written(output_message_json(ms.last()))
    }
}

/// Writes an output as JSON lines (see [`output_json`]).
pub fn format_output(output: &AIAgentOutput) -> (r: String)
    ensures
        r@ == output_json(output.messages@),
{
    let ghost ms = output.messages@;
    let mut out: Vec<char> = Vec::new();
    let mut i: usize = 0;
    while i < output.messages.len()
        invariant
            ms == output.messages@,
            i <= ms.len(),
            out@ == output_json(ms.take(i as int)),
        decreases ms.len() - i,
    {
        assert(ms.take(i + 1).drop_last() =~= ms.take(i as int));
        assert(ms.take(i + 1).last() == ms[i as int]);
        match from_output_message(&output.messages[i]) {
            Some(line) => {
                extend_str(&mut out, line.as_str());
                extend_str(&mut out, "\n");
            },
            None => {},
        }
        assert(out@ =~= output_json(ms.take(i + 1)));
        i = i + 1;
    }
    assert(ms.take(ms.len() as int) =~= ms);
    string_from_chars(out.as_slice())
}

/// Writes an input as a JSON line, where it has one (see [`input_json`]).
pub fn format_input(catalogs: &CatalogBundle, input: &AIAgentInput) -> (r: String)
    ensures
        r@ == written(input_json(*catalogs, *input)),
{
    let mut out: Vec<char> = Vec::new();
    match from_input(catalogs, input) {
        Some(line) => {
            extend_str(&mut out, line.as_str());
            extend_str(&mut out, "\n");
        },
        None => {},
    }
    assert(out@ =~= written(input_json(*catalogs, *input)));
    string_from_chars(out.as_slice())
}

/// A `system` event of the given `event_type`, with more fields after it.
pub open spec fn system_event(ty: Seq<char>, rest: Seq<Seq<char>>) -> Seq<char> {
    message("system"@, seq![jstr_field("event_type"@, ty)] + rest)
}

fn line_of(v: Vec<char>) -> (r: String)
    ensures
        r@ == v@ + "\n"@,
{
    let mut out = v;
    extend_str(&mut out, "\n");
    string_from_chars(out.as_slice())
}

fn system_event_exec(ty: &str, rest: Vec<Vec<char>>) -> (r: Vec<char>)
    ensures
        r@ == system_event(ty@, char_views(rest@)),
{
    let mut fields = no_fields();
    push_str_field(&mut fields, "event_type", ty);
    let ghost first = char_views(fields@);
    let mut i: usize = 0;
    while i < rest.len()
        invariant
            i <= rest@.len(),
            first == seq![jstr_field("event_type"@, ty@)],
            char_views(fields@) == first + char_views(rest@).take(i as int),
        decreases rest@.len() - i,
    {
        let ghost before = fields@;
        fields.push(rest[i].clone());
        assert(char_views(fields@) =~= char_views(before).push(rest@[i as int]@));
        assert(char_views(rest@).take(i + 1) =~= char_views(rest@).take(i as int).push(
            rest@[i as int]@,
        ));
        i = i + 1;
    }
    assert(char_views(rest@).take(rest@.len() as int) =~= char_views(rest@));
    message_exec("system", fields)
}

/// Writes a `conversation_started` system event.
pub fn conversation_started(conversation_id: &str) -> (r: String)
    ensures
        r@ == system_event(
            "conversation_started"@,
            seq![jstr_field("conversation_id"@, conversation_id@)],
        ) + "\n"@,
{
    let mut f = no_fields();
    push_str_field(&mut f, "conversation_id", conversation_id);
    line_of(system_event_exec("conversation_started", f))
}

/// Writes a `run_started` system event: the run id and its Oz dashboard page
/// under `oz_root_url`.
pub fn run_started(run_id: &str, oz_root_url: &str) -> (r: String)
    ensures
        r@ == system_event(
            "run_started"@,
            seq![
                jstr_field("run_id"@, run_id@),
                jstr_field("run_url"@, run_url_spec(oz_root_url@, run_id@)),
            ],
        ) + "\n"@,
{
    let url = run_url(oz_root_url, run_id);
    let mut f = no_fields();
    push_str_field(&mut f, "run_id", run_id);
    push_str_field(&mut f, "run_url", url.as_str());
    assert(char_views(f@) =~= seq![
        jstr_field("run_id"@, run_id@),
        jstr_field("run_url"@, run_url_spec(oz_root_url@, run_id@)),
    ]);
    line_of(system_event_exec("run_started", f))
}

/// Writes a `shared_session_established` system event with the link to join.
pub fn shared_session_established(join_url: &str) -> (r: String)
    ensures
        r@ == system_event(
            "shared_session_established"@,
            seq![jstr_field("join_url"@, join_url@)],
        ) + "\n"@,
{
    let mut f = no_fields();
    push_str_field(&mut f, "join_url", join_url);
    line_of(system_event_exec("shared_session_established", f))
}

/// Writes an `artifact_created` event for a plan.
pub fn plan_artifact_created(document_id: &str, notebook_link: &str, title: &str) -> (r: String)
    ensures
        r@ == artifact(
            "plan"@,
            seq![
                jstr_field("document_id"@, document_id@),
                jstr_field("notebook_link"@, notebook_link@),
                jstr_field("title"@, title@),
            ],
        ) + "\n"@,
{
    let mut f = no_fields();
    push_str_field(&mut f, "document_id", document_id);
    push_str_field(&mut f, "notebook_link", notebook_link);
    push_str_field(&mut f, "title", title);
    assert(char_views(f@) =~= seq![
        jstr_field("document_id"@, document_id@),
        jstr_field("notebook_link"@, notebook_link@),
        jstr_field("title"@, title@),
    ]);
    line_of(artifact_exec("plan", f))
}

/// A long-running command that finished is reported as a finished command:
/// status `complete`, with its exit code and its output, on the same line as
/// a command whose output was asked for and that completed alike.
pub proof fn law_finished_long_running_command_is_complete(
    b: CatalogBundle,
    command: String,
    output: String,
    exit_code: i32,
)
    ensures
        result_json(
            b,
            AIAgentActionResultType::WriteToLongRunningShellCommand(
                WriteToLongRunningShellCommandResult::CommandFinished { output, exit_code },
            ),
        ) == result_json(
            b,
            AIAgentActionResultType::RequestCommandOutput(
                RequestCommandOutputResult::Completed { command, output, exit_code },
            ),
        ),
        result_json(
            b,
            AIAgentActionResultType::WriteToLongRunningShellCommand(
                WriteToLongRunningShellCommandResult::CommandFinished { output, exit_code },
            ),
        ) == Some(
            jobject(
                seq![
                    jstr_field("type"@, "tool_result"@),
                    jstr_field("tool"@, "run_command"@),
                    jstr_field("status"@, "complete"@),
                    jfield("exit_code"@, decimal_spec(exit_code as int)),
                    jstr_field("output"@, output@),
                ],
            ),
        ),
{
    assert(seq![jstr_field("type"@, "tool_result"@)] + (seq![jstr_field("tool"@, "run_command"@)] + seq![
        jstr_field("status"@, "complete"@),
        jfield("exit_code"@, decimal_spec(exit_code as int)),
        jstr_field("output"@, output@),
    ]) =~= seq![
        jstr_field("type"@, "tool_result"@),
        jstr_field("tool"@, "run_command"@),
        jstr_field("status"@, "complete"@),
        jfield("exit_code"@, decimal_spec(exit_code as int)),
        jstr_field("output"@, output@),
    ]);
}

} // verus!
