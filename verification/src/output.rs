//! What the SDK driver prints about a conversation: human-readable text in the
//! user's language ([`text`]) or one JSON object per line ([`json`]).
//!
//! Text reports are built as a list of chunks, each either a catalog message
//! or verbatim text, and rendered against a catalog bundle in one place.

use vstd::prelude::*;

use crate::agent::{AIAgentText, AIAgentTextSection, CodeSource};
use crate::localization::{fill_spec, text_spec, CatalogBundle, LocaleId, LocalizedMessage, PlaceholderError};
use crate::template::pairs_view;
use crate::text::{chars_of, decimal_spec, extend_chars, extend_str, string_from_chars, u64_to_decimal};

pub mod text;
pub mod json;

verus! {

/// A piece of a text report: a catalog message with its placeholders filled,
/// the catalog text of a key as it stands, or text shown as it is.
#[derive(Clone, Debug)]
pub enum Chunk {
    Message(LocalizedMessage),
    Text(String),
    Verbatim(String),
}

/// The mathematical form of a [`Chunk`].
pub enum ChunkView {
    Message(Seq<char>, Seq<(Seq<char>, Seq<char>)>),
    Text(Seq<char>),
    Verbatim(Seq<char>),
}

impl View for Chunk {
    type V = ChunkView;

    open spec fn view(&self) -> ChunkView {
        match self {
            Chunk::Message(m) => ChunkView::Message(m.key@, pairs_view(m.args@)),
            Chunk::Text(key) => ChunkView::Text(key@),
            Chunk::Verbatim(t) => ChunkView::Verbatim(t@),
        }
    }
}

pub open spec fn chunk_views(cs: Seq<Chunk>) -> Seq<ChunkView> {
    cs.map_values(|c: Chunk| c@)
}

/// A message chunk.
pub open spec fn msg(key: Seq<char>, args: Seq<(Seq<char>, Seq<char>)>) -> ChunkView {
    ChunkView::Message(key, args)
}

/// A catalog text chunk.
pub open spec fn txt(key: Seq<char>) -> ChunkView {
    ChunkView::Text(key)
}

/// A catalog text on a line of its own.
pub open spec fn txt_line(key: Seq<char>) -> Seq<ChunkView> {
    seq![txt(key), verb("\n"@)]
}

/// A verbatim chunk.
pub open spec fn verb(t: Seq<char>) -> ChunkView {
    ChunkView::Verbatim(t)
}

/// A message on a line of its own.
pub open spec fn msg_line(key: Seq<char>, args: Seq<(Seq<char>, Seq<char>)>) -> Seq<ChunkView> {
    seq![msg(key, args), verb("\n"@)]
}

/// Verbatim text on a line of its own.
pub open spec fn verb_line(t: Seq<char>) -> Seq<ChunkView> {
    seq![verb(t), verb("\n"@)]
}

/// The text of one chunk for `locale`; `None` when a message's template names
/// a placeholder that the message does not supply.
pub open spec fn render_chunk_spec(b: CatalogBundle, locale: LocaleId, c: ChunkView) -> Option<
    Seq<char>,
> {
    match c {
        ChunkView::Message(key, args) => fill_spec(text_spec(b, locale, key), args),
        ChunkView::Text(key) => Some(text_spec(b, locale, key)),
        ChunkView::Verbatim(t) => Some(t),
    }
}

/// The text of the chunks in order; `None` when one of them has none.
pub open spec fn render_chunks_spec(b: CatalogBundle, locale: LocaleId, cs: Seq<ChunkView>) -> Option<
    Seq<char>,
>
    decreases cs.len(),
{
    if cs.len() == 0 {
        Some(Seq::empty())
    } else {
        match (render_chunks_spec(b, locale, cs.drop_last()), render_chunk_spec(b, locale, cs.last())) {
            (Some(front), Some(last)) => Some(front + last),
            _ => None,
        }
    }
}

proof fn lemma_render_prefix_none(b: CatalogBundle, locale: LocaleId, cs: Seq<ChunkView>, i: int)
    requires
        0 <= i <= cs.len(),
        render_chunks_spec(b, locale, cs.take(i)) is None,
    ensures
        render_chunks_spec(b, locale, cs) is None,
    decreases cs.len() - i,
{
    if i < cs.len() {
        assert(cs.take(i + 1).drop_last() =~= cs.take(i));
        lemma_render_prefix_none(b, locale, cs, i + 1);
    } else {
        assert(cs.take(i) =~= cs);
    }
}

/// Renders `chunks` for `locale`, in order.
pub fn render_chunks(catalogs: &CatalogBundle, locale: LocaleId, chunks: &Vec<Chunk>) -> (r: Result<
    String,
    PlaceholderError,
>)
    ensures
        match r {
            Ok(s) => render_chunks_spec(*catalogs, locale, chunk_views(chunks@)) == Some(s@),
            Err(_) => render_chunks_spec(*catalogs, locale, chunk_views(chunks@)) is None,
        },
{
    let ghost cs = chunk_views(chunks@);
    let mut out: Vec<char> = Vec::new();
    let mut i: usize = 0;
    assert(cs.take(0) =~= Seq::<ChunkView>::empty());
    while i < chunks.len()
        invariant
            cs == chunk_views(chunks@),
            i <= chunks@.len(),
            render_chunks_spec(*catalogs, locale, cs.take(i as int)) == Some(out@),
        decreases chunks@.len() - i,
    {
        assert(cs.take(i + 1).drop_last() =~= cs.take(i as int));
        assert(cs.take(i + 1).last() == chunks@[i as int]@);
        match &chunks[i] {
            Chunk::Message(m) => {
                match catalogs.render(locale, m) {
                    Ok(s) => {
                        let piece = chars_of(s.as_str());
                        extend_chars(&mut out, piece.as_slice());
                    },
                    Err(e) => {
                        proof {
                            lemma_render_prefix_none(*catalogs, locale, cs, i + 1);
                        }
                        return Err(e);
                    },
                }
            },
            Chunk::Text(key) => {
                let t = catalogs.text(locale, key.as_str());
                extend_str(&mut out, t.as_str());
            },
            Chunk::Verbatim(t) => {
                extend_str(&mut out, t.as_str());
            },
        }
        i = i + 1;
    }
    assert(cs.take(chunks@.len() as int) =~= cs);
    Ok(string_from_chars(out.as_slice()))
}

/// Appends a message chunk with the given key and arguments.
pub(crate) fn push_msg(chunks: &mut Vec<Chunk>, key: &str, args: Vec<(String, String)>)
    ensures
        chunk_views(final(chunks)@) == chunk_views(old(chunks)@).push(msg(key@, pairs_view(args@))),
{
    let ghost before = chunks@;
    chunks.push(Chunk::Message(LocalizedMessage { key: key.to_owned(), args }));
    assert(chunk_views(chunks@) =~= chunk_views(before).push(msg(key@, pairs_view(args@))));
}

/// Appends a verbatim chunk.
pub(crate) fn push_verbatim(chunks: &mut Vec<Chunk>, t: &str)
    ensures
        chunk_views(final(chunks)@) == chunk_views(old(chunks)@).push(verb(t@)),
{
    let ghost before = chunks@;
    chunks.push(Chunk::Verbatim(t.to_owned()));
    assert(chunk_views(chunks@) =~= chunk_views(before).push(verb(t@)));
}

/// Appends a message on a line of its own.
pub(crate) fn push_msg_line(chunks: &mut Vec<Chunk>, key: &str, args: Vec<(String, String)>)
    ensures
        chunk_views(final(chunks)@) == chunk_views(old(chunks)@) + msg_line(key@, pairs_view(args@)),
{
    let ghost before = chunk_views(chunks@);
    push_msg(chunks, key, args);
    push_verbatim(chunks, "\n");
    assert(before.push(msg(key@, pairs_view(args@))).push(verb("\n"@)) =~= before + msg_line(
        key@,
        pairs_view(args@),
    ));
}

/// Appends the catalog text of `key` on a line of its own.
pub(crate) fn push_text_line(chunks: &mut Vec<Chunk>, key: &str)
    ensures
        chunk_views(final(chunks)@) == chunk_views(old(chunks)@) + txt_line(key@),
{
    let ghost before = chunk_views(chunks@);
    push_text(chunks, key);
    push_verbatim(chunks, "\n");
    assert(before.push(txt(key@)).push(verb("\n"@)) =~= before + txt_line(key@));
}

/// Appends the catalog text of `key`.
pub(crate) fn push_text(chunks: &mut Vec<Chunk>, key: &str)
    ensures
        chunk_views(final(chunks)@) == chunk_views(old(chunks)@).push(txt(key@)),
{
    let ghost before = chunks@;
    chunks.push(Chunk::Text(key.to_owned()));
    assert(chunk_views(chunks@) =~= chunk_views(before).push(txt(key@)));
}

/// Appends verbatim text on a line of its own.
pub(crate) fn push_verbatim_line(chunks: &mut Vec<Chunk>, t: &str)
    ensures
        chunk_views(final(chunks)@) == chunk_views(old(chunks)@) + verb_line(t@),
{
    let ghost before = chunk_views(chunks@);
    push_verbatim(chunks, t);
    push_verbatim(chunks, "\n");
    assert(before.push(verb(t@)).push(verb("\n"@)) =~= before + verb_line(t@));
}

/// No placeholder arguments.
pub(crate) fn args0() -> (a: Vec<(String, String)>)
    ensures
        pairs_view(a@) == Seq::<(Seq<char>, Seq<char>)>::empty(),
{
    let a: Vec<(String, String)> = Vec::new();
    assert(pairs_view(a@) =~= Seq::<(Seq<char>, Seq<char>)>::empty());
    a
}

/// One placeholder argument.
pub(crate) fn args1(n1: &str, v1: &str) -> (a: Vec<(String, String)>)
    ensures
        pairs_view(a@) == seq![(n1@, v1@)],
{
    let mut a: Vec<(String, String)> = Vec::new();
    a.push((n1.to_owned(), v1.to_owned()));
    assert(pairs_view(a@) =~= seq![(n1@, v1@)]);
    a
}

/// Two placeholder arguments, in order.
pub(crate) fn args2(n1: &str, v1: &str, n2: &str, v2: &str) -> (a: Vec<(String, String)>)
    ensures
        pairs_view(a@) == seq![(n1@, v1@), (n2@, v2@)],
{
    let mut a: Vec<(String, String)> = Vec::new();
    a.push((n1.to_owned(), v1.to_owned()));
    a.push((n2.to_owned(), v2.to_owned()));
    assert(pairs_view(a@) =~= seq![(n1@, v1@), (n2@, v2@)]);
    a
}

/// Three placeholder arguments, in order.
pub(crate) fn args3(n1: &str, v1: &str, n2: &str, v2: &str, n3: &str, v3: &str) -> (a: Vec<
    (String, String),
>)
    ensures
        pairs_view(a@) == seq![(n1@, v1@), (n2@, v2@), (n3@, v3@)],
{
    let mut a: Vec<(String, String)> = Vec::new();
    a.push((n1.to_owned(), v1.to_owned()));
    a.push((n2.to_owned(), v2.to_owned()));
    a.push((n3.to_owned(), v3.to_owned()));
    assert(pairs_view(a@) =~= seq![(n1@, v1@), (n2@, v2@), (n3@, v3@)]);
    a
}

/// The Oz dashboard page of a run: `{oz_root_url}/runs/{run_id}`.
pub open spec fn run_url_spec(oz_root_url: Seq<char>, run_id: Seq<char>) -> Seq<char> {
    oz_root_url + "/runs/"@ + run_id
}

/// The Oz dashboard page of a run under the given root URL.
pub fn run_url(oz_root_url: &str, run_id: &str) -> (url: String)
    ensures
        url@ == run_url_spec(oz_root_url@, run_id@),
{
    let mut out: Vec<char> = Vec::new();
    extend_str(&mut out, oz_root_url);
    extend_str(&mut out, "/runs/");
    extend_str(&mut out, run_id);
    string_from_chars(out.as_slice())
}

pub open spec fn ends_with_newline(s: Seq<char>) -> bool {
    s.len() > 0 && s.last() == '\n'
}

/// What follows ```` ``` ```` and the language of a code block: where the code comes from.
pub open spec fn code_source_text(source: Option<CodeSource>) -> Seq<char> {
    match source {
        Some(CodeSource::ProjectRules { location }) => " rules_path="@ + location@ + "\n"@,
        Some(CodeSource::Link { path, range_start, range_end }) => " path="@ + path@ + (match range_start {
            Some(n) => " start="@ + decimal_spec(n as int),
            None => Seq::empty(),
        }) + (match range_end {
            Some(n) => " end="@ + decimal_spec(n as int),
            None => Seq::empty(),
        }) + "\n"@,
        Some(CodeSource::Skill { location }) => " skill_path="@ + location@ + "\n"@,
        _ => Seq::empty(),
    }
}

/// The text of one section: plain text and markdown as they are; code fenced
/// with its language and source.
pub open spec fn section_text(s: AIAgentTextSection) -> Seq<char> {
    match s {
        AIAgentTextSection::PlainText { text } => text@,
        AIAgentTextSection::Code { code, language, source } => "```"@ + (match language {
            Some(l) => l@,
            None => Seq::empty(),
        }) + code_source_text(source) + code@ + "\n```\n"@,
        AIAgentTextSection::Table { markdown_source } => markdown_source@,
        AIAgentTextSection::Image { markdown_source } => markdown_source@,
        AIAgentTextSection::MermaidDiagram { markdown_source } => markdown_source@,
    }
}

/// Whether the text of a section ends a line.
pub open spec fn section_ends_line(s: AIAgentTextSection) -> bool {
    match s {
        AIAgentTextSection::Code { .. } => true,
        _ => ends_with_newline(section_text(s)),
    }
}

pub open spec fn sections_text(ss: Seq<AIAgentTextSection>) -> Seq<char>
    decreases ss.len(),
{
    if ss.len() == 0 {
        Seq::empty()
    } else {
        sections_text(ss.drop_last()) + section_text(ss.last())
    }
}

/// The agent's text: its sections in order, and a newline unless the last
/// section ended a line.
pub open spec fn agent_text_spec(t: AIAgentText) -> Seq<char> {
    let ss = t.sections@;
    sections_text(ss) + if ss.len() > 0 && section_ends_line(ss.last()) {
        Seq::empty()
    } else {
        "\n"@
    }
}

fn ends_with_newline_exec(s: &str) -> (b: bool)
    ensures
        b == ends_with_newline(s@),
{
    let cs = chars_of(s);
    cs.len() > 0 && cs[cs.len() - 1] == '\n'
}

fn push_decimal(out: &mut Vec<char>, n: usize)
    ensures
        final(out)@ == old(out)@ + decimal_spec(n as int),
{
    let d = u64_to_decimal(n as u64);
    extend_str(out, d.as_str());
}

fn push_code_source(out: &mut Vec<char>, source: &Option<CodeSource>)
    ensures
        final(out)@ == old(out)@ + code_source_text(*source),
{
    match source {
        Some(CodeSource::ProjectRules { location }) => {
            extend_str(out, " rules_path=");
            extend_str(out, location.as_str());
            extend_str(out, "\n");
            assert(final(out)@ =~= old(out)@ + code_source_text(*source));
        },
        Some(CodeSource::Link { path, range_start, range_end }) => {
            extend_str(out, " path=");
            extend_str(out, path.as_str());
            let ghost mid = out@;
            match range_start {
                Some(n) => {
                    extend_str(out, " start=");
                    push_decimal(out, *n);
                },
                None => {},
            }
            let ghost mid2 = out@;
            match range_end {
                Some(n) => {
                    extend_str(out, " end=");
                    push_decimal(out, *n);
                },
                None => {},
            }
            extend_str(out, "\n");
            assert(final(out)@ =~= old(out)@ + code_source_text(*source));
        },
        Some(CodeSource::Skill { location }) => {
            extend_str(out, " skill_path=");
            extend_str(out, location.as_str());
            extend_str(out, "\n");
            assert(final(out)@ =~= old(out)@ + code_source_text(*source));
        },
        _ => {
            assert(final(out)@ =~= old(out)@ + code_source_text(*source));
        },
    }
}

fn push_section(out: &mut Vec<char>, s: &AIAgentTextSection) -> (ends_line: bool)
    ensures
        final(out)@ == old(out)@ + section_text(*s),
        ends_line == section_ends_line(*s),
{
    match s {
        AIAgentTextSection::PlainText { text } => {
            extend_str(out, text.as_str());
            ends_with_newline_exec(text.as_str())
        },
        AIAgentTextSection::Code { code, language, source } => {
            extend_str(out, "```");
            match language {
                Some(l) => extend_str(out, l.as_str()),
                None => {},
            }
            push_code_source(out, source);
            extend_str(out, code.as_str());
            extend_str(out, "\n```\n");
            assert(final(out)@ =~= old(out)@ + section_text(*s));
            true
        },
        AIAgentTextSection::Table { markdown_source } => {
            extend_str(out, markdown_source.as_str());
            ends_with_newline_exec(markdown_source.as_str())
        },
        AIAgentTextSection::Image { markdown_source } => {
            extend_str(out, markdown_source.as_str());
            ends_with_newline_exec(markdown_source.as_str())
        },
        AIAgentTextSection::MermaidDiagram { markdown_source } => {
            extend_str(out, markdown_source.as_str());
            ends_with_newline_exec(markdown_source.as_str())
        },
    }
}

/// The agent's text as the driver prints it (see [`agent_text_spec`]).
pub fn format_agent_text(text: &AIAgentText) -> (r: String)
    ensures
        r@ == agent_text_spec(*text),
{
    let ghost ss = text.sections@;
    let mut out: Vec<char> = Vec::new();
    let mut wrote_newline = false;
    let mut i: usize = 0;
    while i < text.sections.len()
        invariant
            ss == text.sections@,
            i <= ss.len(),
            out@ == sections_text(ss.take(i as int)),
            wrote_newline == (i > 0 && section_ends_line(ss[i - 1])),
        decreases ss.len() - i,
    {
        assert(ss.take(i + 1).drop_last() =~= ss.take(i as int));
        wrote_newline = push_section(&mut out, &text.sections[i]);
        i = i + 1;
    }
    assert(ss.take(ss.len() as int) =~= ss);
    if !wrote_newline {
        extend_str(&mut out, "\n");
    }
    proof {
        if ss.len() > 0 {
            assert(ss.last() == ss[ss.len() - 1]);
        }
    }
    assert(out@ =~= agent_text_spec(*text));
    string_from_chars(out.as_slice())
}

} // verus!
