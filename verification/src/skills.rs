//! Bundled agent skills: which MCP integration a skill needs, and a skill's
//! description in the user's language, read from its front matter.

use vstd::prelude::*;

use crate::localization::LocaleId;
use crate::template::starts_with_spec;
use crate::text::{chars_eq, chars_of, split_chars, split_spec, string_from_chars, trim_chars, trim_spec};

verus! {

/// An MCP integration that a bundled skill can require.
#[derive(Clone, Copy, Debug, PartialEq, Eq, Structural)]
pub enum McpIntegration {
    Figma,
}

/// When a bundled skill is offered.
#[derive(Clone, Copy, Debug, PartialEq, Eq, Structural)]
pub enum BundledSkillActivation {
    Always,
    RequiresMcp(McpIntegration),
}

/// The integration a wire id names: only `figma` is known.
pub open spec fn mcp_integration_spec(wire_id: Seq<char>) -> Option<McpIntegration> {
    if wire_id == "figma"@ {
        Some(McpIntegration::Figma)
    } else {
        None
    }
}

pub fn mcp_integration_from_wire_id(wire_id: &str) -> (r: Option<McpIntegration>)
    ensures
        r == mcp_integration_spec(wire_id@),
{
    let w = chars_of(wire_id);
    let f = chars_of("figma");
    if chars_eq(w.as_slice(), f.as_slice()) {
        Some(McpIntegration::Figma)
    } else {
        None
    }
}

/// When a bundled skill that requires the given MCP integration (if any) is
/// offered; `None` when it names an unknown one, and the skill is skipped.
pub fn bundled_skill_activation(requires_mcp: Option<&str>) -> (r: Option<BundledSkillActivation>)
    ensures
        r == match requires_mcp {
            None => Some(BundledSkillActivation::Always),
            Some(w) => match mcp_integration_spec(w@) {
                Some(i) => Some(BundledSkillActivation::RequiresMcp(i)),
                None => None,
            },
        },
{
    match requires_mcp {
        None => Some(BundledSkillActivation::Always),
        Some(w) => match mcp_integration_from_wire_id(w) {
            Some(i) => Some(BundledSkillActivation::RequiresMcp(i)),
            None => None,
        },
    }
}

/// A path for a skill's context, or nothing when it is not available.
pub fn display_optional_path(path: Option<&str>) -> (r: String)
    ensures
        r@ == match path {
            Some(p) => p@,
            None => Seq::<char>::empty(),
        },
{
    match path {
        Some(p) => p.to_owned(),
        None => String::new(),
    }
}

/// A line without the carriage return that ends it in Windows line endings.
pub open spec fn strip_cr(l: Seq<char>) -> Seq<char> {
    if l.len() > 0 && l.last() == '\r' {
        l.drop_last()
    } else {
        l
    }
}

/// The lines of a text, each without a trailing carriage return.
pub open spec fn content_lines(content: Seq<char>) -> Seq<Seq<char>> {
    split_spec(content, '\n').map_values(|l: Seq<char>| strip_cr(l))
}

/// The index of the first `---` line from the `j`-th on.
pub open spec fn fence_from(lines: Seq<Seq<char>>, j: int) -> Option<int>
    decreases lines.len() - j,
{
    if j < 0 || j >= lines.len() {
        None
    } else if lines[j] == "---"@ {
        Some(j)
    } else {
        fence_from(lines, j + 1)
    }
}

/// The value of the first `key:` line among the lines from `j` up to `end`,
/// trimmed.
pub open spec fn field_from(lines: Seq<Seq<char>>, key: Seq<char>, j: int, end: int) -> Option<Seq<char>>
    decreases end - j,
{
    if j < 0 || j >= end || j >= lines.len() {
        None
    } else if starts_with_spec(lines[j], key + seq![':']) {
        Some(trim_spec(lines[j].skip(key.len() as int + 1)))
    } else {
        field_from(lines, key, j + 1, end)
    }
}

/// A field of a text's front matter: the block between a first line `---`
/// and the next `---` line.
pub open spec fn frontmatter_field(content: Seq<char>, key: Seq<char>) -> Option<Seq<char>> {
    let lines = content_lines(content);
    if lines.len() == 0 || lines[0] != "---"@ {
        None
    } else {
        match fence_from(lines, 1) {
            None => None,
            Some(end) => field_from(lines, key, 1, end),
        }
    }
}

/// The front matter field that holds a skill's description in `locale`:
/// US English skills keep their own description.
pub open spec fn description_field(locale: LocaleId) -> Option<Seq<char>> {
    match locale {
        LocaleId::EnUs => None,
        LocaleId::ZhCn => Some("description_zh_CN"@),
    }
}

/// A bundled skill's description in `locale`, where its front matter has a
/// non-empty one.
pub open spec fn localized_description_spec(content: Seq<char>, locale: LocaleId) -> Option<Seq<char>> {
    match description_field(locale) {
        None => None,
        Some(field) => match frontmatter_field(content, field) {
            Some(v) => if v.len() > 0 {
                Some(v)
            } else {
                None
            },
            None => None,
        },
    }
}

fn strip_cr_exec(l: &Vec<char>) -> (r: Vec<char>)
    ensures
        r@ == strip_cr(l@),
{
    let mut r: Vec<char> = Vec::new();
    let n = if l.len() > 0 && l[l.len() - 1] == '\r' {
        l.len() - 1
    } else {
        l.len()
    };
    let mut i: usize = 0;
    while i < n
        invariant
            n <= l@.len(),
            i <= n,
            r@ == l@.take(i as int),
        decreases n - i,
    {
        r.push(l[i]);
        assert(l@.take(i as int).push(l@[i as int]) =~= l@.take(i + 1));
        i = i + 1;
    }
    assert(l@.take(n as int) =~= strip_cr(l@));
    r
}

fn is_fence(l: &Vec<char>) -> (b: bool)
    ensures
        b == (l@ == "---"@),
{
    let f = chars_of("---");
    chars_eq(l.as_slice(), f.as_slice())
}

fn starts_with_field(l: &Vec<char>, key: &Vec<char>) -> (b: bool)
    ensures
        b == starts_with_spec(l@, key@ + seq![':']),
{
    if l.len() <= key.len() {
        return false;
    }
    let mut i: usize = 0;
    while i < key.len()
        invariant
            i <= key@.len(),
            key@.len() as int + 1 <= l@.len(),
            forall|k: int| 0 <= k < i ==> l@[k] == key@[k],
        decreases key@.len() - i,
    {
        if l[i] != key[i] {
            assert(l@.take(key@.len() as int + 1)[i as int] != (key@ + seq![':'])[i as int]);
            return false;
        }
        i = i + 1;
    }
    if l[key.len()] != ':' {
        assert(l@.take(key@.len() as int + 1)[key@.len() as int] != (key@ + seq![':'])[key@.len() as int]);
        return false;
    }
    assert(l@.take(key@.len() as int + 1) =~= key@ + seq![':']);
    true
}

/// A field of a text's front matter (see [`frontmatter_field`]).
pub fn frontmatter_value(content: &str, key: &str) -> (r: Option<String>)
    ensures
        match r {
            Some(v) => frontmatter_field(content@, key@) == Some(v@),
            None => frontmatter_field(content@, key@) is None,
        },
{
    let c = chars_of(content);
    let k = chars_of(key);
    let raw = split_chars(c.as_slice(), '\n');
    let ghost lines = content_lines(content@);
    let mut ls: Vec<Vec<char>> = Vec::new();
    let mut i: usize = 0;
    while i < raw.len()
        invariant
            c@ == content@,
            lines == content_lines(content@),
            raw@.len() == split_spec(c@, '\n').len(),
            forall|q: int| 0 <= q < raw@.len() ==> #[trigger] raw@[q]@ == split_spec(c@, '\n')[q],
            i <= raw@.len(),
            ls@.len() == i,
            forall|q: int| 0 <= q < i ==> #[trigger] ls@[q]@ == lines[q],
        decreases raw@.len() - i,
    {
        ls.push(strip_cr_exec(&raw[i]));
        i = i + 1;
    }
    if ls.len() == 0 || !is_fence(&ls[0]) {
        return None;
    }
    assert(ls@[0]@ == lines[0]);
    let mut end: usize = 1;
    while end < ls.len() && !is_fence(&ls[end])
        invariant
            1 <= end <= ls@.len(),
            ls@.len() == lines.len(),
            forall|q: int| 0 <= q < ls@.len() ==> #[trigger] ls@[q]@ == lines[q],
            fence_from(lines, 1) == fence_from(lines, end as int),
        decreases ls@.len() - end,
    {
        assert(ls@[end as int]@ == lines[end as int]);
        end = end + 1;
    }
    if end == ls.len() {
        return None;
    }
    assert(ls@[end as int]@ == lines[end as int]);
    assert(fence_from(lines, end as int) == Some(end as int));
    let mut j: usize = 1;
    while j < end
        invariant
            1 <= j <= end < ls@.len(),
            ls@.len() == lines.len(),
            lines == content_lines(content@),
            lines[0] == "---"@,
            fence_from(lines, 1) == Some(end as int),
            k@ == key@,
            forall|q: int| 0 <= q < ls@.len() ==> #[trigger] ls@[q]@ == lines[q],
            field_from(lines, key@, 1, end as int) == field_from(lines, key@, j as int, end as int),
        decreases end - j,
    {
        assert(ls@[j as int]@ == lines[j as int]);
        if starts_with_field(&ls[j], &k) {
            let line = &ls[j];
            let llen = line.len();
            let mut rest: Vec<char> = Vec::new();
            let mut q = k.len() + 1;
            while q < line.len()
                invariant
                    k@.len() as int + 1 <= q <= line@.len(),
                    rest@ == line@.subrange(k@.len() as int + 1, q as int),
                decreases line@.len() - q,
            {
                rest.push(line[q]);
                assert(line@.subrange(k@.len() as int + 1, q as int).push(line@[q as int]) =~= line@.subrange(
                    k@.len() as int + 1,
                    q + 1,
                ));
                q = q + 1;
            }
            assert(rest@ =~= line@.skip(k@.len() as int + 1));
            let v = trim_chars(rest.as_slice());
            return Some(string_from_chars(v.as_slice()));
        }
        j = j + 1;
    }
    None
}

/// A bundled skill's description in `locale` (see [`localized_description_spec`]).
pub fn localized_bundled_skill_description(content: &str, locale: LocaleId) -> (r: Option<String>)
    ensures
        match r {
            Some(v) => localized_description_spec(content@, locale) == Some(v@),
            None => localized_description_spec(content@, locale) is None,
        },
{
    match locale {
        LocaleId::EnUs => None,
        LocaleId::ZhCn => match frontmatter_value(content, "description_zh_CN") {
            Some(v) => if chars_of(v.as_str()).len() > 0 {
                Some(v)
            } else {
                None
            },
            None => None,
        },
    }
}

/// A bundled skill's description: the one in `locale` where its front matter
/// has it, else its own.
pub fn skill_description(default_description: &str, content: &str, locale: LocaleId) -> (r: String)
    ensures
        r@ == match localized_description_spec(content@, locale) {
            Some(v) => v,
            None => default_description@,
        },
{
    match localized_bundled_skill_description(content, locale) {
        Some(v) => v,
        None => default_description.to_owned(),
    }
}

} // verus!
