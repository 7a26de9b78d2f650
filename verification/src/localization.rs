//! Localized text: catalogs of translated templates per locale, lookup with
//! fallback to the default locale, and `{name}` placeholder filling.

use vstd::prelude::*;

use crate::template::{
    extract_from, extract_template_args_spec, find_char_from, find_char_spec, find_sub_spec,
    lemma_find_char_bounds, lemma_find_sub_bounds, lookup_arg, pairs_view, slice_to_vec,
    starts_with_spec,
};
use crate::text::{chars_eq, chars_of, copy_chars, extend_chars, string_from_chars};

verus! {

/// A display locale with a bundled catalog.
#[derive(Debug, Clone, Copy, PartialEq, Eq, Hash, Structural)]
pub enum LocaleId {
    EnUs,
    ZhCn,
}

impl LocaleId {
    /// The BCP 47 code of the locale.
    pub fn code(&self) -> (code: &'static str)
        ensures
            code@ == locale_code_spec(*self),
    {
        proof {
            reveal_strlit("en-US");
            reveal_strlit("zh-CN");
        }
        match self {
            LocaleId::EnUs => "en-US",
            LocaleId::ZhCn => "zh-CN",
        }
    }
}

pub open spec fn locale_code_spec(locale: LocaleId) -> Seq<char> {
    match locale {
        LocaleId::EnUs => seq!['e', 'n', '-', 'U', 'S'],
        LocaleId::ZhCn => seq!['z', 'h', '-', 'C', 'N'],
    }
}

/// The catalog of one locale: translation keys with their templates.
#[derive(Debug, Clone)]
pub struct Catalog {
    pub locale: LocaleId,
    pub entries: Vec<(String, String)>,
}

/// The catalogs of all locales, with the locale that others fall back to.
#[derive(Debug, Clone)]
pub struct CatalogBundle {
    pub default_locale: LocaleId,
    pub catalogs: Vec<Catalog>,
}

/// Where a looked-up text came from.
#[derive(Debug, Clone, Copy, PartialEq, Eq)]
pub enum TranslationSource {
    /// The requested locale's catalog.
    Locale,
    /// The default locale's catalog.
    Default,
    /// Neither catalog has the key; the key itself stands in for the text.
    Key,
}

/// A looked-up text and where it came from.
#[derive(Debug, Clone)]
pub struct Lookup {
    pub text: String,
    pub source: TranslationSource,
}

/// The template of `key` in the entries, if any (the first entry wins).
pub open spec fn entry_spec(entries: Seq<(Seq<char>, Seq<char>)>, key: Seq<char>) -> Option<
    Seq<char>,
> {
    lookup_arg(entries, key)
}

/// The entries of the first catalog of `locale`, if the bundle has one.
pub open spec fn catalog_entries_spec(catalogs: Seq<Catalog>, locale: LocaleId) -> Option<
    Seq<(Seq<char>, Seq<char>)>,
>
    decreases catalogs.len(),
{
    if catalogs.len() == 0 {
        None
    } else if catalogs[0].locale == locale {
        Some(pairs_view(catalogs[0].entries@))
    } else {
        catalog_entries_spec(catalogs.drop_first(), locale)
    }
}

/// The template of `key` in the catalog of `locale`.
pub open spec fn locale_text_spec(b: CatalogBundle, locale: LocaleId, key: Seq<char>) -> Option<
    Seq<char>,
> {
    match catalog_entries_spec(b.catalogs@, locale) {
        Some(entries) => entry_spec(entries, key),
        None => None,
    }
}

/// The looked-up text of `key` for `locale`: the locale's own template, else
/// the default locale's, else the key itself.
pub open spec fn lookup_spec(b: CatalogBundle, locale: LocaleId, key: Seq<char>) -> (
    Seq<char>,
    TranslationSource,
) {
    match locale_text_spec(b, locale, key) {
        Some(t) => (t, TranslationSource::Locale),
        None => match locale_text_spec(b, b.default_locale, key) {
            Some(t) => (t, TranslationSource::Default),
            None => (key, TranslationSource::Key),
        },
    }
}

pub open spec fn text_spec(b: CatalogBundle, locale: LocaleId, key: Seq<char>) -> Seq<char> {
    lookup_spec(b, locale, key).0
}

pub(crate) fn entry_lookup(entries: &Vec<(String, String)>, key: &[char]) -> (r: Option<String>)
    ensures
        match r {
            Some(t) => entry_spec(pairs_view(entries@), key@) == Some(t@),
            None => entry_spec(pairs_view(entries@), key@) is None,
        },
{
    let mut i: usize = 0;
    assert(pairs_view(entries@).skip(0) =~= pairs_view(entries@));
    while i < entries.len()
        invariant
            i <= entries@.len(),
            lookup_arg(pairs_view(entries@), key@) == lookup_arg(
                pairs_view(entries@).skip(i as int),
                key@,
            ),
        decreases entries@.len() - i,
    {
        let ghost rest = pairs_view(entries@).skip(i as int);
        assert(rest[0] == (entries@[i as int].0@, entries@[i as int].1@));
        let k = chars_of(entries[i].0.as_str());
        if chars_eq(k.as_slice(), key) {
            return Some(entries[i].1.clone());
        }
        assert(rest.drop_first() =~= pairs_view(entries@).skip(i + 1));
        i = i + 1;
    }
    None
}

impl CatalogBundle {
    fn locale_text(&self, locale: LocaleId, key: &[char]) -> (r: Option<String>)
        ensures
            match r {
                Some(t) => locale_text_spec(*self, locale, key@) == Some(t@),
                None => locale_text_spec(*self, locale, key@) is None,
            },
    {
        let mut i: usize = 0;
        assert(self.catalogs@.skip(0) =~= self.catalogs@);
        while i < self.catalogs.len()
            invariant
                i <= self.catalogs@.len(),
                catalog_entries_spec(self.catalogs@, locale) == catalog_entries_spec(
                    self.catalogs@.skip(i as int),
                    locale,
                ),
            decreases self.catalogs@.len() - i,
        {
            let ghost rest = self.catalogs@.skip(i as int);
            assert(rest[0] == self.catalogs@[i as int]);
            if self.catalogs[i].locale == locale {
                return entry_lookup(&self.catalogs[i].entries, key);
            }
            assert(rest.drop_first() =~= self.catalogs@.skip(i + 1));
            i = i + 1;
        }
        None
    }

    /// Looks `key` up for `locale`, falling back to the default locale and
    /// then to the key itself.
    pub fn lookup(&self, locale: LocaleId, key: &str) -> (r: Lookup)
        ensures
            (r.text@, r.source) == lookup_spec(*self, locale, key@),
    {
        let k = chars_of(key);
        match self.locale_text(locale, k.as_slice()) {
            Some(t) => Lookup { text: t, source: TranslationSource::Locale },
            None => match self.locale_text(self.default_locale, k.as_slice()) {
                Some(t) => Lookup { text: t, source: TranslationSource::Default },
                None => Lookup {
                    text: string_from_chars(k.as_slice()),
                    source: TranslationSource::Key,
                },
            },
        }
    }

    /// The text of `key` for `locale` (see [`CatalogBundle::lookup`]).
    pub fn text(&self, locale: LocaleId, key: &str) -> (r: String)
        ensures
            r@ == text_spec(*self, locale, key@),
    {
        self.lookup(locale, key).text
    }
}

/// `template` with each `{name}` placeholder replaced by the value of `name`
/// in `args`; a `{` without a closing `}` is kept as text. `None` when a
/// placeholder has no value.
pub open spec fn fill_spec(template: Seq<char>, args: Seq<(Seq<char>, Seq<char>)>) -> Option<
    Seq<char>,
>
    decreases template.len(),
{
    match find_char_spec(template, '{') {
        None => Some(template),
        Some(start) => match find_char_spec(template.skip(start), '}') {
            None => Some(template),
            Some(rel_end) => {
                proof {
                    lemma_find_char_bounds(template, '{');
                    lemma_find_char_bounds(template.skip(start), '}');
                }
                let end = start + rel_end;
                match lookup_arg(args, template.subrange(start + 1, end)) {
                    None => None,
                    Some(value) => match fill_spec(template.skip(end + 1), args) {
                        Some(rest) => Some(template.take(start) + value + rest),
                        None => None,
                    },
                }
            },
        },
    }
}

/// A placeholder of the template has no value among the arguments.
#[derive(Debug, Clone, PartialEq, Eq)]
pub enum PlaceholderError {
    MissingArgument { name: String },
}

pub open spec fn prepend_spec(front: Seq<char>, rest: Option<Seq<char>>) -> Option<Seq<char>> {
    match rest {
        Some(r) => Some(front + r),
        None => None,
    }
}

fn arg_value(args: &Vec<(String, String)>, name: &[char]) -> (r: Option<Vec<char>>)
    ensures
        match r {
            Some(v) => lookup_arg(pairs_view(args@), name@) == Some(v@),
            None => lookup_arg(pairs_view(args@), name@) is None,
        },
{
    match entry_lookup(args, name) {
        Some(v) => Some(chars_of(v.as_str())),
        None => None,
    }
}

/// Fills the `{name}` placeholders of `template` with the values in `args`
/// (see [`fill_spec`]).
pub fn replace_placeholders(template: &str, args: &Vec<(String, String)>) -> (r: Result<
    String,
    PlaceholderError,
>)
    ensures
        match r {
            Ok(s) => fill_spec(template@, pairs_view(args@)) == Some(s@),
            Err(_) => fill_spec(template@, pairs_view(args@)) is None,
        },
{
    let t = chars_of(template);
    let mut out: Vec<char> = Vec::new();
    let mut pc: usize = 0;
    let ghost av = pairs_view(args@);
    assert(t@.skip(0) =~= t@);
    assert(out@ + Seq::<char>::empty() =~= out@);
    loop
        invariant
            t@ == template@,
            av == pairs_view(args@),
            pc <= t@.len() == t.len(),
            fill_spec(template@, av) == prepend_spec(out@, fill_spec(t@.skip(pc as int), av)),
        decreases t@.len() - pc,
    {
        let ghost rest = t@.skip(pc as int);
        proof {
            lemma_find_char_bounds(rest, '{');
        }
        match find_char_from(&t, pc, '{') {
            None => {
                let tail = slice_to_vec(&t, pc, t.len());
                assert(tail@ =~= rest);
                extend_chars(&mut out, tail.as_slice());
                return Ok(string_from_chars(out.as_slice()));
            },
            Some(start) => {
                assert(rest.skip(start - pc) =~= t@.skip(start as int));
                proof {
                    lemma_find_char_bounds(t@.skip(start as int), '}');
                    assert(t@.skip(start as int)[0] == '{');
                }
                match find_char_from(&t, start, '}') {
                    None => {
                        let tail = slice_to_vec(&t, pc, t.len());
                        assert(tail@ =~= rest);
                        extend_chars(&mut out, tail.as_slice());
                        return Ok(string_from_chars(out.as_slice()));
                    },
                    Some(end) => {
                        let name = slice_to_vec(&t, start + 1, end);
                        assert(name@ =~= rest.subrange(start - pc + 1, end - pc));
                        match arg_value(args, name.as_slice()) {
                            None => {
                                return Err(
                                    PlaceholderError::MissingArgument {
                                        name: string_from_chars(name.as_slice()),
                                    },
                                );
                            },
                            Some(value) => {
                                let lit = slice_to_vec(&t, pc, start);
                                assert(lit@ =~= rest.take(start - pc));
                                assert(rest.skip(end - pc + 1) =~= t@.skip(end + 1));
                                let ghost before = out@;
                                extend_chars(&mut out, lit.as_slice());
                                extend_chars(&mut out, value.as_slice());
                                proof {
                                    match fill_spec(t@.skip(end + 1), av) {
                                        Some(r) => {
                                            assert(before + (lit@ + value@ + r) =~= out@ + r);
                                        },
                                        None => {},
                                    }
                                }
                                pc = end + 1;
                            },
                        }
                    },
                }
            },
        }
    }
}

/// A text to show, as a catalog key and the values of its placeholders.
#[derive(Debug, Clone)]
pub struct LocalizedMessage {
    pub key: String,
    pub args: Vec<(String, String)>,
}

/// The text of a message for `locale`: its template, filled.
pub open spec fn render_spec(b: CatalogBundle, locale: LocaleId, m: LocalizedMessage) -> Option<
    Seq<char>,
> {
    fill_spec(text_spec(b, locale, m.key@), pairs_view(m.args@))
}

impl CatalogBundle {
    /// The text of `message` for `locale` (see [`replace_placeholders`]).
    pub fn render(&self, locale: LocaleId, message: &LocalizedMessage) -> (r: Result<
        String,
        PlaceholderError,
    >)
        ensures
            match r {
                Ok(s) => render_spec(*self, locale, *message) == Some(s@),
                Err(_) => render_spec(*self, locale, *message) is None,
            },
    {
        let template = self.text(locale, message.key.as_str());
        replace_placeholders(template.as_str(), &message.args)
    }
}


impl CatalogBundle {
    /// The text of `key` for `locale` where a catalog has it, else `fallback`.
    pub fn text_or(&self, locale: LocaleId, key: &str, fallback: &str) -> (r: String)
        ensures
            r@ == if lookup_spec(*self, locale, key@).1 == TranslationSource::Key {
                fallback@
            } else {
                lookup_spec(*self, locale, key@).0
            },
    {
        let lookup = self.lookup(locale, key);
        match lookup.source {
            TranslationSource::Key => fallback.to_owned(),
            _ => lookup.text,
        }
    }

    /// A key whose text in the default locale's catalog is `text`, if any.
    pub fn key_for_default_text(&self, text: &str) -> (r: Option<String>)
        ensures
            match r {
                Some(k) => exists|entries: Seq<(Seq<char>, Seq<char>)>, i: int|
                    catalog_entries_spec(self.catalogs@, self.default_locale) == Some(entries) && 0 <= i
                        < entries.len() && #[trigger] entries[i] == (k@, text@),
                None => forall|entries: Seq<(Seq<char>, Seq<char>)>, i: int|
                    catalog_entries_spec(self.catalogs@, self.default_locale) == Some(entries) && 0 <= i
                        < entries.len() ==> #[trigger] entries[i].1 != text@,
            },
    {
        let tc = chars_of(text);
        let mut c: usize = 0;
        assert(self.catalogs@.skip(0) =~= self.catalogs@);
        while c < self.catalogs.len()
            invariant
                tc@ == text@,
                c <= self.catalogs@.len(),
                catalog_entries_spec(self.catalogs@, self.default_locale) == catalog_entries_spec(
                    self.catalogs@.skip(c as int),
                    self.default_locale,
                ),
            decreases self.catalogs@.len() - c,
        {
            let ghost rest = self.catalogs@.skip(c as int);
            assert(rest[0] == self.catalogs@[c as int]);
            if self.catalogs[c].locale == self.default_locale {
                let entries = &self.catalogs[c].entries;
                let ghost ev = pairs_view(entries@);
                let mut found: Option<usize> = None;
                let mut i: usize = 0;
                while i < entries.len()
                    invariant
                        tc@ == text@,
                        ev == pairs_view(entries@),
                        i <= entries@.len(),
                        match found {
                            Some(f) => f < i && ev[f as int].1 == text@,
                            None => forall|q: int| 0 <= q < i ==> #[trigger] ev[q].1 != text@,
                        },
                    decreases entries@.len() - i,
                {
                    let v = chars_of(entries[i].1.as_str());
                    if chars_eq(v.as_slice(), tc.as_slice()) {
                        found = Some(i);
                    }
                    i = i + 1;
                }
                return match found {
                    Some(f) => {
                        assert(ev[f as int] == (entries@[f as int].0@, text@));
                        Some(entries[f].0.clone())
                    },
                    None => None,
                };
            }
            assert(rest.drop_first() =~= self.catalogs@.skip(c + 1));
            c = c + 1;
        }
        None
    }
}

/// Replaces the remembered system locale candidates with `candidates`;
/// `true` when they differ from what was remembered.
pub fn replace_system_locale_candidates(cache: &mut Vec<String>, candidates: Vec<String>) -> (changed: bool)
    ensures
        final(cache)@.map_values(|s: String| s@) == candidates@.map_values(|s: String| s@),
        changed == (old(cache)@.map_values(|s: String| s@) != candidates@.map_values(|s: String| s@)),
{
    let ghost old_view = cache@.map_values(|s: String| s@);
    let ghost new_view = candidates@.map_values(|s: String| s@);
    let mut same = cache.len() == candidates.len();
    proof {
        if !same {
            assert(old_view.len() != new_view.len());
        }
    }
    let mut i: usize = 0;
    while same && i < cache.len()
        invariant
            same ==> cache@.len() == candidates@.len(),
            same ==> forall|q: int| 0 <= q < i ==> #[trigger] old_view[q] == new_view[q],
            !same ==> old_view != new_view,
            old_view == cache@.map_values(|s: String| s@),
            new_view == candidates@.map_values(|s: String| s@),
            i <= cache@.len(),
        decreases cache@.len() - i,
    {
        let a = chars_of(cache[i].as_str());
        let b = chars_of(candidates[i].as_str());
        if !chars_eq(a.as_slice(), b.as_slice()) {
            assert(old_view[i as int] != new_view[i as int]);
            same = false;
        }
        i = i + 1;
    }
    if same {
        assert(old_view =~= new_view);
        false
    } else {
        *cache = candidates;
        true
    }
}


impl CatalogBundle {
    /// An error message with a label in front, in `locale`: the
    /// `error.labeled` template with the label and the message; `Err` where
    /// the template names another placeholder.
    pub fn labeled_error(&self, locale: LocaleId, label: &str, message: &str) -> (r: Result<String, PlaceholderError>)
        ensures
            match r {
                Ok(s) => fill_spec(
                    text_spec(*self, locale, "error.labeled"@),
                    seq![("label"@, label@), ("message"@, message@)],
                ) == Some(s@),
                Err(_) => fill_spec(
                    text_spec(*self, locale, "error.labeled"@),
                    seq![("label"@, label@), ("message"@, message@)],
                ) is None,
            },
    {
        let mut args: Vec<(String, String)> = Vec::new();
        args.push(("label".to_owned(), label.to_owned()));
        args.push(("message".to_owned(), message.to_owned()));
        assert(pairs_view(args@) =~= seq![("label"@, label@), ("message"@, message@)]);
        self.render(locale, &LocalizedMessage { key: "error.labeled".to_owned(), args })
    }

    /// The message for a file picker that failed with `error`, in `locale`;
    /// `Err` where the template names another placeholder.
    pub fn file_picker_error(&self, locale: LocaleId, error: &str) -> (r: Result<String, PlaceholderError>)
        ensures
            match r {
                Ok(s) => fill_spec(text_spec(*self, locale, "file_picker.error"@), seq![("error"@, error@)])
                    == Some(s@),
                Err(_) => fill_spec(
                    text_spec(*self, locale, "file_picker.error"@),
                    seq![("error"@, error@)],
                ) is None,
            },
    {
        let mut args: Vec<(String, String)> = Vec::new();
        args.push(("error".to_owned(), error.to_owned()));
        assert(pairs_view(args@) =~= seq![("error"@, error@)]);
        self.render(locale, &LocalizedMessage { key: "file_picker.error".to_owned(), args })
    }
}

/// No name occurs twice among `args`.
pub open spec fn names_distinct(args: Seq<(Seq<char>, Seq<char>)>) -> bool {
    forall|i: int, j: int| 0 <= i < j < args.len() ==> args[i].0 != args[j].0
}

/// `pattern` holds the placeholder `{name}`.
pub open spec fn has_placeholder(pattern: Seq<char>, name: Seq<char>) -> bool {
    exists|k: int|
        #![trigger pattern.skip(k)]
        0 <= k <= pattern.len() && starts_with_spec(pattern.skip(k), seq!['{'] + name + seq!['}'])
}

proof fn lemma_lookup_none(args: Seq<(Seq<char>, Seq<char>)>, name: Seq<char>)
    requires
        lookup_arg(args, name) is None,
    ensures
        forall|i: int| 0 <= i < args.len() ==> #[trigger] args[i].0 != name,
    decreases args.len(),
{
    if args.len() > 0 {
        lemma_lookup_none(args.drop_first(), name);
        assert forall|i: int| 0 <= i < args.len() implies #[trigger] args[i].0 != name by {
            if i > 0 {
                assert(args[i] == args.drop_first()[i - 1]);
            }
        }
    }
}

proof fn lemma_lookup_push(args: Seq<(Seq<char>, Seq<char>)>, name: Seq<char>, value: Seq<char>)
    requires
        lookup_arg(args, name) is None,
    ensures
        lookup_arg(args.push((name, value)), name) == Some(value),
    decreases args.len(),
{
    if args.len() > 0 {
        assert(args.push((name, value)).drop_first() =~= args.drop_first().push((name, value)));
        lemma_lookup_push(args.drop_first(), name, value);
    }
}

/// A value found among `args` is found first in any sequence that begins
/// with `args`.
proof fn lemma_lookup_extends(
    args: Seq<(Seq<char>, Seq<char>)>,
    out: Seq<(Seq<char>, Seq<char>)>,
    name: Seq<char>,
)
    requires
        lookup_arg(args, name) is Some,
        args.len() <= out.len(),
        forall|i: int| 0 <= i < args.len() ==> out[i] == args[i],
    ensures
        lookup_arg(out, name) == lookup_arg(args, name),
    decreases args.len(),
{
    if args[0].0 != name {
        assert forall|i: int| 0 <= i < args.drop_first().len() implies out.drop_first()[i]
            == args.drop_first()[i] by {
            assert(out[i + 1] == args[i + 1]);
        }
        lemma_lookup_extends(args.drop_first(), out.drop_first(), name);
    }
}

proof fn lemma_placeholder_shift(pattern: Seq<char>, d: int, name: Seq<char>)
    requires
        0 <= d <= pattern.len(),
        has_placeholder(pattern.skip(d), name),
    ensures
        has_placeholder(pattern, name),
{
    let k = choose|k: int|
        #![trigger pattern.skip(d).skip(k)]
        0 <= k <= pattern.skip(d).len() && starts_with_spec(
            pattern.skip(d).skip(k),
            seq!['{'] + name + seq!['}'],
        );
    assert(pattern.skip(d).skip(k) =~= pattern.skip(d + k));
}

/// The text that extracting left after the values `args` is `pattern`
/// filled with the values finally read, `out`; those extend `args`, keep
/// their names distinct, and each name added is a placeholder of `pattern`.
proof fn lemma_extract_from_fills_back(
    pattern: Seq<char>,
    message: Seq<char>,
    args: Seq<(Seq<char>, Seq<char>)>,
    out: Seq<(Seq<char>, Seq<char>)>,
)
    requires
        extract_from(pattern, message, args) == Some(out),
        names_distinct(args),
    ensures
        args.len() <= out.len(),
        forall|i: int| 0 <= i < args.len() ==> out[i] == args[i],
        names_distinct(out),
        forall|i: int| args.len() <= i < out.len() ==> has_placeholder(pattern, #[trigger] out[i].0),
        fill_spec(pattern, out) == Some(message),
    decreases pattern.len(),
{
    lemma_find_char_bounds(pattern, '{');
    if let Some(ps) = find_char_spec(pattern, '{') {
        let literal = pattern.take(ps);
        let m1 = message.skip(literal.len() as int);
        lemma_find_char_bounds(pattern.skip(ps), '}');
        let rel_end = find_char_spec(pattern.skip(ps), '}')->0;
        let pe = ps + rel_end;
        let name = pattern.subrange(ps + 1, pe);
        let rest = pattern.skip(pe + 1);
        let next = match find_char_spec(rest, '{') {
            Some(i) => i,
            None => rest.len() as int,
        };
        let next_literal = rest.take(next);
        let value_len: Option<int> = if next_literal.len() == 0 {
            if next < rest.len() {
                None
            } else {
                Some(m1.len() as int)
            }
        } else {
            find_sub_spec(m1, next_literal)
        };
        lemma_find_sub_bounds(m1, next_literal);
        let vl = value_len->0;
        let value = m1.take(vl);
        let args2 = if lookup_arg(args, name) is Some {
            args
        } else {
            args.push((name, value))
        };
        if lookup_arg(args, name) is None {
            lemma_lookup_none(args, name);
            lemma_lookup_push(args, name, value);
        }
        lemma_extract_from_fills_back(rest, m1.skip(vl), args2, out);
        lemma_lookup_extends(args2, out, name);
        assert(pattern.skip(ps)[rel_end] == pattern[pe]);
        assert forall|i: int| args.len() <= i < out.len() implies has_placeholder(
            pattern,
            #[trigger] out[i].0,
        ) by {
            if i >= args2.len() {
                lemma_placeholder_shift(pattern, pe + 1, out[i].0);
            } else {
                assert(out[i] == (name, value));
                assert(pattern.skip(ps).take(name.len() + 2int) =~= seq!['{'] + name + seq!['}']);
            }
        }
        assert(literal + value + m1.skip(vl) =~= message);
    }
}

/// Extraction undoes filling: when `args` are the values read out of
/// `message` by `pattern`, filling `pattern` with `args` gives back `message`.
/// No name is read twice, and each name read is a placeholder of `pattern`.
pub proof fn law_extracted_arguments_fill_back(
    pattern: Seq<char>,
    message: Seq<char>,
    args: Seq<(Seq<char>, Seq<char>)>,
)
    requires
        extract_template_args_spec(pattern, message) == Some(args),
    ensures
        fill_spec(pattern, args) == Some(message),
        names_distinct(args),
        forall|i: int| 0 <= i < args.len() ==> has_placeholder(pattern, #[trigger] args[i].0),
{
    lemma_extract_from_fills_back(pattern, message, Seq::empty(), args);
}

} // verus!
