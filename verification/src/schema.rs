//! The settings JSON Schema in the user's language: which locale is asked
//! for, the catalog keys of setting descriptions, the root title and
//! description, and the translations of English texts that are unambiguous.

use vstd::prelude::*;

use crate::localization::{
    catalog_entries_spec, fill_spec, lookup_spec, text_spec, CatalogBundle, LocaleId,
    LocalizedMessage, PlaceholderError, TranslationSource,
};
use crate::output::args2;
use crate::template::{lookup_arg, pairs_view};
use crate::runner::opt_view;
use crate::text::{chars_eq, chars_of, decimal_spec, extend_str, string_from_chars, u64_to_decimal};

verus! {

/// Parses the `--locale` argument: `en-US` or `zh-CN`.
pub open spec fn parse_locale_spec(value: Seq<char>) -> Option<LocaleId> {
    if value == "en-US"@ {
        Some(LocaleId::EnUs)
    } else if value == "zh-CN"@ {
        Some(LocaleId::ZhCn)
    } else {
        None
    }
}

/// The locale a `--locale` value names; `Err` with the message to print otherwise.
pub fn parse_locale(value: &str) -> (r: Result<LocaleId, String>)
    ensures
        match r {
            Ok(l) => parse_locale_spec(value@) == Some(l),
            Err(m) => parse_locale_spec(value@) is None && m@ == "Unknown locale '"@ + value@
                + "'. Expected en-US or zh-CN."@,
        },
{
    let v = chars_of(value);
    let en = chars_of("en-US");
    let zh = chars_of("zh-CN");
    if chars_eq(v.as_slice(), en.as_slice()) {
        Ok(LocaleId::EnUs)
    } else if chars_eq(v.as_slice(), zh.as_slice()) {
        Ok(LocaleId::ZhCn)
    } else {
        let mut m: Vec<char> = Vec::new();
        extend_str(&mut m, "Unknown locale '");
        extend_str(&mut m, value);
        extend_str(&mut m, "'. Expected en-US or zh-CN.");
        Err(string_from_chars(m.as_slice()))
    }
}

/// A setting as the schema lists it.
#[derive(Clone, Debug)]
pub struct SettingSchemaEntry {
    pub storage_key: String,
    pub hierarchy: Option<String>,
    pub description: String,
}

/// The catalog key of a setting's description:
/// `settings.schema.[hierarchy.]storage_key.description`.
pub open spec fn schema_translation_key_spec(e: SettingSchemaEntry) -> Seq<char> {
    match e.hierarchy {
        Some(h) => "settings.schema."@ + h@ + "."@ + e.storage_key@ + ".description"@,
        None => "settings.schema."@ + e.storage_key@ + ".description"@,
    }
}

pub fn schema_translation_key(entry: &SettingSchemaEntry) -> (k: String)
    ensures
        k@ == schema_translation_key_spec(*entry),
{
    let mut out: Vec<char> = Vec::new();
    extend_str(&mut out, "settings.schema.");
    match &entry.hierarchy {
        Some(h) => {
            extend_str(&mut out, h.as_str());
            extend_str(&mut out, ".");
        },
        None => {},
    }
    extend_str(&mut out, entry.storage_key.as_str());
    extend_str(&mut out, ".description");
    assert(out@ =~= schema_translation_key_spec(*entry));
    string_from_chars(out.as_slice())
}

/// A setting's description in `locale`: the catalog's where a catalog has
/// its key, else the setting's own.
pub fn localized_setting_description(catalogs: &CatalogBundle, locale: LocaleId, entry: &SettingSchemaEntry) -> (r:
    String)
    ensures
        r@ == if lookup_spec(*catalogs, locale, schema_translation_key_spec(*entry)).1
            == TranslationSource::Key {
            entry.description@
        } else {
            lookup_spec(*catalogs, locale, schema_translation_key_spec(*entry)).0
        },
{
    let key = schema_translation_key(entry);
    catalogs.text_or(locale, key.as_str(), entry.description.as_str())
}

/// The schema's title in `locale`.
pub fn root_title(catalogs: &CatalogBundle, locale: LocaleId) -> (r: String)
    ensures
        r@ == text_spec(*catalogs, locale, "settings.schema.root.title"@),
{
    catalogs.text(locale, "settings.schema.root.title")
}

/// The schema's description in `locale`, naming the release channel and how
/// many settings it lists; `Err` where the template names another placeholder.
pub fn root_description(catalogs: &CatalogBundle, locale: LocaleId, channel: &str, entry_count: usize) -> (r:
    Result<String, PlaceholderError>)
    ensures
        match r {
            Ok(s) => fill_spec(
                text_spec(*catalogs, locale, "settings.schema.root.description"@),
                seq![("channel"@, channel@), ("entry_count"@, decimal_spec(entry_count as int))],
            ) == Some(s@),
            Err(_) => fill_spec(
                text_spec(*catalogs, locale, "settings.schema.root.description"@),
                seq![("channel"@, channel@), ("entry_count"@, decimal_spec(entry_count as int))],
            ) is None,
        },
{
    let count = u64_to_decimal(entry_count as u64);
    catalogs.render(
        locale,
        &LocalizedMessage {
            key: "settings.schema.root.description".to_owned(),
            args: args2("channel", channel, "entry_count", count.as_str()),
        },
    )
}

/// The frontends a setting appears in.
#[derive(Clone, Copy, Debug)]
pub struct SettingSurfaces {
    pub gui: bool,
    pub tui: bool,
}

/// The names of the frontends a setting appears in, GUI first.
pub fn setting_surface_names(surfaces: SettingSurfaces) -> (names: Vec<&'static str>)
    ensures
        names@.map_values(|s: &str| s@) == (if surfaces.gui {
            seq!["gui"@]
        } else {
            Seq::empty()
        }) + (if surfaces.tui {
            seq!["tui"@]
        } else {
            Seq::empty()
        }),
{
    let mut names: Vec<&'static str> = Vec::new();
    if surfaces.gui {
        names.push("gui");
    }
    if surfaces.tui {
        names.push("tui");
    }
    assert(names@.map_values(|s: &str| s@) =~= (if surfaces.gui {
        seq!["gui"@]
    } else {
        Seq::empty()
    }) + (if surfaces.tui {
        seq!["tui"@]
    } else {
        Seq::empty()
    }));
    names
}

// ---------------------------------------------------------------------------
// Unambiguous translations
// ---------------------------------------------------------------------------

/// The translation in `locale` of the default-locale entry `i`, where the
/// locale's catalog has the key with a different text.
pub open spec fn entry_translation(
    defaults: Seq<(Seq<char>, Seq<char>)>,
    locale_entries: Seq<(Seq<char>, Seq<char>)>,
    i: int,
) -> Option<Seq<char>> {
    match lookup_arg(locale_entries, defaults[i].0) {
        Some(t) => if t != defaults[i].1 {
            Some(t)
        } else {
            None
        },
        None => None,
    }
}

/// The translations of an English text: those of every entry with that text.
pub open spec fn translations_of(
    defaults: Seq<(Seq<char>, Seq<char>)>,
    locale_entries: Seq<(Seq<char>, Seq<char>)>,
    d: Seq<char>,
) -> Set<Seq<char>> {
    Set::new(
        |t: Seq<char>|
            exists|i: int|
                0 <= i < defaults.len() && #[trigger] defaults[i].1 == d && entry_translation(
                    defaults,
                    locale_entries,
                    i,
                ) == Some(t),
    )
}

/// Each English text whose entries have exactly one translation, with it.
pub open spec fn unambiguous_translations_ok(
    defaults: Seq<(Seq<char>, Seq<char>)>,
    locale_entries: Seq<(Seq<char>, Seq<char>)>,
    r: Seq<(Seq<char>, Seq<char>)>,
) -> bool {
    &&& forall|j: int|
        0 <= j < r.len() ==> translations_of(defaults, locale_entries, #[trigger] r[j].0) == set![
            r[j].1,
        ]
    &&& forall|d: Seq<char>, t: Seq<char>|
        translations_of(defaults, locale_entries, d) == set![t] ==> exists|j: int|
            0 <= j < r.len() && #[trigger] r[j] == (d, t)
    &&& forall|j: int, k: int| 0 <= j < k < r.len() ==> r[j].0 != r[k].0
}

pub open spec fn entries_of(b: CatalogBundle, locale: LocaleId) -> Seq<(Seq<char>, Seq<char>)> {
    match catalog_entries_spec(b.catalogs@, locale) {
        Some(e) => e,
        None => Seq::empty(),
    }
}

fn catalog_entries(catalogs: &CatalogBundle, locale: LocaleId) -> (r: Vec<(String, String)>)
    ensures
        pairs_view(r@) == entries_of(*catalogs, locale),
{
    let mut c: usize = 0;
    assert(catalogs.catalogs@.skip(0) =~= catalogs.catalogs@);
    while c < catalogs.catalogs.len()
        invariant
            c <= catalogs.catalogs@.len(),
            catalog_entries_spec(catalogs.catalogs@, locale) == catalog_entries_spec(
                catalogs.catalogs@.skip(c as int),
                locale,
            ),
        decreases catalogs.catalogs@.len() - c,
    {
        let ghost rest = catalogs.catalogs@.skip(c as int);
        assert(rest[0] == catalogs.catalogs@[c as int]);
        if catalogs.catalogs[c].locale == locale {
            return clone_pairs(&catalogs.catalogs[c].entries);
        }
        assert(rest.drop_first() =~= catalogs.catalogs@.skip(c + 1));
        c = c + 1;
    }
    let r: Vec<(String, String)> = Vec::new();
    assert(pairs_view(r@) =~= Seq::<(Seq<char>, Seq<char>)>::empty());
    r
}

fn clone_pairs(v: &Vec<(String, String)>) -> (r: Vec<(String, String)>)
    ensures
        pairs_view(r@) == pairs_view(v@),
{
    let mut r: Vec<(String, String)> = Vec::new();
    let mut i: usize = 0;
    while i < v.len()
        invariant
            i <= v@.len(),
            pairs_view(r@) == pairs_view(v@).take(i as int),
        decreases v@.len() - i,
    {
        let ghost before = r@;
        r.push((v[i].0.clone(), v[i].1.clone()));
        assert(pairs_view(r@) =~= pairs_view(before).push((v@[i as int].0@, v@[i as int].1@)));
        assert(pairs_view(v@).take(i + 1) =~= pairs_view(v@).take(i as int).push(
            (v@[i as int].0@, v@[i as int].1@),
        ));
        i = i + 1;
    }
    assert(pairs_view(v@).take(v@.len() as int) =~= pairs_view(v@));
    r
}

fn lookup_entry(entries: &Vec<(String, String)>, key: &[char]) -> (r: Option<String>)
    ensures
        match r {
            Some(t) => lookup_arg(pairs_view(entries@), key@) == Some(t@),
            None => lookup_arg(pairs_view(entries@), key@) is None,
        },
{
    let mut i: usize = 0;
    assert(pairs_view(entries@).skip(0) =~= pairs_view(entries@));
    while i < entries.len()
        invariant
            i <= entries@.len(),
            lookup_arg(pairs_view(entries@), key@) == lookup_arg(
                pairs_view(entries@).skip(i as int),
                key@,
            ),
        decreases entries@.len() - i,
    {
        let ghost rest = pairs_view(entries@).skip(i as int);
        assert(rest[0] == (entries@[i as int].0@, entries@[i as int].1@));
        let k = chars_of(entries[i].0.as_str());
        if chars_eq(k.as_slice(), key) {
            return Some(entries[i].1.clone());
        }
        assert(rest.drop_first() =~= pairs_view(entries@).skip(i + 1));
        i = i + 1;
    }
    None
}

fn translation_at(defaults: &Vec<(String, String)>, locale_entries: &Vec<(String, String)>, i: usize) -> (r: Option<
    String,
>)
    requires
        i < defaults@.len(),
    ensures
        match r {
            Some(t) => entry_translation(pairs_view(defaults@), pairs_view(locale_entries@), i as int)
                == Some(t@),
            None => entry_translation(pairs_view(defaults@), pairs_view(locale_entries@), i as int) is None,
        },
{
    let ghost dv = pairs_view(defaults@);
    assert(dv[i as int] == (defaults@[i as int].0@, defaults@[i as int].1@));
    let key = chars_of(defaults[i].0.as_str());
    match lookup_entry(locale_entries, key.as_slice()) {
        Some(t) => {
            let tc = chars_of(t.as_str());
            let dc = chars_of(defaults[i].1.as_str());
            if chars_eq(tc.as_slice(), dc.as_slice()) {
                None
            } else {
                Some(t)
            }
        },
        None => None,
    }
}

/// The translations in `locale` of the default locale's texts, for each text
/// whose entries all translate it the same way where they translate it at
/// all (see [`unambiguous_translations_ok`]); none in US English.
pub fn localized_catalog_text_by_default_text(catalogs: &CatalogBundle, locale: LocaleId) -> (r: Vec<
    (String, String),
>)
    ensures
        locale == LocaleId::EnUs ==> r@.len() == 0,
        locale != LocaleId::EnUs ==> unambiguous_translations_ok(
            entries_of(*catalogs, LocaleId::EnUs),
            entries_of(*catalogs, locale),
            pairs_view(r@),
        ),
{
    let mut r: Vec<(String, String)> = Vec::new();
    if locale == LocaleId::EnUs {
        return r;
    }
    let defaults = catalog_entries(catalogs, LocaleId::EnUs);
    let locale_entries = catalog_entries(catalogs, locale);
    let ghost dv = pairs_view(defaults@);
    let ghost lv = pairs_view(locale_entries@);
    let n = defaults.len();
    let mut trans: Vec<Option<String>> = Vec::new();
    let mut p: usize = 0;
    while p < n
        invariant
            n == defaults@.len(),
            dv == pairs_view(defaults@),
            lv == pairs_view(locale_entries@),
            p <= n,
            trans@.len() == p,
            forall|q: int| 0 <= q < p ==> opt_view(#[trigger] trans@[q]) == entry_translation(dv, lv, q),
        decreases n - p,
    {
        trans.push(translation_at(&defaults, &locale_entries, p));
        p = p + 1;
    }
    let mut i: usize = 0;
    while i < n
        invariant
            n == defaults@.len(),
            dv == pairs_view(defaults@),
            lv == pairs_view(locale_entries@),
            trans@.len() == n,
            forall|q: int| 0 <= q < n ==> opt_view(#[trigger] trans@[q]) == entry_translation(dv, lv, q),
            i <= n,
            forall|j: int|
                0 <= j < r@.len() ==> translations_of(dv, lv, #[trigger] pairs_view(r@)[j].0) == set![
                    pairs_view(r@)[j].1,
                ],
            forall|q: int|
                0 <= q < i && entry_translation(dv, lv, q) is Some && translations_of(dv, lv, #[trigger] dv[q].1)
                    == set![entry_translation(dv, lv, q)->Some_0] ==> exists|j: int|
                    0 <= j < r@.len() && #[trigger] pairs_view(r@)[j] == (dv[q].1, entry_translation(
                        dv,
                        lv,
                        q,
                    )->Some_0),
            forall|j: int, k: int| 0 <= j < k < r@.len() ==> pairs_view(r@)[j].0 != pairs_view(r@)[k].0,
        decreases n - i,
    {
        assert(dv[i as int] == (defaults@[i as int].0@, defaults@[i as int].1@));
        let ghost before_r = pairs_view(r@);
        assert(opt_view(trans@[i as int]) == entry_translation(dv, lv, i as int));
        match &trans[i] {
            None => {
                assert(entry_translation(dv, lv, i as int) is None);
            },
            Some(t) => {
                assert(entry_translation(dv, lv, i as int) == Some(t@));
                let d = chars_of(defaults[i].1.as_str());
                let mut unique = true;
                let mut k: usize = 0;
                while k < n
                    invariant
                        n == defaults@.len(),
                        dv == pairs_view(defaults@),
                        trans@.len() == n,
                        forall|q: int| 0 <= q < n ==> opt_view(#[trigger] trans@[q]) == entry_translation(dv, lv, q),
                        d@ == dv[i as int].1,
                        k <= n,
                        unique == forall|q: int|
                            0 <= q < k && #[trigger] dv[q].1 == d@ ==> entry_translation(dv, lv, q) is None
                                || entry_translation(dv, lv, q) == Some(t@),
                    decreases n - k,
                {
                    assert(dv[k as int] == (defaults@[k as int].0@, defaults@[k as int].1@));
                    let dk = chars_of(defaults[k].1.as_str());
                    if chars_eq(dk.as_slice(), d.as_slice()) {
                        match &trans[k] {
                            Some(tk) => {
                                let a = chars_of(tk.as_str());
                                let b = chars_of(t.as_str());
                                if !chars_eq(a.as_slice(), b.as_slice()) {
                                    unique = false;
                                }
                            },
                            None => {},
                        }
                    }
                    k = k + 1;
                }
                let ghost ts = translations_of(dv, lv, d@);
                if unique {
                    assert(ts =~= set![t@]) by {
                        assert(entry_translation(dv, lv, i as int) == Some(t@));
                        assert(ts.contains(t@));
                    }
                    let mut present = false;
                    let mut j: usize = 0;
                    while j < r.len()
                        invariant
                            j <= r@.len(),
                            d@ == dv[i as int].1,
                            present == exists|q: int| 0 <= q < j && #[trigger] pairs_view(r@)[q].0 == d@,
                        decreases r@.len() - j,
                    {
                        assert(pairs_view(r@)[j as int] == (r@[j as int].0@, r@[j as int].1@));
                        let rk = chars_of(r[j].0.as_str());
                        if chars_eq(rk.as_slice(), d.as_slice()) {
                            assert(pairs_view(r@)[j as int].0 == d@);
                            present = true;
                        } else {
                            assert(pairs_view(r@)[j as int].0 != d@);
                        }
                        j = j + 1;
                    }
                    if present {
                        let ghost q = choose|q: int| 0 <= q < r@.len() && #[trigger] pairs_view(r@)[q].0 == d@;
                        assert(translations_of(dv, lv, pairs_view(r@)[q].0) == set![pairs_view(r@)[q].1]);
                        assert(set![t@].contains(pairs_view(r@)[q].1));
                        assert(pairs_view(r@)[q] == (d@, t@));
                        assert(pairs_view(r@)[q] == (dv[i as int].1, entry_translation(dv, lv, i as int)->Some_0));
                    } else {
                        let ghost before = pairs_view(r@);
                        r.push((defaults[i].1.clone(), t.clone()));
                        assert(pairs_view(r@) =~= before.push((d@, t@)));
                        assert(pairs_view(r@)[before.len() as int] == (dv[i as int].1, entry_translation(
                            dv,
                            lv,
                            i as int,
                        )->Some_0));
                    }
                } else {
                    assert forall|t2: Seq<char>| ts != set![t2] by {
                        let q = choose|q: int|
                            0 <= q < n && #[trigger] dv[q].1 == d@ && !(entry_translation(dv, lv, q) is None
                                || entry_translation(dv, lv, q) == Some(t@));
                        let t3 = entry_translation(dv, lv, q)->Some_0;
                        assert(ts.contains(t3));
                        assert(entry_translation(dv, lv, i as int) == Some(t@));
                        assert(ts.contains(t@));
                        assert(t3 != t@);
                        if ts == set![t2] {
                            assert(set![t2].contains(t3));
                            assert(set![t2].contains(t@));
                        }
                    }
                    assert(translations_of(dv, lv, dv[i as int].1) != set![entry_translation(dv, lv, i as int)->Some_0]);
                }
            },
        }
        proof {
            assert(forall|j: int| 0 <= j < before_r.len() ==> pairs_view(r@)[j] == before_r[j]);
            assert forall|q: int|
                0 <= q < i + 1 && entry_translation(dv, lv, q) is Some && translations_of(
                    dv,
                    lv,
                    #[trigger] dv[q].1,
                ) == set![entry_translation(dv, lv, q)->Some_0] implies exists|j: int|
                0 <= j < r@.len() && #[trigger] pairs_view(r@)[j] == (dv[q].1, entry_translation(
                    dv,
                    lv,
                    q,
                )->Some_0) by {
                if q < i {
                    let j = choose|j: int|
                        0 <= j < before_r.len() && #[trigger] before_r[j] == (dv[q].1, entry_translation(
                            dv,
                            lv,
                            q,
                        )->Some_0);
                    assert(pairs_view(r@)[j] == before_r[j]);
                } else {
                    assert(q == i);
                    assert(opt_view(trans@[q]) == entry_translation(dv, lv, q));
                }
            }
        }
        i = i + 1;
    }
    proof {
        assert forall|d: Seq<char>, t: Seq<char>|
            translations_of(dv, lv, d) == set![t] implies exists|j: int|
                0 <= j < pairs_view(r@).len() && #[trigger] pairs_view(r@)[j] == (d, t) by {
            assert(translations_of(dv, lv, d).contains(t));
            let q = choose|q: int|
                0 <= q < dv.len() && #[trigger] dv[q].1 == d && entry_translation(dv, lv, q) == Some(t);
            assert(dv[q].1 == d);
            assert(translations_of(dv, lv, dv[q].1) == set![t]);
        }
    }
    r
}

} // verus!
