//! Locale candidates read from the POSIX locale environment variables.

use vstd::prelude::*;

use crate::text::{chars_of, split_chars, split_spec, string_from_chars, trim_chars, trim_spec};

verus! {

/// The view of an optional string.
pub open spec fn opt_string_view(o: Option<String>) -> Option<Seq<char>> {
    match o {
        Some(s) => Some(s@),
        None => None,
    }
}

/// The views of a sequence of strings.
pub open spec fn strings_view(v: Seq<String>) -> Seq<Seq<char>> {
    v.map_values(|s: String| s@)
}

/// Each piece trimmed, keeping only the pieces that are not empty after
/// trimming, in the order given.
pub open spec fn trimmed_nonempty(parts: Seq<Seq<char>>) -> Seq<Seq<char>>
    decreases parts.len(),
{
    if parts.len() == 0 {
        Seq::empty()
    } else {
        let front = trimmed_nonempty(parts.drop_last());
        let t = trim_spec(parts.last());
        if t.len() > 0 {
            front.push(t)
        } else {
            front
        }
    }
}

/// The candidates one variable contributes: `LANGUAGE` holds a
/// colon-separated priority list, the other variables a single locale.
pub open spec fn variable_candidates(is_list: bool, value: Option<Seq<char>>) -> Seq<Seq<char>> {
    match value {
        None => Seq::empty(),
        Some(v) => trimmed_nonempty(if is_list { split_spec(v, ':') } else { seq![v] }),
    }
}

/// Candidates from `LANGUAGE`, `LC_ALL`, `LC_MESSAGES` and `LANG`, in that
/// order of precedence.
pub open spec fn locale_candidates_spec(
    language: Option<Seq<char>>,
    lc_all: Option<Seq<char>>,
    lc_messages: Option<Seq<char>>,
    lang: Option<Seq<char>>,
) -> Seq<Seq<char>> {
    variable_candidates(true, language) + variable_candidates(false, lc_all)
        + variable_candidates(false, lc_messages) + variable_candidates(false, lang)
}

/// Appends the trimmed, non-empty pieces to `out`.
fn push_trimmed_nonempty(out: &mut Vec<String>, parts: &Vec<Vec<char>>)
    ensures
        strings_view(final(out)@) == strings_view(old(out)@) + trimmed_nonempty(
            parts@.map_values(|p: Vec<char>| p@),
        ),
{
    let ghost views = parts@.map_values(|p: Vec<char>| p@);
    let mut i: usize = 0;
    proof {
        assert(views.take(0) =~= Seq::<Seq<char>>::empty());
        assert(strings_view(out@) + trimmed_nonempty(views.take(0)) =~= strings_view(out@));
    }
    let ghost start = strings_view(out@);
    while i < parts.len()
        invariant
            i <= parts@.len(),
            views == parts@.map_values(|p: Vec<char>| p@),
            strings_view(out@) == start + trimmed_nonempty(views.take(i as int)),
        decreases parts@.len() - i,
    {
        let t = trim_chars(parts[i].as_slice());
        let ghost before = strings_view(out@);
        proof {
            assert(views.take(i + 1).drop_last() =~= views.take(i as int));
            assert(views.take(i + 1).last() == parts@[i as int]@);
            assert(t@ == trim_spec(views.take(i + 1).last()));
        }
        if t.len() > 0 {
            let piece = string_from_chars(t.as_slice());
            out.push(piece);
            proof {
                assert(strings_view(out@) =~= before.push(piece@));
            }
        }
        i = i + 1;
    }
    assert(views.take(parts@.len() as int) =~= views);
}

fn push_variable_candidates(out: &mut Vec<String>, value: Option<String>, is_list: bool)
    ensures
        strings_view(final(out)@) == strings_view(old(out)@) + variable_candidates(
            is_list,
            opt_string_view(value),
        ),
{
    match value {
        None => {
            assert(strings_view(out@) + Seq::<Seq<char>>::empty() =~= strings_view(out@));
        },
        Some(v) => {
            let chars = chars_of(v.as_str());
            let parts = if is_list {
                split_chars(chars.as_slice(), ':')
            } else {
                let mut one: Vec<Vec<char>> = Vec::new();
                one.push(chars);
                one
            };
            proof {
                if is_list {
                    assert(parts@.map_values(|p: Vec<char>| p@) =~= split_spec(v@, ':'));
                } else {
                    assert(parts@.map_values(|p: Vec<char>| p@) =~= seq![v@]);
                }
            }
            push_trimmed_nonempty(out, &parts);
        },
    }
}

/// The locale candidates that the POSIX locale variables name, in order of
/// precedence: every entry of the colon-separated `LANGUAGE` list, then
/// `LC_ALL`, `LC_MESSAGES` and `LANG`. Each candidate is trimmed, and empty
/// ones are dropped. `get` looks a variable up by its name.
pub fn environment_locale_candidates_from(get: impl Fn(&str) -> Option<String>) -> (candidates:
    Vec<String>)
    requires
        forall|key: &str| #[trigger] get.requires((key,)),
    ensures
        exists|language: Option<String>,
            lc_all: Option<String>,
            lc_messages: Option<String>,
            lang: Option<String>|
            {
                &&& get.ensures(("LANGUAGE",), language)
                &&& get.ensures(("LC_ALL",), lc_all)
                &&& get.ensures(("LC_MESSAGES",), lc_messages)
                &&& get.ensures(("LANG",), lang)
                &&& strings_view(candidates@) == locale_candidates_spec(
                    opt_string_view(language),
                    opt_string_view(lc_all),
                    opt_string_view(lc_messages),
                    opt_string_view(lang),
                )
            },
{
    let mut out: Vec<String> = Vec::new();
    let language = get("LANGUAGE");
    let lc_all = get("LC_ALL");
    let lc_messages = get("LC_MESSAGES");
    let lang = get("LANG");
    let ghost (a, b, c, d) = (language, lc_all, lc_messages, lang);
    assert(strings_view(out@) =~= Seq::<Seq<char>>::empty());
    push_variable_candidates(&mut out, language, true);
    push_variable_candidates(&mut out, lc_all, false);
    push_variable_candidates(&mut out, lc_messages, false);
    push_variable_candidates(&mut out, lang, false);
    assert(strings_view(out@) =~= locale_candidates_spec(
        opt_string_view(a),
        opt_string_view(b),
        opt_string_view(c),
        opt_string_view(d),
    ));
    out
}

} // verus!
