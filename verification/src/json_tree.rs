//! JSON documents as the settings schema generator edits them, and the
//! clean-up passes it runs over a generated schema.

use vstd::prelude::*;

use crate::localization::entry_lookup;
use crate::template::{lookup_arg, pairs_view};
use crate::text::{chars_eq, chars_of, string_from_chars};

verus! {

broadcast use vstd::std_specs::vec::group_vec_axioms;

/// A JSON value. A number keeps the text it is written with; an object keeps
/// its members in order, and the documents this module reads never repeat a
/// key within one object.
#[derive(Debug)]
pub enum JsonValue {
    Null,
    Bool(bool),
    Number(String),
    Str(String),
    Array(Vec<JsonValue>),
    Object(Vec<(String, JsonValue)>),
}

/// A JSON value as plain mathematical values.
pub enum JsonView {
    Null,
    Bool(bool),
    Number(Seq<char>),
    Str(Seq<char>),
    Array(Seq<JsonView>),
    Object(Seq<(Seq<char>, JsonView)>),
}

pub open spec fn json_view(v: JsonValue) -> JsonView
    decreases v,
{
    match v {
        JsonValue::Null => JsonView::Null,
        JsonValue::Bool(b) => JsonView::Bool(b),
        JsonValue::Number(n) => JsonView::Number(n@),
        JsonValue::Str(s) => JsonView::Str(s@),
        JsonValue::Array(items) => JsonView::Array(items_view(items@)),
        JsonValue::Object(members) => JsonView::Object(members_view(members@)),
    }
}

pub open spec fn items_view(items: Seq<JsonValue>) -> Seq<JsonView>
    decreases items,
{
    if items.len() == 0 {
        Seq::empty()
    } else {
        items_view(items.drop_last()).push(json_view(items.last()))
    }
}

pub open spec fn members_view(members: Seq<(String, JsonValue)>) -> Seq<(Seq<char>, JsonView)>
    decreases members,
{
    if members.len() == 0 {
        Seq::empty()
    } else {
        members_view(members.drop_last()).push(
            (members.last().0@, json_view(members.last().1)),
        )
    }
}


/// The value of the first member named `key`, if any.
pub open spec fn member_value(members: Seq<(Seq<char>, JsonView)>, key: Seq<char>) -> Option<JsonView>
    decreases members.len(),
{
    if members.len() == 0 {
        None
    } else {
        match member_value(members.drop_last(), key) {
            Some(v) => Some(v),
            None => if members.last().0 == key {
                Some(members.last().1)
            } else {
                None
            },
        }
    }
}

/// Finds the value of the first member named `key`.
fn find_member<'a>(members: &'a Vec<(String, JsonValue)>, key: &str) -> (r: Option<&'a JsonValue>)
    ensures
        match r {
            Some(v) => member_value(members_view(members@), key@) == Some(json_view(*v)),
            None => member_value(members_view(members@), key@) is None,
        },
{
    let kc = chars_of(key);
    let mut found: Option<&'a JsonValue> = None;
    let mut i: usize = 0;
    while i < members.len()
        invariant
            kc@ == key@,
            i <= members@.len(),
            match found {
                Some(v) => member_value(members_view(members@.take(i as int)), key@) == Some(json_view(*v)),
                None => member_value(members_view(members@.take(i as int)), key@) is None,
            },
        decreases members@.len() - i,
    {
        proof {
            let t1 = members@.take(i + 1);
            let t0 = members@.take(i as int);
            assert(t1.drop_last() =~= t0);
            assert(members_view(t1).drop_last() =~= members_view(t0));
        }
        if found.is_none() {
            let mc = chars_of(members[i].0.as_str());
            if chars_eq(mc.as_slice(), kc.as_slice()) {
                found = Some(&members[i].1);
            }
        }
        i = i + 1;
    }
    assert(members@.take(members@.len() as int) =~= members@);
    found
}

/// A copy of a JSON value.
pub fn duplicate(v: &JsonValue) -> (r: JsonValue)
    ensures
        json_view(r) == json_view(*v),
    decreases v,
{
    match v {
        JsonValue::Null => JsonValue::Null,
        JsonValue::Bool(b) => JsonValue::Bool(*b),
        JsonValue::Number(n) => JsonValue::Number(n.clone()),
        JsonValue::Str(s) => JsonValue::Str(s.clone()),
        JsonValue::Array(items) => {
            let mut out: Vec<JsonValue> = Vec::new();
            let mut i: usize = 0;
            while i < items.len()
                invariant
                    *v == JsonValue::Array(*items),
                    i <= items@.len(),
                    items_view(out@) == items_view(items@.take(i as int)),
                decreases items@.len() - i,
            {
                assert(items@.take(i + 1).drop_last() =~= items@.take(i as int));
                proof {
                    vstd::std_specs::vec::axiom_vec_index_decreases(*items, i as int);
                    assert(decreases_to!(*v => (*v)->Array_0));
                }
                let x = duplicate(&items[i]);
                let ghost before = out@;
                out.push(x);
                assert(out@.drop_last() =~= before);
                i = i + 1;
            }
            assert(items@.take(items@.len() as int) =~= items@);
            JsonValue::Array(out)
        },
        JsonValue::Object(members) => {
            let mut out: Vec<(String, JsonValue)> = Vec::new();
            let mut i: usize = 0;
            while i < members.len()
                invariant
                    *v == JsonValue::Object(*members),
                    i <= members@.len(),
                    members_view(out@) == members_view(members@.take(i as int)),
                decreases members@.len() - i,
            {
                assert(members@.take(i + 1).drop_last() =~= members@.take(i as int));
                proof {
                    vstd::std_specs::vec::axiom_vec_index_decreases(*members, i as int);
                    assert(decreases_to!(*v => (*v)->Object_0));
                    assert(decreases_to!(members[i as int] => members[i as int].1));
                }
                let x = duplicate(&members[i].1);
                let ghost before = out@;
                out.push((members[i].0.clone(), x));
                assert(out@.drop_last() =~= before);
                i = i + 1;
            }
            assert(members@.take(members@.len() as int) =~= members@);
            JsonValue::Object(out)
        },
    }
}


// ---------------------------------------------------------------------------
// Numeric bounds
// ---------------------------------------------------------------------------

/// An object schema of an integer or a number: its `type` is `"integer"` or
/// `"number"`.
pub open spec fn is_numeric_schema(members: Seq<(Seq<char>, JsonView)>) -> bool {
    match member_value(members, "type"@) {
        Some(JsonView::Str(t)) => t == "integer"@ || t == "number"@,
        _ => false,
    }
}

/// The members that the numeric clean-up drops from a numeric schema.
pub open spec fn is_numeric_bound_key(k: Seq<char>) -> bool {
    k == "minimum"@ || k == "maximum"@ || k == "format"@
}

/// `v` with `minimum`, `maximum` and `format` removed from every integer and
/// number schema within it, at any depth.
pub open spec fn strip_numeric_spec(v: JsonView) -> JsonView
    decreases v,
{
    match v {
        JsonView::Array(items) => JsonView::Array(strip_numeric_items(items)),
        JsonView::Object(members) => JsonView::Object(
            strip_numeric_members(members, is_numeric_schema(members)),
        ),
        _ => v,
    }
}

pub open spec fn strip_numeric_items(items: Seq<JsonView>) -> Seq<JsonView>
    decreases items,
{
    if items.len() == 0 {
        Seq::empty()
    } else {
        strip_numeric_items(items.drop_last()).push(strip_numeric_spec(items.last()))
    }
}

/// The members of an object, each value cleaned, without the bound members
/// where `numeric`.
pub open spec fn strip_numeric_members(members: Seq<(Seq<char>, JsonView)>, numeric: bool) -> Seq<
    (Seq<char>, JsonView),
>
    decreases members,
{
    if members.len() == 0 {
        Seq::empty()
    } else {
        let rest = strip_numeric_members(members.drop_last(), numeric);
        let (k, v) = members.last();
        if numeric && is_numeric_bound_key(k) {
            rest
        } else {
            rest.push((k, strip_numeric_spec(v)))
        }
    }
}

/// No integer or number schema within `v`, at any depth, has a
/// `minimum`, `maximum` or `format` member.
pub open spec fn numeric_clean(v: JsonView) -> bool
    decreases v,
{
    match v {
        JsonView::Array(items) => items_numeric_clean(items),
        JsonView::Object(members) => (is_numeric_schema(members) ==> forall|i: int|
            0 <= i < members.len() ==> !is_numeric_bound_key(#[trigger] members[i].0))
            && members_numeric_clean(members),
        _ => true,
    }
}

pub open spec fn items_numeric_clean(items: Seq<JsonView>) -> bool
    decreases items,
{
    items.len() == 0 || (items_numeric_clean(items.drop_last()) && numeric_clean(items.last()))
}

pub open spec fn members_numeric_clean(members: Seq<(Seq<char>, JsonView)>) -> bool
    decreases members,
{
    members.len() == 0 || (members_numeric_clean(members.drop_last()) && numeric_clean(
        members.last().1,
    ))
}

/// The numeric clean-up leaves no `minimum`, `maximum` or `format` in any
/// integer or number schema, at any depth.
pub proof fn law_numeric_bounds_removed(v: JsonView)
    ensures
        numeric_clean(strip_numeric_spec(v)),
    decreases v,
{
    match v {
        JsonView::Array(items) => {
            lemma_strip_numeric_items_clean(items);
        },
        JsonView::Object(members) => {
            lemma_strip_numeric_members_clean(members, is_numeric_schema(members));
        },
        _ => {},
    }
}

proof fn lemma_strip_numeric_items_clean(items: Seq<JsonView>)
    ensures
        items_numeric_clean(strip_numeric_items(items)),
    decreases items,
{
    if items.len() > 0 {
        lemma_strip_numeric_items_clean(items.drop_last());
        law_numeric_bounds_removed(items.last());
        let r = strip_numeric_items(items);
        assert(r.drop_last() =~= strip_numeric_items(items.drop_last()));
    }
}

proof fn lemma_strip_numeric_members_clean(members: Seq<(Seq<char>, JsonView)>, numeric: bool)
    ensures
        members_numeric_clean(strip_numeric_members(members, numeric)),
        numeric ==> forall|i: int|
            0 <= i < strip_numeric_members(members, numeric).len() ==> !is_numeric_bound_key(
                #[trigger] strip_numeric_members(members, numeric)[i].0,
            ),
        member_value(strip_numeric_members(members, numeric), "type"@) == match member_value(
            members,
            "type"@,
        ) {
            Some(t) => Some(strip_numeric_spec(t)),
            None => None,
        },
        is_numeric_schema(strip_numeric_members(members, numeric)) == is_numeric_schema(members),
    decreases members,
{
    reveal_strlit("type");
    reveal_strlit("minimum");
    reveal_strlit("maximum");
    reveal_strlit("format");
    if members.len() > 0 {
        let rest = members.drop_last();
        lemma_strip_numeric_members_clean(rest, numeric);
        let (k, v) = members.last();
        let r = strip_numeric_members(members, numeric);
        let rr = strip_numeric_members(rest, numeric);
        if !(numeric && is_numeric_bound_key(k)) {
            law_numeric_bounds_removed(v);
            assert(r.drop_last() =~= rr);
            assert(r.last() == (k, strip_numeric_spec(v)));
        }
        if k == "type"@ {
            assert("type"@.len() == 4);
            assert("minimum"@.len() == 7);
            assert("maximum"@.len() == 7);
            assert("format"@.len() == 6);
            assert(!is_numeric_bound_key(k));
        }
    }
}

fn str_in(s: &str, options: &[&str]) -> (r: bool)
    ensures
        r == exists|i: int| 0 <= i < options@.len() && s@ == #[trigger] options@[i]@,
{
    let sc = chars_of(s);
    let mut i: usize = 0;
    while i < options.len()
        invariant
            sc@ == s@,
            i <= options@.len(),
            forall|j: int| 0 <= j < i ==> s@ != #[trigger] options@[j]@,
        decreases options@.len() - i,
    {
        let oc = chars_of(options[i]);
        if chars_eq(sc.as_slice(), oc.as_slice()) {
            return true;
        }
        i = i + 1;
    }
    false
}

fn numeric_schema(members: &Vec<(String, JsonValue)>) -> (r: bool)
    ensures
        r == is_numeric_schema(members_view(members@)),
{
    match find_member(members, "type") {
        Some(JsonValue::Str(t)) => {
            let r = str_in(t.as_str(), &["integer", "number"]);
            proof {
                assert(r ==> (t@ == "integer"@ || t@ == "number"@));
                if t@ == "integer"@ {
                    assert(["integer", "number"]@[0]@ == "integer"@);
                }
                if t@ == "number"@ {
                    assert(["integer", "number"]@[1]@ == "number"@);
                }
            }
            r
        },
        _ => false,
    }
}

fn numeric_stripped(v: &JsonValue) -> (r: JsonValue)
    ensures
        json_view(r) == strip_numeric_spec(json_view(*v)),
    decreases v,
{
    match v {
        JsonValue::Array(items) => {
            let mut out: Vec<JsonValue> = Vec::new();
            let mut i: usize = 0;
            while i < items.len()
                invariant
                    *v == JsonValue::Array(*items),
                    i <= items@.len(),
                    items_view(out@) == strip_numeric_items(items_view(items@.take(i as int))),
                decreases items@.len() - i,
            {
                proof {
                    vstd::std_specs::vec::axiom_vec_index_decreases(*items, i as int);
                    assert(decreases_to!(*v => (*v)->Array_0));
                    let t1 = items@.take(i + 1);
                    assert(t1.drop_last() =~= items@.take(i as int));
                    assert(items_view(t1).drop_last() =~= items_view(items@.take(i as int)));
                }
                let x = numeric_stripped(&items[i]);
                let ghost before = out@;
                out.push(x);
                assert(out@.drop_last() =~= before);
                i = i + 1;
            }
            assert(items@.take(items@.len() as int) =~= items@);
            JsonValue::Array(out)
        },
        JsonValue::Object(members) => {
            let numeric = numeric_schema(members);
            let ghost mv = members_view(members@);
            let mut out: Vec<(String, JsonValue)> = Vec::new();
            let mut i: usize = 0;
            while i < members.len()
                invariant
                    *v == JsonValue::Object(*members),
                    numeric == is_numeric_schema(members_view(members@)),
                    i <= members@.len(),
                    members_view(out@) == strip_numeric_members(
                        members_view(members@.take(i as int)),
                        numeric,
                    ),
                decreases members@.len() - i,
            {
                proof {
                    vstd::std_specs::vec::axiom_vec_index_decreases(*members, i as int);
                    assert(decreases_to!(*v => (*v)->Object_0));
                    assert(decreases_to!(members[i as int] => members[i as int].1));
                    let t1 = members@.take(i + 1);
                    assert(t1.drop_last() =~= members@.take(i as int));
                    assert(members_view(t1).drop_last() =~= members_view(members@.take(i as int)));
                }
                let drop = numeric && str_in(members[i].0.as_str(), &["minimum", "maximum", "format"]);
                proof {
                    let k = members@[i as int].0@;
                    if is_numeric_bound_key(k) {
                        if k == "minimum"@ {
                            assert(["minimum", "maximum", "format"]@[0]@ == "minimum"@);
                        }
                        if k == "maximum"@ {
                            assert(["minimum", "maximum", "format"]@[1]@ == "maximum"@);
                        }
                        if k == "format"@ {
                            assert(["minimum", "maximum", "format"]@[2]@ == "format"@);
                        }
                    }
                }
                if !drop {
                    let x = numeric_stripped(&members[i].1);
                    let ghost before = out@;
                    out.push((members[i].0.clone(), x));
                    assert(out@.drop_last() =~= before);
                }
                i = i + 1;
            }
            assert(members@.take(members@.len() as int) =~= members@);
            JsonValue::Object(out)
        },
        _ => duplicate(v),
    }
}

/// Removes `minimum`, `maximum` and `format` from every integer and number
/// schema in `value`, at any depth: the generator derives them from the
/// width of the Rust type, which says nothing of a setting's valid range.
pub fn strip_numeric_metadata(value: &mut JsonValue)
    ensures
        json_view(*final(value)) == strip_numeric_spec(json_view(*old(value))),
{
    let r = numeric_stripped(value);
    *value = r;
}


// ---------------------------------------------------------------------------
// Empty enum buckets
// ---------------------------------------------------------------------------

/// An entry `{"enum": [], ...}`: an object whose `enum` is an empty array.
pub open spec fn is_empty_enum_entry(e: JsonView) -> bool {
    match e {
        JsonView::Object(members) => match member_value(members, "enum"@) {
            Some(JsonView::Array(values)) => values.len() == 0,
            _ => false,
        },
        _ => false,
    }
}

/// `v` with the empty enum buckets dropped from every `oneOf` array within
/// it, at any depth.
pub open spec fn strip_enum_spec(v: JsonView) -> JsonView
    decreases v,
{
    match v {
        JsonView::Array(items) => JsonView::Array(strip_enum_items(items)),
        JsonView::Object(members) => JsonView::Object(strip_enum_members(members)),
        _ => v,
    }
}

pub open spec fn strip_enum_items(items: Seq<JsonView>) -> Seq<JsonView>
    decreases items,
{
    if items.len() == 0 {
        Seq::empty()
    } else {
        strip_enum_items(items.drop_last()).push(strip_enum_spec(items.last()))
    }
}

/// The entries of a `oneOf` array without the empty enum buckets, each
/// cleaned.
pub open spec fn strip_enum_one_of(items: Seq<JsonView>) -> Seq<JsonView>
    decreases items,
{
    if items.len() == 0 {
        Seq::empty()
    } else {
        let rest = strip_enum_one_of(items.drop_last());
        if is_empty_enum_entry(items.last()) {
            rest
        } else {
            rest.push(strip_enum_spec(items.last()))
        }
    }
}

pub open spec fn strip_enum_members(members: Seq<(Seq<char>, JsonView)>) -> Seq<(Seq<char>, JsonView)>
    decreases members,
{
    if members.len() == 0 {
        Seq::empty()
    } else {
        let (k, v) = members.last();
        // A `oneOf` array loses its empty buckets; every value is cleaned.
        let cleaned = match v {
            JsonView::Array(items) => if k == "oneOf"@ {
                JsonView::Array(strip_enum_one_of(items))
            } else {
                JsonView::Array(strip_enum_items(items))
            },
            _ => strip_enum_spec(v),
        };
        strip_enum_members(members.drop_last()).push((k, cleaned))
    }
}


/// No `oneOf` array within `v`, at any depth, holds an empty enum bucket.
pub open spec fn enum_clean(v: JsonView) -> bool
    decreases v,
{
    match v {
        JsonView::Array(items) => items_enum_clean(items),
        JsonView::Object(members) => members_enum_clean(members),
        _ => true,
    }
}

pub open spec fn items_enum_clean(items: Seq<JsonView>) -> bool
    decreases items,
{
    items.len() == 0 || (items_enum_clean(items.drop_last()) && enum_clean(items.last()))
}

pub open spec fn members_enum_clean(members: Seq<(Seq<char>, JsonView)>) -> bool
    decreases members,
{
    members.len() == 0 || {
        let (k, v) = members.last();
        &&& members_enum_clean(members.drop_last())
        &&& k == "oneOf"@ ==> match v {
            JsonView::Array(entries) => forall|i: int|
                0 <= i < entries.len() ==> !is_empty_enum_entry(#[trigger] entries[i]),
            _ => true,
        }
        &&& enum_clean(v)
    }
}

/// The enum clean-up leaves no empty enum bucket in any `oneOf` array, at
/// any depth.
pub proof fn law_empty_enum_entries_removed(v: JsonView)
    ensures
        enum_clean(strip_enum_spec(v)),
    decreases v,
{
    match v {
        JsonView::Array(items) => {
            lemma_strip_enum_items_clean(items);
        },
        JsonView::Object(members) => {
            lemma_strip_enum_members_clean(members);
        },
        _ => {},
    }
}

proof fn lemma_strip_enum_items_clean(items: Seq<JsonView>)
    ensures
        items_enum_clean(strip_enum_items(items)),
    decreases items,
{
    if items.len() > 0 {
        lemma_strip_enum_items_clean(items.drop_last());
        law_empty_enum_entries_removed(items.last());
        assert(strip_enum_items(items).drop_last() =~= strip_enum_items(items.drop_last()));
    }
}

proof fn lemma_strip_enum_one_of_clean(items: Seq<JsonView>)
    ensures
        items_enum_clean(strip_enum_one_of(items)),
        forall|i: int|
            0 <= i < strip_enum_one_of(items).len() ==> !is_empty_enum_entry(
                #[trigger] strip_enum_one_of(items)[i],
            ),
    decreases items,
{
    if items.len() > 0 {
        lemma_strip_enum_one_of_clean(items.drop_last());
        if !is_empty_enum_entry(items.last()) {
            law_empty_enum_entries_removed(items.last());
            lemma_strip_keeps_entry(items.last());
            assert(strip_enum_one_of(items).drop_last() =~= strip_enum_one_of(items.drop_last()));
        }
    }
}

proof fn lemma_strip_enum_members_clean(members: Seq<(Seq<char>, JsonView)>)
    ensures
        members_enum_clean(strip_enum_members(members)),
    decreases members,
{
    if members.len() > 0 {
        lemma_strip_enum_members_clean(members.drop_last());
        let (k, v) = members.last();
        let r = strip_enum_members(members);
        assert(r.drop_last() =~= strip_enum_members(members.drop_last()));
        let cleaned = match v {
            JsonView::Array(items) => if k == "oneOf"@ {
                JsonView::Array(strip_enum_one_of(items))
            } else {
                JsonView::Array(strip_enum_items(items))
            },
            _ => strip_enum_spec(v),
        };
        assert(r.last() == (k, cleaned));
        match v {
            JsonView::Array(items) => {
                if k == "oneOf"@ {
                    lemma_strip_enum_one_of_clean(items);
                } else {
                    lemma_strip_enum_items_clean(items);
                }
                assert(enum_clean(cleaned));
            },
            _ => {
                law_empty_enum_entries_removed(v);
                assert(!(cleaned is Array));
            },
        }
    }
}

/// Where the members have an `enum`, the cleaned members have it cleaned.
proof fn lemma_strip_enum_member_value(members: Seq<(Seq<char>, JsonView)>)
    ensures
        member_value(strip_enum_members(members), "enum"@) == match member_value(members, "enum"@) {
            Some(JsonView::Array(items)) => Some(JsonView::Array(strip_enum_items(items))),
            Some(v) => Some(strip_enum_spec(v)),
            None => None,
        },
    decreases members,
{
    reveal_strlit("enum");
    reveal_strlit("oneOf");
    assert("enum"@.len() != "oneOf"@.len());
    if members.len() > 0 {
        lemma_strip_enum_member_value(members.drop_last());
        assert(strip_enum_members(members).drop_last() =~= strip_enum_members(members.drop_last()));
    }
}

proof fn lemma_strip_enum_items_len(items: Seq<JsonView>)
    ensures
        strip_enum_items(items).len() == items.len(),
    decreases items.len(),
{
    if items.len() > 0 {
        lemma_strip_enum_items_len(items.drop_last());
    }
}

/// Cleaning an entry that is not an empty enum bucket does not make it one.
proof fn lemma_strip_keeps_entry(e: JsonView)
    requires
        !is_empty_enum_entry(e),
    ensures
        !is_empty_enum_entry(strip_enum_spec(e)),
{
    if let JsonView::Object(members) = e {
        lemma_strip_enum_member_value(members);
        if let Some(JsonView::Array(items)) = member_value(members, "enum"@) {
            lemma_strip_enum_items_len(items);
        }
    }
}

fn empty_enum_entry(e: &JsonValue) -> (r: bool)
    ensures
        r == is_empty_enum_entry(json_view(*e)),
{
    match e {
        JsonValue::Object(members) => match find_member(members, "enum") {
            Some(JsonValue::Array(values)) => {
                proof {
                    lemma_items_view(values@);
                }
                values.len() == 0
            },
            _ => false,
        },
        _ => false,
    }
}

fn enum_stripped_items(items: &Vec<JsonValue>, one_of: bool) -> (r: Vec<JsonValue>)
    ensures
        items_view(r@) == if one_of {
            strip_enum_one_of(items_view(items@))
        } else {
            strip_enum_items(items_view(items@))
        },
    decreases items,
{
    let mut out: Vec<JsonValue> = Vec::new();
    let mut i: usize = 0;
    while i < items.len()
        invariant
            i <= items@.len(),
            items_view(out@) == if one_of {
                strip_enum_one_of(items_view(items@.take(i as int)))
            } else {
                strip_enum_items(items_view(items@.take(i as int)))
            },
        decreases items@.len() - i,
    {
        proof {
            vstd::std_specs::vec::axiom_vec_index_decreases(*items, i as int);
            let t1 = items@.take(i + 1);
            assert(t1.drop_last() =~= items@.take(i as int));
            assert(items_view(t1).drop_last() =~= items_view(items@.take(i as int)));
        }
        let skip = one_of && empty_enum_entry(&items[i]);
        if !skip {
            let x = enum_stripped(&items[i]);
            let ghost before = out@;
            out.push(x);
            assert(out@.drop_last() =~= before);
        }
        i = i + 1;
    }
    assert(items@.take(items@.len() as int) =~= items@);
    out
}

fn enum_stripped(v: &JsonValue) -> (r: JsonValue)
    ensures
        json_view(r) == strip_enum_spec(json_view(*v)),
    decreases v,
{
    match v {
        JsonValue::Array(items) => {
            proof {
                assert(decreases_to!(*v => (*v)->Array_0));
            }
            JsonValue::Array(enum_stripped_items(items, false))
        },
        JsonValue::Object(members) => {
            let mut out: Vec<(String, JsonValue)> = Vec::new();
            let mut i: usize = 0;
            while i < members.len()
                invariant
                    *v == JsonValue::Object(*members),
                    i <= members@.len(),
                    members_view(out@) == strip_enum_members(members_view(members@.take(i as int))),
                decreases members@.len() - i,
            {
                proof {
                    vstd::std_specs::vec::axiom_vec_index_decreases(*members, i as int);
                    assert(decreases_to!(*v => (*v)->Object_0));
                    assert(decreases_to!(members[i as int] => members[i as int].1));
                    let t1 = members@.take(i + 1);
                    assert(t1.drop_last() =~= members@.take(i as int));
                    assert(members_view(t1).drop_last() =~= members_view(members@.take(i as int)));
                }
                let cleaned = match &members[i].1 {
                    JsonValue::Array(items) => {
                        proof {
                            assert(decreases_to!(members[i as int].1 => members[i as int].1->Array_0));
                        }
                        let kc = chars_of(members[i].0.as_str());
                        let oc = chars_of("oneOf");
                        let one_of = chars_eq(kc.as_slice(), oc.as_slice());
                        JsonValue::Array(enum_stripped_items(items, one_of))
                    },
                    other => enum_stripped(other),
                };
                proof {
                    let k = members@[i as int].0@;
                    let mv = json_view(members@[i as int].1);
                    let expected = match mv {
                        JsonView::Array(items) => if k == "oneOf"@ {
                            JsonView::Array(strip_enum_one_of(items))
                        } else {
                            JsonView::Array(strip_enum_items(items))
                        },
                        _ => strip_enum_spec(mv),
                    };
                    assert(json_view(cleaned) == expected);
                }
                let ghost before = out@;
                out.push((members[i].0.clone(), cleaned));
                assert(out@.drop_last() =~= before);
                i = i + 1;
            }
            assert(members@.take(members@.len() as int) =~= members@);
            JsonValue::Object(out)
        },
        _ => duplicate(v),
    }
}

/// Drops the `{"enum": [], ...}` entries from every `oneOf` array in
/// `value`, at any depth: the generator leaves such an empty bucket behind
/// for enums whose variants each got a `oneOf` branch of their own.
pub fn strip_empty_enum_entries(value: &mut JsonValue)
    ensures
        json_view(*final(value)) == strip_enum_spec(json_view(*old(value))),
{
    let r = enum_stripped(value);
    *value = r;
}


// ---------------------------------------------------------------------------
// Translated descriptions
// ---------------------------------------------------------------------------

/// The text of a `description` or `title` member after translation: the
/// translation of its English text where `translations` has one.
pub open spec fn translated_text(
    k: Seq<char>,
    v: JsonView,
    translations: Seq<(Seq<char>, Seq<char>)>,
) -> Option<Seq<char>> {
    if k == "description"@ || k == "title"@ {
        match v {
            JsonView::Str(text) => lookup_arg(translations, text),
            _ => None,
        }
    } else {
        None
    }
}

/// `v` with every `description` and `title` string, at any depth, replaced
/// by its translation where `translations` (English text to translated
/// text) has one.
pub open spec fn localize_spec(v: JsonView, translations: Seq<(Seq<char>, Seq<char>)>) -> JsonView
    decreases v,
{
    match v {
        JsonView::Array(items) => JsonView::Array(localize_items(items, translations)),
        JsonView::Object(members) => JsonView::Object(localize_members(members, translations)),
        _ => v,
    }
}

pub open spec fn localize_items(items: Seq<JsonView>, translations: Seq<(Seq<char>, Seq<char>)>) -> Seq<
    JsonView,
>
    decreases items,
{
    if items.len() == 0 {
        Seq::empty()
    } else {
        localize_items(items.drop_last(), translations).push(
            localize_spec(items.last(), translations),
        )
    }
}

pub open spec fn localize_members(
    members: Seq<(Seq<char>, JsonView)>,
    translations: Seq<(Seq<char>, Seq<char>)>,
) -> Seq<(Seq<char>, JsonView)>
    decreases members,
{
    if members.len() == 0 {
        Seq::empty()
    } else {
        let (k, v) = members.last();
        let localized = match translated_text(k, v, translations) {
            Some(t) => JsonView::Str(t),
            None => localize_spec(v, translations),
        };
        localize_members(members.drop_last(), translations).push((k, localized))
    }
}

/// Two translation lists that translate every text alike localize every
/// document alike.
pub proof fn law_localize_depends_on_lookups(
    v: JsonView,
    t1: Seq<(Seq<char>, Seq<char>)>,
    t2: Seq<(Seq<char>, Seq<char>)>,
)
    requires
        forall|text: Seq<char>| #[trigger] lookup_arg(t1, text) == lookup_arg(t2, text),
    ensures
        localize_spec(v, t1) == localize_spec(v, t2),
    decreases v,
{
    match v {
        JsonView::Array(items) => {
            lemma_localize_items_on_lookups(items, t1, t2);
        },
        JsonView::Object(members) => {
            lemma_localize_members_on_lookups(members, t1, t2);
        },
        _ => {},
    }
}

proof fn lemma_localize_items_on_lookups(
    items: Seq<JsonView>,
    t1: Seq<(Seq<char>, Seq<char>)>,
    t2: Seq<(Seq<char>, Seq<char>)>,
)
    requires
        forall|text: Seq<char>| #[trigger] lookup_arg(t1, text) == lookup_arg(t2, text),
    ensures
        localize_items(items, t1) == localize_items(items, t2),
    decreases items,
{
    if items.len() > 0 {
        lemma_localize_items_on_lookups(items.drop_last(), t1, t2);
        law_localize_depends_on_lookups(items.last(), t1, t2);
    }
}

proof fn lemma_localize_members_on_lookups(
    members: Seq<(Seq<char>, JsonView)>,
    t1: Seq<(Seq<char>, Seq<char>)>,
    t2: Seq<(Seq<char>, Seq<char>)>,
)
    requires
        forall|text: Seq<char>| #[trigger] lookup_arg(t1, text) == lookup_arg(t2, text),
    ensures
        localize_members(members, t1) == localize_members(members, t2),
    decreases members,
{
    if members.len() > 0 {
        lemma_localize_members_on_lookups(members.drop_last(), t1, t2);
        let (k, v) = members.last();
        law_localize_depends_on_lookups(v, t1, t2);
        if let JsonView::Str(text) = v {
            assert(lookup_arg(t1, text) == lookup_arg(t2, text));
        }
        assert(translated_text(k, v, t1) == translated_text(k, v, t2));
    }
}

fn localized(v: &JsonValue, translations: &Vec<(String, String)>) -> (r: JsonValue)
    ensures
        json_view(r) == localize_spec(json_view(*v), pairs_view(translations@)),
    decreases v,
{
    match v {
        JsonValue::Array(items) => {
            let mut out: Vec<JsonValue> = Vec::new();
            let mut i: usize = 0;
            while i < items.len()
                invariant
                    *v == JsonValue::Array(*items),
                    i <= items@.len(),
                    items_view(out@) == localize_items(
                        items_view(items@.take(i as int)),
                        pairs_view(translations@),
                    ),
                decreases items@.len() - i,
            {
                proof {
                    vstd::std_specs::vec::axiom_vec_index_decreases(*items, i as int);
                    assert(decreases_to!(*v => (*v)->Array_0));
                    let t1 = items@.take(i + 1);
                    assert(t1.drop_last() =~= items@.take(i as int));
                    assert(items_view(t1).drop_last() =~= items_view(items@.take(i as int)));
                }
                let x = localized(&items[i], translations);
                let ghost before = out@;
                out.push(x);
                assert(out@.drop_last() =~= before);
                i = i + 1;
            }
            assert(items@.take(items@.len() as int) =~= items@);
            JsonValue::Array(out)
        },
        JsonValue::Object(members) => {
            let mut out: Vec<(String, JsonValue)> = Vec::new();
            let mut i: usize = 0;
            while i < members.len()
                invariant
                    *v == JsonValue::Object(*members),
                    i <= members@.len(),
                    members_view(out@) == localize_members(
                        members_view(members@.take(i as int)),
                        pairs_view(translations@),
                    ),
                decreases members@.len() - i,
            {
                proof {
                    vstd::std_specs::vec::axiom_vec_index_decreases(*members, i as int);
                    assert(decreases_to!(*v => (*v)->Object_0));
                    assert(decreases_to!(members[i as int] => members[i as int].1));
                    let t1 = members@.take(i + 1);
                    assert(t1.drop_last() =~= members@.take(i as int));
                    assert(members_view(t1).drop_last() =~= members_view(members@.take(i as int)));
                }
                let key = members[i].0.as_str();
                let translation = match &members[i].1 {
                    JsonValue::Str(text) => {
                        if str_in(key, &["description", "title"]) {
                            let tc = chars_of(text.as_str());
                            entry_lookup(translations, tc.as_slice())
                        } else {
                            None
                        }
                    },
                    _ => None,
                };
                proof {
                    let k = members@[i as int].0@;
                    if k == "description"@ {
                        assert(["description", "title"]@[0]@ == "description"@);
                    }
                    if k == "title"@ {
                        assert(["description", "title"]@[1]@ == "title"@);
                    }
                    let tt = translated_text(k, json_view(members@[i as int].1), pairs_view(translations@));
                    if translation is Some {
                        assert(tt == Some(translation->0@));
                    } else {
                        assert(tt is None);
                    }
                }
                let value = match translation {
                    Some(t) => JsonValue::Str(t),
                    None => localized(&members[i].1, translations),
                };
                proof {
                    let k = members@[i as int].0@;
                    let mv = json_view(members@[i as int].1);
                    let expected = match translated_text(k, mv, pairs_view(translations@)) {
                        Some(t) => JsonView::Str(t),
                        None => localize_spec(mv, pairs_view(translations@)),
                    };
                    assert(json_view(value) == expected);
                    let t1 = members_view(members@.take(i + 1));
                    assert(t1.last() == (k, mv));
                }
                let ghost before = out@;
                out.push((members[i].0.clone(), value));
                assert(out@.drop_last() =~= before);
                i = i + 1;
            }
            assert(members@.take(members@.len() as int) =~= members@);
            JsonValue::Object(out)
        },
        _ => duplicate(v),
    }
}

/// Replaces every `description` and `title` string in `value`, at any
/// depth, by its translation where `translations` (English text to
/// translated text) has one.
pub fn localize_schema_descriptions(value: &mut JsonValue, translations: &Vec<(String, String)>)
    ensures
        json_view(*final(value)) == localize_spec(json_view(*old(value)), pairs_view(translations@)),
{
    let r = localized(value, translations);
    *value = r;
}


// ---------------------------------------------------------------------------
// Members by key
// ---------------------------------------------------------------------------

pub proof fn lemma_members_view(members: Seq<(String, JsonValue)>)
    ensures
        members_view(members).len() == members.len(),
        forall|i: int|
            0 <= i < members.len() ==> #[trigger] members_view(members)[i] == (
                members[i].0@,
                json_view(members[i].1),
            ),
    decreases members.len(),
{
    if members.len() > 0 {
        lemma_members_view(members.drop_last());
    }
}

pub proof fn lemma_items_view(items: Seq<JsonValue>)
    ensures
        items_view(items).len() == items.len(),
        forall|i: int| 0 <= i < items.len() ==> #[trigger] items_view(items)[i] == json_view(items[i]),
    decreases items.len(),
{
    if items.len() > 0 {
        lemma_items_view(items.drop_last());
    }
}

/// The position of the first member named `key`, if any.
pub open spec fn key_index(members: Seq<(Seq<char>, JsonView)>, key: Seq<char>) -> Option<int>
    decreases members.len(),
{
    if members.len() == 0 {
        None
    } else {
        match key_index(members.drop_last(), key) {
            Some(i) => Some(i),
            None => if members.last().0 == key {
                Some(members.len() - 1)
            } else {
                None
            },
        }
    }
}

pub proof fn lemma_key_index(members: Seq<(Seq<char>, JsonView)>, key: Seq<char>)
    ensures
        match key_index(members, key) {
            Some(i) => 0 <= i < members.len() && members[i].0 == key && member_value(members, key)
                == Some(members[i].1),
            None => member_value(members, key) is None,
        },
    decreases members.len(),
{
    if members.len() > 0 {
        lemma_key_index(members.drop_last(), key);
    }
}

/// `members` with `key` set to `value`: in place where a member has that
/// key, else added at the end.
pub open spec fn map_set(members: Seq<(Seq<char>, JsonView)>, key: Seq<char>, value: JsonView) -> Seq<
    (Seq<char>, JsonView),
> {
    match key_index(members, key) {
        Some(i) => members.update(i, (key, value)),
        None => members.push((key, value)),
    }
}

fn key_position(members: &Vec<(String, JsonValue)>, key: &str) -> (r: Option<usize>)
    ensures
        match r {
            Some(p) => key_index(members_view(members@), key@) == Some(p as int),
            None => key_index(members_view(members@), key@) is None,
        },
{
    let kc = chars_of(key);
    let mut found: Option<usize> = None;
    let mut i: usize = 0;
    while i < members.len()
        invariant
            kc@ == key@,
            i <= members@.len(),
            match found {
                Some(p) => key_index(members_view(members@.take(i as int)), key@) == Some(p as int),
                None => key_index(members_view(members@.take(i as int)), key@) is None,
            },
        decreases members@.len() - i,
    {
        proof {
            let t1 = members@.take(i + 1);
            let t0 = members@.take(i as int);
            assert(t1.drop_last() =~= t0);
            assert(members_view(t1).drop_last() =~= members_view(t0));
            lemma_members_view(t0);
        }
        if found.is_none() {
            let mc = chars_of(members[i].0.as_str());
            if chars_eq(mc.as_slice(), kc.as_slice()) {
                found = Some(i);
            }
        }
        i = i + 1;
    }
    assert(members@.take(members@.len() as int) =~= members@);
    found
}

/// Sets the member `key` of an object to `value` (see [`map_set`]).
pub fn set_member(members: &mut Vec<(String, JsonValue)>, key: String, value: JsonValue)
    ensures
        members_view(final(members)@) == map_set(members_view(old(members)@), key@, json_view(value)),
{
    proof {
        lemma_members_view(members@);
        lemma_key_index(members_view(members@), key@);
    }
    match key_position(members, key.as_str()) {
        Some(p) => {
            let ghost kv = key@;
            let ghost vv = json_view(value);
            members.set(p, (key, value));
            proof {
                lemma_members_view(members@);
                assert(members_view(members@) =~= members_view(old(members)@).update(
                    p as int,
                    (kv, vv),
                ));
            }
        },
        None => {
            let ghost before = members@;
            members.push((key, value));
            assert(members@.drop_last() =~= before);
        },
    }
}

// ---------------------------------------------------------------------------
// Nested properties
// ---------------------------------------------------------------------------

/// The object that stands for a level of the settings hierarchy before any
/// setting is added to it.
pub open spec fn empty_level() -> Seq<(Seq<char>, JsonView)> {
    seq![("type"@, JsonView::Str("object"@)), ("properties"@, JsonView::Object(Seq::empty()))]
}

/// `members` (the `properties` of an object schema) with `key` set to
/// `value` under the levels `segments`: each level is the member of that
/// name, an object whose own `properties` hold the next level, made (see
/// [`empty_level`]) where it is missing. `None` where a level, or its
/// `properties`, exists and is not an object.
pub open spec fn insert_at_spec(
    members: Seq<(Seq<char>, JsonView)>,
    segments: Seq<Seq<char>>,
    key: Seq<char>,
    value: JsonView,
) -> Option<Seq<(Seq<char>, JsonView)>>
    decreases segments.len(),
{
    if segments.len() == 0 {
        Some(map_set(members, key, value))
    } else {
        let segment = segments[0];
        let node = match member_value(members, segment) {
            None => Some(empty_level()),
            Some(JsonView::Object(node)) => Some(node),
            Some(_) => None,
        };
        match node {
            None => None,
            Some(node) => {
                let properties = match member_value(node, "properties"@) {
                    None => Some(Seq::empty()),
                    Some(JsonView::Object(p)) => Some(p),
                    Some(_) => None,
                };
                match properties {
                    None => None,
                    Some(p) => match insert_at_spec(p, segments.drop_first(), key, value) {
                        None => None,
                        Some(inner) => Some(
                            map_set(
                                members,
                                segment,
                                JsonView::Object(map_set(node, "properties"@, JsonView::Object(inner))),
                            ),
                        ),
                    },
                }
            },
        }
    }
}

pub open spec fn char_seqs(v: Seq<Vec<char>>) -> Seq<Seq<char>> {
    Seq::new(v.len(), |i: int| v[i]@)
}

fn empty_level_members() -> (r: Vec<(String, JsonValue)>)
    ensures
        members_view(r@) == empty_level(),
{
    let mut r: Vec<(String, JsonValue)> = Vec::new();
    r.push(("type".to_owned(), JsonValue::Str("object".to_owned())));
    r.push(("properties".to_owned(), JsonValue::Object(Vec::new())));
    proof {
        lemma_members_view(r@);
        assert(items_view(Seq::<JsonValue>::empty()) =~= Seq::<JsonView>::empty());
        assert(members_view(Seq::<(String, JsonValue)>::empty()) =~= Seq::<(Seq<char>, JsonView)>::empty());
        assert(members_view(r@) =~= empty_level());
    }
    r
}

/// Takes the object member at `p` out of `members`; `None` when it is not
/// an object.
fn take_object(members: &mut Vec<(String, JsonValue)>, p: usize) -> (r: Option<Vec<(String, JsonValue)>>)
    requires
        p < old(members)@.len(),
    ensures
        final(members)@ == old(members)@.remove(p as int),
        match r {
            Some(inner) => json_view(old(members)@[p as int].1) == JsonView::Object(members_view(inner@)),
            None => !(json_view(old(members)@[p as int].1) is Object),
        },
{
    let (_key, value) = members.remove(p);
    match value {
        JsonValue::Object(inner) => Some(inner),
        _ => None,
    }
}

/// Sets `key` to `value` under the levels `segments[idx..]` of `members`
/// (see [`insert_at_spec`]); `false` where a level is not an object, and
/// then `members` is left in no particular state.
pub fn insert_at(
    members: &mut Vec<(String, JsonValue)>,
    segments: &Vec<Vec<char>>,
    idx: usize,
    key: String,
    value: JsonValue,
) -> (ok: bool)
    requires
        idx <= segments@.len(),
    ensures
        ok == insert_at_spec(
            members_view(old(members)@),
            char_seqs(segments@).skip(idx as int),
            key@,
            json_view(value),
        ) is Some,
        ok ==> insert_at_spec(
            members_view(old(members)@),
            char_seqs(segments@).skip(idx as int),
            key@,
            json_view(value),
        ) == Some(members_view(final(members)@)),
    decreases segments@.len() - idx,
{
    let ghost segs = char_seqs(segments@).skip(idx as int);
    let ghost old_view = members_view(members@);
    let ghost kv = key@;
    let ghost vv = json_view(value);
    if idx == segments.len() {
        assert(segs.len() == 0);
        set_member(members, key, value);
        return true;
    }
    assert(segs[0] == segments@[idx as int]@);
    assert(segs.drop_first() =~= char_seqs(segments@).skip(idx + 1));
    let segment = string_from_chars(segments[idx].as_slice());
    proof {
        lemma_members_view(members@);
        lemma_key_index(old_view, segment@);
    }
    let pos = key_position(members, segment.as_str());
    let mut node: Vec<(String, JsonValue)> = match pos {
        None => empty_level_members(),
        Some(p) => match take_object(members, p) {
            Some(inner) => inner,
            None => {
                return false;
            },
        },
    };
    let ghost node_view = members_view(node@);
    proof {
        lemma_members_view(node@);
        lemma_key_index(node_view, "properties"@);
    }
    let pos2 = key_position(&node, "properties");
    let mut properties: Vec<(String, JsonValue)> = match pos2 {
        None => Vec::new(),
        Some(p2) => match take_object(&mut node, p2) {
            Some(inner) => inner,
            None => {
                return false;
            },
        },
    };
    proof {
        if pos2 is None {
            assert(members_view(properties@) =~= Seq::<(Seq<char>, JsonView)>::empty());
        }
    }
    let ok = insert_at(&mut properties, segments, idx + 1, key, value);
    if !ok {
        return false;
    }
    let ghost inner_view = members_view(properties@);
    let ghost node_before = node@;
    match pos2 {
        Some(p2) => {
            node.insert(p2, ("properties".to_owned(), JsonValue::Object(properties)));
        },
        None => {
            node.push(("properties".to_owned(), JsonValue::Object(properties)));
        },
    }
    proof {
        lemma_members_view(node@);
        lemma_members_view(node_before);
        let expected = map_set(node_view, "properties"@, JsonView::Object(inner_view));
        assert(members_view(node@) =~= expected);
    }
    let ghost new_node_view = members_view(node@);
    let ghost members_before = members@;
    match pos {
        Some(p) => {
            members.insert(p, (segment, JsonValue::Object(node)));
        },
        None => {
            members.push((segment, JsonValue::Object(node)));
        },
    }
    proof {
        lemma_members_view(members@);
        lemma_members_view(members_before);
        let expected = map_set(old_view, segs[0], JsonView::Object(new_node_view));
        assert(members_view(members@) =~= expected);
    }
    true
}

} // verus!
