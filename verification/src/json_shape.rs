//! When two JSON documents have the same structure: the same values in the
//! same places, apart from the text of their `description` and `title`
//! strings, which is what a translation changes.

use vstd::prelude::*;

use crate::json_tree::{
    empty_level, insert_at_spec, is_empty_enum_entry, is_numeric_schema, key_index, lemma_key_index,
    localize_items, localize_members, localize_spec, map_set, member_value, strip_enum_items,
    strip_enum_members, strip_enum_one_of, strip_enum_spec, strip_numeric_items,
    strip_numeric_members, strip_numeric_spec, translated_text, JsonView,
};

verus! {

/// A member whose text a translation may change.
pub open spec fn is_text_key(k: Seq<char>) -> bool {
    k == "description"@ || k == "title"@
}

/// `a` and `b` differ at most in the text of `description` and `title`
/// strings, at any depth.
pub open spec fn same_structure(a: JsonView, b: JsonView) -> bool
    decreases a,
{
    match a {
        JsonView::Array(x) => match b {
            JsonView::Array(y) => same_structure_items(x, y),
            _ => false,
        },
        JsonView::Object(m) => match b {
            JsonView::Object(n) => same_structure_members(m, n),
            _ => false,
        },
        _ => a == b,
    }
}

pub open spec fn same_structure_items(x: Seq<JsonView>, y: Seq<JsonView>) -> bool
    decreases x,
{
    if x.len() == 0 {
        y.len() == 0
    } else {
        y.len() > 0 && same_structure_items(x.drop_last(), y.drop_last()) && same_structure(
            x.last(),
            y.last(),
        )
    }
}

pub open spec fn same_structure_members(
    m: Seq<(Seq<char>, JsonView)>,
    n: Seq<(Seq<char>, JsonView)>,
) -> bool
    decreases m,
{
    if m.len() == 0 {
        n.len() == 0
    } else {
        let (k, v) = m.last();
        &&& n.len() > 0
        &&& same_structure_members(m.drop_last(), n.drop_last())
        &&& n.last().0 == k
        &&& ((is_text_key(k) && v is Str && n.last().1 is Str) || same_structure(v, n.last().1))
    }
}

/// Two values of a member named `k` that agree up to translation.
pub open spec fn same_member(k: Seq<char>, v: JsonView, w: JsonView) -> bool {
    (is_text_key(k) && v is Str && w is Str) || same_structure(v, w)
}

pub proof fn lemma_same_structure_refl(a: JsonView)
    ensures
        same_structure(a, a),
    decreases a,
{
    match a {
        JsonView::Array(x) => lemma_items_refl(x),
        JsonView::Object(m) => lemma_members_refl(m),
        _ => {},
    }
}

proof fn lemma_items_refl(x: Seq<JsonView>)
    ensures
        same_structure_items(x, x),
    decreases x,
{
    if x.len() > 0 {
        lemma_items_refl(x.drop_last());
        lemma_same_structure_refl(x.last());
    }
}

pub proof fn lemma_members_refl(m: Seq<(Seq<char>, JsonView)>)
    ensures
        same_structure_members(m, m),
    decreases m,
{
    if m.len() > 0 {
        lemma_members_refl(m.drop_last());
        lemma_same_structure_refl(m.last().1);
    }
}

/// Related items, one by one.
pub proof fn lemma_items_char(x: Seq<JsonView>, y: Seq<JsonView>)
    ensures
        same_structure_items(x, y) <==> (x.len() == y.len() && forall|i: int|
            0 <= i < x.len() ==> #[trigger] same_structure(x[i], y[i])),
    decreases x.len(),
{
    if x.len() > 0 && y.len() > 0 {
        lemma_items_char(x.drop_last(), y.drop_last());
        if x.len() == y.len() {
            assert forall|i: int| 0 <= i < x.len() - 1 implies x.drop_last()[i] == x[i] && y.drop_last()[i]
                == y[i] by {}
        }
        if same_structure_items(x, y) {
            assert forall|i: int| 0 <= i < x.len() implies #[trigger] same_structure(x[i], y[i]) by {
                if i < x.len() - 1 {
                    assert(x.drop_last()[i] == x[i] && y.drop_last()[i] == y[i]);
                }
            }
        }
        if x.len() == y.len() && forall|i: int| 0 <= i < x.len() ==> #[trigger] same_structure(x[i], y[i]) {
            assert forall|i: int| 0 <= i < x.drop_last().len() implies #[trigger] same_structure(
                x.drop_last()[i],
                y.drop_last()[i],
            ) by {
                assert(x.drop_last()[i] == x[i] && y.drop_last()[i] == y[i]);
                assert(same_structure(x[i], y[i]));
            }
            assert(same_structure(x[x.len() - 1], y[y.len() - 1]));
        }
    }
}

/// Related members, one by one: the same keys in the same order, each
/// pair of values agreeing up to translation.
pub proof fn lemma_members_char(m: Seq<(Seq<char>, JsonView)>, n: Seq<(Seq<char>, JsonView)>)
    ensures
        same_structure_members(m, n) <==> (m.len() == n.len() && forall|i: int|
            0 <= i < m.len() ==> #[trigger] member_pair(m[i], n[i])),
    decreases m.len(),
{
    if m.len() > 0 && n.len() > 0 {
        lemma_members_char(m.drop_last(), n.drop_last());
        if same_structure_members(m, n) {
            assert forall|i: int| 0 <= i < m.len() implies #[trigger] member_pair(m[i], n[i]) by {
                if i < m.len() - 1 {
                    assert(m.drop_last()[i] == m[i] && n.drop_last()[i] == n[i]);
                }
            }
        }
        if m.len() == n.len() && forall|i: int| 0 <= i < m.len() ==> #[trigger] member_pair(m[i], n[i]) {
            assert forall|i: int| 0 <= i < m.drop_last().len() implies #[trigger] member_pair(
                m.drop_last()[i],
                n.drop_last()[i],
            ) by {
                assert(m.drop_last()[i] == m[i] && n.drop_last()[i] == n[i]);
                assert(member_pair(m[i], n[i]));
            }
            assert(member_pair(m[m.len() - 1], n[n.len() - 1]));
        }
    }
}

/// Two members with the same key whose values agree up to translation.
pub open spec fn member_pair(a: (Seq<char>, JsonView), b: (Seq<char>, JsonView)) -> bool {
    a.0 == b.0 && same_member(a.0, a.1, b.1)
}

/// Related members have their keys at the same places.
pub proof fn lemma_key_index_same(
    m: Seq<(Seq<char>, JsonView)>,
    n: Seq<(Seq<char>, JsonView)>,
    k: Seq<char>,
)
    requires
        same_structure_members(m, n),
    ensures
        key_index(m, k) == key_index(n, k),
    decreases m.len(),
{
    lemma_members_char(m, n);
    if m.len() > 0 {
        lemma_key_index_same(m.drop_last(), n.drop_last(), k);
    }
}

/// Related members give related values for a key, or none on both sides.
pub proof fn lemma_member_value_same(
    m: Seq<(Seq<char>, JsonView)>,
    n: Seq<(Seq<char>, JsonView)>,
    k: Seq<char>,
)
    requires
        same_structure_members(m, n),
    ensures
        member_value(m, k) is None <==> member_value(n, k) is None,
        member_value(m, k) is Some ==> same_member(k, member_value(m, k)->0, member_value(n, k)->0),
    decreases m.len(),
{
    if m.len() > 0 {
        lemma_member_value_same(m.drop_last(), n.drop_last(), k);
    }
}

/// Setting a key to values that agree up to translation keeps related
/// members related.
pub proof fn lemma_map_set_same(
    m: Seq<(Seq<char>, JsonView)>,
    n: Seq<(Seq<char>, JsonView)>,
    k: Seq<char>,
    v: JsonView,
    w: JsonView,
)
    requires
        same_structure_members(m, n),
        same_member(k, v, w),
    ensures
        same_structure_members(map_set(m, k, v), map_set(n, k, w)),
{
    lemma_key_index_same(m, n, k);
    lemma_key_index(m, k);
    lemma_members_char(m, n);
    let a = map_set(m, k, v);
    let b = map_set(n, k, w);
    assert(member_pair((k, v), (k, w)));
    assert forall|i: int| 0 <= i < a.len() implies #[trigger] member_pair(a[i], b[i]) by {
        if i < m.len() && key_index(m, k) != Some(i) {
            assert(a[i] == m[i] && b[i] == n[i]);
        }
    }
    lemma_members_char(a, b);
}

/// A key of another length than `description` and `title` is no text key.
proof fn lemma_not_text_key(k: Seq<char>)
    requires
        k.len() != 11 && k.len() != 5,
    ensures
        !is_text_key(k),
{
    reveal_strlit("description");
    reveal_strlit("title");
    assert("description"@.len() == 11);
    assert("title"@.len() == 5);
}

// Translation --------------------------------------------------------------

/// Translating two documents of the same structure, with any two lists of
/// translations, leaves them of the same structure.
pub proof fn lemma_localize_same(
    a: JsonView,
    b: JsonView,
    t1: Seq<(Seq<char>, Seq<char>)>,
    t2: Seq<(Seq<char>, Seq<char>)>,
)
    requires
        same_structure(a, b),
    ensures
        same_structure(localize_spec(a, t1), localize_spec(b, t2)),
    decreases a,
{
    match a {
        JsonView::Array(x) => {
            if let JsonView::Array(y) = b {
                lemma_localize_items_same(x, y, t1, t2);
            }
        },
        JsonView::Object(m) => {
            if let JsonView::Object(n) = b {
                lemma_localize_members_same(m, n, t1, t2);
            }
        },
        _ => {},
    }
}

proof fn lemma_localize_items_same(
    x: Seq<JsonView>,
    y: Seq<JsonView>,
    t1: Seq<(Seq<char>, Seq<char>)>,
    t2: Seq<(Seq<char>, Seq<char>)>,
)
    requires
        same_structure_items(x, y),
    ensures
        same_structure_items(localize_items(x, t1), localize_items(y, t2)),
    decreases x,
{
    if x.len() > 0 {
        lemma_localize_items_same(x.drop_last(), y.drop_last(), t1, t2);
        lemma_localize_same(x.last(), y.last(), t1, t2);
        assert(localize_items(x, t1).drop_last() =~= localize_items(x.drop_last(), t1));
        assert(localize_items(y, t2).drop_last() =~= localize_items(y.drop_last(), t2));
    }
}

proof fn lemma_localize_members_same(
    m: Seq<(Seq<char>, JsonView)>,
    n: Seq<(Seq<char>, JsonView)>,
    t1: Seq<(Seq<char>, Seq<char>)>,
    t2: Seq<(Seq<char>, Seq<char>)>,
)
    requires
        same_structure_members(m, n),
    ensures
        same_structure_members(localize_members(m, t1), localize_members(n, t2)),
    decreases m,
{
    if m.len() > 0 {
        lemma_localize_members_same(m.drop_last(), n.drop_last(), t1, t2);
        let (k, v) = m.last();
        let w = n.last().1;
        if !(is_text_key(k) && v is Str && w is Str) {
            lemma_localize_same(v, w, t1, t2);
            assert(translated_text(k, v, t1) is None && translated_text(k, w, t2) is None);
        }
        assert(localize_members(m, t1).drop_last() =~= localize_members(m.drop_last(), t1));
        assert(localize_members(n, t2).drop_last() =~= localize_members(n.drop_last(), t2));
    }
}

// Numeric bounds -----------------------------------------------------------

proof fn lemma_numeric_schema_same(m: Seq<(Seq<char>, JsonView)>, n: Seq<(Seq<char>, JsonView)>)
    requires
        same_structure_members(m, n),
    ensures
        is_numeric_schema(m) == is_numeric_schema(n),
{
    reveal_strlit("type");
    lemma_not_text_key("type"@);
    lemma_member_value_same(m, n, "type"@);
}

pub proof fn lemma_strip_numeric_same(a: JsonView, b: JsonView)
    requires
        same_structure(a, b),
    ensures
        same_structure(strip_numeric_spec(a), strip_numeric_spec(b)),
    decreases a,
{
    match a {
        JsonView::Array(x) => {
            if let JsonView::Array(y) = b {
                lemma_strip_numeric_items_same(x, y);
            }
        },
        JsonView::Object(m) => {
            if let JsonView::Object(n) = b {
                lemma_numeric_schema_same(m, n);
                lemma_strip_numeric_members_same(m, n, is_numeric_schema(m));
            }
        },
        _ => {},
    }
}

proof fn lemma_strip_numeric_items_same(x: Seq<JsonView>, y: Seq<JsonView>)
    requires
        same_structure_items(x, y),
    ensures
        same_structure_items(strip_numeric_items(x), strip_numeric_items(y)),
    decreases x,
{
    if x.len() > 0 {
        lemma_strip_numeric_items_same(x.drop_last(), y.drop_last());
        lemma_strip_numeric_same(x.last(), y.last());
        assert(strip_numeric_items(x).drop_last() =~= strip_numeric_items(x.drop_last()));
        assert(strip_numeric_items(y).drop_last() =~= strip_numeric_items(y.drop_last()));
    }
}

proof fn lemma_strip_numeric_members_same(
    m: Seq<(Seq<char>, JsonView)>,
    n: Seq<(Seq<char>, JsonView)>,
    numeric: bool,
)
    requires
        same_structure_members(m, n),
    ensures
        same_structure_members(strip_numeric_members(m, numeric), strip_numeric_members(n, numeric)),
    decreases m,
{
    if m.len() > 0 {
        lemma_strip_numeric_members_same(m.drop_last(), n.drop_last(), numeric);
        let (k, v) = m.last();
        let w = n.last().1;
        if !(is_text_key(k) && v is Str && w is Str) {
            lemma_strip_numeric_same(v, w);
        }
        assert(strip_numeric_members(m, numeric).drop_last() =~= strip_numeric_members(
            m.drop_last(),
            numeric,
        ) || strip_numeric_members(m, numeric) == strip_numeric_members(m.drop_last(), numeric));
        assert(strip_numeric_members(n, numeric).drop_last() =~= strip_numeric_members(
            n.drop_last(),
            numeric,
        ) || strip_numeric_members(n, numeric) == strip_numeric_members(n.drop_last(), numeric));
    }
}

// Empty enum buckets -------------------------------------------------------

proof fn lemma_empty_enum_entry_same(a: JsonView, b: JsonView)
    requires
        same_structure(a, b),
    ensures
        is_empty_enum_entry(a) == is_empty_enum_entry(b),
{
    if let JsonView::Object(m) = a {
        if let JsonView::Object(n) = b {
            reveal_strlit("enum");
            lemma_not_text_key("enum"@);
            lemma_member_value_same(m, n, "enum"@);
            if let Some(JsonView::Array(x)) = member_value(m, "enum"@) {
                if let Some(JsonView::Array(y)) = member_value(n, "enum"@) {
                    lemma_items_char(x, y);
                }
            }
        }
    }
}

pub proof fn lemma_strip_enum_same(a: JsonView, b: JsonView)
    requires
        same_structure(a, b),
    ensures
        same_structure(strip_enum_spec(a), strip_enum_spec(b)),
    decreases a,
{
    match a {
        JsonView::Array(x) => {
            if let JsonView::Array(y) = b {
                lemma_strip_enum_items_same(x, y);
            }
        },
        JsonView::Object(m) => {
            if let JsonView::Object(n) = b {
                lemma_strip_enum_members_same(m, n);
            }
        },
        _ => {},
    }
}

proof fn lemma_strip_enum_items_same(x: Seq<JsonView>, y: Seq<JsonView>)
    requires
        same_structure_items(x, y),
    ensures
        same_structure_items(strip_enum_items(x), strip_enum_items(y)),
    decreases x,
{
    if x.len() > 0 {
        lemma_strip_enum_items_same(x.drop_last(), y.drop_last());
        lemma_strip_enum_same(x.last(), y.last());
        assert(strip_enum_items(x).drop_last() =~= strip_enum_items(x.drop_last()));
        assert(strip_enum_items(y).drop_last() =~= strip_enum_items(y.drop_last()));
    }
}

proof fn lemma_strip_enum_one_of_same(x: Seq<JsonView>, y: Seq<JsonView>)
    requires
        same_structure_items(x, y),
    ensures
        same_structure_items(strip_enum_one_of(x), strip_enum_one_of(y)),
    decreases x,
{
    if x.len() > 0 {
        lemma_strip_enum_one_of_same(x.drop_last(), y.drop_last());
        lemma_empty_enum_entry_same(x.last(), y.last());
        if !is_empty_enum_entry(x.last()) {
            lemma_strip_enum_same(x.last(), y.last());
            assert(strip_enum_one_of(x).drop_last() =~= strip_enum_one_of(x.drop_last()));
            assert(strip_enum_one_of(y).drop_last() =~= strip_enum_one_of(y.drop_last()));
        }
    }
}

proof fn lemma_strip_enum_members_same(m: Seq<(Seq<char>, JsonView)>, n: Seq<(Seq<char>, JsonView)>)
    requires
        same_structure_members(m, n),
    ensures
        same_structure_members(strip_enum_members(m), strip_enum_members(n)),
    decreases m,
{
    if m.len() > 0 {
        lemma_strip_enum_members_same(m.drop_last(), n.drop_last());
        let (k, v) = m.last();
        let w = n.last().1;
        if !(is_text_key(k) && v is Str && w is Str) {
            assert(same_structure(v, w));
            lemma_strip_enum_same(v, w);
            if let JsonView::Array(x) = v {
                if let JsonView::Array(y) = w {
                    assert(same_structure_items(x, y));
                    lemma_strip_enum_items_same(x, y);
                    lemma_strip_enum_one_of_same(x, y);
                    assert(same_structure(
                        JsonView::Array(strip_enum_one_of(x)),
                        JsonView::Array(strip_enum_one_of(y)),
                    ));
                    assert(same_structure(
                        JsonView::Array(strip_enum_items(x)),
                        JsonView::Array(strip_enum_items(y)),
                    ));
                }
            }
        }
        assert(strip_enum_members(m).drop_last() =~= strip_enum_members(m.drop_last()));
        assert(strip_enum_members(n).drop_last() =~= strip_enum_members(n.drop_last()));
    }
}

// Nesting ------------------------------------------------------------------

/// Nesting values of the same structure under the same levels of members of
/// the same structure fails on both sides or on neither, and gives members
/// of the same structure.
pub proof fn lemma_insert_at_same(
    m: Seq<(Seq<char>, JsonView)>,
    n: Seq<(Seq<char>, JsonView)>,
    segments: Seq<Seq<char>>,
    key: Seq<char>,
    v: JsonView,
    w: JsonView,
)
    requires
        same_structure_members(m, n),
        same_structure(v, w),
    ensures
        insert_at_spec(m, segments, key, v) is None <==> insert_at_spec(n, segments, key, w) is None,
        insert_at_spec(m, segments, key, v) is Some ==> same_structure_members(
            insert_at_spec(m, segments, key, v)->0,
            insert_at_spec(n, segments, key, w)->0,
        ),
    decreases segments.len(),
{
    if segments.len() == 0 {
        lemma_map_set_same(m, n, key, v, w);
    } else {
        let segment = segments[0];
        lemma_member_value_same(m, n, segment);
        lemma_members_refl(empty_level());
        let node1 = match member_value(m, segment) {
            None => Some(empty_level()),
            Some(JsonView::Object(node)) => Some(node),
            Some(_) => None,
        };
        let node2 = match member_value(n, segment) {
            None => Some(empty_level()),
            Some(JsonView::Object(node)) => Some(node),
            Some(_) => None,
        };
        if let Some(a) = node1 {
            if let Some(b) = node2 {
                assert(same_structure_members(a, b));
                reveal_strlit("properties");
                lemma_not_text_key("properties"@);
                lemma_member_value_same(a, b, "properties"@);
                lemma_members_refl(Seq::empty());
                let p1 = match member_value(a, "properties"@) {
                    None => Some(Seq::empty()),
                    Some(JsonView::Object(p)) => Some(p),
                    Some(_) => None,
                };
                let p2 = match member_value(b, "properties"@) {
                    None => Some(Seq::empty()),
                    Some(JsonView::Object(p)) => Some(p),
                    Some(_) => None,
                };
                if let Some(q1) = p1 {
                    if let Some(q2) = p2 {
                        assert(same_structure_members(q1, q2));
                        lemma_insert_at_same(q1, q2, segments.drop_first(), key, v, w);
                        if let Some(i1) = insert_at_spec(q1, segments.drop_first(), key, v) {
                            let i2 = insert_at_spec(q2, segments.drop_first(), key, w)->0;
                            lemma_map_set_same(
                                a,
                                b,
                                "properties"@,
                                JsonView::Object(i1),
                                JsonView::Object(i2),
                            );
                            lemma_map_set_same(
                                m,
                                n,
                                segment,
                                JsonView::Object(map_set(a, "properties"@, JsonView::Object(i1))),
                                JsonView::Object(map_set(b, "properties"@, JsonView::Object(i2))),
                            );
                        }
                    }
                }
            }
        }
    }
}

} // verus!
