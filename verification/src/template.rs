//! Reading placeholder values back out of text that a catalog template with
//! `{name}` placeholders produced.

use vstd::prelude::*;

use crate::text::{chars_of, string_from_chars};

verus! {

/// Index of the first `c` in `s`.
pub open spec fn find_char_spec(s: Seq<char>, c: char) -> Option<int>
    decreases s.len(),
{
    if s.len() == 0 {
        None
    } else if s[0] == c {
        Some(0)
    } else {
        match find_char_spec(s.drop_first(), c) {
            Some(i) => Some(i + 1),
            None => None,
        }
    }
}

/// `s` begins with `t`.
pub open spec fn starts_with_spec(s: Seq<char>, t: Seq<char>) -> bool {
    t.len() <= s.len() && s.take(t.len() as int) == t
}

/// Index of the first occurrence of `t` in `s` (an empty `t` occurs at 0).
pub open spec fn find_sub_spec(s: Seq<char>, t: Seq<char>) -> Option<int>
    decreases s.len(),
{
    if starts_with_spec(s, t) {
        Some(0)
    } else if s.len() == 0 {
        None
    } else {
        match find_sub_spec(s.drop_first(), t) {
            Some(i) => Some(i + 1),
            None => None,
        }
    }
}

pub proof fn lemma_find_char_bounds(s: Seq<char>, c: char)
    ensures
        find_char_spec(s, c) matches Some(i) ==> 0 <= i < s.len() && s[i] == c && forall|k: int|
            0 <= k < i ==> s[k] != c,
        find_char_spec(s, c) is None ==> forall|k: int| 0 <= k < s.len() ==> s[k] != c,
    decreases s.len(),
{
    if s.len() > 0 {
        lemma_find_char_bounds(s.drop_first(), c);
        if s[0] != c {
            assert forall|k: int| 1 <= k < s.len() implies s[k] == s.drop_first()[k - 1] by {}
        }
    }
}

pub proof fn lemma_find_sub_bounds(s: Seq<char>, t: Seq<char>)
    ensures
        find_sub_spec(s, t) matches Some(i) ==> 0 <= i && i + t.len() <= s.len() && s.subrange(
            i,
            i + t.len(),
        ) == t,
    decreases s.len(),
{
    if !starts_with_spec(s, t) && s.len() > 0 {
        lemma_find_sub_bounds(s.drop_first(), t);
        if let Some(i) = find_sub_spec(s.drop_first(), t) {
            assert(s.subrange(i + 1, i + 1 + t.len()) =~= s.drop_first().subrange(i, i + t.len()));
        }
    }
}

/// The value already recorded for `name`, if any (the first record wins).
pub open spec fn lookup_arg(args: Seq<(Seq<char>, Seq<char>)>, name: Seq<char>) -> Option<Seq<char>>
    decreases args.len(),
{
    if args.len() == 0 {
        None
    } else if args[0].0 == name {
        Some(args[0].1)
    } else {
        lookup_arg(args.drop_first(), name)
    }
}

/// Matches `message` against `pattern`, a template whose `{name}`
/// placeholders stand for arbitrary text, after the values `args` already
/// read. Literal text must match exactly; a placeholder takes the text up to
/// the first occurrence of the literal that follows it (or the rest of the
/// message when the placeholder ends the pattern); two adjacent placeholders,
/// an unclosed `{`, or a name that appears twice with different values make
/// the match fail.
pub open spec fn extract_from(
    pattern: Seq<char>,
    message: Seq<char>,
    args: Seq<(Seq<char>, Seq<char>)>,
) -> Option<Seq<(Seq<char>, Seq<char>)>>
    decreases pattern.len(),
{
    match find_char_spec(pattern, '{') {
        None => if pattern == message {
            Some(args)
        } else {
            None
        },
        Some(ps) => {
            let literal = pattern.take(ps);
            if !starts_with_spec(message, literal) {
                None
            } else {
                let m1 = message.skip(literal.len() as int);
                match find_char_spec(pattern.skip(ps), '}') {
                    None => None,
                    Some(rel_end) => {
                        proof {
                            lemma_find_char_bounds(pattern, '{');
                            lemma_find_char_bounds(pattern.skip(ps), '}');
                        }
                        let pe = ps + rel_end;
                        {
                            let name = pattern.subrange(ps + 1, pe);
                            let rest = pattern.skip(pe + 1);
                            let next = match find_char_spec(rest, '{') {
                                Some(i) => i,
                                None => rest.len() as int,
                            };
                            let next_literal = rest.take(next);
                            let value_len: Option<int> = if next_literal.len() == 0 {
                                if next < rest.len() {
                                    None
                                } else {
                                    Some(m1.len() as int)
                                }
                            } else {
                                find_sub_spec(m1, next_literal)
                            };
                            match value_len {
                                None => None,
                                Some(vl) => {
                                    let value = m1.take(vl);
                                    match lookup_arg(args, name) {
                                        Some(existing) => if existing != value {
                                            None
                                        } else {
                                            extract_from(rest, m1.skip(vl), args)
                                        },
                                        None => extract_from(
                                            rest,
                                            m1.skip(vl),
                                            args.push((name, value)),
                                        ),
                                    }
                                },
                            }
                        }
                    },
                }
            }
        },
    }
}

/// The placeholder values that turn `pattern` into `message`, in order of
/// first appearance, or `None` when `message` does not have the shape of
/// `pattern` (see [`extract_from`]).
pub open spec fn extract_template_args_spec(pattern: Seq<char>, message: Seq<char>) -> Option<
    Seq<(Seq<char>, Seq<char>)>,
> {
    extract_from(pattern, message, Seq::empty())
}

/// Index of the first `c` at or after `start`.
pub(crate) fn find_char_from(s: &Vec<char>, start: usize, c: char) -> (r: Option<usize>)
    requires
        start <= s@.len(),
    ensures
        match r {
            Some(i) => start <= i < s@.len() && find_char_spec(s@.skip(start as int), c) == Some(
                i - start,
            ),
            None => find_char_spec(s@.skip(start as int), c) is None,
        },
{
    let mut i = start;
    proof {
        lemma_find_char_bounds(s@.skip(start as int), c);
    }
    while i < s.len()
        invariant
            start <= i <= s@.len(),
            forall|k: int| start <= k < i ==> s@[k] != c,
        decreases s@.len() - i,
    {
        if s[i] == c {
            proof {
                let t = s@.skip(start as int);
                lemma_find_char_bounds(t, c);
                assert(t[i - start] == c);
                match find_char_spec(t, c) {
                    Some(j) => {
                        assert(t[j] == s@[start + j]);
                        assert(j == i - start);
                    },
                    None => {},
                }
            }
            return Some(i);
        }
        i = i + 1;
    }
    proof {
        let t = s@.skip(start as int);
        lemma_find_char_bounds(t, c);
        match find_char_spec(t, c) {
            Some(j) => {
                assert(t[j] == s@[start + j]);
            },
            None => {},
        }
    }
    None
}

/// Whether `m[start..]` begins with `t`.
fn starts_with_at(m: &Vec<char>, start: usize, t: &[char]) -> (r: bool)
    requires
        start <= m@.len(),
    ensures
        r == starts_with_spec(m@.skip(start as int), t@),
{
    if t.len() > m.len() - start {
        return false;
    }
    let mut k: usize = 0;
    while k < t.len()
        invariant
            k <= t@.len(),
            start + t@.len() <= m@.len() == m.len(),
            forall|j: int| 0 <= j < k ==> m@[start + j] == t@[j],
        decreases t@.len() - k,
    {
        if m[start + k] != t[k] {
            assert(m@.skip(start as int).take(t@.len() as int)[k as int] != t@[k as int]);
            return false;
        }
        k = k + 1;
    }
    assert(m@.skip(start as int).take(t@.len() as int) =~= t@);
    true
}

/// Index (relative to `start`) of the first occurrence of `t` in `m[start..]`.
fn find_sub_from(m: &Vec<char>, start: usize, t: &[char]) -> (r: Option<usize>)
    requires
        start <= m@.len(),
    ensures
        match r {
            Some(i) => find_sub_spec(m@.skip(start as int), t@) == Some(i as int),
            None => find_sub_spec(m@.skip(start as int), t@) is None,
        },
{
    let mut i = start;
    while i <= m.len()
        invariant
            start <= i <= m@.len() + 1,
            i <= m@.len() ==> find_sub_spec(m@.skip(start as int), t@) == match find_sub_spec(
                m@.skip(i as int),
                t@,
            ) {
                Some(j) => Some(j + (i - start)),
                None => None::<int>,
            },
            i > m@.len() ==> find_sub_spec(m@.skip(start as int), t@) is None,
        decreases m@.len() + 1 - i,
    {
        if starts_with_at(m, i, t) {
            return Some(i - start);
        }
        if i == m.len() {
            assert(m@.skip(i as int).len() == 0);
            return None;
        }
        assert(m@.skip(i as int).drop_first() =~= m@.skip(i + 1));
        i = i + 1;
    }
    None
}

pub open spec fn pairs_view(v: Seq<(String, String)>) -> Seq<(Seq<char>, Seq<char>)> {
    v.map_values(|p: (String, String)| (p.0@, p.1@))
}

fn lookup_arg_exec(args: &Vec<(String, String)>, name: &[char]) -> (r: Option<Vec<char>>)
    ensures
        r matches Some(v) ==> lookup_arg(pairs_view(args@), name@) == Some(v@),
        r is None ==> lookup_arg(pairs_view(args@), name@) is None,
{
    let mut i: usize = 0;
    assert(pairs_view(args@).skip(0) =~= pairs_view(args@));
    while i < args.len()
        invariant
            i <= args@.len(),
            lookup_arg(pairs_view(args@), name@) == lookup_arg(
                pairs_view(args@).skip(i as int),
                name@,
            ),
        decreases args@.len() - i,
    {
        let n = chars_of(args[i].0.as_str());
        let ghost rest = pairs_view(args@).skip(i as int);
        assert(rest[0] == (args@[i as int].0@, args@[i as int].1@));
        if crate::text::chars_eq(n.as_slice(), name) {
            return Some(chars_of(args[i].1.as_str()));
        }
        assert(rest.drop_first() =~= pairs_view(args@).skip(i + 1));
        i = i + 1;
    }
    assert(pairs_view(args@).skip(i as int).len() == 0);
    None
}

pub(crate) fn slice_to_vec(v: &Vec<char>, from: usize, to: usize) -> (r: Vec<char>)
    requires
        from <= to <= v@.len(),
    ensures
        r@ == v@.subrange(from as int, to as int),
{
    let mut r: Vec<char> = Vec::new();
    let mut i = from;
    while i < to
        invariant
            from <= i <= to <= v@.len(),
            r@ == v@.subrange(from as int, i as int),
        decreases to - i,
    {
        r.push(v[i]);
        assert(v@.subrange(from as int, i as int).push(v@[i as int]) =~= v@.subrange(
            from as int,
            i + 1,
        ));
        i = i + 1;
    }
    r
}


/// Whether `a[i..]` and `b[j..]` hold the same characters.
fn tails_eq(a: &Vec<char>, i: usize, b: &Vec<char>, j: usize) -> (r: bool)
    requires
        i <= a@.len(),
        j <= b@.len(),
    ensures
        r == (a@.skip(i as int) == b@.skip(j as int)),
{
    let x = slice_to_vec(a, i, a.len());
    let y = slice_to_vec(b, j, b.len());
    assert(x@ =~= a@.skip(i as int));
    assert(y@ =~= b@.skip(j as int));
    crate::text::chars_eq(x.as_slice(), y.as_slice())
}

/// Reads the placeholder values out of `message`, which a catalog template
/// `pattern` with `{name}` placeholders produced: each name with the text
/// that stands in its place, in order of first appearance. `None` when the
/// message does not have the shape of the pattern (see [`extract_from`]).
#[verifier::rlimit(50)]
pub fn extract_template_args(pattern: &str, message: &str) -> (r: Option<Vec<(String, String)>>)
    ensures
        match r {
            Some(args) => extract_template_args_spec(pattern@, message@) == Some(
                pairs_view(args@),
            ),
            None => extract_template_args_spec(pattern@, message@) is None,
        },
{
    let p = chars_of(pattern);
    let m = chars_of(message);
    let mut args: Vec<(String, String)> = Vec::new();
    let mut pc: usize = 0;
    let mut mc: usize = 0;
    proof {
        assert(p@.skip(0) =~= p@);
        assert(m@.skip(0) =~= m@);
        assert(pairs_view(args@) =~= Seq::<(Seq<char>, Seq<char>)>::empty());
    }
    loop
        invariant
            p@ == pattern@,
            m@ == message@,
            pc <= p@.len() == p.len(),
            mc <= m@.len() == m.len(),
            extract_template_args_spec(pattern@, message@) == extract_from(
                p@.skip(pc as int),
                m@.skip(mc as int),
                pairs_view(args@),
            ),
        decreases p@.len() - pc,
    {
        let ghost pat = p@.skip(pc as int);
        let ghost msg = m@.skip(mc as int);
        let ghost av = pairs_view(args@);
        let ps_opt = find_char_from(&p, pc, '{');
        proof {
            lemma_find_char_bounds(pat, '{');
        }
        match ps_opt {
            None => {
                let same = tails_eq(&p, pc, &m, mc);
                if same {
                    return Some(args);
                } else {
                    return None;
                }
            },
            Some(ps) => {
                let literal = slice_to_vec(&p, pc, ps);
                assert(literal@ =~= pat.take(ps - pc));
                if !starts_with_at(&m, mc, literal.as_slice()) {
                    return None;
                }
                let mc1 = mc + literal.len();
                assert(msg.skip(literal@.len() as int) =~= m@.skip(mc1 as int));
                let pe_opt = find_char_from(&p, ps, '}');
                assert(pat.skip(ps - pc) =~= p@.skip(ps as int));
                match pe_opt {
                    None => {
                        return None;
                    },
                    Some(pe) => {
                        proof {
                            lemma_find_char_bounds(p@.skip(ps as int), '}');
                            assert(p@.skip(ps as int)[0] == '{');
                        }
                        let ghost pe_rel: int = pe - pc;
                        let name = slice_to_vec(&p, ps + 1, pe);
                        assert(name@ =~= pat.subrange(ps - pc + 1, pe_rel));
                        let rest_start = pe + 1;
                        let ghost rest = pat.skip(pe_rel + 1);
                        assert(rest =~= p@.skip(rest_start as int));
                        let np_opt = find_char_from(&p, rest_start, '{');
                        proof {
                            lemma_find_char_bounds(rest, '{');
                        }
                        let np: usize = match np_opt {
                            Some(i) => i - rest_start,
                            None => p.len() - rest_start,
                        };
                        let next_literal = slice_to_vec(&p, rest_start, rest_start + np);
                        assert(next_literal@ =~= rest.take(np as int));
                        let ghost m1 = m@.skip(mc1 as int);
                        let vlen: usize;
                        if next_literal.len() == 0 {
                            if rest_start + np < p.len() {
                                return None;
                            }
                            vlen = m.len() - mc1;
                        } else {
                            match find_sub_from(&m, mc1, next_literal.as_slice()) {
                                None => {
                                    return None;
                                },
                                Some(v) => {
                                    proof {
                                        lemma_find_sub_bounds(m1, next_literal@);
                                    }
                                    vlen = v;
                                },
                            }
                        }
                        let value = slice_to_vec(&m, mc1, mc1 + vlen);
                        assert(value@ =~= m1.take(vlen as int));
                        assert(m1.skip(vlen as int) =~= m@.skip(mc1 + vlen));
                        match lookup_arg_exec(&args, name.as_slice()) {
                            Some(existing) => {
                                if !crate::text::chars_eq(existing.as_slice(), value.as_slice()) {
                                    return None;
                                }
                            },
                            None => {
                                let n = string_from_chars(name.as_slice());
                                let v = string_from_chars(value.as_slice());
                                args.push((n, v));
                                assert(pairs_view(args@) =~= av.push((name@, value@)));
                            },
                        }
                        mc = mc1 + vlen;
                        pc = rest_start;
                    },
                }
            },
        }
    }
}

/// The name of the first `{name}` placeholder of `pattern`.
pub open spec fn single_placeholder_name_spec(pattern: Seq<char>) -> Option<Seq<char>> {
    match find_char_spec(pattern, '{') {
        None => None,
        Some(start) => match find_char_spec(pattern.skip(start), '}') {
            None => None,
            Some(rel_end) => Some(pattern.subrange(start + 1, start + rel_end)),
        },
    }
}

/// The name of the first `{name}` placeholder of `pattern`, if it has one.
pub fn single_placeholder_name(pattern: &str) -> (r: Option<String>)
    ensures
        match r {
            Some(name) => single_placeholder_name_spec(pattern@) == Some(name@),
            None => single_placeholder_name_spec(pattern@) is None,
        },
{
    let p = chars_of(pattern);
    assert(p@.skip(0) =~= p@);
    proof {
        lemma_find_char_bounds(p@, '{');
    }
    match find_char_from(&p, 0, '{') {
        None => None,
        Some(start) => {
            proof {
                lemma_find_char_bounds(p@.skip(start as int), '}');
                assert(p@.skip(start as int)[0] == '{');
            }
            match find_char_from(&p, start, '}') {
                None => None,
                Some(end) => {
                    assert(p@.subrange(start + 1, end as int) =~= p@.subrange(start + 1, end as int));
                    let name = slice_to_vec(&p, start + 1, end);
                    Some(string_from_chars(name.as_slice()))
                },
            }
        },
    }
}

/// The text that stands for the single placeholder of `pattern` in `message`:
/// what remains once the pattern's text before and after its first
/// placeholder is stripped from the ends of the message; `None` when the ends
/// do not match or nothing remains.
pub open spec fn single_placeholder_value_spec(pattern: Seq<char>, message: Seq<char>) -> Option<
    Seq<char>,
> {
    match find_char_spec(pattern, '{') {
        None => None,
        Some(start) => match find_char_spec(pattern.skip(start), '}') {
            None => None,
            Some(rel_end) => {
                let prefix = pattern.take(start);
                let suffix = pattern.skip(start + rel_end + 1);
                if starts_with_spec(message, prefix) && prefix.len() + suffix.len()
                    <= message.len() && message.skip(message.len() - suffix.len()) == suffix
                    && prefix.len() + suffix.len() < message.len() {
                    Some(message.subrange(prefix.len() as int, message.len() - suffix.len()))
                } else {
                    None
                }
            },
        },
    }
}

/// Reads the value of the single placeholder of `pattern` out of `message`
/// (see [`single_placeholder_value_spec`]).
pub fn extract_single_placeholder_value(pattern: &str, message: &str) -> (r: Option<String>)
    ensures
        match r {
            Some(value) => single_placeholder_value_spec(pattern@, message@) == Some(value@),
            None => single_placeholder_value_spec(pattern@, message@) is None,
        },
{
    let p = chars_of(pattern);
    let m = chars_of(message);
    let plen = p.len();
    let mlen = m.len();
    assert(p@.skip(0) =~= p@);
    assert(m@.skip(0) =~= m@);
    proof {
        lemma_find_char_bounds(p@, '{');
    }
    match find_char_from(&p, 0, '{') {
        None => None,
        Some(start) => {
            proof {
                lemma_find_char_bounds(p@.skip(start as int), '}');
                assert(p@.skip(start as int)[0] == '{');
            }
            match find_char_from(&p, start, '}') {
                None => None,
                Some(end) => {
                    assert(find_char_spec(p@, '{') == Some(start as int));
                    assert(find_char_spec(p@.skip(start as int), '}') == Some(end - start));
                    let prefix = slice_to_vec(&p, 0, start);
                    let suffix = slice_to_vec(&p, end + 1, p.len());
                    assert(prefix@ =~= p@.take(start as int));
                    assert(suffix@ =~= p@.skip(end + 1));
                    if !starts_with_at(&m, 0, prefix.as_slice()) {
                        return None;
                    }
                    if prefix.len() + suffix.len() > m.len() {
                        return None;
                    }
                    let tail_start = m.len() - suffix.len();
                    assert(m@.skip(tail_start as int).take(suffix@.len() as int) =~= m@.skip(
                        tail_start as int,
                    ));
                    if !starts_with_at(&m, tail_start, suffix.as_slice()) {
                        return None;
                    }
                    if prefix.len() + suffix.len() == m.len() {
                        return None;
                    }
                    let value = slice_to_vec(&m, prefix.len(), tail_start);
                    Some(string_from_chars(value.as_slice()))
                },
            }
        },
    }
}

} // verus!
