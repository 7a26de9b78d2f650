//! Character-level string helpers shared by the rest of the library.
//!
//! Everything here works on the `Seq<char>` view of `str`/`String`, so the
//! contracts elsewhere can speak of text as plain sequences of characters.

use vstd::prelude::*;

verus! {

/// Appends one character to a `String`; this is `String::push`, which adds
/// `c` at the end of the string and leaves the rest unchanged.
#[verifier::external_body]
fn push_char(s: &mut String, c: char)
    ensures
        final(s)@ == old(s)@.push(c),
{
    s.push(c)
}

/// The characters of `s`, in order.
pub fn chars_of(s: &str) -> (v: Vec<char>)
    ensures
        v@ == s@,
{
    let mut v: Vec<char> = Vec::new();
    for c in it: s.chars()
        invariant
            v@ == it.seq().take(it.index()),
    {
        v.push(c);
    }
    v
}

/// A `String` holding exactly the characters of `chars`.
pub fn string_from_chars(chars: &[char]) -> (s: String)
    ensures
        s@ == chars@,
{
    let mut s = String::new();
    let mut i: usize = 0;
    while i < chars.len()
        invariant
            i <= chars@.len(),
            s@ == chars@.take(i as int),
        decreases chars@.len() - i,
    {
        push_char(&mut s, chars[i]);
        assert(chars@.take(i as int).push(chars@[i as int]) =~= chars@.take(i + 1));
        i = i + 1;
    }
    assert(chars@.take(chars@.len() as int) =~= chars@);
    s
}


/// Unicode `White_Space`, the property that `char::is_whitespace` tests and
/// that `str::trim` strips.
pub open spec fn is_whitespace_spec(c: char) -> bool {
    let n = c as u32;
    ||| 0x09 <= n <= 0x0d
    ||| n == 0x20
    ||| n == 0x85
    ||| n == 0xa0
    ||| n == 0x1680
    ||| 0x2000 <= n <= 0x200a
    ||| n == 0x2028
    ||| n == 0x2029
    ||| n == 0x202f
    ||| n == 0x205f
    ||| n == 0x3000
}

pub fn is_whitespace(c: char) -> (b: bool)
    ensures
        b == is_whitespace_spec(c),
{
    let n = c as u32;
    (0x09 <= n && n <= 0x0d) || n == 0x20 || n == 0x85 || n == 0xa0 || n == 0x1680 || (0x2000
        <= n && n <= 0x200a) || n == 0x2028 || n == 0x2029 || n == 0x202f || n == 0x205f || n
        == 0x3000
}

/// `s` without its leading whitespace.
pub open spec fn trim_start_spec(s: Seq<char>) -> Seq<char>
    decreases s.len(),
{
    if s.len() > 0 && is_whitespace_spec(s[0]) {
        trim_start_spec(s.drop_first())
    } else {
        s
    }
}

/// `s` without its trailing whitespace.
pub open spec fn trim_end_spec(s: Seq<char>) -> Seq<char>
    decreases s.len(),
{
    if s.len() > 0 && is_whitespace_spec(s.last()) {
        trim_end_spec(s.drop_last())
    } else {
        s
    }
}

/// `s` without leading and trailing whitespace, as `str::trim` returns it.
pub open spec fn trim_spec(s: Seq<char>) -> Seq<char> {
    trim_end_spec(trim_start_spec(s))
}

/// The characters of `s` without leading and trailing whitespace.
pub fn trim_chars(s: &[char]) -> (r: Vec<char>)
    ensures
        r@ == trim_spec(s@),
{
    let len = s.len();
    let mut start: usize = 0;
    assert(s@.subrange(0, len as int) =~= s@);
    while start < len && is_whitespace(s[start])
        invariant
            start <= len == s@.len(),
            trim_start_spec(s@) == trim_start_spec(s@.subrange(start as int, len as int)),
        decreases len - start,
    {
        assert(s@.subrange(start as int, len as int).drop_first() =~= s@.subrange(
            start + 1,
            len as int,
        ));
        start = start + 1;
    }
    let ghost front = s@.subrange(start as int, len as int);
    assert(trim_start_spec(front) == front);
    let mut end: usize = len;
    while end > start && is_whitespace(s[end - 1])
        invariant
            start <= end <= len == s@.len(),
            front == s@.subrange(start as int, len as int),
            trim_end_spec(front) == trim_end_spec(s@.subrange(start as int, end as int)),
        decreases end,
    {
        assert(s@.subrange(start as int, end as int).drop_last() =~= s@.subrange(
            start as int,
            end - 1,
        ));
        end = end - 1;
    }
    let mut r: Vec<char> = Vec::new();
    let mut i: usize = start;
    while i < end
        invariant
            start <= i <= end <= len == s@.len(),
            r@ == s@.subrange(start as int, i as int),
        decreases end - i,
    {
        r.push(s[i]);
        assert(s@.subrange(start as int, i as int).push(s@[i as int]) =~= s@.subrange(
            start as int,
            i + 1,
        ));
        i = i + 1;
    }
    r
}

/// The pieces of `s` between occurrences of `sep`, as `str::split` with a
/// `char` pattern yields them: `n` separators give `n + 1` pieces, some of
/// which may be empty.
pub open spec fn split_spec(s: Seq<char>, sep: char) -> Seq<Seq<char>>
    decreases s.len(),
{
    if s.len() == 0 {
        seq![Seq::<char>::empty()]
    } else {
        let pieces = split_spec(s.drop_last(), sep);
        if s.last() == sep {
            pieces.push(Seq::<char>::empty())
        } else {
            pieces.update(pieces.len() - 1, pieces.last().push(s.last()))
        }
    }
}

pub proof fn lemma_split_nonempty(s: Seq<char>, sep: char)
    ensures
        split_spec(s, sep).len() >= 1,
    decreases s.len(),
{
    if s.len() > 0 {
        lemma_split_nonempty(s.drop_last(), sep);
    }
}

/// Splits `s` at every `sep`.
pub fn split_chars(s: &[char], sep: char) -> (pieces: Vec<Vec<char>>)
    ensures
        pieces@.len() == split_spec(s@, sep).len(),
        forall|k: int| 0 <= k < pieces@.len() ==> #[trigger] pieces@[k]@ == split_spec(s@, sep)[k],
{
    let mut pieces: Vec<Vec<char>> = Vec::new();
    let mut current: Vec<char> = Vec::new();
    let mut i: usize = 0;
    proof {
        assert(s@.take(0) =~= Seq::<char>::empty());
    }
    while i < s.len()
        invariant
            i <= s@.len(),
            pieces@.len() + 1 == split_spec(s@.take(i as int), sep).len(),
            forall|k: int|
                0 <= k < pieces@.len() ==> #[trigger] pieces@[k]@ == split_spec(
                    s@.take(i as int),
                    sep,
                )[k],
            current@ == split_spec(s@.take(i as int), sep).last(),
        decreases s@.len() - i,
    {
        let ghost prev = s@.take(i as int);
        proof {
            lemma_split_nonempty(prev, sep);
            assert(s@.take(i + 1).drop_last() =~= prev);
            assert(s@.take(i + 1).last() == s@[i as int]);
        }
        if s[i] == sep {
            let done = current;
            pieces.push(done);
            current = Vec::new();
        } else {
            current.push(s[i]);
        }
        i = i + 1;
    }
    pieces.push(current);
    assert(s@.take(s@.len() as int) =~= s@);
    pieces
}


/// Whether two character sequences are equal.
pub fn chars_eq(a: &[char], b: &[char]) -> (r: bool)
    ensures
        r == (a@ == b@),
{
    if a.len() != b.len() {
        return false;
    }
    let mut i: usize = 0;
    while i < a.len()
        invariant
            i <= a@.len() == b@.len(),
            forall|k: int| 0 <= k < i ==> a@[k] == b@[k],
        decreases a@.len() - i,
    {
        if a[i] != b[i] {
            return false;
        }
        i = i + 1;
    }
    assert(a@ =~= b@);
    true
}

/// A copy of `v`.
pub fn copy_chars(v: &[char]) -> (r: Vec<char>)
    ensures
        r@ == v@,
{
    let mut r: Vec<char> = Vec::new();
    let mut i: usize = 0;
    while i < v.len()
        invariant
            i <= v@.len(),
            r@ == v@.take(i as int),
        decreases v@.len() - i,
    {
        r.push(v[i]);
        assert(v@.take(i as int).push(v@[i as int]) =~= v@.take(i + 1));
        i = i + 1;
    }
    assert(v@.take(v@.len() as int) =~= v@);
    r
}

/// Appends the characters of `tail` to `out`.
pub fn extend_chars(out: &mut Vec<char>, tail: &[char])
    ensures
        final(out)@ == old(out)@ + tail@,
{
    let mut i: usize = 0;
    while i < tail.len()
        invariant
            i <= tail@.len(),
            out@ == old(out)@ + tail@.take(i as int),
        decreases tail@.len() - i,
    {
        out.push(tail[i]);
        assert(old(out)@ + tail@.take(i as int) + seq![tail@[i as int]] =~= old(out)@ + tail@.take(
            i + 1,
        ));
        i = i + 1;
    }
    assert(tail@.take(tail@.len() as int) =~= tail@);
}

/// Appends the characters of `tail` to `out`.
pub fn extend_str(out: &mut Vec<char>, tail: &str)
    ensures
        final(out)@ == old(out)@ + tail@,
{
    let t = chars_of(tail);
    extend_chars(out, t.as_slice());
}


/// `c` with ASCII upper-case letters mapped to lower case.
pub open spec fn ascii_lower_spec(c: char) -> char {
    if 'A' <= c && c <= 'Z' {
        ((c as u32) + 32) as char
    } else {
        c
    }
}

/// `s` with ASCII upper-case letters mapped to lower case, as
/// `str::to_ascii_lowercase` returns it.
pub open spec fn ascii_lowercase_spec(s: Seq<char>) -> Seq<char> {
    s.map_values(|c: char| ascii_lower_spec(c))
}

pub fn to_ascii_lowercase(s: &str) -> (r: String)
    ensures
        r@ == ascii_lowercase_spec(s@),
{
    let chars = chars_of(s);
    let mut out: Vec<char> = Vec::new();
    let mut i: usize = 0;
    while i < chars.len()
        invariant
            i <= chars@.len(),
            out@ == ascii_lowercase_spec(chars@.take(i as int)),
        decreases chars@.len() - i,
    {
        let c = chars[i];
        let lower = if 'A' <= c && c <= 'Z' {
            let b = (c as u32) as u8;
            ((b + 32) as char)
        } else {
            c
        };
        out.push(lower);
        assert(ascii_lowercase_spec(chars@.take(i + 1)) =~= ascii_lowercase_spec(
            chars@.take(i as int),
        ).push(ascii_lower_spec(c)));
        i = i + 1;
    }
    assert(chars@.take(chars@.len() as int) =~= chars@);
    string_from_chars(out.as_slice())
}


/// The decimal digit for `d` in `0..10`.
pub open spec fn digit_char(d: nat) -> char {
    if d == 0 { '0' } else if d == 1 { '1' } else if d == 2 { '2' } else if d == 3 { '3' }
    else if d == 4 { '4' } else if d == 5 { '5' } else if d == 6 { '6' } else if d == 7 { '7' }
    else if d == 8 { '8' } else { '9' }
}

/// The decimal digits of `n`, without leading zeros.
pub open spec fn nat_digits(n: nat) -> Seq<char>
    decreases n,
{
    if n < 10 {
        seq![digit_char(n)]
    } else {
        nat_digits(n / 10).push(digit_char(n % 10))
    }
}

/// `n` in decimal, with a leading `-` when negative, as `to_string` writes it.
pub open spec fn decimal_spec(n: int) -> Seq<char> {
    if n < 0 {
        seq!['-'] + nat_digits((-n) as nat)
    } else {
        nat_digits(n as nat)
    }
}

pub(crate) fn digit(d: u64) -> (c: char)
    requires
        d < 10,
    ensures
        c == digit_char(d as nat),
{
    if d == 0 { '0' } else if d == 1 { '1' } else if d == 2 { '2' } else if d == 3 { '3' }
    else if d == 4 { '4' } else if d == 5 { '5' } else if d == 6 { '6' } else if d == 7 { '7' }
    else if d == 8 { '8' } else { '9' }
}

fn push_digits(out: &mut Vec<char>, n: u64)
    ensures
        final(out)@ == old(out)@ + nat_digits(n as nat),
    decreases n,
{
    if n < 10 {
        out.push(digit(n));
    } else {
        push_digits(out, n / 10);
        out.push(digit(n % 10));
        assert(old(out)@ + nat_digits((n / 10) as nat) + seq![digit_char((n % 10) as nat)] =~= old(
            out,
        )@ + nat_digits(n as nat));
    }
}

/// `n` in decimal.
pub fn u64_to_decimal(n: u64) -> (s: String)
    ensures
        s@ == decimal_spec(n as int),
{
    let mut out: Vec<char> = Vec::new();
    push_digits(&mut out, n);
    assert(out@ =~= nat_digits(n as nat));
    string_from_chars(out.as_slice())
}

/// `n` in decimal, with a leading `-` when negative.
pub fn i64_to_decimal(n: i64) -> (s: String)
    ensures
        s@ == decimal_spec(n as int),
{
    let mut out: Vec<char> = Vec::new();
    if n < 0 {
        out.push('-');
        let magnitude: u64 = if n == i64::MIN {
            9_223_372_036_854_775_808u64
        } else {
            (-n) as u64
        };
        push_digits(&mut out, magnitude);
        assert(out@ =~= seq!['-'] + nat_digits((-n) as nat));
    } else {
        push_digits(&mut out, n as u64);
        assert(out@ =~= nat_digits(n as nat));
    }
    string_from_chars(out.as_slice())
}


/// `s` with every occurrence of the non-empty `pattern` replaced by
/// `replacement`, scanning left to right without overlaps, as `str::replace`
/// does.
pub open spec fn replace_spec(s: Seq<char>, pattern: Seq<char>, replacement: Seq<char>) -> Seq<char>
    recommends
        pattern.len() > 0,
    decreases s.len(),
{
    if s.len() == 0 {
        s
    } else if pattern.len() > 0 && pattern.len() <= s.len() && s.take(pattern.len() as int)
        == pattern {
        replacement + replace_spec(s.skip(pattern.len() as int), pattern, replacement)
    } else {
        seq![s[0]] + replace_spec(s.drop_first(), pattern, replacement)
    }
}

pub(crate) fn matches_at(s: &Vec<char>, i: usize, pattern: &Vec<char>) -> (r: bool)
    requires
        i <= s@.len(),
    ensures
        r == (pattern@.len() <= s@.len() - i && s@.skip(i as int).take(pattern@.len() as int)
            == pattern@),
{
    if pattern.len() > s.len() - i {
        return false;
    }
    let mut k: usize = 0;
    while k < pattern.len()
        invariant
            k <= pattern@.len(),
            i + pattern@.len() <= s@.len() == s.len(),
            forall|j: int| 0 <= j < k ==> s@[i + j] == pattern@[j],
        decreases pattern@.len() - k,
    {
        if s[i + k] != pattern[k] {
            assert(s@.skip(i as int).take(pattern@.len() as int)[k as int] != pattern@[k as int]);
            return false;
        }
        k = k + 1;
    }
    assert(s@.skip(i as int).take(pattern@.len() as int) =~= pattern@);
    true
}

/// Replaces every occurrence of `pattern` in `s` by `replacement` (see
/// [`replace_spec`]).
pub fn replace_all(s: &str, pattern: &str, replacement: &str) -> (r: String)
    requires
        pattern@.len() > 0,
    ensures
        r@ == replace_spec(s@, pattern@, replacement@),
{
    let c = chars_of(s);
    let p = chars_of(pattern);
    let rep = chars_of(replacement);
    let mut out: Vec<char> = Vec::new();
    let mut i: usize = 0;
    assert(c@.skip(0) =~= c@);
    while i < c.len()
        invariant
            i <= c@.len() == c.len(),
            p@ == pattern@,
            p@.len() > 0,
            rep@ == replacement@,
            replace_spec(s@, pattern@, replacement@) == out@ + replace_spec(
                c@.skip(i as int),
                pattern@,
                replacement@,
            ),
            c@ == s@,
        decreases c@.len() - i,
    {
        let ghost rest = c@.skip(i as int);
        if matches_at(&c, i, &p) {
            assert(rest.skip(p@.len() as int) =~= c@.skip(i + p@.len()));
            let ghost before = out@;
            extend_chars(&mut out, rep.as_slice());
            assert(before + (rep@ + replace_spec(rest.skip(p@.len() as int), pattern@, replacement@))
                =~= out@ + replace_spec(c@.skip(i + p@.len()), pattern@, replacement@));
            i = i + p.len();
        } else {
            assert(rest.drop_first() =~= c@.skip(i + 1));
            let ghost before = out@;
            out.push(c[i]);
            assert(before + (seq![rest[0]] + replace_spec(rest.drop_first(), pattern@, replacement@))
                =~= out@ + replace_spec(c@.skip(i + 1), pattern@, replacement@));
            i = i + 1;
        }
    }
    assert(out@ + replace_spec(c@.skip(i as int), pattern@, replacement@) =~= out@);
    string_from_chars(out.as_slice())
}


/// The pieces of `s` between the occurrences of the non-empty `sep`,
/// matched left to right without overlaps, as `str::split` with a string
/// pattern yields them.
pub open spec fn split_str_spec(s: Seq<char>, sep: Seq<char>) -> Seq<Seq<char>>
    recommends
        sep.len() > 0,
    decreases s.len(),
{
    if s.len() == 0 {
        seq![Seq::<char>::empty()]
    } else if sep.len() > 0 && sep.len() <= s.len() && s.take(sep.len() as int) == sep {
        seq![Seq::<char>::empty()] + split_str_spec(s.skip(sep.len() as int), sep)
    } else {
        let rest = split_str_spec(s.drop_first(), sep);
        rest.update(0, seq![s[0]] + rest[0])
    }
}

pub proof fn lemma_split_str_nonempty(s: Seq<char>, sep: Seq<char>)
    ensures
        split_str_spec(s, sep).len() >= 1,
    decreases s.len(),
{
    if s.len() > 0 {
        if sep.len() > 0 && sep.len() <= s.len() && s.take(sep.len() as int) == sep {
            lemma_split_str_nonempty(s.skip(sep.len() as int), sep);
        } else {
            lemma_split_str_nonempty(s.drop_first(), sep);
        }
    }
}

/// Splits `s` at every occurrence of the non-empty `sep` (see
/// [`split_str_spec`]).
pub fn split_str(s: &str, sep: &str) -> (pieces: Vec<String>)
    requires
        sep@.len() > 0,
    ensures
        pieces@.map_values(|p: String| p@) == split_str_spec(s@, sep@),
{
    let sc = chars_of(s);
    let pc = chars_of(sep);
    let n = sc.len();
    let mut done: Vec<String> = Vec::new();
    let mut current: Vec<char> = Vec::new();
    let mut i: usize = 0;
    proof {
        assert(sc@.skip(0) =~= sc@);
        lemma_split_str_nonempty(sc@, pc@);
        assert(split_str_spec(sc@, pc@) =~= Seq::<Seq<char>>::empty() + seq![
            Seq::<char>::empty() + split_str_spec(sc@.skip(0), pc@)[0]] + split_str_spec(
            sc@.skip(0),
            pc@,
        ).drop_first());
    }
    while i < n
        invariant
            n == sc@.len(),
            sc@ == s@,
            pc@ == sep@,
            pc@.len() > 0,
            i <= n,
            split_str_spec(s@, sep@) == done@.map_values(|p: String| p@) + seq![
                current@ + split_str_spec(sc@.skip(i as int), pc@)[0]] + split_str_spec(
                sc@.skip(i as int),
                pc@,
            ).drop_first(),
        decreases n - i,
    {
        let ghost tail = sc@.skip(i as int);
        let ghost before_done = done@.map_values(|p: String| p@);
        let ghost before_current = current@;
        if matches_at(&sc, i, &pc) {
            proof {
                assert(tail.take(pc@.len() as int) =~= sc@.skip(i as int).take(pc@.len() as int));
                assert(tail.skip(pc@.len() as int) =~= sc@.skip(i + pc@.len()));
                lemma_split_str_nonempty(tail.skip(pc@.len() as int), pc@);
            }
            let piece = string_from_chars(current.as_slice());
            done.push(piece);
            current = Vec::new();
            i = i + pc.len();
            proof {
                let t2 = split_str_spec(sc@.skip(i as int), pc@);
                assert(done@.map_values(|p: String| p@) =~= before_done.push(before_current));
                assert(split_str_spec(tail, pc@) =~= seq![Seq::<char>::empty()] + t2);
                assert(split_str_spec(s@, sep@) =~= done@.map_values(|p: String| p@) + seq![
                    current@ + t2[0]] + t2.drop_first());
            }
        } else {
            proof {
                assert(tail.drop_first() =~= sc@.skip(i + 1));
                lemma_split_str_nonempty(tail.drop_first(), pc@);
                assert(!(pc@.len() <= tail.len() && tail.take(pc@.len() as int) == pc@));
            }
            current.push(sc[i]);
            i = i + 1;
            proof {
                let rest = split_str_spec(sc@.skip(i as int), pc@);
                assert(split_str_spec(tail, pc@) == rest.update(0, seq![sc@[i - 1]] + rest[0]));
                assert(split_str_spec(tail, pc@).drop_first() =~= rest.drop_first());
                assert(current@ + rest[0] =~= before_current + (seq![sc@[i - 1]] + rest[0]));
            }
        }
    }
    proof {
        assert(sc@.skip(n as int) =~= Seq::<char>::empty());
    }
    let last = string_from_chars(current.as_slice());
    let ghost before_done = done@.map_values(|p: String| p@);
    done.push(last);
    proof {
        assert(done@.map_values(|p: String| p@) =~= before_done.push(current@));
        assert(split_str_spec(s@, sep@) =~= done@.map_values(|p: String| p@));
    }
    done
}

} // verus!
