//! The IDs of ambient agent tasks: non-nil UUIDs, written in their
//! hyphenated form.

use vstd::prelude::*;

use crate::mcp_list::{hex_digit, hex_digits, hyphenated_spec, uuid_text};

verus! {

/// `uuid::Error`, the UUID parser's error, carried through unread.
#[verifier::external_type_specification]
#[verifier::external_body]
pub struct ExUuidError(uuid::Error);

/// The value of a hexadecimal digit, in either case.
pub open spec fn hex_value(c: char) -> Option<int> {
    if '0' <= c && c <= '9' {
        Some(c as int - '0' as int)
    } else if 'a' <= c && c <= 'f' {
        Some(c as int - 'a' as int + 10)
    } else if 'A' <= c && c <= 'F' {
        Some(c as int - 'A' as int + 10)
    } else {
        None
    }
}

/// The number that the hexadecimal digits `d` write, most significant
/// first; `None` where one of them is no digit.
pub open spec fn hex_number(d: Seq<char>) -> Option<int>
    decreases d.len(),
{
    if d.len() == 0 {
        Some(0)
    } else {
        match (hex_number(d.drop_last()), hex_value(d.last())) {
            (Some(n), Some(x)) => Some(n * 16 + x),
            _ => None,
        }
    }
}

/// The 32 digits of a hyphenated UUID: groups of 8, 4, 4, 4 and 12 joined
/// by `-`.
pub open spec fn hyphenated_digits(s: Seq<char>) -> Option<Seq<char>> {
    if s.len() == 36 && s[8] == '-' && s[13] == '-' && s[18] == '-' && s[23] == '-' {
        Some(
            s.subrange(0, 8) + s.subrange(9, 13) + s.subrange(14, 18) + s.subrange(19, 23)
                + s.subrange(24, 36),
        )
    } else {
        None
    }
}

/// `c` is `e`, or the upper-case form of `e` where `e` is a lower-case ASCII
/// letter.
pub open spec fn ascii_eq_ignore_case(c: char, e: char) -> bool {
    c == e || ('a' <= e && e <= 'z' && c as int == e as int - 32)
}

/// `s` is `urn:uuid:` in any case.
pub open spec fn urn_prefix(s: Seq<char>) -> bool {
    let p = seq!['u', 'r', 'n', ':', 'u', 'u', 'i', 'd', ':'];
    s.len() == 9 && forall|i: int| 0 <= i < 9 ==> ascii_eq_ignore_case(#[trigger] s[i], p[i])
}

/// The hexadecimal digits of a UUID written in one of the forms the UUID
/// parser reads: the 32 digits alone; the hyphenated form; the hyphenated
/// form in braces; or the hyphenated form after `urn:uuid:`.
pub open spec fn uuid_digits(text: Seq<char>) -> Option<Seq<char>> {
    if text.len() == 32 {
        Some(text)
    } else if text.len() == 36 {
        hyphenated_digits(text)
    } else if text.len() == 38 && text[0] == '{' && text[37] == '}' {
        hyphenated_digits(text.subrange(1, 37))
    } else if text.len() == 45 && urn_prefix(text.take(9)) {
        hyphenated_digits(text.skip(9))
    } else {
        None
    }
}

/// What `uuid::Uuid::try_parse` reads from `text`: the UUID as the 128-bit
/// number of its big-endian bytes, or nothing where the text is no UUID.
pub open spec fn uuid_text_value(text: Seq<char>) -> Option<u128> {
    match uuid_digits(text) {
        Some(d) => match hex_number(d) {
            Some(n) => Some(n as u128),
            None => None,
        },
        None => None,
    }
}

/// `uuid::Uuid::try_parse`: the UUID that `text` holds (see
/// [`uuid_text_value`]), or the crate's error. The parser reads the bytes of
/// `text`; it accepts only ASCII text, whose bytes are its characters.
#[verifier::external_body]
fn parse_uuid(text: &str) -> (r: Result<u128, uuid::Error>)
    ensures
        match r {
            Ok(v) => uuid_text_value(text@) == Some(v),
            Err(_) => uuid_text_value(text@) is None,
        },
{
    uuid::Uuid::try_parse(text).map(|uuid| uuid.as_u128())
}

proof fn lemma_hex_digit_value(d: u128)
    requires
        d < 16,
    ensures
        hex_value(hex_digit(d)) == Some(d as int),
{
}

/// The digits of `v` read back as `v`, a prefix of them as the leading
/// digits of `v`.
proof fn lemma_hex_digits_read_back(v: u128, k: int)
    requires
        0 <= k <= 32,
    ensures
        hex_number(hex_digits(v).take(k)) == Some((v >> ((4 * (32 - k)) as u128)) as int),
    decreases k,
{
    if k == 0 {
        assert(hex_digits(v).take(0) =~= Seq::<char>::empty());
        assert(v >> 128u128 == 0) by (bit_vector);
    } else {
        lemma_hex_digits_read_back(v, k - 1);
        assert(hex_digits(v).take(k).drop_last() =~= hex_digits(v).take(k - 1));
        let s: u128 = (4 * (32 - k)) as u128;
        assert(((4 * (31 - (k - 1))) as u128) == s);
        let d = (v >> s) & 0xf;
        assert(d < 16) by (bit_vector)
            requires
                d == (v >> s) & 0xf,
        ;
        lemma_hex_digit_value(d);
        assert(((4 * (32 - (k - 1))) as u128) == s + 4);
        assert((v >> (s + 4)) * 16 + ((v >> s) & 0xf) == v >> s) by (bit_vector)
            requires
                s <= 124,
        ;
    }
}

/// The hyphenated form of `v` reads back as `v`.
proof fn lemma_hyphenated_reads_back(v: u128)
    ensures
        uuid_text_value(hyphenated_spec(v)) == Some(v),
{
    reveal_strlit("-");
    let h = hex_digits(v);
    let t = hyphenated_spec(v);
    assert(t.len() == 36);
    assert(t[8] == '-' && t[13] == '-' && t[18] == '-' && t[23] == '-');
    assert(t.subrange(0, 8) + t.subrange(9, 13) + t.subrange(14, 18) + t.subrange(19, 23) + t.subrange(
        24,
        36,
    ) =~= h);
    lemma_hex_digits_read_back(v, 32);
    assert(h.take(32) =~= h);
    assert(v >> 0u128 == v) by (bit_vector);
}

/// `uuid::NonNilUuid::try_from`: the UUID itself where it is not nil (zero),
/// else the crate's error.
#[verifier::external_body]
fn non_nil_uuid(v: u128) -> (r: Result<u128, uuid::Error>)
    ensures
        match r {
            Ok(u) => u == v && v != 0,
            Err(_) => v == 0,
        },
{
    uuid::NonNilUuid::try_from(uuid::Uuid::from_u128(v)).map(|n| uuid::Uuid::from(n).as_u128())
}

/// A text that is no task ID, with the UUID parser's error.
#[derive(Debug)]
pub struct ParseAmbientAgentTaskIdError {
    pub source: uuid::Error,
}

/// A globally unique ID for an ambient agent task: a UUID that is not nil.
#[derive(Debug, Clone, Copy, PartialEq, Eq, Hash)]
pub struct AmbientAgentTaskId {
    uuid: u128,
}

impl AmbientAgentTaskId {
    #[verifier::type_invariant]
    spec fn non_nil(self) -> bool {
        self.uuid != 0
    }

    /// The UUID, as the 128-bit number of its big-endian bytes.
    pub closed spec fn value(self) -> u128 {
        self.uuid
    }

    pub fn as_u128(&self) -> (r: u128)
        ensures
            r == self.value(),
            r != 0,
    {
        proof {
            use_type_invariant(self);
        }
        self.uuid
    }

    /// The task ID of a parsed UUID: `None` for the nil UUID.
    pub fn try_from_u128(v: u128) -> (r: Option<AmbientAgentTaskId>)
        ensures
            match r {
                Some(id) => v != 0 && id.value() == v,
                None => v == 0,
            },
    {
        if v == 0 {
            None
        } else {
            Some(AmbientAgentTaskId { uuid: v })
        }
    }

    /// Reads a task ID: a UUID in any of the forms the UUID parser accepts
    /// (see [`uuid_text_value`]), other than the nil UUID.
    pub fn from_str(s: &str) -> (r: Result<AmbientAgentTaskId, ParseAmbientAgentTaskIdError>)
        ensures
            match r {
                Ok(id) => uuid_text_value(s@) == Some(id.value()) && id.value() != 0,
                Err(_) => uuid_text_value(s@) is None || uuid_text_value(s@) == Some(0u128),
            },
    {
        let parsed = match parse_uuid(s) {
            Ok(v) => v,
            Err(source) => {
                return Err(ParseAmbientAgentTaskIdError { source });
            },
        };
        match non_nil_uuid(parsed) {
            Ok(uuid) => Ok(AmbientAgentTaskId { uuid }),
            Err(source) => Err(ParseAmbientAgentTaskIdError { source }),
        }
    }

    /// An ID written with [`AmbientAgentTaskId::to_string`] reads back as
    /// that ID.
    pub proof fn law_written_id_reads_back(id: AmbientAgentTaskId)
        ensures
            uuid_text_value(hyphenated_spec(id.value())) == Some(id.value()),
    {
        lemma_hyphenated_reads_back(id.value());
    }

    /// The ID in its hyphenated lowercase form.
    pub fn to_string(&self) -> (r: String)
        ensures
            r@ == hyphenated_spec(self.value()),
    {
        uuid_text(self.uuid)
    }
}

} // verus!
