//! The `mcp list` command: the runnable MCP servers, ordered by UUID, as a
//! table.

use vstd::prelude::*;

use crate::localization::{text_spec, CatalogBundle, LocaleId};
use crate::output::text::string_views;

verus! {

broadcast use vstd::seq_lib::group_to_multiset_ensures;

/// A runnable MCP server: its UUID (as the 128-bit number whose big-endian
/// bytes are the UUID's) and its name.
#[derive(Clone, Debug)]
pub struct MCPServerInfo {
    pub uuid: u128,
    pub name: String,
}

/// The lowercase hexadecimal digit of `d` (below 16).
pub open spec fn hex_digit(d: u128) -> char {
    if d < 10 {
        (('0' as u32) + d) as char
    } else {
        (('a' as u32) + (d - 10)) as char
    }
}

/// The 32 hexadecimal digits of `v`, most significant first.
pub open spec fn hex_digits(v: u128) -> Seq<char> {
    Seq::new(32, |i: int| hex_digit((v >> ((4 * (31 - i)) as u128)) & 0xf))
}

/// A UUID in its hyphenated form: its digits in groups of 8, 4, 4, 4 and
/// 12, joined by `-`.
pub open spec fn hyphenated_spec(v: u128) -> Seq<char> {
    let h = hex_digits(v);
    h.subrange(0, 8) + "-"@ + h.subrange(8, 12) + "-"@ + h.subrange(12, 16) + "-"@ + h.subrange(16, 20)
        + "-"@ + h.subrange(20, 32)
}

/// `uuid::Uuid::from_u128(v)` written with its `Display`: the hyphenated
/// lowercase form, as the crate documents it.
#[verifier::external_body]
pub(crate) fn uuid_text(v: u128) -> (r: String)
    ensures
        r@ == hyphenated_spec(v),
{
    uuid::Uuid::from_u128(v).to_string()
}

pub open spec fn info_view(info: MCPServerInfo) -> (u128, Seq<char>) {
    (info.uuid, info.name@)
}

pub open spec fn infos_view(infos: Seq<MCPServerInfo>) -> Seq<(u128, Seq<char>)> {
    infos.map_values(|info: MCPServerInfo| info_view(info))
}

/// The servers are in ascending order of UUID.
pub open spec fn sorted_by_uuid(infos: Seq<MCPServerInfo>) -> bool {
    forall|a: int, b: int| 0 <= a < b < infos.len() ==> #[trigger] infos[a].uuid <= #[trigger] infos[b].uuid
}

/// `r` takes its servers from `servers` at the distinct positions `idx`,
/// and servers with equal UUIDs keep the order they had.
pub open spec fn stable_placement(servers: Seq<MCPServerInfo>, r: Seq<MCPServerInfo>, idx: Seq<int>) -> bool {
    &&& idx.len() == r.len()
    &&& forall|k: int| 0 <= k < r.len() ==> 0 <= #[trigger] idx[k] < servers.len() && info_view(r[k]) == info_view(servers[idx[k]])
    &&& forall|a: int, b: int| 0 <= a < b < r.len() ==> #[trigger] idx[a] != #[trigger] idx[b]
    &&& forall|a: int, b: int|
        0 <= a < b < r.len() && r[a].uuid == r[b].uuid ==> #[trigger] idx[a] < #[trigger] idx[b]
}

/// The servers ordered by UUID, as the list shows them: the same servers,
/// in ascending order of UUID, those with equal UUIDs in the order given.
pub fn sorted_server_infos(servers: Vec<MCPServerInfo>) -> (r: Vec<MCPServerInfo>)
    ensures
        sorted_by_uuid(r@),
        infos_view(r@).to_multiset() == infos_view(servers@).to_multiset(),
        exists|idx: Seq<int>| stable_placement(servers@, r@, idx),
{
    let mut out: Vec<MCPServerInfo> = Vec::new();
    let mut i: usize = 0;
    let n = servers.len();
    let ghost mut idx: Seq<int> = Seq::empty();
    assert(infos_view(servers@.take(0)) =~= Seq::<(u128, Seq<char>)>::empty());
    assert(infos_view(out@) =~= Seq::<(u128, Seq<char>)>::empty());
    while i < n
        invariant
            n == servers@.len(),
            i <= n,
            sorted_by_uuid(out@),
            infos_view(out@).to_multiset() == infos_view(servers@.take(i as int)).to_multiset(),
            stable_placement(servers@, out@, idx),
            forall|k: int| 0 <= k < idx.len() ==> #[trigger] idx[k] < i,
        decreases n - i,
    {
        let item = MCPServerInfo { uuid: servers[i].uuid, name: servers[i].name.clone() };
        let key = item.uuid;
        // Insert after every server whose UUID is not greater.
        let mut p: usize = 0;
        while p < out.len() && out[p].uuid <= key
            invariant
                p <= out@.len(),
                forall|a: int| 0 <= a < p ==> #[trigger] out@[a].uuid <= key,
            decreases out@.len() - p,
        {
            p = p + 1;
        }
        proof {
            assert forall|b: int| p <= b < out@.len() implies key < #[trigger] out@[b].uuid by {
                if p < out@.len() {
                    assert(key < out@[p as int].uuid);
                    assert(out@[p as int].uuid <= out@[b].uuid);
                }
            }
        }
        let ghost before = out@;
        let ghost before_idx = idx;
        let ghost item_view = info_view(item);
        assert(item_view == info_view(servers@[i as int]));
        out.insert(p, item);
        proof {
            idx = before_idx.insert(p as int, i as int);
            assert(infos_view(out@) =~= infos_view(before).insert(p as int, item_view));
            assert(infos_view(servers@.take(i + 1)) =~= infos_view(servers@.take(i as int)).push(
                info_view(servers@[i as int]),
            ));
            assert forall|a: int, b: int| 0 <= a < b < out@.len() implies #[trigger] out@[a].uuid
                <= #[trigger] out@[b].uuid by {
                if b < p {
                    assert(out@[a] == before[a] && out@[b] == before[b]);
                } else if b == p {
                    assert(out@[a] == before[a]);
                } else if a < p {
                    assert(out@[a] == before[a] && out@[b] == before[b - 1]);
                } else if a == p {
                    assert(out@[b] == before[b - 1]);
                } else {
                    assert(out@[a] == before[a - 1] && out@[b] == before[b - 1]);
                }
            }
            assert forall|k: int| 0 <= k < out@.len() implies 0 <= #[trigger] idx[k] < servers@.len()
                && info_view(out@[k]) == info_view(servers@[idx[k]]) by {
                if k < p {
                    assert(out@[k] == before[k] && idx[k] == before_idx[k]);
                } else if k > p {
                    assert(out@[k] == before[k - 1] && idx[k] == before_idx[k - 1]);
                }
            }
            assert forall|k: int| 0 <= k < idx.len() implies #[trigger] idx[k] < i + 1 by {
                if k < p {
                    assert(idx[k] == before_idx[k]);
                } else if k > p {
                    assert(idx[k] == before_idx[k - 1]);
                }
            }
            assert forall|a: int, b: int| 0 <= a < b < out@.len() implies #[trigger] idx[a]
                != #[trigger] idx[b] by {
                if a < p && b < p {
                    assert(idx[a] == before_idx[a] && idx[b] == before_idx[b]);
                } else if a < p && b == p {
                    assert(idx[a] == before_idx[a]);
                } else if a < p {
                    assert(idx[a] == before_idx[a] && idx[b] == before_idx[b - 1]);
                } else if a == p {
                    assert(idx[b] == before_idx[b - 1]);
                } else {
                    assert(idx[a] == before_idx[a - 1] && idx[b] == before_idx[b - 1]);
                }
            }
            assert forall|a: int, b: int|
                0 <= a < b < out@.len() && out@[a].uuid == out@[b].uuid implies #[trigger] idx[a]
                < #[trigger] idx[b] by {
                if a < p && b < p {
                    assert(idx[a] == before_idx[a] && idx[b] == before_idx[b]);
                    assert(out@[a] == before[a] && out@[b] == before[b]);
                } else if a < p && b == p {
                    assert(idx[a] == before_idx[a]);
                } else if a < p {
                    assert(out@[b] == before[b - 1]);
                    assert(key < out@[b].uuid);
                    assert(out@[a].uuid <= key);
                } else if a == p {
                    assert(out@[b] == before[b - 1]);
                } else {
                    assert(idx[a] == before_idx[a - 1] && idx[b] == before_idx[b - 1]);
                    assert(out@[a] == before[a - 1] && out@[b] == before[b - 1]);
                }
            }
        }
        i = i + 1;
    }
    assert(servers@.take(n as int) =~= servers@);
    out
}

/// The table header in US English.
pub fn mcp_server_info_header() -> (cells: Vec<String>)
    ensures
        string_views(cells@) == seq!["UUID"@, "Name"@],
{
    let cells = vec!["UUID".to_owned(), "Name".to_owned()];
    assert(string_views(cells@) =~= seq!["UUID"@, "Name"@]);
    cells
}

/// The table header in `locale`.
pub fn mcp_server_info_header_for_locale(catalogs: &CatalogBundle, locale: LocaleId) -> (cells: Vec<String>)
    ensures
        string_views(cells@) == seq![
            text_spec(*catalogs, locale, "agent_sdk.mcp.table.uuid"@),
            text_spec(*catalogs, locale, "agent_sdk.mcp.table.name"@),
        ],
{
    let cells = vec![
        catalogs.text(locale, "agent_sdk.mcp.table.uuid"),
        catalogs.text(locale, "agent_sdk.mcp.table.name"),
    ];
    assert(string_views(cells@) =~= seq![
        text_spec(*catalogs, locale, "agent_sdk.mcp.table.uuid"@),
        text_spec(*catalogs, locale, "agent_sdk.mcp.table.name"@),
    ]);
    cells
}

impl MCPServerInfo {
    /// The table row: the UUID in its hyphenated form, and the name.
    pub fn row(&self) -> (cells: Vec<String>)
        ensures
            string_views(cells@) == seq![hyphenated_spec(self.uuid), self.name@],
    {
        let cells = vec![uuid_text(self.uuid), self.name.clone()];
        assert(string_views(cells@) =~= seq![hyphenated_spec(self.uuid), self.name@]);
        cells
    }
}

} // verus!
