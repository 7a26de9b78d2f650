//! The worker-host picker of the orchestration controls: which hosts it lists,
//! in which order, and how each row is labeled.

use vstd::prelude::*;

use crate::text::{chars_eq, chars_of, copy_chars, extend_chars, extend_str, string_from_chars, trim_chars, trim_spec};

verus! {

/// The slug of the Warp-hosted worker pool.
pub const ORCHESTRATION_WARP_WORKER_HOST: &'static str = "warp";

/// The slug `"warp"` as characters.
pub open spec fn warp_host() -> Seq<char> {
    seq!['w', 'a', 'r', 'p']
}

pub proof fn lemma_warp_host_literal()
    ensures
        ORCHESTRATION_WARP_WORKER_HOST@ == warp_host(),
{
    reveal_strlit("warp");
    assert(ORCHESTRATION_WARP_WORKER_HOST@ =~= warp_host());
}


/// Texts of the picker that depend on the display language.
pub struct HostPickerLabels {
    pub custom_host: String,
    pub default_badge: String,
}

/// What a picker row does when it is chosen.
#[derive(Debug, Clone, PartialEq, Eq)]
pub enum InternalAction {
    /// Select the host with this slug.
    SelectKnown(String),
    /// Switch the picker into free-text entry of a custom host.
    EnterCustomMode,
}

/// The dropdown action a row dispatches.
#[derive(Debug, Clone, PartialEq, Eq)]
pub enum DropdownAction {
    SelectActionAndClose(InternalAction),
}

/// The visible part of a picker row and the action it dispatches.
#[derive(Debug, Clone)]
pub struct MenuItemFields {
    pub label: String,
    pub on_select_action: Option<DropdownAction>,
}

impl MenuItemFields {
    pub fn label(&self) -> (r: &str)
        ensures
            r@ == self.label@,
    {
        self.label.as_str()
    }

    pub fn on_select_action(&self) -> (r: Option<&DropdownAction>)
        ensures
            r == match &self.on_select_action {
                Some(a) => Some(a),
                None => None::<&DropdownAction>,
            },
    {
        match &self.on_select_action {
            Some(a) => Some(a),
            None => None,
        }
    }
}

/// A row of the picker's dropdown menu.
#[derive(Debug, Clone)]
pub enum MenuItem {
    Item(MenuItemFields),
}

/// The view of an optional string slice.
pub open spec fn opt_str_view(o: Option<&str>) -> Option<Seq<char>> {
    match o {
        Some(s) => Some(s@),
        None => None,
    }
}

/// The one-element sequence holding the value, or nothing.
pub open spec fn opt_seq(o: Option<Seq<char>>) -> Seq<Seq<char>> {
    match o {
        Some(s) => seq![s],
        None => Seq::empty(),
    }
}

/// `s` with every repeated entry removed, keeping each first occurrence in
/// place.
pub open spec fn dedup_spec(s: Seq<Seq<char>>) -> Seq<Seq<char>>
    decreases s.len(),
{
    if s.len() == 0 {
        Seq::empty()
    } else {
        let front = dedup_spec(s.drop_last());
        if front.contains(s.last()) {
            front
        } else {
            front.push(s.last())
        }
    }
}

/// The hosts the picker lists before its custom-host row: the workspace
/// default, Warp's own pool, the hosts currently connected, and the most
/// recently used host, in that order and each only once.
pub open spec fn known_hosts_spec(
    default_host: Option<Seq<char>>,
    recent_host: Option<Seq<char>>,
    connected_hosts: Seq<Seq<char>>,
) -> Seq<Seq<char>> {
    dedup_spec(opt_seq(default_host) + seq![warp_host()] + connected_hosts + opt_seq(recent_host))
}

/// A row label: the slug, with the default badge when it is the default host.
pub open spec fn menu_label_spec(
    slug: Seq<char>,
    default_host: Option<Seq<char>>,
    badge: Seq<char>,
) -> Seq<char> {
    if default_host == Some(slug) {
        slug + seq![' ', ' ', '('] + badge + seq![')']
    } else {
        slug
    }
}

fn label_for_chars(slug: &[char], default_host: &Option<Vec<char>>, badge: &str) -> (r: String)
    ensures
        r@ == menu_label_spec(
            slug@,
            match default_host {
                Some(d) => Some(d@),
                None => None,
            },
            badge@,
        ),
{
    let is_default = match default_host {
        Some(d) => chars_eq(d.as_slice(), slug),
        None => false,
    };
    if is_default {
        let mut out = copy_chars(slug);
        out.push(' ');
        out.push(' ');
        out.push('(');
        extend_str(&mut out, badge);
        out.push(')');
        assert(out@ =~= slug@ + seq![' ', ' ', '('] + badge@ + seq![')']);
        string_from_chars(out.as_slice())
    } else {
        string_from_chars(slug)
    }
}

/// The label of the row for `slug`: the slug itself, followed by two spaces
/// and the default badge in parentheses when `slug` is the workspace default.
pub fn menu_label_for(slug: &str, default_host: Option<&str>, labels: &HostPickerLabels) -> (r:
    String)
    ensures
        r@ == menu_label_spec(slug@, opt_str_view(default_host), labels.default_badge@),
{
    let d = match default_host {
        Some(d) => Some(chars_of(d)),
        None => None,
    };
    let s = chars_of(slug);
    label_for_chars(s.as_slice(), &d, labels.default_badge.as_str())
}

/// The slug a user typed, trimmed; an empty entry falls back to Warp's pool.
pub open spec fn normalize_slug_spec(raw: Seq<char>) -> Seq<char> {
    if trim_spec(raw).len() == 0 {
        warp_host()
    } else {
        trim_spec(raw)
    }
}

/// Normalizes a typed host slug: surrounding whitespace is removed, and an
/// entry that is empty afterwards selects Warp's own pool.
pub fn normalize_slug(raw: &str) -> (r: String)
    ensures
        r@ == normalize_slug_spec(raw@),
{
    let chars = chars_of(raw);
    let t = trim_chars(chars.as_slice());
    if t.len() == 0 {
        proof {
            lemma_warp_host_literal();
        }
        string_from_chars(chars_of(ORCHESTRATION_WARP_WORKER_HOST).as_slice())
    } else {
        string_from_chars(t.as_slice())
    }
}

pub open spec fn views_of(v: Seq<Vec<char>>) -> Seq<Seq<char>> {
    v.map_values(|x: Vec<char>| x@)
}

fn contains_chars(list: &Vec<Vec<char>>, x: &[char]) -> (r: bool)
    ensures
        r == views_of(list@).contains(x@),
{
    let mut i: usize = 0;
    while i < list.len()
        invariant
            i <= list@.len(),
            forall|k: int| 0 <= k < i ==> list@[k]@ != x@,
        decreases list@.len() - i,
    {
        if chars_eq(list[i].as_slice(), x) {
            assert(views_of(list@)[i as int] == x@);
            return true;
        }
        i = i + 1;
    }
    proof {
        if views_of(list@).contains(x@) {
            let k = choose|k: int| 0 <= k < views_of(list@).len() && views_of(list@)[k] == x@;
            assert(list@[k]@ == x@);
        }
    }
    false
}

fn dedup_hosts(candidates: &Vec<Vec<char>>) -> (r: Vec<Vec<char>>)
    ensures
        views_of(r@) == dedup_spec(views_of(candidates@)),
{
    let mut r: Vec<Vec<char>> = Vec::new();
    let mut i: usize = 0;
    let ghost cands = views_of(candidates@);
    assert(cands.take(0) =~= Seq::<Seq<char>>::empty());
    while i < candidates.len()
        invariant
            i <= candidates@.len(),
            cands == views_of(candidates@),
            views_of(r@) == dedup_spec(cands.take(i as int)),
        decreases candidates@.len() - i,
    {
        proof {
            assert(cands.take(i + 1).drop_last() =~= cands.take(i as int));
            assert(cands.take(i + 1).last() == candidates@[i as int]@);
        }
        if !contains_chars(&r, candidates[i].as_slice()) {
            let c = copy_chars(candidates[i].as_slice());
            let ghost before = views_of(r@);
            r.push(c);
            assert(views_of(r@) =~= before.push(c@));
        }
        i = i + 1;
    }
    assert(cands.take(candidates@.len() as int) =~= cands);
    r
}

/// Builds the picker's rows: one row per known host (see
/// [`known_hosts_spec`]), each selecting its slug and labeled by
/// [`menu_label_for`], and finally the custom-host row, which switches to
/// free-text entry.
pub fn build_menu_items(
    default_host: Option<&str>,
    recent_host: Option<&str>,
    connected_hosts: &[String],
    labels: &HostPickerLabels,
) -> (items: Vec<MenuItem>)
    ensures
        ({
            let known = known_hosts_spec(
                opt_str_view(default_host),
                opt_str_view(recent_host),
                connected_hosts@.map_values(|h: String| h@),
            );
            &&& items@.len() == known.len() + 1
            &&& forall|k: int|
                0 <= k < known.len() ==> match #[trigger] items@[k] {
                    MenuItem::Item(fields) => {
                        &&& fields.label@ == menu_label_spec(
                            known[k],
                            opt_str_view(default_host),
                            labels.default_badge@,
                        )
                        &&& fields.on_select_action matches Some(
                            DropdownAction::SelectActionAndClose(InternalAction::SelectKnown(slug)),
                        ) && slug@ == known[k]
                    },
                }
            &&& match items@[known.len() as int] {
                MenuItem::Item(fields) => {
                    &&& fields.label@ == labels.custom_host@
                    &&& fields.on_select_action == Some(
                        DropdownAction::SelectActionAndClose(InternalAction::EnterCustomMode),
                    )
                },
            }
        }),
{
    let ghost connected_views = connected_hosts@.map_values(|h: String| h@);
    let mut candidates: Vec<Vec<char>> = Vec::new();
    let default_chars = match default_host {
        Some(d) => Some(chars_of(d)),
        None => None,
    };
    match &default_chars {
        Some(d) => {
            candidates.push(copy_chars(d.as_slice()));
        },
        None => {},
    }
    proof {
        lemma_warp_host_literal();
    }
    candidates.push(chars_of(ORCHESTRATION_WARP_WORKER_HOST));
    let ghost prefix = views_of(candidates@);
    assert(prefix =~= opt_seq(opt_str_view(default_host)) + seq![warp_host()]);
    let mut i: usize = 0;
    while i < connected_hosts.len()
        invariant
            i <= connected_hosts@.len(),
            connected_views == connected_hosts@.map_values(|h: String| h@),
            views_of(candidates@) == prefix + connected_views.take(i as int),
        decreases connected_hosts@.len() - i,
    {
        let c = chars_of(connected_hosts[i].as_str());
        let ghost before = views_of(candidates@);
        candidates.push(c);
        assert(views_of(candidates@) =~= before.push(c@));
        assert(connected_views.take(i as int).push(connected_views[i as int]) =~= connected_views.take(
            i + 1,
        ));
        i = i + 1;
    }
    assert(connected_views.take(connected_hosts@.len() as int) =~= connected_views);
    match recent_host {
        Some(r) => {
            let c = chars_of(r);
            let ghost before = views_of(candidates@);
            candidates.push(c);
            assert(views_of(candidates@) =~= before.push(c@));
        },
        None => {},
    }
    assert(views_of(candidates@) =~= opt_seq(opt_str_view(default_host)) + seq![warp_host()]
        + connected_views + opt_seq(opt_str_view(recent_host)));
    let known = dedup_hosts(&candidates);
    let ghost known_view = views_of(known@);
    let mut items: Vec<MenuItem> = Vec::new();
    let mut j: usize = 0;
    while j < known.len()
        invariant
            j <= known@.len(),
            known_view == views_of(known@),
            items@.len() == j,
            match default_chars {
                Some(d) => Some(d@),
                None => None,
            } == opt_str_view(default_host),
            forall|k: int|
                0 <= k < j ==> match #[trigger] items@[k] {
                    MenuItem::Item(fields) => {
                        &&& fields.label@ == menu_label_spec(
                            known_view[k],
                            opt_str_view(default_host),
                            labels.default_badge@,
                        )
                        &&& fields.on_select_action matches Some(
                            DropdownAction::SelectActionAndClose(InternalAction::SelectKnown(slug)),
                        ) && slug@ == known_view[k]
                    },
                },
        decreases known@.len() - j,
    {
        let label = label_for_chars(known[j].as_slice(), &default_chars, labels.default_badge.as_str());
        let slug = string_from_chars(known[j].as_slice());
        items.push(
            MenuItem::Item(
                MenuItemFields {
                    label,
                    on_select_action: Some(
                        DropdownAction::SelectActionAndClose(InternalAction::SelectKnown(slug)),
                    ),
                },
            ),
        );
        assert(known_view[j as int] == known@[j as int]@);
        j = j + 1;
    }
    let custom_label = labels.custom_host.clone();
    items.push(
        MenuItem::Item(
            MenuItemFields {
                label: custom_label,
                on_select_action: Some(
                    DropdownAction::SelectActionAndClose(InternalAction::EnterCustomMode),
                ),
            },
        ),
    );
    items
}


proof fn lemma_dedup(s: Seq<Seq<char>>)
    ensures
        dedup_spec(s).no_duplicates(),
        forall|x: Seq<char>| dedup_spec(s).contains(x) <==> s.contains(x),
        s.len() > 0 ==> dedup_spec(s).len() > 0 && dedup_spec(s)[0] == s[0],
    decreases s.len(),
{
    if s.len() > 0 {
        let front = dedup_spec(s.drop_last());
        lemma_dedup(s.drop_last());
        assert forall|x: Seq<char>| dedup_spec(s).contains(x) <==> s.contains(x) by {
            if s.contains(x) && x != s.last() {
                let k = choose|k: int| 0 <= k < s.len() && s[k] == x;
                assert(s.drop_last()[k] == x);
            }
            if s.drop_last().contains(x) {
                let k = choose|k: int| 0 <= k < s.drop_last().len() && s.drop_last()[k] == x;
                assert(s[k] == x);
            }
            if x == s.last() {
                assert(s[s.len() - 1] == x);
            }
            if !front.contains(s.last()) {
                if dedup_spec(s).contains(x) && x != s.last() {
                    let k = choose|k: int| 0 <= k < dedup_spec(s).len() && dedup_spec(s)[k] == x;
                    assert(front[k] == x);
                }
                if front.contains(x) {
                    let k = choose|k: int| 0 <= k < front.len() && front[k] == x;
                    assert(dedup_spec(s)[k] == x);
                }
                assert(dedup_spec(s)[front.len() as int] == s.last());
            }
        }
        if s.len() > 1 {
            assert(s.drop_last()[0] == s[0]);
        } else {
            assert(front.len() == 0);
        }
    }
}

/// The picker never lists a host twice.
pub proof fn lemma_known_hosts_are_distinct(
    default_host: Option<Seq<char>>,
    recent_host: Option<Seq<char>>,
    connected_hosts: Seq<Seq<char>>,
)
    ensures
        known_hosts_spec(default_host, recent_host, connected_hosts).no_duplicates(),
{
    lemma_dedup(opt_seq(default_host) + seq![warp_host()] + connected_hosts + opt_seq(recent_host));
}

/// The picker lists exactly the workspace default, Warp's pool, the
/// connected hosts and the recent host: nothing is lost and nothing is added.
pub proof fn lemma_known_hosts_cover_inputs(
    default_host: Option<Seq<char>>,
    recent_host: Option<Seq<char>>,
    connected_hosts: Seq<Seq<char>>,
    slug: Seq<char>,
)
    ensures
        known_hosts_spec(default_host, recent_host, connected_hosts).contains(slug) <==> (
        default_host == Some(slug) || slug == warp_host() || connected_hosts.contains(slug)
            || recent_host == Some(slug)),
{
    let all = opt_seq(default_host) + seq![warp_host()] + connected_hosts + opt_seq(recent_host);
    lemma_dedup(all);
    let n0: int = opt_seq(default_host).len() as int;
    let n1: int = n0 + 1 + connected_hosts.len();
    if all.contains(slug) {
        let k = choose|k: int| 0 <= k < all.len() && all[k] == slug;
        if k >= n0 + 1 && k < n1 {
            assert(connected_hosts[k - n0 - 1] == slug);
        }
    }
    if default_host == Some(slug) {
        assert(all[0] == slug);
    }
    if slug == warp_host() {
        assert(all[n0 as int] == slug);
    }
    if connected_hosts.contains(slug) {
        let k = choose|k: int| 0 <= k < connected_hosts.len() && connected_hosts[k] == slug;
        assert(all[n0 + 1 + k] == slug);
    }
    if recent_host == Some(slug) {
        assert(all[n1 as int] == slug);
    }
}

/// When the workspace has a default host, it is the first row.
pub proof fn lemma_default_host_is_first(
    default_host: Seq<char>,
    recent_host: Option<Seq<char>>,
    connected_hosts: Seq<Seq<char>>,
)
    ensures
        known_hosts_spec(Some(default_host), recent_host, connected_hosts).len() > 0,
        known_hosts_spec(Some(default_host), recent_host, connected_hosts)[0] == default_host,
{
    let all = opt_seq(Some(default_host)) + seq![warp_host()] + connected_hosts + opt_seq(
        recent_host,
    );
    lemma_dedup(all);
    assert(all[0] == default_host);
}

} // verus!
