//! Tips shown on the cloud-mode loading screen.

use vstd::prelude::*;

use crate::localization::{text_spec, CatalogBundle, LocaleId};
use crate::text::{extend_str, string_from_chars};

verus! {

/// A key combination that runs an action, written as its keys joined by
/// `-` (such as `cmd-enter`).
#[derive(Clone, Debug)]
pub struct Keystroke {
    pub keys: String,
}

/// A cloud-mode tip: its text and an optional link to read more.
#[derive(Clone, Debug)]
pub struct CloudModeTip {
    pub text: String,
    pub link: Option<String>,
}

impl CloudModeTip {
    pub fn new(text: String, link: Option<String>) -> (tip: Self)
        ensures
            tip.text == text,
            tip.link == link,
    {
        CloudModeTip { text, link }
    }

    /// The text of the tip.
    pub fn description(&self) -> (r: &str)
        ensures
            r@ == self.text@,
    {
        self.text.as_str()
    }

    /// The keystroke the tip teaches: a cloud-mode tip teaches none.
    pub fn keystroke(&self) -> (r: Option<Keystroke>)
        ensures
            r is None,
    {
        None
    }

    /// The link of the tip, if any.
    pub fn link(&self) -> (r: Option<String>)
        ensures
            r == self.link,
    {
        match &self.link {
            Some(l) => Some(l.clone()),
            None => None,
        }
    }
}

/// How many cloud-mode tips there are.
pub const CLOUD_MODE_TIP_COUNT: usize = 40;

/// The link of the tip at `index` (counting from zero).
pub open spec fn tip_link_spec(index: int) -> Seq<char> {
        if index == 0 {
            "https://docs.warp.dev/agent-platform/cloud-agents/integrations/slack"@
        }
        else if index == 1 {
            "https://docs.warp.dev/reference/api-and-sdk"@
        }
        else if index == 2 {
            "https://docs.warp.dev/agent-platform/cloud-agents/secrets"@
        }
        else if index == 3 {
            "https://oz.warp.dev"@
        }
        else if index == 4 {
            "https://docs.warp.dev/agent-platform/cloud-agents/viewing-cloud-agent-runs"@
        }
        else if index == 5 {
            "https://docs.warp.dev/agent-platform/cloud-agents/triggers/scheduled-agents"@
        }
        else if index == 6 {
            "https://docs.warp.dev/agent-platform/cloud-agents/integrations/linear"@
        }
        else if index == 7 {
            "https://docs.warp.dev/agent-platform/cloud-agents/integrations/github-actions"@
        }
        else if index == 8 {
            "https://github.com/warpdotdev/oz-agent-action"@
        }
        else if index == 9 {
            "https://docs.warp.dev/reference/api-and-sdk"@
        }
        else if index == 10 {
            "https://docs.warp.dev/agent-platform/cloud-agents/environments"@
        }
        else if index == 11 {
            "https://docs.warp.dev/agent-platform/cloud-agents/viewing-cloud-agent-runs"@
        }
        else if index == 12 {
            "https://docs.warp.dev/agent-platform/cloud-agents/platform"@
        }
        else if index == 13 {
            "https://docs.warp.dev/agent-platform/cloud-agents/viewing-cloud-agent-runs"@
        }
        else if index == 14 {
            "https://docs.warp.dev/agent-platform/cloud-agents/integrations"@
        }
        else if index == 15 {
            "https://docs.warp.dev/agent-platform/cloud-agents/triggers/scheduled-agents"@
        }
        else if index == 16 {
            "https://docs.warp.dev/agent-platform/cloud-agents/integrations/linear"@
        }
        else if index == 17 {
            "https://docs.warp.dev/agent-platform/cloud-agents/platform"@
        }
        else if index == 18 {
            "https://docs.warp.dev/agent-platform/capabilities/mcp"@
        }
        else if index == 19 {
            "https://docs.warp.dev/agent-platform/cloud-agents/platform"@
        }
        else if index == 20 {
            "https://oz.warp.dev"@
        }
        else if index == 21 {
            "https://docs.warp.dev/agent-platform/cloud-agents/integrations/github-actions"@
        }
        else if index == 22 {
            "https://docs.warp.dev/agent-platform/cloud-agents/integrations/github-actions"@
        }
        else if index == 23 {
            "https://docs.warp.dev/agent-platform/cloud-agents/integrations/github-actions"@
        }
        else if index == 24 {
            "https://docs.warp.dev/agent-platform/cloud-agents/environments"@
        }
        else if index == 25 {
            "https://docs.warp.dev/reference/api-and-sdk"@
        }
        else if index == 26 {
            "https://docs.warp.dev/agent-platform/cloud-agents/triggers"@
        }
        else if index == 27 {
            "https://docs.warp.dev/agent-platform/cloud-agents/secrets"@
        }
        else if index == 28 {
            "https://docs.warp.dev/agent-platform/cloud-agents/secrets"@
        }
        else if index == 29 {
            "https://docs.warp.dev/agent-platform/cloud-agents/triggers/scheduled-agents"@
        }
        else if index == 30 {
            "https://docs.warp.dev/agent-platform/cloud-agents/triggers/scheduled-agents"@
        }
        else if index == 31 {
            "https://docs.warp.dev/agent-platform/cloud-agents/triggers/scheduled-agents"@
        }
        else if index == 32 {
            "https://docs.warp.dev/agent-platform/cloud-agents/triggers/scheduled-agents"@
        }
        else if index == 33 {
            "https://docs.warp.dev/agent-platform/capabilities/mcp"@
        }
        else if index == 34 {
            "https://docs.warp.dev/agent-platform/cloud-agents/integrations/slack"@
        }
        else if index == 35 {
            "https://docs.warp.dev/agent-platform/cloud-agents/integrations/slack"@
        }
        else if index == 36 {
            "https://docs.warp.dev/reference/api-and-sdk"@
        }
        else if index == 37 {
            "https://docs.warp.dev/reference/api-and-sdk"@
        }
        else if index == 38 {
            "https://docs.warp.dev/reference/api-and-sdk"@
        }
        else if index == 39 {
            "https://docs.warp.dev/reference/api-and-sdk"@
        }
        else {
            "https://docs.warp.dev/reference/api-and-sdk"@
        }
}

fn tip_link(index: usize) -> (r: &'static str)
    requires
        index < CLOUD_MODE_TIP_COUNT,
    ensures
        r@ == tip_link_spec(index as int),
{
    match index {
        0 => "https://docs.warp.dev/agent-platform/cloud-agents/integrations/slack",
        1 => "https://docs.warp.dev/reference/api-and-sdk",
        2 => "https://docs.warp.dev/agent-platform/cloud-agents/secrets",
        3 => "https://oz.warp.dev",
        4 => "https://docs.warp.dev/agent-platform/cloud-agents/viewing-cloud-agent-runs",
        5 => "https://docs.warp.dev/agent-platform/cloud-agents/triggers/scheduled-agents",
        6 => "https://docs.warp.dev/agent-platform/cloud-agents/integrations/linear",
        7 => "https://docs.warp.dev/agent-platform/cloud-agents/integrations/github-actions",
        8 => "https://github.com/warpdotdev/oz-agent-action",
        9 => "https://docs.warp.dev/reference/api-and-sdk",
        10 => "https://docs.warp.dev/agent-platform/cloud-agents/environments",
        11 => "https://docs.warp.dev/agent-platform/cloud-agents/viewing-cloud-agent-runs",
        12 => "https://docs.warp.dev/agent-platform/cloud-agents/platform",
        13 => "https://docs.warp.dev/agent-platform/cloud-agents/viewing-cloud-agent-runs",
        14 => "https://docs.warp.dev/agent-platform/cloud-agents/integrations",
        15 => "https://docs.warp.dev/agent-platform/cloud-agents/triggers/scheduled-agents",
        16 => "https://docs.warp.dev/agent-platform/cloud-agents/integrations/linear",
        17 => "https://docs.warp.dev/agent-platform/cloud-agents/platform",
        18 => "https://docs.warp.dev/agent-platform/capabilities/mcp",
        19 => "https://docs.warp.dev/agent-platform/cloud-agents/platform",
        20 => "https://oz.warp.dev",
        21 => "https://docs.warp.dev/agent-platform/cloud-agents/integrations/github-actions",
        22 => "https://docs.warp.dev/agent-platform/cloud-agents/integrations/github-actions",
        23 => "https://docs.warp.dev/agent-platform/cloud-agents/integrations/github-actions",
        24 => "https://docs.warp.dev/agent-platform/cloud-agents/environments",
        25 => "https://docs.warp.dev/reference/api-and-sdk",
        26 => "https://docs.warp.dev/agent-platform/cloud-agents/triggers",
        27 => "https://docs.warp.dev/agent-platform/cloud-agents/secrets",
        28 => "https://docs.warp.dev/agent-platform/cloud-agents/secrets",
        29 => "https://docs.warp.dev/agent-platform/cloud-agents/triggers/scheduled-agents",
        30 => "https://docs.warp.dev/agent-platform/cloud-agents/triggers/scheduled-agents",
        31 => "https://docs.warp.dev/agent-platform/cloud-agents/triggers/scheduled-agents",
        32 => "https://docs.warp.dev/agent-platform/cloud-agents/triggers/scheduled-agents",
        33 => "https://docs.warp.dev/agent-platform/capabilities/mcp",
        34 => "https://docs.warp.dev/agent-platform/cloud-agents/integrations/slack",
        35 => "https://docs.warp.dev/agent-platform/cloud-agents/integrations/slack",
        36 => "https://docs.warp.dev/reference/api-and-sdk",
        37 => "https://docs.warp.dev/reference/api-and-sdk",
        38 => "https://docs.warp.dev/reference/api-and-sdk",
        _ => "https://docs.warp.dev/reference/api-and-sdk",
    }
}

/// The two decimal digits of `n` (below 100), zero-padded.
pub open spec fn two_digits(n: nat) -> Seq<char> {
    seq![crate::text::digit_char(n / 10), crate::text::digit_char(n % 10)]
}

/// The catalog key of the `n`-th tip, counting from one: `terminal.ambient_agent.tip.NN`.
pub open spec fn tip_key_spec(n: nat) -> Seq<char> {
    "terminal.ambient_agent.tip."@ + two_digits(n)
}

fn tip_key(n: usize) -> (key: String)
    requires
        1 <= n <= CLOUD_MODE_TIP_COUNT,
    ensures
        key@ == tip_key_spec(n as nat),
{
    let mut k: Vec<char> = Vec::new();
    extend_str(&mut k, "terminal.ambient_agent.tip.");
    let tens = crate::text::digit((n / 10) as u64);
    let ones = crate::text::digit((n % 10) as u64);
    k.push(tens);
    k.push(ones);
    assert(k@ =~= tip_key_spec(n as nat));
    string_from_chars(k.as_slice())
}

/// The tips for the cloud-mode loading screen in `locale`: the `n`-th tip
/// (from one) reads the catalog text of `terminal.ambient_agent.tip.NN`
/// and links to the `n`-th of the fixed documentation links.
pub fn get_cloud_mode_tips(catalogs: &CatalogBundle, locale: LocaleId) -> (tips: Vec<CloudModeTip>)
    ensures
        tips@.len() == CLOUD_MODE_TIP_COUNT,
        forall|i: int|
            0 <= i < CLOUD_MODE_TIP_COUNT ==> {
                &&& #[trigger] tips@[i].text@ == text_spec(*catalogs, locale, tip_key_spec((i + 1) as nat))
                &&& tips@[i].link matches Some(l) && l@ == tip_link_spec(i)
            },
{
    let mut tips: Vec<CloudModeTip> = Vec::new();
    let mut i: usize = 0;
    while i < CLOUD_MODE_TIP_COUNT
        invariant
            i <= CLOUD_MODE_TIP_COUNT,
            tips@.len() == i,
            forall|j: int|
                0 <= j < i ==> {
                    &&& #[trigger] tips@[j].text@ == text_spec(*catalogs, locale, tip_key_spec((j + 1) as nat))
                    &&& tips@[j].link matches Some(l) && l@ == tip_link_spec(j)
                },
        decreases CLOUD_MODE_TIP_COUNT - i,
    {
        let key = tip_key(i + 1);
        let text = catalogs.text(locale, key.as_str());
        let link = tip_link(i).to_owned();
        tips.push(CloudModeTip::new(text, Some(link)));
        i = i + 1;
    }
    tips
}

} // verus!
