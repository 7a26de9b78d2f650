//! Prompts suggested for well-known terminal commands.
//!
//! Each rule pairs a regular expression over the whole command with catalog
//! keys for a label (in the user's language) and a query (always in US
//! English, so the agent sees the same prompt whatever the user's language).
//! `{n}` in either text stands for the `n`-th capture group of the match.

use vstd::prelude::*;

use crate::localization::{text_spec, CatalogBundle, LocaleId};
use crate::runner::opt_view;
use crate::template::{find_char_from, find_char_spec, lemma_find_char_bounds, slice_to_vec};
use crate::text::{chars_of, extend_chars, extend_str, string_from_chars};

verus! {

/// A rule: its name, the pattern a command must match, and the catalog keys
/// of its label (if it has one) and of its query.
#[derive(Clone, Copy, Debug)]
pub struct StaticPromptSuggestion {
    pub name: &'static str,
    pub pattern: &'static str,
    pub label_key: Option<&'static str>,
    pub query_key: &'static str,
}

/// The mathematical form of a rule.
pub struct RuleView {
    pub name: Seq<char>,
    pub pattern: Seq<char>,
    pub label_key: Option<Seq<char>>,
    pub query_key: Seq<char>,
}

impl View for StaticPromptSuggestion {
    type V = RuleView;

    open spec fn view(&self) -> RuleView {
        RuleView {
            name: self.name@,
            pattern: self.pattern@,
            label_key: match self.label_key {
                Some(k) => Some(k@),
                None => None,
            },
            query_key: self.query_key@,
        }
    }
}

pub open spec fn rule_views(v: Seq<StaticPromptSuggestion>) -> Seq<RuleView> {
    v.map_values(|r: StaticPromptSuggestion| r@)
}

/// The rules, tried in this order.
pub open spec fn static_rules_spec() -> Seq<RuleView> {
    seq![
        RuleView {
            name: "GIT_CHECKOUT_NEW_BRANCH"@,
            pattern: "^git\\s+checkout\\s+-b\\s+(\\S+)\\s*$"@,
            label_key: Some("terminal.passive_suggestion.static.git_checkout_new_branch.label"@),
            query_key: "terminal.passive_suggestion.static.git_checkout_new_branch.query"@,
        },
        RuleView {
            name: "GIT_CLONE"@,
            pattern: "^git\\s+clone\\s+(\\S+)\\s*$"@,
            label_key: Some("terminal.passive_suggestion.static.git_clone.label"@),
            query_key: "terminal.passive_suggestion.static.git_clone.query"@,
        },
        RuleView {
            name: "GIT_SWITCH_NEW_BRANCH"@,
            pattern: "^git\\s+switch\\s+-c\\s+(\\S+)\\s*$"@,
            label_key: Some("terminal.passive_suggestion.static.git_switch_new_branch.label"@),
            query_key: "terminal.passive_suggestion.static.git_switch_new_branch.query"@,
        },
        RuleView {
            name: "GIT_PUSH"@,
            pattern: "^git\\s+push\\s*$"@,
            label_key: None,
            query_key: "terminal.passive_suggestion.static.git_push.query"@,
        },
        RuleView {
            name: "GIT_INIT"@,
            pattern: "^git\\s+init\\s*$"@,
            label_key: Some("terminal.passive_suggestion.static.git_init.label"@),
            query_key: "terminal.passive_suggestion.static.git_init.query"@,
        },
        RuleView {
            name: "NODE_PACKAGE_INIT"@,
            pattern: "^(npm|yarn|pnpm)\\s+init\\s*$"@,
            label_key: Some("terminal.passive_suggestion.static.node_package_init.label"@),
            query_key: "terminal.passive_suggestion.static.node_package_init.query"@,
        },
        RuleView {
            name: "NPX_CREATE_REACT_APP"@,
            pattern: "^npx\\s+create-react-app\\s+(\\S+)\\s*$"@,
            label_key: Some("terminal.passive_suggestion.static.npx_create_react_app.label"@),
            query_key: "terminal.passive_suggestion.static.npx_create_react_app.query"@,
        },
        RuleView {
            name: "NPX_CREATE_NEXT_APP"@,
            pattern: "^npx\\s+create-next-app\\s+(\\S+)\\s*$"@,
            label_key: Some("terminal.passive_suggestion.static.npx_create_next_app.label"@),
            query_key: "terminal.passive_suggestion.static.npx_create_next_app.query"@,
        },
        RuleView {
            name: "CARGO_NEW_PROJECT"@,
            pattern: "^cargo\\s+new\\s+(\\S+)\\s*$"@,
            label_key: Some("terminal.passive_suggestion.static.cargo_new_project.label"@),
            query_key: "terminal.passive_suggestion.static.cargo_new_project.query"@,
        },
        RuleView {
            name: "POETRY_NEW_PROJECT"@,
            pattern: "^poetry\\s+new\\s+(\\S+)\\s*$"@,
            label_key: Some("terminal.passive_suggestion.static.poetry_new_project.label"@),
            query_key: "terminal.passive_suggestion.static.poetry_new_project.query"@,
        },
        RuleView {
            name: "DJANGO_START_PROJECT"@,
            pattern: "^django-admin\\s+startproject\\s+(\\S+)\\s*$"@,
            label_key: Some("terminal.passive_suggestion.static.django_start_project.label"@),
            query_key: "terminal.passive_suggestion.static.django_start_project.query"@,
        },
        RuleView {
            name: "RAILS_NEW_APP"@,
            pattern: "^rails\\s+new\\s+(\\S+)\\s*$"@,
            label_key: Some("terminal.passive_suggestion.static.rails_new_app.label"@),
            query_key: "terminal.passive_suggestion.static.rails_new_app.query"@,
        },
        RuleView {
            name: "JAVA_PROJECT_INIT"@,
            pattern: "^(gradle\\s+init|mvn\\s+archetype:generate)\\s*$"@,
            label_key: Some("terminal.passive_suggestion.static.java_project_init.label"@),
            query_key: "terminal.passive_suggestion.static.java_project_init.query"@,
        },
        RuleView {
            name: "GO_MOD_INIT"@,
            pattern: "^go\\s+mod\\s+init\\s+(\\S+)\\s*$"@,
            label_key: Some("terminal.passive_suggestion.static.go_mod_init.label"@),
            query_key: "terminal.passive_suggestion.static.go_mod_init.query"@,
        },
        RuleView {
            name: "SWIFT_PACKAGE_INIT"@,
            pattern: "^swift\\s+package\\s+init\\s*$"@,
            label_key: Some("terminal.passive_suggestion.static.swift_package_init.label"@),
            query_key: "terminal.passive_suggestion.static.swift_package_init.query"@,
        },
        RuleView {
            name: "TERRAFORM_INIT"@,
            pattern: "^terraform\\s+init\\s*$"@,
            label_key: Some("terminal.passive_suggestion.static.terraform_init.label"@),
            query_key: "terminal.passive_suggestion.static.terraform_init.query"@,
        },
        RuleView {
            name: "PRISMA_INIT"@,
            pattern: "^prisma\\s+init\\s*$"@,
            label_key: Some("terminal.passive_suggestion.static.prisma_init.label"@),
            query_key: "terminal.passive_suggestion.static.prisma_init.query"@,
        },
        RuleView {
            name: "PYTHON_CREATE_VENV"@,
            pattern: "^python\\s+-m\\s+venv\\s+(\\S+)\\s*$"@,
            label_key: None,
            query_key: "terminal.passive_suggestion.static.python_create_venv.query"@,
        },
        RuleView {
            name: "BUNDLE_INIT"@,
            pattern: "^bundle\\s+init\\s*$"@,
            label_key: Some("terminal.passive_suggestion.static.bundle_init.label"@),
            query_key: "terminal.passive_suggestion.static.bundle_init.query"@,
        },
        RuleView {
            name: "OLLAMA_PULL_MODEL"@,
            pattern: "^ollama\\s+pull\\s+(\\S+)\\s*$"@,
            label_key: None,
            query_key: "terminal.passive_suggestion.static.ollama_pull_model.query"@,
        },
        RuleView {
            name: "KUBECTL_TOP_NODES"@,
            pattern: "^kubectl\\s+top\\s+(nodes|node|no)\\s*$"@,
            label_key: None,
            query_key: "terminal.passive_suggestion.static.kubectl_top_nodes.query"@,
        },
        RuleView {
            name: "KUBECTL_TOP_PODS"@,
            pattern: "^kubectl\\s+top\\s+(pods|po|pod)\\s*$"@,
            label_key: None,
            query_key: "terminal.passive_suggestion.static.kubectl_top_pods.query"@,
        },
        RuleView {
            name: "KUBECTL_GET_RESOURCES"@,
            pattern: "^kubectl\\s+get.*$"@,
            label_key: None,
            query_key: "terminal.passive_suggestion.static.kubectl_get_resources.query"@,
        },
        RuleView {
            name: "DOCKER_LIST_CONTAINERS"@,
            pattern: "^docker\\s+ps\\s*$"@,
            label_key: None,
            query_key: "terminal.passive_suggestion.static.docker_list_containers.query"@,
        },
        RuleView {
            name: "DOCKER_LIST_IMAGES"@,
            pattern: "^docker\\s+image\\s+ls\\s*$"@,
            label_key: None,
            query_key: "terminal.passive_suggestion.static.docker_list_images.query"@,
        },
        RuleView {
            name: "DOCKER_COMPOSE_UP_SERVICE"@,
            pattern: "^docker-compose\\s+up\\s+-d\\s+(\\S+)\\s*$"@,
            label_key: Some("terminal.passive_suggestion.static.docker_compose_up_service.label"@),
            query_key: "terminal.passive_suggestion.static.docker_compose_up_service.query"@,
        },
        RuleView {
            name: "DOCKER_NETWORK_CREATE"@,
            pattern: "^docker\\s+network\\s+create\\s+(\\S+)\\s*$"@,
            label_key: None,
            query_key: "terminal.passive_suggestion.static.docker_network_create.query"@,
        },
        RuleView {
            name: "VAGRANT_INIT_BOX"@,
            pattern: "^vagrant\\s+init\\s+(\\S+)\\s*$"@,
            label_key: None,
            query_key: "terminal.passive_suggestion.static.vagrant_init_box.query"@,
        },
        RuleView {
            name: "VAGRANT_UP"@,
            pattern: "^vagrant\\s+up\\s*$"@,
            label_key: None,
            query_key: "terminal.passive_suggestion.static.vagrant_up.query"@,
        },
        RuleView {
            name: "GREP_RECURSIVE_SEARCH"@,
            pattern: "^grep\\s+-r\\s+(.*)$"@,
            label_key: None,
            query_key: "terminal.passive_suggestion.static.grep_recursive_search.query"@,
        },
        RuleView {
            name: "FIND_FILES"@,
            pattern: "^find\\s+(.*)$"@,
            label_key: None,
            query_key: "terminal.passive_suggestion.static.find_files.query"@,
        },
        RuleView {
            name: "SSH_KEYGEN"@,
            pattern: "^ssh-keygen(?:\\s+(.*))?$"@,
            label_key: None,
            query_key: "terminal.passive_suggestion.static.ssh_keygen.query"@,
        },
    ]
}

/// The rules, tried in this order (see [`static_rules_spec`]).
pub fn static_rules() -> (rules: Vec<StaticPromptSuggestion>)
    ensures
        rule_views(rules@) == static_rules_spec(),
{
    let rules = vec![
        StaticPromptSuggestion {
            name: "GIT_CHECKOUT_NEW_BRANCH",
            pattern: "^git\\s+checkout\\s+-b\\s+(\\S+)\\s*$",
            label_key: Some("terminal.passive_suggestion.static.git_checkout_new_branch.label"),
            query_key: "terminal.passive_suggestion.static.git_checkout_new_branch.query",
        },
        StaticPromptSuggestion {
            name: "GIT_CLONE",
            pattern: "^git\\s+clone\\s+(\\S+)\\s*$",
            label_key: Some("terminal.passive_suggestion.static.git_clone.label"),
            query_key: "terminal.passive_suggestion.static.git_clone.query",
        },
        StaticPromptSuggestion {
            name: "GIT_SWITCH_NEW_BRANCH",
            pattern: "^git\\s+switch\\s+-c\\s+(\\S+)\\s*$",
            label_key: Some("terminal.passive_suggestion.static.git_switch_new_branch.label"),
            query_key: "terminal.passive_suggestion.static.git_switch_new_branch.query",
        },
        StaticPromptSuggestion {
            name: "GIT_PUSH",
            pattern: "^git\\s+push\\s*$",
            label_key: None,
            query_key: "terminal.passive_suggestion.static.git_push.query",
        },
        StaticPromptSuggestion {
            name: "GIT_INIT",
            pattern: "^git\\s+init\\s*$",
            label_key: Some("terminal.passive_suggestion.static.git_init.label"),
            query_key: "terminal.passive_suggestion.static.git_init.query",
        },
        StaticPromptSuggestion {
            name: "NODE_PACKAGE_INIT",
            pattern: "^(npm|yarn|pnpm)\\s+init\\s*$",
            label_key: Some("terminal.passive_suggestion.static.node_package_init.label"),
            query_key: "terminal.passive_suggestion.static.node_package_init.query",
        },
        StaticPromptSuggestion {
            name: "NPX_CREATE_REACT_APP",
            pattern: "^npx\\s+create-react-app\\s+(\\S+)\\s*$",
            label_key: Some("terminal.passive_suggestion.static.npx_create_react_app.label"),
            query_key: "terminal.passive_suggestion.static.npx_create_react_app.query",
        },
        StaticPromptSuggestion {
            name: "NPX_CREATE_NEXT_APP",
            pattern: "^npx\\s+create-next-app\\s+(\\S+)\\s*$",
            label_key: Some("terminal.passive_suggestion.static.npx_create_next_app.label"),
            query_key: "terminal.passive_suggestion.static.npx_create_next_app.query",
        },
        StaticPromptSuggestion {
            name: "CARGO_NEW_PROJECT",
            pattern: "^cargo\\s+new\\s+(\\S+)\\s*$",
            label_key: Some("terminal.passive_suggestion.static.cargo_new_project.label"),
            query_key: "terminal.passive_suggestion.static.cargo_new_project.query",
        },
        StaticPromptSuggestion {
            name: "POETRY_NEW_PROJECT",
            pattern: "^poetry\\s+new\\s+(\\S+)\\s*$",
            label_key: Some("terminal.passive_suggestion.static.poetry_new_project.label"),
            query_key: "terminal.passive_suggestion.static.poetry_new_project.query",
        },
        StaticPromptSuggestion {
            name: "DJANGO_START_PROJECT",
            pattern: "^django-admin\\s+startproject\\s+(\\S+)\\s*$",
            label_key: Some("terminal.passive_suggestion.static.django_start_project.label"),
            query_key: "terminal.passive_suggestion.static.django_start_project.query",
        },
        StaticPromptSuggestion {
            name: "RAILS_NEW_APP",
            pattern: "^rails\\s+new\\s+(\\S+)\\s*$",
            label_key: Some("terminal.passive_suggestion.static.rails_new_app.label"),
            query_key: "terminal.passive_suggestion.static.rails_new_app.query",
        },
        StaticPromptSuggestion {
            name: "JAVA_PROJECT_INIT",
            pattern: "^(gradle\\s+init|mvn\\s+archetype:generate)\\s*$",
            label_key: Some("terminal.passive_suggestion.static.java_project_init.label"),
            query_key: "terminal.passive_suggestion.static.java_project_init.query",
        },
        StaticPromptSuggestion {
            name: "GO_MOD_INIT",
            pattern: "^go\\s+mod\\s+init\\s+(\\S+)\\s*$",
            label_key: Some("terminal.passive_suggestion.static.go_mod_init.label"),
            query_key: "terminal.passive_suggestion.static.go_mod_init.query",
        },
        StaticPromptSuggestion {
            name: "SWIFT_PACKAGE_INIT",
            pattern: "^swift\\s+package\\s+init\\s*$",
            label_key: Some("terminal.passive_suggestion.static.swift_package_init.label"),
            query_key: "terminal.passive_suggestion.static.swift_package_init.query",
        },
        StaticPromptSuggestion {
            name: "TERRAFORM_INIT",
            pattern: "^terraform\\s+init\\s*$",
            label_key: Some("terminal.passive_suggestion.static.terraform_init.label"),
            query_key: "terminal.passive_suggestion.static.terraform_init.query",
        },
        StaticPromptSuggestion {
            name: "PRISMA_INIT",
            pattern: "^prisma\\s+init\\s*$",
            label_key: Some("terminal.passive_suggestion.static.prisma_init.label"),
            query_key: "terminal.passive_suggestion.static.prisma_init.query",
        },
        StaticPromptSuggestion {
            name: "PYTHON_CREATE_VENV",
            pattern: "^python\\s+-m\\s+venv\\s+(\\S+)\\s*$",
            label_key: None,
            query_key: "terminal.passive_suggestion.static.python_create_venv.query",
        },
        StaticPromptSuggestion {
            name: "BUNDLE_INIT",
            pattern: "^bundle\\s+init\\s*$",
            label_key: Some("terminal.passive_suggestion.static.bundle_init.label"),
            query_key: "terminal.passive_suggestion.static.bundle_init.query",
        },
        StaticPromptSuggestion {
            name: "OLLAMA_PULL_MODEL",
            pattern: "^ollama\\s+pull\\s+(\\S+)\\s*$",
            label_key: None,
            query_key: "terminal.passive_suggestion.static.ollama_pull_model.query",
        },
        StaticPromptSuggestion {
            name: "KUBECTL_TOP_NODES",
            pattern: "^kubectl\\s+top\\s+(nodes|node|no)\\s*$",
            label_key: None,
            query_key: "terminal.passive_suggestion.static.kubectl_top_nodes.query",
        },
        StaticPromptSuggestion {
            name: "KUBECTL_TOP_PODS",
            pattern: "^kubectl\\s+top\\s+(pods|po|pod)\\s*$",
            label_key: None,
            query_key: "terminal.passive_suggestion.static.kubectl_top_pods.query",
        },
        StaticPromptSuggestion {
            name: "KUBECTL_GET_RESOURCES",
            pattern: "^kubectl\\s+get.*$",
            label_key: None,
            query_key: "terminal.passive_suggestion.static.kubectl_get_resources.query",
        },
        StaticPromptSuggestion {
            name: "DOCKER_LIST_CONTAINERS",
            pattern: "^docker\\s+ps\\s*$",
            label_key: None,
            query_key: "terminal.passive_suggestion.static.docker_list_containers.query",
        },
        StaticPromptSuggestion {
            name: "DOCKER_LIST_IMAGES",
            pattern: "^docker\\s+image\\s+ls\\s*$",
            label_key: None,
            query_key: "terminal.passive_suggestion.static.docker_list_images.query",
        },
        StaticPromptSuggestion {
            name: "DOCKER_COMPOSE_UP_SERVICE",
            pattern: "^docker-compose\\s+up\\s+-d\\s+(\\S+)\\s*$",
            label_key: Some("terminal.passive_suggestion.static.docker_compose_up_service.label"),
            query_key: "terminal.passive_suggestion.static.docker_compose_up_service.query",
        },
        StaticPromptSuggestion {
            name: "DOCKER_NETWORK_CREATE",
            pattern: "^docker\\s+network\\s+create\\s+(\\S+)\\s*$",
            label_key: None,
            query_key: "terminal.passive_suggestion.static.docker_network_create.query",
        },
        StaticPromptSuggestion {
            name: "VAGRANT_INIT_BOX",
            pattern: "^vagrant\\s+init\\s+(\\S+)\\s*$",
            label_key: None,
            query_key: "terminal.passive_suggestion.static.vagrant_init_box.query",
        },
        StaticPromptSuggestion {
            name: "VAGRANT_UP",
            pattern: "^vagrant\\s+up\\s*$",
            label_key: None,
            query_key: "terminal.passive_suggestion.static.vagrant_up.query",
        },
        StaticPromptSuggestion {
            name: "GREP_RECURSIVE_SEARCH",
            pattern: "^grep\\s+-r\\s+(.*)$",
            label_key: None,
            query_key: "terminal.passive_suggestion.static.grep_recursive_search.query",
        },
        StaticPromptSuggestion {
            name: "FIND_FILES",
            pattern: "^find\\s+(.*)$",
            label_key: None,
            query_key: "terminal.passive_suggestion.static.find_files.query",
        },
        StaticPromptSuggestion {
            name: "SSH_KEYGEN",
            pattern: "^ssh-keygen(?:\\s+(.*))?$",
            label_key: None,
            query_key: "terminal.passive_suggestion.static.ssh_keygen.query",
        },
    ];
    assert(rule_views(rules@) =~= static_rules_spec());
    rules
}


// ---------------------------------------------------------------------------
// Capture indices
// ---------------------------------------------------------------------------

pub open spec fn is_digit(c: char) -> bool {
    '0' <= c && c <= '9'
}

pub open spec fn all_digits(s: Seq<char>) -> bool {
    forall|i: int| 0 <= i < s.len() ==> is_digit(#[trigger] s[i])
}

/// The number that the decimal digits `s` write.
pub open spec fn digits_value(s: Seq<char>) -> int
    decreases s.len(),
{
    if s.len() == 0 {
        0
    } else {
        digits_value(s.drop_last()) * 10 + (s.last() as u32 - '0' as u32)
    }
}

/// `s` read as a `usize` as `str::parse` reads it: an optional `+`, then one
/// or more decimal digits, whose value fits in a `usize`.
pub open spec fn parse_usize_spec(s: Seq<char>) -> Option<int> {
    let d = if s.len() > 0 && s[0] == '+' {
        s.drop_first()
    } else {
        s
    };
    if d.len() > 0 && all_digits(d) && digits_value(d) <= usize::MAX {
        Some(digits_value(d))
    } else {
        None
    }
}

proof fn lemma_digits_value_grows(s: Seq<char>, k: int)
    requires
        all_digits(s),
        0 <= k <= s.len(),
    ensures
        0 <= digits_value(s.take(k)) <= digits_value(s),
    decreases s.len() - k,
{
    assert(all_digits(s.take(k))) by {
        assert forall|i: int| 0 <= i < s.take(k).len() implies is_digit(#[trigger] s.take(k)[i]) by {
            assert(s.take(k)[i] == s[i]);
        }
    }
    lemma_digits_value_nonneg(s.take(k));
    if k < s.len() {
        assert(s.take(k + 1).drop_last() =~= s.take(k));
        assert(is_digit(s[k]));
        lemma_digits_value_grows(s, k + 1);
    } else {
        assert(s.take(k) =~= s);
    }
}

proof fn lemma_digits_value_nonneg(s: Seq<char>)
    requires
        all_digits(s),
    ensures
        digits_value(s) >= 0,
    decreases s.len(),
{
    if s.len() > 0 {
        assert(all_digits(s.drop_last())) by {
            assert forall|i: int| 0 <= i < s.drop_last().len() implies is_digit(
                #[trigger] s.drop_last()[i],
            ) by {
                assert(s.drop_last()[i] == s[i]);
            }
        }
        assert(is_digit(s[s.len() - 1]));
        lemma_digits_value_nonneg(s.drop_last());
    }
}

/// Reads `s[from..]` as a `usize` (see [`parse_usize_spec`]).
fn parse_usize(s: &Vec<char>, from: usize, to: usize) -> (r: Option<usize>)
    requires
        from <= to <= s@.len(),
    ensures
        match r {
            Some(n) => parse_usize_spec(s@.subrange(from as int, to as int)) == Some(n as int),
            None => parse_usize_spec(s@.subrange(from as int, to as int)) is None,
        },
{
    let ghost whole = s@.subrange(from as int, to as int);
    let mut start = from;
    if start < to && s[start] == '+' {
        start = start + 1;
    }
    let ghost d = s@.subrange(start as int, to as int);
    assert(d =~= if whole.len() > 0 && whole[0] == '+' {
        whole.drop_first()
    } else {
        whole
    });
    if start == to {
        return None;
    }
    let mut value: u128 = 0;
    let mut overflow = false;
    let mut i = start;
    while i < to
        invariant
            start <= i <= to <= s@.len(),
            whole == s@.subrange(from as int, to as int),
            d == s@.subrange(start as int, to as int),
            d == (if whole.len() > 0 && whole[0] == '+' {
                whole.drop_first()
            } else {
                whole
            }),
            all_digits(d.take(i - start)),
            !overflow ==> value == digits_value(d.take(i - start)) && value <= usize::MAX,
            overflow ==> digits_value(d.take(i - start)) > usize::MAX,
        decreases to - i,
    {
        let c = s[i];
        assert(d.take(i + 1 - start).drop_last() =~= d.take(i - start));
        assert(d.take(i + 1 - start).last() == c);
        if c < '0' || c > '9' {
            assert(!is_digit(d[i - start]));
            return None;
        }
        let digit = ((c as u32) - ('0' as u32)) as u128;
        assert(all_digits(d.take(i + 1 - start)));
        if overflow {
        } else {
            let next = value * 10 + digit;
            if next > usize::MAX as u128 {
                overflow = true;
            } else {
                value = next;
            }
        }
        i = i + 1;
    }
    assert(d.take(to - start) =~= d);
    if overflow {
        None
    } else {
        Some(value as usize)
    }
}

// ---------------------------------------------------------------------------
// Applying captures
// ---------------------------------------------------------------------------

/// The capture that a placeholder `{idx}` names: a positive index, read as
/// `str::parse` reads it, of a group that took part in the match.
pub open spec fn capture_text(caps: Seq<Option<Seq<char>>>, idx: Seq<char>) -> Option<Seq<char>> {
    match parse_usize_spec(idx) {
        Some(n) => if 0 < n < caps.len() {
            caps[n]
        } else {
            None
        },
        None => None,
    }
}

/// `template` with each `{n}` replaced by capture `n`, in a single pass:
/// the inserted text is not scanned again. A placeholder that names no
/// capture stays as it is, and so does the text from a `{` without a `}`.
pub open spec fn apply_captures_spec(template: Seq<char>, caps: Seq<Option<Seq<char>>>) -> Seq<char>
    decreases template.len(),
{
    match find_char_spec(template, '{') {
        None => template,
        Some(s) => {
            proof {
                lemma_find_char_bounds(template, '{');
            }
            let rest = template.skip(s + 1);
            match find_char_spec(rest, '}') {
                None => template,
                Some(e) => {
                    proof {
                        lemma_find_char_bounds(rest, '}');
                    }
                    let idx = rest.take(e);
                    template.take(s) + match capture_text(caps, idx) {
                        Some(c) => c,
                        None => seq!['{'] + idx + seq!['}'],
                    } + apply_captures_spec(rest.skip(e + 1), caps)
                },
            }
        },
    }
}

pub open spec fn captures_view(caps: Seq<Option<String>>) -> Seq<Option<Seq<char>>> {
    caps.map_values(
        |c: Option<String>|
            match c {
                Some(s) => Some(s@),
                None => None,
            },
    )
}

/// What a placeholder `{idx}` becomes: the capture it names, else itself.
pub open spec fn placeholder_text(caps: Seq<Option<Seq<char>>>, idx: Seq<char>) -> Seq<char> {
    match capture_text(caps, idx) {
        Some(c) => c,
        None => seq!['{'] + idx + seq!['}'],
    }
}

fn push_placeholder(out: &mut Vec<char>, t: &Vec<char>, from: usize, to: usize, captures: &Vec<Option<String>>)
    requires
        from <= to <= t@.len(),
    ensures
        final(out)@ == old(out)@ + placeholder_text(
            captures_view(captures@),
            t@.subrange(from as int, to as int),
        ),
{
    let ghost caps = captures_view(captures@);
    match parse_usize(t, from, to) {
        Some(n) => {
            if n > 0 && n < captures.len() {
                match &captures[n] {
                    Some(c) => {
                        assert(caps[n as int] == Some(c@));
                        extend_str(out, c.as_str());
                        return ;
                    },
                    None => {
                        assert(caps[n as int] is None);
                    },
                }
            }
        },
        None => {},
    }
    let name = slice_to_vec(t, from, to);
    let ghost before = out@;
    out.push('{');
    extend_chars(out, name.as_slice());
    out.push('}');
    assert(out@ =~= before + (seq!['{'] + name@ + seq!['}']));
}

proof fn lemma_apply_step(rest: Seq<char>, caps: Seq<Option<Seq<char>>>, s: int, e: int)
    requires
        find_char_spec(rest, '{') == Some(s),
        find_char_spec(rest.skip(s + 1), '}') == Some(e),
    ensures
        0 <= s && s + 1 + e < rest.len(),
        apply_captures_spec(rest, caps) == rest.take(s) + placeholder_text(
            caps,
            rest.skip(s + 1).take(e),
        ) + apply_captures_spec(rest.skip(s + 1).skip(e + 1), caps),
{
    lemma_find_char_bounds(rest, '{');
    lemma_find_char_bounds(rest.skip(s + 1), '}');
}

/// Replaces the `{n}` placeholders of `template` with the captures of a match
/// (index 0 being the whole match), in a single pass (see [`apply_captures_spec`]).
#[verifier::rlimit(60)]
pub fn apply_captures(template: &str, captures: &Vec<Option<String>>) -> (r: String)
    ensures
        r@ == apply_captures_spec(template@, captures_view(captures@)),
{
    let ghost caps = captures_view(captures@);
    let t = chars_of(template);
    let tlen = t.len();
    let mut out: Vec<char> = Vec::new();
    let mut pc: usize = 0;
    assert(t@.skip(0) =~= t@);
    assert(out@ + apply_captures_spec(t@.skip(0), caps) =~= apply_captures_spec(template@, caps));
    loop
        invariant
            tlen == t@.len(),
            t@ == template@,
            caps == captures_view(captures@),
            pc <= t@.len(),
            out@ + apply_captures_spec(t@.skip(pc as int), caps) == apply_captures_spec(template@, caps),
        decreases t@.len() - pc,
    {
        let ghost rest = t@.skip(pc as int);
        match find_char_from(&t, pc, '{') {
            None => {
                let tail = slice_to_vec(&t, pc, t.len());
                assert(tail@ =~= rest);
                extend_chars(&mut out, tail.as_slice());
                return string_from_chars(out.as_slice());
            },
            Some(start) => {
                let ghost s = start - pc;
                assert(rest.skip(s + 1) =~= t@.skip(start + 1));
                match find_char_from(&t, start + 1, '}') {
                    None => {
                        let tail = slice_to_vec(&t, pc, t.len());
                        assert(tail@ =~= rest);
                        extend_chars(&mut out, tail.as_slice());
                        return string_from_chars(out.as_slice());
                    },
                    Some(end) => {
                        let ghost e = end - start - 1;
                        proof {
                            lemma_apply_step(rest, caps, s, e);
                        }
                        assert(rest.skip(s + 1).take(e) =~= t@.subrange(start + 1, end as int));
                        assert(rest.skip(s + 1).skip(e + 1) =~= t@.skip(end + 1));
                        let lit = slice_to_vec(&t, pc, start);
                        assert(lit@ =~= rest.take(s));
                        let ghost before = out@;
                        extend_chars(&mut out, lit.as_slice());
                        push_placeholder(&mut out, &t, start + 1, end, captures);
                        assert(out@ + apply_captures_spec(t@.skip(end + 1), caps) =~= before
                            + apply_captures_spec(rest, caps));
                        pc = end + 1;
                    },
                }
            },
        }
    }
}


/// Inserting a capture is a single pass: where the template holds plain text
/// and then a placeholder `{n}` naming capture `n`, the result holds that
/// text, then the capture exactly as it is (braces and all), then the rest of
/// the template with its own placeholders replaced.
pub proof fn lemma_capture_inserted_verbatim(
    lit: Seq<char>,
    idx: Seq<char>,
    rest: Seq<char>,
    caps: Seq<Option<Seq<char>>>,
    n: int,
    c: Seq<char>,
)
    requires
        forall|k: int| 0 <= k < lit.len() ==> lit[k] != '{',
        all_digits(idx),
        parse_usize_spec(idx) == Some(n),
        0 < n < caps.len(),
        caps[n] == Some(c),
    ensures
        apply_captures_spec(lit + seq!['{'] + idx + seq!['}'] + rest, caps) == lit + c
            + apply_captures_spec(rest, caps),
{
    let t = lit + seq!['{'] + idx + seq!['}'] + rest;
    let tail = seq!['{'] + idx + seq!['}'] + rest;
    assert(t =~= lit + tail);
    lemma_find_char_append(lit, tail, '{');
    assert(find_char_spec(tail, '{') == Some(0int));
    let after = t.skip(lit.len() as int + 1);
    assert(after =~= idx + (seq!['}'] + rest));
    assert forall|k: int| 0 <= k < idx.len() implies idx[k] != '}' by {
        assert(is_digit(idx[k]));
    }
    lemma_find_char_append(idx, seq!['}'] + rest, '}');
    assert(find_char_spec(seq!['}'] + rest, '}') == Some(0int));
    assert(after.take(idx.len() as int) =~= idx);
    assert(after.skip(idx.len() as int + 1) =~= rest);
    assert(t.take(lit.len() as int) =~= lit);
}

/// Where `a` holds no `c`, the first `c` of `a + b` is the first `c` of `b`.
pub proof fn lemma_find_char_append(a: Seq<char>, b: Seq<char>, c: char)
    requires
        forall|k: int| 0 <= k < a.len() ==> a[k] != c,
    ensures
        find_char_spec(a + b, c) == match find_char_spec(b, c) {
            Some(i) => Some(a.len() + i),
            None => None,
        },
    decreases a.len(),
{
    if a.len() > 0 {
        assert((a + b).drop_first() =~= a.drop_first() + b);
        assert(a[0] != c);
        lemma_find_char_append(a.drop_first(), b, c);
    } else {
        assert(a + b =~= b);
    }
}

// ---------------------------------------------------------------------------
// Matching commands
// ---------------------------------------------------------------------------

pub open spec fn opt_captures_view(o: Option<Vec<Option<String>>>) -> Option<Seq<Option<Seq<char>>>> {
    match o {
        Some(v) => Some(captures_view(v@)),
        None => None,
    }
}

/// What `regex` makes of `pattern` and `text`: `None` when the pattern does
/// not compile; else the groups of the first match (group 0 being the whole
/// match, a group that took no part being `None`), or `None` inside when
/// nothing matches.
pub uninterp spec fn regex_captures_of(pattern: Seq<char>, text: Seq<char>) -> Option<
    Option<Seq<Option<Seq<char>>>>,
>;

/// `regex::Regex::new(pattern)` and then `Regex::captures(text)`, each group
/// taken as its text: the result is what [`regex_captures_of`] names for the
/// pattern and the text, and nothing more is claimed of it.
#[verifier::external_body]
fn regex_captures(pattern: &str, text: &str) -> (r: Option<Option<Vec<Option<String>>>>)
    ensures
        match r {
            Some(o) => regex_captures_of(pattern@, text@) == Some(opt_captures_view(o)),
            None => regex_captures_of(pattern@, text@) is None,
        },
{
    match regex::Regex::new(pattern) {
        Err(_) => None,
        Ok(re) => Some(
            re.captures(text).map(|c| c.iter().map(|m| m.map(|m| m.as_str().to_owned())).collect()),
        ),
    }
}

pub open spec fn is_lower_hex(c: char) -> bool {
    ('0' <= c && c <= '9') || ('a' <= c && c <= 'f')
}

/// The hyphenated lower-case text of a random (version 4, RFC 9562 variant)
/// UUID: 36 characters, hyphens at 8, 13, 18 and 23, hexadecimal digits
/// elsewhere, `4` at 14 and one of `8 9 a b` at 19.
pub open spec fn is_v4_uuid_text(s: Seq<char>) -> bool {
    &&& s.len() == 36
    &&& forall|i: int|
        0 <= i < 36 ==> if i == 8 || i == 13 || i == 18 || i == 23 {
            s[i] == '-'
        } else {
            is_lower_hex(#[trigger] s[i])
        }
    &&& s[14] == '4'
    &&& (s[19] == '8' || s[19] == '9' || s[19] == 'a' || s[19] == 'b')
}

/// `uuid::Uuid::new_v4().to_string()`: a fresh random UUID in its hyphenated
/// lower-case form. Which UUID comes out is chance; only its form is claimed.
#[verifier::external_body]
fn new_v4_uuid_string() -> (r: String)
    ensures
        is_v4_uuid_text(r@),
{
    uuid::Uuid::new_v4().to_string()
}

/// A prompt suggested to the user.
#[derive(Clone, Debug)]
pub struct PromptSuggestion {
    pub id: String,
    pub label: Option<String>,
    pub prompt: String,
    pub static_prompt_suggestion_name: Option<String>,
    pub should_start_new_conversation: bool,
}

/// The suggestion of a rule for the captures of a match: the label in the
/// user's language, the query in US English, both with the captures applied.
pub open spec fn suggestion_for(
    b: CatalogBundle,
    locale: LocaleId,
    rule: RuleView,
    caps: Seq<Option<Seq<char>>>,
    s: PromptSuggestion,
) -> bool {
    &&& opt_view(s.label) == match rule.label_key {
        Some(k) => Some(apply_captures_spec(text_spec(b, locale, k), caps)),
        None => None,
    }
    &&& s.prompt@ == apply_captures_spec(text_spec(b, LocaleId::EnUs, rule.query_key), caps)
    &&& opt_view(s.static_prompt_suggestion_name) == Some(rule.name)
    &&& !s.should_start_new_conversation
}

/// The suggestion of `rule` for the captures of a match, with the given id
/// (see [`suggestion_for`]).
pub fn suggestion_from_captures(
    rule: &StaticPromptSuggestion,
    captures: &Vec<Option<String>>,
    catalogs: &CatalogBundle,
    locale: LocaleId,
    id: String,
) -> (s: PromptSuggestion)
    ensures
        suggestion_for(*catalogs, locale, rule@, captures_view(captures@), s),
        s.id@ == id@,
{
    let label = match rule.label_key {
        Some(key) => {
            let template = catalogs.text(locale, key);
            Some(apply_captures(template.as_str(), captures))
        },
        None => None,
    };
    let query_template = catalogs.text(LocaleId::EnUs, rule.query_key);
    let prompt = apply_captures(query_template.as_str(), captures);
    PromptSuggestion {
        id,
        label,
        prompt,
        static_prompt_suggestion_name: Some(rule.name.to_owned()),
        should_start_new_conversation: false,
    }
}

/// The first rule, from the `i`-th on, whose pattern matches `command`, with
/// the captures of the match. A pattern that does not compile matches nothing.
pub open spec fn first_matching_rule(rules: Seq<RuleView>, command: Seq<char>, i: int) -> Option<
    (int, Seq<Option<Seq<char>>>),
>
    decreases rules.len() - i,
{
    if i < 0 || i >= rules.len() {
        None
    } else {
        match regex_captures_of(rules[i].pattern, command) {
            Some(Some(caps)) => Some((i, caps)),
            _ => first_matching_rule(rules, command, i + 1),
        }
    }
}

/// The suggestion for a terminal command: that of the first rule whose
/// pattern matches it, with a fresh random id; `None` when no rule matches.
pub fn static_suggested_query(command: &str, catalogs: &CatalogBundle, locale: LocaleId) -> (r: Option<
    PromptSuggestion,
>)
    ensures
        match first_matching_rule(static_rules_spec(), command@, 0) {
            None => r is None,
            Some((i, caps)) => r matches Some(s) && suggestion_for(
                *catalogs,
                locale,
                static_rules_spec()[i],
                caps,
                s,
            ) && is_v4_uuid_text(s.id@),
        },
{
    let rules = static_rules();
    let ghost rs = rule_views(rules@);
    let mut i: usize = 0;
    while i < rules.len()
        invariant
            rs == rule_views(rules@),
            rs == static_rules_spec(),
            i <= rules@.len(),
            first_matching_rule(rs, command@, 0) == first_matching_rule(rs, command@, i as int),
        decreases rules@.len() - i,
    {
        let rule = &rules[i];
        assert(rs[i as int] == rule@);
        match regex_captures(rule.pattern, command) {
            Some(Some(captures)) => {
                let id = new_v4_uuid_string();
                return Some(suggestion_from_captures(rule, &captures, catalogs, locale, id));
            },
            _ => {},
        }
        i = i + 1;
    }
    None
}

} // verus!
