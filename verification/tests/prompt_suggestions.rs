use warp_app::localization::{Catalog, CatalogBundle, LocaleId};
use warp_app::prompt_suggestions::{apply_captures, static_rules, static_suggested_query};

fn caps(items: &[Option<&str>]) -> Vec<Option<String>> {
    items.iter().map(|c| c.map(|s| s.to_string())).collect()
}

fn catalogs() -> CatalogBundle {
    let en = vec![
        (
            "terminal.passive_suggestion.static.git_clone.label".to_string(),
            "Explore {1}".to_string(),
        ),
        (
            "terminal.passive_suggestion.static.git_clone.query".to_string(),
            "Help me understand the repository {1}.".to_string(),
        ),
        (
            "terminal.passive_suggestion.static.git_push.query".to_string(),
            "Open a pull request for what I pushed.".to_string(),
        ),
    ];
    let zh = vec![
        (
            "terminal.passive_suggestion.static.git_clone.label".to_string(),
            "了解 {1}".to_string(),
        ),
        (
            "terminal.passive_suggestion.static.git_clone.query".to_string(),
            "帮我了解仓库 {1}。".to_string(),
        ),
        (
            "terminal.passive_suggestion.static.git_push.query".to_string(),
            "为我推送的内容创建拉取请求。".to_string(),
        ),
    ];
    CatalogBundle {
        default_locale: LocaleId::EnUs,
        catalogs: vec![
            Catalog { locale: LocaleId::EnUs, entries: en },
            Catalog { locale: LocaleId::ZhCn, entries: zh },
        ],
    }
}

#[test]
fn static_prompt_capture_replacement_is_single_pass() {
    let captures = caps(&[Some("cmd alpha{2} beta"), Some("alpha{2}"), Some("beta")]);
    let result = apply_captures("{0}: {1} then {2}", &captures);
    assert_eq!(result, "{0}: alpha{2} then beta");
}

#[test]
fn static_prompt_submission_uses_locale_independent_prompt() {
    let suggestion = static_suggested_query("git clone warp-terminal", &catalogs(), LocaleId::ZhCn)
        .expect("git clone should match a static prompt suggestion");
    assert_eq!(suggestion.label.as_deref(), Some("了解 warp-terminal"));
    assert_eq!(suggestion.prompt, "Help me understand the repository warp-terminal.");
    assert_eq!(suggestion.static_prompt_suggestion_name.as_deref(), Some("GIT_CLONE"));
    assert!(!suggestion.should_start_new_conversation);
    assert_eq!(suggestion.id.len(), 36);
    assert_eq!(suggestion.id.chars().nth(14), Some('4'));
}

#[test]
fn static_prompt_without_label_uses_locale_independent_prompt() {
    let suggestion = static_suggested_query("git push", &catalogs(), LocaleId::ZhCn)
        .expect("git push should match a static prompt suggestion");
    assert_eq!(suggestion.label, None);
    assert_eq!(suggestion.prompt, "Open a pull request for what I pushed.");
}

#[test]
fn commands_without_a_rule_get_no_suggestion() {
    assert!(static_suggested_query("ls -la", &catalogs(), LocaleId::EnUs).is_none());
    assert!(static_suggested_query("git clone", &catalogs(), LocaleId::EnUs).is_none());
}

#[test]
fn every_rule_pattern_compiles() {
    for rule in static_rules() {
        assert!(regex::Regex::new(rule.pattern).is_ok(), "{}", rule.name);
    }
    assert_eq!(static_rules().len(), 32);
}

#[test]
fn placeholders_that_name_no_capture_stay() {
    let captures = caps(&[Some("x"), Some("one"), None]);
    assert_eq!(apply_captures("{+1}|{01}|{x}|{2}|{9}|{}", &captures), "one|one|{x}|{2}|{9}|{}");
    assert_eq!(apply_captures("open {1", &captures), "open {1");
    assert_eq!(apply_captures("no placeholders", &captures), "no placeholders");
    assert_eq!(apply_captures("{-1}{+}", &captures), "{-1}{+}");
}

#[test]
fn huge_capture_indices_stay() {
    let captures = caps(&[Some("x"), Some("one")]);
    assert_eq!(
        apply_captures("{99999999999999999999999}", &captures),
        "{99999999999999999999999}"
    );
}
