use warp_app::localization::{
    replace_placeholders, replace_system_locale_candidates, Catalog, CatalogBundle, LocaleId,
    LocalizedMessage, PlaceholderError, TranslationSource,
};

fn pairs(items: &[(&str, &str)]) -> Vec<(String, String)> {
    items.iter().map(|(k, v)| (k.to_string(), v.to_string())).collect()
}

fn catalogs() -> CatalogBundle {
    CatalogBundle {
        default_locale: LocaleId::EnUs,
        catalogs: vec![
            Catalog {
                locale: LocaleId::EnUs,
                entries: pairs(&[
                    ("greeting", "Hello, {name}!"),
                    ("only.en", "English only"),
                    ("remote.host", "Remote host"),
                ]),
            },
            Catalog {
                locale: LocaleId::ZhCn,
                entries: pairs(&[("greeting", "你好，{name}！"), ("remote.host", "远程主机")]),
            },
        ],
    }
}

#[test]
fn lookup_falls_back_to_the_default_locale_then_the_key() {
    let c = catalogs();
    let hit = c.lookup(LocaleId::ZhCn, "remote.host");
    assert_eq!(hit.text, "远程主机");
    assert_eq!(hit.source, TranslationSource::Locale);
    let fallback = c.lookup(LocaleId::ZhCn, "only.en");
    assert_eq!(fallback.text, "English only");
    assert_eq!(fallback.source, TranslationSource::Default);
    let missing = c.lookup(LocaleId::ZhCn, "no.such.key");
    assert_eq!(missing.text, "no.such.key");
    assert_eq!(missing.source, TranslationSource::Key);
    assert_eq!(c.text(LocaleId::EnUs, "remote.host"), "Remote host");
}

#[test]
fn text_or_uses_the_fallback_only_for_unknown_keys() {
    let c = catalogs();
    assert_eq!(c.text_or(LocaleId::ZhCn, "only.en", "fallback"), "English only");
    assert_eq!(c.text_or(LocaleId::ZhCn, "no.such.key", "fallback"), "fallback");
}

#[test]
fn key_for_default_text_searches_the_default_catalog() {
    let c = catalogs();
    assert_eq!(c.key_for_default_text("Remote host"), Some("remote.host".to_string()));
    assert_eq!(c.key_for_default_text("远程主机"), None);
}

#[test]
fn placeholders_are_filled_or_reported() {
    assert_eq!(
        replace_placeholders("Hello, {name}!", &pairs(&[("name", "Ada")])),
        Ok("Hello, Ada!".to_string())
    );
    assert_eq!(
        replace_placeholders("{a}{b}{a}", &pairs(&[("a", "1"), ("b", "{a}")])),
        Ok("1{a}1".to_string())
    );
    assert_eq!(replace_placeholders("no braces", &Vec::new()), Ok("no braces".to_string()));
    assert_eq!(replace_placeholders("open { only", &Vec::new()), Ok("open { only".to_string()));
    assert_eq!(
        replace_placeholders("Hi {who}", &Vec::new()),
        Err(PlaceholderError::MissingArgument { name: "who".to_string() })
    );
}

#[test]
fn messages_render_in_the_requested_locale() {
    let c = catalogs();
    let m = LocalizedMessage { key: "greeting".to_string(), args: pairs(&[("name", "Ada")]) };
    assert_eq!(c.render(LocaleId::ZhCn, &m), Ok("你好，Ada！".to_string()));
    assert_eq!(c.render(LocaleId::EnUs, &m), Ok("Hello, Ada!".to_string()));
    let bad = LocalizedMessage { key: "greeting".to_string(), args: Vec::new() };
    assert!(c.render(LocaleId::EnUs, &bad).is_err());
}

#[test]
fn locale_codes() {
    assert_eq!(LocaleId::EnUs.code(), "en-US");
    assert_eq!(LocaleId::ZhCn.code(), "zh-CN");
}

#[test]
fn system_locale_cache_reports_changes() {
    let mut cache = vec!["en-US".to_string()];
    assert!(!replace_system_locale_candidates(&mut cache, vec!["en-US".to_string()]));
    assert!(replace_system_locale_candidates(&mut cache, vec!["zh-CN".to_string(), "en-US".to_string()]));
    assert_eq!(cache, vec!["zh-CN".to_string(), "en-US".to_string()]);
    assert!(replace_system_locale_candidates(&mut cache, Vec::new()));
    assert!(cache.is_empty());
}

#[test]
fn labeled_and_file_picker_errors() {
    let mut c = catalogs();
    c.catalogs[0].entries.push(("error.labeled".to_string(), "{label}: {message}".to_string()));
    c.catalogs[1].entries.push(("error.labeled".to_string(), "{label}：{message}".to_string()));
    c.catalogs[0].entries.push(("file_picker.error".to_string(), "Could not open the file picker: {error}".to_string()));
    assert_eq!(c.labeled_error(LocaleId::EnUs, "Sync", "offline"), Ok("Sync: offline".to_string()));
    assert_eq!(c.labeled_error(LocaleId::ZhCn, "同步", "离线"), Ok("同步：离线".to_string()));
    assert_eq!(
        c.file_picker_error(LocaleId::ZhCn, "denied"),
        Ok("Could not open the file picker: denied".to_string())
    );
    // Without a template, the key stands in for the text.
    assert_eq!(catalogs().labeled_error(LocaleId::EnUs, "a", "b"), Ok("error.labeled".to_string()));
}
