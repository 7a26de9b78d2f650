use warp_app::localization::{Catalog, CatalogBundle, LocaleId};
use warp_app::schema::{
    localized_catalog_text_by_default_text, localized_setting_description, parse_locale,
    root_description, root_title, schema_translation_key, setting_surface_names,
    SettingSchemaEntry, SettingSurfaces,
};

fn pairs(items: &[(&str, &str)]) -> Vec<(String, String)> {
    items.iter().map(|(k, v)| (k.to_string(), v.to_string())).collect()
}

fn catalogs() -> CatalogBundle {
    CatalogBundle {
        default_locale: LocaleId::EnUs,
        catalogs: vec![
            Catalog {
                locale: LocaleId::EnUs,
                entries: pairs(&[
                    ("settings.schema.root.title", "Warp Settings"),
                    (
                        "settings.schema.root.description",
                        "JSON Schema for Warp settings ({channel} channel, {entry_count} settings)",
                    ),
                    ("a", "shared source text"),
                    ("b", "shared source text"),
                    ("c", "unique source text"),
                    ("d", "same everywhere"),
                    ("e", "one translation"),
                    ("f", "one translation"),
                    ("settings.schema.appearance.theme.description", "Theme"),
                ]),
            },
            Catalog {
                locale: LocaleId::ZhCn,
                entries: pairs(&[
                    ("settings.schema.root.title", "Warp 设置"),
                    (
                        "settings.schema.root.description",
                        "Warp 设置的 JSON Schema（{channel} 渠道，{entry_count} 项设置）",
                    ),
                    ("a", "共享一"),
                    ("b", "共享二"),
                    ("c", "唯一的中文文本"),
                    ("d", "same everywhere"),
                    ("e", "一个翻译"),
                    ("f", "一个翻译"),
                    ("settings.schema.appearance.theme.description", "主题"),
                ]),
            },
        ],
    }
}

#[test]
fn parses_only_supported_schema_locales() {
    assert_eq!(parse_locale("en-US"), Ok(LocaleId::EnUs));
    assert_eq!(parse_locale("zh-CN"), Ok(LocaleId::ZhCn));
    assert!(parse_locale("zh").is_err());
    assert_eq!(parse_locale("fr").unwrap_err(), "Unknown locale 'fr'. Expected en-US or zh-CN.");
}

#[test]
fn localized_root_metadata_uses_catalog_placeholders() {
    let c = catalogs();
    assert_eq!(root_title(&c, LocaleId::ZhCn), "Warp 设置");
    assert_eq!(
        root_description(&c, LocaleId::ZhCn, "stable", 42).unwrap(),
        "Warp 设置的 JSON Schema（stable 渠道，42 项设置）"
    );
}

#[test]
fn only_unambiguous_texts_are_translated() {
    let got: std::collections::BTreeSet<(String, String)> =
        localized_catalog_text_by_default_text(&catalogs(), LocaleId::ZhCn).into_iter().collect();
    let want: std::collections::BTreeSet<(String, String)> = pairs(&[
        ("Theme", "主题"),
        ("Warp Settings", "Warp 设置"),
        (
            "JSON Schema for Warp settings ({channel} channel, {entry_count} settings)",
            "Warp 设置的 JSON Schema（{channel} 渠道，{entry_count} 项设置）",
        ),
        ("one translation", "一个翻译"),
        ("unique source text", "唯一的中文文本"),
    ])
    .into_iter()
    .collect();
    assert_eq!(got, want);
    assert!(localized_catalog_text_by_default_text(&catalogs(), LocaleId::EnUs).is_empty());
}

#[test]
fn setting_descriptions_fall_back_to_their_own_text() {
    let themed = SettingSchemaEntry {
        storage_key: "theme".to_string(),
        hierarchy: Some("appearance".to_string()),
        description: "The theme".to_string(),
    };
    assert_eq!(schema_translation_key(&themed), "settings.schema.appearance.theme.description");
    assert_eq!(localized_setting_description(&catalogs(), LocaleId::ZhCn, &themed), "主题");
    let other = SettingSchemaEntry {
        storage_key: "font".to_string(),
        hierarchy: None,
        description: "The font".to_string(),
    };
    assert_eq!(schema_translation_key(&other), "settings.schema.font.description");
    assert_eq!(localized_setting_description(&catalogs(), LocaleId::ZhCn, &other), "The font");
}

#[test]
fn surfaces_are_named_gui_first() {
    assert_eq!(setting_surface_names(SettingSurfaces { gui: true, tui: true }), vec!["gui", "tui"]);
    assert_eq!(setting_surface_names(SettingSurfaces { gui: false, tui: true }), vec!["tui"]);
    assert!(setting_surface_names(SettingSurfaces { gui: false, tui: false }).is_empty());
}

#[test]
fn surface_annotation_matches_setting_schema_entry_metadata() {
    for (gui, tui) in [(false, false), (true, false), (false, true), (true, true)] {
        let annotation = setting_surface_names(SettingSurfaces { gui, tui });
        assert_eq!(annotation.contains(&"gui"), gui, "GUI surface mismatch for {gui}/{tui}");
        assert_eq!(annotation.contains(&"tui"), tui, "TUI surface mismatch for {gui}/{tui}");
        assert_eq!(
            annotation.len(),
            usize::from(gui) + usize::from(tui),
            "unexpected surface annotation for {gui}/{tui}"
        );
    }
}
