use warp_app::json_tree::{
    localize_schema_descriptions, strip_empty_enum_entries, strip_numeric_metadata, JsonValue,
};
use warp_app::localization::{Catalog, CatalogBundle, LocaleId};
use warp_app::schema::{SettingSchemaEntry, SettingSurfaces};
use warp_app::settings_schema::{
    assemble_settings_schema, flag_active_for_channel, generate_settings_schema, schema_for_entry,
    FeatureFlagLists, SchemaError, SettingSchemaInput,
};

fn s(text: &str) -> JsonValue {
    JsonValue::Str(text.to_string())
}

fn n(text: &str) -> JsonValue {
    JsonValue::Number(text.to_string())
}

fn obj(members: Vec<(&str, JsonValue)>) -> JsonValue {
    JsonValue::Object(members.into_iter().map(|(k, v)| (k.to_string(), v)).collect())
}

fn same(a: &JsonValue, b: &JsonValue) -> bool {
    match (a, b) {
        (JsonValue::Null, JsonValue::Null) => true,
        (JsonValue::Bool(x), JsonValue::Bool(y)) => x == y,
        (JsonValue::Number(x), JsonValue::Number(y)) => x == y,
        (JsonValue::Str(x), JsonValue::Str(y)) => x == y,
        (JsonValue::Array(x), JsonValue::Array(y)) => {
            x.len() == y.len() && x.iter().zip(y.iter()).all(|(p, q)| same(p, q))
        }
        (JsonValue::Object(x), JsonValue::Object(y)) => {
            x.len() == y.len()
                && x.iter().zip(y.iter()).all(|((kp, p), (kq, q))| kp == kq && same(p, q))
        }
        _ => false,
    }
}

fn get<'a>(v: &'a JsonValue, key: &str) -> &'a JsonValue {
    match v {
        JsonValue::Object(members) => {
            &members.iter().find(|(k, _)| k == key).expect("member should exist").1
        }
        other => panic!("expected an object, got {other:?}"),
    }
}

fn has(v: &JsonValue, key: &str) -> bool {
    match v {
        JsonValue::Object(members) => members.iter().any(|(k, _)| k == key),
        _ => false,
    }
}

fn text(v: &JsonValue) -> &str {
    match v {
        JsonValue::Str(t) => t,
        other => panic!("expected a string, got {other:?}"),
    }
}

#[test]
fn schema_description_localization_avoids_ambiguous_source_text() {
    let mut schema = obj(vec![
        ("description", s("shared source text")),
        ("title", s("shared source text")),
        ("nested", obj(vec![("description", s("unique source text"))])),
    ]);
    let translations = vec![("unique source text".to_string(), "唯一的中文文本".to_string())];

    localize_schema_descriptions(&mut schema, &translations);

    assert_eq!(text(get(&schema, "description")), "shared source text");
    assert_eq!(text(get(&schema, "title")), "shared source text");
    assert_eq!(text(get(get(&schema, "nested"), "description")), "唯一的中文文本");
}

#[test]
fn only_descriptions_and_titles_are_translated() {
    let mut schema = obj(vec![
        ("default", s("unique source text")),
        ("items", JsonValue::Array(vec![obj(vec![("title", s("unique source text"))])])),
    ]);
    let translations = vec![("unique source text".to_string(), "唯一".to_string())];
    localize_schema_descriptions(&mut schema, &translations);
    assert_eq!(text(get(&schema, "default")), "unique source text");
    match get(&schema, "items") {
        JsonValue::Array(items) => assert_eq!(text(get(&items[0], "title")), "唯一"),
        other => panic!("unexpected {other:?}"),
    }
}

#[test]
fn numeric_bounds_are_stripped_only_from_numeric_schemas() {
    let mut schema = obj(vec![
        ("type", s("object")),
        ("minimum", n("1")),
        (
            "properties",
            obj(vec![
                (
                    "size",
                    obj(vec![
                        ("type", s("integer")),
                        ("minimum", n("0")),
                        ("maximum", n("255")),
                        ("format", s("uint8")),
                        ("default", n("12")),
                    ]),
                ),
                ("ratio", obj(vec![("type", s("number")), ("format", s("double"))])),
                ("name", obj(vec![("type", s("string")), ("format", s("uri"))])),
            ]),
        ),
    ]);
    strip_numeric_metadata(&mut schema);
    let expected = obj(vec![
        ("type", s("object")),
        ("minimum", n("1")),
        (
            "properties",
            obj(vec![
                ("size", obj(vec![("type", s("integer")), ("default", n("12"))])),
                ("ratio", obj(vec![("type", s("number"))])),
                ("name", obj(vec![("type", s("string")), ("format", s("uri"))])),
            ]),
        ),
    ]);
    assert!(same(&schema, &expected), "{schema:?}");
}

#[test]
fn empty_enum_buckets_are_dropped_from_one_of() {
    let mut schema = obj(vec![(
        "oneOf",
        JsonValue::Array(vec![
            obj(vec![("enum", JsonValue::Array(Vec::new())), ("type", s("string"))]),
            obj(vec![("const", s("Dark")), ("description", s("Dark theme"))]),
            obj(vec![("enum", JsonValue::Array(vec![s("Light")])), ("type", s("string"))]),
            obj(vec![(
                "oneOf",
                JsonValue::Array(vec![obj(vec![("enum", JsonValue::Array(Vec::new()))])]),
            )]),
        ]),
    )]);
    strip_empty_enum_entries(&mut schema);
    let expected = obj(vec![(
        "oneOf",
        JsonValue::Array(vec![
            obj(vec![("const", s("Dark")), ("description", s("Dark theme"))]),
            obj(vec![("enum", JsonValue::Array(vec![s("Light")])), ("type", s("string"))]),
            obj(vec![("oneOf", JsonValue::Array(Vec::new()))]),
        ]),
    )]);
    assert!(same(&schema, &expected), "{schema:?}");

    // Outside `oneOf`, an empty enum is kept.
    let mut other = obj(vec![(
        "anyOf",
        JsonValue::Array(vec![obj(vec![("enum", JsonValue::Array(Vec::new()))])]),
    )]);
    let before = obj(vec![(
        "anyOf",
        JsonValue::Array(vec![obj(vec![("enum", JsonValue::Array(Vec::new()))])]),
    )]);
    strip_empty_enum_entries(&mut other);
    assert!(same(&other, &before));
}

#[test]
fn feature_flags_follow_the_release_channel() {
    let release = FeatureFlagLists { release: true, preview: false, dogfood: false, debug: false };
    let preview = FeatureFlagLists { release: false, preview: true, dogfood: false, debug: false };
    let dogfood = FeatureFlagLists { release: false, preview: false, dogfood: true, debug: false };
    assert!(flag_active_for_channel(release, "stable"));
    assert!(!flag_active_for_channel(preview, "stable"));
    assert!(flag_active_for_channel(preview, "preview"));
    assert!(!flag_active_for_channel(dogfood, "preview"));
    assert!(flag_active_for_channel(dogfood, "dev"));
    assert!(flag_active_for_channel(dogfood, "nightly"));
}

fn catalogs() -> CatalogBundle {
    let en = vec![
        ("settings.schema.root.title", "Warp Settings"),
        (
            "settings.schema.root.description",
            "JSON Schema for Warp settings ({channel} channel, {entry_count} settings)",
        ),
        ("settings.schema.appearance.text.font_size.description", "Font size"),
        ("settings.schema.theme.description", "Theme"),
        ("enum.dark", "Dark theme"),
    ];
    let zh = vec![
        ("settings.schema.root.title", "Warp 设置"),
        (
            "settings.schema.root.description",
            "Warp 设置的 JSON Schema（{channel} 渠道，{entry_count} 项设置）",
        ),
        ("settings.schema.appearance.text.font_size.description", "字号"),
        ("enum.dark", "深色主题"),
    ];
    let to_vec = |v: Vec<(&str, &str)>| v.into_iter().map(|(k, t)| (k.to_string(), t.to_string())).collect();
    CatalogBundle {
        default_locale: LocaleId::EnUs,
        catalogs: vec![
            Catalog { locale: LocaleId::EnUs, entries: to_vec(en) },
            Catalog { locale: LocaleId::ZhCn, entries: to_vec(zh) },
        ],
    }
}

fn input(key: &str, hierarchy: Option<&str>, description: &str, schema: JsonValue) -> SettingSchemaInput {
    SettingSchemaInput {
        entry: SettingSchemaEntry {
            storage_key: key.to_string(),
            hierarchy: hierarchy.map(|h| h.to_string()),
            description: description.to_string(),
        },
        is_private: false,
        feature_flag: None,
        surfaces: SettingSurfaces { gui: true, tui: false },
        schema,
        default_value: None,
    }
}

#[test]
fn entry_schema_carries_surfaces_default_and_description() {
    let mut entry = input(
        "font_size",
        Some("appearance.text"),
        "Font size",
        obj(vec![("type", s("integer")), ("description", s("doc comment"))]),
    );
    entry.default_value = Some(n("13"));
    entry.surfaces = SettingSurfaces { gui: true, tui: true };
    let schema = schema_for_entry(&entry, &catalogs(), LocaleId::ZhCn);
    let expected = obj(vec![
        ("type", s("integer")),
        ("description", s("字号")),
        ("x-warp-surfaces", JsonValue::Array(vec![s("gui"), s("tui")])),
        ("default", n("13")),
    ]);
    assert!(same(&schema, &expected), "{schema:?}");

    let plain = input("tabs", None, "", obj(vec![("type", s("boolean"))]));
    let schema = schema_for_entry(&plain, &catalogs(), LocaleId::ZhCn);
    assert!(!has(&schema, "description"));
    assert!(!has(&schema, "default"));
}

#[test]
fn settings_nest_under_their_hierarchy_and_are_counted() {
    let mut hidden = input("secret", None, "Secret", obj(vec![("type", s("string"))]));
    hidden.is_private = true;
    let mut flagged = input("beta", None, "Beta", obj(vec![("type", s("boolean"))]));
    flagged.feature_flag = Some(FeatureFlagLists { release: false, preview: true, dogfood: false, debug: false });
    let inputs = vec![
        input(
            "font_size",
            Some("appearance.text"),
            "Font size",
            obj(vec![("type", s("integer")), ("format", s("uint8"))]),
        ),
        input("line_height", Some("appearance.text"), "", obj(vec![("type", s("number"))])),
        input("theme", None, "Theme", obj(vec![("type", s("string"))])),
        hidden,
        flagged,
    ];
    let definitions = vec![(
        "Theme".to_string(),
        obj(vec![(
            "oneOf",
            JsonValue::Array(vec![
                obj(vec![("enum", JsonValue::Array(Vec::new()))]),
                obj(vec![("const", s("Dark")), ("description", s("Dark theme"))]),
            ]),
        )]),
    )];
    let translations = vec![("Dark theme".to_string(), "深色主题".to_string())];
    let generated = assemble_settings_schema(
        &inputs,
        definitions,
        "stable",
        &catalogs(),
        LocaleId::ZhCn,
        &translations,
    )
    .expect("schema should assemble");
    assert_eq!(generated.entry_count, 3);
    let root = &generated.value;
    assert_eq!(text(get(root, "$schema")), "https://json-schema.org/draft/2020-12/schema");
    assert_eq!(text(get(root, "title")), "Warp 设置");
    assert_eq!(text(get(root, "description")), "Warp 设置的 JSON Schema（stable 渠道，3 项设置）");
    assert_eq!(text(get(root, "type")), "object");
    let properties = get(root, "properties");
    assert!(has(properties, "theme"));
    assert!(!has(properties, "secret"));
    assert!(!has(properties, "beta"));
    let appearance = get(properties, "appearance");
    assert_eq!(text(get(appearance, "type")), "object");
    let text_level = get(get(appearance, "properties"), "text");
    let font_size = get(get(text_level, "properties"), "font_size");
    assert_eq!(text(get(font_size, "description")), "字号");
    assert!(!has(font_size, "format"));
    assert!(has(get(text_level, "properties"), "line_height"));
    let theme_def = get(get(root, "$defs"), "Theme");
    match get(theme_def, "oneOf") {
        JsonValue::Array(entries) => {
            assert_eq!(entries.len(), 1);
            assert_eq!(text(get(&entries[0], "description")), "深色主题");
        }
        other => panic!("unexpected {other:?}"),
    }
}

#[test]
fn schema_without_definitions_has_no_defs_member() {
    let inputs = vec![input("theme", None, "Theme", obj(vec![("type", s("string"))]))];
    let generated =
        generate_settings_schema(&inputs, Vec::new(), "dev", &catalogs(), LocaleId::EnUs).unwrap();
    assert!(!has(&generated.value, "$defs"));
    assert_eq!(
        text(get(&generated.value, "description")),
        "JSON Schema for Warp settings (dev channel, 1 settings)"
    );
}

#[test]
fn generated_schema_uses_unambiguous_translations() {
    let inputs = vec![input(
        "theme",
        None,
        "Theme",
        obj(vec![("type", s("string")), ("title", s("Dark theme"))]),
    )];
    let generated =
        generate_settings_schema(&inputs, Vec::new(), "dev", &catalogs(), LocaleId::ZhCn).unwrap();
    let theme = get(get(&generated.value, "properties"), "theme");
    assert_eq!(text(get(theme, "title")), "深色主题");
    // No Chinese text for the description's key: the English one stays.
    assert_eq!(text(get(theme, "description")), "Theme");
}

#[test]
fn hierarchy_level_taken_by_a_setting_is_a_conflict() {
    // The `appearance` level exists, but its `properties` is not an object.
    let inputs = vec![
        input("appearance", None, "", obj(vec![("type", s("string")), ("properties", s("x"))])),
        input("font_size", Some("appearance"), "", obj(vec![("type", s("integer"))])),
    ];
    let result = assemble_settings_schema(&inputs, Vec::new(), "dev", &catalogs(), LocaleId::EnUs, &Vec::new());
    assert!(matches!(result, Err(SchemaError::HierarchyConflict)));
}

#[test]
fn root_description_with_unknown_placeholder_is_an_error() {
    let mut c = catalogs();
    for (k, v) in c.catalogs[0].entries.iter_mut() {
        if k == "settings.schema.root.description" {
            *v = "{unknown}".to_string();
        }
    }
    let inputs = vec![input("theme", None, "", obj(vec![("type", s("string"))]))];
    let result = assemble_settings_schema(&inputs, Vec::new(), "dev", &c, LocaleId::EnUs, &Vec::new());
    assert!(matches!(result, Err(SchemaError::RootDescription(_))));
}

/// The same shape, up to the text of `description` and `title` strings.
fn same_up_to_text(a: &JsonValue, b: &JsonValue) -> bool {
    match (a, b) {
        (JsonValue::Array(x), JsonValue::Array(y)) => {
            x.len() == y.len() && x.iter().zip(y.iter()).all(|(p, q)| same_up_to_text(p, q))
        }
        (JsonValue::Object(x), JsonValue::Object(y)) => {
            x.len() == y.len()
                && x.iter().zip(y.iter()).all(|((kp, p), (kq, q))| {
                    kp == kq
                        && (((kp == "description" || kp == "title")
                            && matches!(p, JsonValue::Str(_))
                            && matches!(q, JsonValue::Str(_)))
                            || same_up_to_text(p, q))
                })
        }
        _ => same(a, b),
    }
}

#[test]
fn english_and_chinese_schemas_share_their_structure() {
    let inputs = vec![
        input(
            "font_size",
            Some("appearance.text"),
            "Font size",
            obj(vec![("type", s("integer")), ("minimum", n("1"))]),
        ),
        input("theme", None, "Theme", obj(vec![("type", s("string")), ("title", s("Dark theme"))])),
    ];
    let en = generate_settings_schema(&inputs, Vec::new(), "stable", &catalogs(), LocaleId::EnUs).unwrap();
    let zh = generate_settings_schema(&inputs, Vec::new(), "stable", &catalogs(), LocaleId::ZhCn).unwrap();
    assert_eq!(en.entry_count, 2);
    assert_eq!(en.entry_count, zh.entry_count);
    assert!(same_up_to_text(&en.value, &zh.value), "{:?}\n{:?}", en.value, zh.value);
    assert!(!same(&en.value, &zh.value));
}
