//! Assembles the JSON Schema of the user-facing settings: which settings
//! it lists on a release channel, where each one nests, what its entry
//! says, and the clean-up passes over the whole document.

use vstd::prelude::*;

use crate::json_shape::{
    lemma_insert_at_same, lemma_localize_same, lemma_map_set_same, lemma_members_char,
    lemma_members_refl, lemma_same_structure_refl, lemma_strip_enum_same, lemma_strip_numeric_same,
    member_pair, same_structure, same_structure_members,
};
use crate::json_tree::{
    law_localize_depends_on_lookups,
    char_seqs, duplicate, insert_at, insert_at_spec, items_view, json_view, lemma_items_view, lemma_members_view, localize_schema_descriptions,
    localize_spec, map_set, members_view, set_member, strip_empty_enum_entries, strip_enum_spec,
    strip_numeric_metadata, strip_numeric_spec, JsonValue, JsonView,
};
use crate::localization::{fill_spec, lookup_spec, text_spec, CatalogBundle, LocaleId, PlaceholderError, TranslationSource};
use crate::schema::{
    entries_of, localized_catalog_text_by_default_text, localized_setting_description, root_description,
    root_title, schema_translation_key_spec, setting_surface_names, unambiguous_translations_ok,
    translations_of, SettingSchemaEntry, SettingSurfaces,
};
use crate::template::{lookup_arg, pairs_view};
use crate::text::{chars_eq, chars_of, decimal_spec, split_chars, split_spec};

verus! {

/// The flag lists of the release channels that hold a feature flag.
#[derive(Clone, Copy, Debug)]
pub struct FeatureFlagLists {
    pub release: bool,
    pub preview: bool,
    pub dogfood: bool,
    pub debug: bool,
}

/// Whether a flag is on for `channel`: stable turns on the release flags,
/// preview also the preview flags, and dev (or any other name) every list.
pub open spec fn flag_active_spec(lists: FeatureFlagLists, channel: Seq<char>) -> bool {
    if channel == "stable"@ {
        lists.release
    } else if channel == "preview"@ {
        lists.release || lists.preview
    } else {
        lists.release || lists.preview || lists.dogfood || lists.debug
    }
}

/// Whether a flag is on for `channel` (see [`flag_active_spec`]).
pub fn flag_active_for_channel(lists: FeatureFlagLists, channel: &str) -> (r: bool)
    ensures
        r == flag_active_spec(lists, channel@),
{
    let c = chars_of(channel);
    let stable = chars_of("stable");
    let preview = chars_of("preview");
    if chars_eq(c.as_slice(), stable.as_slice()) {
        lists.release
    } else if chars_eq(c.as_slice(), preview.as_slice()) {
        lists.release || lists.preview
    } else {
        lists.release || lists.preview || lists.dogfood || lists.debug
    }
}

/// A registered setting with what the schema generator and the settings
/// registry give for it.
#[derive(Debug)]
pub struct SettingSchemaInput {
    pub entry: SettingSchemaEntry,
    /// Private settings are left out of the schema.
    pub is_private: bool,
    /// The feature flag that gates the setting, if any.
    pub feature_flag: Option<FeatureFlagLists>,
    pub surfaces: SettingSurfaces,
    /// The schema of the setting's type; always an object.
    pub schema: JsonValue,
    /// The setting's default as it is written to the settings file, where
    /// that text is JSON.
    pub default_value: Option<JsonValue>,
}

/// Whether a setting is listed on `channel`: it is public, and its flag,
/// if it has one, is on.
pub open spec fn listed_spec(input: SettingSchemaInput, channel: Seq<char>) -> bool {
    !input.is_private && match input.feature_flag {
        None => true,
        Some(lists) => flag_active_spec(lists, channel),
    }
}

/// The frontends of a setting as JSON strings, GUI first.
pub open spec fn surfaces_json(s: SettingSurfaces) -> Seq<JsonView> {
    (if s.gui {
        seq![JsonView::Str("gui"@)]
    } else {
        Seq::empty()
    }) + (if s.tui {
        seq![JsonView::Str("tui"@)]
    } else {
        Seq::empty()
    })
}

/// A setting's description in `locale`: the catalog's text where a catalog
/// has the setting's key, else the setting's own.
pub open spec fn localized_description_spec(b: CatalogBundle, locale: LocaleId, e: SettingSchemaEntry) -> Seq<
    char,
> {
    if lookup_spec(b, locale, schema_translation_key_spec(e)).1 == TranslationSource::Key {
        e.description@
    } else {
        lookup_spec(b, locale, schema_translation_key_spec(e)).0
    }
}

/// The members of a setting's schema in the document: those of its type's
/// schema with `x-warp-surfaces` set to its frontends, `default` to its
/// default where it has one, and `description` to its localized
/// description where it has a description.
pub open spec fn entry_schema_members(input: SettingSchemaInput, b: CatalogBundle, locale: LocaleId) -> Seq<
    (Seq<char>, JsonView),
> {
    let base = match json_view(input.schema) {
        JsonView::Object(members) => members,
        _ => Seq::empty(),
    };
    let with_surfaces = map_set(base, "x-warp-surfaces"@, JsonView::Array(surfaces_json(input.surfaces)));
    let with_default = match input.default_value {
        Some(d) => map_set(with_surfaces, "default"@, json_view(d)),
        None => with_surfaces,
    };
    if input.entry.description@.len() > 0 {
        map_set(
            with_default,
            "description"@,
            JsonView::Str(localized_description_spec(b, locale, input.entry)),
        )
    } else {
        with_default
    }
}

fn surfaces_value(surfaces: SettingSurfaces) -> (r: JsonValue)
    ensures
        json_view(r) == JsonView::Array(surfaces_json(surfaces)),
{
    let mut items: Vec<JsonValue> = Vec::new();
    if surfaces.gui {
        items.push(JsonValue::Str("gui".to_owned()));
    }
    if surfaces.tui {
        items.push(JsonValue::Str("tui".to_owned()));
    }
    proof {
        lemma_items_view(items@);
        assert(items_view(items@) =~= surfaces_json(surfaces));
    }
    JsonValue::Array(items)
}

/// A setting's schema in the document (see [`entry_schema_members`]).
pub fn schema_for_entry(input: &SettingSchemaInput, catalogs: &CatalogBundle, locale: LocaleId) -> (r: JsonValue)
    requires
        json_view(input.schema) is Object,
    ensures
        json_view(r) == JsonView::Object(entry_schema_members(*input, *catalogs, locale)),
{
    let copy = duplicate(&input.schema);
    let mut members: Vec<(String, JsonValue)> = match copy {
        JsonValue::Object(members) => members,
        _ => {
            proof {
                assert(false);
            }
            Vec::new()
        },
    };
    set_member(&mut members, "x-warp-surfaces".to_owned(), surfaces_value(input.surfaces));
    match &input.default_value {
        Some(d) => set_member(&mut members, "default".to_owned(), duplicate(d)),
        None => {},
    }
    if !input.entry.description.as_str().is_empty() {
        let text = localized_setting_description(catalogs, locale, &input.entry);
        set_member(&mut members, "description".to_owned(), JsonValue::Str(text));
    }
    JsonValue::Object(members)
}


/// The levels a setting nests under: its hierarchy split at each `.`.
pub open spec fn hierarchy_segments(e: SettingSchemaEntry) -> Seq<Seq<char>> {
    match e.hierarchy {
        Some(h) => split_spec(h@, '.'),
        None => Seq::empty(),
    }
}

/// The `properties` of the document after the settings `inputs` are added
/// in order, each listed one nested under its hierarchy, with how many were
/// listed; `None` where a level of a hierarchy is taken by something that
/// is not an object.
pub open spec fn properties_spec(
    inputs: Seq<SettingSchemaInput>,
    channel: Seq<char>,
    b: CatalogBundle,
    locale: LocaleId,
) -> Option<(Seq<(Seq<char>, JsonView)>, nat)>
    decreases inputs.len(),
{
    if inputs.len() == 0 {
        Some((Seq::empty(), 0))
    } else {
        match properties_spec(inputs.drop_last(), channel, b, locale) {
            None => None,
            Some((properties, count)) => {
                let input = inputs.last();
                if !listed_spec(input, channel) {
                    Some((properties, count))
                } else {
                    match insert_at_spec(
                        properties,
                        hierarchy_segments(input.entry),
                        input.entry.storage_key@,
                        JsonView::Object(entry_schema_members(input, b, locale)),
                    ) {
                        None => None,
                        Some(p) => Some((p, count + 1)),
                    }
                }
            },
        }
    }
}

/// The JSON Schema dialect the document declares.
pub open spec fn schema_dialect() -> Seq<char> {
    "https://json-schema.org/draft/2020-12/schema"@
}

/// The root of the document before clean-up: the dialect, the title and
/// description in `locale`, the settings under `properties`, and the shared
/// `definitions` under `$defs` when there are any. `None` where the
/// description's template names a placeholder other than the channel and
/// the number of settings.
pub open spec fn root_spec(
    properties: Seq<(Seq<char>, JsonView)>,
    count: nat,
    definitions: Seq<(Seq<char>, JsonView)>,
    channel: Seq<char>,
    b: CatalogBundle,
    locale: LocaleId,
) -> Option<JsonView> {
    match fill_spec(
        text_spec(b, locale, "settings.schema.root.description"@),
        seq![("channel"@, channel), ("entry_count"@, decimal_spec(count as int))],
    ) {
        None => None,
        Some(description) => Some(
            JsonView::Object(
                seq![
                    ("$schema"@, JsonView::Str(schema_dialect())),
                    ("title"@, JsonView::Str(text_spec(b, locale, "settings.schema.root.title"@))),
                    ("description"@, JsonView::Str(description)),
                    ("type"@, JsonView::Str("object"@)),
                    ("properties"@, JsonView::Object(properties)),
                ] + if definitions.len() > 0 {
                    seq![("$defs"@, JsonView::Object(definitions))]
                } else {
                    Seq::empty()
                },
            ),
        ),
    }
}

/// The clean-up of the whole document: translated descriptions and titles,
/// then no numeric bounds, then no empty enum buckets.
pub open spec fn cleanup_spec(v: JsonView, translations: Seq<(Seq<char>, Seq<char>)>) -> JsonView {
    strip_enum_spec(strip_numeric_spec(localize_spec(v, translations)))
}

/// Why a schema could not be assembled.
#[derive(Debug, Clone, PartialEq, Eq)]
pub enum SchemaError {
    /// A level of a setting's hierarchy is taken by a value that is not an
    /// object.
    HierarchyConflict,
    /// The root description's template names an unknown placeholder.
    RootDescription(PlaceholderError),
}

/// A generated schema and how many settings it lists.
#[derive(Debug)]
pub struct GeneratedSchema {
    pub value: JsonValue,
    pub entry_count: usize,
}

/// The outcome of assembling the schema of `inputs` (see
/// [`properties_spec`], [`root_spec`] and [`cleanup_spec`]).
pub open spec fn assembled_ok(
    inputs: Seq<SettingSchemaInput>,
    definitions: Seq<(Seq<char>, JsonView)>,
    channel: Seq<char>,
    b: CatalogBundle,
    locale: LocaleId,
    translations: Seq<(Seq<char>, Seq<char>)>,
    r: Result<GeneratedSchema, SchemaError>,
) -> bool {
    match properties_spec(inputs, channel, b, locale) {
        None => r == Err::<GeneratedSchema, SchemaError>(SchemaError::HierarchyConflict),
        Some((properties, count)) => match root_spec(properties, count, definitions, channel, b, locale) {
            None => r matches Err(SchemaError::RootDescription(_)),
            Some(root) => r matches Ok(g) && g.entry_count == count && json_view(g.value) == cleanup_spec(
                root,
                translations,
            ),
        },
    }
}

/// Every listed setting comes with an object schema.
pub open spec fn schemas_are_objects(inputs: Seq<SettingSchemaInput>, channel: Seq<char>) -> bool {
    forall|i: int|
        0 <= i < inputs.len() && listed_spec(#[trigger] inputs[i], channel) ==> json_view(inputs[i].schema) is Object
}

proof fn lemma_properties_none_persists(
    inputs: Seq<SettingSchemaInput>,
    n: int,
    channel: Seq<char>,
    b: CatalogBundle,
    locale: LocaleId,
)
    requires
        0 <= n <= inputs.len(),
        properties_spec(inputs.take(n), channel, b, locale) is None,
    ensures
        properties_spec(inputs, channel, b, locale) is None,
    decreases inputs.len() - n,
{
    if n < inputs.len() {
        assert(inputs.take(n + 1).drop_last() =~= inputs.take(n));
        lemma_properties_none_persists(inputs, n + 1, channel, b, locale);
    } else {
        assert(inputs.take(n) =~= inputs);
    }
}

/// Assembles the settings schema for `channel` in `locale` from the
/// registered settings `inputs` (in registration order) and the shared
/// type definitions, with `translations` (English text to translated text)
/// for the clean-up (see [`assembled_ok`]).
pub fn assemble_settings_schema(
    inputs: &Vec<SettingSchemaInput>,
    definitions: Vec<(String, JsonValue)>,
    channel: &str,
    catalogs: &CatalogBundle,
    locale: LocaleId,
    translations: &Vec<(String, String)>,
) -> (r: Result<GeneratedSchema, SchemaError>)
    requires
        schemas_are_objects(inputs@, channel@),
    ensures
        assembled_ok(
            inputs@,
            members_view(definitions@),
            channel@,
            *catalogs,
            locale,
            pairs_view(translations@),
            r,
        ),
{
    let mut properties: Vec<(String, JsonValue)> = Vec::new();
    let mut count: usize = 0;
    let mut i: usize = 0;
    assert(inputs@.take(0) =~= Seq::<SettingSchemaInput>::empty());
    assert(members_view(properties@) =~= Seq::<(Seq<char>, JsonView)>::empty());
    while i < inputs.len()
        invariant
            i <= inputs@.len(),
            schemas_are_objects(inputs@, channel@),
            count <= i,
            properties_spec(inputs@.take(i as int), channel@, *catalogs, locale) == Some(
                (members_view(properties@), count as nat),
            ),
        decreases inputs@.len() - i,
    {
        let ghost prefix = inputs@.take(i + 1);
        assert(prefix.drop_last() =~= inputs@.take(i as int));
        assert(prefix.last() == inputs@[i as int]);
        let input = &inputs[i];
        let listed = !input.is_private && match input.feature_flag {
            None => true,
            Some(lists) => flag_active_for_channel(lists, channel),
        };
        if listed {
            assert(listed_spec(inputs@[i as int], channel@));
            let schema = schema_for_entry(input, catalogs, locale);
            let segments: Vec<Vec<char>> = match &input.entry.hierarchy {
                Some(h) => {
                    let hc = chars_of(h.as_str());
                    split_chars(hc.as_slice(), '.')
                },
                None => Vec::new(),
            };
            proof {
                assert(char_seqs(segments@).skip(0) =~= hierarchy_segments(input.entry));
            }
            let ok = insert_at(&mut properties, &segments, 0, input.entry.storage_key.clone(), schema);
            if !ok {
                proof {
                    lemma_properties_none_persists(inputs@, i + 1, channel@, *catalogs, locale);
                }
                return Err(SchemaError::HierarchyConflict);
            }
            count = count + 1;
        }
        i = i + 1;
    }
    assert(inputs@.take(inputs@.len() as int) =~= inputs@);
    let description = match root_description(catalogs, locale, channel, count) {
        Ok(d) => d,
        Err(e) => {
            return Err(SchemaError::RootDescription(e));
        },
    };
    let ghost properties_view = members_view(properties@);
    let ghost definitions_view = members_view(definitions@);
    let has_definitions = definitions.len() > 0;
    proof {
        lemma_members_view(definitions@);
    }
    let mut root: Vec<(String, JsonValue)> = Vec::new();
    root.push(("$schema".to_owned(), JsonValue::Str("https://json-schema.org/draft/2020-12/schema".to_owned())));
    root.push(("title".to_owned(), JsonValue::Str(root_title(catalogs, locale))));
    root.push(("description".to_owned(), JsonValue::Str(description)));
    root.push(("type".to_owned(), JsonValue::Str("object".to_owned())));
    root.push(("properties".to_owned(), JsonValue::Object(properties)));
    if has_definitions {
        root.push(("$defs".to_owned(), JsonValue::Object(definitions)));
    }
    let mut value = JsonValue::Object(root);
    proof {
        lemma_members_view(root@);
        let head = seq![
            ("$schema"@, JsonView::Str(schema_dialect())),
            ("title"@, JsonView::Str(text_spec(*catalogs, locale, "settings.schema.root.title"@))),
            ("description"@, JsonView::Str(description@)),
            ("type"@, JsonView::Str("object"@)),
            ("properties"@, JsonView::Object(properties_view)),
        ];
        let tail = if definitions_view.len() > 0 {
            seq![("$defs"@, JsonView::Object(definitions_view))]
        } else {
            Seq::<(Seq<char>, JsonView)>::empty()
        };
        assert(members_view(root@) =~= head + tail);
        let expected = root_spec(properties_view, count as nat, definitions_view, channel@, *catalogs, locale);
        assert(expected == Some(JsonView::Object(head + tail)));
    }
    localize_schema_descriptions(&mut value, translations);
    strip_numeric_metadata(&mut value);
    strip_empty_enum_entries(&mut value);
    Ok(GeneratedSchema { value, entry_count: count })
}


/// The translations the clean-up uses in `locale`: none in US English, else
/// the unambiguous ones (see [`unambiguous_translations_ok`]).
pub open spec fn schema_translations_ok(
    b: CatalogBundle,
    locale: LocaleId,
    translations: Seq<(Seq<char>, Seq<char>)>,
) -> bool {
    if locale == LocaleId::EnUs {
        translations.len() == 0
    } else {
        unambiguous_translations_ok(entries_of(b, LocaleId::EnUs), entries_of(b, locale), translations)
    }
}

/// Generates the settings schema for `channel` in `locale`: assembles it
/// (see [`assemble_settings_schema`]) with the unambiguous translations of
/// the catalogs' English texts.
pub fn generate_settings_schema(
    inputs: &Vec<SettingSchemaInput>,
    definitions: Vec<(String, JsonValue)>,
    channel: &str,
    catalogs: &CatalogBundle,
    locale: LocaleId,
) -> (r: Result<GeneratedSchema, SchemaError>)
    requires
        schemas_are_objects(inputs@, channel@),
    ensures
        exists|translations: Seq<(Seq<char>, Seq<char>)>|
            schema_translations_ok(*catalogs, locale, translations) && #[trigger] assembled_ok(
                inputs@,
                members_view(definitions@),
                channel@,
                *catalogs,
                locale,
                translations,
                r,
            ),
{
    let ghost definitions_view = members_view(definitions@);
    let translations = localized_catalog_text_by_default_text(catalogs, locale);
    let r = assemble_settings_schema(inputs, definitions, channel, catalogs, locale, &translations);
    assert(schema_translations_ok(*catalogs, locale, pairs_view(translations@)));
    assert(assembled_ok(inputs@, definitions_view, channel@, *catalogs, locale, pairs_view(translations@), r));
    r
}


proof fn lemma_lookup_arg_found(args: Seq<(Seq<char>, Seq<char>)>, name: Seq<char>)
    ensures
        match lookup_arg(args, name) {
            Some(v) => exists|j: int| 0 <= j < args.len() && #[trigger] args[j] == (name, v),
            None => forall|j: int| 0 <= j < args.len() ==> (#[trigger] args[j]).0 != name,
        },
    decreases args.len(),
{
    if args.len() > 0 && args[0].0 != name {
        lemma_lookup_arg_found(args.drop_first(), name);
        match lookup_arg(args.drop_first(), name) {
            Some(v) => {
                let j = choose|j: int| 0 <= j < args.drop_first().len() && #[trigger] args.drop_first()[j]
                    == (name, v);
                assert(args[j + 1] == (name, v));
            },
            None => {
                assert forall|j: int| 0 <= j < args.len() implies (#[trigger] args[j]).0 != name by {
                    if j > 0 {
                        assert(args[j] == args.drop_first()[j - 1]);
                    }
                }
            },
        }
    } else if args.len() > 0 {
        assert(args[0] == (name, args[0].1));
    }
}

proof fn lemma_lookup_arg_unique(args: Seq<(Seq<char>, Seq<char>)>, name: Seq<char>, j: int)
    requires
        0 <= j < args.len(),
        args[j].0 == name,
        forall|a: int, b: int| 0 <= a < b < args.len() ==> args[a].0 != args[b].0,
    ensures
        lookup_arg(args, name) == Some(args[j].1),
    decreases args.len(),
{
    if j > 0 {
        assert(args[0].0 != name);
        let rest = args.drop_first();
        assert forall|a: int, b: int| 0 <= a < b < rest.len() implies rest[a].0 != rest[b].0 by {
            assert(rest[a] == args[a + 1] && rest[b] == args[b + 1]);
        }
        lemma_lookup_arg_unique(rest, name, j - 1);
    }
}

/// Any two lists of unambiguous translations translate every text alike:
/// they differ at most in their order.
pub proof fn law_unambiguous_translations_agree(
    defaults: Seq<(Seq<char>, Seq<char>)>,
    locale_entries: Seq<(Seq<char>, Seq<char>)>,
    t1: Seq<(Seq<char>, Seq<char>)>,
    t2: Seq<(Seq<char>, Seq<char>)>,
    text: Seq<char>,
)
    requires
        unambiguous_translations_ok(defaults, locale_entries, t1),
        unambiguous_translations_ok(defaults, locale_entries, t2),
    ensures
        lookup_arg(t1, text) == lookup_arg(t2, text),
{
    lemma_lookup_arg_found(t1, text);
    lemma_lookup_arg_found(t2, text);
    match lookup_arg(t1, text) {
        Some(x) => {
            let j = choose|j: int| 0 <= j < t1.len() && #[trigger] t1[j] == (text, x);
            assert(translations_of(defaults, locale_entries, t1[j].0) == set![t1[j].1]);
            assert(translations_of(defaults, locale_entries, text) == set![x]);
            let k = choose|k: int| 0 <= k < t2.len() && #[trigger] t2[k] == (text, x);
            lemma_lookup_arg_unique(t2, text, k);
        },
        None => {
            if let Some(y) = lookup_arg(t2, text) {
                let k = choose|k: int| 0 <= k < t2.len() && #[trigger] t2[k] == (text, y);
                assert(translations_of(defaults, locale_entries, t2[k].0) == set![t2[k].1]);
                assert(translations_of(defaults, locale_entries, text) == set![y]);
                let j = choose|j: int| 0 <= j < t1.len() && #[trigger] t1[j] == (text, y);
                assert(t1[j].0 == text);
            }
        },
    }
}


/// The schema does not depend on which list of unambiguous translations is
/// used: what one list assembles, any other assembles too.
pub proof fn law_generated_schema_is_determined(
    inputs: Seq<SettingSchemaInput>,
    definitions: Seq<(Seq<char>, JsonView)>,
    channel: Seq<char>,
    b: CatalogBundle,
    locale: LocaleId,
    t1: Seq<(Seq<char>, Seq<char>)>,
    t2: Seq<(Seq<char>, Seq<char>)>,
    r: Result<GeneratedSchema, SchemaError>,
)
    requires
        schema_translations_ok(b, locale, t1),
        schema_translations_ok(b, locale, t2),
        assembled_ok(inputs, definitions, channel, b, locale, t1, r),
    ensures
        assembled_ok(inputs, definitions, channel, b, locale, t2, r),
{
    assert forall|text: Seq<char>| #[trigger] lookup_arg(t1, text) == lookup_arg(t2, text) by {
        if locale == LocaleId::EnUs {
            assert(t1.len() == 0 && t2.len() == 0);
        } else {
            law_unambiguous_translations_agree(
                entries_of(b, LocaleId::EnUs),
                entries_of(b, locale),
                t1,
                t2,
                text,
            );
        }
    }
    if let Some((properties, count)) = properties_spec(inputs, channel, b, locale) {
        if let Some(root) = root_spec(properties, count, definitions, channel, b, locale) {
            law_localize_depends_on_lookups(root, t1, t2);
        }
    }
}

/// A setting's entry has the same structure in every locale: only its
/// description's text differs.
proof fn lemma_entry_members_same(input: SettingSchemaInput, b: CatalogBundle, l1: LocaleId, l2: LocaleId)
    ensures
        same_structure_members(entry_schema_members(input, b, l1), entry_schema_members(input, b, l2)),
{
    let base = match json_view(input.schema) {
        JsonView::Object(members) => members,
        _ => Seq::empty(),
    };
    let with_surfaces = map_set(base, "x-warp-surfaces"@, JsonView::Array(surfaces_json(input.surfaces)));
    let with_default = match input.default_value {
        Some(d) => map_set(with_surfaces, "default"@, json_view(d)),
        None => with_surfaces,
    };
    lemma_members_refl(with_default);
    lemma_map_set_same(
        with_default,
        with_default,
        "description"@,
        JsonView::Str(localized_description_spec(b, l1, input.entry)),
        JsonView::Str(localized_description_spec(b, l2, input.entry)),
    );
}

/// The settings nest alike in every locale: nesting fails in both or in
/// neither, and otherwise lists as many settings, in properties of the same
/// structure.
proof fn lemma_properties_same(
    inputs: Seq<SettingSchemaInput>,
    channel: Seq<char>,
    b: CatalogBundle,
    l1: LocaleId,
    l2: LocaleId,
)
    ensures
        properties_spec(inputs, channel, b, l1) is None <==> properties_spec(inputs, channel, b, l2) is None,
        properties_spec(inputs, channel, b, l1) is Some ==> {
            let (p1, c1) = properties_spec(inputs, channel, b, l1)->0;
            let (p2, c2) = properties_spec(inputs, channel, b, l2)->0;
            c1 == c2 && same_structure_members(p1, p2)
        },
    decreases inputs.len(),
{
    if inputs.len() > 0 {
        lemma_properties_same(inputs.drop_last(), channel, b, l1, l2);
        if let Some((p1, c1)) = properties_spec(inputs.drop_last(), channel, b, l1) {
            let (p2, c2) = properties_spec(inputs.drop_last(), channel, b, l2)->0;
            let input = inputs.last();
            if listed_spec(input, channel) {
                lemma_entry_members_same(input, b, l1, l2);
                let e1 = JsonView::Object(entry_schema_members(input, b, l1));
                let e2 = JsonView::Object(entry_schema_members(input, b, l2));
                assert(same_structure(e1, e2));
                lemma_insert_at_same(
                    p1,
                    p2,
                    hierarchy_segments(input.entry),
                    input.entry.storage_key@,
                    e1,
                    e2,
                );
            }
        }
    }
}

/// Roots built in two locales from properties of the same structure have
/// the same structure: their title and description are text.
proof fn lemma_root_same(
    p1: Seq<(Seq<char>, JsonView)>,
    p2: Seq<(Seq<char>, JsonView)>,
    count: nat,
    definitions: Seq<(Seq<char>, JsonView)>,
    channel: Seq<char>,
    b: CatalogBundle,
    l1: LocaleId,
    l2: LocaleId,
)
    requires
        same_structure_members(p1, p2),
        root_spec(p1, count, definitions, channel, b, l1) is Some,
        root_spec(p2, count, definitions, channel, b, l2) is Some,
    ensures
        same_structure(
            root_spec(p1, count, definitions, channel, b, l1)->0,
            root_spec(p2, count, definitions, channel, b, l2)->0,
        ),
{
    let args = seq![("channel"@, channel), ("entry_count"@, decimal_spec(count as int))];
    let d1 = fill_spec(text_spec(b, l1, "settings.schema.root.description"@), args)->0;
    let d2 = fill_spec(text_spec(b, l2, "settings.schema.root.description"@), args)->0;
    let tail: Seq<(Seq<char>, JsonView)> = if definitions.len() > 0 {
        seq![("$defs"@, JsonView::Object(definitions))]
    } else {
        Seq::empty()
    };
    let m1 = seq![
        ("$schema"@, JsonView::Str(schema_dialect())),
        ("title"@, JsonView::Str(text_spec(b, l1, "settings.schema.root.title"@))),
        ("description"@, JsonView::Str(d1)),
        ("type"@, JsonView::Str("object"@)),
        ("properties"@, JsonView::Object(p1)),
    ] + tail;
    let m2 = seq![
        ("$schema"@, JsonView::Str(schema_dialect())),
        ("title"@, JsonView::Str(text_spec(b, l2, "settings.schema.root.title"@))),
        ("description"@, JsonView::Str(d2)),
        ("type"@, JsonView::Str("object"@)),
        ("properties"@, JsonView::Object(p2)),
    ] + tail;
    lemma_same_structure_refl(JsonView::Str(schema_dialect()));
    lemma_same_structure_refl(JsonView::Str("object"@));
    lemma_same_structure_refl(JsonView::Object(definitions));
    assert(same_structure(JsonView::Object(p1), JsonView::Object(p2)));
    assert forall|i: int| 0 <= i < m1.len() implies #[trigger] member_pair(m1[i], m2[i]) by {
        if i < 5 {
            assert(m1[i] == seq![
                ("$schema"@, JsonView::Str(schema_dialect())),
                ("title"@, JsonView::Str(text_spec(b, l1, "settings.schema.root.title"@))),
                ("description"@, JsonView::Str(d1)),
                ("type"@, JsonView::Str("object"@)),
                ("properties"@, JsonView::Object(p1)),
            ][i]);
            assert(m2[i] == seq![
                ("$schema"@, JsonView::Str(schema_dialect())),
                ("title"@, JsonView::Str(text_spec(b, l2, "settings.schema.root.title"@))),
                ("description"@, JsonView::Str(d2)),
                ("type"@, JsonView::Str("object"@)),
                ("properties"@, JsonView::Object(p2)),
            ][i]);
        } else {
            assert(m1[i] == tail[i - 5] && m2[i] == tail[i - 5]);
        }
    }
    lemma_members_char(m1, m2);
    assert(same_structure(JsonView::Object(m1), JsonView::Object(m2)));
}

/// The schemas of one set of settings in two locales are alike: a setting
/// that cannot be nested fails both, and two schemas that were generated list
/// as many settings and have the same structure, differing at most in the
/// text of their `description` and `title` strings.
pub proof fn law_locales_share_structure(
    inputs: Seq<SettingSchemaInput>,
    definitions: Seq<(Seq<char>, JsonView)>,
    channel: Seq<char>,
    b: CatalogBundle,
    l1: LocaleId,
    t1: Seq<(Seq<char>, Seq<char>)>,
    r1: Result<GeneratedSchema, SchemaError>,
    l2: LocaleId,
    t2: Seq<(Seq<char>, Seq<char>)>,
    r2: Result<GeneratedSchema, SchemaError>,
)
    requires
        assembled_ok(inputs, definitions, channel, b, l1, t1, r1),
        assembled_ok(inputs, definitions, channel, b, l2, t2, r2),
    ensures
        (r1 == Err::<GeneratedSchema, SchemaError>(SchemaError::HierarchyConflict)) <==> (r2
            == Err::<GeneratedSchema, SchemaError>(SchemaError::HierarchyConflict)),
        match (r1, r2) {
            (Ok(g1), Ok(g2)) => g1.entry_count == g2.entry_count && same_structure(
                json_view(g1.value),
                json_view(g2.value),
            ),
            _ => true,
        },
{
    lemma_properties_same(inputs, channel, b, l1, l2);
    if let Some((p1, c1)) = properties_spec(inputs, channel, b, l1) {
        let (p2, c2) = properties_spec(inputs, channel, b, l2)->0;
        if let (Some(root1), Some(root2)) = (
            root_spec(p1, c1, definitions, channel, b, l1),
            root_spec(p2, c2, definitions, channel, b, l2),
        ) {
            lemma_root_same(p1, p2, c1, definitions, channel, b, l1, l2);
            lemma_localize_same(root1, root2, t1, t2);
            lemma_strip_numeric_same(localize_spec(root1, t1), localize_spec(root2, t2));
            lemma_strip_enum_same(
                strip_numeric_spec(localize_spec(root1, t1)),
                strip_numeric_spec(localize_spec(root2, t2)),
            );
        }
    }
}

/// Channels nest: a flag on for stable is on for preview, and a flag on for
/// preview is on for every other channel, where a flag in any of the four
/// lists (release, preview, dogfood or debug) is on and no other.
pub proof fn law_channels_nest(lists: FeatureFlagLists, channel: Seq<char>)
    requires
        channel != "stable"@,
        channel != "preview"@,
    ensures
        flag_active_spec(lists, "stable"@) ==> flag_active_spec(lists, "preview"@),
        flag_active_spec(lists, "preview"@) ==> flag_active_spec(lists, channel),
        lists.release ==> flag_active_spec(lists, channel),
        lists.preview ==> flag_active_spec(lists, channel),
        lists.dogfood ==> flag_active_spec(lists, channel),
        lists.debug ==> flag_active_spec(lists, channel),
        !(lists.release || lists.preview || lists.dogfood || lists.debug) ==> !flag_active_spec(
            lists,
            channel,
        ),
{
    reveal_strlit("stable");
    reveal_strlit("preview");
    assert("stable"@.len() != "preview"@.len());
}

/// On the dev channel every flag list is on: a debug-only flag too.
pub proof fn law_dev_turns_on_every_list(lists: FeatureFlagLists)
    ensures
        flag_active_spec(lists, "dev"@) == (lists.release || lists.preview || lists.dogfood
            || lists.debug),
{
    reveal_strlit("dev");
    reveal_strlit("stable");
    reveal_strlit("preview");
    assert("dev"@.len() != "stable"@.len());
    assert("dev"@.len() != "preview"@.len());
    law_channels_nest(lists, "dev"@);
}

} // verus!
