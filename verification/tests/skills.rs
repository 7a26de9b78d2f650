use warp_app::localization::LocaleId;
use warp_app::skills::{
    bundled_skill_activation, display_optional_path, frontmatter_value,
    localized_bundled_skill_description, mcp_integration_from_wire_id, skill_description,
    BundledSkillActivation, McpIntegration,
};

#[test]
fn unavailable_bundled_context_path_renders_as_empty_string() {
    assert_eq!(display_optional_path(None), "");
}

#[test]
fn localized_bundled_skill_description_accepts_windows_line_endings() {
    let content = "---\r\nname: test-skill\r\ndescription: English description\r\ndescription_zh_CN: 简体中文描述\r\n---\r\n\r\nbody\r\n";

    assert_eq!(
        localized_bundled_skill_description(content, LocaleId::ZhCn),
        Some("简体中文描述".to_string())
    );
}

#[test]
fn available_bundled_context_path_renders_as_is() {
    assert_eq!(display_optional_path(Some("/bundled/skills")), "/bundled/skills");
}

#[test]
fn english_keeps_the_skill_description() {
    let content = "---\nname: s\ndescription: English\ndescription_zh_CN: 中文\n---\nbody\n";
    assert_eq!(localized_bundled_skill_description(content, LocaleId::EnUs), None);
    assert_eq!(skill_description("English", content, LocaleId::EnUs), "English");
    assert_eq!(skill_description("English", content, LocaleId::ZhCn), "中文");
}

#[test]
fn description_outside_front_matter_is_ignored() {
    let content = "---\nname: s\n---\ndescription_zh_CN: 中文\n";
    assert_eq!(localized_bundled_skill_description(content, LocaleId::ZhCn), None);
    let no_front_matter = "description_zh_CN: 中文\n";
    assert_eq!(localized_bundled_skill_description(no_front_matter, LocaleId::ZhCn), None);
    let unterminated = "---\ndescription_zh_CN: 中文\n";
    assert_eq!(localized_bundled_skill_description(unterminated, LocaleId::ZhCn), None);
}

#[test]
fn empty_localized_description_is_ignored() {
    let content = "---\ndescription_zh_CN:   \n---\n";
    assert_eq!(frontmatter_value(content, "description_zh_CN"), Some(String::new()));
    assert_eq!(localized_bundled_skill_description(content, LocaleId::ZhCn), None);
}

#[test]
fn only_figma_is_a_known_integration() {
    assert_eq!(mcp_integration_from_wire_id("figma"), Some(McpIntegration::Figma));
    assert_eq!(mcp_integration_from_wire_id("Figma"), None);
    assert_eq!(bundled_skill_activation(None), Some(BundledSkillActivation::Always));
    assert_eq!(
        bundled_skill_activation(Some("figma")),
        Some(BundledSkillActivation::RequiresMcp(McpIntegration::Figma))
    );
    assert_eq!(bundled_skill_activation(Some("slack")), None);
}
