use warp_app::localization::{Catalog, CatalogBundle, LocaleId};
use warp_app::palette::{
    AvailableShell, CommandContext, Direction, NavigationSearchItemAccessibilityCopy,
    NewSessionAction, NewSessionConfig, NewSessionOption, NewSessionOptionId,
    NewSessionSearchItemAccessibilityCopy,
};

fn pairs(items: &[(&str, &str)]) -> Vec<(String, String)> {
    items.iter().map(|(k, v)| (k.to_string(), v.to_string())).collect()
}

fn catalogs() -> CatalogBundle {
    let en = pairs(&[
        ("search.command_palette.a11y.selected_with_context", "Selected {name}, {context}"),
        ("search.navigation.a11y.last_run_command", "last ran {command}"),
        ("search.navigation.a11y.last_ai_interaction", "last asked {prompt}"),
        ("search.navigation.a11y.running_command", "running {command}"),
        ("search.navigation.a11y.running_ai_interaction", "asking {prompt}"),
        ("search.command_palette.a11y.help.navigate_session", "Press enter to navigate."),
        ("search.command_palette.a11y.selected", "Selected {name}"),
        ("search.command_palette.a11y.help.launch_session", "Press enter to launch."),
    ]);
    let zh = pairs(&[
        ("search.command_palette.a11y.selected_with_context", "已选择 {name}，{context}"),
        ("search.navigation.a11y.running_command", "正在运行 {command}"),
    ]);
    CatalogBundle {
        default_locale: LocaleId::EnUs,
        catalogs: vec![
            Catalog { locale: LocaleId::EnUs, entries: en },
            Catalog { locale: LocaleId::ZhCn, entries: zh },
        ],
    }
}

fn zsh() -> AvailableShell {
    AvailableShell { short_name: "zsh".to_string(), details: "/bin/zsh".to_string() }
}

#[test]
fn navigation_labels_describe_the_command_context() {
    let copy = NavigationSearchItemAccessibilityCopy::new(&catalogs(), LocaleId::EnUs);
    assert_eq!(copy.help, "Press enter to navigate.");
    assert_eq!(
        copy.accessibility_label(
            "~/code",
            &CommandContext::LastRunCommand { last_run_command: "ls -la".to_string() }
        ),
        "Selected ~/code, last ran ls -la"
    );
    assert_eq!(
        copy.accessibility_label("~/code", &CommandContext::RunningAIBlock { prompt: "fix it".to_string() }),
        "Selected ~/code, asking fix it"
    );
    assert_eq!(copy.accessibility_label("~/code", &CommandContext::NoCommand), "Selected ~/code, ");
    assert_eq!(copy.command_context_description(&CommandContext::NoCommand), None);
}

#[test]
fn navigation_labels_follow_the_locale() {
    let copy = NavigationSearchItemAccessibilityCopy::new(&catalogs(), LocaleId::ZhCn);
    assert_eq!(
        copy.accessibility_label(
            "tab",
            &CommandContext::RunningCommand { running_command: "cargo build".to_string() }
        ),
        "已选择 tab，正在运行 cargo build"
    );
    // Missing Chinese text falls back to US English.
    assert_eq!(copy.help, "Press enter to navigate.");
}

#[test]
fn placeholders_are_replaced_everywhere_in_order() {
    let copy = NavigationSearchItemAccessibilityCopy {
        selected_with_context_template: "{name}/{name} {context}".to_string(),
        last_run_command_template: String::new(),
        last_ai_interaction_template: String::new(),
        running_command_template: String::new(),
        running_ai_interaction_template: String::new(),
        help: String::new(),
    };
    // `{name}` is filled first, so a name that holds `{context}` is filled
    // again by the context.
    assert_eq!(copy.selected_label("{context}", "ctx"), "ctx/ctx ctx");
    assert_eq!(copy.selected_label("a", "{name}"), "a/a {name}");
}

#[test]
fn new_session_options() {
    let tab = NewSessionOption::new(NewSessionOptionId::new("a".to_string()), NewSessionConfig::NewTab(zsh()));
    assert_eq!(tab.description(), "Create New Tab: zsh");
    assert_eq!(tab.details(), "/bin/zsh");
    assert_eq!(tab.id(), &NewSessionOptionId("a".to_string()));
    let m = tab.localized_description("Zsh");
    assert_eq!(m.key, "search.command_palette.new_session.new_tab");
    assert_eq!(m.args, vec![("shell".to_string(), "Zsh".to_string())]);
    assert!(matches!(tab.action(), NewSessionAction::AddTabWithShell(s) if s.short_name == "zsh"));

    let split = NewSessionOption::new(
        NewSessionOptionId::new("b".to_string()),
        NewSessionConfig::Split(Direction::Left, zsh()),
    );
    assert_eq!(split.description(), "Split Pane Left: zsh");
    assert_eq!(split.localized_description("zsh").key, "search.command_palette.new_session.split_left");
    assert!(matches!(split.action(), NewSessionAction::SplitLeft(_)));

    let window = NewSessionOption::new(
        NewSessionOptionId::new("c".to_string()),
        NewSessionConfig::NewWindow(zsh()),
    );
    assert_eq!(window.description(), "Create New Window: zsh");
    assert!(matches!(window.action(), NewSessionAction::AddWindowWithShell(_)));

    assert_eq!(Direction::Down.name(), "Down");
    assert_eq!(Direction::Up.new_session_translation_key(), "search.command_palette.new_session.split_up");
}

#[test]
fn new_session_accessibility_copy() {
    let copy = NewSessionSearchItemAccessibilityCopy::new(&catalogs(), LocaleId::EnUs);
    assert_eq!(copy.selected_label("Create New Tab: zsh"), "Selected Create New Tab: zsh");
    assert_eq!(copy.help, "Press enter to launch.");
}
