use warp_app::host_picker::{
    build_menu_items, menu_label_for, normalize_slug, DropdownAction, HostPickerLabels,
    InternalAction, MenuItem, ORCHESTRATION_WARP_WORKER_HOST,
};

fn english_labels() -> HostPickerLabels {
    HostPickerLabels {
        custom_host: "Custom host...".to_string(),
        default_badge: "Default".to_string(),
    }
}

fn item_label(item: &MenuItem) -> &str {
    match item {
        MenuItem::Item(fields) => fields.label(),
    }
}

fn item_action(item: &MenuItem) -> &DropdownAction {
    match item {
        MenuItem::Item(fields) => fields
            .on_select_action()
            .expect("test items always have a select action"),
    }
}

#[test]
fn build_menu_items_with_no_defaults_shows_warp_and_custom() {
    let labels = english_labels();
    let items = build_menu_items(None, None, &[], &labels);
    assert_eq!(items.len(), 2, "expected warp + custom-host entries");
    assert_eq!(item_label(&items[0]), ORCHESTRATION_WARP_WORKER_HOST);
    assert_eq!(item_label(&items[1]), "Custom host...");
}

#[test]
fn build_menu_items_promotes_default_to_top() {
    let labels = english_labels();
    let items = build_menu_items(Some("my-corp"), None, &[], &labels);
    assert_eq!(items.len(), 3);
    assert_eq!(item_label(&items[0]), "my-corp  (Default)");
    assert_eq!(item_label(&items[1]), ORCHESTRATION_WARP_WORKER_HOST);
    assert_eq!(item_label(&items[2]), "Custom host...");
}

#[test]
fn build_menu_items_adds_recent_after_warp() {
    let labels = english_labels();
    let items = build_menu_items(None, Some("other-host"), &[], &labels);
    assert_eq!(items.len(), 3);
    assert_eq!(item_label(&items[0]), ORCHESTRATION_WARP_WORKER_HOST);
    assert_eq!(item_label(&items[1]), "other-host");
    assert_eq!(item_label(&items[2]), "Custom host...");
}

#[test]
fn build_menu_items_dedups_recent_when_it_matches_default_or_warp() {
    let labels = english_labels();
    let items = build_menu_items(Some("my-corp"), Some("my-corp"), &[], &labels);
    assert_eq!(items.len(), 3);
    assert_eq!(item_label(&items[0]), "my-corp  (Default)");
    assert_eq!(item_label(&items[1]), ORCHESTRATION_WARP_WORKER_HOST);
    assert_eq!(item_label(&items[2]), "Custom host...");

    let items = build_menu_items(Some("my-corp"), Some("warp"), &[], &labels);
    assert_eq!(items.len(), 3, "warp recent should not double-add");
}

#[test]
fn build_menu_items_adds_connected_hosts_before_recent_and_dedups_known_hosts() {
    let connected_hosts = vec![
        "alpha".to_string(),
        "warp".to_string(),
        "my-corp".to_string(),
        "alpha".to_string(),
        "beta".to_string(),
    ];
    let labels = english_labels();
    let items = build_menu_items(Some("my-corp"), Some("beta"), &connected_hosts, &labels);
    assert_eq!(items.len(), 5);
    assert_eq!(item_label(&items[0]), "my-corp  (Default)");
    assert_eq!(item_label(&items[1]), ORCHESTRATION_WARP_WORKER_HOST);
    assert_eq!(item_label(&items[2]), "alpha");
    assert_eq!(item_label(&items[3]), "beta");
    assert_eq!(item_label(&items[4]), "Custom host...");
}

#[test]
fn build_menu_items_warp_entry_dispatches_select_known_warp() {
    let labels = english_labels();
    let items = build_menu_items(None, None, &[], &labels);
    match item_action(&items[0]) {
        DropdownAction::SelectActionAndClose(action) => match action {
            InternalAction::SelectKnown(slug) => {
                assert_eq!(slug, ORCHESTRATION_WARP_WORKER_HOST);
            }
            other => panic!("expected SelectKnown, got {other:?}"),
        },
    }
}

#[test]
fn build_menu_items_custom_entry_dispatches_enter_custom_mode() {
    let labels = english_labels();
    let items = build_menu_items(None, None, &[], &labels);
    let custom = items.last().expect("custom entry is always last");
    match item_action(custom) {
        DropdownAction::SelectActionAndClose(action) => {
            assert_eq!(Some(action), Some(&InternalAction::EnterCustomMode));
        }
    }
}

#[test]
fn menu_label_for_picks_default_badge_when_slug_matches_default() {
    let labels = english_labels();
    let label = menu_label_for("my-corp", Some("my-corp"), &labels);
    assert_eq!(label, "my-corp  (Default)");
}

#[test]
fn menu_label_for_returns_plain_slug_for_warp() {
    let labels = english_labels();
    let label = menu_label_for(ORCHESTRATION_WARP_WORKER_HOST, Some("my-corp"), &labels);
    assert_eq!(label, ORCHESTRATION_WARP_WORKER_HOST);
}

#[test]
fn menu_label_for_returns_plain_slug_for_unknown_value() {
    let labels = english_labels();
    let label = menu_label_for("typed-once", Some("my-corp"), &labels);
    assert_eq!(label, "typed-once");
}

#[test]
fn normalize_slug_trims_whitespace_and_falls_back_to_warp_when_empty() {
    assert_eq!(normalize_slug("  my-corp  "), "my-corp");
    assert_eq!(normalize_slug(""), ORCHESTRATION_WARP_WORKER_HOST);
    assert_eq!(normalize_slug("   "), ORCHESTRATION_WARP_WORKER_HOST);
}

#[test]
fn known_hosts_are_listed_once_each_in_order() {
    // Law: no duplicates, every input listed, default first.
    let connected = vec!["b".to_string(), "a".to_string(), "b".to_string(), "warp".to_string()];
    let labels = english_labels();
    let items = build_menu_items(Some("a"), Some("c"), &connected, &labels);
    let names: Vec<&str> = items.iter().map(item_label).collect();
    assert_eq!(names, ["a  (Default)", "warp", "b", "c", "Custom host..."]);
}

#[test]
fn default_equal_to_warp_is_badged_once() {
    let labels = english_labels();
    let items = build_menu_items(Some("warp"), None, &[], &labels);
    let names: Vec<&str> = items.iter().map(item_label).collect();
    assert_eq!(names, ["warp  (Default)", "Custom host..."]);
}

#[test]
fn normalize_slug_trims_unicode_whitespace() {
    assert_eq!(normalize_slug("\u{3000}host\t\n"), "host");
}
