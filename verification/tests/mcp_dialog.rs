use warp_app::localization::{Catalog, CatalogBundle, LocaleId};
use warp_app::mcp_dialog::{
    DestructiveMCPConfirmationDialog, DestructiveMCPConfirmationDialogAction,
    DestructiveMCPConfirmationDialogEvent, DestructiveMCPConfirmationDialogVariant,
};

fn catalogs() -> CatalogBundle {
    let en = [
        ("settings.mcp.confirmation.delete_local.title", "Delete MCP server?"),
        ("settings.mcp.confirmation.delete_local.description", "This removes it from this device."),
        ("settings.mcp.confirmation.unshare.title", "Remove from team?"),
        ("settings.mcp.confirmation.unshare.description", "Teammates lose access."),
        ("settings.mcp.edit.delete_mcp", "Delete MCP"),
        ("settings.mcp.edit.remove_from_team", "Remove from team"),
        ("settings.action.cancel", "Cancel"),
    ];
    let zh = [("settings.action.cancel", "取消"), ("settings.mcp.edit.delete_mcp", "删除 MCP")];
    CatalogBundle {
        default_locale: LocaleId::EnUs,
        catalogs: vec![
            Catalog {
                locale: LocaleId::EnUs,
                entries: en.iter().map(|(k, v)| (k.to_string(), v.to_string())).collect(),
            },
            Catalog {
                locale: LocaleId::ZhCn,
                entries: zh.iter().map(|(k, v)| (k.to_string(), v.to_string())).collect(),
            },
        ],
    }
}

#[test]
fn dialog_shows_renders_and_closes() {
    let c = catalogs();
    let mut dialog = DestructiveMCPConfirmationDialog::new();
    assert!(!dialog.visible);
    assert!(dialog.render(&c, LocaleId::EnUs).is_none());

    dialog.show(DestructiveMCPConfirmationDialogVariant::Unshare, &c, LocaleId::EnUs);
    assert!(dialog.visible);
    assert_eq!(dialog.confirm_button_label, "Remove from team");
    assert_eq!(dialog.cancel_button_label, "Cancel");
    let options = dialog.render(&c, LocaleId::EnUs).expect("visible dialog renders");
    assert_eq!(options.title_text, "Remove from team?");
    assert_eq!(options.description_text, "Teammates lose access.");

    assert_eq!(
        dialog.handle_action(DestructiveMCPConfirmationDialogAction::Confirm),
        DestructiveMCPConfirmationDialogEvent::Confirm(DestructiveMCPConfirmationDialogVariant::Unshare)
    );
    assert_eq!(
        dialog.handle_action(DestructiveMCPConfirmationDialogAction::Cancel),
        DestructiveMCPConfirmationDialogEvent::Cancel
    );

    dialog.close();
    assert!(!dialog.visible);
    assert_eq!(dialog.variant, DestructiveMCPConfirmationDialogVariant::Unshare);
    assert!(dialog.render(&c, LocaleId::EnUs).is_none());
}

#[test]
fn dialog_texts_follow_the_locale() {
    let c = catalogs();
    let options = DestructiveMCPConfirmationDialogVariant::DeleteLocal.display_options(&c, LocaleId::ZhCn);
    assert_eq!(options.cancel_button_label, "取消");
    assert_eq!(options.confirm_button_label, "删除 MCP");
    assert_eq!(options.title_text, "Delete MCP server?");
    let shared = DestructiveMCPConfirmationDialogVariant::DeleteShared.display_options(&c, LocaleId::EnUs);
    assert_eq!(shared.confirm_button_label, "Delete MCP");
    assert_eq!(shared.title_text, "settings.mcp.confirmation.delete_shared.title");
}
