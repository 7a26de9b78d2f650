//! The dialog that confirms deleting or unsharing an MCP server.

use vstd::prelude::*;

use crate::localization::{text_spec, CatalogBundle, LocaleId};

verus! {

/// What the dialog reports.
#[derive(Clone, Debug, PartialEq, Eq, Structural)]
pub enum DestructiveMCPConfirmationDialogEvent {
    Cancel,
    Confirm(DestructiveMCPConfirmationDialogVariant),
}

/// What the user does in the dialog.
#[derive(Clone, Copy, Debug, PartialEq, Eq, Structural)]
pub enum DestructiveMCPConfirmationDialogAction {
    Cancel,
    Confirm,
}

/// What the dialog confirms.
#[derive(Clone, Copy, Debug, PartialEq, Eq, Structural)]
pub enum DestructiveMCPConfirmationDialogVariant {
    DeleteLocal,
    DeleteShared,
    Unshare,
}

/// The texts of the dialog.
#[derive(Clone, Debug)]
pub struct DestructiveMCPConfirmationDialogDisplayOptions {
    pub title_text: String,
    pub description_text: String,
    pub confirm_button_label: String,
    pub cancel_button_label: String,
}

impl DestructiveMCPConfirmationDialogDisplayOptions {
    pub fn new(
        title_text: String,
        description_text: String,
        confirm_button_label: String,
        cancel_button_label: String,
    ) -> (o: Self)
        ensures
            o.title_text == title_text,
            o.description_text == description_text,
            o.confirm_button_label == confirm_button_label,
            o.cancel_button_label == cancel_button_label,
    {
        DestructiveMCPConfirmationDialogDisplayOptions {
            title_text,
            description_text,
            confirm_button_label,
            cancel_button_label,
        }
    }
}

/// The catalog keys of a variant's title, description and confirm button.
pub open spec fn variant_keys(v: DestructiveMCPConfirmationDialogVariant) -> (Seq<char>, Seq<char>, Seq<char>) {
    match v {
        DestructiveMCPConfirmationDialogVariant::DeleteLocal => (
            "settings.mcp.confirmation.delete_local.title"@,
            "settings.mcp.confirmation.delete_local.description"@,
            "settings.mcp.edit.delete_mcp"@,
        ),
        DestructiveMCPConfirmationDialogVariant::DeleteShared => (
            "settings.mcp.confirmation.delete_shared.title"@,
            "settings.mcp.confirmation.delete_shared.description"@,
            "settings.mcp.edit.delete_mcp"@,
        ),
        DestructiveMCPConfirmationDialogVariant::Unshare => (
            "settings.mcp.confirmation.unshare.title"@,
            "settings.mcp.confirmation.unshare.description"@,
            "settings.mcp.edit.remove_from_team"@,
        ),
    }
}

/// The texts of a variant in the user's language; the cancel button is the
/// same for all.
pub open spec fn display_options_ok(
    b: CatalogBundle,
    locale: LocaleId,
    v: DestructiveMCPConfirmationDialogVariant,
    o: DestructiveMCPConfirmationDialogDisplayOptions,
) -> bool {
    &&& o.title_text@ == text_spec(b, locale, variant_keys(v).0)
    &&& o.description_text@ == text_spec(b, locale, variant_keys(v).1)
    &&& o.confirm_button_label@ == text_spec(b, locale, variant_keys(v).2)
    &&& o.cancel_button_label@ == text_spec(b, locale, "settings.action.cancel"@)
}

impl DestructiveMCPConfirmationDialogVariant {
    /// The texts of this variant (see [`display_options_ok`]).
    pub fn display_options(&self, catalogs: &CatalogBundle, locale: LocaleId) -> (o:
        DestructiveMCPConfirmationDialogDisplayOptions)
        ensures
            display_options_ok(*catalogs, locale, *self, o),
    {
        match self {
            DestructiveMCPConfirmationDialogVariant::DeleteLocal => DestructiveMCPConfirmationDialogDisplayOptions::new(
                catalogs.text(locale, "settings.mcp.confirmation.delete_local.title"),
                catalogs.text(locale, "settings.mcp.confirmation.delete_local.description"),
                catalogs.text(locale, "settings.mcp.edit.delete_mcp"),
                catalogs.text(locale, "settings.action.cancel"),
            ),
            DestructiveMCPConfirmationDialogVariant::DeleteShared => DestructiveMCPConfirmationDialogDisplayOptions::new(
                catalogs.text(locale, "settings.mcp.confirmation.delete_shared.title"),
                catalogs.text(locale, "settings.mcp.confirmation.delete_shared.description"),
                catalogs.text(locale, "settings.mcp.edit.delete_mcp"),
                catalogs.text(locale, "settings.action.cancel"),
            ),
            DestructiveMCPConfirmationDialogVariant::Unshare => DestructiveMCPConfirmationDialogDisplayOptions::new(
                catalogs.text(locale, "settings.mcp.confirmation.unshare.title"),
                catalogs.text(locale, "settings.mcp.confirmation.unshare.description"),
                catalogs.text(locale, "settings.mcp.edit.remove_from_team"),
                catalogs.text(locale, "settings.action.cancel"),
            ),
        }
    }
}

/// The dialog's state: whether it is shown, what it confirms, and the labels
/// of its buttons.
#[derive(Clone, Debug)]
pub struct DestructiveMCPConfirmationDialog {
    pub visible: bool,
    pub variant: DestructiveMCPConfirmationDialogVariant,
    pub cancel_button_label: String,
    pub confirm_button_label: String,
}

impl DestructiveMCPConfirmationDialog {
    /// A hidden dialog, set to confirm a local delete, with blank buttons.
    pub fn new() -> (d: Self)
        ensures
            !d.visible,
            d.variant == DestructiveMCPConfirmationDialogVariant::DeleteLocal,
            d.cancel_button_label@ == Seq::<char>::empty(),
            d.confirm_button_label@ == Seq::<char>::empty(),
    {
        DestructiveMCPConfirmationDialog {
            visible: false,
            variant: DestructiveMCPConfirmationDialogVariant::DeleteLocal,
            cancel_button_label: String::new(),
            confirm_button_label: String::new(),
        }
    }

    /// Shows the dialog for `variant`, with the variant's button labels.
    pub fn show(
        &mut self,
        variant: DestructiveMCPConfirmationDialogVariant,
        catalogs: &CatalogBundle,
        locale: LocaleId,
    )
        ensures
            final(self).visible,
            final(self).variant == variant,
            final(self).cancel_button_label@ == text_spec(*catalogs, locale, "settings.action.cancel"@),
            final(self).confirm_button_label@ == text_spec(*catalogs, locale, variant_keys(variant).2),
    {
        let options = variant.display_options(catalogs, locale);
        self.cancel_button_label = options.cancel_button_label;
        self.confirm_button_label = options.confirm_button_label;
        self.variant = variant;
        self.visible = true;
    }

    /// Hides the dialog; what it confirms and its labels stay.
    pub fn close(&mut self)
        ensures
            !final(self).visible,
            final(self).variant == old(self).variant,
            final(self).cancel_button_label == old(self).cancel_button_label,
            final(self).confirm_button_label == old(self).confirm_button_label,
    {
        self.visible = false;
    }

    /// The texts to draw: `None` while the dialog is hidden.
    pub fn render(&self, catalogs: &CatalogBundle, locale: LocaleId) -> (r: Option<
        DestructiveMCPConfirmationDialogDisplayOptions,
    >)
        ensures
            match r {
                Some(o) => self.visible && display_options_ok(*catalogs, locale, self.variant, o),
                None => !self.visible,
            },
    {
        if !self.visible {
            return None;
        }
        Some(self.variant.display_options(catalogs, locale))
    }

    /// What the dialog reports for an action: a cancel, or a confirm of what
    /// it was shown for. The state does not change.
    pub fn handle_action(&self, action: DestructiveMCPConfirmationDialogAction) -> (e:
        DestructiveMCPConfirmationDialogEvent)
        ensures
            e == match action {
                DestructiveMCPConfirmationDialogAction::Cancel => DestructiveMCPConfirmationDialogEvent::Cancel,
                DestructiveMCPConfirmationDialogAction::Confirm => DestructiveMCPConfirmationDialogEvent::Confirm(
                    self.variant,
                ),
            },
    {
        match action {
            DestructiveMCPConfirmationDialogAction::Cancel => DestructiveMCPConfirmationDialogEvent::Cancel,
            DestructiveMCPConfirmationDialogAction::Confirm => DestructiveMCPConfirmationDialogEvent::Confirm(
                self.variant,
            ),
        }
    }
}

} // verus!
