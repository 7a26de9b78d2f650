//! Which toast to show when an operation on a cloud object (a notebook, a
//! workflow, a rule, ...) succeeds or fails.

use vstd::prelude::*;

use crate::localization::{
    fill_spec, text_spec, CatalogBundle, LocaleId, LocalizedMessage, PlaceholderError,
};
use crate::template::pairs_view;
use crate::text::to_ascii_lowercase;

verus! {

/// The kinds of cloud object that the toast rules tell apart.
#[derive(Debug, Clone, Copy, PartialEq, Eq, Structural)]
pub enum CloudObjectKind {
    Notebook,
    Workflow,
    /// A JSON object holding a collection of environment variables.
    EnvVarCollection,
    /// A JSON object holding an AI rule.
    AIFact,
    /// Any other kind of object.
    Other,
}

/// Who started an operation.
#[derive(Debug, Clone, Copy, PartialEq, Eq)]
pub enum InitiatedBy {
    User,
    System,
}

/// An operation on a cloud object.
#[derive(Debug, Clone, Copy, PartialEq, Eq)]
pub enum ObjectOperation {
    Create { initiated_by: InitiatedBy },
    Update,
    MoveToFolder,
    MoveToDrive,
    Trash,
    Untrash,
    Leave,
    Delete { initiated_by: InitiatedBy },
    EmptyTrash,
    TakeEditAccess,
    UpdatePermissions,
}

/// How an operation ended.
#[derive(Debug, Clone)]
pub enum OperationSuccessType {
    Success,
    Failure,
    /// The server denied the operation with a message for the user.
    Denied(String),
    /// The server rejected the change.
    Rejection,
}

/// The text of a toast: a catalog message, or a message passed through as is.
#[derive(Debug, Clone)]
pub enum ToastCopy {
    Localized(LocalizedMessage),
    Verbatim(String),
    /// The message `key` whose `count_objects` placeholder takes the
    /// rendered `count` message.
    LocalizedWithCount { key: String, count: LocalizedMessage },
}

/// A toast's text as plain values.
pub enum ToastView {
    Localized { key: Seq<char>, args: Seq<(Seq<char>, Seq<char>)> },
    Verbatim { text: Seq<char> },
    LocalizedWithCount {
        key: Seq<char>,
        count_key: Seq<char>,
        count_args: Seq<(Seq<char>, Seq<char>)>,
    },
}

pub open spec fn toast_view(c: ToastCopy) -> ToastView {
    match c {
        ToastCopy::Localized(m) => ToastView::Localized { key: m.key@, args: pairs_view(m.args@) },
        ToastCopy::Verbatim(t) => ToastView::Verbatim { text: t@ },
        ToastCopy::LocalizedWithCount { key, count } => ToastView::LocalizedWithCount {
            key: key@,
            count_key: count.key@,
            count_args: pairs_view(count.args@),
        },
    }
}

pub open spec fn opt_toast_view(c: Option<ToastCopy>) -> Option<ToastView> {
    match c {
        Some(t) => Some(toast_view(t)),
        None => None,
    }
}

pub open spec fn loc(key: Seq<char>, args: Seq<(Seq<char>, Seq<char>)>) -> Option<ToastView> {
    Some(ToastView::Localized { key, args })
}

/// The toast for one object: `name` is the object type's display name,
/// `lower` the same name in ASCII lower case, `location` the name of the
/// folder or drive that holds the object.
pub open spec fn toast_spec(
    kind: CloudObjectKind,
    name: Seq<char>,
    lower: Seq<char>,
    location: Seq<char>,
    operation: ObjectOperation,
    success: OperationSuccessType,
) -> Option<ToastView> {
    let object = |v: Seq<char>| seq![("object"@, v)];
    let object_at = seq![("object"@, name), ("location"@, location)];
    match (operation, success) {
        (
            ObjectOperation::Create { initiated_by: InitiatedBy::User },
            OperationSuccessType::Success,
        ) => loc("cloud_object.toast.saved_to"@, object_at),
        (ObjectOperation::Update, OperationSuccessType::Success) => if kind
            == CloudObjectKind::Notebook {
            None
        } else {
            loc("cloud_object.toast.updated"@, object(name))
        },
        (ObjectOperation::MoveToFolder, OperationSuccessType::Success) | (
            ObjectOperation::MoveToDrive,
            OperationSuccessType::Success,
        ) => loc("cloud_object.toast.moved_to"@, object_at),
        (ObjectOperation::Trash, OperationSuccessType::Success) => loc(
            "cloud_object.toast.trashed"@,
            object(name),
        ),
        (ObjectOperation::Untrash, OperationSuccessType::Success) => loc(
            "cloud_object.toast.restored"@,
            object(name),
        ),
        (ObjectOperation::Leave, OperationSuccessType::Success) => loc(
            "cloud_object.toast.left"@,
            object(name),
        ),
        (
            ObjectOperation::Create { initiated_by: InitiatedBy::User },
            OperationSuccessType::Failure,
        ) => loc("cloud_object.toast.failed_create"@, object(lower)),
        (
            ObjectOperation::Create { initiated_by: InitiatedBy::User },
            OperationSuccessType::Denied(message),
        ) => Some(ToastView::Verbatim { text: message@ }),
        (ObjectOperation::Update, OperationSuccessType::Failure) => loc(
            "cloud_object.toast.failed_update"@,
            object(lower),
        ),
        (ObjectOperation::MoveToFolder, OperationSuccessType::Failure) | (
            ObjectOperation::MoveToDrive,
            OperationSuccessType::Failure,
        ) => loc("cloud_object.toast.failed_move"@, object(lower)),
        (ObjectOperation::Trash, OperationSuccessType::Failure) => loc(
            "cloud_object.toast.failed_trash"@,
            object(lower),
        ),
        (ObjectOperation::Untrash, OperationSuccessType::Failure) => loc(
            "cloud_object.toast.failed_restore"@,
            object(lower),
        ),
        (
            ObjectOperation::Delete { initiated_by: InitiatedBy::User },
            OperationSuccessType::Failure,
        ) => loc("cloud_object.toast.failed_delete"@, object(lower)),
        (ObjectOperation::Leave, OperationSuccessType::Failure) => loc(
            "cloud_object.toast.failed_leave"@,
            object(name),
        ),
        (ObjectOperation::Update, OperationSuccessType::Rejection) => match kind {
            CloudObjectKind::Workflow => loc("cloud_object.toast.rejection.workflow"@, seq![]),
            CloudObjectKind::EnvVarCollection => loc(
                "cloud_object.toast.rejection.env_vars"@,
                seq![],
            ),
            CloudObjectKind::AIFact => loc("cloud_object.toast.rejection.rule"@, seq![]),
            _ => None,
        },
        (ObjectOperation::TakeEditAccess, OperationSuccessType::Failure) => loc(
            "cloud_object.toast.failed_start_editing"@,
            object(lower),
        ),
        (ObjectOperation::UpdatePermissions, OperationSuccessType::Success) => loc(
            "cloud_object.toast.updated_permissions"@,
            object(lower),
        ),
        (ObjectOperation::UpdatePermissions, OperationSuccessType::Failure) => loc(
            "cloud_object.toast.failed_update_permissions"@,
            object(lower),
        ),
        _ => None,
    }
}

/// The count of objects a deletion toast names: "1 object" or "n objects".
pub open spec fn object_count_spec(num_objects: i32) -> (Seq<char>, Seq<(Seq<char>, Seq<char>)>) {
    if num_objects == 1 {
        ("cloud_object.toast.object_count.singular"@, seq![])
    } else {
        (
            "cloud_object.toast.object_count.plural"@,
            seq![("count"@, crate::text::decimal_spec(num_objects as int))],
        )
    }
}

/// The toast after deleting or emptying objects for good.
pub open spec fn deletion_toast_spec(
    num_objects: i32,
    operation: ObjectOperation,
    success: OperationSuccessType,
) -> Option<ToastView> {
    let count = object_count_spec(num_objects);
    match (operation, success) {
        (
            ObjectOperation::Delete { initiated_by: InitiatedBy::User },
            OperationSuccessType::Success,
        ) => Some(
            ToastView::LocalizedWithCount {
                key: "cloud_object.toast.deleted_forever"@,
                count_key: count.0,
                count_args: count.1,
            },
        ),
        (ObjectOperation::EmptyTrash, OperationSuccessType::Success) => Some(
            ToastView::LocalizedWithCount {
                key: "cloud_object.toast.trash_emptied"@,
                count_key: count.0,
                count_args: count.1,
            },
        ),
        (ObjectOperation::EmptyTrash, OperationSuccessType::Failure) => loc(
            "cloud_object.toast.failed_empty_trash"@,
            seq![],
        ),
        (ObjectOperation::EmptyTrash, OperationSuccessType::Rejection) => loc(
            "cloud_object.toast.no_objects_to_empty"@,
            seq![],
        ),
        _ => None,
    }
}

fn message0(key: &str) -> (m: LocalizedMessage)
    ensures
        m.key@ == key@,
        pairs_view(m.args@) == Seq::<(Seq<char>, Seq<char>)>::empty(),
{
    let args: Vec<(String, String)> = Vec::new();
    assert(pairs_view(args@) =~= Seq::<(Seq<char>, Seq<char>)>::empty());
    LocalizedMessage { key: key.to_owned(), args }
}

fn message1(key: &str, name: &str, value: &str) -> (m: LocalizedMessage)
    ensures
        m.key@ == key@,
        pairs_view(m.args@) == seq![(name@, value@)],
{
    let mut args: Vec<(String, String)> = Vec::new();
    args.push((name.to_owned(), value.to_owned()));
    assert(pairs_view(args@) =~= seq![(name@, value@)]);
    LocalizedMessage { key: key.to_owned(), args }
}

fn message2(key: &str, name1: &str, value1: &str, name2: &str, value2: &str) -> (m:
    LocalizedMessage)
    ensures
        m.key@ == key@,
        pairs_view(m.args@) == seq![(name1@, value1@), (name2@, value2@)],
{
    let mut args: Vec<(String, String)> = Vec::new();
    args.push((name1.to_owned(), value1.to_owned()));
    args.push((name2.to_owned(), value2.to_owned()));
    assert(pairs_view(args@) =~= seq![(name1@, value1@), (name2@, value2@)]);
    LocalizedMessage { key: key.to_owned(), args }
}

fn localized(m: LocalizedMessage) -> (r: Option<ToastCopy>)
    ensures
        r == Some(ToastCopy::Localized(m)),
{
    Some(ToastCopy::Localized(m))
}

/// Toasts about cloud objects.
pub struct CloudObjectToastMessage;

impl CloudObjectToastMessage {
    /// The toast for `operation` on an object of `kind`, given how it ended:
    /// `object_name` is the display name of the object's type and
    /// `containing_object_name` the name of the folder or drive that holds
    /// it. Failure toasts name the type in lower case; creations and
    /// deletions initiated by the system show nothing, nor do successful
    /// notebook updates (notebooks save as the user types).
    pub fn toast_message(
        kind: CloudObjectKind,
        object_name: &str,
        containing_object_name: &str,
        operation: ObjectOperation,
        success_type: &OperationSuccessType,
    ) -> (r: Option<ToastCopy>)
        ensures
            opt_toast_view(r) == toast_spec(
                kind,
                object_name@,
                crate::text::ascii_lowercase_spec(object_name@),
                containing_object_name@,
                operation,
                *success_type,
            ),
    {
        let lower = to_ascii_lowercase(object_name);
        let name = object_name;
        let location = containing_object_name;
        match (operation, success_type) {
            (
                ObjectOperation::Create { initiated_by: InitiatedBy::User },
                OperationSuccessType::Success,
            ) => localized(
                message2("cloud_object.toast.saved_to", "object", name, "location", location),
            ),
            (ObjectOperation::Update, OperationSuccessType::Success) => {
                if kind == CloudObjectKind::Notebook {
                    None
                } else {
                    localized(message1("cloud_object.toast.updated", "object", name))
                }
            },
            (ObjectOperation::MoveToFolder, OperationSuccessType::Success) | (
                ObjectOperation::MoveToDrive,
                OperationSuccessType::Success,
            ) => localized(
                message2("cloud_object.toast.moved_to", "object", name, "location", location),
            ),
            (ObjectOperation::Trash, OperationSuccessType::Success) => localized(
                message1("cloud_object.toast.trashed", "object", name),
            ),
            (ObjectOperation::Untrash, OperationSuccessType::Success) => localized(
                message1("cloud_object.toast.restored", "object", name),
            ),
            (ObjectOperation::Leave, OperationSuccessType::Success) => localized(
                message1("cloud_object.toast.left", "object", name),
            ),
            (
                ObjectOperation::Create { initiated_by: InitiatedBy::User },
                OperationSuccessType::Failure,
            ) => localized(message1("cloud_object.toast.failed_create", "object", lower.as_str())),
            (
                ObjectOperation::Create { initiated_by: InitiatedBy::User },
                OperationSuccessType::Denied(message),
            ) => Some(ToastCopy::Verbatim(message.clone())),
            (ObjectOperation::Update, OperationSuccessType::Failure) => localized(
                message1("cloud_object.toast.failed_update", "object", lower.as_str()),
            ),
            (ObjectOperation::MoveToFolder, OperationSuccessType::Failure) | (
                ObjectOperation::MoveToDrive,
                OperationSuccessType::Failure,
            ) => localized(message1("cloud_object.toast.failed_move", "object", lower.as_str())),
            (ObjectOperation::Trash, OperationSuccessType::Failure) => localized(
                message1("cloud_object.toast.failed_trash", "object", lower.as_str()),
            ),
            (ObjectOperation::Untrash, OperationSuccessType::Failure) => localized(
                message1("cloud_object.toast.failed_restore", "object", lower.as_str()),
            ),
            (
                ObjectOperation::Delete { initiated_by: InitiatedBy::User },
                OperationSuccessType::Failure,
            ) => localized(message1("cloud_object.toast.failed_delete", "object", lower.as_str())),
            (ObjectOperation::Leave, OperationSuccessType::Failure) => localized(
                message1("cloud_object.toast.failed_leave", "object", name),
            ),
            (ObjectOperation::Update, OperationSuccessType::Rejection) => match kind {
                CloudObjectKind::Workflow => localized(
                    message0("cloud_object.toast.rejection.workflow"),
                ),
                CloudObjectKind::EnvVarCollection => localized(
                    message0("cloud_object.toast.rejection.env_vars"),
                ),
                CloudObjectKind::AIFact => localized(message0("cloud_object.toast.rejection.rule")),
                _ => None,
            },
            (ObjectOperation::TakeEditAccess, OperationSuccessType::Failure) => localized(
                message1("cloud_object.toast.failed_start_editing", "object", lower.as_str()),
            ),
            (ObjectOperation::UpdatePermissions, OperationSuccessType::Success) => localized(
                message1("cloud_object.toast.updated_permissions", "object", lower.as_str()),
            ),
            (ObjectOperation::UpdatePermissions, OperationSuccessType::Failure) => localized(
                message1("cloud_object.toast.failed_update_permissions", "object", lower.as_str()),
            ),
            _ => None,
        }
    }

    /// The toast after objects were deleted forever or the trash was
    /// emptied; it names the number of objects.
    pub fn toast_deletion_confirm_message(
        num_objects: i32,
        operation: ObjectOperation,
        success_type: &OperationSuccessType,
    ) -> (r: Option<ToastCopy>)
        ensures
            opt_toast_view(r) == deletion_toast_spec(num_objects, operation, *success_type),
    {
        let count = if num_objects == 1 {
            message0("cloud_object.toast.object_count.singular")
        } else {
            let n = crate::text::i64_to_decimal(num_objects as i64);
            message1("cloud_object.toast.object_count.plural", "count", n.as_str())
        };
        match (operation, success_type) {
            (
                ObjectOperation::Delete { initiated_by: InitiatedBy::User },
                OperationSuccessType::Success,
            ) => Some(
                ToastCopy::LocalizedWithCount {
                    key: "cloud_object.toast.deleted_forever".to_owned(),
                    count,
                },
            ),
            (ObjectOperation::EmptyTrash, OperationSuccessType::Success) => Some(
                ToastCopy::LocalizedWithCount {
                    key: "cloud_object.toast.trash_emptied".to_owned(),
                    count,
                },
            ),
            (ObjectOperation::EmptyTrash, OperationSuccessType::Failure) => localized(
                message0("cloud_object.toast.failed_empty_trash"),
            ),
            (ObjectOperation::EmptyTrash, OperationSuccessType::Rejection) => localized(
                message0("cloud_object.toast.no_objects_to_empty"),
            ),
            _ => None,
        }
    }
}

/// The text of a toast in `locale`: a catalog message filled with its
/// arguments; a verbatim message as it is; or the message `key` with its
/// `count_objects` placeholder filled with the rendered count message.
/// `None` where a template names a placeholder without a value.
pub open spec fn toast_text_spec(b: CatalogBundle, locale: LocaleId, v: ToastView) -> Option<Seq<char>> {
    match v {
        ToastView::Localized { key, args } => fill_spec(text_spec(b, locale, key), args),
        ToastView::Verbatim { text } => Some(text),
        ToastView::LocalizedWithCount { key, count_key, count_args } => match fill_spec(
            text_spec(b, locale, count_key),
            count_args,
        ) {
            None => None,
            Some(count) => fill_spec(text_spec(b, locale, key), seq![("count_objects"@, count)]),
        },
    }
}

/// The text of a toast in `locale` (see [`toast_text_spec`]).
pub fn render_toast(catalogs: &CatalogBundle, locale: LocaleId, copy: &ToastCopy) -> (r: Result<
    String,
    PlaceholderError,
>)
    ensures
        match r {
            Ok(s) => toast_text_spec(*catalogs, locale, toast_view(*copy)) == Some(s@),
            Err(_) => toast_text_spec(*catalogs, locale, toast_view(*copy)) is None,
        },
{
    match copy {
        ToastCopy::Localized(m) => catalogs.render(locale, m),
        ToastCopy::Verbatim(t) => Ok(t.clone()),
        ToastCopy::LocalizedWithCount { key, count } => {
            let count_text = match catalogs.render(locale, count) {
                Ok(c) => c,
                Err(e) => {
                    return Err(e);
                },
            };
            let mut args: Vec<(String, String)> = Vec::new();
            args.push(("count_objects".to_owned(), count_text));
            assert(pairs_view(args@) =~= seq![("count_objects"@, count_text@)]);
            catalogs.render(locale, &LocalizedMessage { key: key.clone(), args })
        },
    }
}

} // verus!
