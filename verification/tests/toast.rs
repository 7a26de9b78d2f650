use warp_app::localization::{Catalog, CatalogBundle, LocaleId, LocalizedMessage, PlaceholderError};
use warp_app::toast::{
    render_toast, CloudObjectKind, CloudObjectToastMessage, InitiatedBy, ObjectOperation,
    OperationSuccessType, ToastCopy,
};

fn args(m: &LocalizedMessage) -> Vec<(&str, &str)> {
    m.args.iter().map(|(k, v)| (k.as_str(), v.as_str())).collect()
}

fn localized(copy: Option<ToastCopy>) -> LocalizedMessage {
    match copy {
        Some(ToastCopy::Localized(m)) => m,
        other => panic!("expected a localized toast, got {other:?}"),
    }
}

#[test]
fn user_creation_names_object_and_location() {
    let m = localized(CloudObjectToastMessage::toast_message(
        CloudObjectKind::Workflow,
        "Workflow",
        "Personal",
        ObjectOperation::Create { initiated_by: InitiatedBy::User },
        &OperationSuccessType::Success,
    ));
    assert_eq!(m.key, "cloud_object.toast.saved_to");
    assert_eq!(args(&m), vec![("object", "Workflow"), ("location", "Personal")]);
}

#[test]
fn system_creation_shows_nothing() {
    assert!(CloudObjectToastMessage::toast_message(
        CloudObjectKind::Workflow,
        "Workflow",
        "Personal",
        ObjectOperation::Create { initiated_by: InitiatedBy::System },
        &OperationSuccessType::Success,
    )
    .is_none());
}

#[test]
fn failures_name_the_type_in_lower_case() {
    let m = localized(CloudObjectToastMessage::toast_message(
        CloudObjectKind::Notebook,
        "Notebook",
        "Team",
        ObjectOperation::Trash,
        &OperationSuccessType::Failure,
    ));
    assert_eq!(m.key, "cloud_object.toast.failed_trash");
    assert_eq!(args(&m), vec![("object", "notebook")]);
    // Leaving keeps the name as it is.
    let m = localized(CloudObjectToastMessage::toast_message(
        CloudObjectKind::Notebook,
        "Notebook",
        "Team",
        ObjectOperation::Leave,
        &OperationSuccessType::Failure,
    ));
    assert_eq!(args(&m), vec![("object", "Notebook")]);
}

#[test]
fn notebook_updates_are_silent_but_others_are_not() {
    assert!(CloudObjectToastMessage::toast_message(
        CloudObjectKind::Notebook,
        "Notebook",
        "",
        ObjectOperation::Update,
        &OperationSuccessType::Success,
    )
    .is_none());
    let m = localized(CloudObjectToastMessage::toast_message(
        CloudObjectKind::Workflow,
        "Workflow",
        "",
        ObjectOperation::Update,
        &OperationSuccessType::Success,
    ));
    assert_eq!(m.key, "cloud_object.toast.updated");
}

#[test]
fn denied_creation_shows_the_server_message() {
    match CloudObjectToastMessage::toast_message(
        CloudObjectKind::Other,
        "Prompt",
        "",
        ObjectOperation::Create { initiated_by: InitiatedBy::User },
        &OperationSuccessType::Denied("Quota reached".to_string()),
    ) {
        Some(ToastCopy::Verbatim(text)) => assert_eq!(text, "Quota reached"),
        other => panic!("expected verbatim toast, got {other:?}"),
    }
}

#[test]
fn rejections_depend_on_the_kind() {
    let m = localized(CloudObjectToastMessage::toast_message(
        CloudObjectKind::AIFact,
        "Rule",
        "",
        ObjectOperation::Update,
        &OperationSuccessType::Rejection,
    ));
    assert_eq!(m.key, "cloud_object.toast.rejection.rule");
    assert!(m.args.is_empty());
    assert!(CloudObjectToastMessage::toast_message(
        CloudObjectKind::Notebook,
        "Notebook",
        "",
        ObjectOperation::Update,
        &OperationSuccessType::Rejection,
    )
    .is_none());
}

#[test]
fn deletion_toast_counts_objects() {
    match CloudObjectToastMessage::toast_deletion_confirm_message(
        3,
        ObjectOperation::Delete { initiated_by: InitiatedBy::User },
        &OperationSuccessType::Success,
    ) {
        Some(ToastCopy::LocalizedWithCount { key, count }) => {
            assert_eq!(key, "cloud_object.toast.deleted_forever");
            assert_eq!(count.key, "cloud_object.toast.object_count.plural");
            assert_eq!(args(&count), vec![("count", "3")]);
        }
        other => panic!("unexpected {other:?}"),
    }
    match CloudObjectToastMessage::toast_deletion_confirm_message(
        1,
        ObjectOperation::EmptyTrash,
        &OperationSuccessType::Success,
    ) {
        Some(ToastCopy::LocalizedWithCount { key, count }) => {
            assert_eq!(key, "cloud_object.toast.trash_emptied");
            assert_eq!(count.key, "cloud_object.toast.object_count.singular");
            assert!(count.args.is_empty());
        }
        other => panic!("unexpected {other:?}"),
    }
    match CloudObjectToastMessage::toast_deletion_confirm_message(
        -2,
        ObjectOperation::EmptyTrash,
        &OperationSuccessType::Success,
    ) {
        Some(ToastCopy::LocalizedWithCount { count, .. }) => {
            assert_eq!(args(&count), vec![("count", "-2")]);
        }
        other => panic!("unexpected {other:?}"),
    }
    let m = localized(CloudObjectToastMessage::toast_deletion_confirm_message(
        0,
        ObjectOperation::EmptyTrash,
        &OperationSuccessType::Rejection,
    ));
    assert_eq!(m.key, "cloud_object.toast.no_objects_to_empty");
    assert!(CloudObjectToastMessage::toast_deletion_confirm_message(
        2,
        ObjectOperation::Trash,
        &OperationSuccessType::Success,
    )
    .is_none());
}

fn toast_catalogs() -> CatalogBundle {
    let entries = |v: Vec<(&str, &str)>| v.into_iter().map(|(k, t)| (k.to_string(), t.to_string())).collect();
    CatalogBundle {
        default_locale: LocaleId::EnUs,
        catalogs: vec![
            Catalog {
                locale: LocaleId::EnUs,
                entries: entries(vec![
                    ("cloud_object.toast.object_count.singular", "1 object"),
                    ("cloud_object.toast.object_count.plural", "{count} objects"),
                    ("cloud_object.toast.trash_emptied", "Emptied trash of {count_objects}"),
                    ("cloud_object.toast.saved_to", "{object} saved to {location}"),
                    ("cloud_object.toast.broken", "Broken {missing}"),
                ]),
            },
            Catalog {
                locale: LocaleId::ZhCn,
                entries: entries(vec![
                    ("cloud_object.toast.object_count.plural", "{count} 个对象"),
                    ("cloud_object.toast.trash_emptied", "已清空回收站中的{count_objects}"),
                ]),
            },
        ],
    }
}

#[test]
fn toasts_render_in_the_locale_with_the_count_filled_in() {
    let catalogs = toast_catalogs();
    let emptied = CloudObjectToastMessage::toast_deletion_confirm_message(
        3,
        ObjectOperation::EmptyTrash,
        &OperationSuccessType::Success,
    )
    .unwrap();
    assert_eq!(render_toast(&catalogs, LocaleId::EnUs, &emptied), Ok("Emptied trash of 3 objects".to_string()));
    assert_eq!(render_toast(&catalogs, LocaleId::ZhCn, &emptied), Ok("已清空回收站中的3 个对象".to_string()));
    let one = CloudObjectToastMessage::toast_deletion_confirm_message(
        1,
        ObjectOperation::EmptyTrash,
        &OperationSuccessType::Success,
    )
    .unwrap();
    assert_eq!(render_toast(&catalogs, LocaleId::ZhCn, &one), Ok("已清空回收站中的1 object".to_string()));
    let saved = CloudObjectToastMessage::toast_message(
        CloudObjectKind::Workflow,
        "Workflow",
        "Personal",
        ObjectOperation::Create { initiated_by: InitiatedBy::User },
        &OperationSuccessType::Success,
    )
    .unwrap();
    assert_eq!(render_toast(&catalogs, LocaleId::EnUs, &saved), Ok("Workflow saved to Personal".to_string()));
    let verbatim = ToastCopy::Verbatim("as the server said".to_string());
    assert_eq!(render_toast(&catalogs, LocaleId::ZhCn, &verbatim), Ok("as the server said".to_string()));
    let broken = ToastCopy::Localized(LocalizedMessage { key: "cloud_object.toast.broken".to_string(), args: Vec::new() });
    assert_eq!(
        render_toast(&catalogs, LocaleId::EnUs, &broken),
        Err(PlaceholderError::MissingArgument { name: "missing".to_string() })
    );
}
