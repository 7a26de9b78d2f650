use warp_app::diffset::{
    diffset_query_candidates, diffset_query_results, searchable_label, AIContextMenuSearchableAction,
    DiffMode, DiffSetDataSource, DiffSetSearchItem, FileSearchItem, FuzzyMatchResult,
};
use warp_app::localization::{Catalog, CatalogBundle, LocaleId};

fn catalogs() -> CatalogBundle {
    let en = [
        ("search.diffset.name.uncommitted", "Uncommitted changes"),
        ("search.diffset.name.main_branch", "Changes vs. main"),
        ("search.diffset.name.other_branch", "Changes vs. {branch}"),
        ("search.diffset.description.uncommitted", "All uncommitted changes in the working directory"),
        ("search.diffset.description.main_branch", "All changes compared to main"),
        ("search.diffset.description.other_branch", "All changes compared to {branch}"),
        ("search.diffset.a11y.label", "{name} - {description}"),
        ("search.files.a11y.file", "File {path}"),
        ("search.files.a11y.directory", "Directory {path}"),
    ];
    let zh = [
        ("search.diffset.name.uncommitted", "未提交的更改"),
        ("search.diffset.description.uncommitted", "工作目录中的所有未提交更改"),
        ("search.diffset.name.main_branch", "Changes vs. main"),
        ("search.files.a11y.file", "文件 {path}"),
    ];
    let to_vec = |v: &[(&str, &str)]| v.iter().map(|(k, t)| (k.to_string(), t.to_string())).collect();
    CatalogBundle {
        default_locale: LocaleId::EnUs,
        catalogs: vec![
            Catalog { locale: LocaleId::EnUs, entries: to_vec(&en) },
            Catalog { locale: LocaleId::ZhCn, entries: to_vec(&zh) },
        ],
    }
}

fn matched(score: i64) -> FuzzyMatchResult {
    FuzzyMatchResult { score, matched_indices: vec![0, 1, 2] }
}

#[test]
fn diffset_has_higher_priority_tier() {
    let item = DiffSetSearchItem { diff_mode: DiffMode::Head, match_result: matched(42) };
    assert_eq!(item.priority_tier(), 1);
    assert_eq!(item.score(), 42);
}

#[test]
fn diffset_search_and_accessibility_follow_app_language() {
    let c = catalogs();
    // Both the Chinese and the English names are searchable in Chinese.
    assert_eq!(
        searchable_label(&c, LocaleId::ZhCn, "search.diffset.name.uncommitted"),
        "Uncommitted changes 未提交的更改"
    );
    // A name without a translation is searched once.
    assert_eq!(
        searchable_label(&c, LocaleId::ZhCn, "search.diffset.name.main_branch"),
        "Changes vs. main"
    );
    let item = DiffSetSearchItem { diff_mode: DiffMode::Head, match_result: matched(1) };
    assert_eq!(
        item.accessibility_label_for_locale(&c, LocaleId::ZhCn),
        Ok("未提交的更改 - 工作目录中的所有未提交更改".to_string())
    );
    assert_eq!(
        item.accessibility_label(&c),
        Ok("Uncommitted changes - All uncommitted changes in the working directory".to_string())
    );
}

#[test]
fn names_and_descriptions_of_each_mode() {
    let c = catalogs();
    let other = DiffSetSearchItem {
        diff_mode: DiffMode::OtherBranch("feature/x".to_string()),
        match_result: matched(0),
    };
    assert_eq!(other.name(&c), Ok("Changes vs. feature/x".to_string()));
    assert_eq!(other.description(&c), Ok("All changes compared to feature/x".to_string()));
    assert_eq!(
        other.accept_result(),
        AIContextMenuSearchableAction::InsertDiffSet {
            diff_mode: DiffMode::OtherBranch("feature/x".to_string())
        }
    );
    assert_eq!(other.execute_result(), other.accept_result());
    let main = DiffSetSearchItem { diff_mode: DiffMode::MainBranch, match_result: matched(0) };
    assert_eq!(main.name_for_locale(&c, LocaleId::ZhCn), Ok("Changes vs. main".to_string()));
}

#[test]
fn query_results_keep_the_matching_candidates_in_order() {
    let c = catalogs();
    let candidates = diffset_query_candidates(&c, LocaleId::EnUs);
    assert_eq!(candidates.len(), 2);
    assert_eq!(candidates[0].0, DiffMode::Head);
    assert_eq!(candidates[1].1, "Changes vs. main");
    let results = diffset_query_results(candidates.clone(), vec![None, Some(matched(7))]);
    assert_eq!(results.len(), 1);
    assert_eq!(results[0].diff_mode, DiffMode::MainBranch);
    assert_eq!(results[0].score(), 7);
    let both = diffset_query_results(candidates, vec![Some(matched(1)), Some(matched(2))]);
    assert_eq!(both.iter().map(|r| r.diff_mode.clone()).collect::<Vec<_>>(), vec![DiffMode::Head, DiffMode::MainBranch]);
}

#[test]
fn file_results_attach_their_path() {
    let c = catalogs();
    let file = FileSearchItem {
        path: "src/main.rs".to_string(),
        match_result: matched(3),
        is_directory: false,
    };
    assert_eq!(file.accessibility_label(&c), Ok("File src/main.rs".to_string()));
    assert_eq!(file.accessibility_label_for_locale(&c, LocaleId::ZhCn), Ok("文件 src/main.rs".to_string()));
    assert_eq!(
        file.accept_result(),
        AIContextMenuSearchableAction::InsertFilePath { file_path: "src/main.rs".to_string() }
    );
    assert_eq!(file.execute_result(), file.accept_result());
    assert_eq!(file.score(), 3);
    let dir = FileSearchItem { path: "src".to_string(), match_result: matched(0), is_directory: true };
    assert_eq!(dir.accessibility_label_for_locale(&c, LocaleId::ZhCn), Ok("Directory src".to_string()));
}

#[test]
fn data_source_runs_queries() {
    let source = DiffSetDataSource;
    let candidates = source.query_candidates(&catalogs(), LocaleId::ZhCn);
    assert_eq!(candidates[0].1, "Uncommitted changes 未提交的更改");
    let results = source.run_query(candidates, vec![Some(matched(5)), None]);
    assert_eq!(results.len(), 1);
    assert_eq!(results[0].diff_mode, DiffMode::Head);
}
