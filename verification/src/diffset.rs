//! Results of the AI context menu: the diff sets it offers (uncommitted
//! changes, the changes against the main branch or another branch) and
//! files.

use vstd::prelude::*;

use crate::localization::{fill_spec, text_spec, CatalogBundle, LocaleId, LocalizedMessage, PlaceholderError};
use crate::output::{args1, args2};
use crate::text::{chars_eq, chars_of, extend_str, string_from_chars};

verus! {

/// What a diff set compares the working tree with.
#[derive(Clone, Debug, PartialEq, Eq)]
pub enum DiffMode {
    /// The last commit: the uncommitted changes.
    Head,
    /// The main branch.
    MainBranch,
    /// Another branch, by name.
    OtherBranch(String),
}

/// How a label matched the query: its score and the positions of the
/// matched characters.
#[derive(Clone, Debug)]
pub struct FuzzyMatchResult {
    pub score: i64,
    pub matched_indices: Vec<usize>,
}

/// A diff set as a search result.
#[derive(Clone, Debug)]
pub struct DiffSetSearchItem {
    pub diff_mode: DiffMode,
    pub match_result: FuzzyMatchResult,
}

/// What accepting a context-menu result does.
#[derive(Clone, Debug, PartialEq, Eq)]
pub enum AIContextMenuSearchableAction {
    /// Attach the diff set to the prompt.
    InsertDiffSet { diff_mode: DiffMode },
    /// Attach the file or directory at the path to the prompt.
    InsertFilePath { file_path: String },
}

/// A file or directory as a context-menu search result.
#[derive(Clone, Debug)]
pub struct FileSearchItem {
    pub path: String,
    pub match_result: FuzzyMatchResult,
    pub is_directory: bool,
}

/// The accessibility label key of a file or directory result.
pub open spec fn file_label_key(is_directory: bool) -> Seq<char> {
    if is_directory {
        "search.files.a11y.directory"@
    } else {
        "search.files.a11y.file"@
    }
}

impl FileSearchItem {
    /// The score of the match.
    pub fn score(&self) -> (s: i64)
        ensures
            s == self.match_result.score,
    {
        self.match_result.score
    }

    /// Accepting the result attaches the path.
    pub fn accept_result(&self) -> (a: AIContextMenuSearchableAction)
        ensures
            a == (AIContextMenuSearchableAction::InsertFilePath { file_path: self.path }),
    {
        AIContextMenuSearchableAction::InsertFilePath { file_path: self.path.clone() }
    }

    /// Executing the result does what accepting it does.
    pub fn execute_result(&self) -> (a: AIContextMenuSearchableAction)
        ensures
            a == (AIContextMenuSearchableAction::InsertFilePath { file_path: self.path }),
    {
        self.accept_result()
    }

    /// The accessibility label in `locale`: the file or directory label
    /// template with the path.
    pub fn accessibility_label_for_locale(&self, catalogs: &CatalogBundle, locale: LocaleId) -> (r: Result<
        String,
        PlaceholderError,
    >)
        ensures
            match r {
                Ok(s) => fill_spec(
                    text_spec(*catalogs, locale, file_label_key(self.is_directory)),
                    seq![("path"@, self.path@)],
                ) == Some(s@),
                Err(_) => fill_spec(
                    text_spec(*catalogs, locale, file_label_key(self.is_directory)),
                    seq![("path"@, self.path@)],
                ) is None,
            },
    {
        let key = if self.is_directory {
            "search.files.a11y.directory"
        } else {
            "search.files.a11y.file"
        };
        catalogs.render(
            locale,
            &LocalizedMessage { key: key.to_owned(), args: args1("path", self.path.as_str()) },
        )
    }

    /// The accessibility label in US English.
    pub fn accessibility_label(&self, catalogs: &CatalogBundle) -> (r: Result<String, PlaceholderError>)
        ensures
            match r {
                Ok(s) => fill_spec(
                    text_spec(*catalogs, LocaleId::EnUs, file_label_key(self.is_directory)),
                    seq![("path"@, self.path@)],
                ) == Some(s@),
                Err(_) => fill_spec(
                    text_spec(*catalogs, LocaleId::EnUs, file_label_key(self.is_directory)),
                    seq![("path"@, self.path@)],
                ) is None,
            },
    {
        self.accessibility_label_for_locale(catalogs, LocaleId::EnUs)
    }
}

/// A copy of a diff mode.
pub fn copy_mode(mode: &DiffMode) -> (r: DiffMode)
    ensures
        r == *mode,
{
    match mode {
        DiffMode::Head => DiffMode::Head,
        DiffMode::MainBranch => DiffMode::MainBranch,
        DiffMode::OtherBranch(branch) => DiffMode::OtherBranch(branch.clone()),
    }
}

/// A message key with the branch as its `branch` argument where there is one.
pub open spec fn diff_mode_message(mode: DiffMode, head_key: Seq<char>, main_key: Seq<char>, other_key: Seq<char>) -> (
    Seq<char>,
    Seq<(Seq<char>, Seq<char>)>,
) {
    match mode {
        DiffMode::Head => (head_key, Seq::empty()),
        DiffMode::MainBranch => (main_key, Seq::empty()),
        DiffMode::OtherBranch(branch) => (other_key, seq![("branch"@, branch@)]),
    }
}

/// The text of a message in `locale`, if its template's placeholders all
/// have values.
pub open spec fn message_text(b: CatalogBundle, locale: LocaleId, m: (Seq<char>, Seq<(Seq<char>, Seq<char>)>)) -> Option<
    Seq<char>,
> {
    fill_spec(text_spec(b, locale, m.0), m.1)
}

/// The name of a diff set in `locale`.
pub open spec fn name_spec(b: CatalogBundle, locale: LocaleId, mode: DiffMode) -> Option<Seq<char>> {
    message_text(
        b,
        locale,
        diff_mode_message(
            mode,
            "search.diffset.name.uncommitted"@,
            "search.diffset.name.main_branch"@,
            "search.diffset.name.other_branch"@,
        ),
    )
}

/// The description of a diff set in `locale`.
pub open spec fn description_spec(b: CatalogBundle, locale: LocaleId, mode: DiffMode) -> Option<Seq<char>> {
    message_text(
        b,
        locale,
        diff_mode_message(
            mode,
            "search.diffset.description.uncommitted"@,
            "search.diffset.description.main_branch"@,
            "search.diffset.description.other_branch"@,
        ),
    )
}

fn render_mode(
    mode: &DiffMode,
    head_key: &str,
    main_key: &str,
    other_key: &str,
    catalogs: &CatalogBundle,
    locale: LocaleId,
) -> (r: Result<String, PlaceholderError>)
    ensures
        match r {
            Ok(s) => message_text(*catalogs, locale, diff_mode_message(*mode, head_key@, main_key@, other_key@))
                == Some(s@),
            Err(_) => message_text(
                *catalogs,
                locale,
                diff_mode_message(*mode, head_key@, main_key@, other_key@),
            ) is None,
        },
{
    let message = match mode {
        DiffMode::Head => LocalizedMessage { key: head_key.to_owned(), args: Vec::new() },
        DiffMode::MainBranch => LocalizedMessage { key: main_key.to_owned(), args: Vec::new() },
        DiffMode::OtherBranch(branch) => LocalizedMessage {
            key: other_key.to_owned(),
            args: args1("branch", branch.as_str()),
        },
    };
    proof {
        assert(crate::template::pairs_view(Seq::<(String, String)>::empty()) =~= Seq::<(Seq<char>, Seq<char>)>::empty());
    }
    catalogs.render(locale, &message)
}

impl DiffSetSearchItem {
    /// The name in `locale` (see [`name_spec`]).
    pub fn name_for_locale(&self, catalogs: &CatalogBundle, locale: LocaleId) -> (r: Result<String, PlaceholderError>)
        ensures
            match r {
                Ok(s) => name_spec(*catalogs, locale, self.diff_mode) == Some(s@),
                Err(_) => name_spec(*catalogs, locale, self.diff_mode) is None,
            },
    {
        render_mode(
            &self.diff_mode,
            "search.diffset.name.uncommitted",
            "search.diffset.name.main_branch",
            "search.diffset.name.other_branch",
            catalogs,
            locale,
        )
    }

    /// The name in US English.
    pub fn name(&self, catalogs: &CatalogBundle) -> (r: Result<String, PlaceholderError>)
        ensures
            match r {
                Ok(s) => name_spec(*catalogs, LocaleId::EnUs, self.diff_mode) == Some(s@),
                Err(_) => name_spec(*catalogs, LocaleId::EnUs, self.diff_mode) is None,
            },
    {
        self.name_for_locale(catalogs, LocaleId::EnUs)
    }

    /// The description in `locale` (see [`description_spec`]).
    pub fn description_for_locale(&self, catalogs: &CatalogBundle, locale: LocaleId) -> (r: Result<
        String,
        PlaceholderError,
    >)
        ensures
            match r {
                Ok(s) => description_spec(*catalogs, locale, self.diff_mode) == Some(s@),
                Err(_) => description_spec(*catalogs, locale, self.diff_mode) is None,
            },
    {
        render_mode(
            &self.diff_mode,
            "search.diffset.description.uncommitted",
            "search.diffset.description.main_branch",
            "search.diffset.description.other_branch",
            catalogs,
            locale,
        )
    }

    /// The description in US English.
    pub fn description(&self, catalogs: &CatalogBundle) -> (r: Result<String, PlaceholderError>)
        ensures
            match r {
                Ok(s) => description_spec(*catalogs, LocaleId::EnUs, self.diff_mode) == Some(s@),
                Err(_) => description_spec(*catalogs, LocaleId::EnUs, self.diff_mode) is None,
            },
    {
        self.description_for_locale(catalogs, LocaleId::EnUs)
    }

    /// Diff sets rank above the other results of the menu.
    pub fn priority_tier(&self) -> (tier: u8)
        ensures
            tier == 1,
    {
        1
    }

    /// The score of the match.
    pub fn score(&self) -> (s: i64)
        ensures
            s == self.match_result.score,
    {
        self.match_result.score
    }

    /// Accepting the result attaches the diff set.
    pub fn accept_result(&self) -> (a: AIContextMenuSearchableAction)
        ensures
            a == (AIContextMenuSearchableAction::InsertDiffSet { diff_mode: self.diff_mode }),
    {
        AIContextMenuSearchableAction::InsertDiffSet { diff_mode: copy_mode(&self.diff_mode) }
    }

    /// Executing the result does what accepting it does.
    pub fn execute_result(&self) -> (a: AIContextMenuSearchableAction)
        ensures
            a == (AIContextMenuSearchableAction::InsertDiffSet { diff_mode: self.diff_mode }),
    {
        self.accept_result()
    }

    /// The accessibility label in `locale`: the label template with the
    /// name and the description, both in `locale`.
    pub fn accessibility_label_for_locale(&self, catalogs: &CatalogBundle, locale: LocaleId) -> (r: Result<
        String,
        PlaceholderError,
    >)
        ensures
            match r {
                Ok(s) => name_spec(*catalogs, locale, self.diff_mode) matches Some(n) && description_spec(
                    *catalogs,
                    locale,
                    self.diff_mode,
                ) matches Some(d) && fill_spec(
                    text_spec(*catalogs, locale, "search.diffset.a11y.label"@),
                    seq![("name"@, n), ("description"@, d)],
                ) == Some(s@),
                Err(_) => match (
                    name_spec(*catalogs, locale, self.diff_mode),
                    description_spec(*catalogs, locale, self.diff_mode),
                ) {
                    (Some(n), Some(d)) => fill_spec(
                        text_spec(*catalogs, locale, "search.diffset.a11y.label"@),
                        seq![("name"@, n), ("description"@, d)],
                    ) is None,
                    _ => true,
                },
            },
    {
        let name = self.name_for_locale(catalogs, locale)?;
        let description = self.description_for_locale(catalogs, locale)?;
        catalogs.render(
            locale,
            &LocalizedMessage {
                key: "search.diffset.a11y.label".to_owned(),
                args: args2("name", name.as_str(), "description", description.as_str()),
            },
        )
    }

    /// The accessibility label in US English.
    pub fn accessibility_label(&self, catalogs: &CatalogBundle) -> (r: Result<String, PlaceholderError>)
        ensures
            match r {
                Ok(s) => name_spec(*catalogs, LocaleId::EnUs, self.diff_mode) matches Some(n)
                    && description_spec(*catalogs, LocaleId::EnUs, self.diff_mode) matches Some(d)
                    && fill_spec(
                    text_spec(*catalogs, LocaleId::EnUs, "search.diffset.a11y.label"@),
                    seq![("name"@, n), ("description"@, d)],
                ) == Some(s@),
                Err(_) => match (
                    name_spec(*catalogs, LocaleId::EnUs, self.diff_mode),
                    description_spec(*catalogs, LocaleId::EnUs, self.diff_mode),
                ) {
                    (Some(n), Some(d)) => fill_spec(
                        text_spec(*catalogs, LocaleId::EnUs, "search.diffset.a11y.label"@),
                        seq![("name"@, n), ("description"@, d)],
                    ) is None,
                    _ => true,
                },
            },
    {
        self.accessibility_label_for_locale(catalogs, LocaleId::EnUs)
    }
}

/// The text a diff set is searched by: its name in `locale`, preceded by
/// the US English name and a space where the two differ, so that either
/// language finds it.
pub open spec fn searchable_label_spec(b: CatalogBundle, locale: LocaleId, key: Seq<char>) -> Seq<char> {
    let localized = text_spec(b, locale, key);
    let english = text_spec(b, LocaleId::EnUs, key);
    if localized == english {
        localized
    } else {
        english + " "@ + localized
    }
}

/// The text a diff set is searched by (see [`searchable_label_spec`]).
pub fn searchable_label(catalogs: &CatalogBundle, locale: LocaleId, key: &str) -> (r: String)
    ensures
        r@ == searchable_label_spec(*catalogs, locale, key@),
{
    let localized = catalogs.text(locale, key);
    let english = catalogs.text(LocaleId::EnUs, key);
    let lc = chars_of(localized.as_str());
    let ec = chars_of(english.as_str());
    if chars_eq(lc.as_slice(), ec.as_slice()) {
        localized
    } else {
        let mut out: Vec<char> = Vec::new();
        extend_str(&mut out, english.as_str());
        extend_str(&mut out, " ");
        extend_str(&mut out, localized.as_str());
        string_from_chars(out.as_slice())
    }
}

/// The source of diff-set results in the AI context menu.
pub struct DiffSetDataSource;

impl DiffSetDataSource {
    /// The diff sets offered for a query, with the text each is matched
    /// against (see [`diffset_query_candidates`]).
    pub fn query_candidates(&self, catalogs: &CatalogBundle, locale: LocaleId) -> (r: Vec<(DiffMode, String)>)
        ensures
            r@.len() == 2,
            r@[0].0 == DiffMode::Head,
            r@[0].1@ == searchable_label_spec(*catalogs, locale, "search.diffset.name.uncommitted"@),
            r@[1].0 == DiffMode::MainBranch,
            r@[1].1@ == searchable_label_spec(*catalogs, locale, "search.diffset.name.main_branch"@),
    {
        diffset_query_candidates(catalogs, locale)
    }

    /// The results of a query, given how each candidate matched it (see
    /// [`diffset_query_results`]).
    pub fn run_query(&self, candidates: Vec<(DiffMode, String)>, matches: Vec<Option<FuzzyMatchResult>>) -> (r: Vec<
        DiffSetSearchItem,
    >)
        requires
            candidates@.len() == matches@.len(),
        ensures
            r@.map_values(|item: DiffSetSearchItem| result_view(item)) == matched_results(candidates@, matches@),
    {
        diffset_query_results(candidates, matches)
    }
}

/// The diff sets the menu offers for a query, with the text each one is
/// matched against: the uncommitted changes, then the main branch.
pub fn diffset_query_candidates(catalogs: &CatalogBundle, locale: LocaleId) -> (r: Vec<(DiffMode, String)>)
    ensures
        r@.len() == 2,
        r@[0].0 == DiffMode::Head,
        r@[0].1@ == searchable_label_spec(*catalogs, locale, "search.diffset.name.uncommitted"@),
        r@[1].0 == DiffMode::MainBranch,
        r@[1].1@ == searchable_label_spec(*catalogs, locale, "search.diffset.name.main_branch"@),
{
    let mut r: Vec<(DiffMode, String)> = Vec::new();
    r.push((DiffMode::Head, searchable_label(catalogs, locale, "search.diffset.name.uncommitted")));
    r.push((DiffMode::MainBranch, searchable_label(catalogs, locale, "search.diffset.name.main_branch")));
    r
}

/// A search result as plain values: the diff set, the score and the
/// matched positions.
pub open spec fn result_view(item: DiffSetSearchItem) -> (DiffMode, i64, Seq<usize>) {
    (item.diff_mode, item.match_result.score, item.match_result.matched_indices@)
}

/// The candidates whose text matched, in order, each with how it matched.
pub open spec fn matched_results(candidates: Seq<(DiffMode, String)>, matches: Seq<Option<FuzzyMatchResult>>) -> Seq<
    (DiffMode, i64, Seq<usize>),
>
    decreases candidates.len(),
{
    if candidates.len() == 0 || matches.len() == 0 {
        Seq::empty()
    } else {
        let rest = matched_results(candidates.drop_last(), matches.drop_last());
        match matches.last() {
            Some(m) => rest.push((candidates.last().0, m.score, m.matched_indices@)),
            None => rest,
        }
    }
}

/// The search results for the candidates that matched the query, in the
/// candidates' order: `matches[i]` is how the `i`-th candidate's text
/// matched, if it did (see [`matched_results`]).
pub fn diffset_query_results(candidates: Vec<(DiffMode, String)>, matches: Vec<Option<FuzzyMatchResult>>) -> (r: Vec<
    DiffSetSearchItem,
>)
    requires
        candidates@.len() == matches@.len(),
    ensures
        r@.map_values(|item: DiffSetSearchItem| result_view(item)) == matched_results(candidates@, matches@),
{
    let mut r: Vec<DiffSetSearchItem> = Vec::new();
    let mut i: usize = 0;
    while i < candidates.len()
        invariant
            i <= candidates@.len(),
            candidates@.len() == matches@.len(),
            r@.map_values(|item: DiffSetSearchItem| result_view(item)) == matched_results(
                candidates@.take(i as int),
                matches@.take(i as int),
            ),
        decreases candidates@.len() - i,
    {
        assert(candidates@.take(i + 1).drop_last() =~= candidates@.take(i as int));
        assert(matches@.take(i + 1).drop_last() =~= matches@.take(i as int));
        match &matches[i] {
            Some(m) => {
                let ghost before = r@;
                let indices = m.matched_indices.clone();
                assert(indices@ =~= m.matched_indices@);
                let item = DiffSetSearchItem {
                    diff_mode: copy_mode(&candidates[i].0),
                    match_result: FuzzyMatchResult { score: m.score, matched_indices: indices },
                };
                r.push(item);
                assert(r@.map_values(|item: DiffSetSearchItem| result_view(item)) =~= before.map_values(
                    |item: DiffSetSearchItem| result_view(item),
                ).push((candidates@[i as int].0, m.score, m.matched_indices@)));
            },
            None => {},
        }
        i = i + 1;
    }
    assert(candidates@.take(candidates@.len() as int) =~= candidates@);
    assert(matches@.take(matches@.len() as int) =~= matches@);
    r
}

} // verus!
