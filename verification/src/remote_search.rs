//! Codebase search on remote hosts: the protocol messages that go back to
//! the agent are worded in US English, whatever the user's language.

use vstd::prelude::*;

use crate::localization::{fill_spec, text_spec, CatalogBundle, LocaleId, LocalizedMessage, PlaceholderError};
use crate::template::pairs_view;

verus! {

/// Why a codebase search failed.
#[derive(Clone, Copy, Debug, PartialEq, Eq, Structural)]
pub enum SearchCodebaseFailureReason {
    CodebaseNotIndexed,
}

/// A failed codebase search: why, and the message for the agent.
#[derive(Clone, Debug)]
pub struct SearchCodebaseFailure {
    pub reason: SearchCodebaseFailureReason,
    pub message: String,
}

/// A protocol message: the US English text of `key`.
pub fn protocol_message(catalogs: &CatalogBundle, key: &str) -> (r: String)
    ensures
        r@ == text_spec(*catalogs, LocaleId::EnUs, key@),
{
    catalogs.text(LocaleId::EnUs, key)
}

/// The message for a codebase search that failed: the US English text.
pub fn search_failed_message(catalogs: &CatalogBundle) -> (r: String)
    ensures
        r@ == text_spec(*catalogs, LocaleId::EnUs, "agent.search_codebase.error.search_failed"@),
{
    protocol_message(catalogs, "agent.search_codebase.error.search_failed")
}

/// The message for a codebase that cannot be searched: the US English text.
pub fn codebase_unavailable_message(catalogs: &CatalogBundle) -> (r: String)
    ensures
        r@ == text_spec(*catalogs, LocaleId::EnUs, "agent.search_codebase.error.codebase_unavailable"@),
{
    protocol_message(catalogs, "agent.search_codebase.error.codebase_unavailable")
}

/// A protocol message with placeholders: the US English template of `key`,
/// filled; `Err` where it names a placeholder without a value.
pub fn protocol_message_with_args(catalogs: &CatalogBundle, key: &str, args: &Vec<(String, String)>) -> (r: Result<
    String,
    PlaceholderError,
>)
    ensures
        match r {
            Ok(s) => fill_spec(text_spec(*catalogs, LocaleId::EnUs, key@), pairs_view(args@)) == Some(s@),
            Err(_) => fill_spec(text_spec(*catalogs, LocaleId::EnUs, key@), pairs_view(args@)) is None,
        },
{
    let mut copy: Vec<(String, String)> = Vec::new();
    let mut i: usize = 0;
    while i < args.len()
        invariant
            i <= args@.len(),
            pairs_view(copy@) == pairs_view(args@).take(i as int),
        decreases args@.len() - i,
    {
        let ghost before = copy@;
        copy.push((args[i].0.clone(), args[i].1.clone()));
        assert(pairs_view(copy@) =~= pairs_view(before).push((args@[i as int].0@, args@[i as int].1@)));
        assert(pairs_view(args@).take(i + 1) =~= pairs_view(args@).take(i as int).push(
            (args@[i as int].0@, args@[i as int].1@),
        ));
        i = i + 1;
    }
    assert(pairs_view(args@).take(args@.len() as int) =~= pairs_view(args@));
    catalogs.render(LocaleId::EnUs, &LocalizedMessage { key: key.to_owned(), args: copy })
}

/// The answer to a search on a build without remote search: the codebase is
/// not indexed, and remote search is unavailable.
pub fn send_request(catalogs: &CatalogBundle) -> (r: SearchCodebaseFailure)
    ensures
        r.reason == SearchCodebaseFailureReason::CodebaseNotIndexed,
        r.message@ == text_spec(*catalogs, LocaleId::EnUs, "agent.search_codebase.error.remote_unavailable"@),
{
    SearchCodebaseFailure {
        reason: SearchCodebaseFailureReason::CodebaseNotIndexed,
        message: protocol_message(catalogs, "agent.search_codebase.error.remote_unavailable"),
    }
}

} // verus!
