//! The `list` command's logic: which query is asked for and how a window
//! prints.

use vstd::prelude::*;
use vstd::string::StringExecFns;

use crate::backend::{WindowBackend, WindowInfo};
use crate::error::WasError;

verus! {

/// The query that listing asks the backend for: the given one, or the
/// empty query (every window) when none is given.
pub open spec fn list_query(query: Option<Seq<char>>) -> Seq<char> {
    match query {
        Some(q) => q,
        None => Seq::empty(),
    }
}

/// A given query is handed to the backend verbatim, whatever its length or
/// content; no query is the empty query, which lists every window.
pub proof fn law_given_query_is_kept(q: Seq<char>)
    ensures
        list_query(Some(q)) == q,
        list_query(None) == Seq::<char>::empty(),
{
}

/// The query that listing hands to the backend: the given one verbatim,
/// or the empty query when none is given.
pub fn effective_query<'a>(query: Option<&'a str>) -> (q: &'a str)
    ensures
        query matches Some(s) ==> q@ == s@,
        query is None ==> q@.len() == 0,
        q@ == list_query(
            match query {
                Some(s) => Some(s@),
                None => None,
            },
        ),
{
    match query {
        Some(q) => q,
        None => {
            let q = "";
            proof {
                reveal_strlit("");
            }
            q
        },
    }
}

/// Lists the windows matching `query`, every window when it is `None`:
/// the backend is asked once, for that query, and its answer is the result.
pub fn list_windows<B: WindowBackend + ?Sized>(backend: &mut B, query: Option<&str>) -> (r: Result<
    Vec<WindowInfo>,
    WasError,
>)
    ensures
        old(backend).lists(
            list_query(
                match query {
                    Some(s) => Some(s@),
                    None => None,
                },
            ),
            r,
            final(backend).history(),
        ),
{
    backend.list_windows(effective_query(query))
}

/// A printed row: id, title and subtext, separated by tabs.
pub open spec fn row_text(w: WindowInfo) -> Seq<char> {
    w.id@ + seq!['\t'] + w.title@ + seq!['\t'] + w.subtext@
}

/// Renders a window as a row `id<TAB>title<TAB>subtext`.
pub fn format_row(w: &WindowInfo) -> (row: String)
    ensures
        row@ == row_text(*w),
        row@ == w.id@ + seq!['\t'] + w.title@ + seq!['\t'] + w.subtext@,
{
    proof {
        reveal_strlit("\t");
    }
    let mut row = w.id.clone();
    row.append("\t");
    row.append(w.title.as_str());
    row.append("\t");
    row.append(w.subtext.as_str());
    row
}

} // verus!
