//! Raising the window that a query names: directly when one window matches,
//! through a picker when several do.

use vstd::prelude::*;
use vstd::string::StringExecFns;

use crate::backend::{classify_matches, MatchResolution, WindowBackend, WindowInfo};
use crate::error::WasError;
use crate::picker::Picker;

verus! {

/// What `resolve` does after listing.
#[derive(Debug)]
pub enum ResolveAction {
    /// Stop with this error.
    Fail(WasError),
    /// Raise the window with this id.
    Activate(String),
    /// Stop without raising anything.
    Done,
}

/// Decides what `resolve` does once the backend has listed `matches` for
/// `query` and, when several matched, the picker returned `picked`:
/// no match fails naming the query, one match is raised, several raise the
/// picked window, and a cancelled pick raises nothing.
pub fn resolution(query: &str, matches: &[WindowInfo], picked: Option<String>) -> (r: ResolveAction)
    ensures
        matches@.len() == 0 ==> (r matches ResolveAction::Fail(WasError::NoWindowsMatched { query: q })
            && q@ == query@),
        matches@.len() == 1 ==> (r matches ResolveAction::Activate(id) && id@ == matches@[0].id@),
        matches@.len() >= 2 ==> match picked {
            Some(p) => r == ResolveAction::Activate(p),
            None => r is Done,
        },
{
    match classify_matches(matches) {
        MatchResolution::NoMatch => ResolveAction::Fail(
            WasError::NoWindowsMatched { query: String::from_str(query) },
        ),
        MatchResolution::Single(id) => ResolveAction::Activate(id),
        MatchResolution::Ambiguous => match picked {
            Some(id) => ResolveAction::Activate(id),
            None => ResolveAction::Done,
        },
    }
}

/// What `resolve` does once the backend has answered `listing` to the
/// listing for `query` and is then in state `listed`; it ends with the
/// backend in state `backend_after`, the picker (in state `picker`) in state
/// `picker_after`, and the result `r`:
/// - a listing error is returned, nothing else is asked of either;
/// - no match is an error naming the query, nothing else is asked;
/// - one match is raised once, without consulting the picker, and the
///   result is what raising it answered;
/// - several matches are offered to the picker once; a cancel raises
///   nothing and succeeds, a choice is raised once and the result is what
///   raising it answered.
pub open spec fn resolve_outcome<B: WindowBackend + ?Sized, P: Picker + ?Sized>(
    listed: &B,
    backend_after: &B,
    picker: &P,
    picker_after: &P,
    query: Seq<char>,
    listing: Result<Vec<WindowInfo>, WasError>,
    r: Result<(), WasError>,
) -> bool {
    match listing {
        Err(e) => {
            &&& r == Err::<(), WasError>(e)
            &&& backend_after == listed
            &&& picker_after == picker
        },
        Ok(ws) => if ws@.len() == 0 {
            &&& r matches Err(WasError::NoWindowsMatched { query: q }) && q@ == query
            &&& backend_after == listed
            &&& picker_after == picker
        } else if ws@.len() == 1 {
            &&& listed.raises(ws@[0].id@, r, backend_after.history())
            &&& picker_after == picker
        } else {
            exists|picked: Option<String>|
                #[trigger] picker.picks(ws@, picked, picker_after.pick_history()) && match picked {
                    None => r == Ok::<(), WasError>(()) && backend_after == listed,
                    Some(id) => listed.raises(id@, r, backend_after.history()),
                }
        },
    }
}

/// Lists the windows matching `query` once and raises one: the only match
/// at once, or the one chosen with `picker` when several match (the picker
/// is consulted only then). No match is an error naming the query; a
/// cancelled choice raises nothing and is no error. The calls made and the
/// result follow from the backend's answer to that one listing, as
/// `resolve_outcome` says.
pub fn resolve<B: WindowBackend, P: Picker + ?Sized>(
    backend: &mut B,
    picker: &mut P,
    query: &str,
) -> (r: Result<(), WasError>)
    ensures
        exists|listing: Result<Vec<WindowInfo>, WasError>, listed: B|
            #[trigger] old(backend).lists(query@, listing, listed.history()) && resolve_outcome(
                &listed,
                final(backend),
                old(picker),
                final(picker),
                query@,
                listing,
                r,
            ),
{
    let listing = backend.list_windows(query);
    let ghost listed = *backend;
    let matches = match listing {
        Err(e) => {
            let r = Err(e);
            assert(resolve_outcome(&listed, backend, old(picker), picker, query@, listing, r));
            return r;
        },
        Ok(ws) => ws,
    };
    let ghost listed_answer = Ok::<Vec<WindowInfo>, WasError>(matches);
    assert(old(backend).lists(query@, listed_answer, listed.history()));
    let several = matches.len() >= 2;
    let picked = if several {
        picker.pick(matches.as_slice())
    } else {
        None
    };
    let r = match resolution(query, matches.as_slice(), picked) {
        ResolveAction::Fail(e) => Err(e),
        ResolveAction::Activate(id) => backend.activate(id.as_str()),
        ResolveAction::Done => Ok(()),
    };
    assert(resolve_outcome(&listed, backend, old(picker), picker, query@, listed_answer, r));
    r
}

/// When the listing fails, `resolve` returns that error and asks nothing
/// more of the backend or the picker.
pub proof fn law_resolve_listing_error<B: WindowBackend + ?Sized, P: Picker + ?Sized>(
    listed: &B,
    backend_after: &B,
    picker: &P,
    picker_after: &P,
    query: Seq<char>,
    e: WasError,
    r: Result<(), WasError>,
)
    requires
        resolve_outcome(listed, backend_after, picker, picker_after, query, Err(e), r),
    ensures
        r == Err::<(), WasError>(e),
        backend_after == listed,
        picker_after == picker,
{
}

/// When nothing matches, `resolve` fails with an error naming the query,
/// raises nothing and does not consult the picker.
pub proof fn law_resolve_no_match<B: WindowBackend + ?Sized, P: Picker + ?Sized>(
    listed: &B,
    backend_after: &B,
    picker: &P,
    picker_after: &P,
    query: Seq<char>,
    ws: Vec<WindowInfo>,
    r: Result<(), WasError>,
)
    requires
        ws@.len() == 0,
        resolve_outcome(listed, backend_after, picker, picker_after, query, Ok(ws), r),
    ensures
        r matches Err(WasError::NoWindowsMatched { query: q }) && q@ == query,
        backend_after == listed,
        picker_after == picker,
{
}

/// When exactly one window matches, `resolve` raises that window once,
/// returns what raising it answered, and does not consult the picker.
pub proof fn law_resolve_single_match<B: WindowBackend + ?Sized, P: Picker + ?Sized>(
    listed: &B,
    backend_after: &B,
    picker: &P,
    picker_after: &P,
    query: Seq<char>,
    ws: Vec<WindowInfo>,
    r: Result<(), WasError>,
)
    requires
        ws@.len() == 1,
        resolve_outcome(listed, backend_after, picker, picker_after, query, Ok(ws), r),
    ensures
        listed.raises(ws@[0].id@, r, backend_after.history()),
        picker_after == picker,
{
}

/// When several windows match and the picker's only possible answer to
/// them is the id `id`, `resolve` raises exactly the window `id`, once, and
/// returns what raising it answered, whichever window comes first.
pub proof fn law_resolve_raises_the_picked_window<B: WindowBackend + ?Sized, P: Picker + ?Sized>(
    listed: &B,
    backend_after: &B,
    picker: &P,
    picker_after: &P,
    query: Seq<char>,
    ws: Vec<WindowInfo>,
    id: String,
    r: Result<(), WasError>,
)
    requires
        ws@.len() >= 2,
        forall|c: Option<String>, h: Seq<Seq<char>>| #[trigger] picker.picks(ws@, c, h) ==> c == Some(id),
        resolve_outcome(listed, backend_after, picker, picker_after, query, Ok(ws), r),
    ensures
        listed.raises(id@, r, backend_after.history()),
        picker.picks(ws@, Some(id), picker_after.pick_history()),
{
    let picked = choose|picked: Option<String>|
        #[trigger] picker.picks(ws@, picked, picker_after.pick_history()) && match picked {
            None => r == Ok::<(), WasError>(()) && backend_after == listed,
            Some(x) => listed.raises(x@, r, backend_after.history()),
        };
    assert(picked == Some(id));
}

/// When several windows match and the picker can only cancel, `resolve`
/// raises nothing and succeeds.
pub proof fn law_resolve_cancel_raises_nothing<B: WindowBackend + ?Sized, P: Picker + ?Sized>(
    listed: &B,
    backend_after: &B,
    picker: &P,
    picker_after: &P,
    query: Seq<char>,
    ws: Vec<WindowInfo>,
    r: Result<(), WasError>,
)
    requires
        ws@.len() >= 2,
        forall|c: Option<String>, h: Seq<Seq<char>>| #[trigger] picker.picks(ws@, c, h) ==> c is None,
        resolve_outcome(listed, backend_after, picker, picker_after, query, Ok(ws), r),
    ensures
        r == Ok::<(), WasError>(()),
        backend_after == listed,
        picker.picks(ws@, None, picker_after.pick_history()),
{
    let picked = choose|picked: Option<String>|
        #[trigger] picker.picks(ws@, picked, picker_after.pick_history()) && match picked {
            None => r == Ok::<(), WasError>(()) && backend_after == listed,
            Some(x) => listed.raises(x@, r, backend_after.history()),
        };
    assert(picked is None);
}

} // verus!
