//! The `notify` command's decisions: which notification signal settles the
//! wait, and what a click raises.

use vstd::prelude::*;
use vstd::string::StringExecFns;

use crate::backend::{classify_matches, MatchResolution, WindowBackend, WindowInfo};
use crate::error::WasError;
use crate::timeout::TimeoutError;

verus! {

/// A signal from the notification server.
#[derive(Debug, Clone, PartialEq, Eq)]
pub enum NotifyEvent {
    /// An action of notification `id` was invoked; a click is `"default"`.
    ActionInvoked { id: u32, action_key: String },
    /// Notification `id` was closed.
    Closed { id: u32 },
}

/// The notification that an event is about.
pub open spec fn event_id(event: NotifyEvent) -> u32 {
    match event {
        NotifyEvent::ActionInvoked { id, .. } => id,
        NotifyEvent::Closed { id } => id,
    }
}

/// Decides whether `event` settles the wait for notification `target_id`:
/// `Some(true)` when it was clicked (its "default" action), `Some(false)`
/// when it was closed, and `None` for any other event, which is waited past.
pub fn should_activate(target_id: u32, event: NotifyEvent) -> (r: Option<bool>)
    ensures
        r == Some(true) <==> (event matches NotifyEvent::ActionInvoked { id, action_key }
            && id == target_id && action_key@ == "default"@),
        r == Some(false) <==> (event matches NotifyEvent::Closed { id } && id == target_id),
        event_id(event) != target_id ==> r is None,
{
    match event {
        NotifyEvent::ActionInvoked { id, action_key } => {
            let default_key = String::from_str("default");
            if id == target_id && action_key == default_key {
                Some(true)
            } else {
                None
            }
        },
        NotifyEvent::Closed { id } => {
            if id == target_id {
                Some(false)
            } else {
                None
            }
        },
    }
}

/// How long the wait for a click or a close may last: 24 hours.
pub const NOTIFY_WAIT_SECONDS: u64 = 86400;

/// How the bounded wait for a click ends: the decision or error it came
/// to; no raise when the time ran out (as for a dismissal); an error naming
/// the wait when the waiting thread died.
pub fn wait_decision(waited: Result<Result<bool, WasError>, TimeoutError>) -> (r: Result<bool, WasError>)
    ensures
        match waited {
            Ok(decision) => r == decision,
            Err(TimeoutError::Elapsed) => r == Ok::<bool, WasError>(false),
            Err(TimeoutError::WorkerPanicked) => r matches Err(WasError::WorkerPanicked { server: s })
                && s@ == "notification wait"@,
        },
{
    match waited {
        Ok(decision) => decision,
        Err(TimeoutError::Elapsed) => Ok(false),
        Err(TimeoutError::WorkerPanicked) => Err(
            WasError::WorkerPanicked { server: String::from_str("notification wait") },
        ),
    }
}

/// What a click on the notification does once the windows matching the
/// query are known.
#[derive(Debug)]
pub enum ClickAction {
    /// Stop with this error.
    Fail(WasError),
    /// Raise the window with this id.
    Activate(String),
    /// Raise nothing and report these candidates.
    Report(Vec<WindowInfo>),
}

/// Decides what a click does with the windows `matches` listed for `query`:
/// no match fails naming the query, one match is raised, and several are
/// reported without raising any (a click has no terminal for a picker).
pub fn click_action(query: &str, matches: Vec<WindowInfo>) -> (r: ClickAction)
    ensures
        matches@.len() == 0 ==> (r matches ClickAction::Fail(WasError::NoWindowsMatched { query: q })
            && q@ == query@),
        matches@.len() == 1 ==> (r matches ClickAction::Activate(id) && id@ == matches@[0].id@),
        matches@.len() >= 2 ==> r == ClickAction::Report(matches),
{
    match classify_matches(matches.as_slice()) {
        MatchResolution::NoMatch => ClickAction::Fail(
            WasError::NoWindowsMatched { query: String::from_str(query) },
        ),
        MatchResolution::Single(id) => ClickAction::Activate(id),
        MatchResolution::Ambiguous => ClickAction::Report(matches),
    }
}

/// What `activate_after_click` does once the backend has answered
/// `listing` to the listing for `query` and is then in state `listed`,
/// ending in state `backend_after` with result `r`:
/// - a listing error is returned, nothing is raised;
/// - no match is an error naming the query, nothing is raised;
/// - one match is raised once; its error is returned, else no candidates;
/// - several matches are all returned as candidates, nothing is raised.
pub open spec fn click_outcome<B: WindowBackend + ?Sized>(
    listed: &B,
    backend_after: &B,
    query: Seq<char>,
    listing: Result<Vec<WindowInfo>, WasError>,
    r: Result<Vec<WindowInfo>, WasError>,
) -> bool {
    match listing {
        Err(e) => r == Err::<Vec<WindowInfo>, WasError>(e) && backend_after == listed,
        Ok(ws) => if ws@.len() == 0 {
            &&& r matches Err(WasError::NoWindowsMatched { query: q }) && q@ == query
            &&& backend_after == listed
        } else if ws@.len() == 1 {
            exists|raised: Result<(), WasError>|
                #[trigger] listed.raises(ws@[0].id@, raised, backend_after.history()) && match raised {
                    Ok(()) => r matches Ok(left) && left@.len() == 0,
                    Err(e) => r == Err::<Vec<WindowInfo>, WasError>(e),
                }
        } else {
            r == Ok::<Vec<WindowInfo>, WasError>(ws) && backend_after == listed
        },
    }
}

/// Lists the windows matching `query` once after a click and raises the
/// match, unless several match: then nothing is raised and the candidates
/// come back to be reported (the result is empty when a window was raised).
/// The calls made and the result follow from the backend's answer to that
/// one listing, as `click_outcome` says.
pub fn activate_after_click<B: WindowBackend>(backend: &mut B, query: &str) -> (r: Result<
    Vec<WindowInfo>,
    WasError,
>)
    ensures
        exists|listing: Result<Vec<WindowInfo>, WasError>, listed: B|
            #[trigger] old(backend).lists(query@, listing, listed.history()) && click_outcome(
                &listed,
                final(backend),
                query@,
                listing,
                r,
            ),
{
    let listing = backend.list_windows(query);
    let ghost listed = *backend;
    let matches = match listing {
        Err(e) => {
            let r = Err(e);
            assert(click_outcome(&listed, backend, query@, listing, r));
            return r;
        },
        Ok(ws) => ws,
    };
    let ghost listed_answer = Ok::<Vec<WindowInfo>, WasError>(matches);
    assert(old(backend).lists(query@, listed_answer, listed.history()));
    let r = match click_action(query, matches) {
        ClickAction::Fail(e) => Err(e),
        ClickAction::Activate(id) => {
            let raised = backend.activate(id.as_str());
            match raised {
                Ok(()) => Ok(Vec::new()),
                Err(e) => Err(e),
            }
        },
        ClickAction::Report(candidates) => Ok(candidates),
    };
    assert(click_outcome(&listed, backend, query@, listed_answer, r));
    r
}

/// When two or more windows match, a click raises nothing and returns
/// exactly the listed windows, in order, as candidates.
pub proof fn law_ambiguous_click_raises_nothing<B: WindowBackend + ?Sized>(
    listed: &B,
    backend_after: &B,
    query: Seq<char>,
    ws: Vec<WindowInfo>,
    r: Result<Vec<WindowInfo>, WasError>,
)
    requires
        ws@.len() >= 2,
        click_outcome(listed, backend_after, query, Ok(ws), r),
    ensures
        backend_after == listed,
        r matches Ok(candidates) && candidates@ == ws@,
{
}

/// When exactly one window matches, a click raises that window once: when
/// raising it fails, that error is returned, else no candidates.
pub proof fn law_single_click_raises_the_match<B: WindowBackend + ?Sized>(
    listed: &B,
    backend_after: &B,
    query: Seq<char>,
    ws: Vec<WindowInfo>,
    r: Result<Vec<WindowInfo>, WasError>,
)
    requires
        ws@.len() == 1,
        click_outcome(listed, backend_after, query, Ok(ws), r),
    ensures
        exists|raised: Result<(), WasError>|
            #[trigger] listed.raises(ws@[0].id@, raised, backend_after.history()) && (raised is Ok
                ==> (r matches Ok(left) && left@.len() == 0)) && (raised matches Err(e) ==> r
                == Err::<Vec<WindowInfo>, WasError>(e)),
{
}

/// When nothing matches, or the listing fails, a click raises nothing and
/// fails: with the listing's error, or with an error naming the query.
pub proof fn law_click_without_match_raises_nothing<B: WindowBackend + ?Sized>(
    listed: &B,
    backend_after: &B,
    query: Seq<char>,
    listing: Result<Vec<WindowInfo>, WasError>,
    r: Result<Vec<WindowInfo>, WasError>,
)
    requires
        listing matches Ok(ws) ==> ws@.len() == 0,
        click_outcome(listed, backend_after, query, listing, r),
    ensures
        backend_after == listed,
        listing matches Err(e) ==> r == Err::<Vec<WindowInfo>, WasError>(e),
        listing is Ok ==> (r matches Err(WasError::NoWindowsMatched { query: q }) && q@ == query),
{
}

/// The header printed above the candidates that a click left unraised.
pub open spec fn ambiguous_header_text(query: Seq<char>) -> Seq<char> {
    "was: \""@ + query + "\" is ambiguous, not activating anything:"@
}

/// Renders the header printed above the unraised candidates.
pub fn ambiguous_header(query: &str) -> (line: String)
    ensures
        line@ == ambiguous_header_text(query@),
        line@ == "was: \""@ + query@ + "\" is ambiguous, not activating anything:"@,
{
    let mut line = String::from_str("was: \"");
    line.append(query);
    line.append("\" is ambiguous, not activating anything:");
    line
}

/// A reported candidate: two spaces, the id, a tab and the title.
pub open spec fn candidate_text(w: WindowInfo) -> Seq<char> {
    seq![' ', ' '] + w.id@ + seq!['\t'] + w.title@
}

/// Renders a candidate that a click left unraised.
pub fn candidate_line(w: &WindowInfo) -> (line: String)
    ensures
        line@ == candidate_text(*w),
        line@ == seq![' ', ' '] + w.id@ + seq!['\t'] + w.title@,
{
    proof {
        reveal_strlit("  ");
        reveal_strlit("\t");
    }
    let mut line = String::from_str("  ");
    line.append(w.id.as_str());
    line.append("\t");
    line.append(w.title.as_str());
    line
}

} // verus!
