//! Window records, the backend interface, backend selection, and how a list
//! of matches resolves.

use vstd::prelude::*;

use crate::error::WasError;

verus! {

/// One open window as a backend reports it.
#[derive(Debug, Clone, PartialEq, Eq)]
pub struct WindowInfo {
    pub id: String,
    pub title: String,
    pub icon: String,
    pub subtext: String,
}

/// The text fields of a window.
pub struct WindowView {
    pub id: Seq<char>,
    pub title: Seq<char>,
    pub icon: Seq<char>,
    pub subtext: Seq<char>,
}

impl View for WindowInfo {
    type V = WindowView;

    open spec fn view(&self) -> WindowView {
        WindowView { id: self.id@, title: self.title@, icon: self.icon@, subtext: self.subtext@ }
    }
}

/// Lists and activates windows of one compositor.
pub trait WindowBackend {
    /// Listing the windows matching `query` once, from this state, can
    /// answer `result` and leave the record `after`. A backend that says
    /// nothing more leaves every answer and every record possible.
    open spec fn lists(
        &self,
        query: Seq<char>,
        result: Result<Vec<WindowInfo>, WasError>,
        after: Seq<Seq<char>>,
    ) -> bool {
        true
    }

    /// What this backend records of the listing and raising it has been
    /// asked to do, as far as it keeps such a record (nothing by default).
    open spec fn history(&self) -> Seq<Seq<char>> {
        Seq::empty()
    }

    /// Raising the window with id `id` once, from this state, can answer
    /// `result` and leave the record `after`. A backend that says nothing
    /// more leaves every answer and every record possible.
    open spec fn raises(&self, id: Seq<char>, result: Result<(), WasError>, after: Seq<Seq<char>>) -> bool {
        true
    }

    /// The windows matching `query`; an empty query lists every window.
    fn list_windows(&mut self, query: &str) -> (r: Result<Vec<WindowInfo>, WasError>)
        ensures
            old(self).lists(query@, r, final(self).history()),
    ;

    /// Raises the window with the given id.
    fn activate(&mut self, id: &str) -> (r: Result<(), WasError>)
        ensures
            old(self).raises(id@, r, final(self).history()),
    ;
}

/// The compositors that have a backend.
#[derive(Debug, Clone, Copy, PartialEq, Eq)]
pub enum Backend {
    Kde,
    Gnome,
}

/// The letters of "gnome" in lower case.
pub open spec fn gnome_lower() -> Seq<char> {
    seq!['g', 'n', 'o', 'm', 'e']
}

/// The letters of "gnome" in upper case.
pub open spec fn gnome_upper() -> Seq<char> {
    seq!['G', 'N', 'O', 'M', 'E']
}

/// "gnome", in any mix of ASCII case, starts at position `i` of `s`.
pub open spec fn gnome_at(s: Seq<char>, i: int) -> bool {
    &&& 0 <= i
    &&& i + 5 <= s.len()
    &&& forall|k: int| 0 <= k < 5 ==> #[trigger] s[i + k] == gnome_lower()[k] || s[i + k]
        == gnome_upper()[k]
}

/// The backend for a desktop name list (`XDG_CURRENT_DESKTOP`): GNOME when
/// "gnome" occurs in it in any case, KDE otherwise (also when it is empty).
pub open spec fn backend_for(desktop: Seq<char>) -> Backend {
    if exists|i: int| gnome_at(desktop, i) {
        Backend::Gnome
    } else {
        Backend::Kde
    }
}

/// The empty desktop name list selects the KDE backend.
pub proof fn law_empty_desktop_is_kde()
    ensures
        backend_for(Seq::empty()) == Backend::Kde,
{
    assert forall|i: int| !gnome_at(Seq::<char>::empty(), i) by {}
}

/// The GNOME backend is chosen exactly when the letters g, n, o, m, e, each
/// in either case, stand one after another somewhere in the desktop list.
pub proof fn law_gnome_chosen_when_named(desktop: Seq<char>)
    ensures
        backend_for(desktop) == Backend::Gnome <==> exists|i: int|
            0 <= i && i + 5 <= desktop.len() && (desktop[i] == 'g' || desktop[i] == 'G') && (
            desktop[i + 1] == 'n' || desktop[i + 1] == 'N') && (desktop[i + 2] == 'o' || desktop[i
                + 2] == 'O') && (desktop[i + 3] == 'm' || desktop[i + 3] == 'M') && (#[trigger] desktop[i
                + 4] == 'e' || desktop[i + 4] == 'E'),
{
    if backend_for(desktop) == Backend::Gnome {
        let i = choose|i: int| gnome_at(desktop, i);
        assert(desktop[i + 0] == gnome_lower()[0] || desktop[i + 0] == gnome_upper()[0]);
        assert(desktop[i + 1] == gnome_lower()[1] || desktop[i + 1] == gnome_upper()[1]);
        assert(desktop[i + 2] == gnome_lower()[2] || desktop[i + 2] == gnome_upper()[2]);
        assert(desktop[i + 3] == gnome_lower()[3] || desktop[i + 3] == gnome_upper()[3]);
        assert(desktop[i + 4] == gnome_lower()[4] || desktop[i + 4] == gnome_upper()[4]);
    } else {
        assert forall|i: int|
            0 <= i && i + 5 <= desktop.len() && (desktop[i] == 'g' || desktop[i] == 'G') && (
            desktop[i + 1] == 'n' || desktop[i + 1] == 'N') && (desktop[i + 2] == 'o' || desktop[i
                + 2] == 'O') && (desktop[i + 3] == 'm' || desktop[i + 3] == 'M') implies !(
            #[trigger] desktop[i + 4] == 'e' || desktop[i + 4] == 'E') by {
            if desktop[i + 4] == 'e' || desktop[i + 4] == 'E' {
                assert forall|k: int| 0 <= k < 5 implies #[trigger] desktop[i + k] == gnome_lower()[k]
                    || desktop[i + k] == gnome_upper()[k] by {
                    if k == 0 {
                        assert(desktop[i + k] == desktop[i]);
                    }
                }
                assert(gnome_at(desktop, i));
            }
        }
    }
}

fn gnome_at_index(s: &Vec<char>, i: usize) -> (b: bool)
    requires
        i + 5 <= s@.len(),
    ensures
        b == gnome_at(s@, i as int),
{
    let lower = ['g', 'n', 'o', 'm', 'e'];
    let upper = ['G', 'N', 'O', 'M', 'E'];
    assert(lower@ =~= gnome_lower());
    assert(upper@ =~= gnome_upper());
    let s_len = s.len();
    for k in 0..5
        invariant
            s_len == s@.len(),
            i + 5 <= s@.len(),
            lower@ == gnome_lower(),
            upper@ == gnome_upper(),
            forall|j: int| 0 <= j < k ==> #[trigger] s@[i + j] == gnome_lower()[j] || s@[i + j]
                == gnome_upper()[j],
    {
        let c = s[i + k];
        if c != lower[k] && c != upper[k] {
            return false;
        }
    }
    true
}

/// Picks the backend for the desktop name list `desktop`
/// (`XDG_CURRENT_DESKTOP`, a colon-separated list without fixed case).
pub fn backend_for_desktop(desktop: &str) -> (b: Backend)
    ensures
        b == backend_for(desktop@),
{
    let s = crate::text::chars_of(desktop);
    if s.len() < 5 {
        assert(forall|i: int| !gnome_at(s@, i));
        return Backend::Kde;
    }
    let last = s.len() - 5;
    for i in 0..last + 1
        invariant
            last + 5 == s@.len(),
            s@ == desktop@,
            forall|j: int| 0 <= j < i ==> !gnome_at(s@, j),
    {
        if gnome_at_index(&s, i) {
            return Backend::Gnome;
        }
    }
    assert forall|j: int| !gnome_at(s@, j) by {
        if 0 <= j <= last {
        }
    }
    Backend::Kde
}

/// How a list of matching windows resolves.
#[derive(Debug, Clone, PartialEq, Eq)]
pub enum MatchResolution {
    /// Nothing matched.
    NoMatch,
    /// Exactly one window matched: the one to raise, by id.
    Single(String),
    /// Several windows matched: a choice is needed.
    Ambiguous,
}

/// Classifies a list of matches by how many there are.
pub fn classify_matches(matches: &[WindowInfo]) -> (r: MatchResolution)
    ensures
        matches@.len() == 0 <==> r is NoMatch,
        matches@.len() == 1 <==> r is Single,
        matches@.len() >= 2 <==> r is Ambiguous,
        r matches MatchResolution::Single(id) ==> id@ == matches@[0].id@,
{
    if matches.len() == 0 {
        MatchResolution::NoMatch
    } else if matches.len() == 1 {
        MatchResolution::Single(matches[0].id.clone())
    } else {
        MatchResolution::Ambiguous
    }
}

} // verus!
