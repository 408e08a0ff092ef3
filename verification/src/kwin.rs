//! The KWin backend's logic: turning a `Match` result into a window record.

use vstd::prelude::*;

use crate::backend::{WindowInfo, WindowView};

verus! {

/// One result of KWin's `org.kde.krunner1.Match` call, as far as it is
/// read: the id, the text (the window title), the icon name, and the
/// `subtext` property when it is present and a string.
#[derive(Debug, Clone, PartialEq, Eq)]
pub struct KWinMatch {
    pub id: String,
    pub title: String,
    pub icon: String,
    pub subtext: Option<String>,
}

/// The window record for a KWin match: its fields, with an empty subtext
/// when the match has none.
pub open spec fn kwin_window_view(m: KWinMatch) -> WindowView {
    WindowView {
        id: m.id@,
        title: m.title@,
        icon: m.icon@,
        subtext: match m.subtext {
            Some(s) => s@,
            None => Seq::empty(),
        },
    }
}

/// Turns a KWin match into a window record.
pub fn window_info_from_match(m: KWinMatch) -> (info: WindowInfo)
    ensures
        info@ == kwin_window_view(m),
        info.id@ == m.id@,
        info.title@ == m.title@,
        info.icon@ == m.icon@,
        m.subtext matches Some(s) ==> info.subtext@ == s@,
        m.subtext is None ==> info.subtext@.len() == 0,
{
    let subtext = match m.subtext {
        Some(s) => s,
        None => String::new(),
    };
    WindowInfo { id: m.id, title: m.title, icon: m.icon, subtext }
}

/// Turns the results of a `Match` call into window records, in order.
pub fn windows_from_matches(matches: Vec<KWinMatch>) -> (infos: Vec<WindowInfo>)
    ensures
        infos@.map_values(|w: WindowInfo| w@) == matches@.map_values(|m: KWinMatch| kwin_window_view(m)),
{
    let ghost all = matches@;
    let mut rest = matches;
    let mut infos: Vec<WindowInfo> = Vec::new();
    let n = rest.len();
    for k in 0..n
        invariant
            n == all.len(),
            rest@ == all.skip(k as int),
            infos@.map_values(|w: WindowInfo| w@) == all.take(k as int).map_values(
                |m: KWinMatch| kwin_window_view(m),
            ),
    {
        let ghost before = infos@.map_values(|w: WindowInfo| w@);
        let m = rest.remove(0);
        assert(m == all[k as int]);
        assert(rest@ =~= all.skip(k + 1));
        let info = window_info_from_match(m);
        infos.push(info);
        assert(all.take(k + 1) =~= all.take(k as int).push(all[k as int]));
        assert(infos@.map_values(|w: WindowInfo| w@) =~= before.push(kwin_window_view(all[k as int])));
        assert(infos@.map_values(|w: WindowInfo| w@) =~= all.take(k + 1).map_values(
            |m: KWinMatch| kwin_window_view(m),
        ));
    }
    assert(all.take(n as int) =~= all);
    infos
}

} // verus!
