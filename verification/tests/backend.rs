use wayland_application_switcher::backend::{
    backend_for_desktop, classify_matches, Backend, MatchResolution, WindowInfo,
};
use wayland_application_switcher::kwin::{window_info_from_match, windows_from_matches, KWinMatch};

#[test]
fn plain_kde_selects_kde_backend() {
    assert_eq!(backend_for_desktop("KDE"), Backend::Kde);
}

#[test]
fn plain_gnome_selects_gnome_backend() {
    assert_eq!(backend_for_desktop("GNOME"), Backend::Gnome);
}

#[test]
fn colon_separated_desktop_list_containing_gnome_selects_gnome() {
    assert_eq!(backend_for_desktop("ubuntu:GNOME"), Backend::Gnome);
    assert_eq!(backend_for_desktop("Gnome-Classic"), Backend::Gnome);
}

#[test]
fn unknown_or_unset_desktop_falls_back_to_kde() {
    assert_eq!(backend_for_desktop("XFCE"), Backend::Kde);
    assert_eq!(backend_for_desktop(""), Backend::Kde);
    assert_eq!(backend_for_desktop("gnom"), Backend::Kde);
}

fn window(id: &str) -> WindowInfo {
    WindowInfo { id: id.to_string(), title: String::new(), icon: String::new(), subtext: String::new() }
}

#[test]
fn matches_classify_by_count() {
    assert_eq!(classify_matches(&[]), MatchResolution::NoMatch);
    assert_eq!(classify_matches(&[window("7")]), MatchResolution::Single("7".to_string()));
    assert_eq!(classify_matches(&[window("7"), window("8")]), MatchResolution::Ambiguous);
}

#[test]
fn subtext_extracted_when_present_and_a_string() {
    let info = window_info_from_match(KWinMatch {
        id: "id-1".to_string(),
        title: "Some Window".to_string(),
        icon: "some-icon".to_string(),
        subtext: Some("Activate running window on Desktop 1".to_string()),
    });
    assert_eq!(info.subtext, "Activate running window on Desktop 1");
    assert_eq!(info.id, "id-1");
    assert_eq!(info.title, "Some Window");
    assert_eq!(info.icon, "some-icon");
}

#[test]
fn subtext_defaults_to_empty_when_key_missing() {
    let info = window_info_from_match(KWinMatch {
        id: "id-1".to_string(),
        title: "Some Window".to_string(),
        icon: "some-icon".to_string(),
        subtext: None,
    });
    assert_eq!(info.subtext, "");
}

#[test]
fn matches_map_to_windows_in_order() {
    let m = |id: &str, sub: Option<&str>| KWinMatch {
        id: id.to_string(),
        title: format!("T{id}"),
        icon: String::new(),
        subtext: sub.map(|s| s.to_string()),
    };
    let infos = windows_from_matches(vec![m("b", Some("x")), m("a", None)]);
    assert_eq!(infos.len(), 2);
    assert_eq!(infos[0].id, "b");
    assert_eq!(infos[0].subtext, "x");
    assert_eq!(infos[1].id, "a");
    assert_eq!(infos[1].title, "Ta");
    assert_eq!(infos[1].subtext, "");
}
