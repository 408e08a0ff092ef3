use wayland_application_switcher::backend::WindowInfo;
use wayland_application_switcher::gnome::{
    lowered_fields_match, matches_query, parse_window_id, window_info_from_gnome_window, windows_matching, GnomeWindow,
};

fn window(id: u32, title: &str, wm_class: &str, workspace: i32) -> GnomeWindow {
    GnomeWindow {
        id,
        title: Some(title.to_string()),
        wm_class: Some(wm_class.to_string()),
        workspace: Some(workspace),
    }
}

#[test]
fn empty_query_matches_everything() {
    let w = window(1, "Firefox", "firefox", 0);
    assert!(matches_query(&w, ""));
}

#[test]
fn query_matches_title_case_insensitively() {
    let w = window(1, "Mozilla Firefox", "firefox", 0);
    assert!(matches_query(&w, "FIREFOX"));
}

#[test]
fn query_matches_wm_class_case_insensitively() {
    let w = window(1, "some window", "Konsole", 0);
    assert!(matches_query(&w, "konsole"));
}

#[test]
fn query_matching_neither_field_is_rejected() {
    let w = window(1, "Firefox", "firefox", 0);
    assert!(!matches_query(&w, "konsole"));
}

#[test]
fn multi_word_query_matches_tokens_in_any_order() {
    let w = window(1, "Mozilla Firefox", "firefox", 0);
    assert!(matches_query(&w, "firefox mozilla"));
}

#[test]
fn multi_word_query_tokens_may_match_different_fields() {
    let w = window(1, "some window", "Konsole", 0);
    assert!(matches_query(&w, "konsole window"));
}

#[test]
fn multi_word_query_with_an_unmatched_token_is_rejected() {
    let w = window(1, "Mozilla Firefox", "firefox", 0);
    assert!(!matches_query(&w, "firefox konsole"));
}

#[test]
fn windows_matching_filters_and_maps_end_to_end() {
    let records = vec![
        Ok(window(1, "Mozilla Firefox", "firefox", 0)),
        Ok(window(2, "Terminal", "Konsole", 1)),
    ];
    let listing = windows_matching(records, "firefox");
    let infos = listing.windows;
    assert_eq!(infos.len(), 1);
    assert_eq!(infos[0].id, "1");
    assert_eq!(infos[0].title, "Mozilla Firefox");
    assert_eq!(infos[0].subtext, "Activate running window on workspace 1");
}

#[test]
fn windows_matching_skips_malformed_records_and_keeps_the_rest() {
    let records = vec![
        Err("invalid type: string \"not-a-number\", expected u32".to_string()),
        Ok(window(2, "Fine", "app", 0)),
    ];
    let listing = windows_matching(records, "");
    assert_eq!(listing.windows.len(), 1);
    assert_eq!(listing.windows[0].id, "2");
    assert_eq!(listing.skipped.len(), 1);
    assert_eq!(
        listing.skipped[0],
        "was: skipping unparseable window from Window Calls: invalid type: string \"not-a-number\", expected u32"
    );
}

#[test]
fn empty_query_keeps_every_readable_record_in_order() {
    let records = vec![
        Ok(window(3, "C", "c", 0)),
        Err("bad".to_string()),
        Ok(window(1, "A", "a", 0)),
        Ok(window(2, "B", "b", 0)),
    ];
    let ids: Vec<String> = windows_matching(records, "").windows.into_iter().map(|w| w.id).collect();
    assert_eq!(ids, vec!["3".to_string(), "1".to_string(), "2".to_string()]);
}

#[test]
fn maps_fields_and_synthesizes_one_based_workspace_subtext() {
    let w = window(42, "My Window", "myapp", 3);
    let info = window_info_from_gnome_window(w);
    assert_eq!(info.id, "42");
    assert_eq!(info.title, "My Window");
    assert_eq!(info.icon, "");
    assert_eq!(info.subtext, "Activate running window on workspace 4");
}

#[test]
fn sticky_window_workspace_gets_generic_subtext() {
    let info = window_info_from_gnome_window(window(1, "Sticky", "app", -1));
    assert_eq!(info.subtext, "Activate running window");
}

#[test]
fn missing_workspace_gets_generic_subtext() {
    let w = GnomeWindow {
        id: 5,
        title: Some("T".to_string()),
        wm_class: Some("c".to_string()),
        workspace: None,
    };
    let info = window_info_from_gnome_window(w);
    assert_eq!(info.subtext, "Activate running window");
}

#[test]
fn largest_workspace_and_id_render_in_full() {
    let info = window_info_from_gnome_window(window(u32::MAX, "W", "w", i32::MAX));
    assert_eq!(info.id, "4294967295");
    assert_eq!(info.subtext, "Activate running window on workspace 2147483648");
}

#[test]
fn null_title_and_wm_class_deserialize_and_do_not_match_queries() {
    let w = GnomeWindow { id: 9, title: None, wm_class: None, workspace: Some(0) };
    assert!(matches_query(&w, ""));
    assert!(!matches_query(&w, "firefox"));
}

#[test]
fn null_title_still_matches_on_wm_class() {
    let w = GnomeWindow {
        id: 9,
        title: None,
        wm_class: Some("firefox".to_string()),
        workspace: Some(0),
    };
    assert!(matches_query(&w, "Firefox"));
}

#[test]
fn null_title_maps_to_empty_string() {
    let w = GnomeWindow { id: 9, title: None, wm_class: None, workspace: Some(0) };
    let info: WindowInfo = window_info_from_gnome_window(w);
    assert_eq!(info.title, "");
}

#[test]
fn query_tokens_split_on_unicode_whitespace() {
    let w = window(1, "Mozilla Firefox", "firefox", 0);
    assert!(matches_query(&w, "  mozilla\u{3000}\tfirefox \u{a0}"));
    assert!(!matches_query(&w, "mozillafirefox"));
}

#[test]
fn lowercasing_is_unicode_aware() {
    let w = window(1, "ÉCRAN Principal", "app", 0);
    assert!(matches_query(&w, "écran"));
}

#[test]
fn numeric_window_id_parses() {
    assert_eq!(parse_window_id("42").unwrap(), 42);
}

#[test]
fn non_numeric_window_id_is_rejected_with_id_in_message() {
    let err = parse_window_id("id-1").unwrap_err();
    assert!(err.message().contains("id-1"));
    assert_eq!(err.message(), "invalid GNOME window id: \"id-1\"");
}

#[test]
fn negative_window_id_is_rejected() {
    assert!(parse_window_id("-3").is_err());
}

#[test]
fn window_id_edge_cases_follow_str_parse() {
    assert_eq!(parse_window_id("+7").unwrap(), 7);
    assert_eq!(parse_window_id("007").unwrap(), 7);
    assert_eq!(parse_window_id("4294967295").unwrap(), u32::MAX);
    assert!(parse_window_id("4294967296").is_err());
    assert!(parse_window_id("").is_err());
    assert!(parse_window_id("+").is_err());
    assert!(parse_window_id("1 ").is_err());
    for s in ["0", "+0", "12", "99999", "4294967295", "4294967296", "x", "-0", "++1"] {
        assert_eq!(parse_window_id(s).ok(), s.parse::<u32>().ok(), "input {s:?}");
    }
}

#[test]
fn listed_ids_parse_back() {
    for id in [0u32, 7, 10, 42, 65535, u32::MAX] {
        let info = window_info_from_gnome_window(window(id, "t", "c", 0));
        assert_eq!(parse_window_id(&info.id).unwrap(), id);
    }
}

#[test]
fn repeated_or_reordered_tokens_do_not_change_the_match() {
    let w = window(1, "Mozilla Firefox", "firefox", 0);
    assert_eq!(matches_query(&w, "firefox firefox mozilla"), matches_query(&w, "mozilla firefox"));
    let k = window(2, "Terminal", "Konsole", 0);
    assert_eq!(matches_query(&k, "konsole konsole firefox"), matches_query(&k, "firefox konsole"));
    assert!(!matches_query(&k, "firefox konsole"));
}

#[test]
fn lowered_fields_match_is_case_sensitive_on_its_own() {
    assert!(lowered_fields_match("mozilla firefox", "firefox", "firefox mozilla"));
    assert!(!lowered_fields_match("mozilla firefox", "firefox", "Firefox"));
    assert!(lowered_fields_match("", "", " \t "));
    assert!(!lowered_fields_match("", "", "x"));
}

#[test]
fn whitespace_only_query_matches_everything() {
    let w = GnomeWindow { id: 1, title: None, wm_class: None, workspace: None };
    assert!(matches_query(&w, " \t\u{3000} "));
    let records = vec![Ok(window(1, "A", "a", 0)), Ok(window(2, "B", "b", 0))];
    assert_eq!(windows_matching(records, "  ").windows.len(), 2);
}
