use wayland_application_switcher::backend::{WindowBackend, WindowInfo};
use wayland_application_switcher::error::WasError;
use wayland_application_switcher::list::{effective_query, format_row, list_windows};

struct FakeBackend {
    expected_query: &'static str,
    windows: Vec<WindowInfo>,
}

impl WindowBackend for FakeBackend {
    fn list_windows(&mut self, query: &str) -> Result<Vec<WindowInfo>, WasError> {
        assert_eq!(query, self.expected_query);
        Ok(self.windows.clone())
    }
    fn activate(&mut self, _id: &str) -> Result<(), WasError> {
        panic!("list should never activate a window");
    }
}

fn window(id: &str) -> WindowInfo {
    WindowInfo {
        id: id.to_string(),
        title: format!("Window {id}"),
        icon: String::new(),
        subtext: String::new(),
    }
}

#[test]
fn no_query_passes_through_as_empty_string_for_all_windows() {
    let mut backend = FakeBackend { expected_query: "", windows: vec![window("1"), window("2")] };
    let windows = list_windows(&mut backend, None).unwrap();
    assert_eq!(windows.len(), 2);
}

#[test]
fn some_query_passes_through_verbatim() {
    let mut backend = FakeBackend { expected_query: "konsole", windows: vec![window("1")] };
    let windows = list_windows(&mut backend, Some("konsole")).unwrap();
    assert_eq!(windows.len(), 1);
}

#[test]
fn rows_are_tab_separated_id_title_subtext() {
    let w = WindowInfo {
        id: "42".to_string(),
        title: "My Window".to_string(),
        icon: "unused".to_string(),
        subtext: "Activate running window on Desktop 1".to_string(),
    };
    assert_eq!(format_row(&w), "42\tMy Window\tActivate running window on Desktop 1");
}

#[test]
fn effective_query_defaults_to_empty() {
    assert_eq!(effective_query(None), "");
    assert_eq!(effective_query(Some("a b")), "a b");
}
