use std::cell::RefCell;

use wayland_application_switcher::backend::{WindowBackend, WindowInfo};
use wayland_application_switcher::error::WasError;
use wayland_application_switcher::picker::Picker;
use wayland_application_switcher::resolve::{resolution, resolve, ResolveAction};

struct FakeBackend {
    windows: Vec<WindowInfo>,
    activated: RefCell<Vec<String>>,
}

impl WindowBackend for FakeBackend {
    fn list_windows(&mut self, _query: &str) -> Result<Vec<WindowInfo>, WasError> {
        Ok(self.windows.clone())
    }
    fn activate(&mut self, id: &str) -> Result<(), WasError> {
        self.activated.borrow_mut().push(id.to_string());
        Ok(())
    }
}

fn window(id: &str) -> WindowInfo {
    WindowInfo {
        id: id.to_string(),
        title: format!("Window {id}"),
        icon: String::new(),
        subtext: String::new(),
    }
}

struct FakePicker(Option<String>);

impl Picker for FakePicker {
    fn pick(&mut self, _windows: &[WindowInfo]) -> Option<String> {
        self.0.clone()
    }
}

#[test]
fn zero_matches_errors() {
    let mut backend = FakeBackend { windows: vec![], activated: RefCell::new(vec![]) };
    let mut picker = FakePicker(None);
    let err = resolve(&mut backend, &mut picker, "nothing").unwrap_err();
    assert!(err.message().contains("nothing"));
    assert_eq!(err.message(), "no windows matched \"nothing\"");
    assert!(backend.activated.borrow().is_empty());
}

#[test]
fn single_match_activates_without_picker() {
    let mut backend = FakeBackend { windows: vec![window("1")], activated: RefCell::new(vec![]) };
    let mut picker = FakePicker(Some("should-not-be-used".to_string()));
    resolve(&mut backend, &mut picker, "app").unwrap();
    assert_eq!(*backend.activated.borrow(), vec!["1".to_string()]);
}

#[test]
fn multiple_matches_use_picker_selection() {
    let mut backend = FakeBackend {
        windows: vec![window("1"), window("2")],
        activated: RefCell::new(vec![]),
    };
    let mut picker = FakePicker(Some("2".to_string()));
    resolve(&mut backend, &mut picker, "app").unwrap();
    assert_eq!(*backend.activated.borrow(), vec!["2".to_string()]);
}

#[test]
fn cancelled_picker_activates_nothing_and_is_not_an_error() {
    let mut backend = FakeBackend {
        windows: vec![window("1"), window("2")],
        activated: RefCell::new(vec![]),
    };
    let mut picker = FakePicker(None);
    resolve(&mut backend, &mut picker, "app").unwrap();
    assert!(backend.activated.borrow().is_empty());
}

struct FailingBackend;

impl WindowBackend for FailingBackend {
    fn list_windows(&mut self, _query: &str) -> Result<Vec<WindowInfo>, WasError> {
        Ok(vec![WindowInfo {
            id: "9".to_string(),
            title: String::new(),
            icon: String::new(),
            subtext: String::new(),
        }])
    }
    fn activate(&mut self, _id: &str) -> Result<(), WasError> {
        Err(WasError::Backend { message: "window is gone".to_string() })
    }
}

#[test]
fn activation_failure_is_reported() {
    let err = resolve(&mut FailingBackend, &mut FakePicker(None), "x").unwrap_err();
    assert_eq!(err.message(), "window is gone");
}

#[test]
fn resolution_decides_by_match_count() {
    match resolution("q", &[], Some("1".to_string())) {
        ResolveAction::Fail(e) => assert_eq!(e.message(), "no windows matched \"q\""),
        other => panic!("unexpected {other:?}"),
    }
    match resolution("q", &[window("5")], Some("1".to_string())) {
        ResolveAction::Activate(id) => assert_eq!(id, "5"),
        other => panic!("unexpected {other:?}"),
    }
    match resolution("q", &[window("5"), window("6")], Some("6".to_string())) {
        ResolveAction::Activate(id) => assert_eq!(id, "6"),
        other => panic!("unexpected {other:?}"),
    }
    assert!(matches!(resolution("q", &[window("5"), window("6")], None), ResolveAction::Done));
}
