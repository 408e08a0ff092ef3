use std::cell::RefCell;

use wayland_application_switcher::backend::{WindowBackend, WindowInfo};
use wayland_application_switcher::error::WasError;
use wayland_application_switcher::notify::{
    activate_after_click, ambiguous_header, candidate_line, click_action, should_activate, wait_decision, ClickAction,
    NotifyEvent,
};
use wayland_application_switcher::timeout::TimeoutError;

#[test]
fn default_action_on_target_id_activates() {
    let event = NotifyEvent::ActionInvoked { id: 42, action_key: "default".to_string() };
    assert_eq!(should_activate(42, event), Some(true));
}

#[test]
fn non_default_action_on_target_id_is_ignored() {
    let event = NotifyEvent::ActionInvoked { id: 42, action_key: "other".to_string() };
    assert_eq!(should_activate(42, event), None);
}

#[test]
fn action_on_different_id_is_ignored() {
    let event = NotifyEvent::ActionInvoked { id: 7, action_key: "default".to_string() };
    assert_eq!(should_activate(42, event), None);
}

#[test]
fn closed_on_target_id_exits_quietly() {
    let event = NotifyEvent::Closed { id: 42 };
    assert_eq!(should_activate(42, event), Some(false));
}

#[test]
fn closed_on_different_id_is_ignored() {
    let event = NotifyEvent::Closed { id: 7 };
    assert_eq!(should_activate(42, event), None);
}

fn window(id: &str, title: &str) -> WindowInfo {
    WindowInfo {
        id: id.to_string(),
        title: title.to_string(),
        icon: String::new(),
        subtext: String::new(),
    }
}

struct FakeBackend {
    windows: Vec<WindowInfo>,
    activated: RefCell<Vec<String>>,
}

impl WindowBackend for FakeBackend {
    fn list_windows(&mut self, _query: &str) -> Result<Vec<WindowInfo>, WasError> {
        Ok(self.windows.clone())
    }
    fn activate(&mut self, id: &str) -> Result<(), WasError> {
        self.activated.borrow_mut().push(id.to_string());
        Ok(())
    }
}

#[test]
fn click_with_one_match_activates_it() {
    let mut backend = FakeBackend { windows: vec![window("3", "Slack")], activated: RefCell::new(vec![]) };
    let left = activate_after_click(&mut backend, "slack").unwrap();
    assert!(left.is_empty());
    assert_eq!(*backend.activated.borrow(), vec!["3".to_string()]);
}

#[test]
fn ambiguous_click_reports_candidates_and_activates_nothing() {
    let mut backend = FakeBackend {
        windows: vec![window("3", "Slack A"), window("4", "Slack B")],
        activated: RefCell::new(vec![]),
    };
    let left = activate_after_click(&mut backend, "slack").unwrap();
    assert_eq!(left.len(), 2);
    assert!(backend.activated.borrow().is_empty());
    assert_eq!(candidate_line(&left[0]), "  3\tSlack A");
    assert_eq!(ambiguous_header("slack"), "was: \"slack\" is ambiguous, not activating anything:");
}

#[test]
fn click_with_no_match_is_an_error_naming_the_query() {
    let mut backend = FakeBackend { windows: vec![], activated: RefCell::new(vec![]) };
    let err = activate_after_click(&mut backend, "slack").unwrap_err();
    assert_eq!(err.message(), "no windows matched \"slack\"");
    assert!(matches!(click_action("q", vec![]), ClickAction::Fail(_)));
}

#[test]
fn wait_ends_by_decision_timeout_or_dead_worker() {
    assert_eq!(wait_decision(Ok(Ok(true))).unwrap(), true);
    assert_eq!(wait_decision(Ok(Ok(false))).unwrap(), false);
    assert_eq!(wait_decision(Err(TimeoutError::Elapsed)).unwrap(), false);
    let err = wait_decision(Err(TimeoutError::WorkerPanicked)).unwrap_err();
    assert_eq!(err.message(), "notification wait worker thread panicked or exited unexpectedly");
    let err = wait_decision(Ok(Err(WasError::Backend { message: "bus gone".to_string() }))).unwrap_err();
    assert_eq!(err.message(), "bus gone");
}
