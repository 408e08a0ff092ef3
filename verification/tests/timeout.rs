use wayland_application_switcher::timeout::{dbus_call_result, TimeoutError};

#[test]
fn dbus_success_returns_the_inner_value() {
    let v = dbus_call_result(Ok(Ok(7u32)), "TestServer", "Test call failed", None).unwrap();
    assert_eq!(v, 7);
}

#[test]
fn dbus_error_includes_context_and_hint() {
    let err = dbus_call_result::<()>(
        Ok(Err("boom".to_string())),
        "TestServer",
        "Test call failed",
        Some("install the thing"),
    )
    .unwrap_err();
    let msg = err.message();
    assert!(msg.contains("Test call failed"));
    assert!(msg.contains("boom"));
    assert!(msg.contains("install the thing"));
    assert_eq!(msg, "Test call failed: boom (install the thing)");
}

#[test]
fn dbus_error_without_hint_omits_parenthetical() {
    let err =
        dbus_call_result::<()>(Ok(Err("boom".to_string())), "TestServer", "Test call failed", None)
            .unwrap_err();
    assert_eq!(err.message(), "Test call failed: boom");
}

#[test]
fn dbus_worker_panic_names_the_server() {
    let err = dbus_call_result::<()>(
        Err(TimeoutError::WorkerPanicked),
        "TestServer",
        "Test call failed",
        None,
    )
    .unwrap_err();
    assert_eq!(err.message(), "TestServer worker thread panicked or exited unexpectedly");
}

#[test]
fn dbus_timeout_names_the_server() {
    let err = dbus_call_result::<()>(Err(TimeoutError::Elapsed), "TestServer", "Test call failed", None)
        .unwrap_err();
    assert_eq!(err.message(), "TestServer is not responding");
}
