use enroll::error::{AppError, DbusError};
use enroll::message::{ContextPage, MenuAction, Message};

#[test]
fn test_app_error_localization() {
    assert_eq!(AppError::PermissionDenied.localized_message(), "Permission denied.");
    assert_eq!(
        AppError::AlreadyInUse.localized_message(),
        "Device is already in use by another application."
    );
    assert_eq!(AppError::DeviceNotFound.localized_message(), "Fingerprint device not found.");
    assert_eq!(AppError::Timeout.localized_message(), "Operation timed out.");
    assert_eq!(
        AppError::ConnectDbus("Connection error".to_string()).localized_message(),
        "Failed to connect to DBus: \u{2068}Connection error\u{2069}"
    );
}

#[test]
fn test_app_error_unknown_context() {
    let err = AppError::Unknown("Some error".to_string());
    let err_with_context = err.with_context("Context");

    assert_eq!(err_with_context.localized_message(), "Context: Some error");
}

#[test]
fn test_app_error_known_context() {
    // Context should be ignored for known errors
    let err = AppError::PermissionDenied;
    let err_with_context = err.with_context("Context");

    assert_eq!(err_with_context.localized_message(), "Permission denied.");
}

#[test]
fn test_menu_action_message() {
    let action = MenuAction::About;
    assert!(matches!(action.message(), Message::ToggleContextPage(ContextPage::About)));
    let settings_action = MenuAction::Settings;
    assert!(matches!(settings_action.message(), Message::ToggleContextPage(ContextPage::Settings)));
}

fn method(name: &str, description: Option<&str>) -> DbusError {
    DbusError::Method { name: name.to_string(), description: description.map(|d| d.to_string()) }
}

#[test]
fn daemon_errors_map_to_known_errors() {
    let e = AppError::from_dbus(&method("net.reactivated.Fprint.Error.PermissionDenied", Some("no")));
    assert!(matches!(e, AppError::PermissionDenied));
    let e = AppError::from_dbus(&method("net.reactivated.Fprint.Error.AlreadyInUse", None));
    assert!(matches!(e, AppError::AlreadyInUse));
    let e = AppError::from_dbus(&method("net.reactivated.Fprint.Error.NoSuchDevice", None));
    assert!(matches!(e, AppError::DeviceNotFound));
    let e = AppError::from_dbus(&method("org.freedesktop.DBus.Error.NoReply", None));
    assert!(matches!(e, AppError::Timeout));
    let e = AppError::from_dbus(&method("org.freedesktop.DBus.Error.Timeout", None));
    assert!(matches!(e, AppError::Timeout));
}

#[test]
fn other_errors_keep_their_text() {
    let e = AppError::from_dbus(&method("net.reactivated.Fprint.Error.Internal", Some("broken")));
    assert_eq!(e.localized_message(), "broken");
    let e = AppError::from_dbus(&method("net.reactivated.Fprint.Error.Internal", None));
    assert_eq!(e.localized_message(), "net.reactivated.Fprint.Error.Internal");
    let e = AppError::from_dbus(&DbusError::Failure("Username cannot be empty".to_string()));
    assert_eq!(e.localized_message(), "Username cannot be empty");
    let e = AppError::from_dbus(&DbusError::Other("I/O error".to_string()));
    assert_eq!(e.localized_message(), "I/O error");
}

#[test]
fn context_on_every_known_error_is_ignored() {
    for e in [AppError::AlreadyInUse, AppError::DeviceNotFound, AppError::Timeout] {
        let before = e.localized_message();
        assert_eq!(e.with_context("Context").localized_message(), before);
    }
    let e = AppError::ConnectDbus("x".to_string()).with_context("Context");
    assert_eq!(e.localized_message(), "Failed to connect to DBus: \u{2068}x\u{2069}");
}
