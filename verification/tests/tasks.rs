use enroll::error::{AppError, DbusError};
use enroll::message::Message;
use enroll::tasks::{
    clear_message, connection_message, deletion_message, device_lookup_message, enroll_stop_message,
    fingers_message, verification_message,
};

fn denied() -> DbusError {
    DbusError::Method { name: "net.reactivated.Fprint.Error.PermissionDenied".to_string(), description: None }
}

fn internal() -> DbusError {
    DbusError::Method {
        name: "net.reactivated.Fprint.Error.Internal".to_string(),
        description: Some("oops".to_string()),
    }
}

#[test]
fn task_results_become_messages() {
    assert!(matches!(deletion_message(Ok(())), Message::DeleteComplete));
    assert!(matches!(deletion_message(Err(denied())), Message::OperationError(AppError::PermissionDenied)));
    assert!(matches!(verification_message(Ok(())), Message::Success));
    assert!(matches!(clear_message(Ok(())), Message::ClearComplete(Ok(()))));
    assert!(matches!(clear_message(Err(denied())), Message::ClearComplete(Err(AppError::PermissionDenied))));
    assert!(matches!(enroll_stop_message(Ok(())), Message::EnrollStatus(ref s, true) if s == "enroll-cancelled"));
    assert!(matches!(connection_message(Ok(())), Message::ConnectionReady));
    match connection_message(Err("no bus".to_string())) {
        Message::OperationError(e) => {
            assert_eq!(e.localized_message(), "Failed to connect to DBus: \u{2068}no bus\u{2069}")
        },
        other => panic!("unexpected {:?}", other),
    }
}

#[test]
fn unknown_lookup_failure_means_no_device() {
    assert!(matches!(
        device_lookup_message(Err(internal())),
        Message::OperationError(AppError::DeviceNotFound)
    ));
    assert!(matches!(
        device_lookup_message(Err(denied())),
        Message::OperationError(AppError::PermissionDenied)
    ));
    assert!(matches!(
        device_lookup_message(Ok("/dev/0".to_string())),
        Message::DeviceFound(Some(ref p)) if p == "/dev/0"
    ));
}

#[test]
fn listing_failure_has_context() {
    match fingers_message(Err(internal())) {
        Message::OperationError(e) => assert_eq!(e.localized_message(), "Failed to list fingers: oops"),
        other => panic!("unexpected {:?}", other),
    }
    match fingers_message(Ok(vec!["left-thumb".to_string()])) {
        Message::EnrolledFingers(v) => assert_eq!(v, vec!["left-thumb".to_string()]),
        other => panic!("unexpected {:?}", other),
    }
}
