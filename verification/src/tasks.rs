use vstd::prelude::*;
use crate::error::{AppError, AppErrorView, DbusError, app_error_of, error_with_context};
use crate::message::Message;

verus! {

/// The message that a failed piece of work sends: the user-facing error.
pub fn failure_message(e: DbusError) -> (m: Message)
    ensures
        m matches Message::OperationError(a) && a@ == app_error_of(e@),
{
    Message::OperationError(AppError::from_dbus(&e))
}

/// The message that ends a deletion of one or all prints of a user.
pub fn deletion_message(r: Result<(), DbusError>) -> (m: Message)
    ensures
        match r {
            Ok(()) => m is DeleteComplete,
            Err(e) => m matches Message::OperationError(a) && a@ == app_error_of(e@),
        },
{
    match r {
        Ok(()) => Message::DeleteComplete,
        Err(e) => failure_message(e),
    }
}

/// The message that ends a verification.
pub fn verification_message(r: Result<(), DbusError>) -> (m: Message)
    ensures
        match r {
            Ok(()) => m is Success,
            Err(e) => m matches Message::OperationError(a) && a@ == app_error_of(e@),
        },
{
    match r {
        Ok(()) => Message::Success,
        Err(e) => failure_message(e),
    }
}

/// The message that ends clearing the device.
pub fn clear_message(r: Result<(), DbusError>) -> (m: Message)
    ensures
        match r {
            Ok(()) => m matches Message::ClearComplete(Ok(())),
            Err(e) => m matches Message::ClearComplete(Err(a)) && a@ == app_error_of(e@),
        },
{
    match r {
        Ok(()) => Message::ClearComplete(Ok(())),
        Err(e) => Message::ClearComplete(Err(AppError::from_dbus(&e))),
    }
}

/// The message that ends stopping an enrollment: a stopped enrollment is
/// reported as a cancelled, finished one.
pub fn enroll_stop_message(r: Result<(), DbusError>) -> (m: Message)
    ensures
        match r {
            Ok(()) => m matches Message::EnrollStatus(s, true) && s@ == "enroll-cancelled"@,
            Err(e) => m matches Message::OperationError(a) && a@ == app_error_of(e@),
        },
{
    match r {
        Ok(()) => Message::EnrollStatus("enroll-cancelled".to_owned(), true),
        Err(e) => failure_message(e),
    }
}

/// The message that ends the lookup of the default device, given its object
/// path. A failure that maps to no known error means that no device was found.
pub fn device_lookup_message(r: Result<String, DbusError>) -> (m: Message)
    ensures
        match r {
            Ok(path) => m == Message::DeviceFound(Some(path)),
            Err(e) => m matches Message::OperationError(a) && a@ == (match app_error_of(e@) {
                AppErrorView::Unknown(_) => AppErrorView::DeviceNotFound,
                other => other,
            }),
        },
{
    match r {
        Ok(path) => Message::DeviceFound(Some(path)),
        Err(e) => {
            let error = AppError::from_dbus(&e);
            match error {
                AppError::Unknown(_) => Message::OperationError(AppError::DeviceNotFound),
                other => Message::OperationError(other),
            }
        },
    }
}

/// The message that ends connecting to the system bus, given the failure's text.
pub fn connection_message(r: Result<(), String>) -> (m: Message)
    ensures
        match r {
            Ok(()) => m is ConnectionReady,
            Err(text) => m matches Message::OperationError(a) && a@ == AppErrorView::ConnectDbus(text@),
        },
{
    match r {
        Ok(()) => Message::ConnectionReady,
        Err(text) => Message::OperationError(AppError::ConnectDbus(text)),
    }
}

/// The message that ends listing a user's enrolled fingers; a failure is
/// reported with the context "Failed to list fingers".
pub fn fingers_message(r: Result<Vec<String>, DbusError>) -> (m: Message)
    ensures
        match r {
            Ok(v) => m == Message::EnrolledFingers(v),
            Err(e) => m matches Message::OperationError(a) && a@ == error_with_context(
                app_error_of(e@),
                "Failed to list fingers"@,
            ),
        },
{
    match r {
        Ok(v) => Message::EnrolledFingers(v),
        Err(e) => Message::OperationError(AppError::from_dbus(&e).with_context("Failed to list fingers")),
    }
}

} // verus!
