use vstd::prelude::*;
use crate::error::{AppError, error_text, same_text};
use crate::i18n::{Translations, lookup};

verus! {

/// A result that the fingerprint daemon reports while a print is enrolled.
#[derive(Clone, Copy, Debug, PartialEq, Eq, Structural)]
pub enum EnrollResult {
    StagePassed,
    RetryScan,
    SwipeTooShort,
    FingerNotCentered,
    RemoveAndRetry,
    UnknownError,
    Completed,
    Failed,
    Disconnected,
    DataFull,
    TooFast,
    Duplicate,
    Cancelled,
}

/// The daemon's name of each enrollment result.
pub open spec fn enroll_result_key(r: EnrollResult) -> Seq<char> {
    match r {
        EnrollResult::StagePassed => "enroll-stage-passed"@,
        EnrollResult::RetryScan => "enroll-retry-scan"@,
        EnrollResult::SwipeTooShort => "enroll-swipe-too-short"@,
        EnrollResult::FingerNotCentered => "enroll-finger-not-centered"@,
        EnrollResult::RemoveAndRetry => "enroll-remove-and-retry"@,
        EnrollResult::UnknownError => "enroll-unknown-error"@,
        EnrollResult::Completed => "enroll-completed"@,
        EnrollResult::Failed => "enroll-failed"@,
        EnrollResult::Disconnected => "enroll-disconnected"@,
        EnrollResult::DataFull => "enroll-data-full"@,
        EnrollResult::TooFast => "enroll-too-fast"@,
        EnrollResult::Duplicate => "enroll-duplicate"@,
        EnrollResult::Cancelled => "enroll-cancelled"@,
    }
}

/// The enrollment result that a daemon result string names, if any: the
/// result whose daemon name it is.
pub open spec fn enroll_result_of(s: Seq<char>) -> Option<EnrollResult> {
    if exists|r: EnrollResult| enroll_result_key(r) == s {
        Some(choose|r: EnrollResult| enroll_result_key(r) == s)
    } else {
        None
    }
}

/// Different results have different daemon names.
pub proof fn lemma_enroll_result_key_injective(a: EnrollResult, b: EnrollResult)
    ensures
        enroll_result_key(a) == enroll_result_key(b) ==> a == b,
{
    reveal_strlit("enroll-stage-passed");
    reveal_strlit("enroll-retry-scan");
    reveal_strlit("enroll-swipe-too-short");
    reveal_strlit("enroll-finger-not-centered");
    reveal_strlit("enroll-remove-and-retry");
    reveal_strlit("enroll-unknown-error");
    reveal_strlit("enroll-completed");
    reveal_strlit("enroll-failed");
    reveal_strlit("enroll-disconnected");
    reveal_strlit("enroll-data-full");
    reveal_strlit("enroll-too-fast");
    reveal_strlit("enroll-duplicate");
    reveal_strlit("enroll-cancelled");
    if enroll_result_key(a) == enroll_result_key(b) && a != b {
        let x = enroll_result_key(a);
        let y = enroll_result_key(b);
        assert(x.len() != y.len() || x[7] != y[7] || x[8] != y[8] || x[9] != y[9] || x[10] != y[10]
            || x[13] != y[13]);
    }
}

/// A result's daemon name names that result.
pub proof fn lemma_enroll_result_round_trip(r: EnrollResult)
    ensures
        enroll_result_of(enroll_result_key(r)) == Some(r),
{
    let s = enroll_result_key(r);
    assert(exists|x: EnrollResult| enroll_result_key(x) == s);
    let c = choose|x: EnrollResult| enroll_result_key(x) == s;
    lemma_enroll_result_key_injective(c, r);
}

/// The English text of an enrollment result.
pub open spec fn enroll_result_text(r: EnrollResult) -> Seq<char> {
    match r {
        EnrollResult::StagePassed => "Scan succeeded. Lift your finger and place it again."@,
        EnrollResult::RetryScan => "Scan failed. Please try again."@,
        EnrollResult::SwipeTooShort => "Swipe was too short. Please try again."@,
        EnrollResult::FingerNotCentered => "Finger was not centered. Please try again."@,
        EnrollResult::RemoveAndRetry => "Remove your finger and try again."@,
        EnrollResult::UnknownError => "An unknown error occurred."@,
        EnrollResult::Completed => "Enrollment completed."@,
        EnrollResult::Failed => "Enrollment failed."@,
        EnrollResult::Disconnected => "The device was disconnected."@,
        EnrollResult::DataFull => "The device has no room for more prints."@,
        EnrollResult::TooFast => "The finger was lifted too fast. Please try again."@,
        EnrollResult::Duplicate => "This finger is already enrolled."@,
        EnrollResult::Cancelled => "Enrollment cancelled."@,
    }
}

impl EnrollResult {
    /// The enrollment result that a daemon result string names, if any.
    pub fn from_daemon(s: &String) -> (r: Option<EnrollResult>)
        ensures
            r == enroll_result_of(s@),
    {
        let r = EnrollResult::match_daemon(s);
        proof {
            match r {
                Some(x) => lemma_enroll_result_round_trip(x),
                None => {},
            }
        }
        r
    }

    /// The result whose daemon name `s` is, checked name by name.
    fn match_daemon(s: &String) -> (r: Option<EnrollResult>)
        ensures
            match r {
                Some(x) => s@ == enroll_result_key(x),
                None => forall|x: EnrollResult| s@ != #[trigger] enroll_result_key(x),
            },
    {
        if same_text(s, "enroll-stage-passed") {
            Some(EnrollResult::StagePassed)
        } else if same_text(s, "enroll-retry-scan") {
            Some(EnrollResult::RetryScan)
        } else if same_text(s, "enroll-swipe-too-short") {
            Some(EnrollResult::SwipeTooShort)
        } else if same_text(s, "enroll-finger-not-centered") {
            Some(EnrollResult::FingerNotCentered)
        } else if same_text(s, "enroll-remove-and-retry") {
            Some(EnrollResult::RemoveAndRetry)
        } else if same_text(s, "enroll-unknown-error") {
            Some(EnrollResult::UnknownError)
        } else if same_text(s, "enroll-completed") {
            Some(EnrollResult::Completed)
        } else if same_text(s, "enroll-failed") {
            Some(EnrollResult::Failed)
        } else if same_text(s, "enroll-disconnected") {
            Some(EnrollResult::Disconnected)
        } else if same_text(s, "enroll-data-full") {
            Some(EnrollResult::DataFull)
        } else if same_text(s, "enroll-too-fast") {
            Some(EnrollResult::TooFast)
        } else if same_text(s, "enroll-duplicate") {
            Some(EnrollResult::Duplicate)
        } else if same_text(s, "enroll-cancelled") {
            Some(EnrollResult::Cancelled)
        } else {
            proof {
                assert forall|x: EnrollResult| s@ != #[trigger] enroll_result_key(x) by {
                    match x {
                        EnrollResult::StagePassed => {},
                        EnrollResult::RetryScan => {},
                        EnrollResult::SwipeTooShort => {},
                        EnrollResult::FingerNotCentered => {},
                        EnrollResult::RemoveAndRetry => {},
                        EnrollResult::UnknownError => {},
                        EnrollResult::Completed => {},
                        EnrollResult::Failed => {},
                        EnrollResult::Disconnected => {},
                        EnrollResult::DataFull => {},
                        EnrollResult::TooFast => {},
                        EnrollResult::Duplicate => {},
                        EnrollResult::Cancelled => {},
                    }
                }
            }
            None
        }
    }

    /// The daemon's name of the result, which is also the id of its message.
    pub fn key(&self) -> (k: &'static str)
        ensures
            k@ == enroll_result_key(*self),
    {
        match self {
            EnrollResult::StagePassed => "enroll-stage-passed",
            EnrollResult::RetryScan => "enroll-retry-scan",
            EnrollResult::SwipeTooShort => "enroll-swipe-too-short",
            EnrollResult::FingerNotCentered => "enroll-finger-not-centered",
            EnrollResult::RemoveAndRetry => "enroll-remove-and-retry",
            EnrollResult::UnknownError => "enroll-unknown-error",
            EnrollResult::Completed => "enroll-completed",
            EnrollResult::Failed => "enroll-failed",
            EnrollResult::Disconnected => "enroll-disconnected",
            EnrollResult::DataFull => "enroll-data-full",
            EnrollResult::TooFast => "enroll-too-fast",
            EnrollResult::Duplicate => "enroll-duplicate",
            EnrollResult::Cancelled => "enroll-cancelled",
        }
    }

    /// The English text of the result.
    pub fn text(&self) -> (t: String)
        ensures
            t@ == enroll_result_text(*self),
    {
        let s = match self {
            EnrollResult::StagePassed => "Scan succeeded. Lift your finger and place it again.",
            EnrollResult::RetryScan => "Scan failed. Please try again.",
            EnrollResult::SwipeTooShort => "Swipe was too short. Please try again.",
            EnrollResult::FingerNotCentered => "Finger was not centered. Please try again.",
            EnrollResult::RemoveAndRetry => "Remove your finger and try again.",
            EnrollResult::UnknownError => "An unknown error occurred.",
            EnrollResult::Completed => "Enrollment completed.",
            EnrollResult::Failed => "Enrollment failed.",
            EnrollResult::Disconnected => "The device was disconnected.",
            EnrollResult::DataFull => "The device has no room for more prints.",
            EnrollResult::TooFast => "The finger was lifted too fast. Please try again.",
            EnrollResult::Duplicate => "This finger is already enrolled.",
            EnrollResult::Cancelled => "Enrollment cancelled.",
        };
        s.to_owned()
    }
}

/// The status line shown to the user.
#[derive(Clone, Debug)]
pub enum Status {
    Connecting,
    SearchingDevice,
    DeviceFound,
    NoDeviceFound,
    Success,
    EnrollStarting,
    StartingEnrollment,
    ClearingDevice,
    DeviceCleared,
    Deleting,
    Deleted,
    /// A result reported while enrolling.
    Enroll(EnrollResult),
    /// A daemon result string that names no known result, shown as it is.
    Reported(String),
    /// An error.
    Error(AppError),
}

/// The English text of a status.
pub open spec fn status_text(s: Status) -> Seq<char> {
    match s {
        Status::Connecting => "Connecting to the system bus..."@,
        Status::SearchingDevice => "Searching for a fingerprint device..."@,
        Status::DeviceFound => "Fingerprint device found."@,
        Status::NoDeviceFound => "No fingerprint device found."@,
        Status::Success => "Fingerprint verified."@,
        Status::EnrollStarting => "Place your finger on the sensor."@,
        Status::StartingEnrollment => "Starting enrollment..."@,
        Status::ClearingDevice => "Removing every print from the device..."@,
        Status::DeviceCleared => "Every print was removed from the device."@,
        Status::Deleting => "Deleting..."@,
        Status::Deleted => "Deleted."@,
        Status::Enroll(r) => enroll_result_text(r),
        Status::Reported(m) => m@,
        Status::Error(e) => error_text(e@),
    }
}

/// The id of the message that shows a status, for the statuses that have
/// one; a daemon string and an error are shown by their own text.
pub open spec fn status_id(s: Status) -> Option<Seq<char>> {
    match s {
        Status::Connecting => Some("status-connecting"@),
        Status::SearchingDevice => Some("status-searching-device"@),
        Status::DeviceFound => Some("status-device-found"@),
        Status::NoDeviceFound => Some("status-no-device-found"@),
        Status::Success => Some("success"@),
        Status::EnrollStarting => Some("enroll-starting"@),
        Status::StartingEnrollment => Some("status-starting-enrollment"@),
        Status::ClearingDevice => Some("clearing-device"@),
        Status::DeviceCleared => Some("device-cleared"@),
        Status::Deleting => Some("deleting"@),
        Status::Deleted => Some("deleted"@),
        Status::Enroll(r) => Some(enroll_result_key(r)),
        Status::Reported(_) => None,
        Status::Error(_) => None,
    }
}

/// The text of a status in the active language: the translation of its
/// message, or its English text.
pub open spec fn status_text_in(entries: Seq<(String, String)>, s: Status) -> Seq<char> {
    match status_id(s) {
        Some(id) => lookup(entries, id, status_text(s)),
        None => status_text(s),
    }
}

impl Status {
    /// The id of the message that shows this status, if it has one.
    pub fn message_id(&self) -> (id: Option<&'static str>)
        ensures
            match id {
                Some(i) => status_id(*self) == Some(i@),
                None => status_id(*self) is None,
            },
    {
        match self {
            Status::Connecting => Some("status-connecting"),
            Status::SearchingDevice => Some("status-searching-device"),
            Status::DeviceFound => Some("status-device-found"),
            Status::NoDeviceFound => Some("status-no-device-found"),
            Status::Success => Some("success"),
            Status::EnrollStarting => Some("enroll-starting"),
            Status::StartingEnrollment => Some("status-starting-enrollment"),
            Status::ClearingDevice => Some("clearing-device"),
            Status::DeviceCleared => Some("device-cleared"),
            Status::Deleting => Some("deleting"),
            Status::Deleted => Some("deleted"),
            Status::Enroll(r) => Some(r.key()),
            Status::Reported(_) => None,
            Status::Error(_) => None,
        }
    }

    /// The text of the status in the active language.
    pub fn text_in(&self, translations: &Translations) -> (t: String)
        ensures
            t@ == status_text_in(translations.entries@, *self),
    {
        let fallback = self.text();
        match self.message_id() {
            Some(id) => translations.text(id, fallback.as_str()),
            None => fallback,
        }
    }

    /// The English text of the status.
    pub fn text(&self) -> (t: String)
        ensures
            t@ == status_text(*self),
    {
        match self {
            Status::Connecting => "Connecting to the system bus...".to_owned(),
            Status::SearchingDevice => "Searching for a fingerprint device...".to_owned(),
            Status::DeviceFound => "Fingerprint device found.".to_owned(),
            Status::NoDeviceFound => "No fingerprint device found.".to_owned(),
            Status::Success => "Fingerprint verified.".to_owned(),
            Status::EnrollStarting => "Place your finger on the sensor.".to_owned(),
            Status::StartingEnrollment => "Starting enrollment...".to_owned(),
            Status::ClearingDevice => "Removing every print from the device...".to_owned(),
            Status::DeviceCleared => "Every print was removed from the device.".to_owned(),
            Status::Deleting => "Deleting...".to_owned(),
            Status::Deleted => "Deleted.".to_owned(),
            Status::Enroll(r) => r.text(),
            Status::Reported(m) => m.clone(),
            Status::Error(e) => e.localized_message(),
        }
    }
}


/// Without translations every status is shown in English; whatever the
/// translations, a daemon string is shown as it is and an error by its own
/// text.
pub proof fn lemma_status_text_in(entries: Seq<(String, String)>, s: Status)
    ensures
        entries.len() == 0 ==> status_text_in(entries, s) == status_text(s),
        s matches Status::Reported(m) ==> status_text_in(entries, s) == m@,
        s matches Status::Error(e) ==> status_text_in(entries, s) == error_text(e@),
{
}

} // verus!
