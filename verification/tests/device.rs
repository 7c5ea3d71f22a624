use enroll::device::{
    ClearJob, DeletePrintJob, DeletePrintsJob, DeviceCall, EnrollJob, Reply, StopEnrollJob, VerifyJob,
};
use enroll::error::DbusError;
use enroll::message::Message;

fn fail(m: &str) -> Reply {
    Reply::Failed(DbusError::Failure(m.to_string()))
}

fn finished_error(call: &DeviceCall) -> Option<String> {
    match call {
        DeviceCall::Finish(Err(DbusError::Failure(m))) => Some(m.clone()),
        _ => None,
    }
}

#[test]
fn delete_print_happy_path() {
    let (j, c) = DeletePrintJob::start("left-thumb".to_string(), "alice".to_string());
    assert!(matches!(c, DeviceCall::Open));
    let (j, c) = j.resume(Reply::Done);
    assert!(matches!(c, DeviceCall::Claim(ref u) if u == "alice"));
    let (j, c) = j.resume(Reply::Done);
    assert!(matches!(c, DeviceCall::DeleteEnrolledFinger(ref f) if f == "left-thumb"));
    let (j, c) = j.resume(Reply::Done);
    assert!(matches!(c, DeviceCall::Release));
    let (_, c) = j.resume(Reply::Done);
    assert!(matches!(c, DeviceCall::Finish(Ok(()))));
}

#[test]
fn delete_print_keeps_first_error_and_releases() {
    let (j, _) = DeletePrintJob::start("left-thumb".to_string(), "alice".to_string());
    let (j, _) = j.resume(Reply::Done);
    let (j, _) = j.resume(Reply::Done);
    let (j, c) = j.resume(fail("not deleted"));
    assert!(matches!(c, DeviceCall::Release));
    let (_, c) = j.resume(fail("release failed"));
    assert_eq!(finished_error(&c).as_deref(), Some("not deleted"));
}

#[test]
fn delete_print_release_error_reported() {
    let (j, _) = DeletePrintJob::start("left-thumb".to_string(), "alice".to_string());
    let (j, _) = j.resume(Reply::Done);
    let (j, _) = j.resume(Reply::Done);
    let (j, _) = j.resume(Reply::Done);
    let (_, c) = j.resume(fail("release failed"));
    assert_eq!(finished_error(&c).as_deref(), Some("release failed"));
}

#[test]
fn invalid_user_finishes_at_once() {
    let (_, c) = DeletePrintJob::start("left-thumb".to_string(), "bad user".to_string());
    assert_eq!(finished_error(&c).as_deref(), Some("Invalid characters in username: bad user"));
    let (_, c) = DeletePrintsJob::start(String::new());
    assert_eq!(finished_error(&c).as_deref(), Some("Username cannot be empty"));
    let (_, c) = VerifyJob::start("x".to_string(), "a/b".to_string());
    assert!(finished_error(&c).is_some());
    let (_, c) = EnrollJob::start("x".to_string(), "a@b".to_string());
    assert!(finished_error(&c).is_some());
}

#[test]
fn failed_claim_finishes_without_release() {
    let (j, _) = DeletePrintsJob::start("alice".to_string());
    let (j, _) = j.resume(Reply::Done);
    let (_, c) = j.resume(fail("in use"));
    assert_eq!(finished_error(&c).as_deref(), Some("in use"));
}

#[test]
fn delete_prints_reports_failed_deletion() {
    let (j, _) = DeletePrintsJob::start("alice".to_string());
    let (j, _) = j.resume(Reply::Done);
    let (j, c) = j.resume(Reply::Done);
    assert!(matches!(c, DeviceCall::DeleteEnrolledFingers2));
    let (j, c) = j.resume(fail("prints not deleted"));
    assert!(matches!(c, DeviceCall::Release));
    let (_, c) = j.resume(Reply::Done);
    assert_eq!(finished_error(&c).as_deref(), Some("prints not deleted"));
}

#[test]
fn delete_prints_reports_release_failure() {
    let (j, _) = DeletePrintsJob::start("alice".to_string());
    let (j, _) = j.resume(Reply::Done);
    let (j, _) = j.resume(Reply::Done);
    let (j, _) = j.resume(Reply::Done);
    let (_, c) = j.resume(fail("release failed"));
    assert_eq!(finished_error(&c).as_deref(), Some("release failed"));
}

#[test]
fn delete_prints_success() {
    let (j, _) = DeletePrintsJob::start("alice".to_string());
    let (j, _) = j.resume(Reply::Done);
    let (j, _) = j.resume(Reply::Done);
    let (j, _) = j.resume(Reply::Done);
    let (_, c) = j.resume(Reply::Done);
    assert!(matches!(c, DeviceCall::Finish(Ok(()))));
}

#[test]
fn stop_enroll_flow() {
    let (j, c) = StopEnrollJob::start();
    assert!(matches!(c, DeviceCall::Open));
    let (j, c) = j.resume(Reply::Done);
    assert!(matches!(c, DeviceCall::EnrollStop));
    let (j, c) = j.resume(fail("no enrollment"));
    assert!(matches!(c, DeviceCall::Release));
    let (_, c) = j.resume(Reply::Done);
    assert!(matches!(c, DeviceCall::Finish(Ok(()))));
}

#[test]
fn verify_flow_until_done() {
    let (j, _) = VerifyJob::start("right-thumb".to_string(), "alice".to_string());
    let (j, _) = j.resume(Reply::Done);
    let (j, c) = j.resume(Reply::Done);
    assert!(matches!(c, DeviceCall::ReceiveVerifyStatus));
    let (j, c) = j.resume(Reply::Done);
    assert!(matches!(c, DeviceCall::VerifyStart(ref f) if f == "right-thumb"));
    let (j, c) = j.resume(Reply::Done);
    assert!(matches!(c, DeviceCall::NextSignal));
    let (j, c) = j.resume(Reply::Signal("verify-retry-scan".to_string(), false));
    assert!(matches!(c, DeviceCall::NextSignal));
    let (j, c) = j.resume(Reply::Signal("verify-match".to_string(), true));
    assert!(matches!(c, DeviceCall::VerifyStop));
    let (j, c) = j.resume(fail("stop failed"));
    assert!(matches!(c, DeviceCall::Release));
    let (_, c) = j.resume(Reply::Done);
    assert!(matches!(c, DeviceCall::Finish(Ok(()))));
}

#[test]
fn verify_start_failure_releases() {
    let (j, _) = VerifyJob::start("right-thumb".to_string(), "alice".to_string());
    let (j, _) = j.resume(Reply::Done);
    let (j, _) = j.resume(Reply::Done);
    let (j, _) = j.resume(Reply::Done);
    let (j, c) = j.resume(fail("no prints"));
    assert!(matches!(c, DeviceCall::Release));
    let (_, c) = j.resume(Reply::Done);
    assert_eq!(finished_error(&c).as_deref(), Some("no prints"));
}

#[test]
fn enroll_flow() {
    let (j, _) = EnrollJob::start("left-index-finger".to_string(), "alice".to_string());
    let (j, _) = j.resume(Reply::Done);
    let (j, c) = j.resume(Reply::Done);
    assert!(matches!(c, DeviceCall::NumEnrollStages));
    let (j, c) = j.resume(Reply::Stages(5));
    assert!(matches!(c, DeviceCall::Send(Message::EnrollStart(Some(5)))));
    let (j, c) = j.resume(Reply::Done);
    assert!(matches!(c, DeviceCall::EnrollStart(ref f) if f == "left-index-finger"));
    let (j, c) = j.resume(Reply::Done);
    assert!(matches!(c, DeviceCall::ReceiveEnrollStatus));
    let (j, c) = j.resume(Reply::Done);
    assert!(matches!(c, DeviceCall::NextSignal));
    let (j, c) = j.resume(Reply::Signal("enroll-stage-passed".to_string(), false));
    assert!(matches!(c, DeviceCall::Send(Message::EnrollStatus(ref s, false)) if s == "enroll-stage-passed"));
    let (j, c) = j.resume(Reply::Done);
    assert!(matches!(c, DeviceCall::NextSignal));
    let (j, c) = j.resume(Reply::Signal("enroll-completed".to_string(), true));
    assert!(matches!(c, DeviceCall::Send(Message::EnrollStatus(_, true))));
    let (j, c) = j.resume(Reply::Done);
    assert!(matches!(c, DeviceCall::Release));
    let (_, c) = j.resume(fail("release failed"));
    assert!(matches!(c, DeviceCall::Finish(Ok(()))));
}

#[test]
fn enroll_without_stage_count_and_bad_signal() {
    let (j, _) = EnrollJob::start("left-index-finger".to_string(), "alice".to_string());
    let (j, _) = j.resume(Reply::Done);
    let (j, _) = j.resume(Reply::Done);
    let (j, c) = j.resume(Reply::Stages(0));
    assert!(matches!(c, DeviceCall::Send(Message::EnrollStart(None))));
    let (j, _) = j.resume(Reply::Done);
    let (j, _) = j.resume(Reply::Done);
    let (j, _) = j.resume(Reply::Done);
    let (j, c) = j.resume(Reply::BadSignal);
    match c {
        DeviceCall::Send(Message::OperationError(e)) => assert_eq!(e.localized_message(), "Failed to parse signal"),
        other => panic!("unexpected {:?}", other),
    }
    let (j, c) = j.resume(Reply::Done);
    assert!(matches!(c, DeviceCall::Release));
    let (_, c) = j.resume(Reply::Done);
    assert!(matches!(c, DeviceCall::Finish(Ok(()))));
}

#[test]
fn enroll_start_failure_releases_and_fails() {
    let (j, _) = EnrollJob::start("left-index-finger".to_string(), "alice".to_string());
    let (j, _) = j.resume(Reply::Done);
    let (j, _) = j.resume(Reply::Done);
    let (j, _) = j.resume(fail("no stages"));
    let (j, _) = j.resume(Reply::Done);
    let (j, c) = j.resume(fail("invalid finger"));
    assert!(matches!(c, DeviceCall::Release));
    let (_, c) = j.resume(Reply::Done);
    assert_eq!(finished_error(&c).as_deref(), Some("invalid finger"));
}

#[test]
fn clear_skips_invalid_and_reports_last_error() {
    let users = vec!["bad user".to_string(), "alice".to_string(), "bob".to_string()];
    let (j, c) = ClearJob::start(users);
    assert!(matches!(c, DeviceCall::Open));
    let (j, c) = j.resume(Reply::Done);
    assert!(matches!(c, DeviceCall::Claim(ref u) if u == "alice"));
    let (j, c) = j.resume(Reply::Done);
    assert!(matches!(c, DeviceCall::ListEnrolledFingers(ref u) if u == "alice"));
    let (j, c) = j.resume(Reply::Fingers(vec!["left-thumb".to_string(), "right-thumb".to_string()]));
    assert!(matches!(c, DeviceCall::DeleteEnrolledFinger(ref f) if f == "left-thumb"));
    let (j, c) = j.resume(fail("first delete failed"));
    assert!(matches!(c, DeviceCall::DeleteEnrolledFinger(ref f) if f == "right-thumb"));
    let (j, c) = j.resume(Reply::Done);
    assert!(matches!(c, DeviceCall::Release));
    let (j, c) = j.resume(Reply::Done);
    assert!(matches!(c, DeviceCall::Claim(ref u) if u == "bob"));
    let (j, c) = j.resume(fail("bob in use"));
    assert_eq!(finished_error(&c).as_deref(), Some("bob in use"));
    let (_, c) = j.resume(Reply::Done);
    assert_eq!(finished_error(&c).as_deref(), Some("bob in use"));
}

#[test]
fn clear_success_and_invalid_only() {
    let (j, _) = ClearJob::start(vec!["alice".to_string()]);
    let (j, _) = j.resume(Reply::Done);
    let (j, _) = j.resume(Reply::Done);
    let (j, c) = j.resume(Reply::Fingers(vec![]));
    assert!(matches!(c, DeviceCall::Release));
    let (_, c) = j.resume(Reply::Done);
    assert!(matches!(c, DeviceCall::Finish(Ok(()))));

    let (j, _) = ClearJob::start(vec!["a b".to_string(), "".to_string()]);
    let (_, c) = j.resume(Reply::Done);
    assert_eq!(finished_error(&c).as_deref(), Some("Username cannot be empty"));

    let (j, _) = ClearJob::start(vec!["alice".to_string()]);
    let (_, c) = j.resume(fail("no device"));
    assert_eq!(finished_error(&c).as_deref(), Some("no device"));
}
