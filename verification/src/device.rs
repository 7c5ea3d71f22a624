use vstd::prelude::*;
use crate::error::DbusError;
use crate::message::Message;
use crate::username::{username_problem, validate_username};

verus! {

/// A call that a job asks its driver to make on the fingerprint daemon's
/// device object, or on the application, before it is resumed with the reply.
#[derive(Debug)]
pub enum DeviceCall {
    /// Build the proxy of the device at the job's object path.
    Open,
    /// Claim the device for a user.
    Claim(String),
    /// List a user's enrolled fingers.
    ListEnrolledFingers(String),
    /// Delete the claimed user's print of one finger.
    DeleteEnrolledFinger(String),
    /// Delete every print of the claimed user.
    DeleteEnrolledFingers2,
    /// Read the number of enrollment stages of the device.
    NumEnrollStages,
    /// Start enrolling a finger.
    EnrollStart(String),
    /// Stop the running enrollment.
    EnrollStop,
    /// Subscribe to enrollment status signals.
    ReceiveEnrollStatus,
    /// Subscribe to verification status signals.
    ReceiveVerifyStatus,
    /// Start verifying a finger.
    VerifyStart(String),
    /// Stop the running verification.
    VerifyStop,
    /// Wait for the next status signal.
    NextSignal,
    /// Hand a message to the application.
    Send(Message),
    /// Release the device.
    Release,
    /// The job is over, with this result.
    Finish(Result<(), DbusError>),
}

/// The reply to a [`DeviceCall`].
#[derive(Debug)]
pub enum Reply {
    /// The call succeeded with nothing to report.
    Done,
    /// The call failed.
    Failed(DbusError),
    /// The enrolled fingers of a user.
    Fingers(Vec<String>),
    /// The number of enrollment stages.
    Stages(i32),
    /// A status signal: the result string and whether the operation is done.
    Signal(String, bool),
    /// A status signal whose arguments could not be read.
    BadSignal,
    /// The signal stream ended.
    StreamEnded,
}

/// The result that a reply stands for: its error, or success.
pub open spec fn reply_result(r: Reply) -> Result<(), DbusError> {
    match r {
        Reply::Failed(e) => Err(e),
        _ => Ok(()),
    }
}

fn into_result(r: Reply) -> (res: Result<(), DbusError>)
    ensures
        res == reply_result(r),
{
    match r {
        Reply::Failed(e) => Err(e),
        _ => Ok(()),
    }
}

fn copy_result(r: &Result<(), DbusError>) -> (c: Result<(), DbusError>)
    ensures
        c == *r,
{
    match r {
        Ok(u) => Ok(*u),
        Err(e) => Err(e.clone()),
    }
}

/// `res.and(rel)`: the first error of the two, or success.
pub open spec fn and_result(res: Result<(), DbusError>, rel: Result<(), DbusError>) -> Result<(), DbusError> {
    match res {
        Err(e) => Err(e),
        Ok(()) => rel,
    }
}

// ---------------------------------------------------------------------------
// Deleting one print of a user.

/// Where a [`DeletePrintJob`] stands.
#[derive(Debug)]
pub enum DeletePrintPhase {
    Opening,
    Claiming,
    Deleting,
    /// Releasing, with the result of the deletion.
    Releasing(Result<(), DbusError>),
    Finished(Result<(), DbusError>),
}

/// Deletes one finger's print of a user: validates the user name, opens the
/// device, claims it, deletes the print, releases the device, and finishes
/// with the deletion's error, else the release's, else success.
#[derive(Debug)]
pub struct DeletePrintJob {
    pub finger: String,
    pub username: String,
    pub phase: DeletePrintPhase,
}

/// The job's device is claimed and not yet being released.
pub open spec fn delete_print_holds_claim(j: DeletePrintJob) -> bool {
    j.phase is Deleting
}

/// A job that is not finished has an accepted user name.
pub open spec fn delete_print_wf(j: DeletePrintJob) -> bool {
    !(j.phase is Finished) ==> valid_name(j.username)
}

/// The step of a [`DeletePrintJob`] on a reply: its next state and call.
pub open spec fn delete_print_step(j: DeletePrintJob, r: Reply) -> (DeletePrintJob, DeviceCall) {
    match j.phase {
        DeletePrintPhase::Opening => match r {
            Reply::Failed(e) => (
                DeletePrintJob { phase: DeletePrintPhase::Finished(Err(e)), ..j },
                DeviceCall::Finish(Err(e)),
            ),
            _ => (DeletePrintJob { phase: DeletePrintPhase::Claiming, ..j }, DeviceCall::Claim(j.username)),
        },
        DeletePrintPhase::Claiming => match r {
            Reply::Failed(e) => (
                DeletePrintJob { phase: DeletePrintPhase::Finished(Err(e)), ..j },
                DeviceCall::Finish(Err(e)),
            ),
            _ => (
                DeletePrintJob { phase: DeletePrintPhase::Deleting, ..j },
                DeviceCall::DeleteEnrolledFinger(j.finger),
            ),
        },
        DeletePrintPhase::Deleting => (
            DeletePrintJob { phase: DeletePrintPhase::Releasing(reply_result(r)), ..j },
            DeviceCall::Release,
        ),
        DeletePrintPhase::Releasing(res) => (
            DeletePrintJob { phase: DeletePrintPhase::Finished(and_result(res, reply_result(r))), ..j },
            DeviceCall::Finish(and_result(res, reply_result(r))),
        ),
        DeletePrintPhase::Finished(res) => (j, DeviceCall::Finish(res)),
    }
}

impl DeletePrintJob {
    /// Starts the job: a refused user name finishes it at once with the
    /// validation error; otherwise the device is opened.
    pub fn start(finger: String, username: String) -> (r: (DeletePrintJob, DeviceCall))
        ensures
            delete_print_wf(r.0),
            match username_problem(username@) {
                Some(p) => {
                    &&& r.0.finger == finger && r.0.username == username
                    &&& r.0.phase matches DeletePrintPhase::Finished(Err(e)) && e@ == p
                    &&& r.1 == DeviceCall::Finish(Err(r.0.phase->Finished_0->Err_0))
                },
                None => r.0 == (DeletePrintJob { finger, username, phase: DeletePrintPhase::Opening })
                    && r.1 == DeviceCall::Open,
            },
    {
        match validate_username(username.as_str()) {
            Err(e) => {
                let call = DeviceCall::Finish(Err(e.clone()));
                (DeletePrintJob { finger, username, phase: DeletePrintPhase::Finished(Err(e)) }, call)
            },
            Ok(()) => (DeletePrintJob { finger, username, phase: DeletePrintPhase::Opening }, DeviceCall::Open),
        }
    }

    /// Resumes the job with the reply to its last call.
    pub fn resume(self, reply: Reply) -> (r: (DeletePrintJob, DeviceCall))
        ensures
            r == delete_print_step(self, reply),
    {
        let DeletePrintJob { finger, username, phase } = self;
        match phase {
            DeletePrintPhase::Opening => match reply {
                Reply::Failed(e) => {
                    let call = DeviceCall::Finish(Err(e.clone()));
                    (DeletePrintJob { finger, username, phase: DeletePrintPhase::Finished(Err(e)) }, call)
                },
                _ => {
                    let call = DeviceCall::Claim(username.clone());
                    (DeletePrintJob { finger, username, phase: DeletePrintPhase::Claiming }, call)
                },
            },
            DeletePrintPhase::Claiming => match reply {
                Reply::Failed(e) => {
                    let call = DeviceCall::Finish(Err(e.clone()));
                    (DeletePrintJob { finger, username, phase: DeletePrintPhase::Finished(Err(e)) }, call)
                },
                _ => {
                    let call = DeviceCall::DeleteEnrolledFinger(finger.clone());
                    (DeletePrintJob { finger, username, phase: DeletePrintPhase::Deleting }, call)
                },
            },
            DeletePrintPhase::Deleting => {
                let res = into_result(reply);
                (DeletePrintJob { finger, username, phase: DeletePrintPhase::Releasing(res) }, DeviceCall::Release)
            },
            DeletePrintPhase::Releasing(res) => {
                let rel = into_result(reply);
                let fin = match res {
                    Err(e) => Err(e),
                    Ok(()) => rel,
                };
                let call = DeviceCall::Finish(copy_result(&fin));
                (DeletePrintJob { finger, username, phase: DeletePrintPhase::Finished(fin) }, call)
            },
            DeletePrintPhase::Finished(res) => {
                let call = DeviceCall::Finish(copy_result(&res));
                (DeletePrintJob { finger, username, phase: DeletePrintPhase::Finished(res) }, call)
            },
        }
    }
}


// ---------------------------------------------------------------------------
// Deleting every print of a user.

/// Where a [`DeletePrintsJob`] stands.
#[derive(Debug)]
pub enum DeletePrintsPhase {
    Opening,
    Claiming,
    Deleting,
    /// Releasing, with the result of the deletion.
    Releasing(Result<(), DbusError>),
    Finished(Result<(), DbusError>),
}

/// Deletes every print of a user: validates the user name, opens the device,
/// claims it, deletes the prints, releases the device, and finishes with the
/// deletion's error, else the release's, else success.
#[derive(Debug)]
pub struct DeletePrintsJob {
    pub username: String,
    pub phase: DeletePrintsPhase,
}

/// The job's device is claimed and not yet being released.
pub open spec fn delete_prints_holds_claim(j: DeletePrintsJob) -> bool {
    j.phase is Deleting
}

/// A job that is not finished has an accepted user name.
pub open spec fn delete_prints_wf(j: DeletePrintsJob) -> bool {
    !(j.phase is Finished) ==> valid_name(j.username)
}

/// The step of a [`DeletePrintsJob`] on a reply: its next state and call.
pub open spec fn delete_prints_step(j: DeletePrintsJob, r: Reply) -> (DeletePrintsJob, DeviceCall) {
    match j.phase {
        DeletePrintsPhase::Opening => match r {
            Reply::Failed(e) => (
                DeletePrintsJob { phase: DeletePrintsPhase::Finished(Err(e)), ..j },
                DeviceCall::Finish(Err(e)),
            ),
            _ => (DeletePrintsJob { phase: DeletePrintsPhase::Claiming, ..j }, DeviceCall::Claim(j.username)),
        },
        DeletePrintsPhase::Claiming => match r {
            Reply::Failed(e) => (
                DeletePrintsJob { phase: DeletePrintsPhase::Finished(Err(e)), ..j },
                DeviceCall::Finish(Err(e)),
            ),
            _ => (DeletePrintsJob { phase: DeletePrintsPhase::Deleting, ..j }, DeviceCall::DeleteEnrolledFingers2),
        },
        DeletePrintsPhase::Deleting => (
            DeletePrintsJob { phase: DeletePrintsPhase::Releasing(reply_result(r)), ..j },
            DeviceCall::Release,
        ),
        DeletePrintsPhase::Releasing(res) => (
            DeletePrintsJob { phase: DeletePrintsPhase::Finished(and_result(res, reply_result(r))), ..j },
            DeviceCall::Finish(and_result(res, reply_result(r))),
        ),
        DeletePrintsPhase::Finished(res) => (j, DeviceCall::Finish(res)),
    }
}

impl DeletePrintsJob {
    /// Starts the job: a refused user name finishes it at once with the
    /// validation error; otherwise the device is opened.
    pub fn start(username: String) -> (r: (DeletePrintsJob, DeviceCall))
        ensures
            delete_prints_wf(r.0),
            match username_problem(username@) {
                Some(p) => {
                    &&& r.0.username == username
                    &&& r.0.phase matches DeletePrintsPhase::Finished(Err(e)) && e@ == p
                    &&& r.1 == DeviceCall::Finish(Err(r.0.phase->Finished_0->Err_0))
                },
                None => r.0 == (DeletePrintsJob { username, phase: DeletePrintsPhase::Opening })
                    && r.1 == DeviceCall::Open,
            },
    {
        match validate_username(username.as_str()) {
            Err(e) => {
                let call = DeviceCall::Finish(Err(e.clone()));
                (DeletePrintsJob { username, phase: DeletePrintsPhase::Finished(Err(e)) }, call)
            },
            Ok(()) => (DeletePrintsJob { username, phase: DeletePrintsPhase::Opening }, DeviceCall::Open),
        }
    }

    /// Resumes the job with the reply to its last call.
    pub fn resume(self, reply: Reply) -> (r: (DeletePrintsJob, DeviceCall))
        ensures
            r == delete_prints_step(self, reply),
    {
        let DeletePrintsJob { username, phase } = self;
        match phase {
            DeletePrintsPhase::Opening => match reply {
                Reply::Failed(e) => {
                    let call = DeviceCall::Finish(Err(e.clone()));
                    (DeletePrintsJob { username, phase: DeletePrintsPhase::Finished(Err(e)) }, call)
                },
                _ => {
                    let call = DeviceCall::Claim(username.clone());
                    (DeletePrintsJob { username, phase: DeletePrintsPhase::Claiming }, call)
                },
            },
            DeletePrintsPhase::Claiming => match reply {
                Reply::Failed(e) => {
                    let call = DeviceCall::Finish(Err(e.clone()));
                    (DeletePrintsJob { username, phase: DeletePrintsPhase::Finished(Err(e)) }, call)
                },
                _ => (DeletePrintsJob { username, phase: DeletePrintsPhase::Deleting }, DeviceCall::DeleteEnrolledFingers2),
            },
            DeletePrintsPhase::Deleting => {
                let res = into_result(reply);
                (DeletePrintsJob { username, phase: DeletePrintsPhase::Releasing(res) }, DeviceCall::Release)
            },
            DeletePrintsPhase::Releasing(res) => {
                let rel = into_result(reply);
                let fin = match res {
                    Err(e) => Err(e),
                    Ok(()) => rel,
                };
                let call = DeviceCall::Finish(copy_result(&fin));
                (DeletePrintsJob { username, phase: DeletePrintsPhase::Finished(fin) }, call)
            },
            DeletePrintsPhase::Finished(res) => {
                let call = DeviceCall::Finish(copy_result(&res));
                (DeletePrintsJob { username, phase: DeletePrintsPhase::Finished(res) }, call)
            },
        }
    }
}

// ---------------------------------------------------------------------------
// Stopping an enrollment.

/// Where a [`StopEnrollJob`] stands.
#[derive(Debug)]
pub enum StopEnrollPhase {
    Opening,
    Stopping,
    Releasing,
    Finished(Result<(), DbusError>),
}

/// Stops a running enrollment: opens the device, stops the enrollment
/// (whatever that answers), releases the device, and finishes with the
/// release's result.
#[derive(Debug)]
pub struct StopEnrollJob {
    pub phase: StopEnrollPhase,
}

/// The step of a [`StopEnrollJob`] on a reply: its next state and call.
pub open spec fn stop_enroll_step(j: StopEnrollJob, r: Reply) -> (StopEnrollJob, DeviceCall) {
    match j.phase {
        StopEnrollPhase::Opening => match r {
            Reply::Failed(e) => (
                StopEnrollJob { phase: StopEnrollPhase::Finished(Err(e)) },
                DeviceCall::Finish(Err(e)),
            ),
            _ => (StopEnrollJob { phase: StopEnrollPhase::Stopping }, DeviceCall::EnrollStop),
        },
        StopEnrollPhase::Stopping => (StopEnrollJob { phase: StopEnrollPhase::Releasing }, DeviceCall::Release),
        StopEnrollPhase::Releasing => (
            StopEnrollJob { phase: StopEnrollPhase::Finished(reply_result(r)) },
            DeviceCall::Finish(reply_result(r)),
        ),
        StopEnrollPhase::Finished(res) => (j, DeviceCall::Finish(res)),
    }
}

impl StopEnrollJob {
    /// Starts the job: the device is opened.
    pub fn start() -> (r: (StopEnrollJob, DeviceCall))
        ensures
            r.0 == (StopEnrollJob { phase: StopEnrollPhase::Opening }),
            r.1 == DeviceCall::Open,
    {
        (StopEnrollJob { phase: StopEnrollPhase::Opening }, DeviceCall::Open)
    }

    /// Resumes the job with the reply to its last call.
    pub fn resume(self, reply: Reply) -> (r: (StopEnrollJob, DeviceCall))
        ensures
            r == stop_enroll_step(self, reply),
    {
        match self.phase {
            StopEnrollPhase::Opening => match reply {
                Reply::Failed(e) => {
                    let call = DeviceCall::Finish(Err(e.clone()));
                    (StopEnrollJob { phase: StopEnrollPhase::Finished(Err(e)) }, call)
                },
                _ => (StopEnrollJob { phase: StopEnrollPhase::Stopping }, DeviceCall::EnrollStop),
            },
            StopEnrollPhase::Stopping => (StopEnrollJob { phase: StopEnrollPhase::Releasing }, DeviceCall::Release),
            StopEnrollPhase::Releasing => {
                let res = into_result(reply);
                let call = DeviceCall::Finish(copy_result(&res));
                (StopEnrollJob { phase: StopEnrollPhase::Finished(res) }, call)
            },
            StopEnrollPhase::Finished(res) => {
                let call = DeviceCall::Finish(copy_result(&res));
                (StopEnrollJob { phase: StopEnrollPhase::Finished(res) }, call)
            },
        }
    }
}

// ---------------------------------------------------------------------------
// Verifying a finger.

/// Where a [`VerifyJob`] stands.
#[derive(Debug)]
pub enum VerifyPhase {
    Opening,
    Claiming,
    Subscribing,
    Starting,
    Listening,
    Stopping,
    /// Releasing; the job then finishes with the release's result.
    Releasing,
    /// Releasing after a failure; the job then finishes with that failure.
    ReleasingAfter(DbusError),
    Finished(Result<(), DbusError>),
}

/// Verifies a user's finger: validates the user name, opens the device,
/// claims it, subscribes to verification signals, starts verifying, waits
/// until a signal says the verification is done (or a signal cannot be read,
/// or the signals end), stops verifying (whatever that answers), releases
/// the device, and finishes with the release's result. A failure to
/// subscribe or to start releases the device and finishes with that failure.
#[derive(Debug)]
pub struct VerifyJob {
    pub finger: String,
    pub username: String,
    pub phase: VerifyPhase,
}

/// The job's device is claimed and not yet being released.
pub open spec fn verify_holds_claim(j: VerifyJob) -> bool {
    j.phase is Subscribing || j.phase is Starting || j.phase is Listening || j.phase is Stopping
}

/// A job that is not finished has an accepted user name.
pub open spec fn verify_wf(j: VerifyJob) -> bool {
    !(j.phase is Finished) ==> valid_name(j.username)
}

/// The step of a [`VerifyJob`] on a reply: its next state and call.
pub open spec fn verify_step(j: VerifyJob, r: Reply) -> (VerifyJob, DeviceCall) {
    match j.phase {
        VerifyPhase::Opening => match r {
            Reply::Failed(e) => (VerifyJob { phase: VerifyPhase::Finished(Err(e)), ..j }, DeviceCall::Finish(Err(e))),
            _ => (VerifyJob { phase: VerifyPhase::Claiming, ..j }, DeviceCall::Claim(j.username)),
        },
        VerifyPhase::Claiming => match r {
            Reply::Failed(e) => (VerifyJob { phase: VerifyPhase::Finished(Err(e)), ..j }, DeviceCall::Finish(Err(e))),
            _ => (VerifyJob { phase: VerifyPhase::Subscribing, ..j }, DeviceCall::ReceiveVerifyStatus),
        },
        VerifyPhase::Subscribing => match r {
            Reply::Failed(e) => (VerifyJob { phase: VerifyPhase::ReleasingAfter(e), ..j }, DeviceCall::Release),
            _ => (VerifyJob { phase: VerifyPhase::Starting, ..j }, DeviceCall::VerifyStart(j.finger)),
        },
        VerifyPhase::Starting => match r {
            Reply::Failed(e) => (VerifyJob { phase: VerifyPhase::ReleasingAfter(e), ..j }, DeviceCall::Release),
            _ => (VerifyJob { phase: VerifyPhase::Listening, ..j }, DeviceCall::NextSignal),
        },
        VerifyPhase::Listening => match r {
            Reply::Signal(_, done) => if done {
                (VerifyJob { phase: VerifyPhase::Stopping, ..j }, DeviceCall::VerifyStop)
            } else {
                (j, DeviceCall::NextSignal)
            },
            _ => (VerifyJob { phase: VerifyPhase::Stopping, ..j }, DeviceCall::VerifyStop),
        },
        VerifyPhase::Stopping => (VerifyJob { phase: VerifyPhase::Releasing, ..j }, DeviceCall::Release),
        VerifyPhase::Releasing => (
            VerifyJob { phase: VerifyPhase::Finished(reply_result(r)), ..j },
            DeviceCall::Finish(reply_result(r)),
        ),
        VerifyPhase::ReleasingAfter(e) => (
            VerifyJob { phase: VerifyPhase::Finished(Err(e)), ..j },
            DeviceCall::Finish(Err(e)),
        ),
        VerifyPhase::Finished(res) => (j, DeviceCall::Finish(res)),
    }
}

impl VerifyJob {
    /// Starts the job: a refused user name finishes it at once with the
    /// validation error; otherwise the device is opened.
    pub fn start(finger: String, username: String) -> (r: (VerifyJob, DeviceCall))
        ensures
            verify_wf(r.0),
            match username_problem(username@) {
                Some(p) => {
                    &&& r.0.finger == finger && r.0.username == username
                    &&& r.0.phase matches VerifyPhase::Finished(Err(e)) && e@ == p
                    &&& r.1 == DeviceCall::Finish(Err(r.0.phase->Finished_0->Err_0))
                },
                None => r.0 == (VerifyJob { finger, username, phase: VerifyPhase::Opening })
                    && r.1 == DeviceCall::Open,
            },
    {
        match validate_username(username.as_str()) {
            Err(e) => {
                let call = DeviceCall::Finish(Err(e.clone()));
                (VerifyJob { finger, username, phase: VerifyPhase::Finished(Err(e)) }, call)
            },
            Ok(()) => (VerifyJob { finger, username, phase: VerifyPhase::Opening }, DeviceCall::Open),
        }
    }

    /// Resumes the job with the reply to its last call.
    pub fn resume(self, reply: Reply) -> (r: (VerifyJob, DeviceCall))
        ensures
            r == verify_step(self, reply),
    {
        let VerifyJob { finger, username, phase } = self;
        match phase {
            VerifyPhase::Opening => match reply {
                Reply::Failed(e) => {
                    let call = DeviceCall::Finish(Err(e.clone()));
                    (VerifyJob { finger, username, phase: VerifyPhase::Finished(Err(e)) }, call)
                },
                _ => {
                    let call = DeviceCall::Claim(username.clone());
                    (VerifyJob { finger, username, phase: VerifyPhase::Claiming }, call)
                },
            },
            VerifyPhase::Claiming => match reply {
                Reply::Failed(e) => {
                    let call = DeviceCall::Finish(Err(e.clone()));
                    (VerifyJob { finger, username, phase: VerifyPhase::Finished(Err(e)) }, call)
                },
                _ => (VerifyJob { finger, username, phase: VerifyPhase::Subscribing }, DeviceCall::ReceiveVerifyStatus),
            },
            VerifyPhase::Subscribing => match reply {
                Reply::Failed(e) => (VerifyJob { finger, username, phase: VerifyPhase::ReleasingAfter(e) }, DeviceCall::Release),
                _ => {
                    let call = DeviceCall::VerifyStart(finger.clone());
                    (VerifyJob { finger, username, phase: VerifyPhase::Starting }, call)
                },
            },
            VerifyPhase::Starting => match reply {
                Reply::Failed(e) => (VerifyJob { finger, username, phase: VerifyPhase::ReleasingAfter(e) }, DeviceCall::Release),
                _ => (VerifyJob { finger, username, phase: VerifyPhase::Listening }, DeviceCall::NextSignal),
            },
            VerifyPhase::Listening => match reply {
                Reply::Signal(_, done) => {
                    if done {
                        (VerifyJob { finger, username, phase: VerifyPhase::Stopping }, DeviceCall::VerifyStop)
                    } else {
                        (VerifyJob { finger, username, phase: VerifyPhase::Listening }, DeviceCall::NextSignal)
                    }
                },
                _ => (VerifyJob { finger, username, phase: VerifyPhase::Stopping }, DeviceCall::VerifyStop),
            },
            VerifyPhase::Stopping => (VerifyJob { finger, username, phase: VerifyPhase::Releasing }, DeviceCall::Release),
            VerifyPhase::Releasing => {
                let res = into_result(reply);
                let call = DeviceCall::Finish(copy_result(&res));
                (VerifyJob { finger, username, phase: VerifyPhase::Finished(res) }, call)
            },
            VerifyPhase::ReleasingAfter(e) => {
                let call = DeviceCall::Finish(Err(e.clone()));
                (VerifyJob { finger, username, phase: VerifyPhase::Finished(Err(e)) }, call)
            },
            VerifyPhase::Finished(res) => {
                let call = DeviceCall::Finish(copy_result(&res));
                (VerifyJob { finger, username, phase: VerifyPhase::Finished(res) }, call)
            },
        }
    }
}


// ---------------------------------------------------------------------------
// Enrolling a finger.

/// Where an [`EnrollJob`] stands.
#[derive(Debug)]
pub enum EnrollPhase {
    Opening,
    Claiming,
    CountingStages,
    Announcing,
    Starting,
    Subscribing,
    Listening,
    /// A status was handed on; `true` when it said the enrollment is done.
    Reporting(bool),
    /// A signal that could not be read was reported.
    ReportingFailure,
    /// Releasing; the job then succeeds.
    Releasing,
    /// Releasing after a failure; the job then finishes with that failure.
    ReleasingAfter(DbusError),
    Finished(Result<(), DbusError>),
}

/// Enrolls a user's finger: validates the user name, opens the device,
/// claims it, reads the number of stages (a positive number is announced,
/// anything else announces none), starts enrolling, subscribes to the
/// enrollment signals, and hands each status to the application until one
/// says the enrollment is done, a signal cannot be read (reported as an
/// error), or the signals end; then releases the device (whatever that
/// answers) and succeeds. A failure to start or to subscribe releases the
/// device and finishes with that failure.
#[derive(Debug)]
pub struct EnrollJob {
    pub finger: String,
    pub username: String,
    pub phase: EnrollPhase,
}

/// The job's device is claimed and not yet being released.
pub open spec fn enroll_holds_claim(j: EnrollJob) -> bool {
    ||| j.phase is CountingStages
    ||| j.phase is Announcing
    ||| j.phase is Starting
    ||| j.phase is Subscribing
    ||| j.phase is Listening
    ||| j.phase is Reporting
    ||| j.phase is ReportingFailure
}

/// A job that is not finished has an accepted user name.
pub open spec fn enroll_wf(j: EnrollJob) -> bool {
    !(j.phase is Finished) ==> valid_name(j.username)
}

/// The number of stages that a reply to `NumEnrollStages` announces.
pub open spec fn announced_stages(r: Reply) -> Option<u32> {
    match r {
        Reply::Stages(n) => if n > 0 { Some(n as u32) } else { None },
        _ => None,
    }
}

/// The step of an [`EnrollJob`] on a reply: `t` and `c` are its next state and call.
pub open spec fn enroll_step(j: EnrollJob, r: Reply, t: EnrollJob, c: DeviceCall) -> bool {
    match j.phase {
        EnrollPhase::Opening => match r {
            Reply::Failed(e) => t == (EnrollJob { phase: EnrollPhase::Finished(Err(e)), ..j })
                && c == DeviceCall::Finish(Err(e)),
            _ => t == (EnrollJob { phase: EnrollPhase::Claiming, ..j }) && c == DeviceCall::Claim(j.username),
        },
        EnrollPhase::Claiming => match r {
            Reply::Failed(e) => t == (EnrollJob { phase: EnrollPhase::Finished(Err(e)), ..j })
                && c == DeviceCall::Finish(Err(e)),
            _ => t == (EnrollJob { phase: EnrollPhase::CountingStages, ..j }) && c == DeviceCall::NumEnrollStages,
        },
        EnrollPhase::CountingStages => t == (EnrollJob { phase: EnrollPhase::Announcing, ..j })
            && c == DeviceCall::Send(Message::EnrollStart(announced_stages(r))),
        EnrollPhase::Announcing => t == (EnrollJob { phase: EnrollPhase::Starting, ..j })
            && c == DeviceCall::EnrollStart(j.finger),
        EnrollPhase::Starting => match r {
            Reply::Failed(e) => t == (EnrollJob { phase: EnrollPhase::ReleasingAfter(e), ..j })
                && c == DeviceCall::Release,
            _ => t == (EnrollJob { phase: EnrollPhase::Subscribing, ..j }) && c == DeviceCall::ReceiveEnrollStatus,
        },
        EnrollPhase::Subscribing => match r {
            Reply::Failed(e) => t == (EnrollJob { phase: EnrollPhase::ReleasingAfter(e), ..j })
                && c == DeviceCall::Release,
            _ => t == (EnrollJob { phase: EnrollPhase::Listening, ..j }) && c == DeviceCall::NextSignal,
        },
        EnrollPhase::Listening => match r {
            Reply::Signal(result, done) => t == (EnrollJob { phase: EnrollPhase::Reporting(done), ..j })
                && c == DeviceCall::Send(Message::EnrollStatus(result, done)),
            Reply::BadSignal => {
                &&& t == (EnrollJob { phase: EnrollPhase::ReportingFailure, ..j })
                &&& c matches DeviceCall::Send(Message::OperationError(crate::error::AppError::Unknown(m)))
                &&& m@ == "Failed to parse signal"@
            },
            _ => t == (EnrollJob { phase: EnrollPhase::Releasing, ..j }) && c == DeviceCall::Release,
        },
        EnrollPhase::Reporting(done) => if done {
            t == (EnrollJob { phase: EnrollPhase::Releasing, ..j }) && c == DeviceCall::Release
        } else {
            t == (EnrollJob { phase: EnrollPhase::Listening, ..j }) && c == DeviceCall::NextSignal
        },
        EnrollPhase::ReportingFailure => t == (EnrollJob { phase: EnrollPhase::Releasing, ..j })
            && c == DeviceCall::Release,
        EnrollPhase::Releasing => t == (EnrollJob { phase: EnrollPhase::Finished(Ok(())), ..j })
            && c == DeviceCall::Finish(Ok(())),
        EnrollPhase::ReleasingAfter(e) => t == (EnrollJob { phase: EnrollPhase::Finished(Err(e)), ..j })
            && c == DeviceCall::Finish(Err(e)),
        EnrollPhase::Finished(res) => t == j && c == DeviceCall::Finish(res),
    }
}

impl EnrollJob {
    /// Starts the job: a refused user name finishes it at once with the
    /// validation error; otherwise the device is opened.
    pub fn start(finger: String, username: String) -> (r: (EnrollJob, DeviceCall))
        ensures
            enroll_wf(r.0),
            match username_problem(username@) {
                Some(p) => {
                    &&& r.0.finger == finger && r.0.username == username
                    &&& r.0.phase matches EnrollPhase::Finished(Err(e)) && e@ == p
                    &&& r.1 == DeviceCall::Finish(Err(r.0.phase->Finished_0->Err_0))
                },
                None => r.0 == (EnrollJob { finger, username, phase: EnrollPhase::Opening })
                    && r.1 == DeviceCall::Open,
            },
    {
        match validate_username(username.as_str()) {
            Err(e) => {
                let call = DeviceCall::Finish(Err(e.clone()));
                (EnrollJob { finger, username, phase: EnrollPhase::Finished(Err(e)) }, call)
            },
            Ok(()) => (EnrollJob { finger, username, phase: EnrollPhase::Opening }, DeviceCall::Open),
        }
    }

    /// Resumes the job with the reply to its last call.
    pub fn resume(self, reply: Reply) -> (r: (EnrollJob, DeviceCall))
        ensures
            enroll_step(self, reply, r.0, r.1),
    {
        let EnrollJob { finger, username, phase } = self;
        match phase {
            EnrollPhase::Opening => match reply {
                Reply::Failed(e) => {
                    let call = DeviceCall::Finish(Err(e.clone()));
                    (EnrollJob { finger, username, phase: EnrollPhase::Finished(Err(e)) }, call)
                },
                _ => {
                    let call = DeviceCall::Claim(username.clone());
                    (EnrollJob { finger, username, phase: EnrollPhase::Claiming }, call)
                },
            },
            EnrollPhase::Claiming => match reply {
                Reply::Failed(e) => {
                    let call = DeviceCall::Finish(Err(e.clone()));
                    (EnrollJob { finger, username, phase: EnrollPhase::Finished(Err(e)) }, call)
                },
                _ => (EnrollJob { finger, username, phase: EnrollPhase::CountingStages }, DeviceCall::NumEnrollStages),
            },
            EnrollPhase::CountingStages => {
                let total: Option<u32> = match reply {
                    Reply::Stages(n) => if n > 0 { Some(n as u32) } else { None },
                    _ => None,
                };
                (
                    EnrollJob { finger, username, phase: EnrollPhase::Announcing },
                    DeviceCall::Send(Message::EnrollStart(total)),
                )
            },
            EnrollPhase::Announcing => {
                let call = DeviceCall::EnrollStart(finger.clone());
                (EnrollJob { finger, username, phase: EnrollPhase::Starting }, call)
            },
            EnrollPhase::Starting => match reply {
                Reply::Failed(e) => (EnrollJob { finger, username, phase: EnrollPhase::ReleasingAfter(e) }, DeviceCall::Release),
                _ => (EnrollJob { finger, username, phase: EnrollPhase::Subscribing }, DeviceCall::ReceiveEnrollStatus),
            },
            EnrollPhase::Subscribing => match reply {
                Reply::Failed(e) => (EnrollJob { finger, username, phase: EnrollPhase::ReleasingAfter(e) }, DeviceCall::Release),
                _ => (EnrollJob { finger, username, phase: EnrollPhase::Listening }, DeviceCall::NextSignal),
            },
            EnrollPhase::Listening => match reply {
                Reply::Signal(result, done) => (
                    EnrollJob { finger, username, phase: EnrollPhase::Reporting(done) },
                    DeviceCall::Send(Message::EnrollStatus(result, done)),
                ),
                Reply::BadSignal => {
                    let m = "Failed to parse signal".to_owned();
                    (
                        EnrollJob { finger, username, phase: EnrollPhase::ReportingFailure },
                        DeviceCall::Send(Message::OperationError(crate::error::AppError::Unknown(m))),
                    )
                },
                _ => (EnrollJob { finger, username, phase: EnrollPhase::Releasing }, DeviceCall::Release),
            },
            EnrollPhase::Reporting(done) => {
                if done {
                    (EnrollJob { finger, username, phase: EnrollPhase::Releasing }, DeviceCall::Release)
                } else {
                    (EnrollJob { finger, username, phase: EnrollPhase::Listening }, DeviceCall::NextSignal)
                }
            },
            EnrollPhase::ReportingFailure => (EnrollJob { finger, username, phase: EnrollPhase::Releasing }, DeviceCall::Release),
            EnrollPhase::Releasing => (
                EnrollJob { finger, username, phase: EnrollPhase::Finished(Ok(())) },
                DeviceCall::Finish(Ok(())),
            ),
            EnrollPhase::ReleasingAfter(e) => {
                let call = DeviceCall::Finish(Err(e.clone()));
                (EnrollJob { finger, username, phase: EnrollPhase::Finished(Err(e)) }, call)
            },
            EnrollPhase::Finished(res) => {
                let call = DeviceCall::Finish(copy_result(&res));
                (EnrollJob { finger, username, phase: EnrollPhase::Finished(res) }, call)
            },
        }
    }
}


// ---------------------------------------------------------------------------
// Clearing the device.

/// Where a [`ClearJob`] stands.
#[derive(Debug)]
pub enum ClearPhase {
    Opening,
    /// Claiming the device for the current user.
    Claiming,
    /// Listing the current user's fingers.
    Listing,
    /// Deleting the listed finger at `next_finger`.
    Deleting,
    /// Releasing the device after the current user.
    Releasing,
    Finished(Result<(), DbusError>),
}

/// Deletes every print of every listed user: opens the device (a failure
/// ends the job with it), then for each user in turn skips a refused user
/// name, claims the device (a failure skips the user), lists the user's
/// fingers and deletes each of them, and releases the device. Every failure
/// on the way is remembered, and the job finishes with the last one, or
/// succeeds when there was none.
#[derive(Debug)]
pub struct ClearJob {
    pub usernames: Vec<String>,
    /// The user being handled.
    pub current: usize,
    /// The fingers listed for the current user.
    pub fingers: Vec<String>,
    /// The listed finger whose deletion was asked for last.
    pub next_finger: usize,
    /// The last failure so far.
    pub last_error: Option<DbusError>,
    pub phase: ClearPhase,
}

/// Whether a user name is accepted.
pub open spec fn valid_name(u: String) -> bool {
    username_problem(u@) is None
}

/// The first user, from position `i` on, whose name is accepted (or the
/// number of users, when there is none).
pub open spec fn first_valid_from(users: Seq<String>, i: int) -> int
    decreases users.len() - i,
{
    if i >= users.len() {
        users.len() as int
    } else if valid_name(users[i]) {
        i
    } else {
        first_valid_from(users, i + 1)
    }
}

/// The result that the remembered failure stands for.
pub open spec fn result_of(last: Option<DbusError>) -> Result<(), DbusError> {
    match last {
        Some(e) => Err(e),
        None => Ok(()),
    }
}

/// The job's state is consistent: the positions are in range, and a claim is
/// only pending for an accepted user name.
pub open spec fn clear_wf(j: ClearJob) -> bool {
    &&& j.current <= j.usernames@.len()
    &&& (j.phase is Claiming || j.phase is Listing || j.phase is Deleting || j.phase is Releasing)
        ==> j.current < j.usernames@.len()
    &&& j.phase is Claiming ==> valid_name(j.usernames@[j.current as int])
    &&& j.phase is Deleting ==> j.next_finger < j.fingers@.len()
}

/// The job's device is claimed and not yet being released.
pub open spec fn clear_holds_claim(j: ClearJob) -> bool {
    j.phase is Listing || j.phase is Deleting
}

/// Moving on to the users from position `i` on: refused names are skipped
/// (the last of them is remembered as a failure), the first accepted one is
/// claimed, and when no user is left the job finishes with the remembered
/// failure, or succeeds.
pub open spec fn clear_advanced(j: ClearJob, i: int, t: ClearJob, c: DeviceCall) -> bool {
    let k = first_valid_from(j.usernames@, i);
    &&& t.usernames == j.usernames
    &&& t.fingers == j.fingers
    &&& t.next_finger == j.next_finger
    &&& if k > i {
        &&& t.last_error matches Some(e)
        &&& Some(e@) == username_problem(j.usernames@[k - 1]@)
    } else {
        t.last_error == j.last_error
    }
    &&& if k >= j.usernames@.len() {
        &&& t.current == j.usernames@.len()
        &&& t.phase == ClearPhase::Finished(result_of(t.last_error))
        &&& c == DeviceCall::Finish(result_of(t.last_error))
    } else {
        &&& t.current == k
        &&& t.phase is Claiming
        &&& c == DeviceCall::Claim(j.usernames@[k])
    }
}

/// The job with a failure remembered, if the reply is one.
pub open spec fn noting(j: ClearJob, r: Reply) -> ClearJob {
    match r {
        Reply::Failed(e) => ClearJob { last_error: Some(e), ..j },
        _ => j,
    }
}

/// The step of a [`ClearJob`] on a reply: `t` and `c` are its next state and call.
pub open spec fn clear_step(j: ClearJob, r: Reply, t: ClearJob, c: DeviceCall) -> bool {
    match j.phase {
        ClearPhase::Opening => match r {
            Reply::Failed(e) => t == (ClearJob { phase: ClearPhase::Finished(Err(e)), ..j })
                && c == DeviceCall::Finish(Err(e)),
            _ => clear_advanced(j, 0, t, c),
        },
        ClearPhase::Claiming => match r {
            Reply::Failed(e) => clear_advanced(ClearJob { last_error: Some(e), ..j }, j.current + 1, t, c),
            _ => t == (ClearJob { phase: ClearPhase::Listing, ..j })
                && c == DeviceCall::ListEnrolledFingers(j.usernames@[j.current as int]),
        },
        ClearPhase::Listing => match r {
            Reply::Fingers(v) => if v@.len() == 0 {
                t == (ClearJob { fingers: v, phase: ClearPhase::Releasing, ..j }) && c == DeviceCall::Release
            } else {
                t == (ClearJob { fingers: v, next_finger: 0, phase: ClearPhase::Deleting, ..j })
                    && c == DeviceCall::DeleteEnrolledFinger(v@[0])
            },
            Reply::Failed(e) => t == (ClearJob { last_error: Some(e), phase: ClearPhase::Releasing, ..j })
                && c == DeviceCall::Release,
            _ => t == (ClearJob { phase: ClearPhase::Releasing, ..j }) && c == DeviceCall::Release,
        },
        ClearPhase::Deleting => {
            let n = j.next_finger + 1;
            if n < j.fingers@.len() {
                t == (ClearJob { next_finger: n as usize, ..noting(j, r) })
                    && c == DeviceCall::DeleteEnrolledFinger(j.fingers@[n])
            } else {
                t == (ClearJob { phase: ClearPhase::Releasing, ..noting(j, r) }) && c == DeviceCall::Release
            }
        },
        ClearPhase::Releasing => clear_advanced(noting(j, r), j.current + 1, t, c),
        ClearPhase::Finished(res) => t == j && c == DeviceCall::Finish(res),
    }
}

impl ClearJob {
    /// Starts the job: the device is opened.
    pub fn start(usernames: Vec<String>) -> (r: (ClearJob, DeviceCall))
        ensures
            r.0.usernames == usernames,
            r.0.current == 0,
            r.0.fingers@.len() == 0,
            r.0.next_finger == 0,
            r.0.last_error is None,
            r.0.phase is Opening,
            r.1 == DeviceCall::Open,
            clear_wf(r.0),
    {
        (
            ClearJob {
                usernames,
                current: 0,
                fingers: Vec::new(),
                next_finger: 0,
                last_error: None,
                phase: ClearPhase::Opening,
            },
            DeviceCall::Open,
        )
    }

    fn advance(self, i: usize) -> (r: (ClearJob, DeviceCall))
        requires
            i <= self.usernames@.len(),
            self.current <= self.usernames@.len(),
        ensures
            clear_advanced(self, i as int, r.0, r.1),
            clear_wf(r.0),
    {
        let ClearJob { usernames, current, fingers, next_finger, last_error, phase } = self;
        let ghost start_error = last_error;
        let mut last_error = last_error;
        let mut k = i;
        while k < usernames.len()
            invariant
                i <= k <= usernames@.len(),
                usernames == self.usernames,
                start_error == self.last_error,
                fingers == self.fingers,
                next_finger == self.next_finger,
                first_valid_from(usernames@, i as int) == first_valid_from(usernames@, k as int),
                if k > i {
                    &&& last_error matches Some(e)
                    &&& Some(e@) == username_problem(usernames@[k - 1]@)
                } else {
                    last_error == start_error
                },
            decreases usernames@.len() - k,
        {
            match validate_username(usernames[k].as_str()) {
                Ok(()) => {
                    assert(valid_name(usernames@[k as int]));
                    let call = DeviceCall::Claim(usernames[k].clone());
                    return (
                        ClearJob { usernames, current: k, fingers, next_finger, last_error, phase: ClearPhase::Claiming },
                        call,
                    );
                },
                Err(e) => {
                    last_error = Some(e);
                },
            }
            k = k + 1;
        }
        let res = match &last_error {
            Some(e) => Err(e.clone()),
            None => Ok(()),
        };
        let call = DeviceCall::Finish(copy_result(&res));
        (ClearJob { usernames, current: k, fingers, next_finger, last_error, phase: ClearPhase::Finished(res) }, call)
    }

    /// Moves on to the users after the current one.
    fn advance_past_current(self) -> (r: (ClearJob, DeviceCall))
        requires
            self.current < self.usernames@.len(),
        ensures
            clear_advanced(self, self.current + 1, r.0, r.1),
            clear_wf(r.0),
    {
        let count = self.usernames.len();
        let next = if self.current < count { self.current + 1 } else { count };
        self.advance(next)
    }

    /// Resumes the job with the reply to its last call.
    pub fn resume(self, reply: Reply) -> (r: (ClearJob, DeviceCall))
        requires
            clear_wf(self),
        ensures
            clear_step(self, reply, r.0, r.1),
            clear_wf(r.0),
    {
        let ClearJob { usernames, current, fingers, next_finger, last_error, phase } = self;
        match phase {
            ClearPhase::Opening => match reply {
                Reply::Failed(e) => {
                    let call = DeviceCall::Finish(Err(e.clone()));
                    (
                        ClearJob { usernames, current, fingers, next_finger, last_error, phase: ClearPhase::Finished(Err(e)) },
                        call,
                    )
                },
                _ => {
                    let j = ClearJob { usernames, current, fingers, next_finger, last_error, phase: ClearPhase::Opening };
                    j.advance(0)
                },
            },
            ClearPhase::Claiming => match reply {
                Reply::Failed(e) => {
                    let j = ClearJob { usernames, current, fingers, next_finger, last_error: Some(e), phase: ClearPhase::Claiming };
                    j.advance_past_current()
                },
                _ => {
                    let call = DeviceCall::ListEnrolledFingers(usernames[current].clone());
                    (ClearJob { usernames, current, fingers, next_finger, last_error, phase: ClearPhase::Listing }, call)
                },
            },
            ClearPhase::Listing => match reply {
                Reply::Fingers(v) => {
                    if v.len() == 0 {
                        (ClearJob { usernames, current, fingers: v, next_finger, last_error, phase: ClearPhase::Releasing }, DeviceCall::Release)
                    } else {
                        let call = DeviceCall::DeleteEnrolledFinger(v[0].clone());
                        (ClearJob { usernames, current, fingers: v, next_finger: 0, last_error, phase: ClearPhase::Deleting }, call)
                    }
                },
                Reply::Failed(e) => (
                    ClearJob { usernames, current, fingers, next_finger, last_error: Some(e), phase: ClearPhase::Releasing },
                    DeviceCall::Release,
                ),
                _ => (ClearJob { usernames, current, fingers, next_finger, last_error, phase: ClearPhase::Releasing }, DeviceCall::Release),
            },
            ClearPhase::Deleting => {
                let last_error = match reply {
                    Reply::Failed(e) => Some(e),
                    _ => last_error,
                };
                let count = fingers.len();
                let n = next_finger + 1;
                if n < count {
                    let call = DeviceCall::DeleteEnrolledFinger(fingers[n].clone());
                    (ClearJob { usernames, current, fingers, next_finger: n, last_error, phase: ClearPhase::Deleting }, call)
                } else {
                    (ClearJob { usernames, current, fingers, next_finger, last_error, phase: ClearPhase::Releasing }, DeviceCall::Release)
                }
            },
            ClearPhase::Releasing => {
                let last_error = match reply {
                    Reply::Failed(e) => Some(e),
                    _ => last_error,
                };
                let j = ClearJob { usernames, current, fingers, next_finger, last_error, phase: ClearPhase::Releasing };
                j.advance_past_current()
            },
            ClearPhase::Finished(res) => {
                let call = DeviceCall::Finish(copy_result(&res));
                (ClearJob { usernames, current, fingers, next_finger, last_error, phase: ClearPhase::Finished(res) }, call)
            },
        }
    }
}

} // verus!
