use vstd::prelude::*;
use crate::device::{
    ClearJob, ClearPhase, DeletePrintJob, DeletePrintsJob, DeviceCall, EnrollJob, Reply, StopEnrollJob,
    StopEnrollPhase, VerifyJob, clear_step, clear_wf, delete_print_step, delete_prints_step, enroll_step,
    stop_enroll_step, valid_name, verify_step,
};
use crate::device_laws::{clear_rel, delete_print_rel, delete_prints_rel, is_run, lemma_first_valid_is_valid};
use crate::error::{AppError, DbusError};
use crate::message::Message;

verus! {

/// A deletion of one print only ever names its own user and finger: every
/// step keeps them, a claim is for the job's user, and a deletion is of the
/// job's finger.
pub proof fn lemma_delete_print_names_its_own(j: DeletePrintJob, r: Reply)
    ensures
        ({
            let (t, c) = delete_print_step(j, r);
            &&& t.finger == j.finger && t.username == j.username
            &&& c matches DeviceCall::Claim(u) ==> u == j.username
            &&& c matches DeviceCall::DeleteEnrolledFinger(f) ==> f == j.finger
        }),
{
}

/// A deletion of every print of a user only ever claims for its own user.
pub proof fn lemma_delete_prints_names_its_own(j: DeletePrintsJob, r: Reply)
    ensures
        ({
            let (t, c) = delete_prints_step(j, r);
            &&& t.username == j.username
            &&& c matches DeviceCall::Claim(u) ==> u == j.username
        }),
{
}

/// A verification only ever names its own user and finger.
pub proof fn lemma_verify_names_its_own(j: VerifyJob, r: Reply)
    ensures
        ({
            let (t, c) = verify_step(j, r);
            &&& t.finger == j.finger && t.username == j.username
            &&& c matches DeviceCall::Claim(u) ==> u == j.username
            &&& c matches DeviceCall::VerifyStart(f) ==> f == j.finger
        }),
{
}

/// An enrollment only ever names its own user and finger.
pub proof fn lemma_enroll_names_its_own(j: EnrollJob, r: Reply, t: EnrollJob, c: DeviceCall)
    requires
        enroll_step(j, r, t, c),
    ensures
        t.finger == j.finger && t.username == j.username,
        c matches DeviceCall::Claim(u) ==> u == j.username,
        c matches DeviceCall::EnrollStart(f) ==> f == j.finger,
{
}

/// A failed deletion is what a deletion of one print reports: once the
/// deletion (the call at `k`) fails, the job releases the device and then
/// finishes with the deletion's error, whatever the release answers.
pub proof fn lemma_delete_print_reports_failed_deletion(
    states: Seq<DeletePrintJob>,
    rs: Seq<Reply>,
    calls: Seq<DeviceCall>,
    k: int,
    e: DbusError,
)
    requires
        is_run(delete_print_rel(), states, rs, calls),
        0 <= k,
        k + 2 < calls.len(),
        calls[k] is DeleteEnrolledFinger,
        rs[k + 1] == Reply::Failed(e),
    ensures
        calls[k + 1] is Release,
        calls[k + 2] == DeviceCall::Finish(Err(e)),
{
    assert(delete_print_rel()(states[k], rs[k], states[k + 1], calls[k]));
    assert(delete_print_rel()(states[k + 1], rs[k + 1], states[k + 2], calls[k + 1]));
    assert(delete_print_rel()(states[k + 2], rs[k + 2], states[k + 3], calls[k + 2]));
}

/// A failed deletion is what a deletion of every print reports: once the
/// deletion (the call at `k`) fails, the job releases the device and then
/// finishes with the deletion's error, whatever the release answers.
pub proof fn lemma_delete_prints_reports_failed_deletion(
    states: Seq<DeletePrintsJob>,
    rs: Seq<Reply>,
    calls: Seq<DeviceCall>,
    k: int,
    e: DbusError,
)
    requires
        is_run(delete_prints_rel(), states, rs, calls),
        0 <= k,
        k + 2 < calls.len(),
        calls[k] is DeleteEnrolledFingers2,
        rs[k + 1] == Reply::Failed(e),
    ensures
        calls[k + 1] is Release,
        calls[k + 2] == DeviceCall::Finish(Err(e)),
{
    assert(delete_prints_rel()(states[k], rs[k], states[k + 1], calls[k]));
    assert(delete_prints_rel()(states[k + 1], rs[k + 1], states[k + 2], calls[k + 1]));
    assert(delete_prints_rel()(states[k + 2], rs[k + 2], states[k + 3], calls[k + 2]));
}

/// An enrollment announces the device's stage count: a positive count is
/// announced as it is, anything else (no count, a count of zero or less, a
/// failure) as unknown; then the job's finger is enrolled.
pub proof fn lemma_enroll_announces_stages(j: EnrollJob, r: Reply, t: EnrollJob, c: DeviceCall, u: EnrollJob, d: DeviceCall)
    requires
        j.phase is CountingStages,
        enroll_step(j, r, t, c),
        enroll_step(t, Reply::Done, u, d),
    ensures
        r matches Reply::Stages(n) ==> (n > 0 ==> c == DeviceCall::Send(Message::EnrollStart(Some(n as u32)))),
        r matches Reply::Stages(n) ==> (n <= 0 ==> c == DeviceCall::Send(Message::EnrollStart(None))),
        !(r is Stages) ==> c == DeviceCall::Send(Message::EnrollStart(None)),
        d == DeviceCall::EnrollStart(j.finger),
{
}

/// An enrollment hands every status on as the daemon gave it, and listens
/// for more until one says the enrollment is done; then it releases the
/// device and succeeds, whatever the release answers. A signal that cannot
/// be read is reported as an error and ends the listening too.
pub proof fn lemma_enroll_passes_statuses_on(
    j: EnrollJob,
    r: Reply,
    t: EnrollJob,
    c: DeviceCall,
    r2: Reply,
    u: EnrollJob,
    d: DeviceCall,
    r3: Reply,
    v: EnrollJob,
    x: DeviceCall,
)
    requires
        j.phase is Listening,
        enroll_step(j, r, t, c),
        enroll_step(t, r2, u, d),
        enroll_step(u, r3, v, x),
    ensures
        r matches Reply::Signal(result, done) ==> c == DeviceCall::Send(Message::EnrollStatus(result, done)),
        r matches Reply::Signal(_, done) && !done ==> d == DeviceCall::NextSignal && u.phase is Listening,
        r matches Reply::Signal(_, done) && done ==> d == DeviceCall::Release && x == DeviceCall::Finish(Ok(())),
        r is BadSignal ==> (c matches DeviceCall::Send(Message::OperationError(AppError::Unknown(m)))
            && m@ == "Failed to parse signal"@) && d == DeviceCall::Release && x == DeviceCall::Finish(Ok(())),
        r is StreamEnded ==> c == DeviceCall::Release && d == DeviceCall::Finish(Ok(())),
{
}

/// A failure to start enrolling or to subscribe to its signals releases the
/// device and ends the enrollment with that failure, whatever the release
/// answers.
pub proof fn lemma_enroll_start_failure_reported(
    j: EnrollJob,
    e: DbusError,
    t: EnrollJob,
    c: DeviceCall,
    r2: Reply,
    u: EnrollJob,
    d: DeviceCall,
)
    requires
        j.phase is Starting || j.phase is Subscribing,
        enroll_step(j, Reply::Failed(e), t, c),
        enroll_step(t, r2, u, d),
    ensures
        c == DeviceCall::Release,
        d == DeviceCall::Finish(Err(e)),
{
}

/// A verification waits for the signal that says it is done (or for one it
/// cannot read, or the end of the signals), then stops verifying, releases
/// the device whatever the stop answered, and finishes with the release's
/// result.
pub proof fn lemma_verify_waits_then_releases(j: VerifyJob, r: Reply, r2: Reply, r3: Reply)
    requires
        j.phase is Listening,
    ensures
        ({
            let (t, c) = verify_step(j, r);
            let (u, d) = verify_step(t, r2);
            let (v, x) = verify_step(u, r3);
            let pending = match r {
                Reply::Signal(_, done) => !done,
                _ => false,
            };
            &&& pending ==> c == DeviceCall::NextSignal && t.phase is Listening
            &&& !pending ==> {
                &&& c == DeviceCall::VerifyStop
                &&& d == DeviceCall::Release
                &&& x == DeviceCall::Finish(match r3 {
                    Reply::Failed(e) => Err(e),
                    _ => Ok(()),
                })
            }
        }),
{
}

/// A failure to subscribe to verification signals or to start verifying
/// releases the device and ends the verification with that failure,
/// whatever the release answers.
pub proof fn lemma_verify_start_failure_reported(j: VerifyJob, e: DbusError, r2: Reply)
    requires
        j.phase is Subscribing || j.phase is Starting,
    ensures
        ({
            let (t, c) = verify_step(j, Reply::Failed(e));
            &&& c == DeviceCall::Release
            &&& verify_step(t, r2).1 == DeviceCall::Finish(Err(e))
        }),
{
}

/// Stopping an enrollment asks the device to stop, releases it whatever the
/// stop answered, and finishes with the release's result.
pub proof fn lemma_stop_enroll_reports_release(r: Reply, r2: Reply)
    ensures
        ({
            let (t, c) = stop_enroll_step(StopEnrollJob { phase: StopEnrollPhase::Opening }, Reply::Done);
            let (u, d) = stop_enroll_step(t, r);
            let (v, x) = stop_enroll_step(u, r2);
            &&& c == DeviceCall::EnrollStop
            &&& d == DeviceCall::Release
            &&& x == DeviceCall::Finish(match r2 {
                Reply::Failed(e) => Err(e),
                _ => Ok(()),
            })
        }),
{
}

/// Clearing deletes every listed print of a user, in order: after the list
/// `v` comes, the job asks to delete `v[0]`; after the deletion of the print
/// at `next_finger`, whatever the reply, it asks to delete the next one, and
/// after the last one it releases the device.
pub proof fn lemma_clear_deletes_each_listed(j: ClearJob, r: Reply, t: ClearJob, c: DeviceCall)
    requires
        clear_step(j, r, t, c),
    ensures
        j.phase is Listing ==> (r matches Reply::Fingers(v) ==> (v@.len() > 0 ==> c == DeviceCall::DeleteEnrolledFinger(
            v@[0]) && t.next_finger == 0 && t.fingers == v)),
        j.phase is Deleting && j.next_finger + 1 < j.fingers@.len() ==> c == DeviceCall::DeleteEnrolledFinger(
            j.fingers@[j.next_finger + 1]) && t.next_finger == j.next_finger + 1 && t.fingers == j.fingers,
        j.phase is Deleting && j.next_finger + 1 >= j.fingers@.len() ==> c == DeviceCall::Release,
{
    assert(j.fingers@.len() == j.fingers.len());
}

/// A clear job that has met no failure and remembers none.
spec fn clear_clean(j: ClearJob) -> bool {
    &&& j.last_error is None
    &&& j.phase matches ClearPhase::Finished(res) ==> res is Ok
}

proof fn lemma_clear_run_stays_clean(states: Seq<ClearJob>, rs: Seq<Reply>, calls: Seq<DeviceCall>, n: int)
    requires
        is_run(clear_rel(), states, rs, calls),
        0 <= n <= rs.len(),
        clear_clean(states[0]),
        forall|u: int| 0 <= u < states[0].usernames@.len() ==> valid_name(#[trigger] states[0].usernames@[u]),
        forall|m: int| 0 <= m < rs.len() ==> !(#[trigger] rs[m] is Failed),
    ensures
        clear_clean(states[n]),
        states[n].usernames == states[0].usernames,
    decreases n,
{
    if n > 0 {
        lemma_clear_run_stays_clean(states, rs, calls, n - 1);
        let j = states[n - 1];
        assert(clear_rel()(j, rs[n - 1], states[n], calls[n - 1]));
        assert(!(rs[n - 1] is Failed));
        if j.phase is Opening {
            assert(j.usernames@.len() == 0 || valid_name(j.usernames@[0]));
        } else if j.phase is Releasing {
            let i = j.current + 1;
            if 0 <= i < j.usernames@.len() {
                assert(valid_name(j.usernames@[i]));
            }
        }
    }
}

/// Clearing succeeds when nothing fails: in a run from where
/// `ClearJob::start` leaves the job, when every user name is accepted and no
/// reply is a failure, every finish of the job is a success.
pub proof fn lemma_clear_without_failure_succeeds(
    states: Seq<ClearJob>,
    rs: Seq<Reply>,
    calls: Seq<DeviceCall>,
    i: int,
)
    requires
        is_run(clear_rel(), states, rs, calls),
        states[0].phase is Opening,
        states[0].last_error is None,
        forall|u: int| 0 <= u < states[0].usernames@.len() ==> valid_name(#[trigger] states[0].usernames@[u]),
        forall|m: int| 0 <= m < rs.len() ==> !(#[trigger] rs[m] is Failed),
        0 <= i < calls.len(),
        calls[i] is Finish,
    ensures
        calls[i] matches DeviceCall::Finish(Ok(_)),
{
    lemma_clear_run_stays_clean(states, rs, calls, i);
    assert(clear_rel()(states[i], rs[i], states[i + 1], calls[i]));
    assert(!(rs[i] is Failed));
    let j = states[i];
    if j.phase is Opening {
        assert(j.usernames@.len() == 0 || valid_name(j.usernames@[0]));
    } else if j.phase is Releasing {
        let n = j.current + 1;
        if 0 <= n < j.usernames@.len() {
            assert(valid_name(j.usernames@[n]));
        }
    }
}


/// Clearing visits every user in order and skips only refused names: when
/// it moves on (after opening the device, after a refused claim, or after
/// releasing the device), the next claim is for the first accepted user name
/// after the current user (from the first user, after opening), every name
/// passed over is refused, and when none is left the job finishes.
pub proof fn lemma_clear_visits_every_user(j: ClearJob, r: Reply, t: ClearJob, c: DeviceCall)
    requires
        clear_wf(j),
        clear_step(j, r, t, c),
        (j.phase is Opening && !(r is Failed)) || (j.phase is Claiming && r is Failed) || j.phase is Releasing,
    ensures
        ({
            let from = if j.phase is Opening { 0 } else { j.current + 1 };
            let users = j.usernames@;
            &&& c is Claim || c is Finish
            &&& c matches DeviceCall::Claim(u) ==> {
                &&& from <= t.current < users.len()
                &&& u == users[t.current as int]
                &&& valid_name(u)
                &&& forall|m: int| from <= m < t.current ==> !valid_name(#[trigger] users[m])
            }
            &&& c is Finish ==> forall|m: int| from <= m < users.len() ==> !valid_name(#[trigger] users[m])
        }),
{
    let from = if j.phase is Opening { 0 } else { j.current + 1 };
    lemma_first_valid_is_valid(j.usernames@, from);
}

} // verus!
