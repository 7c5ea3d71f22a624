use vstd::prelude::*;
use crate::device::{
    ClearJob, ClearPhase, DeletePrintJob, DeletePrintPhase, DeletePrintsJob, DeletePrintsPhase,
    DeviceCall, EnrollJob, Reply, VerifyJob, clear_step, delete_print_step, delete_prints_step,
    enroll_step, verify_step,
};
use crate::device_laws::{clear_rel, delete_print_rel, delete_prints_rel, is_run};
use crate::error::DbusError;

verus! {

/// A refused claim ends a deletion of one print with the daemon's error,
/// before anything is deleted.
pub proof fn lemma_delete_print_claim_refused(j: DeletePrintJob, e: DbusError)
    requires
        j.phase is Claiming,
    ensures
        delete_print_step(j, Reply::Failed(e)).1 == DeviceCall::Finish(Err(e)),
{
}

/// A refused claim ends a deletion of every print of a user with the
/// daemon's error, before anything is deleted.
pub proof fn lemma_delete_prints_claim_refused(j: DeletePrintsJob, e: DbusError)
    requires
        j.phase is Claiming,
    ensures
        delete_prints_step(j, Reply::Failed(e)).1 == DeviceCall::Finish(Err(e)),
{
}

/// A refused claim ends a verification with the daemon's error, before
/// anything is verified.
pub proof fn lemma_verify_claim_refused(j: VerifyJob, e: DbusError)
    requires
        j.phase is Claiming,
    ensures
        verify_step(j, Reply::Failed(e)).1 == DeviceCall::Finish(Err(e)),
{
}

/// A refused claim ends an enrollment with the daemon's error, before
/// anything is enrolled.
pub proof fn lemma_enroll_claim_refused(j: EnrollJob, e: DbusError, t: EnrollJob, c: DeviceCall)
    requires
        j.phase is Claiming,
        enroll_step(j, Reply::Failed(e), t, c),
    ensures
        c == DeviceCall::Finish(Err(e)),
{
}

/// In a run, the call at `k` (a deletion of `finger`'s print) and the call at
/// `m` (a release) were both answered without failure, the release after the
/// deletion.
pub open spec fn deleted_then_released(
    rs: Seq<Reply>,
    calls: Seq<DeviceCall>,
    finger: String,
    k: int,
    m: int,
) -> bool {
    &&& 0 <= k < m
    &&& m + 1 < rs.len()
    &&& calls[k] == DeviceCall::DeleteEnrolledFinger(finger)
    &&& !(rs[k + 1] is Failed)
    &&& calls[m] is Release
    &&& !(rs[m + 1] is Failed)
}

/// What a run of a deletion of one print has shown by the time it reaches
/// the state at `n`.
spec fn delete_print_history(states: Seq<DeletePrintJob>, rs: Seq<Reply>, calls: Seq<DeviceCall>, n: int) -> bool {
    let f = states[0].finger;
    &&& states[n].finger == f
    &&& states[n].phase is Deleting ==> n >= 1 && calls[n - 1] == DeviceCall::DeleteEnrolledFinger(f)
    &&& states[n].phase == DeletePrintPhase::Releasing(Ok(())) ==> {
        &&& n >= 2
        &&& calls[n - 2] == DeviceCall::DeleteEnrolledFinger(f)
        &&& !(rs[n - 1] is Failed)
        &&& calls[n - 1] is Release
    }
    &&& states[n].phase == DeletePrintPhase::Finished(Ok(())) ==> exists|k: int, m: int|
        m < n - 1 && #[trigger] deleted_then_released(rs, calls, f, k, m)
}

proof fn lemma_delete_print_history(states: Seq<DeletePrintJob>, rs: Seq<Reply>, calls: Seq<DeviceCall>, n: int)
    requires
        is_run(delete_print_rel(), states, rs, calls),
        states[0].phase is Opening || states[0].phase matches DeletePrintPhase::Finished(Err(_)),
        0 <= n <= rs.len(),
    ensures
        delete_print_history(states, rs, calls, n),
    decreases n,
{
    if n > 0 {
        lemma_delete_print_history(states, rs, calls, n - 1);
        assert(delete_print_rel()(states[n - 1], rs[n - 1], states[n], calls[n - 1]));
        if states[n].phase == DeletePrintPhase::Finished(Ok(())) && states[n - 1].phase is Releasing {
            assert(deleted_then_released(rs, calls, states[0].finger, n - 3, n - 2));
        }
    }
}

/// A deletion of one print succeeds only when the print was deleted and the
/// device released: in a run from where `DeletePrintJob::start` leaves the
/// job, a finish with success comes after a deletion of the job's finger
/// and then a release, both answered without failure. In particular a
/// refused claim never ends in success.
pub proof fn lemma_delete_print_success_needs_deletion(
    states: Seq<DeletePrintJob>,
    rs: Seq<Reply>,
    calls: Seq<DeviceCall>,
    i: int,
)
    requires
        is_run(delete_print_rel(), states, rs, calls),
        states[0].phase is Opening || states[0].phase matches DeletePrintPhase::Finished(Err(_)),
        0 <= i < calls.len(),
        calls[i] == DeviceCall::Finish(Ok(())),
    ensures
        exists|k: int, m: int| m < i && #[trigger] deleted_then_released(rs, calls, states[0].finger, k, m),
{
    lemma_delete_print_history(states, rs, calls, i);
    assert(delete_print_rel()(states[i], rs[i], states[i + 1], calls[i]));
    if states[i].phase is Releasing {
        assert(deleted_then_released(rs, calls, states[0].finger, i - 2, i - 1));
    }
}


/// In a run, the call at `k` (a deletion of every print of the claimed user)
/// and the call at `m` (a release) were both answered without failure, the
/// release after the deletion.
pub open spec fn all_deleted_then_released(rs: Seq<Reply>, calls: Seq<DeviceCall>, k: int, m: int) -> bool {
    &&& 0 <= k < m
    &&& m + 1 < rs.len()
    &&& calls[k] is DeleteEnrolledFingers2
    &&& !(rs[k + 1] is Failed)
    &&& calls[m] is Release
    &&& !(rs[m + 1] is Failed)
}

/// What a run of a deletion of every print has shown by the time it reaches
/// the state at `n`.
spec fn delete_prints_history(states: Seq<DeletePrintsJob>, rs: Seq<Reply>, calls: Seq<DeviceCall>, n: int) -> bool {
    &&& states[n].phase is Deleting ==> n >= 1 && calls[n - 1] is DeleteEnrolledFingers2
    &&& states[n].phase == DeletePrintsPhase::Releasing(Ok(())) ==> {
        &&& n >= 2
        &&& calls[n - 2] is DeleteEnrolledFingers2
        &&& !(rs[n - 1] is Failed)
        &&& calls[n - 1] is Release
    }
    &&& states[n].phase == DeletePrintsPhase::Finished(Ok(())) ==> exists|k: int, m: int|
        m < n - 1 && #[trigger] all_deleted_then_released(rs, calls, k, m)
}

proof fn lemma_delete_prints_history(states: Seq<DeletePrintsJob>, rs: Seq<Reply>, calls: Seq<DeviceCall>, n: int)
    requires
        is_run(delete_prints_rel(), states, rs, calls),
        states[0].phase is Opening || states[0].phase matches DeletePrintsPhase::Finished(Err(_)),
        0 <= n <= rs.len(),
    ensures
        delete_prints_history(states, rs, calls, n),
    decreases n,
{
    if n > 0 {
        lemma_delete_prints_history(states, rs, calls, n - 1);
        assert(delete_prints_rel()(states[n - 1], rs[n - 1], states[n], calls[n - 1]));
        if states[n].phase == DeletePrintsPhase::Finished(Ok(())) && states[n - 1].phase is Releasing {
            assert(all_deleted_then_released(rs, calls, n - 3, n - 2));
        }
    }
}

/// A deletion of every print of a user succeeds only when the prints were
/// deleted and the device released: in a run from where
/// `DeletePrintsJob::start` leaves the job, a finish with success comes
/// after a deletion and then a release, both answered without failure.
pub proof fn lemma_delete_prints_success_needs_deletion(
    states: Seq<DeletePrintsJob>,
    rs: Seq<Reply>,
    calls: Seq<DeviceCall>,
    i: int,
)
    requires
        is_run(delete_prints_rel(), states, rs, calls),
        states[0].phase is Opening || states[0].phase matches DeletePrintsPhase::Finished(Err(_)),
        0 <= i < calls.len(),
        calls[i] == DeviceCall::Finish(Ok(())),
    ensures
        exists|k: int, m: int| m < i && #[trigger] all_deleted_then_released(rs, calls, k, m),
{
    lemma_delete_prints_history(states, rs, calls, i);
    assert(delete_prints_rel()(states[i], rs[i], states[i + 1], calls[i]));
    if states[i].phase is Releasing {
        assert(all_deleted_then_released(rs, calls, i - 2, i - 1));
    }
}

/// A clear job that has met a failure: until it finishes it remembers one,
/// and it finishes with an error.
pub open spec fn clear_failed(j: ClearJob) -> bool {
    &&& !(j.phase is Finished) ==> j.last_error is Some
    &&& j.phase matches ClearPhase::Finished(res) ==> res is Err
}

/// A clear job never forgets a failure: a step from a job that met one
/// leads to a job that met one, and a finish it asks for is an error.
pub proof fn lemma_clear_failure_kept(j: ClearJob, r: Reply, t: ClearJob, c: DeviceCall)
    requires
        clear_failed(j),
        clear_step(j, r, t, c),
    ensures
        clear_failed(t),
        c matches DeviceCall::Finish(res) ==> res is Err,
{
}

/// A failed deletion is remembered: a clear job only asks to delete a
/// print from its deleting phase, and a failed reply there leaves a job that
/// met a failure and has not finished.
pub proof fn lemma_clear_deletion_failure_noted(j: ClearJob, r: Reply, t: ClearJob, c: DeviceCall)
    requires
        clear_step(j, r, t, c),
    ensures
        c is DeleteEnrolledFinger ==> t.phase is Deleting,
        j.phase is Deleting && r is Failed ==> clear_failed(t) && !(c is Finish),
{
}

/// Every failure is remembered: a failed reply to a clear job that has not
/// finished leaves a job that met a failure, and a finish it asks for then
/// is an error.
pub proof fn lemma_clear_failure_noted(j: ClearJob, r: Reply, t: ClearJob, c: DeviceCall)
    requires
        clear_step(j, r, t, c),
        !(j.phase is Finished),
        r is Failed,
    ensures
        clear_failed(t),
        c matches DeviceCall::Finish(res) ==> res is Err,
{
}

proof fn lemma_clear_run_stays_failed(states: Seq<ClearJob>, rs: Seq<Reply>, calls: Seq<DeviceCall>, from: int, n: int)
    requires
        is_run(clear_rel(), states, rs, calls),
        0 <= from <= n <= rs.len(),
        clear_failed(states[from]),
    ensures
        clear_failed(states[n]),
    decreases n - from,
{
    if n > from {
        lemma_clear_run_stays_failed(states, rs, calls, from, n - 1);
        assert(clear_rel()(states[n - 1], rs[n - 1], states[n], calls[n - 1]));
        lemma_clear_failure_kept(states[n - 1], rs[n - 1], states[n], calls[n - 1]);
    }
}

/// Clearing never reports success after a failed deletion: in every run of
/// a clear job, once a deletion of a print (the call at `k`) is answered
/// with a failure, every later finish of the job is an error.
pub proof fn lemma_clear_failed_deletion_is_reported(
    states: Seq<ClearJob>,
    rs: Seq<Reply>,
    calls: Seq<DeviceCall>,
    k: int,
    i: int,
)
    requires
        is_run(clear_rel(), states, rs, calls),
        0 <= k,
        k + 1 < rs.len(),
        k < i < calls.len(),
        calls[k] is DeleteEnrolledFinger,
        rs[k + 1] is Failed,
        calls[i] is Finish,
    ensures
        calls[i] matches DeviceCall::Finish(Err(_)),
{
    assert(clear_rel()(states[k], rs[k], states[k + 1], calls[k]));
    lemma_clear_deletion_failure_noted(states[k], rs[k], states[k + 1], calls[k]);
    assert(clear_rel()(states[k + 1], rs[k + 1], states[k + 2], calls[k + 1]));
    lemma_clear_deletion_failure_noted(states[k + 1], rs[k + 1], states[k + 2], calls[k + 1]);
    lemma_clear_run_stays_failed(states, rs, calls, k + 2, i);
    assert(clear_rel()(states[i], rs[i], states[i + 1], calls[i]));
    lemma_clear_failure_kept(states[i], rs[i], states[i + 1], calls[i]);
}


/// Clearing never reports success after a failure: in every run of a clear
/// job, once a reply to the unfinished job (at `k`) is a failure (opening
/// the device, a claim, a listing, a deletion or a release), every later
/// finish of the job is an error.
pub proof fn lemma_clear_failure_is_reported(
    states: Seq<ClearJob>,
    rs: Seq<Reply>,
    calls: Seq<DeviceCall>,
    k: int,
    i: int,
)
    requires
        is_run(clear_rel(), states, rs, calls),
        0 <= k <= i < calls.len(),
        rs[k] is Failed,
        !(states[k].phase is Finished),
        calls[i] is Finish,
    ensures
        calls[i] matches DeviceCall::Finish(Err(_)),
{
    assert(clear_rel()(states[k], rs[k], states[k + 1], calls[k]));
    lemma_clear_failure_noted(states[k], rs[k], states[k + 1], calls[k]);
    if i > k {
        lemma_clear_run_stays_failed(states, rs, calls, k + 1, i);
        assert(clear_rel()(states[i], rs[i], states[i + 1], calls[i]));
        lemma_clear_failure_kept(states[i], rs[i], states[i + 1], calls[i]);
    }
}

} // verus!
