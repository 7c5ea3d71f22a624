use vstd::prelude::*;
use crate::device::{
    ClearJob, DeletePrintJob, DeletePrintsJob, DeviceCall, EnrollJob, Reply, VerifyJob,
    clear_holds_claim, clear_step, clear_wf, delete_print_holds_claim, delete_print_step,
    delete_print_wf, delete_prints_holds_claim, delete_prints_step, delete_prints_wf,
    enroll_holds_claim, enroll_step, enroll_wf, first_valid_from, result_of, valid_name,
    verify_holds_claim, verify_step, verify_wf,
};

verus! {

/// Deleting one print never leaves the device claimed: a successful claim
/// enters the claimed part of the job, from which the job only leaves by
/// releasing the device, so it never finishes while the device is claimed.
/// Every claim is for an accepted user name, and the job keeps that promise.
pub proof fn lemma_delete_print_releases(j: DeletePrintJob, r: Reply)
    requires
        delete_print_wf(j),
    ensures
        ({
            let (t, c) = delete_print_step(j, r);
            &&& j.phase is Claiming && !(r is Failed) ==> delete_print_holds_claim(t)
            &&& delete_print_holds_claim(j) ==> !(c is Finish) && (c is Release || delete_print_holds_claim(t))
            &&& c matches DeviceCall::Claim(u) ==> valid_name(u)
            &&& delete_print_wf(t)
        }),
{
}

/// Deleting every print of a user never leaves the device claimed, and
/// claims only for an accepted user name.
pub proof fn lemma_delete_prints_releases(j: DeletePrintsJob, r: Reply)
    requires
        delete_prints_wf(j),
    ensures
        ({
            let (t, c) = delete_prints_step(j, r);
            &&& j.phase is Claiming && !(r is Failed) ==> delete_prints_holds_claim(t)
            &&& delete_prints_holds_claim(j) ==> !(c is Finish) && (c is Release || delete_prints_holds_claim(t))
            &&& c matches DeviceCall::Claim(u) ==> valid_name(u)
            &&& delete_prints_wf(t)
        }),
{
}

/// Verifying never leaves the device claimed, whatever the replies, and
/// claims only for an accepted user name.
pub proof fn lemma_verify_releases(j: VerifyJob, r: Reply)
    requires
        verify_wf(j),
    ensures
        ({
            let (t, c) = verify_step(j, r);
            &&& j.phase is Claiming && !(r is Failed) ==> verify_holds_claim(t)
            &&& verify_holds_claim(j) ==> !(c is Finish) && (c is Release || verify_holds_claim(t))
            &&& c matches DeviceCall::Claim(u) ==> valid_name(u)
            &&& verify_wf(t)
        }),
{
}

/// Enrolling never leaves the device claimed, whatever the replies, and
/// claims only for an accepted user name.
pub proof fn lemma_enroll_releases(j: EnrollJob, r: Reply, t: EnrollJob, c: DeviceCall)
    requires
        enroll_wf(j),
        enroll_step(j, r, t, c),
    ensures
        j.phase is Claiming && !(r is Failed) ==> enroll_holds_claim(t),
        enroll_holds_claim(j) ==> !(c is Finish) && (c is Release || enroll_holds_claim(t)),
        c matches DeviceCall::Claim(u) ==> valid_name(u),
        enroll_wf(t),
{
}

/// Clearing the device never leaves it claimed: after a successful claim the
/// job lists and deletes, and leaves that part only by releasing the device.
/// It claims only for accepted user names.
pub proof fn lemma_clear_releases(j: ClearJob, r: Reply, t: ClearJob, c: DeviceCall)
    requires
        clear_wf(j),
        clear_step(j, r, t, c),
    ensures
        j.phase is Claiming && !(r is Failed) ==> clear_holds_claim(t),
        clear_holds_claim(j) ==> !(c is Finish) && (c is Release || clear_holds_claim(t)),
        c matches DeviceCall::Claim(u) ==> valid_name(u),
{
    if c is Claim {
        lemma_first_valid_is_valid(j.usernames@, 0);
        lemma_first_valid_is_valid(j.usernames@, j.current + 1);
    }
}

/// The first accepted user name from a position on is accepted, and every
/// user name before it (from that position) is refused.
pub proof fn lemma_first_valid_is_valid(users: Seq<String>, i: int)
    requires
        0 <= i,
    ensures
        i <= first_valid_from(users, i) <= users.len() || (i > users.len() && first_valid_from(users, i) == users.len()),
        first_valid_from(users, i) < users.len() ==> valid_name(users[first_valid_from(users, i)]),
        forall|m: int| i <= m < first_valid_from(users, i) ==> !valid_name(#[trigger] users[m]),
    decreases users.len() - i,
{
    if i < users.len() && !valid_name(users[i]) {
        lemma_first_valid_is_valid(users, i + 1);
    }
}

/// Clearing finishes with the last failure it met, or succeeds when it met
/// none (a device that cannot be opened ends it at once with that failure).
pub proof fn lemma_clear_result_is_last_failure(j: ClearJob, r: Reply, t: ClearJob, c: DeviceCall)
    requires
        clear_wf(j),
        clear_step(j, r, t, c),
        !(j.phase is Finished),
        c is Finish,
    ensures
        (j.phase is Opening && r is Failed) ==> c == DeviceCall::Finish(Err(r->Failed_0)),
        !(j.phase is Opening && r is Failed) ==> c == DeviceCall::Finish(result_of(t.last_error)),
{
}


/// `states`, `rs` and `calls` form a run of a job whose step is `step`: the
/// job goes from `states[i]` to `states[i + 1]`, asking for `calls[i]`, when
/// it is resumed with the reply `rs[i]`.
pub open spec fn is_run<J>(
    step: spec_fn(J, Reply, J, DeviceCall) -> bool,
    states: Seq<J>,
    rs: Seq<Reply>,
    calls: Seq<DeviceCall>,
) -> bool {
    &&& states.len() == rs.len() + 1
    &&& calls.len() == rs.len()
    &&& forall|i: int| #![trigger calls[i]] 0 <= i < rs.len() ==> step(states[i], rs[i], states[i + 1], calls[i])
}

/// What a job's step must keep for its runs to release every claim: an
/// invariant that steps keep; a claim call leads to the claiming state; a
/// successful claim leads to a state holding the claim and does not finish;
/// a state holding the claim never finishes, and keeps holding it until it
/// asks for the release.
pub open spec fn releases_claims<J>(
    step: spec_fn(J, Reply, J, DeviceCall) -> bool,
    inv: spec_fn(J) -> bool,
    claiming: spec_fn(J) -> bool,
    holds: spec_fn(J) -> bool,
) -> bool {
    &&& forall|s: J, r: Reply, t: J, c: DeviceCall| inv(s) && #[trigger] step(s, r, t, c) ==> inv(t)
    &&& forall|s: J, r: Reply, t: J, c: DeviceCall|
        inv(s) && #[trigger] step(s, r, t, c) && c is Claim ==> claiming(t)
    &&& forall|s: J, r: Reply, t: J, c: DeviceCall|
        inv(s) && #[trigger] step(s, r, t, c) && claiming(s) && !(r is Failed) ==> holds(t) && !(c is Finish)
    &&& forall|s: J, r: Reply, t: J, c: DeviceCall|
        inv(s) && #[trigger] step(s, r, t, c) && holds(s) ==> !(c is Finish) && (c is Release || holds(t))
}

proof fn lemma_run_keeps<J>(
    step: spec_fn(J, Reply, J, DeviceCall) -> bool,
    inv: spec_fn(J) -> bool,
    claiming: spec_fn(J) -> bool,
    holds: spec_fn(J) -> bool,
    states: Seq<J>,
    rs: Seq<Reply>,
    calls: Seq<DeviceCall>,
    n: int,
)
    requires
        releases_claims(step, inv, claiming, holds),
        is_run(step, states, rs, calls),
        inv(states[0]),
        0 <= n <= rs.len(),
    ensures
        inv(states[n]),
    decreases n,
{
    if n > 0 {
        lemma_run_keeps(step, inv, claiming, holds, states, rs, calls, n - 1);
        assert(step(states[n - 1], rs[n - 1], states[n], calls[n - 1]));
    }
}

proof fn lemma_run_holds_until_release<J>(
    step: spec_fn(J, Reply, J, DeviceCall) -> bool,
    inv: spec_fn(J) -> bool,
    claiming: spec_fn(J) -> bool,
    holds: spec_fn(J) -> bool,
    states: Seq<J>,
    rs: Seq<Reply>,
    calls: Seq<DeviceCall>,
    from: int,
    n: int,
)
    requires
        releases_claims(step, inv, claiming, holds),
        is_run(step, states, rs, calls),
        inv(states[0]),
        0 <= from <= n <= rs.len(),
        holds(states[from]),
        forall|m: int| from <= m < n ==> !(#[trigger] calls[m] is Release),
    ensures
        holds(states[n]),
    decreases n - from,
{
    if n > from {
        lemma_run_holds_until_release(step, inv, claiming, holds, states, rs, calls, from, n - 1);
        lemma_run_keeps(step, inv, claiming, holds, states, rs, calls, n - 1);
        assert(step(states[n - 1], rs[n - 1], states[n], calls[n - 1]));
        assert(!(calls[n - 1] is Release));
    }
}

/// In every run of such a job, a claim that succeeds is released before the
/// job finishes: if `calls[k]` is a claim whose reply `rs[k + 1]` is no
/// failure, every later finish comes after a release.
pub proof fn lemma_run_releases_claims<J>(
    step: spec_fn(J, Reply, J, DeviceCall) -> bool,
    inv: spec_fn(J) -> bool,
    claiming: spec_fn(J) -> bool,
    holds: spec_fn(J) -> bool,
    states: Seq<J>,
    rs: Seq<Reply>,
    calls: Seq<DeviceCall>,
    k: int,
    i: int,
)
    requires
        releases_claims(step, inv, claiming, holds),
        is_run(step, states, rs, calls),
        inv(states[0]),
        0 <= k,
        k + 1 < rs.len(),
        k < i < calls.len(),
        calls[k] is Claim,
        !(rs[k + 1] is Failed),
        calls[i] is Finish,
    ensures
        exists|m: int| k < m < i && #[trigger] calls[m] is Release,
{
    lemma_run_keeps(step, inv, claiming, holds, states, rs, calls, k);
    lemma_run_keeps(step, inv, claiming, holds, states, rs, calls, k + 1);
    assert(step(states[k], rs[k], states[k + 1], calls[k]));
    assert(claiming(states[k + 1]));
    assert(step(states[k + 1], rs[k + 1], states[k + 2], calls[k + 1]));
    assert(holds(states[k + 2]));
    if !exists|m: int| k < m < i && #[trigger] calls[m] is Release {
        assert(i != k + 1);
        lemma_run_holds_until_release(step, inv, claiming, holds, states, rs, calls, k + 2, i);
        lemma_run_keeps(step, inv, claiming, holds, states, rs, calls, i);
        assert(step(states[i], rs[i], states[i + 1], calls[i]));
    }
}

/// The step relation of a deletion of one print.
pub open spec fn delete_print_rel() -> spec_fn(DeletePrintJob, Reply, DeletePrintJob, DeviceCall) -> bool {
    |s: DeletePrintJob, r: Reply, t: DeletePrintJob, c: DeviceCall| (t, c) == delete_print_step(s, r)
}

/// The step relation of a deletion of every print of a user.
pub open spec fn delete_prints_rel() -> spec_fn(DeletePrintsJob, Reply, DeletePrintsJob, DeviceCall) -> bool {
    |s: DeletePrintsJob, r: Reply, t: DeletePrintsJob, c: DeviceCall| (t, c) == delete_prints_step(s, r)
}

/// The step relation of a verification.
pub open spec fn verify_rel() -> spec_fn(VerifyJob, Reply, VerifyJob, DeviceCall) -> bool {
    |s: VerifyJob, r: Reply, t: VerifyJob, c: DeviceCall| (t, c) == verify_step(s, r)
}

/// The step relation of an enrollment.
pub open spec fn enroll_rel() -> spec_fn(EnrollJob, Reply, EnrollJob, DeviceCall) -> bool {
    |s: EnrollJob, r: Reply, t: EnrollJob, c: DeviceCall| enroll_step(s, r, t, c)
}

/// The step relation of clearing the device.
pub open spec fn clear_rel() -> spec_fn(ClearJob, Reply, ClearJob, DeviceCall) -> bool {
    |s: ClearJob, r: Reply, t: ClearJob, c: DeviceCall| clear_step(s, r, t, c)
}

/// Every run of a deletion of one print, from a state with an accepted user
/// name (as `DeletePrintJob::start` gives), releases a successful claim
/// before it finishes.
pub proof fn lemma_delete_print_runs_release(
    states: Seq<DeletePrintJob>,
    rs: Seq<Reply>,
    calls: Seq<DeviceCall>,
    k: int,
    i: int,
)
    requires
        is_run(delete_print_rel(), states, rs, calls),
        delete_print_wf(states[0]),
        0 <= k,
        k + 1 < rs.len(),
        k < i < calls.len(),
        calls[k] is Claim,
        !(rs[k + 1] is Failed),
        calls[i] is Finish,
    ensures
        exists|m: int| k < m < i && #[trigger] calls[m] is Release,
{
    let step = delete_print_rel();
    let inv = |s: DeletePrintJob| delete_print_wf(s);
    let claiming = |s: DeletePrintJob| s.phase is Claiming;
    let holds = |s: DeletePrintJob| delete_print_holds_claim(s);
    assert forall|s: DeletePrintJob, r: Reply, t: DeletePrintJob, c: DeviceCall|
        inv(s) && #[trigger] step(s, r, t, c) implies inv(t) && (c is Claim ==> claiming(t)) && (
        claiming(s) && !(r is Failed) ==> holds(t) && !(c is Finish)) && (holds(s) ==> !(
        c is Finish) && (c is Release || holds(t))) by {
        lemma_delete_print_releases(s, r);
    }
    lemma_run_releases_claims(step, inv, claiming, holds, states, rs, calls, k, i);
}

/// Every run of a deletion of every print of a user, from a state with an
/// accepted user name, releases a successful claim before it finishes.
pub proof fn lemma_delete_prints_runs_release(
    states: Seq<DeletePrintsJob>,
    rs: Seq<Reply>,
    calls: Seq<DeviceCall>,
    k: int,
    i: int,
)
    requires
        is_run(delete_prints_rel(), states, rs, calls),
        delete_prints_wf(states[0]),
        0 <= k,
        k + 1 < rs.len(),
        k < i < calls.len(),
        calls[k] is Claim,
        !(rs[k + 1] is Failed),
        calls[i] is Finish,
    ensures
        exists|m: int| k < m < i && #[trigger] calls[m] is Release,
{
    let step = delete_prints_rel();
    let inv = |s: DeletePrintsJob| delete_prints_wf(s);
    let claiming = |s: DeletePrintsJob| s.phase is Claiming;
    let holds = |s: DeletePrintsJob| delete_prints_holds_claim(s);
    assert forall|s: DeletePrintsJob, r: Reply, t: DeletePrintsJob, c: DeviceCall|
        inv(s) && #[trigger] step(s, r, t, c) implies inv(t) && (c is Claim ==> claiming(t)) && (
        claiming(s) && !(r is Failed) ==> holds(t) && !(c is Finish)) && (holds(s) ==> !(
        c is Finish) && (c is Release || holds(t))) by {
        lemma_delete_prints_releases(s, r);
    }
    lemma_run_releases_claims(step, inv, claiming, holds, states, rs, calls, k, i);
}

/// Every run of a verification, from a state with an accepted user name,
/// releases a successful claim before it finishes.
pub proof fn lemma_verify_runs_release(
    states: Seq<VerifyJob>,
    rs: Seq<Reply>,
    calls: Seq<DeviceCall>,
    k: int,
    i: int,
)
    requires
        is_run(verify_rel(), states, rs, calls),
        verify_wf(states[0]),
        0 <= k,
        k + 1 < rs.len(),
        k < i < calls.len(),
        calls[k] is Claim,
        !(rs[k + 1] is Failed),
        calls[i] is Finish,
    ensures
        exists|m: int| k < m < i && #[trigger] calls[m] is Release,
{
    let step = verify_rel();
    let inv = |s: VerifyJob| verify_wf(s);
    let claiming = |s: VerifyJob| s.phase is Claiming;
    let holds = |s: VerifyJob| verify_holds_claim(s);
    assert forall|s: VerifyJob, r: Reply, t: VerifyJob, c: DeviceCall|
        inv(s) && #[trigger] step(s, r, t, c) implies inv(t) && (c is Claim ==> claiming(t)) && (
        claiming(s) && !(r is Failed) ==> holds(t) && !(c is Finish)) && (holds(s) ==> !(
        c is Finish) && (c is Release || holds(t))) by {
        lemma_verify_releases(s, r);
    }
    lemma_run_releases_claims(step, inv, claiming, holds, states, rs, calls, k, i);
}

/// Every run of an enrollment, from a state with an accepted user name,
/// releases a successful claim before it finishes.
pub proof fn lemma_enroll_runs_release(
    states: Seq<EnrollJob>,
    rs: Seq<Reply>,
    calls: Seq<DeviceCall>,
    k: int,
    i: int,
)
    requires
        is_run(enroll_rel(), states, rs, calls),
        enroll_wf(states[0]),
        0 <= k,
        k + 1 < rs.len(),
        k < i < calls.len(),
        calls[k] is Claim,
        !(rs[k + 1] is Failed),
        calls[i] is Finish,
    ensures
        exists|m: int| k < m < i && #[trigger] calls[m] is Release,
{
    let step = enroll_rel();
    let inv = |s: EnrollJob| enroll_wf(s);
    let claiming = |s: EnrollJob| s.phase is Claiming;
    let holds = |s: EnrollJob| enroll_holds_claim(s);
    assert forall|s: EnrollJob, r: Reply, t: EnrollJob, c: DeviceCall|
        inv(s) && #[trigger] step(s, r, t, c) implies inv(t) && (c is Claim ==> claiming(t)) && (
        claiming(s) && !(r is Failed) ==> holds(t) && !(c is Finish)) && (holds(s) ==> !(
        c is Finish) && (c is Release || holds(t))) by {
        lemma_enroll_releases(s, r, t, c);
    }
    lemma_run_releases_claims(step, inv, claiming, holds, states, rs, calls, k, i);
}

/// Every run of clearing the device, from a consistent state (as
/// `ClearJob::start` gives), releases each successful claim before the job
/// finishes.
pub proof fn lemma_clear_runs_release(
    states: Seq<ClearJob>,
    rs: Seq<Reply>,
    calls: Seq<DeviceCall>,
    k: int,
    i: int,
)
    requires
        is_run(clear_rel(), states, rs, calls),
        clear_wf(states[0]),
        0 <= k,
        k + 1 < rs.len(),
        k < i < calls.len(),
        calls[k] is Claim,
        !(rs[k + 1] is Failed),
        calls[i] is Finish,
    ensures
        exists|m: int| k < m < i && #[trigger] calls[m] is Release,
{
    let step = clear_rel();
    let inv = |s: ClearJob| clear_wf(s);
    let claiming = |s: ClearJob| s.phase is Claiming;
    let holds = |s: ClearJob| clear_holds_claim(s);
    assert forall|s: ClearJob, r: Reply, t: ClearJob, c: DeviceCall|
        inv(s) && #[trigger] step(s, r, t, c) implies inv(t) && (c is Claim ==> claiming(t)) && (
        claiming(s) && !(r is Failed) ==> holds(t) && !(c is Finish)) && (holds(s) ==> !(
        c is Finish) && (c is Release || holds(t))) by {
        lemma_clear_releases(s, r, t, c);
    }
    lemma_run_releases_claims(step, inv, claiming, holds, states, rs, calls, k, i);
}

} // verus!
