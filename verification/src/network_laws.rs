//! What tunnel sessions, meetings with clients and batches of packets come to, told of their
//! operations from the outside.

use vstd::prelude::*;
use crate::linux_uring::{UringBatch, UringError, UringRound};
use crate::tunnel::{
    detect_tunnel_preamble, DialOutcome, DialStep, PunchInputs, PunchStep, PunchTask, RelayInputs,
    RelayStep, RelayTask, TunnelDetect, TunnelSessionSlots,
};

verus! {

/// Sixty-four tunnel sessions run at most; one that ends makes room for another.
pub proof fn sessions_take_turns(
    s: &mut TunnelSessionSlots,
    r: &mut TunnelSessionSlots,
    again: &mut TunnelSessionSlots,
    ok: bool,
    more: bool,
)
    requires
        old(s).wf(),
        call_ensures(TunnelSessionSlots::acquire, (s,), ok),
        old(r).active > 0,
        call_ensures(TunnelSessionSlots::release, (r,), ()),
        *old(again) == *final(r),
        call_ensures(TunnelSessionSlots::acquire, (again,), more),
        old(r).wf(),
    ensures
        ok <==> old(s).active < 64,
        ok ==> final(s).active == old(s).active + 1,
        !ok ==> final(s).active == old(s).active,
        final(s).active <= 64,
        more,
        final(again).active == old(r).active,
{
}

/// A client wants a tunnel exactly if its first bytes are the preamble; it is waited for exactly
/// while they are the start of it.
pub proof fn preambles_make_tunnels(bytes: &[u8], preamble: &[u8], out: TunnelDetect)
    requires
        call_ensures(detect_tunnel_preamble, (Some(bytes), preamble), out),
        preamble@.len() > 0,
    ensures
        out == TunnelDetect::Tunnel <==> bytes@.len() >= preamble@.len() && bytes@.subrange(
            0,
            preamble@.len() as int,
        ) == preamble@,
        out == TunnelDetect::Wait <==> 0 < bytes@.len() < preamble@.len() && preamble@.subrange(
            0,
            bytes@.len() as int,
        ) == bytes@,
{
    let b = bytes@;
    let p = preamble@;
    if b.len() >= p.len() {
        let head = b.subrange(0, p.len() as int);
        if crate::tunnel::agree(b, p) {
            assert forall|i: int| 0 <= i < p.len() implies head[i] == p[i] by {
                assert(b[i] == p[i]);
            }
            assert(head =~= p);
        } else if head == p {
            assert forall|i: int| 0 <= i < b.len() && i < p.len() implies #[trigger] b[i]
                == p[i] by {
                assert(head[i] == p[i]);
            }
        }
    } else {
        let head = p.subrange(0, b.len() as int);
        if crate::tunnel::agree(b, p) {
            assert forall|i: int| 0 <= i < b.len() implies head[i] == b[i] by {
                assert(b[i] == p[i]);
            }
            assert(head =~= b);
        } else if head == b {
            assert forall|i: int| 0 <= i < b.len() && i < p.len() implies #[trigger] b[i]
                == p[i] by {
                assert(head[i] == b[i]);
            }
        }
    }
}

/// A connection whose first bytes do not come is a normal one.
pub proof fn silent_connections_are_normal(preamble: &[u8], out: TunnelDetect)
    requires
        call_ensures(detect_tunnel_preamble, (None::<&[u8]>, preamble), out),
    ensures
        out == TunnelDetect::Normal,
{
}

/// A client is met half-way exactly where one asks for it anew, no session of that kind runs and
/// everything is there; a shutdown, and nothing else, ends the task.
pub proof fn new_requests_are_met(t: &mut PunchTask, inputs: PunchInputs, step: PunchStep)
    requires
        call_ensures(PunchTask::next, (t, inputs), step),
    ensures
        step is Stop <==> inputs.shutdown,
        step is Prepare <==> !inputs.shutdown && inputs.ready && !inputs.session_active && (
        inputs.pending matches Some(request) && old(t).last_handled != Some(request)),
        step is Stop || step is Prepare || step == PunchStep::Sleep(200_000_000),
        final(t).last_handled == old(t).last_handled,
        step is Prepare ==> final(t).attempted == inputs.pending && (if old(t).attempted
            == inputs.pending {
            final(t).attempts == old(t).attempts
        } else {
            final(t).attempts == 0
        }),
        !inputs.shutdown && inputs.pending is None ==> final(t).attempts == 0 && final(t).attempted is None,
{
}

/// A request that was met or that failed for the third time is not tried again; after a failure
/// before that it is, half a second later.
pub proof fn requests_are_let_go(
    t: &mut PunchTask,
    request: u64,
    ok: bool,
    step: PunchStep,
    n: &mut PunchTask,
    inputs: PunchInputs,
    next: PunchStep,
)
    requires
        old(t).wf(),
        old(t).attempted == Some(request),
        old(t).last_handled != Some(request),
        call_ensures(PunchTask::punched, (t, request, ok), step),
        *old(n) == *final(t),
        call_ensures(PunchTask::next, (n, inputs), next),
        inputs.pending == Some(request),
    ensures
        ok ==> step is StartSession && !(next is Prepare),
        !ok ==> step == PunchStep::Sleep(500_000_000),
        !ok && old(t).attempts == 2 ==> !(next is Prepare),
        !ok && old(t).attempts < 2 ==> final(n).attempts == old(t).attempts + 1 && (next is Prepare
            <==> !inputs.shutdown && inputs.ready && !inputs.session_active),
{
}

/// A try needs a socket, an address and keys.
pub proof fn tries_need_everything(
    t: PunchTask,
    socket: bool,
    candidates: Option<usize>,
    keys: bool,
    step: PunchStep,
)
    requires
        call_ensures(PunchTask::prepared, (&t, socket, candidates, keys), step),
    ensures
        step is Punch <==> socket && keys && (candidates matches Some(n) && n >= 1),
        !(step is Punch) ==> step == PunchStep::Sleep(
            if socket {
                200_000_000
            } else {
                500_000_000
            },
        ),
{
}

/// A client is met at the relay exactly where one asks for it, it was not handled, no session runs
/// and its pause is over.
pub proof fn relay_requests_are_dialled(t: &mut RelayTask, inputs: RelayInputs, step: RelayStep)
    requires
        call_ensures(RelayTask::next, (t, inputs), step),
    ensures
        step is Stop <==> inputs.shutdown,
        step is Dial <==> !inputs.shutdown && !inputs.session_active && (
        inputs.pending matches Some(request) && old(t).last_handled != Some(request) && (
        old(t).retrying == Some(request) ==> old(t).retry_at <= inputs.now)),
        step is Dial ==> final(t).retrying == inputs.pending,
        step is Dial && old(t).retrying != inputs.pending ==> final(t).failures == 0,
        step is Dial && old(t).retrying == inputs.pending ==> final(t).failures == old(t).failures,
        final(t).last_handled == old(t).last_handled,
        step matches RelayStep::Sleep(pause) ==> pause == 200_000_000 || pause == 100_000_000,
{
}

/// A pair is a session, a ticket refused for good ends the request, and neither is dialled again;
/// everything else is tried later, after a pause that doubles from a quarter of a second to four.
pub proof fn dials_are_followed_up(
    t: &mut RelayTask,
    request: u64,
    outcome: DialOutcome,
    now: u64,
    step: DialStep,
    n: &mut RelayTask,
    inputs: RelayInputs,
    next: RelayStep,
)
    requires
        call_ensures(RelayTask::dialed, (t, request, outcome, now), step),
        *old(n) == *final(t),
        call_ensures(RelayTask::next, (n, inputs), next),
        inputs.pending == Some(request),
        !inputs.shutdown && !inputs.session_active,
        old(t).retrying == Some(request),
        old(t).last_handled != Some(request),
        now <= 0xffff_ffff_ffff,
    ensures
        step is StartSession <==> outcome is Paired,
        step is Abandon <==> outcome is TicketRefused,
        step is StartSession || step is Abandon ==> !(next is Dial),
        step is Retry ==> ({
            let pause = match old(t).failures {
                0u32 => 250int,
                1u32 => 500,
                2u32 => 1000,
                3u32 => 2000,
                _ => 4000,
            };
            next is Dial <==> now + pause * 1_000_000 <= inputs.now
        }),
        step matches DialStep::Retry { message, pause } ==> {
            &&& pause is Some <==> outcome is NoKeys
            &&& outcome matches DialOutcome::TicketFailed(e) ==> message@.subrange(
                0,
                e@.len() as int,
            ) == e@
            &&& outcome matches DialOutcome::ConnectFailed(e) ==> message@.subrange(
                0,
                e@.len() as int,
            ) == e@
        },
        step matches DialStep::Abandon(message) ==> (outcome matches DialOutcome::TicketRefused(e)
            ==> message@.subrange(0, e@.len() as int) == e@),
        step is Retry && old(t).failures < u32::MAX ==> final(t).failures == old(t).failures + 1,
{
    if let DialStep::Retry { message, pause } = step {
        if let DialOutcome::TicketFailed(e) = outcome {
            assert(message@.subrange(0, e@.len() as int) =~= e@);
        }
        if let DialOutcome::ConnectFailed(e) = outcome {
            assert(message@.subrange(0, e@.len() as int) =~= e@);
        }
    }
    if let DialStep::Abandon(message) = step {
        if let DialOutcome::TicketRefused(e) = outcome {
            assert(message@.subrange(0, e@.len() as int) =~= e@);
        }
    }
}

/// The next packets of a batch are those behind the ones submitted, at most sixty-four, until
/// there are none or the ring takes no more.
pub proof fn batches_go_in_chunks(b: UringBatch, out: Option<(usize, usize)>)
    requires
        b.wf(),
        call_ensures(UringBatch::next_chunk, (&b,), out),
    ensures
        out is None <==> b.stopped || b.submitted == b.total,
        out matches Some((from, to)) ==> {
            &&& from == b.submitted
            &&& from < to <= b.total
            &&& to - from <= 64
            &&& to < b.total ==> to - from == 64
        },
{
}

/// What the ring has taken in counts whatever became of it; the first thing that went wrong stays
/// what is reported.
pub proof fn rounds_count_once(
    b: &mut UringBatch,
    round: UringRound,
    end: Result<(), UringError>,
)
    requires
        old(b).wf(),
        call_ensures(UringBatch::advance, (b, round), ()),
        call_ensures(UringBatch::finish, (*final(b),), end),
        round.pushed <= old(b).total - old(b).submitted,
    ensures
        final(b).total == old(b).total,
        round.pushed > 0 && round.submit is Ok ==> final(b).submitted == old(b).submitted
            + round.pushed && final(b).stopped == old(b).stopped,
        round.pushed == 0 || round.submit is Err ==> final(b).submitted == old(b).submitted
            && final(b).stopped,
        old(b).error matches Some(e) ==> end == Err::<(), UringError>(e),
        old(b).error is None && round.pushed == 0 ==> end == Err::<(), UringError>(
            UringError::QueueFull,
        ),
        old(b).error is None && round.pushed > 0 ==> (round.submit matches Err(why) ==> end == Err::<
            (),
            UringError,
        >(UringError::Submit(why))),
        old(b).error is None && round.pushed > 0 && round.submit is Ok ==> {
            &&& end is Ok <==> round.results@.len() >= round.pushed && forall|i: int|
                0 <= i < round.results@.len() ==> #[trigger] round.results@[i] >= 0
            &&& forall|k: int|
                0 <= k < round.results@.len() && #[trigger] round.results@[k] < 0 && round.results@[k]
                    > i32::MIN && (forall|i: int| 0 <= i < k ==> #[trigger] round.results@[i] >= 0)
                    ==> end == Err::<(), UringError>(UringError::Os((-round.results@[k]) as i32))
            &&& round.results@.len() < round.pushed && (forall|i: int|
                0 <= i < round.results@.len() ==> #[trigger] round.results@[i] >= 0) ==> end == Err::<
                (),
                UringError,
            >(UringError::Short { got: round.results@.len() as usize, expected: round.pushed })
        },
{
    let r = round.results@;
    lemma_first_failure(r, 0);
    assert forall|k: int|
        0 <= k < r.len() && #[trigger] r[k] < 0 && r[k] > i32::MIN && (forall|i: int|
            0 <= i < k ==> #[trigger] r[i] >= 0) implies crate::linux_uring::first_failure(r, 0)
        == Some(r[k]) by {
        lemma_failure_at(r, 0, k);
    }
}

proof fn lemma_first_failure(r: Seq<i32>, from: int)
    requires
        0 <= from <= r.len(),
    ensures
        crate::linux_uring::first_failure(r, from) is None <==> forall|i: int|
            from <= i < r.len() ==> #[trigger] r[i] >= 0,
    decreases r.len() - from,
{
    if from < r.len() {
        lemma_first_failure(r, from + 1);
        if r[from] < 0 {
            assert(!(forall|i: int| from <= i < r.len() ==> #[trigger] r[i] >= 0));
        } else if crate::linux_uring::first_failure(r, from) is None {
            assert forall|i: int| from <= i < r.len() implies #[trigger] r[i] >= 0 by {
                if i > from {
                    assert(from + 1 <= i);
                }
            }
        }
    }
}

proof fn lemma_failure_at(r: Seq<i32>, from: int, k: int)
    requires
        0 <= from <= k < r.len(),
        r[k] < 0,
        forall|i: int| from <= i < k ==> #[trigger] r[i] >= 0,
    ensures
        crate::linux_uring::first_failure(r, from) == Some(r[k]),
    decreases k - from,
{
    if from < k {
        assert(r[from] >= 0);
        lemma_failure_at(r, from + 1, k);
    }
}

/// The tasks start without a request, and the relay may be dialled at once.
pub proof fn tasks_start_fresh(now: u64, punch: PunchTask, relay: RelayTask, slots: TunnelSessionSlots, total: usize, batch: UringBatch)
    requires
        call_ensures(PunchTask::new, (), punch),
        call_ensures(RelayTask::new, (now,), relay),
        call_ensures(TunnelSessionSlots::new, (), slots),
        call_ensures(UringBatch::new, (total,), batch),
    ensures
        punch.last_handled is None && punch.attempted is None && punch.attempts == 0,
        relay.last_handled is None && relay.retrying is None && relay.failures == 0
            && relay.retry_at == now,
        slots.active == 0,
        batch.total == total && batch.submitted == 0 && batch.error is None && !batch.stopped,
{
}

} // verus!
