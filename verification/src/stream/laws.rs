//! The laws of the session machine, each proved once and for all inputs:
//! an operation that needs a session fails fast with no exchange; the
//! classifier follows the documented priority order and never coerces an
//! unrecognized frame to the basic shape; a server that always advises
//! `retry` makes `connect` issue exactly `maxRetries + 1` exchanges before
//! failing with the server's error; and recovery cycles — whichever advice
//! drives them — draw on one shared budget that only a reset refills.

use vstd::prelude::*;

use crate::errors::ErrorV;
use crate::json::JsonV;
use crate::stream::advice::{Advice, Reconnect};
use crate::stream::classify::{
    as_basic, as_delivery, as_errored, as_handshake, as_publish, classify_all, classify_one,
};
use crate::stream::client::{
    drain, exchange, follow_advice, initial_work, issue, needs_session, process_frames,
    sends_reversed, start, subscribe_plans, target_plans, work_measure, ActionV, ClientV, OpV,
    PlanV, WorkV,
};
use crate::stream::message::connect_message_v;
use crate::stream::response::{ErroredResponseV, StreamResponseV};

verus! {

broadcast use vstd::seq::group_seq_axioms;

// ---------------------------------------------------------------------------
// Fail-fast without a session
// ---------------------------------------------------------------------------

/// Law: any operation that requires a session, started while the session id
/// is unset, fails with `NoSession` and performs zero exchanges — no message
/// is handed out and nothing is left in flight or pending.
pub proof fn lemma_no_session_fails_fast(c: ClientV, op: OpV)
    requires
        needs_session(op),
        c.session_id is None,
    ensures
        ({
            let (s, a) = start(c, op);
            &&& a == ActionV::Fail(ErrorV::NoSession)
            &&& s.awaiting is None
            &&& s.work == Seq::<WorkV>::empty()
            &&& s.session_id == c.session_id
            &&& s.retries == c.retries
            &&& s.subscriptions == c.subscriptions
        }),
{
}

// ---------------------------------------------------------------------------
// Classification order
// ---------------------------------------------------------------------------

/// Law: classification is total over the five shapes and follows the
/// documented priority order — the errored shape is decided first — and a
/// frame that matches no shape classifies as nothing at all: it never
/// silently coerces to the basic shape.
pub proof fn lemma_classify_priority(v: JsonV)
    ensures
        as_errored(v) is Some ==> classify_one(v) == Some(
            StreamResponseV::ErroredResponse(as_errored(v)->Some_0),
        ),
        classify_one(v) matches Some(StreamResponseV::Basic(f)) ==> as_basic(v) == Some(f)
            && as_errored(v) is None && as_handshake(v) is None && as_publish(v) is None
            && as_delivery(v) is None,
        classify_one(v) is None <==> (as_errored(v) is None && as_handshake(v) is None
            && as_publish(v) is None && as_delivery(v) is None && as_basic(v) is None),
{
}

// ---------------------------------------------------------------------------
// Exactly maxRetries + 1 exchanges under constant `retry` advice
// ---------------------------------------------------------------------------

/// A connect operation awaiting a reply, `k` recovery cycles in: the budget
/// spent is `k + 1` (the first exchange spent the first unit), nothing has
/// accumulated, and only the reset mark and the recoveries' drained batches
/// remain pending.
pub open spec fn mid_connect(c: ClientV, sid: Seq<char>, k: nat) -> bool {
    &&& c.session_id == Some(sid)
    &&& c.op == OpV::Connect
    &&& c.awaiting == Some(true)
    &&& c.acc == Seq::<StreamResponseV>::empty()
    &&& c.retries == k + 1
    &&& c.work == seq![WorkV::ResetRetries] + Seq::new(
        k,
        |i: int| WorkV::Batch { frames: Seq::empty(), keep: true },
    )
}

/// Whether a frame is an errored frame whose advice is exactly `retry`.
pub open spec fn is_retry_advised(e: ErroredResponseV) -> bool {
    match e.advice {
        Some(a) => a.reconnect == Reconnect::Retry,
        None => false,
    }
}

/// One step of the constant-`retry` scenario: while the budget lasts, the
/// reply re-issues the connect exchange; once it is exhausted, the operation
/// fails with the server's own error message.
pub proof fn lemma_always_retry_step(
    c: ClientV,
    sid: Seq<char>,
    k: nat,
    e: ErroredResponseV,
    vals: Seq<JsonV>,
)
    requires
        mid_connect(c, sid, k),
        k + 1 <= c.max_retries + 1,
        c.max_retries < 32766,
        is_retry_advised(e),
        classify_all(vals) == Some(seq![StreamResponseV::ErroredResponse(e)]),
    ensures
        ({
            let (c2, act) = exchange(c, Result::Ok(vals));
            if k + 1 <= c.max_retries {
                &&& act == ActionV::Send(connect_message_v(sid))
                &&& mid_connect(c2, sid, k + 1)
                &&& c2.max_retries == c.max_retries
            } else {
                &&& act == ActionV::Fail(ErrorV::ProtocolError(e.error))
                &&& c2.awaiting is None
                &&& c2.work == Seq::<WorkV>::empty()
            }
        }),
{
    let frames = seq![StreamResponseV::ErroredResponse(e)];
    let c1 = ClientV { awaiting: None, ..c };
    let rest = frames.drop_first();
    assert(rest =~= Seq::<StreamResponseV>::empty());
    assert(exchange(c, Result::Ok(vals)) == process_frames(c1, frames, true));
    assert(frames[0] == StreamResponseV::ErroredResponse(e));
    assert(process_frames(c1, frames, true) == follow_advice(c1, rest, true, e.advice->Some_0, Some(e.error)));
    if k + 1 <= c.max_retries {
        let cy = ClientV { cycles: c1.cycles + 1, ..c1 };
        let plans = target_plans(cy.op, cy.subscriptions);
        assert(plans =~= seq![PlanV::Connect]);
        assert(plans.drop_first() =~= Seq::<PlanV>::empty());
        assert(sends_reversed(plans.drop_first(), true, true)
            =~= Seq::<WorkV>::empty());
        let pushed = ClientV {
            work: cy.work.push(WorkV::Batch { frames: rest, keep: true })
                + sends_reversed(plans.drop_first(), true, true),
            ..cy
        };
        assert(follow_advice(c1, rest, true, e.advice->Some_0, Some(e.error)) == issue(
            pushed,
            plans[0],
            true,
            true,
        ));
        let (c2, act) = issue(pushed, PlanV::Connect, true, true);
        assert(plans[0] == PlanV::Connect);
        assert(act == ActionV::Send(connect_message_v(sid)));
        assert(c2.work =~= seq![WorkV::ResetRetries] + Seq::new(
            (k + 1) as nat,
            |i: int| WorkV::Batch { frames: Seq::empty(), keep: true },
        ));
        assert(mid_connect(c2, sid, k + 1));
    }
}

/// The constant-`retry` run: the trace of a connect operation against a
/// server whose every reply is the same batch.
pub open spec fn connect_trace(c0: ClientV, vals: Seq<JsonV>, i: nat) -> (ClientV, ActionV)
    decreases i,
{
    if i == 0 {
        start(c0, OpV::Connect)
    } else {
        let prev = connect_trace(c0, vals, (i - 1) as nat);
        exchange(prev.0, Result::Ok(vals))
    }
}

/// Law: with a fresh budget of `maxRetries = N` and a server that always
/// replies with an errored frame advising `retry`, `connect` issues exactly
/// `N + 1` exchanges — the actions at steps `0 .. N` are all sends — and the
/// step after that fails with a protocol error carrying the server's own
/// error message.
pub proof fn lemma_connect_always_retry(
    c0: ClientV,
    sid: Seq<char>,
    e: ErroredResponseV,
    vals: Seq<JsonV>,
    i: nat,
)
    requires
        c0.session_id == Some(sid),
        c0.retries == 0,
        0 <= c0.max_retries < 32766,
        is_retry_advised(e),
        classify_all(vals) == Some(seq![StreamResponseV::ErroredResponse(e)]),
        i <= c0.max_retries + 1,
    ensures
        i <= c0.max_retries ==> connect_trace(c0, vals, i).1 == ActionV::Send(
            connect_message_v(sid),
        ) && mid_connect(connect_trace(c0, vals, i).0, sid, i) && connect_trace(
            c0,
            vals,
            i,
        ).0.max_retries == c0.max_retries,
        i == c0.max_retries + 1 ==> connect_trace(c0, vals, i).1 == ActionV::Fail(
            ErrorV::ProtocolError(e.error),
        ),
    decreases i,
{
    if i == 0 {
        let base = ClientV {
            op: OpV::Connect,
            work: initial_work(OpV::Connect, c0.subscriptions),
            acc: Seq::empty(),
            awaiting: None,
            cycles: 0,
            ..c0
        };
        let popped = ClientV { work: base.work.drop_last(), ..base };
        assert(base.work.last() == (WorkV::Send {
            plan: PlanV::Connect,
            keep: true,
            counts: true,
        }));
        let (c1, a1) = issue(popped, PlanV::Connect, true, true);
        assert(a1 == ActionV::Send(connect_message_v(sid)));
        assert(c1.work =~= seq![WorkV::ResetRetries] + Seq::new(
            0,
            |j: int| WorkV::Batch { frames: Seq::empty(), keep: true },
        ));
        assert(mid_connect(c1, sid, 0));
    } else {
        lemma_connect_always_retry(c0, sid, e, vals, (i - 1) as nat);
        lemma_always_retry_step(connect_trace(c0, vals, (i - 1) as nat).0, sid, (i - 1) as nat, e, vals);
    }
}

// ---------------------------------------------------------------------------
// The shared retry budget
// ---------------------------------------------------------------------------

/// The budget a reset refills: the whole of `maxRetries + 1`.
pub open spec fn fresh_budget(c: ClientV) -> int {
    if c.max_retries >= 0 {
        c.max_retries + 1
    } else {
        0
    }
}

/// What is left of the shared budget before the next reset.
pub open spec fn budget_left(c: ClientV) -> int {
    if c.retries <= c.max_retries {
        c.max_retries - c.retries + 1
    } else {
        0
    }
}

/// The budget that the pending resets will still refill: `b` for each
/// pending `ResetRetries` mark.
pub open spec fn refill_bound(work: Seq<WorkV>, b: int) -> int
    decreases work.len(),
{
    if work.len() == 0 {
        0
    } else {
        (if work.last() is ResetRetries {
            b
        } else {
            0int
        }) + refill_bound(work.drop_last(), b)
    }
}

/// How many recovery cycles the machine can still begin: what is left of the
/// budget, plus a whole fresh budget for each pending reset.
pub open spec fn spend_bound(c: ClientV) -> int {
    budget_left(c) + refill_bound(c.work, fresh_budget(c))
}

/// An operation whose recovery always has an exchange to retry: it is not
/// idle, and a subscribe operation has at least one registered topic.
pub open spec fn op_live(c: ClientV) -> bool {
    &&& !(c.op is Idle)
    &&& (c.op is Subscribe ==> c.subscriptions.len() > 0)
}

/// An operation that needed a session has one — always true of reachable
/// states, since the session id is set at the operation's start and the core
/// never clears it.
pub open spec fn sid_ok(c: ClientV) -> bool {
    needs_session(c.op) ==> c.session_id is Some
}

proof fn lemma_refill_nonneg(work: Seq<WorkV>, b: int)
    requires
        b >= 0,
    ensures
        refill_bound(work, b) >= 0,
    decreases work.len(),
{
    if work.len() > 0 {
        lemma_refill_nonneg(work.drop_last(), b);
    }
}

proof fn lemma_refill_append_no_resets(w: Seq<WorkV>, s: Seq<WorkV>, b: int)
    requires
        forall|i: int| 0 <= i < s.len() ==> !(#[trigger] s[i] is ResetRetries),
    ensures
        refill_bound(w + s, b) == refill_bound(w, b),
    decreases s.len(),
{
    if s.len() == 0 {
        assert(w + s =~= w);
    } else {
        assert((w + s).drop_last() =~= w + s.drop_last());
        assert((w + s).last() == s.last());
        lemma_refill_append_no_resets(w, s.drop_last(), b);
    }
}

proof fn lemma_refill_push_not_reset(w: Seq<WorkV>, x: WorkV, b: int)
    requires
        !(x is ResetRetries),
    ensures
        refill_bound(w.push(x), b) == refill_bound(w, b),
{
    assert(w.push(x).drop_last() =~= w);
}

/// No recovery ever queues a budget reset: reversed sends are sends.
proof fn lemma_sends_reversed_no_resets(plans: Seq<PlanV>, keep: bool, counts: bool)
    ensures
        forall|i: int| 0 <= i < sends_reversed(plans, keep, counts).len()
            ==> !(#[trigger] sends_reversed(plans, keep, counts)[i]
            is ResetRetries),
{
}

/// Law (shared budget): however the server's advice alternates between
/// `retry` and `handshake`, the number of recovery cycles the machine begins
/// while draining pending work never exceeds what is left of the one shared
/// budget — `maxRetries - retries + 1` before the next reset, plus a full
/// budget per pending reset. The cycle counter never moves backwards.
pub proof fn lemma_shared_budget_drain(c: ClientV)
    requires
        op_live(c),
        sid_ok(c),
        c.max_retries < 32767,
    ensures
        ({
            let (c2, a) = drain(c);
            &&& c2.cycles >= c.cycles
            &&& spend_bound(c2) >= 0
            &&& spend_bound(c2) + (c2.cycles - c.cycles) <= spend_bound(c)
        }),
    decreases work_measure(c.work), 0int,
{
    lemma_refill_nonneg(c.work, fresh_budget(c));
    if c.work.len() == 0 {
    } else {
        let popped = ClientV { work: c.work.drop_last(), ..c };
        lemma_refill_nonneg(popped.work, fresh_budget(c));
        match c.work.last() {
            WorkV::ResetRetries => {
                let cr = ClientV { retries: 0, ..popped };
                lemma_shared_budget_drain(cr);
            },
            WorkV::Send { plan, keep, counts } => {
                assert(issue(popped, plan, keep, counts).0.cycles == c.cycles);
            },
            WorkV::Batch { frames, keep } => {
                lemma_shared_budget_process(popped, frames, keep);
            },
        }
    }
}

/// The same law, over the processing of one reply's frames.
pub proof fn lemma_shared_budget_process(c: ClientV, frames: Seq<StreamResponseV>, keep: bool)
    requires
        op_live(c),
        sid_ok(c),
        c.max_retries < 32767,
    ensures
        ({
            let (c2, a) = process_frames(c, frames, keep);
            &&& c2.cycles >= c.cycles
            &&& spend_bound(c2) >= 0
            &&& spend_bound(c2) + (c2.cycles - c.cycles) <= spend_bound(c)
        }),
    decreases work_measure(c.work) + 2 * frames.len(), 1int,
{
    lemma_refill_nonneg(c.work, fresh_budget(c));
    if frames.len() == 0 {
        lemma_shared_budget_drain(c);
    } else {
        let f = frames[0];
        let rest = frames.drop_first();
        let c1 = match f {
            StreamResponseV::Handshake(h) => if h.successful {
                ClientV { session_id: Some(h.client_id), ..c }
            } else {
                c
            },
            _ => c,
        };
        match f {
            StreamResponseV::ErroredResponse(e) => match e.advice {
                Some(a) => {
                    lemma_shared_budget_advice(c1, rest, keep, a, Some(e.error));
                },
                None => {},
            },
            _ => match f.embedded_advice() {
                Some(a) => {
                    lemma_shared_budget_advice(c1, rest, keep, a, None);
                },
                None => {
                    let c2 = if keep {
                        ClientV { acc: c1.acc.push(f), ..c1 }
                    } else {
                        c1
                    };
                    lemma_shared_budget_process(c2, rest, keep);
                },
            },
        }
    }
}

/// The shared-budget law at the operation's surface: feeding one reply to
/// the machine never lowers the cycle counter, and the cycles it begins plus
/// the spending power that remains never exceed the spending power it had —
/// so however `retry` and `handshake` advice alternate, one operation begins
/// at most `maxRetries - retries + 1` recovery cycles before its outermost
/// success, plus one fresh budget per pending reset.
pub proof fn lemma_shared_budget_exchange(c: ClientV, outcome: Result<Seq<JsonV>, ErrorV>)
    requires
        op_live(c),
        sid_ok(c),
        c.max_retries < 32767,
    ensures
        ({
            let (c2, a) = exchange(c, outcome);
            &&& c2.cycles >= c.cycles
            &&& spend_bound(c2) >= 0
            &&& spend_bound(c2) + (c2.cycles - c.cycles) <= spend_bound(c)
        }),
{
    lemma_refill_nonneg(c.work, fresh_budget(c));
    let c1 = ClientV { awaiting: None, ..c };
    match outcome {
        Result::Err(_) => {},
        Result::Ok(vals) => match classify_all(vals) {
            None => {},
            Some(frames) => {
                lemma_shared_budget_process(c1, frames, c.awaiting->Some_0);
            },
        },
    }
}

/// The same law, over one act of following advice; moreover a recovery cycle
/// is begun only while the spent budget is within `maxRetries` — this is the
/// shared check both the `retry` and the `handshake` branch pass through.
pub proof fn lemma_shared_budget_advice(
    c: ClientV,
    rest: Seq<StreamResponseV>,
    keep: bool,
    a: Advice,
    err: Option<Seq<char>>,
)
    requires
        op_live(c),
        sid_ok(c),
        c.max_retries < 32767,
    ensures
        ({
            let (c2, act) = follow_advice(c, rest, keep, a, err);
            &&& c2.cycles >= c.cycles
            &&& spend_bound(c2) >= 0
            &&& spend_bound(c2) + (c2.cycles - c.cycles) <= spend_bound(c)
            &&& (c2.cycles > c.cycles ==> c.retries <= c.max_retries)
        }),
    decreases work_measure(c.work) + 2 * rest.len() + 1, 1int,
{
    lemma_refill_nonneg(c.work, fresh_budget(c));
    match a.reconnect {
        Reconnect::Stop => {},
        Reconnect::Retry => {
            if c.retries <= c.max_retries {
                let c1 = ClientV { cycles: c.cycles + 1, ..c };
                let plans = target_plans(c1.op, c1.subscriptions);
                assert(plans.len() > 0);
                let pushed_work = c1.work.push(WorkV::Batch { frames: rest, keep })
                    + sends_reversed(plans.drop_first(), keep, true);
                let c2 = ClientV { work: pushed_work, ..c1 };
                let b = fresh_budget(c);
                lemma_refill_push_not_reset(c1.work, WorkV::Batch { frames: rest, keep }, b);
                lemma_sends_reversed_no_resets(plans.drop_first(), keep, true);
                lemma_refill_append_no_resets(
                    c1.work.push(WorkV::Batch { frames: rest, keep }),
                    sends_reversed(plans.drop_first(), keep, true),
                    b,
                );
                assert(refill_bound(pushed_work, b) == refill_bound(c.work, b));
                assert(issue(c2, plans[0], keep, true).0.cycles == c.cycles + 1);
            }
        },
        Reconnect::Handshake => {
            if c.retries <= c.max_retries {
                let c1 = ClientV { cycles: c.cycles + 1, ..c };
                let plans = target_plans(c1.op, c1.subscriptions);
                let subs_sends = sends_reversed(
                    subscribe_plans(c1.subscriptions),
                    false,
                    false,
                );
                let target_sends = sends_reversed(plans, keep, true);
                let with_batch = c1.work.push(WorkV::Batch { frames: rest, keep });
                let c2 = ClientV { work: with_batch + target_sends + subs_sends, ..c1 };
                let b = fresh_budget(c);
                lemma_refill_push_not_reset(c1.work, WorkV::Batch { frames: rest, keep }, b);
                lemma_sends_reversed_no_resets(plans, keep, true);
                lemma_refill_append_no_resets(with_batch, target_sends, b);
                lemma_sends_reversed_no_resets(
                    subscribe_plans(c1.subscriptions),
                    false,
                    false,
                );
                lemma_refill_append_no_resets(with_batch + target_sends, subs_sends, b);
                assert(refill_bound(c2.work, b) == refill_bound(c.work, b));
                assert(issue(c2, PlanV::Handshake, false, true).0.cycles
                    == c.cycles + 1);
            }
        },
    }
}

} // verus!
