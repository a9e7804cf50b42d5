//! The session state machine. A `CometdClient` owns the session identity,
//! the registered subscriptions, and the shared retry budget, and drives the
//! advice-directed recovery procedure — but performs no I/O itself. Starting
//! an operation yields an [`Action`]; while the action is [`Action::Send`],
//! the caller exchanges the message over its transport and feeds the reply
//! to [`CometdClient::on_exchange`].
//!
//! The retry procedure: an errored frame (or a success frame that embeds
//! advice) either ends the operation, repeats the
//! operation's exchange (`retry`), or re-handshakes, re-subscribes every
//! registered topic, and then retries the operation (`handshake`) — all paid
//! from one shared budget of `max_retries` that only an operation's
//! outermost success resets.

use vstd::prelude::*;
use vstd::string::StringExecFns;

use crate::errors::{Error, ErrorV};
use crate::json::{json_view, Json, JsonV};
use crate::stream::advice::{Advice, Reconnect};
use crate::stream::classify::{classify, classify_all};
use crate::stream::message::{
    connect_message, connect_message_v, disconnect_message, disconnect_message_v,
    handshake_message, handshake_message_v, publish_message, publish_message_v,
    subscription_message, subscribe_message_v, unsubscribe_message_v,
};
use crate::stream::response::{StreamResponse, StreamResponseV};

verus! {

broadcast use vstd::std_specs::vec::group_vec_axioms, vstd::seq::group_seq_axioms;

// ---------------------------------------------------------------------------
// Machine state
// ---------------------------------------------------------------------------

/// One protocol exchange the machine still has to make.
enum Plan {
    Handshake,
    Connect,
    Disconnect,
    Subscribe(String),
    Unsubscribe(String),
    Publish(String, Json),
}

/// A pending piece of work, kept on a stack; the top is next.
enum Work {
    /// An exchange to make. `keep`: its reply frames belong to the returned
    /// batch. `counts`: issuing it consumes one unit of the retry budget.
    Send { plan: Plan, keep: bool, counts: bool },
    /// Frames of one reply that still wait behind a recovery, front first.
    Batch { frames: Vec<StreamResponse>, keep: bool },
    /// The operation's outermost exchange succeeded: reset the retry budget.
    ResetRetries,
}

/// The operation in progress.
enum Op {
    Idle,
    Init,
    Connect,
    Disconnect,
    Subscribe,
    Unsubscribe(String),
    Publish(String, Json),
}

/// The mathematical shape of a [`Plan`].
pub enum PlanV {
    Handshake,
    Connect,
    Disconnect,
    Subscribe(Seq<char>),
    Unsubscribe(Seq<char>),
    Publish(Seq<char>, JsonV),
}

/// The mathematical shape of a [`Work`] item.
pub enum WorkV {
    Send { plan: PlanV, keep: bool, counts: bool },
    Batch { frames: Seq<StreamResponseV>, keep: bool },
    ResetRetries,
}

/// The mathematical shape of an [`Op`].
pub enum OpV {
    Idle,
    Init,
    Connect,
    Disconnect,
    Subscribe,
    Unsubscribe(Seq<char>),
    Publish(Seq<char>, JsonV),
}

impl DeepView for Plan {
    type V = PlanV;

    closed spec fn deep_view(&self) -> PlanV {
        match self {
            Plan::Handshake => PlanV::Handshake,
            Plan::Connect => PlanV::Connect,
            Plan::Disconnect => PlanV::Disconnect,
            Plan::Subscribe(t) => PlanV::Subscribe(t@),
            Plan::Unsubscribe(t) => PlanV::Unsubscribe(t@),
            Plan::Publish(c, d) => PlanV::Publish(c@, json_view(*d)),
        }
    }
}

impl DeepView for Work {
    type V = WorkV;

    closed spec fn deep_view(&self) -> WorkV {
        match self {
            Work::Send { plan, keep, counts } => WorkV::Send {
                plan: plan.deep_view(),
                keep: *keep,
                counts: *counts,
            },
            Work::Batch { frames, keep } => WorkV::Batch {
                frames: frames.deep_view(),
                keep: *keep,
            },
            Work::ResetRetries => WorkV::ResetRetries,
        }
    }
}

impl DeepView for Op {
    type V = OpV;

    closed spec fn deep_view(&self) -> OpV {
        match self {
            Op::Idle => OpV::Idle,
            Op::Init => OpV::Init,
            Op::Connect => OpV::Connect,
            Op::Disconnect => OpV::Disconnect,
            Op::Subscribe => OpV::Subscribe,
            Op::Unsubscribe(t) => OpV::Unsubscribe(t@),
            Op::Publish(c, d) => OpV::Publish(c@, json_view(*d)),
        }
    }
}

/// The mathematical state of a [`CometdClient`].
#[verifier::ext_equal]
pub struct ClientV {
    /// The session id a successful handshake stored, if any. The core never
    /// clears it, not even on disconnect.
    pub session_id: Option<Seq<char>>,
    /// The topics registered at construction, re-sent in full on every
    /// re-handshake.
    pub subscriptions: Seq<Seq<char>>,
    /// The retry budget an operation may spend on recovery.
    pub max_retries: int,
    /// The budget spent so far; shared by the `retry` and `handshake`
    /// branches, and reset only by an operation's outermost success.
    pub retries: int,
    /// How many recovery cycles the running operation has begun.
    pub cycles: int,
    /// The operation in progress.
    pub op: OpV,
    /// Pending work, bottom to top.
    pub work: Seq<WorkV>,
    /// Frames accumulated for the operation's result batch.
    pub acc: Seq<StreamResponseV>,
    /// When an exchange is in flight: whether its reply frames belong to the
    /// result batch.
    pub awaiting: Option<bool>,
}

/// What the caller must do next.
pub enum ActionV {
    Send(JsonV),
    Done(Seq<StreamResponseV>),
    Fail(ErrorV),
}

/// What the caller must do next: exchange a message and feed the reply to
/// [`CometdClient::on_exchange`], take the finished batch, or report the
/// failure.
#[derive(Debug, PartialEq)]
pub enum Action {
    /// Exchange this message over the transport.
    Send(Json),
    /// The operation finished with these frames.
    Done(Vec<StreamResponse>),
    /// The operation failed; the machine is idle again.
    Fail(Error),
}

impl DeepView for Action {
    type V = ActionV;

    open spec fn deep_view(&self) -> ActionV {
        match self {
            Action::Send(m) => ActionV::Send(json_view(*m)),
            Action::Done(frames) => ActionV::Done(frames.deep_view()),
            Action::Fail(e) => ActionV::Fail(e.deep_view()),
        }
    }
}

// ---------------------------------------------------------------------------
// The transition relation, at the specification level
// ---------------------------------------------------------------------------

/// The retry counter, advanced by one; it saturates far above any usable
/// budget, so saturation never changes what the budget checks decide.
pub open spec fn bump(r: int) -> int {
    if r < 32767 {
        r + 1
    } else {
        r
    }
}

/// Whether an operation needs an established session before any exchange.
pub open spec fn needs_session(op: OpV) -> bool {
    match op {
        OpV::Idle => false,
        OpV::Init => false,
        _ => true,
    }
}

/// One subscribe exchange per registered topic, in registry order.
pub open spec fn subscribe_plans(subs: Seq<Seq<char>>) -> Seq<PlanV> {
    Seq::new(subs.len(), |i: int| PlanV::Subscribe(subs[i]))
}

/// The exchanges that retry an operation: the operation's own exchange, and
/// for a subscribe operation the whole topic sequence.
pub open spec fn target_plans(op: OpV, subs: Seq<Seq<char>>) -> Seq<PlanV> {
    match op {
        OpV::Idle => Seq::empty(),
        OpV::Init => seq![PlanV::Handshake],
        OpV::Connect => seq![PlanV::Connect],
        OpV::Disconnect => seq![PlanV::Disconnect],
        OpV::Subscribe => subscribe_plans(subs),
        OpV::Unsubscribe(t) => seq![PlanV::Unsubscribe(t)],
        OpV::Publish(c, d) => seq![PlanV::Publish(c, d)],
    }
}

/// Send items for the plans, reversed so that the first plan sits on top of
/// the stack.
pub open spec fn sends_reversed(plans: Seq<PlanV>, keep: bool, counts: bool) -> Seq<WorkV> {
    Seq::new(plans.len(), |i: int| WorkV::Send { plan: plans[plans.len() - 1 - i], keep, counts })
}

/// The message a plan sends, given the session id; nothing when a session is
/// needed and none is set.
pub open spec fn message_of(plan: PlanV, sid: Option<Seq<char>>) -> Option<JsonV> {
    match plan {
        PlanV::Handshake => Some(handshake_message_v()),
        PlanV::Connect => match sid {
            Some(c) => Some(connect_message_v(c)),
            None => None,
        },
        PlanV::Disconnect => match sid {
            Some(c) => Some(disconnect_message_v(c)),
            None => None,
        },
        PlanV::Subscribe(t) => match sid {
            Some(c) => Some(subscribe_message_v(c, t)),
            None => None,
        },
        PlanV::Unsubscribe(t) => match sid {
            Some(c) => Some(unsubscribe_message_v(c, t)),
            None => None,
        },
        PlanV::Publish(ch, d) => match sid {
            Some(c) => Some(publish_message_v(ch, c, d)),
            None => None,
        },
    }
}

/// The state once an operation is over, whichever way it ended.
pub open spec fn settled(c: ClientV) -> ClientV {
    ClientV { op: OpV::Idle, work: Seq::empty(), acc: Seq::empty(), awaiting: None, ..c }
}

/// Issuing one exchange: fail fast without a needed session, else count the
/// budget unit and hand the message out.
pub open spec fn issue(c: ClientV, plan: PlanV, keep: bool, counts: bool) -> (ClientV, ActionV) {
    match message_of(plan, c.session_id) {
        None => (settled(c), ActionV::Fail(ErrorV::NoSession)),
        Some(m) => (
            ClientV {
                retries: if counts {
                    bump(c.retries)
                } else {
                    c.retries
                },
                awaiting: Some(keep),
                ..c
            },
            ActionV::Send(m),
        ),
    }
}

/// The message when the server explains an errored frame it will not recover.
pub open spec fn no_advice_message(error: Seq<char>) -> Seq<char> {
    "Not retrying because the server did not provide advice"@ + error
}

/// The server-supplied error, or the given fallback.
pub open spec fn error_or(err: Option<Seq<char>>, fallback: Seq<char>) -> Seq<char> {
    match err {
        Some(e) => e,
        None => fallback,
    }
}

/// The weight of one pending item, for termination: a batch is heavier than
/// anything its processing can leave behind.
pub open spec fn item_measure(w: WorkV) -> nat {
    match w {
        WorkV::Send { .. } => 1,
        WorkV::ResetRetries => 1,
        WorkV::Batch { frames, .. } => 2 * frames.len() + 1,
    }
}

/// The weight of the whole stack.
pub open spec fn work_measure(work: Seq<WorkV>) -> nat
    decreases work.len(),
{
    if work.len() == 0 {
        0
    } else {
        item_measure(work.last()) + work_measure(work.drop_last())
    }
}

/// Runs pending work until the machine must send, finishes, or fails.
pub open spec fn drain(c: ClientV) -> (ClientV, ActionV)
    decreases work_measure(c.work), 0int,
{
    if c.work.len() == 0 {
        (settled(c), ActionV::Done(c.acc))
    } else {
        let popped = ClientV { work: c.work.drop_last(), ..c };
        match c.work.last() {
            WorkV::ResetRetries => drain(ClientV { retries: 0, ..popped }),
            WorkV::Send { plan, keep, counts } => issue(popped, plan, keep, counts),
            WorkV::Batch { frames, keep } => process_frames(popped, frames, keep),
        }
    }
}

/// Processes the frames of one reply, front first: a success frame updates
/// the session and joins the result batch, advice starts a recovery, and an
/// errored frame without advice ends the operation.
pub open spec fn process_frames(c: ClientV, frames: Seq<StreamResponseV>, keep: bool) -> (
    ClientV,
    ActionV,
)
    decreases work_measure(c.work) + 2 * frames.len(), 1int,
{
    if frames.len() == 0 {
        drain(c)
    } else {
        let f = frames[0];
        let rest = frames.drop_first();
        // A successful handshake frame stores the session id before anything
        // else, even when the frame also carries advice.
        let c1 = match f {
            StreamResponseV::Handshake(h) => if h.successful {
                ClientV { session_id: Some(h.client_id), ..c }
            } else {
                c
            },
            _ => c,
        };
        match f {
            StreamResponseV::ErroredResponse(e) => match e.advice {
                Some(a) => follow_advice(c1, rest, keep, a, Some(e.error)),
                None => (
                    settled(c1),
                    ActionV::Fail(ErrorV::ProtocolError(no_advice_message(e.error))),
                ),
            },
            _ => match f.embedded_advice() {
                Some(a) => follow_advice(c1, rest, keep, a, None),
                None => {
                    let c2 = if keep {
                        ClientV { acc: c1.acc.push(f), ..c1 }
                    } else {
                        c1
                    };
                    process_frames(c2, rest, keep)
                },
            },
        }
    }
}

/// The advice-directed recovery procedure, over the shared retry budget.
pub open spec fn follow_advice(
    c: ClientV,
    rest: Seq<StreamResponseV>,
    keep: bool,
    a: Advice,
    err: Option<Seq<char>>,
) -> (ClientV, ActionV)
    decreases work_measure(c.work) + 2 * rest.len() + 1, 1int,
{
    match a.reconnect {
        Reconnect::Stop => (
            settled(c),
            ActionV::Fail(
                ErrorV::ProtocolError(
                    error_or(err, "Service advised not to reconnect nor handshake"@),
                ),
            ),
        ),
        Reconnect::Retry => if c.retries <= c.max_retries {
            let c1 = ClientV { cycles: c.cycles + 1, ..c };
            let plans = target_plans(c1.op, c1.subscriptions);
            if plans.len() == 0 {
                process_frames(c1, rest, keep)
            } else {
                let c2 = ClientV {
                    work: c1.work.push(WorkV::Batch { frames: rest, keep }) + sends_reversed(
                        plans.drop_first(),
                        keep,
                        true,
                    ),
                    ..c1
                };
                issue(c2, plans[0], keep, true)
            }
        } else {
            (settled(c), ActionV::Fail(ErrorV::ProtocolError(error_or(err, "Max retries reached"@))))
        },
        Reconnect::Handshake => if c.retries <= c.max_retries {
            let c1 = ClientV { cycles: c.cycles + 1, ..c };
            let plans = target_plans(c1.op, c1.subscriptions);
            let c2 = ClientV {
                work: c1.work.push(WorkV::Batch { frames: rest, keep }) + sends_reversed(
                    plans,
                    keep,
                    true,
                ) + sends_reversed(subscribe_plans(c1.subscriptions), false, false),
                ..c1
            };
            issue(c2, PlanV::Handshake, false, true)
        } else {
            (settled(c), ActionV::Fail(ErrorV::ProtocolError(error_or(err, "Max retries reached"@))))
        },
    }
}

/// The pending work an operation starts with, bottom to top.
pub open spec fn initial_work(op: OpV, subs: Seq<Seq<char>>) -> Seq<WorkV> {
    match op {
        OpV::Idle => Seq::empty(),
        OpV::Init => sends_reversed(subscribe_plans(subs), false, false) + seq![
            WorkV::ResetRetries,
            WorkV::Send { plan: PlanV::Handshake, keep: true, counts: true },
        ],
        OpV::Connect => seq![
            WorkV::ResetRetries,
            WorkV::Send { plan: PlanV::Connect, keep: true, counts: true },
        ],
        OpV::Disconnect => seq![
            WorkV::Send { plan: PlanV::Disconnect, keep: true, counts: false },
        ],
        OpV::Subscribe => sends_reversed(subscribe_plans(subs), false, false),
        OpV::Unsubscribe(t) => seq![
            WorkV::Send { plan: PlanV::Unsubscribe(t), keep: true, counts: false },
        ],
        OpV::Publish(ch, d) => seq![
            WorkV::Send { plan: PlanV::Publish(ch, d), keep: true, counts: false },
        ],
    }
}

/// Starting an operation, discarding whatever operation was in progress: an
/// operation that needs a session fails fast with no exchange while the
/// session id is unset; otherwise the operation's work is laid out and run
/// until the first send.
pub open spec fn start(c: ClientV, op: OpV) -> (ClientV, ActionV) {
    let base = ClientV {
        op,
        work: initial_work(op, c.subscriptions),
        acc: Seq::empty(),
        awaiting: None,
        cycles: 0,
        ..c
    };
    if needs_session(op) && c.session_id is None {
        (settled(base), ActionV::Fail(ErrorV::NoSession))
    } else {
        drain(base)
    }
}

/// Feeding the reply of the exchange in flight: a transport or decode
/// failure ends the operation at once and is never retried; classified
/// frames are processed in order.
pub open spec fn exchange(c: ClientV, outcome: Result<Seq<JsonV>, ErrorV>) -> (ClientV, ActionV) {
    let keep = c.awaiting->Some_0;
    let c1 = ClientV { awaiting: None, ..c };
    match outcome {
        Result::Err(e) => (settled(c1), ActionV::Fail(e)),
        Result::Ok(vals) => match classify_all(vals) {
            None => (settled(c1), ActionV::Fail(ErrorV::MalformedResponse)),
            Some(frames) => process_frames(c1, frames, keep),
        },
    }
}

/// A client as constructed: no session, an empty budget spent, the default
/// three retries, and nothing in progress.
pub open spec fn fresh_client(subs: Seq<Seq<char>>) -> ClientV {
    ClientV {
        session_id: None,
        subscriptions: subs,
        max_retries: 3,
        retries: 0,
        cycles: 0,
        op: OpV::Idle,
        work: Seq::empty(),
        acc: Seq::empty(),
        awaiting: None,
    }
}

/// The reply of an exchange, as the mathematics sees it.
pub open spec fn outcome_view(outcome: Result<Vec<Json>, Error>) -> Result<Seq<JsonV>, ErrorV> {
    match outcome {
        Result::Ok(vals) => Result::Ok(vals.deep_view()),
        Result::Err(e) => Result::Err(e.deep_view()),
    }
}

// ---------------------------------------------------------------------------
// The machine, executable
// ---------------------------------------------------------------------------

/// The cometd session client: a state machine over protocol exchanges that
/// some caller-owned transport performs.
pub struct CometdClient {
    session_id: Option<String>,
    subscriptions: Vec<String>,
    max_retries: i8,
    retries: i16,
    cycles: Ghost<int>,
    op: Op,
    work: Vec<Work>,
    acc: Vec<StreamResponse>,
    awaiting: Option<bool>,
}

impl View for CometdClient {
    type V = ClientV;

    closed spec fn view(&self) -> ClientV {
        ClientV {
            session_id: self.session_id.deep_view(),
            subscriptions: self.subscriptions.deep_view(),
            max_retries: self.max_retries as int,
            retries: self.retries as int,
            cycles: self.cycles@,
            op: self.op.deep_view(),
            work: self.work.deep_view(),
            acc: self.acc.deep_view(),
            awaiting: self.awaiting,
        }
    }
}

/// Queues one subscribe exchange per topic of `subs[from..]`, reversed, so
/// that the earliest topic ends nearest the top of the stack.
fn push_sub_sends(work: &mut Vec<Work>, subs: &Vec<String>, from: usize, keep: bool, counts: bool)
    requires
        from <= subs@.len(),
    ensures
        final(work).deep_view() == old(work).deep_view() + sends_reversed(
            subscribe_plans(subs.deep_view()).skip(from as int),
            keep,
            counts,
        ),
{
    let ghost base = work.deep_view();
    let ghost plans = subscribe_plans(subs.deep_view()).skip(from as int);
    let n = subs.len();
    let mut i: usize = n;
    while i > from
        invariant
            from <= i <= n,
            n == subs@.len(),
            plans == subscribe_plans(subs.deep_view()).skip(from as int),
            work.deep_view().len() == base.len() + (n - i),
            forall|j: int| 0 <= j < base.len() ==> #[trigger] work.deep_view()[j] == base[j],
            forall|j: int| 0 <= j < n - i ==> #[trigger] work.deep_view()[base.len() + j] == (WorkV::Send {
                plan: PlanV::Subscribe(subs.deep_view()[n - 1 - j]),
                keep,
                counts,
            }),
        decreases i,
    {
        let ghost prev = work.deep_view();
        let topic = subs[i - 1].clone();
        work.push(Work::Send { plan: Plan::Subscribe(topic), keep, counts });
        i -= 1;
        proof {
            assert(work.deep_view() =~= prev.push(
                WorkV::Send { plan: PlanV::Subscribe(subs.deep_view()[i as int]), keep, counts },
            ));
        }
    }
    proof {
        let target = base + sends_reversed(plans, keep, counts);
        assert(plans.len() == n - from);
        assert(work.deep_view().len() == target.len());
        assert forall|j: int| 0 <= j < target.len() implies work.deep_view()[j] == target[j] by {
            if j >= base.len() {
                let k = j - base.len();
                assert(work.deep_view()[base.len() + k] == (WorkV::Send {
                    plan: PlanV::Subscribe(subs.deep_view()[n - 1 - k]),
                    keep,
                    counts,
                }));
                assert(j == base.len() + k);
                assert(target[j] == sends_reversed(plans, keep, counts)[k]);
                assert(sends_reversed(plans, keep, counts)[k] == (WorkV::Send {
                    plan: plans[plans.len() - 1 - k],
                    keep,
                    counts,
                }));
                assert(plans[plans.len() - 1 - k] == subscribe_plans(subs.deep_view())[n - 1 - k]);
                assert(subscribe_plans(subs.deep_view())[n - 1 - k] == PlanV::Subscribe(
                    subs.deep_view()[n - 1 - k],
                ));
            }
        }
        assert(work.deep_view() =~= target);
    }
}

impl CometdClient {
    /// A client over the given topic registry, with the default budget of
    /// three retries.
    pub fn new(subscriptions: Vec<String>) -> (r: CometdClient)
        ensures
            r@ == fresh_client(subscriptions.deep_view()),
    {
        let r = CometdClient {
            session_id: None,
            subscriptions,
            max_retries: 3,
            retries: 0,
            cycles: Ghost(0),
            op: Op::Idle,
            work: Vec::new(),
            acc: Vec::new(),
            awaiting: None,
        };
        proof {
            assert(r@ =~= fresh_client(r.subscriptions.deep_view()));
        }
        r
    }

    /// Sets the retry budget shared by every recovery of one operation.
    pub fn set_retries(self, retries: i8) -> (r: Self)
        ensures
            r@ == (ClientV { max_retries: retries as int, ..self@ }),
    {
        let ghost sv = self@;
        let mut c = self;
        c.max_retries = retries;
        proof {
            assert(c@ =~= (ClientV { max_retries: retries as int, ..sv }));
        }
        c
    }

    /// The session id the last successful handshake stored, if any.
    pub fn session_id(&self) -> (r: Option<&String>)
        ensures
            match r {
                Some(s) => self@.session_id == Some(s@),
                None => self@.session_id is None,
            },
    {
        self.session_id.as_ref()
    }

    /// Whether an exchange is in flight, so that the next call must be
    /// [`CometdClient::on_exchange`].
    pub fn is_awaiting(&self) -> (r: bool)
        ensures
            r == (self@.awaiting is Some),
    {
        self.awaiting.is_some()
    }

    /// Ends the running operation, keeping session, registry and budget.
    fn settle(&mut self) -> (r: ())
        ensures
            final(self)@ == settled(old(self)@),
    {
        self.op = Op::Idle;
        self.work = Vec::new();
        self.acc = Vec::new();
        self.awaiting = None;
        proof {
            assert(self.work.deep_view() =~= Seq::<WorkV>::empty());
            assert(self.acc.deep_view() =~= Seq::<StreamResponseV>::empty());
            assert(self@ =~= settled(old(self)@));
        }
    }

    /// Spends one unit of the retry budget.
    fn bump_retries(&mut self) -> (r: ())
        ensures
            final(self)@ == (ClientV { retries: bump(old(self)@.retries), ..old(self)@ }),
    {
        if self.retries < 32767 {
            self.retries = self.retries + 1;
        }
        proof {
            assert(self@ =~= (ClientV { retries: bump(old(self)@.retries), ..old(self)@ }));
        }
    }

    /// Issues one exchange: builds its message from the current session.
    fn issue_send(&mut self, plan: Plan, keep: bool, counts: bool) -> (r: Action)
        ensures
            ({
                let (s, a) = issue(old(self)@, plan.deep_view(), keep, counts);
                final(self)@ == s && r.deep_view() == a
            }),
    {
        let msg: Option<Json> = match plan {
            Plan::Handshake => Some(handshake_message()),
            Plan::Connect => match &self.session_id {
                Some(cid) => Some(connect_message(cid)),
                None => None,
            },
            Plan::Disconnect => match &self.session_id {
                Some(cid) => Some(disconnect_message(cid)),
                None => None,
            },
            Plan::Subscribe(topic) => match &self.session_id {
                Some(cid) => Some(subscription_message("/meta/subscribe", cid, &topic)),
                None => None,
            },
            Plan::Unsubscribe(topic) => match &self.session_id {
                Some(cid) => Some(subscription_message("/meta/unsubscribe", cid, &topic)),
                None => None,
            },
            Plan::Publish(channel, data) => match &self.session_id {
                Some(cid) => Some(publish_message(&channel, cid, data)),
                None => None,
            },
        };
        match msg {
            None => {
                self.settle();
                Action::Fail(Error::NoSession)
            },
            Some(m) => {
                if counts {
                    self.bump_retries();
                }
                self.awaiting = Some(keep);
                proof {
                    assert(self@ =~= issue(old(self)@, plan.deep_view(), keep, counts).0);
                }
                Action::Send(m)
            },
        }
    }

    /// Runs pending work until the machine must send, finishes, or fails.
    fn step_drain(&mut self) -> (r: Action)
        ensures
            ({
                let (s, a) = drain(old(self)@);
                final(self)@ == s && r.deep_view() == a
            }),
        decreases work_measure(self@.work), 0int,
    {
        if self.work.len() == 0 {
            let mut out: Vec<StreamResponse> = Vec::new();
            core::mem::swap(&mut out, &mut self.acc);
            self.op = Op::Idle;
            self.awaiting = None;
            proof {
                assert(self.acc.deep_view() =~= Seq::<StreamResponseV>::empty());
                assert(self@ =~= settled(old(self)@));
            }
            Action::Done(out)
        } else {
            let top = match self.work.pop() {
                Some(w) => w,
                None => {
                    // never reached: the stack was just checked to be non-empty
                    return Action::Fail(Error::NoSession);
                },
            };
            proof {
                assert(self.work.deep_view() =~= old(self)@.work.drop_last());
                assert(top.deep_view() == old(self)@.work.last());
            }
            match top {
                Work::ResetRetries => {
                    self.retries = 0;
                    self.step_drain()
                },
                Work::Send { plan, keep, counts } => self.issue_send(plan, keep, counts),
                Work::Batch { frames, keep } => self.step_frames(frames, keep),
            }
        }
    }

    /// Processes the frames of one reply, front first.
    fn step_frames(&mut self, frames: Vec<StreamResponse>, keep: bool) -> (r: Action)
        ensures
            ({
                let (s, a) = process_frames(old(self)@, frames.deep_view(), keep);
                final(self)@ == s && r.deep_view() == a
            }),
        decreases work_measure(self@.work) + 2 * frames.deep_view().len(), 1int,
    {
        let mut frames = frames;
        if frames.len() == 0 {
            return self.step_drain();
        }
        let ghost all = frames.deep_view();
        let f = frames.remove(0);
        proof {
            assert(f.deep_view() == all[0]);
            assert(frames.deep_view() =~= all.drop_first());
        }
        if let StreamResponse::Handshake(h) = &f {
            if h.successful {
                self.session_id = Some(h.client_id.clone());
            }
        }
        match &f {
            StreamResponse::ErroredResponse(e) => {
                match e.advice {
                    Some(a) => {
                        let err = Some(e.error.clone());
                        self.follow_advice(frames, keep, a, err)
                    },
                    None => {
                        let mut m = String::from_str(
                            "Not retrying because the server did not provide advice",
                        );
                        m.append(e.error.as_str());
                        self.settle();
                        Action::Fail(Error::ProtocolError(m))
                    },
                }
            },
            _ => {
                match f.advice() {
                    Some(a) => self.follow_advice(frames, keep, a, None),
                    None => {
                        let ghost fv = f.deep_view();
                        let ghost before = self@;
                        if keep {
                            let ghost acc0 = self.acc.deep_view();
                            self.acc.push(f);
                            proof {
                                assert(self.acc.deep_view() =~= acc0.push(fv));
                                assert(self@ =~= (ClientV { acc: before.acc.push(fv), ..before }));
                            }
                        }
                        self.step_frames(frames, keep)
                    },
                }
            },
        }
    }

    /// The advice-directed recovery procedure over the shared budget.
    fn follow_advice(
        &mut self,
        rest: Vec<StreamResponse>,
        keep: bool,
        a: Advice,
        err: Option<String>,
    ) -> (r: Action)
        ensures
            ({
                let (s, act) = follow_advice(old(self)@, rest.deep_view(), keep, a, err.deep_view());
                final(self)@ == s && r.deep_view() == act
            }),
        decreases work_measure(self@.work) + 2 * rest.deep_view().len() + 1, 1int,
    {
        match a.reconnect {
            Reconnect::Stop => {
                let m = match err {
                    Some(e) => e,
                    None => String::from_str("Service advised not to reconnect nor handshake"),
                };
                self.settle();
                Action::Fail(Error::ProtocolError(m))
            },
            Reconnect::Retry => {
                if self.retries <= self.max_retries as i16 {
                    proof {
                        self.cycles@ = self.cycles@ + 1;
                    }
                    let ghost c1 = ClientV { cycles: old(self)@.cycles + 1, ..old(self)@ };
                    let ghost plans = target_plans(c1.op, c1.subscriptions);
                    let is_subscribe = match &self.op {
                        Op::Subscribe => true,
                        _ => false,
                    };
                    if is_subscribe {
                        if self.subscriptions.len() == 0 {
                            proof {
                                assert(subscribe_plans(c1.subscriptions).len() == 0);
                            }
                            return self.step_frames(rest, keep);
                        }
                        let ghost w0 = self.work.deep_view();
                        self.work.push(Work::Batch { frames: rest, keep });
                        push_sub_sends(&mut self.work, &self.subscriptions, 1, keep, true);
                        let topic = self.subscriptions[0].clone();
                        proof {
                            assert(subscribe_plans(c1.subscriptions).skip(1)
                                =~= plans.drop_first());
                            assert(self.work.deep_view() =~= c1.work.push(
                                WorkV::Batch { frames: rest.deep_view(), keep },
                            ) + sends_reversed(plans.drop_first(), keep, true));
                        }
                        self.issue_send(Plan::Subscribe(topic), keep, true)
                    } else {
                        let target: Option<Plan> = match &self.op {
                            Op::Idle => None,
                            Op::Init => Some(Plan::Handshake),
                            Op::Connect => Some(Plan::Connect),
                            Op::Disconnect => Some(Plan::Disconnect),
                            Op::Subscribe => None,
                            Op::Unsubscribe(t) => Some(Plan::Unsubscribe(t.clone())),
                            Op::Publish(c, d) => Some(Plan::Publish(c.clone(), d.clone())),
                        };
                        match target {
                            None => self.step_frames(rest, keep),
                            Some(p) => {
                                self.work.push(Work::Batch { frames: rest, keep });
                                proof {
                                    assert(plans.drop_first() =~= Seq::<PlanV>::empty());
                                    assert(sends_reversed(plans.drop_first(), keep, true)
                                        =~= Seq::<WorkV>::empty());
                                    assert(self.work.deep_view() =~= c1.work.push(
                                        WorkV::Batch { frames: rest.deep_view(), keep },
                                    ) + sends_reversed(plans.drop_first(), keep, true));
                                }
                                self.issue_send(p, keep, true)
                            },
                        }
                    }
                } else {
                    let m = match err {
                        Some(e) => e,
                        None => String::from_str("Max retries reached"),
                    };
                    self.settle();
                    Action::Fail(Error::ProtocolError(m))
                }
            },
            Reconnect::Handshake => {
                if self.retries <= self.max_retries as i16 {
                    proof {
                        self.cycles@ = self.cycles@ + 1;
                    }
                    let ghost c1 = ClientV { cycles: old(self)@.cycles + 1, ..old(self)@ };
                    let ghost plans = target_plans(c1.op, c1.subscriptions);
                    self.work.push(Work::Batch { frames: rest, keep });
                    let is_subscribe = match &self.op {
                        Op::Subscribe => true,
                        _ => false,
                    };
                    if is_subscribe {
                        push_sub_sends(&mut self.work, &self.subscriptions, 0, keep, true);
                        proof {
                            assert(subscribe_plans(c1.subscriptions).skip(0)
                                =~= subscribe_plans(c1.subscriptions));
                        }
                    } else {
                        let target: Option<Plan> = match &self.op {
                            Op::Idle => None,
                            Op::Init => Some(Plan::Handshake),
                            Op::Connect => Some(Plan::Connect),
                            Op::Disconnect => Some(Plan::Disconnect),
                            Op::Subscribe => None,
                            Op::Unsubscribe(t) => Some(Plan::Unsubscribe(t.clone())),
                            Op::Publish(c, d) => Some(Plan::Publish(c.clone(), d.clone())),
                        };
                        match target {
                            None => {
                                proof {
                                    assert(sends_reversed(plans, keep, true)
                                        =~= Seq::<WorkV>::empty());
                                }
                            },
                            Some(p) => {
                                self.work.push(Work::Send { plan: p, keep, counts: true });
                                proof {
                                    assert(sends_reversed(plans, keep, true) =~= seq![
                                        self.work.deep_view().last(),
                                    ]);
                                }
                            },
                        }
                    }
                    push_sub_sends(&mut self.work, &self.subscriptions, 0, false, false);
                    proof {
                        assert(subscribe_plans(c1.subscriptions).skip(0)
                            =~= subscribe_plans(c1.subscriptions));
                        assert(self.work.deep_view() =~= c1.work.push(
                            WorkV::Batch { frames: rest.deep_view(), keep },
                        ) + sends_reversed(plans, keep, true) + sends_reversed(
                            subscribe_plans(c1.subscriptions),
                            false,
                            false,
                        ));
                    }
                    self.issue_send(Plan::Handshake, false, true)
                } else {
                    let m = match err {
                        Some(e) => e,
                        None => String::from_str("Max retries reached"),
                    };
                    self.settle();
                    Action::Fail(Error::ProtocolError(m))
                }
            },
        }
    }

    /// Begins an operation: lays out its work and runs to the first send.
    fn begin(&mut self, op: Op) -> (r: Action)
        ensures
            ({
                let (s, a) = start(old(self)@, op.deep_view());
                final(self)@ == s && r.deep_view() == a
            }),
    {
        let needs = match &op {
            Op::Idle => false,
            Op::Init => false,
            _ => true,
        };
        self.acc = Vec::new();
        self.awaiting = None;
        self.cycles = Ghost(0);
        self.work = Vec::new();
        if needs && self.session_id.is_none() {
            self.op = Op::Idle;
            proof {
                assert(self.work.deep_view() =~= Seq::<WorkV>::empty());
                assert(self.acc.deep_view() =~= Seq::<StreamResponseV>::empty());
                assert(self@ =~= settled(
                    ClientV {
                        op: op.deep_view(),
                        work: initial_work(op.deep_view(), old(self)@.subscriptions),
                        acc: Seq::empty(),
                        awaiting: None,
                        cycles: 0,
                        ..old(self)@
                    },
                ));
            }
            return Action::Fail(Error::NoSession);
        }
        match &op {
            Op::Init => {
                push_sub_sends(&mut self.work, &self.subscriptions, 0, false, false);
                self.work.push(Work::ResetRetries);
                self.work.push(Work::Send { plan: Plan::Handshake, keep: true, counts: true });
            },
            Op::Connect => {
                self.work.push(Work::ResetRetries);
                self.work.push(Work::Send { plan: Plan::Connect, keep: true, counts: true });
            },
            Op::Disconnect => {
                self.work.push(Work::Send { plan: Plan::Disconnect, keep: true, counts: false });
            },
            Op::Subscribe => {
                push_sub_sends(&mut self.work, &self.subscriptions, 0, false, false);
            },
            Op::Unsubscribe(t) => {
                let topic = t.clone();
                self.work.push(
                    Work::Send { plan: Plan::Unsubscribe(topic), keep: true, counts: false },
                );
            },
            Op::Publish(c, d) => {
                let channel = c.clone();
                let data = d.clone();
                self.work.push(
                    Work::Send { plan: Plan::Publish(channel, data), keep: true, counts: false },
                );
            },
            Op::Idle => {},
        }
        self.op = op;
        proof {
            assert(subscribe_plans(old(self)@.subscriptions).skip(0)
                =~= subscribe_plans(old(self)@.subscriptions));
            assert(self@ =~= (ClientV {
                op: self.op.deep_view(),
                work: initial_work(self.op.deep_view(), old(self)@.subscriptions),
                acc: Seq::empty(),
                awaiting: None,
                cycles: 0,
                ..old(self)@
            }));
        }
        self.step_drain()
    }

    /// Establishes a session — a handshake with the fixed protocol version —
    /// and then subscribes every registered topic. The batch returned on
    /// completion holds the handshake exchange's frames.
    pub fn init(&mut self) -> (r: Action)
        ensures
            ({
                let (s, a) = start(old(self)@, OpV::Init);
                final(self)@ == s && r.deep_view() == a
            }),
    {
        self.begin(Op::Init)
    }

    /// The long-poll exchange: requires a session; the transport is expected
    /// to block until the server has data. Its outermost success resets the
    /// retry budget.
    pub fn connect(&mut self) -> (r: Action)
        ensures
            ({
                let (s, a) = start(old(self)@, OpV::Connect);
                final(self)@ == s && r.deep_view() == a
            }),
    {
        self.begin(Op::Connect)
    }

    /// Ends the server-side session. The local session id is kept even on
    /// success, exactly as documented: the core never clears it.
    pub fn disconnect(&mut self) -> (r: Action)
        ensures
            ({
                let (s, a) = start(old(self)@, OpV::Disconnect);
                final(self)@ == s && r.deep_view() == a
            }),
    {
        self.begin(Op::Disconnect)
    }

    /// Subscribes every registered topic, one exchange per topic, in order,
    /// stopping at the first failure.
    pub fn subscribe(&mut self) -> (r: Action)
        ensures
            ({
                let (s, a) = start(old(self)@, OpV::Subscribe);
                final(self)@ == s && r.deep_view() == a
            }),
    {
        self.begin(Op::Subscribe)
    }

    /// Unsubscribes one topic. The topic registry itself is fixed at
    /// construction and is not changed by this call.
    pub fn unsubscribe(&mut self, subscription: &str) -> (r: Action)
        ensures
            ({
                let (s, a) = start(old(self)@, OpV::Unsubscribe(subscription@));
                final(self)@ == s && r.deep_view() == a
            }),
    {
        let topic = String::from_str(subscription);
        self.begin(Op::Unsubscribe(topic))
    }

    /// Publishes caller data on a channel; requires a session.
    pub fn publish(&mut self, channel: &str, data: Json) -> (r: Action)
        ensures
            ({
                let (s, a) = start(old(self)@, OpV::Publish(channel@, json_view(data)));
                final(self)@ == s && r.deep_view() == a
            }),
    {
        let ch = String::from_str(channel);
        self.begin(Op::Publish(ch, data))
    }

    /// Feeds the reply of the exchange in flight. A transport or decode
    /// failure ends the operation at once — such failures are never retried;
    /// otherwise the frames are classified and processed in order, which may
    /// ask for further exchanges.
    pub fn on_exchange(&mut self, outcome: Result<Vec<Json>, Error>) -> (r: Action)
        requires
            old(self)@.awaiting is Some,
        ensures
            ({
                let (s, a) = exchange(old(self)@, outcome_view(outcome));
                final(self)@ == s && r.deep_view() == a
            }),
    {
        let keep = match self.awaiting {
            Some(k) => k,
            None => false,  // unreachable: an exchange is in flight
        };
        self.awaiting = None;
        proof {
            assert(self@ =~= (ClientV { awaiting: None, ..old(self)@ }));
        }
        match outcome {
            Result::Err(e) => {
                self.settle();
                Action::Fail(e)
            },
            Result::Ok(vals) => {
                proof {
                    crate::json::lemma_arr_views(vals@);
                    assert(vals.deep_view() =~= crate::json::arr_views(vals@));
                }
                match classify(&vals) {
                    Result::Err(e) => {
                        self.settle();
                        Action::Fail(e)
                    },
                    Result::Ok(frames) => self.step_frames(frames, keep),
                }
            },
        }
    }
}

} // verus!
