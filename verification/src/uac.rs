//! The client (UAC) INVITE transaction state machine of RFC 3261
//! §17.1.1 with the RFC 6026 `Accepted` overlay. Transitions are pure:
//! each step takes the monotonic clock reading and an optional inbound
//! response, moves the machine, and returns the effects — sends and
//! transaction-user notifications — for the caller to perform.

use vstd::prelude::*;

use crate::errors::Error;
use crate::message::{
    ack_headers, req_like, resp_like, spec_call_id, spec_cseq, spec_from, spec_to, spec_via,
    spec_transaction_id, Request, Response, Role, TransactionId,
};
use crate::status::{is_failure_final, is_provisional, is_successful};

verus! {

/// The base RFC 3261 timer, in milliseconds.
pub const TIMER_T1: u64 = 500;

/// The retransmission interval cap, in milliseconds.
pub const TIMER_T2: u64 = 4000;

/// Timer B, the transaction timeout: fires this long after entering
/// `Calling` when no response has arrived.
pub const TIMER_B: u64 = 64 * TIMER_T1;

/// Timer M: how long `Accepted` absorbs 2xx retransmissions.
pub const TIMER_M: u64 = 64 * TIMER_T1;

/// Timer D: how long `Completed` absorbs final-response
/// retransmissions on an unreliable transport.
pub const TIMER_D: u64 = 32000;

/// The initial state: the request is in flight and retransmitted.
#[derive(Clone, Copy, Debug)]
pub struct Calling {
    pub entered_at: u64,
    pub last_retransmit: u64,
    pub retransmit_count: u32,
}

/// A provisional response has arrived.
#[derive(Debug)]
pub struct Proceeding {
    pub response: Response,
    pub entered_at: u64,
}

/// A non-2xx final response has arrived and been acknowledged.
#[derive(Debug)]
pub struct Completed {
    pub response: Response,
    pub entered_at: u64,
}

/// A 2xx final response has arrived (RFC 6026).
#[derive(Debug)]
pub struct Accepted {
    pub response: Response,
    pub entered_at: u64,
}

/// The machine is done; late retransmissions are absorbed and dropped.
#[derive(Debug)]
pub struct Terminated {
    pub response: Option<Response>,
    pub entered_at: u64,
}

/// The machine failed; the diagnostic and the offending response, if
/// any, are kept.
#[derive(Debug)]
pub struct Errored {
    pub response: Option<Response>,
    pub error: String,
    pub entered_at: u64,
}

/// The state of a client INVITE transaction.
#[derive(Debug)]
pub enum TrxState {
    Calling(Calling),
    Proceeding(Proceeding),
    Completed(Completed),
    Accepted(Accepted),
    Terminated(Terminated),
    Errored(Errored),
}

/// Each state's name.
pub open spec fn state_name_text(s: TrxState) -> Seq<char> {
    match s {
        TrxState::Calling(_) => "Calling"@,
        TrxState::Proceeding(_) => "Proceeding"@,
        TrxState::Completed(_) => "Completed"@,
        TrxState::Accepted(_) => "Accepted"@,
        TrxState::Terminated(_) => "Terminated"@,
        TrxState::Errored(_) => "Errored"@,
    }
}

impl TrxState {
    /// The state's name, for diagnostics.
    pub fn name(&self) -> (r: String)
        ensures
            r@ == state_name_text(*self),
    {
        let r = match self {
            TrxState::Calling(_) => String::from_str("Calling"),
            TrxState::Proceeding(_) => String::from_str("Proceeding"),
            TrxState::Completed(_) => String::from_str("Completed"),
            TrxState::Accepted(_) => String::from_str("Accepted"),
            TrxState::Terminated(_) => String::from_str("Terminated"),
            TrxState::Errored(_) => String::from_str("Errored"),
        };
        r
    }
}

/// An action the caller performs after a step: the machine itself does
/// no input or output.
#[derive(Debug)]
pub enum Effect {
    /// Retransmit the transaction's request to the peer.
    SendRequest(Request),
    /// Send the ACK for a non-2xx final response.
    SendAck(Request),
    /// Hand a received response to the transaction user.
    NotifyTu(Response),
}

/// How far a state is along the transaction's life. Every transition
/// moves rank forward or holds it.
pub open spec fn rank(s: TrxState) -> int {
    match s {
        TrxState::Calling(_) => 0,
        TrxState::Proceeding(_) => 1,
        TrxState::Accepted(_) => 2,
        TrxState::Completed(_) => 2,
        TrxState::Terminated(_) => 3,
        TrxState::Errored(_) => 3,
    }
}

/// A state the machine never leaves.
pub open spec fn is_terminal(s: TrxState) -> bool {
    s is Terminated || s is Errored
}

/// Whether Timer B has fired: 64·T1 after entering `Calling`.
pub open spec fn timer_b_expired(c: Calling, now: u64) -> bool {
    now >= c.entered_at + TIMER_B
}

/// The wait before the next retransmission: T1 doubled after each
/// retransmission, capped at T2.
pub open spec fn retransmit_interval(count: u32) -> u64 {
    if count == 0 {
        TIMER_T1
    } else if count == 1 {
        (2 * TIMER_T1) as u64
    } else if count == 2 {
        (4 * TIMER_T1) as u64
    } else {
        TIMER_T2
    }
}

/// Whether the next retransmission is due.
pub open spec fn retransmit_due(c: Calling, now: u64) -> bool {
    now >= c.last_retransmit + retransmit_interval(c.retransmit_count)
}

/// Whether Timer D has fired for a `Completed` state.
pub open spec fn timer_d_expired(c: Completed, now: u64) -> bool {
    now >= c.entered_at + TIMER_D
}

/// Whether Timer M has fired for an `Accepted` state.
pub open spec fn timer_m_expired(a: Accepted, now: u64) -> bool {
    now >= a.entered_at + TIMER_M
}

/// The retransmission bookkeeping of `Calling` is consistent: the
/// retransmissions happened after entry, at least T1 apart.
pub open spec fn calling_wf(c: Calling) -> bool {
    &&& c.entered_at <= c.last_retransmit
    &&& c.entered_at + c.retransmit_count * TIMER_T1 <= c.last_retransmit
}

/// Every timestamp the state holds has already passed at `now`.
pub open spec fn state_times_le(s: TrxState, now: u64) -> bool {
    match s {
        TrxState::Calling(c) => c.entered_at <= now && c.last_retransmit <= now,
        TrxState::Proceeding(p) => p.entered_at <= now,
        TrxState::Completed(c) => c.entered_at <= now,
        TrxState::Accepted(a) => a.entered_at <= now,
        TrxState::Terminated(t) => t.entered_at <= now,
        TrxState::Errored(e) => e.entered_at <= now,
    }
}

/// Whether the ACK for `resp` can be built from `req`: the request
/// carries Via, From, Call-ID and CSeq, and the response carries To.
pub open spec fn ack_buildable(req: Request, resp: Response) -> bool {
    &&& spec_via(req.headers@) is Some
    &&& spec_from(req.headers@) is Some
    &&& spec_call_id(req.headers@) is Some
    &&& spec_cseq(req.headers@) is Some
    &&& spec_to(resp.headers@) is Some
}

/// Whether `ack` is the ACK for the final response `resp` to `req`.
pub open spec fn is_ack_for(ack: Request, req: Request, resp: Response) -> bool {
    &&& ack.method == crate::message::Method::Ack
    &&& ack.uri == req.uri
    &&& ack.headers@ == ack_headers(req.headers@, resp.headers@)
}

/// The effects are one notification of `r` to the transaction user.
pub open spec fn one_notify(effects: Seq<Effect>, r: Response) -> bool {
    &&& effects.len() == 1
    &&& effects[0] is NotifyTu
    &&& resp_like(effects[0]->NotifyTu_0, r)
}

/// The diagnostic of a response no transition is defined for.
pub open spec fn no_transition_text() -> Seq<char> {
    "no transition for this response class"@
}

/// The diagnostic of a final response whose ACK could not be built.
pub open spec fn ack_failed_text() -> Seq<char> {
    "the ACK could not be built"@
}

/// The state is `Errored` with the given offending response and
/// diagnostic, entered at `now`.
pub open spec fn errored_with(s: TrxState, resp: Option<Response>, now: u64, text: Seq<char>) -> bool {
    &&& s is Errored
    &&& s->Errored_0.response == resp
    &&& s->Errored_0.entered_at == now
    &&& s->Errored_0.error@ == text
}

/// What a timer step (no response) does, by the state it starts from.
pub open spec fn tick_rel(pre: TrxStateMachine, now: u64, post: TrxStateMachine, effects: Seq<
    Effect,
>) -> bool {
    match pre.state {
        TrxState::Calling(c) => if timer_b_expired(c, now) {
            &&& post.state == TrxState::Terminated(Terminated { response: None, entered_at: now })
            &&& effects.len() == 0
        } else if retransmit_due(c, now) {
            &&& post.state == TrxState::Calling(
                Calling {
                    entered_at: c.entered_at,
                    last_retransmit: now,
                    retransmit_count: (c.retransmit_count + 1) as u32,
                },
            )
            &&& effects.len() == 1
            &&& effects[0] is SendRequest
            &&& req_like(effects[0]->SendRequest_0, pre.request)
        } else {
            post.state == pre.state && effects.len() == 0
        },
        TrxState::Proceeding(_) => post.state == pre.state && effects.len() == 0,
        TrxState::Completed(c) => if timer_d_expired(c, now) {
            &&& post.state is Terminated
            &&& post.state->Terminated_0.entered_at == now
            &&& post.state->Terminated_0.response is Some
            &&& resp_like(post.state->Terminated_0.response.unwrap(), c.response)
            &&& effects.len() == 0
        } else {
            post.state == pre.state && effects.len() == 0
        },
        TrxState::Accepted(a) => if timer_m_expired(a, now) {
            &&& post.state is Terminated
            &&& post.state->Terminated_0.entered_at == now
            &&& post.state->Terminated_0.response is Some
            &&& resp_like(post.state->Terminated_0.response.unwrap(), a.response)
            &&& effects.len() == 0
        } else {
            post.state == pre.state && effects.len() == 0
        },
        TrxState::Terminated(_) => post.state == pre.state && effects.len() == 0,
        TrxState::Errored(_) => post.state == pre.state && effects.len() == 0,
    }
}

/// What receiving a response does, by the state and the response class.
pub open spec fn recv_rel(pre: TrxStateMachine, r: Response, now: u64, post: TrxStateMachine, effects: Seq<
    Effect,
>) -> bool {
    match pre.state {
        TrxState::Calling(_) => if is_provisional(r.code) {
            &&& post.state == TrxState::Proceeding(Proceeding { response: r, entered_at: now })
            &&& one_notify(effects, r)
        } else if is_successful(r.code) {
            &&& post.state == TrxState::Accepted(Accepted { response: r, entered_at: now })
            &&& one_notify(effects, r)
        } else if is_failure_final(r.code) {
            final_failure_rel(pre, r, now, post, effects)
        } else {
            errored_with(post.state, Some(r), now, no_transition_text()) && effects.len() == 0
        },
        TrxState::Proceeding(p) => if is_provisional(r.code) {
            &&& post.state == TrxState::Proceeding(
                Proceeding { response: r, entered_at: p.entered_at },
            )
            &&& one_notify(effects, r)
        } else if is_successful(r.code) {
            &&& post.state == TrxState::Accepted(Accepted { response: r, entered_at: now })
            &&& one_notify(effects, r)
        } else if is_failure_final(r.code) {
            final_failure_rel(pre, r, now, post, effects)
        } else {
            errored_with(post.state, Some(r), now, no_transition_text()) && effects.len() == 0
        },
        TrxState::Accepted(a) => if is_successful(r.code) {
            &&& post.state == TrxState::Accepted(Accepted { response: r, entered_at: a.entered_at })
            &&& one_notify(effects, r)
        } else {
            errored_with(post.state, Some(r), now, no_transition_text()) && effects.len() == 0
        },
        TrxState::Completed(c) => if is_failure_final(r.code) {
            if ack_buildable(pre.request, r) {
                &&& post.state == TrxState::Completed(
                    Completed { response: r, entered_at: c.entered_at },
                )
                &&& effects.len() == 2
                &&& effects[0] is NotifyTu
                &&& resp_like(effects[0]->NotifyTu_0, r)
                &&& effects[1] is SendAck
                &&& is_ack_for(effects[1]->SendAck_0, pre.request, r)
            } else {
                errored_with(post.state, Some(r), now, ack_failed_text()) && one_notify(effects, r)
            }
        } else {
            errored_with(post.state, Some(r), now, no_transition_text()) && effects.len() == 0
        },
        TrxState::Terminated(_) => post.state == pre.state && effects.len() == 0,
        TrxState::Errored(_) => post.state == pre.state && effects.len() == 0,
    }
}

/// A non-2xx final response in `Calling` or `Proceeding`: the user is
/// notified, the ACK is sent, and the machine completes; when the ACK
/// cannot be built the machine errors instead.
pub open spec fn final_failure_rel(pre: TrxStateMachine, r: Response, now: u64, post: TrxStateMachine, effects: Seq<
    Effect,
>) -> bool {
    if ack_buildable(pre.request, r) {
        &&& post.state == TrxState::Completed(Completed { response: r, entered_at: now })
        &&& effects.len() == 2
        &&& effects[0] is NotifyTu
        &&& resp_like(effects[0]->NotifyTu_0, r)
        &&& effects[1] is SendAck
        &&& is_ack_for(effects[1]->SendAck_0, pre.request, r)
    } else {
        &&& errored_with(post.state, Some(r), now, ack_failed_text())
        &&& one_notify(effects, r)
    }
}

/// One step of the machine: the frozen fields are kept, and the state
/// and effects follow the timer or response rules.
pub open spec fn next_rel(pre: TrxStateMachine, event: Option<Response>, now: u64, post: TrxStateMachine, effects: Seq<
    Effect,
>) -> bool {
    &&& post.id == pre.id
    &&& post.request == pre.request
    &&& post.created_at == pre.created_at
    &&& match event {
        None => tick_rel(pre, now, post, effects),
        Some(r) => recv_rel(pre, r, now, post, effects),
    }
}

/// How many ACKs a list of effects sends.
pub open spec fn count_acks(effects: Seq<Effect>) -> int
    decreases effects.len(),
{
    if effects.len() == 0 {
        0
    } else {
        (if effects.last() is SendAck {
            1int
        } else {
            0int
        }) + count_acks(effects.drop_last())
    }
}

/// Timer B fires 64·T1 after `Calling` entry: a timer step taken at or
/// after that deadline — in particular anywhere within T1 of it —
/// terminates a machine no response reached; one taken before the
/// deadline leaves it calling.
pub proof fn lemma_timer_b_window(
    pre: TrxStateMachine,
    now: u64,
    post: TrxStateMachine,
    effects: Seq<Effect>,
)
    requires
        pre.state is Calling,
        next_rel(pre, None, now, post, effects),
    ensures
        now >= pre.state->Calling_0.entered_at + TIMER_B ==> post.state is Terminated
            && post.state->Terminated_0.entered_at == now,
        now < pre.state->Calling_0.entered_at + TIMER_B ==> post.state is Calling,
{
}

/// Every non-2xx final response reaching the machine — the first and
/// every retransmission a `Completed` machine absorbs — is answered
/// with exactly one ACK, the user is notified of each, and the machine
/// ends the step `Completed`.
pub proof fn lemma_one_ack_per_final_response(
    pre: TrxStateMachine,
    r: Response,
    now: u64,
    post: TrxStateMachine,
    effects: Seq<Effect>,
)
    requires
        next_rel(pre, Some(r), now, post, effects),
        is_failure_final(r.code),
        ack_buildable(pre.request, r),
        pre.state is Completed || pre.state is Calling || pre.state is Proceeding,
    ensures
        count_acks(effects) == 1,
        post.state is Completed,
{
    let head = effects.drop_last();
    assert(effects.len() == 2);
    assert(effects.last() == effects[1]);
    assert(head.len() == 1);
    assert(head.last() == effects[0]);
    assert(head.drop_last().len() == 0);
    assert(count_acks(head.drop_last()) == 0);
    assert(!(effects[0] is SendAck));
    assert(count_acks(head) == 0);
    assert(count_acks(effects) == 1);
}

/// The edges of the client INVITE transaction graph, self-loops
/// included: every reachable move of the machine is one of these.
pub open spec fn rfc_step(pre: TrxState, post: TrxState) -> bool {
    ||| pre is Calling
    ||| pre is Proceeding && (post is Proceeding || post is Accepted || post is Completed
        || post is Errored)
    ||| pre is Accepted && (post is Accepted || post is Terminated || post is Errored)
    ||| pre is Completed && (post is Completed || post is Terminated || post is Errored)
    ||| pre is Terminated && post is Terminated
    ||| pre is Errored && post is Errored
}

/// Along any walk made of transaction-graph edges, the rank never
/// decreases and a terminal state is never left: the visited states
/// are a monotone prefix of an RFC path.
pub proof fn lemma_trace_monotonic(trace: Seq<TrxState>, i: int, j: int)
    requires
        forall|k: int| 0 <= k < trace.len() - 1 ==> #[trigger] rfc_step(trace[k], trace[k + 1]),
        0 <= i <= j < trace.len(),
    ensures
        rank(trace[i]) <= rank(trace[j]),
        is_terminal(trace[i]) ==> trace[j] == trace[i] || (trace[i] is Terminated
            && trace[j] is Terminated) || (trace[i] is Errored && trace[j] is Errored),
    decreases j - i,
{
    if i < j {
        assert(rfc_step(trace[i], trace[i + 1]));
        lemma_trace_monotonic(trace, i + 1, j);
    }
}

/// A client INVITE transaction: the identifier, the request it was
/// created for, the clock reading at creation, and the current state.
#[derive(Debug)]
pub struct TrxStateMachine {
    pub id: TransactionId,
    pub state: TrxState,
    pub request: Request,
    pub created_at: u64,
}

/// The machine's internal consistency, established at creation and
/// preserved by every step.
pub open spec fn machine_wf(m: TrxStateMachine) -> bool {
    match m.state {
        TrxState::Calling(c) => calling_wf(c),
        _ => true,
    }
}

impl TrxStateMachine {
    /// A new client transaction for an outbound request, entering
    /// `Calling` at the given clock reading. Fails exactly when the
    /// request carries no transaction identifier.
    pub fn new(request: Request, now: u64) -> (r: Result<Self, Error>)
        ensures
            match r {
                Ok(m) => ({
                    &&& spec_transaction_id(request.headers@, Role::Uac) == Some(m.id)
                    &&& m.request == request
                    &&& m.created_at == now
                    &&& m.state == TrxState::Calling(
                        Calling { entered_at: now, last_retransmit: now, retransmit_count: 0 },
                    )
                    &&& machine_wf(m)
                    &&& state_times_le(m.state, now)
                }),
                Err(e) => spec_transaction_id(request.headers@, Role::Uac) is None
                    && e.kind is Parse,
            },
    {
        let id = match request.transaction_id(Role::Uac) {
            Ok(id) => id,
            Err(e) => {
                return Err(e);
            },
        };
        Ok(TrxStateMachine {
            id,
            state: TrxState::Calling(
                Calling { entered_at: now, last_retransmit: now, retransmit_count: 0 },
            ),
            request,
            created_at: now,
        })
    }

    /// Whether the machine still takes part in matching: false once it
    /// is terminated or errored.
    pub fn is_active(&self) -> (r: bool)
        ensures
            r == !is_terminal(self.state),
    {
        match &self.state {
            TrxState::Terminated(_) => false,
            TrxState::Errored(_) => false,
            _ => true,
        }
    }

    /// A transport failure: the machine errors with the reason, unless
    /// it is already terminal, which absorbs the report.
    pub fn transport_error(&mut self, reason: String, now: u64)
        ensures
            final(self).id == old(self).id,
            final(self).request == old(self).request,
            final(self).created_at == old(self).created_at,
            is_terminal(old(self).state) ==> final(self).state == old(self).state,
            !is_terminal(old(self).state) ==> errored_with(final(self).state, None, now, reason@)
                && final(self).state->Errored_0.error == reason,
            machine_wf(*final(self)),
            rank(final(self).state) >= rank(old(self).state),
            rfc_step(old(self).state, final(self).state),
    {
        match &self.state {
            TrxState::Terminated(_) => (),
            TrxState::Errored(_) => (),
            _ => {
                self.state = TrxState::Errored(
                    Errored { response: None, error: reason, entered_at: now },
                );
            },
        }
    }

    /// One step of the machine at clock reading `now`: an inbound
    /// response when one arrived, a timer wake-up otherwise. Returns
    /// the effects for the caller to perform.
    pub fn next(&mut self, response: Option<Response>, now: u64) -> (effects: Vec<Effect>)
        requires
            machine_wf(*old(self)),
            state_times_le(old(self).state, now),
        ensures
            next_rel(*old(self), response, now, *final(self), effects@),
            machine_wf(*final(self)),
            state_times_le(final(self).state, now),
            rank(final(self).state) >= rank(old(self).state),
            rfc_step(old(self).state, final(self).state),
            is_terminal(old(self).state) ==> final(self).state == old(self).state
                && effects@.len() == 0,
    {
        match response {
            Some(r) => self.next_step_with(r, now),
            None => self.next_step(now),
        }
    }

    /// A timer wake-up: retransmit or time out `Calling`, expire
    /// Timer D in `Completed` and Timer M in `Accepted`.
    fn next_step(&mut self, now: u64) -> (effects: Vec<Effect>)
        requires
            machine_wf(*old(self)),
            state_times_le(old(self).state, now),
        ensures
            next_rel(*old(self), None, now, *final(self), effects@),
            machine_wf(*final(self)),
            state_times_le(final(self).state, now),
            rank(final(self).state) >= rank(old(self).state),
            rfc_step(old(self).state, final(self).state),
            is_terminal(old(self).state) ==> final(self).state == old(self).state
                && effects@.len() == 0,
    {
        let mut effects: Vec<Effect> = Vec::new();
        match &self.state {
            TrxState::Calling(c) => {
                if now - c.entered_at >= TIMER_B {
                    self.state = TrxState::Terminated(
                        Terminated { response: None, entered_at: now },
                    );
                } else {
                    let interval = if c.retransmit_count == 0 {
                        TIMER_T1
                    } else if c.retransmit_count == 1 {
                        2 * TIMER_T1
                    } else if c.retransmit_count == 2 {
                        4 * TIMER_T1
                    } else {
                        TIMER_T2
                    };
                    if now - c.last_retransmit >= interval {
                        let next_calling = Calling {
                            entered_at: c.entered_at,
                            last_retransmit: now,
                            retransmit_count: c.retransmit_count + 1,
                        };
                        effects.push(Effect::SendRequest(self.request.clone()));
                        self.state = TrxState::Calling(next_calling);
                    }
                }
            },
            TrxState::Completed(c) => {
                if now - c.entered_at >= TIMER_D {
                    let response = c.response.clone();
                    self.state = TrxState::Terminated(
                        Terminated { response: Some(response), entered_at: now },
                    );
                }
            },
            TrxState::Accepted(a) => {
                if now - a.entered_at >= TIMER_M {
                    let response = a.response.clone();
                    self.state = TrxState::Terminated(
                        Terminated { response: Some(response), entered_at: now },
                    );
                }
            },
            _ => (),
        }
        effects
    }

    /// An inbound response: forward it to the transaction user where a
    /// transition is defined, acknowledge non-2xx final responses, and
    /// error on a response no transition is defined for. A terminal
    /// machine absorbs and drops the response.
    fn next_step_with(&mut self, r: Response, now: u64) -> (effects: Vec<Effect>)
        requires
            machine_wf(*old(self)),
            state_times_le(old(self).state, now),
        ensures
            next_rel(*old(self), Some(r), now, *final(self), effects@),
            machine_wf(*final(self)),
            state_times_le(final(self).state, now),
            rank(final(self).state) >= rank(old(self).state),
            rfc_step(old(self).state, final(self).state),
            is_terminal(old(self).state) ==> final(self).state == old(self).state
                && effects@.len() == 0,
    {
        let mut effects: Vec<Effect> = Vec::new();
        let code = r.code.code();
        let provisional = 100 <= code && code <= 199;
        let successful = 200 <= code && code <= 299;
        let failure_final = 300 <= code && code <= 699;
        match &self.state {
            TrxState::Calling(_) => {
                if provisional {
                    effects.push(Effect::NotifyTu(r.clone()));
                    self.state = TrxState::Proceeding(Proceeding { response: r, entered_at: now });
                } else if successful {
                    effects.push(Effect::NotifyTu(r.clone()));
                    self.state = TrxState::Accepted(Accepted { response: r, entered_at: now });
                } else if failure_final {
                    effects.push(Effect::NotifyTu(r.clone()));
                    match self.request.ack_request_from(&r) {
                        Ok(ack) => {
                            effects.push(Effect::SendAck(ack));
                            self.state = TrxState::Completed(
                                Completed { response: r, entered_at: now },
                            );
                        },
                        Err(_) => {
                            self.state = TrxState::Errored(
                                Errored {
                                    response: Some(r),
                                    error: String::from_str("the ACK could not be built"),
                                    entered_at: now,
                                },
                            );
                        },
                    }
                } else {
                    self.state = TrxState::Errored(
                        Errored {
                            response: Some(r),
                            error: String::from_str("no transition for this response class"),
                            entered_at: now,
                        },
                    );
                }
            },
            TrxState::Proceeding(p) => {
                if provisional {
                    let entered_at = p.entered_at;
                    effects.push(Effect::NotifyTu(r.clone()));
                    self.state = TrxState::Proceeding(Proceeding { response: r, entered_at });
                } else if successful {
                    effects.push(Effect::NotifyTu(r.clone()));
                    self.state = TrxState::Accepted(Accepted { response: r, entered_at: now });
                } else if failure_final {
                    effects.push(Effect::NotifyTu(r.clone()));
                    match self.request.ack_request_from(&r) {
                        Ok(ack) => {
                            effects.push(Effect::SendAck(ack));
                            self.state = TrxState::Completed(
                                Completed { response: r, entered_at: now },
                            );
                        },
                        Err(_) => {
                            self.state = TrxState::Errored(
                                Errored {
                                    response: Some(r),
                                    error: String::from_str("the ACK could not be built"),
                                    entered_at: now,
                                },
                            );
                        },
                    }
                } else {
                    self.state = TrxState::Errored(
                        Errored {
                            response: Some(r),
                            error: String::from_str("no transition for this response class"),
                            entered_at: now,
                        },
                    );
                }
            },
            TrxState::Accepted(a) => {
                if successful {
                    let entered_at = a.entered_at;
                    effects.push(Effect::NotifyTu(r.clone()));
                    self.state = TrxState::Accepted(Accepted { response: r, entered_at });
                } else {
                    self.state = TrxState::Errored(
                        Errored {
                            response: Some(r),
                            error: String::from_str("no transition for this response class"),
                            entered_at: now,
                        },
                    );
                }
            },
            TrxState::Completed(c) => {
                if failure_final {
                    let entered_at = c.entered_at;
                    effects.push(Effect::NotifyTu(r.clone()));
                    match self.request.ack_request_from(&r) {
                        Ok(ack) => {
                            effects.push(Effect::SendAck(ack));
                            self.state = TrxState::Completed(Completed { response: r, entered_at });
                        },
                        Err(_) => {
                            self.state = TrxState::Errored(
                                Errored {
                                    response: Some(r),
                                    error: String::from_str("the ACK could not be built"),
                                    entered_at: now,
                                },
                            );
                        },
                    }
                } else {
                    self.state = TrxState::Errored(
                        Errored {
                            response: Some(r),
                            error: String::from_str("no transition for this response class"),
                            entered_at: now,
                        },
                    );
                }
            },
            TrxState::Terminated(_) => (),
            TrxState::Errored(_) => (),
        }
        effects
    }
}

} // verus!
