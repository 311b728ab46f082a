//! The client transaction layer: the set of in-flight client INVITE
//! machines, keyed by transaction identifier. It creates a machine per
//! outbound request, matches each inbound response to its machine or
//! drops it with a counted warning, wakes timers, and evicts machines
//! that have terminated.

use vstd::prelude::*;

use crate::errors::Error;
use crate::message::{id_eq, req_like, spec_transaction_id, Request, Response, Role, TransactionId};
use crate::uac::{
    is_terminal, machine_wf, next_rel, state_times_le, Calling, Effect, TrxState, TrxStateMachine,
};

verus! {

/// The first machine matching the identifier, scanning from `i`.
pub open spec fn find_machine_from(ms: Seq<TrxStateMachine>, id: TransactionId, i: int) -> Option<
    int,
>
    decreases ms.len() - i,
{
    if i < 0 || i >= ms.len() {
        None
    } else if id_eq(ms[i].id, id) {
        Some(i)
    } else {
        find_machine_from(ms, id, i + 1)
    }
}

/// The index of the machine the identifier matches, if any.
pub open spec fn spec_find_machine(ms: Seq<TrxStateMachine>, id: TransactionId) -> Option<int> {
    find_machine_from(ms, id, 0)
}

/// The machines still alive, scanning from `i`, in order.
pub open spec fn active_from(ms: Seq<TrxStateMachine>, i: int) -> Seq<TrxStateMachine>
    decreases ms.len() - i,
{
    if i < 0 || i >= ms.len() {
        Seq::empty()
    } else if !is_terminal(ms[i].state) {
        seq![ms[i]] + active_from(ms, i + 1)
    } else {
        active_from(ms, i + 1)
    }
}

/// A scan that found nothing matches no machine from where it started.
proof fn lemma_find_machine_none_no_match(ms: Seq<TrxStateMachine>, id: TransactionId, k: int)
    requires
        0 <= k,
        find_machine_from(ms, id, k) is None,
    ensures
        forall|j: int| k <= j < ms.len() ==> !id_eq((#[trigger] ms[j]).id, id),
    decreases ms.len() - k,
{
    if k < ms.len() {
        lemma_find_machine_none_no_match(ms, id, k + 1);
    }
}

/// The set of in-flight client transactions, and how many inbound
/// responses matched none of them and were dropped.
#[derive(Debug)]
pub struct TransactionLayer {
    pub machines: Vec<TrxStateMachine>,
    pub last_now: u64,
    pub dropped: u64,
}

/// The layer's invariant: exactly one machine per transaction
/// identifier, every machine internally consistent, and no stored
/// timestamp ahead of the layer's clock.
pub open spec fn layer_wf(l: TransactionLayer) -> bool {
    &&& forall|i: int| 0 <= i < l.machines@.len() ==> machine_wf(#[trigger] l.machines@[i])
    &&& forall|i: int|
        0 <= i < l.machines@.len() ==> state_times_le((#[trigger] l.machines@[i]).state, l.last_now)
    &&& forall|i: int, j: int|
        0 <= i < j < l.machines@.len() ==> !id_eq(l.machines@[i].id, l.machines@[j].id)
}

impl TransactionLayer {
    /// A layer with no transactions in flight.
    pub fn new() -> (l: Self)
        ensures
            l.machines@.len() == 0,
            l.last_now == 0,
            l.dropped == 0,
            layer_wf(l),
    {
        TransactionLayer { machines: Vec::new(), last_now: 0, dropped: 0 }
    }

    /// The index of the machine the identifier matches, if any.
    fn find_index(&self, id: &TransactionId) -> (r: Option<usize>)
        ensures
            match r {
                Some(k) => k < self.machines@.len() && spec_find_machine(self.machines@, *id)
                    == Some(k as int),
                None => spec_find_machine(self.machines@, *id) is None,
            },
    {
        let n = self.machines.len();
        let mut i: usize = 0;
        while i < n
            invariant
                0 <= i <= n,
                n == self.machines@.len(),
                spec_find_machine(self.machines@, *id) == find_machine_from(
                    self.machines@,
                    *id,
                    i as int,
                ),
            decreases n - i,
        {
            if self.machines[i].id.matches(id) {
                return Some(i);
            }
            i = i + 1;
        }
        None
    }

    /// Starts a client transaction for an outbound request: a new
    /// machine enters `Calling` and the request goes out. A request
    /// whose identifier is already in flight is refused — the layer
    /// keeps exactly one machine per identifier — and one without an
    /// identifier is a parse error; neither changes the layer.
    pub fn send_request(&mut self, request: Request, now: u64) -> (r: Result<Vec<Effect>, Error>)
        requires
            layer_wf(*old(self)),
            old(self).last_now <= now,
        ensures
            layer_wf(*final(self)),
            match r {
                Ok(effects) => ({
                    let id = spec_transaction_id(request.headers@, Role::Uac);
                    &&& id is Some
                    &&& spec_find_machine(old(self).machines@, id.unwrap()) is None
                    &&& final(self).machines@.len() == old(self).machines@.len() + 1
                    &&& final(self).machines@ == old(self).machines@.push(
                        final(self).machines@.last(),
                    )
                    &&& final(self).machines@.last().request == request
                    &&& final(self).machines@.last().id == id.unwrap()
                    &&& final(self).machines@.last().state == TrxState::Calling(
                        Calling { entered_at: now, last_retransmit: now, retransmit_count: 0 },
                    )
                    &&& effects@.len() == 1
                    &&& effects@[0] is SendRequest
                    &&& req_like(effects@[0]->SendRequest_0, request)
                    &&& final(self).last_now == now
                    &&& final(self).dropped == old(self).dropped
                }),
                Err(e) => ({
                    &&& *final(self) == *old(self)
                    &&& e.kind is Internal
                    &&& ({
                        ||| spec_transaction_id(request.headers@, Role::Uac) is None
                        ||| spec_find_machine(
                            old(self).machines@,
                            spec_transaction_id(request.headers@, Role::Uac).unwrap(),
                        ) is Some
                    })
                }),
            },
    {
        let outbound = request.clone();
        let machine = match TrxStateMachine::new(request, now) {
            Ok(m) => m,
            Err(_) => {
                return Err(Error::custom(
                    String::from_str("the request carries no transaction identifier"),
                ));
            },
        };
        if let Some(_) = self.find_index(&machine.id) {
            return Err(Error::custom(
                String::from_str("a transaction with this identifier is already in flight"),
            ));
        }
        let ghost pre = self.machines@;
        let ghost fresh = machine;
        let mut effects: Vec<Effect> = Vec::new();
        effects.push(Effect::SendRequest(outbound));
        self.machines.push(machine);
        self.last_now = now;
        proof {
            lemma_find_machine_none_no_match(pre, fresh.id, 0);
            assert forall|a: int, b: int|
                0 <= a < b < self.machines@.len() implies !id_eq(
                self.machines@[a].id,
                self.machines@[b].id,
            ) by {
                if b < pre.len() {
                    assert(!id_eq(pre[a].id, pre[b].id));
                } else {
                    assert(self.machines@[b] == fresh);
                    assert(!id_eq(pre[a].id, fresh.id));
                }
            }
            assert forall|a: int|
                0 <= a < self.machines@.len() implies machine_wf(#[trigger] self.machines@[a])
                && state_times_le(self.machines@[a].state, self.last_now) by {
                if a < pre.len() {
                    assert(self.machines@[a] == pre[a]);
                } else {
                    assert(self.machines@[a] == fresh);
                }
            }
        }
        Ok(effects)
    }

    /// Routes an inbound response to the machine its identifier
    /// matches and steps that machine; a response matching no machine
    /// is dropped and counted. A response without an identifier is a
    /// parse error and changes nothing.
    pub fn process_response(&mut self, response: Response, now: u64) -> (r: Result<
        Vec<Effect>,
        Error,
    >)
        requires
            layer_wf(*old(self)),
            old(self).last_now <= now,
        ensures
            layer_wf(*final(self)),
            match r {
                Ok(effects) => ({
                    let id = spec_transaction_id(response.headers@, Role::Uac);
                    &&& id is Some
                    &&& final(self).last_now == now
                    &&& match spec_find_machine(old(self).machines@, id.unwrap()) {
                        Some(k) => {
                            &&& next_rel(
                                old(self).machines@[k],
                                Some(response),
                                now,
                                final(self).machines@[k],
                                effects@,
                            )
                            &&& final(self).machines@ == old(self).machines@.update(
                                k,
                                final(self).machines@[k],
                            )
                            &&& final(self).dropped == old(self).dropped
                        },
                        None => {
                            &&& final(self).machines@ == old(self).machines@
                            &&& final(self).dropped == vstd::math::min(
                                old(self).dropped + 1,
                                u64::MAX as int,
                            )
                            &&& effects@.len() == 0
                        },
                    }
                }),
                Err(e) => *final(self) == *old(self) && e.kind is Parse && spec_transaction_id(
                    response.headers@,
                    Role::Uac,
                ) is None,
            },
    {
        let id = match response.transaction_id() {
            Ok(id) => id,
            Err(e) => {
                return Err(e);
            },
        };
        let k = match self.find_index(&id) {
            Some(k) => k,
            None => {
                self.dropped = if self.dropped < u64::MAX {
                    self.dropped + 1
                } else {
                    self.dropped
                };
                self.last_now = now;
                return Ok(Vec::new());
            },
        };
        let ghost pre = self.machines@;
        let mut machine = self.machines.remove(k);
        let effects = machine.next(Some(response), now);
        let ghost stepped = machine;
        proof {
            pre.remove_ensures(k as int);
            pre.remove(k as int).insert_ensures(k as int, stepped);
        }
        self.machines.insert(k, machine);
        self.last_now = now;
        proof {
            assert(self.machines@ =~= pre.update(k as int, stepped));
            assert forall|a: int, b: int|
                0 <= a < b < self.machines@.len() implies !id_eq(
                self.machines@[a].id,
                self.machines@[b].id,
            ) by {
                assert(!id_eq(pre[a].id, pre[b].id));
                assert(a != k as int ==> self.machines@[a] == pre[a]);
                assert(b != k as int ==> self.machines@[b] == pre[b]);
                assert(self.machines@[k as int].id == pre[k as int].id);
            }
        }
        Ok(effects)
    }

    /// How many transactions are in flight.
    pub fn len(&self) -> (r: usize)
        ensures
            r == self.machines@.len(),
    {
        self.machines.len()
    }

    /// Wakes the timers of the machine at one index.
    #[verifier::rlimit(50)]
    pub fn tick_at(&mut self, k: usize, now: u64) -> (effects: Vec<Effect>)
        requires
            layer_wf(*old(self)),
            old(self).last_now <= now,
            k < old(self).machines@.len(),
        ensures
            layer_wf(*final(self)),
            final(self).last_now == now,
            final(self).dropped == old(self).dropped,
            next_rel(old(self).machines@[k as int], None, now, final(self).machines@[k as int], effects@),
            final(self).machines@ == old(self).machines@.update(
                k as int,
                final(self).machines@[k as int],
            ),
    {
        let ghost pre = self.machines@;
        let mut machine = self.machines.remove(k);
        let effects = machine.next(None, now);
        let ghost stepped = machine;
        proof {
            pre.remove_ensures(k as int);
            pre.remove(k as int).insert_ensures(k as int, stepped);
        }
        self.machines.insert(k, machine);
        self.last_now = now;
        proof {
            assert(self.machines@ =~= pre.update(k as int, stepped));
            assert forall|a: int, b: int|
                0 <= a < b < self.machines@.len() implies !id_eq(
                self.machines@[a].id,
                self.machines@[b].id,
            ) by {
                assert(!id_eq(pre[a].id, pre[b].id));
                assert(a != k as int ==> self.machines@[a] == pre[a]);
                assert(b != k as int ==> self.machines@[b] == pre[b]);
                assert(self.machines@[k as int].id == pre[k as int].id);
            }
        }
        effects
    }

    /// Evicts the machines that have terminated or errored, keeping
    /// the live ones in order.
    pub fn evict(&mut self)
        requires
            layer_wf(*old(self)),
        ensures
            layer_wf(*final(self)),
            final(self).machines@ == active_from(old(self).machines@, 0),
            final(self).last_now == old(self).last_now,
            final(self).dropped == old(self).dropped,
    {
        let ghost orig = self.machines@;
        let mut i: usize = 0;
        let mut kg: Ghost<int> = Ghost(0);
        while i < self.machines.len()
            invariant
                0 <= i <= self.machines@.len(),
                0 <= kg@ <= orig.len(),
                layer_wf(*self),
                self.last_now == old(self).last_now,
                self.dropped == old(self).dropped,
                self.machines@.subrange(0, i as int) + active_from(orig, kg@) =~= active_from(
                    orig,
                    0,
                ),
                self.machines@.skip(i as int) =~= orig.skip(kg@),
                forall|j: int|
                    0 <= j < i ==> !is_terminal((#[trigger] self.machines@[j]).state),
            decreases self.machines@.len() - i,
        {
            let ghost pre = self.machines@;
            proof {
                assert(pre.skip(i as int).len() == pre.len() - i);
                assert(orig.skip(kg@).len() == orig.len() - kg@);
                assert(kg@ < orig.len());
                assert(pre.skip(i as int)[0] == pre[i as int]);
                assert(orig.skip(kg@)[0] == orig[kg@]);
                assert(pre[i as int] == orig[kg@]);
                assert(pre.skip(i + 1) =~= orig.skip(kg@ + 1)) by {
                    assert forall|j: int|
                        0 <= j < pre.skip(i + 1).len() implies #[trigger] pre.skip(i + 1)[j]
                        == orig.skip(kg@ + 1)[j] by {
                        assert(pre.skip(i + 1).len() == pre.len() - i - 1);
                        assert(orig.skip(kg@ + 1).len() == orig.len() - kg@ - 1);
                        assert(pre.skip(i + 1)[j] == pre[i + 1 + j]);
                        assert(pre.skip(i as int)[j + 1] == pre[i + 1 + j]);
                        assert(orig.skip(kg@)[j + 1] == orig[kg@ + 1 + j]);
                        assert(orig.skip(kg@ + 1)[j] == orig[kg@ + 1 + j]);
                    }
                }
            }
            if self.machines[i].is_active() {
                proof {
                    assert(active_from(orig, kg@) == seq![orig[kg@]] + active_from(orig, kg@ + 1));
                    assert(pre.subrange(0, i + 1) =~= pre.subrange(0, i as int).push(
                        pre[i as int],
                    ));
                    assert(pre.subrange(0, i as int).push(pre[i as int]) + active_from(
                        orig,
                        kg@ + 1,
                    ) =~= pre.subrange(0, i as int) + (seq![orig[kg@]] + active_from(orig, kg@ + 1)));
                }
                i = i + 1;
                proof {
                    kg@ = kg@ + 1;
                }
            } else {
                let _ = self.machines.remove(i);
                proof {
                    pre.remove_ensures(i as int);
                    assert(active_from(orig, kg@) == active_from(orig, kg@ + 1));
                    assert(self.machines@.subrange(0, i as int) =~= pre.subrange(0, i as int));
                    assert(self.machines@.skip(i as int) =~= pre.skip(i + 1)) by {
                        assert forall|j: int|
                            0 <= j < self.machines@.skip(i as int).len() implies #[trigger] self.machines@.skip(
                            i as int,
                        )[j] == pre.skip(i + 1)[j] by {
                            assert(self.machines@.skip(i as int)[j] == self.machines@[i + j]);
                            assert(self.machines@[i + j] == pre[i + 1 + j]);
                            assert(pre.skip(i + 1)[j] == pre[i + 1 + j]);
                        }
                    }
                    assert(self.machines@.skip(i as int) =~= orig.skip(kg@ + 1));
                    assert forall|a: int, b: int|
                        0 <= a < b < self.machines@.len() implies !id_eq(
                        self.machines@[a].id,
                        self.machines@[b].id,
                    ) by {
                        let pa: int = if a < i as int {
                            a
                        } else {
                            a + 1
                        };
                        let pb: int = if b < i as int {
                            b
                        } else {
                            b + 1
                        };
                        assert(self.machines@[a] == pre[pa]);
                        assert(self.machines@[b] == pre[pb]);
                        assert(!id_eq(pre[pa].id, pre[pb].id));
                    }
                    assert forall|a: int|
                        0 <= a < self.machines@.len() implies machine_wf(
                        #[trigger] self.machines@[a],
                    ) && state_times_le(self.machines@[a].state, self.last_now) by {
                        let pa: int = if a < i as int {
                            a
                        } else {
                            a + 1
                        };
                        assert(self.machines@[a] == pre[pa]);
                    }
                    kg@ = kg@ + 1;
                }
            }
        }
        proof {
            assert(kg@ == orig.len());
            assert(active_from(orig, kg@) =~= Seq::<TrxStateMachine>::empty());
            assert(self.machines@.subrange(0, self.machines@.len() as int) =~= self.machines@);
            assert(self.machines@ =~= active_from(orig, 0));
        }
    }
}

} // verus!
