//! The order registry: the authoritative table of orders and their
//! lifecycle state, with unique identifier issuance, a per-order audit
//! history, and atomic event-driven transitions.

use vstd::prelude::*;

use crate::lifecycle::{
    apply_event, is_terminal, next_state, replay, state_is_terminal, step, Event, OrderState,
};
use crate::validator::ValidatedRequest;

verus! {

/// One audit record: at `timestamp` the order moved from `prior` to `next`
/// because `reason` arrived.
#[derive(Clone, Copy, Debug, PartialEq, Eq, Structural)]
pub struct HistoryEntry {
    pub timestamp: u64,
    pub prior: OrderState,
    pub next: OrderState,
    pub reason: Event,
}

/// A registered order. `id` and `request` never change after creation;
/// `state`, `updated_at` and `history` change only through
/// [`Registry::transition`].
#[derive(Debug)]
pub struct Order {
    pub id: u64,
    pub request: ValidatedRequest,
    pub state: OrderState,
    pub created_at: u64,
    pub updated_at: u64,
    pub history: Vec<HistoryEntry>,
}

/// Why a lifecycle event was not applied.
#[derive(Clone, Copy, Debug, PartialEq, Eq, Structural)]
pub enum TransitionError {
    /// No order carries the given identifier.
    NotFound,
    /// The event has no legal transition from the order's current state.
    IllegalTransition,
    /// The event's timestamp does not advance the order's clock: events
    /// may arrive out of order, and a replayed or late event is dropped.
    StaleEvent,
}

/// Why an order could not be created.
#[derive(Clone, Copy, Debug, PartialEq, Eq, Structural)]
pub enum RegistryError {
    /// The configured maximum number of live orders is reached.
    CapacityExceeded,
}

/// A history is well formed when it is a chain of legal transitions
/// starting from `Submitted`, with strictly increasing timestamps that do
/// not precede the order's creation.
pub open spec fn wf_history(h: Seq<HistoryEntry>, created_at: u64) -> bool {
    &&& (h.len() > 0 ==> h[0].prior == OrderState::Submitted)
    &&& (h.len() > 0 ==> h[0].timestamp >= created_at)
    &&& forall|i: int|
        0 <= i < h.len() ==> next_state((#[trigger] h[i]).prior, h[i].reason) == Some(h[i].next)
    &&& forall|i: int, j: int|
        #![trigger h[i], h[j]]
        0 <= i && j == i + 1 && j < h.len() ==> h[j].prior == h[i].next && h[i].timestamp
            < h[j].timestamp
}

/// An order is well formed when its history is, its state is the one the
/// last recorded transition entered (`Submitted` when none is recorded),
/// and `updated_at` is the last transition's timestamp (the creation time
/// when none is recorded).
pub open spec fn order_wf(o: Order) -> bool {
    &&& wf_history(o.history@, o.created_at)
    &&& o.state == (if o.history@.len() == 0 {
        OrderState::Submitted
    } else {
        o.history@.last().next
    })
    &&& o.updated_at == (if o.history@.len() == 0 {
        o.created_at
    } else {
        o.history@.last().timestamp
    })
    &&& o.updated_at >= o.created_at
}

/// An event timestamp is stale when it does not advance the order's
/// clock: strictly before `updated_at`, or equal to the timestamp of an
/// already-recorded transition.
pub open spec fn event_is_stale(o: Order, timestamp: u64) -> bool {
    timestamp < o.updated_at || (o.history@.len() > 0 && timestamp == o.updated_at)
}

/// How many of the orders in `s` are live, that is, not in a terminal
/// state.
pub open spec fn live_orders(s: Seq<Order>) -> nat
    decreases s.len(),
{
    if s.len() == 0 {
        0
    } else {
        live_orders(s.drop_last()) + (if is_terminal(s.last().state) {
            0nat
        } else {
            1nat
        })
    }
}

/// Whether `o` passes the filter: `None` admits every order, `Some(st)`
/// admits exactly the orders currently in state `st`.
pub open spec fn order_matches(o: Order, filter: Option<OrderState>) -> bool {
    match filter {
        None => true,
        Some(st) => o.state == st,
    }
}

/// The identifiers of the orders in `s` that pass the filter, in table
/// order.
pub open spec fn matching_ids(s: Seq<Order>, filter: Option<OrderState>) -> Seq<u64>
    decreases s.len(),
{
    if s.len() == 0 {
        Seq::empty()
    } else if order_matches(s.last(), filter) {
        matching_ids(s.drop_last(), filter).push(s.last().id)
    } else {
        matching_ids(s.drop_last(), filter)
    }
}

/// What applying `event` with `timestamp` to the order carrying `id`
/// guarantees, relating the order table before (`pre`) and after (`post`)
/// the call to the result `r`. On any failure the table is untouched; an
/// event reaching a terminal order always fails with `IllegalTransition`,
/// and a stale event on a live order always fails with `StaleEvent`.
pub open spec fn transition_post(
    pre: Seq<Order>,
    post: Seq<Order>,
    id: u64,
    event: Event,
    timestamp: u64,
    r: Result<OrderState, TransitionError>,
) -> bool {
    &&& post.len() == pre.len()
    &&& (r is Err ==> post == pre)
    &&& (id < pre.len() && is_terminal(pre[id as int].state) ==> r == Err::<
        OrderState,
        TransitionError,
    >(TransitionError::IllegalTransition))
    &&& (id < pre.len() && !is_terminal(pre[id as int].state) && event_is_stale(
        pre[id as int],
        timestamp,
    ) ==> r == Err::<OrderState, TransitionError>(TransitionError::StaleEvent))
    &&& match r {
        Ok(ns) => {
            &&& id < pre.len()
            &&& !is_terminal(pre[id as int].state)
            &&& !event_is_stale(pre[id as int], timestamp)
            &&& next_state(pre[id as int].state, event) == Some(ns)
            &&& forall|j: int| 0 <= j < pre.len() && j != id ==> post[j] == pre[j]
            &&& post[id as int].id == pre[id as int].id
            &&& post[id as int].request == pre[id as int].request
            &&& post[id as int].created_at == pre[id as int].created_at
            &&& post[id as int].state == ns
            &&& post[id as int].updated_at == timestamp
            &&& post[id as int].history@ == pre[id as int].history@.push(
                (HistoryEntry {
                    timestamp,
                    prior: pre[id as int].state,
                    next: ns,
                    reason: event,
                }),
            )
        },
        Err(e) => {
            match e {
                TransitionError::NotFound => id >= pre.len(),
                TransitionError::IllegalTransition => {
                    &&& id < pre.len()
                    &&& (is_terminal(pre[id as int].state) || (!event_is_stale(
                        pre[id as int],
                        timestamp,
                    ) && next_state(pre[id as int].state, event) is None))
                },
                TransitionError::StaleEvent => {
                    &&& id < pre.len()
                    &&& !is_terminal(pre[id as int].state)
                    &&& event_is_stale(pre[id as int], timestamp)
                },
            }
        },
    }
}

/// The order table. Identifiers are issued sequentially in call order and
/// never reused; orders are retained for audit even once terminal, so the
/// capacity bounds the number of live (non-terminal) orders.
pub struct Registry {
    orders: Vec<Order>,
    capacity: usize,
}

impl View for Registry {
    type V = Seq<Order>;

    closed spec fn view(&self) -> Seq<Order> {
        self.orders@
    }
}

impl Registry {
    /// The configured maximum number of live orders.
    pub closed spec fn spec_capacity(&self) -> usize {
        self.capacity
    }

    /// The registry is well formed when every order is and carries its
    /// table position as its identifier.
    pub open spec fn wf(&self) -> bool {
        forall|i: int|
            0 <= i < self@.len() ==> (#[trigger] self@[i]).id == i && order_wf(self@[i])
    }

    /// An empty registry that will admit at most `capacity` live orders.
    pub fn new(capacity: usize) -> (r: Registry)
        ensures
            r.wf(),
            r@.len() == 0,
            r.spec_capacity() == capacity,
    {
        Registry { orders: Vec::new(), capacity }
    }

    /// The configured maximum number of live orders.
    pub fn capacity(&self) -> (c: usize)
        ensures
            c == self.spec_capacity(),
    {
        self.capacity
    }

    /// How many orders the registry has issued so far.
    pub fn order_count(&self) -> (n: usize)
        ensures
            n == self@.len(),
    {
        self.orders.len()
    }

    /// How many orders are currently live (not in a terminal state).
    pub fn live_count(&self) -> (c: usize)
        ensures
            c == live_orders(self@),
    {
        let n = self.orders.len();
        let mut c: usize = 0;
        let mut i: usize = 0;
        while i < n
            invariant
                n == self@.len(),
                0 <= i <= n,
                c <= i,
                c == live_orders(self@.take(i as int)),
            decreases n - i,
        {
            proof {
                lemma_live_orders_take_step(self@, i as int);
            }
            if !state_is_terminal(self.orders[i].state) {
                c = c + 1;
            }
            i = i + 1;
        }
        proof {
            assert(self@.take(n as int) =~= self@);
        }
        c
    }

    /// Atomically allocates the next identifier and stores a new order for
    /// `request` in state `Submitted` with an empty history, unless the
    /// live-order capacity is already reached, in which case the registry
    /// is left unchanged. The identifier returned is fresh: no order, past
    /// or present, ever carried it.
    pub fn create(&mut self, request: ValidatedRequest, now: u64) -> (r: Result<
        u64,
        RegistryError,
    >)
        requires
            old(self).wf(),
        ensures
            final(self).wf(),
            final(self).spec_capacity() == old(self).spec_capacity(),
            match r {
                Ok(id) => {
                    &&& live_orders(old(self)@) < old(self).spec_capacity()
                    &&& id == old(self)@.len()
                    &&& final(self)@.len() == old(self)@.len() + 1
                    &&& forall|j: int|
                        0 <= j < old(self)@.len() ==> final(self)@[j] == old(self)@[j]
                    &&& forall|j: int|
                        0 <= j < old(self)@.len() ==> (#[trigger] old(self)@[j]).id != id
                    &&& final(self)@.last().id == id
                    &&& final(self)@.last().request == request
                    &&& final(self)@.last().state == OrderState::Submitted
                    &&& final(self)@.last().created_at == now
                    &&& final(self)@.last().updated_at == now
                    &&& final(self)@.last().history@.len() == 0
                },
                Err(e) => {
                    &&& e == RegistryError::CapacityExceeded
                    &&& live_orders(old(self)@) >= old(self).spec_capacity()
                    &&& *final(self) == *old(self)
                },
            },
    {
        let live = self.live_count();
        if live >= self.capacity {
            return Err(RegistryError::CapacityExceeded);
        }
        let id = self.orders.len() as u64;
        let order = Order {
            id,
            request,
            state: OrderState::Submitted,
            created_at: now,
            updated_at: now,
            history: Vec::new(),
        };
        self.orders.push(order);
        proof {
            let n = old(self)@.len() as int;
            assert forall|i: int|
                0 <= i < self@.len() implies (#[trigger] self@[i]).id == i && order_wf(
                self@[i],
            ) by {
                if i < n {
                    assert(self@[i] == old(self)@[i]);
                } else {
                    assert(self@[i] == self@.last());
                    assert(self@[i].history@.len() == 0);
                }
            }
        }
        Ok(id)
    }

    /// A read-only view of the order carrying `id`, or `None` when no
    /// order does.
    pub fn get(&self, id: u64) -> (r: Option<&Order>)
        ensures
            match r {
                Some(o) => id < self@.len() && *o == self@[id as int],
                None => id >= self@.len(),
            },
    {
        if id < self.orders.len() as u64 {
            Some(&self.orders[id as usize])
        } else {
            None
        }
    }

    /// Applies one lifecycle event to the order carrying `id` and records
    /// it in the order's history, atomically; on any failure the registry
    /// is left exactly as it was. Fails with `NotFound` for an unknown
    /// identifier; with `IllegalTransition` when the order is already in a
    /// terminal state or the event has no legal transition from the
    /// current state; with `StaleEvent` when the order is live but the
    /// timestamp does not advance the order's clock.
    pub fn transition(&mut self, id: u64, event: Event, timestamp: u64) -> (r: Result<
        OrderState,
        TransitionError,
    >)
        requires
            old(self).wf(),
        ensures
            final(self).wf(),
            final(self).spec_capacity() == old(self).spec_capacity(),
            r is Err ==> *final(self) == *old(self),
            transition_post(old(self)@, final(self)@, id, event, timestamp, r),
    {
        if id >= self.orders.len() as u64 {
            return Err(TransitionError::NotFound);
        }
        let idx = id as usize;
        if state_is_terminal(self.orders[idx].state) {
            return Err(TransitionError::IllegalTransition);
        }
        if timestamp < self.orders[idx].updated_at || (self.orders[idx].history.len() > 0
            && timestamp == self.orders[idx].updated_at) {
            return Err(TransitionError::StaleEvent);
        }
        match apply_event(self.orders[idx].state, event) {
            None => Err(TransitionError::IllegalTransition),
            Some(ns) => {
                let prior = self.orders[idx].state;
                let entry = HistoryEntry { timestamp, prior, next: ns, reason: event };
                let o = &mut self.orders[idx];
                o.history.push(entry);
                o.state = ns;
                o.updated_at = timestamp;
                proof {
                    let oldo = old(self)@[idx as int];
                    let newo = self@[idx as int];
                    let h = oldo.history@;
                    let h2 = newo.history@;
                    assert(h2 == h.push(entry));
                    assert forall|i: int|
                        0 <= i < h2.len() implies next_state(
                        (#[trigger] h2[i]).prior,
                        h2[i].reason,
                    ) == Some(h2[i].next) by {
                        if i < h.len() {
                            assert(h2[i] == h[i]);
                        } else {
                            assert(h2[i] == entry);
                        }
                    }
                    assert forall|i: int, j: int|
                        #![trigger h2[i], h2[j]]
                        0 <= i && j == i + 1 && j < h2.len() implies h2[j].prior == h2[i].next
                        && h2[i].timestamp < h2[j].timestamp by {
                        if j < h.len() {
                            assert(h2[i] == h[i]);
                            assert(h2[j] == h[j]);
                        } else {
                            assert(h2[j] == entry);
                            assert(h2[i] == h[i]);
                            assert(h[i] == h.last());
                        }
                    }
                    if h.len() == 0 {
                        assert(h2[0] == entry);
                    } else {
                        assert(h2[0] == h[0]);
                    }
                    assert(order_wf(newo));
                    assert forall|i: int|
                        0 <= i < self@.len() implies (#[trigger] self@[i]).id == i && order_wf(
                        self@[i],
                    ) by {
                        if i != idx {
                            assert(self@[i] == old(self)@[i]);
                        }
                    }
                }
                Ok(ns)
            },
        }
    }

    /// The identifiers of the orders that pass the filter, in issue
    /// order: a consistent point-in-time snapshot for monitoring that the
    /// caller can walk and restart freely.
    pub fn list(&self, filter: Option<OrderState>) -> (r: Vec<u64>)
        ensures
            r@ == matching_ids(self@, filter),
    {
        let n = self.orders.len();
        let mut out: Vec<u64> = Vec::new();
        let mut i: usize = 0;
        while i < n
            invariant
                n == self@.len(),
                0 <= i <= n,
                out@ == matching_ids(self@.take(i as int), filter),
            decreases n - i,
        {
            proof {
                lemma_matching_ids_take_step(self@, filter, i as int);
            }
            let keep = match filter {
                None => true,
                Some(st) => {
                    let cur = self.orders[i].state;
                    cur == st
                },
            };
            if keep {
                out.push(self.orders[i].id);
            }
            i = i + 1;
        }
        proof {
            assert(self@.take(n as int) =~= self@);
        }
        out
    }
}

/// Counting live orders over a prefix grows by one exactly when the next
/// order is live.
proof fn lemma_live_orders_take_step(s: Seq<Order>, i: int)
    requires
        0 <= i < s.len(),
    ensures
        live_orders(s.take(i + 1)) == live_orders(s.take(i)) + (if is_terminal(s[i].state) {
            0nat
        } else {
            1nat
        }),
{
    let t = s.take(i + 1);
    assert(t.drop_last() =~= s.take(i));
    assert(t.last() == s[i]);
}

/// Filtering a prefix gains the next order's identifier exactly when that
/// order passes the filter.
proof fn lemma_matching_ids_take_step(s: Seq<Order>, filter: Option<OrderState>, i: int)
    requires
        0 <= i < s.len(),
    ensures
        matching_ids(s.take(i + 1), filter) == (if order_matches(s[i], filter) {
            matching_ids(s.take(i), filter).push(s[i].id)
        } else {
            matching_ids(s.take(i), filter)
        }),
{
    let t = s.take(i + 1);
    assert(t.drop_last() =~= s.take(i));
    assert(t.last() == s[i]);
}

/// No two orders in a well-formed registry carry the same identifier:
/// identifiers are issued once and never reused.
pub proof fn lemma_order_ids_unique(reg: Registry, i: int, j: int)
    requires
        reg.wf(),
        0 <= i < reg@.len(),
        0 <= j < reg@.len(),
        i != j,
    ensures
        reg@[i].id != reg@[j].id,
{
}

/// The events a history records, in order.
pub open spec fn history_events(h: Seq<HistoryEntry>) -> Seq<Event> {
    h.map_values(|e: HistoryEntry| e.reason)
}

/// In a well-formed history the recorded outcome of the last transition
/// is exactly the state reached by replaying the recorded events from
/// `Submitted`.
proof fn lemma_replay_wf_history(h: Seq<HistoryEntry>, created_at: u64)
    requires
        wf_history(h, created_at),
    ensures
        replay(history_events(h)) == (if h.len() == 0 {
            OrderState::Submitted
        } else {
            h.last().next
        }),
    decreases h.len(),
{
    if h.len() > 0 {
        let prefix = h.drop_last();
        assert forall|i: int|
            0 <= i < prefix.len() implies next_state(
            (#[trigger] prefix[i]).prior,
            prefix[i].reason,
        ) == Some(prefix[i].next) by {
            assert(prefix[i] == h[i]);
        }
        assert forall|i: int, j: int|
            #![trigger prefix[i], prefix[j]]
            0 <= i && j == i + 1 && j < prefix.len() implies prefix[j].prior == prefix[i].next
            && prefix[i].timestamp < prefix[j].timestamp by {
            assert(prefix[i] == h[i]);
            assert(prefix[j] == h[j]);
        }
        if prefix.len() > 0 {
            assert(prefix[0] == h[0]);
        }
        assert(wf_history(prefix, created_at));
        lemma_replay_wf_history(prefix, created_at);
        let events = history_events(h);
        assert(events.drop_last() =~= history_events(prefix));
        assert(events.last() == h.last().reason);
        assert(replay(events) == step(replay(events.drop_last()), events.last()));
        if prefix.len() == 0 {
            assert(h[0].prior == OrderState::Submitted);
        } else {
            assert(prefix.last() == h[h.len() - 2]);
            assert(h[h.len() - 1] == h.last());
            assert(h[h.len() - 1].prior == h[h.len() - 2].next);
        }
        assert(next_state(h.last().prior, h.last().reason) == Some(h.last().next));
    }
}

/// An order's `state` field always equals the state implied by replaying
/// its recorded events from `Submitted`.
pub proof fn lemma_state_replays_history(o: Order)
    requires
        order_wf(o),
    ensures
        o.state == replay(history_events(o.history@)),
{
    lemma_replay_wf_history(o.history@, o.created_at);
}

/// History entries at distinct positions carry distinct, strictly
/// increasing timestamps: no transition is ever lost or recorded twice at
/// the same position.
pub proof fn lemma_history_timestamps_strict(o: Order, i: int, j: int)
    requires
        order_wf(o),
        0 <= i < j < o.history@.len(),
    ensures
        o.history@[i].timestamp < o.history@[j].timestamp,
    decreases j - i,
{
    let h = o.history@;
    if i + 1 < j {
        lemma_history_timestamps_strict(o, i, j - 1);
        assert(h[j - 1].timestamp < h[j].timestamp);
    } else {
        assert(h[i].timestamp < h[j].timestamp);
    }
}

} // verus!
