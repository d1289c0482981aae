//! The submission coordinator and the service front door. The coordinator
//! orchestrates validation, order creation and the initial acceptance
//! transition over a registry it is handed and owns no state of its own;
//! [`MyOrderManager`] packages a registry and a validation policy behind
//! the one entry point a transport boundary calls.

use vstd::prelude::*;

use crate::lifecycle::{Event, OrderState};
use crate::registry::{
    live_orders, matching_ids, transition_post, HistoryEntry, Order, Registry, RegistryError,
    TransitionError,
};
use crate::validator::{
    validate, review_flag, validation_error, TradeRequest, ValidationError, ValidatorConfig,
};

verus! {

/// Why a submission was turned away.
#[derive(Clone, Copy, Debug, PartialEq, Eq, Structural)]
pub enum SubmissionError {
    /// The request broke a validation rule; the reason is user-visible
    /// and the request must not be retried unchanged.
    Invalid(ValidationError),
    /// The registry is at its live-order capacity; the caller may retry
    /// after backing off.
    Overloaded,
}

/// What submitting `request` guarantees, relating the order table before
/// (`pre`) and after (`post`) the call to the result `r`. On success the
/// new order stands at the end of the table under a fresh identifier,
/// already `Accepted`, with the one acceptance transition on record; on
/// any failure the table is untouched and no order exists for the
/// request.
pub open spec fn submit_post(
    pre: Seq<Order>,
    post: Seq<Order>,
    config: ValidatorConfig,
    request: TradeRequest,
    reference: Option<i64>,
    now: u64,
    capacity: usize,
    r: Result<u64, SubmissionError>,
) -> bool {
    match r {
        Ok(id) => {
            &&& validation_error(request, config, reference) is None
            &&& live_orders(pre) < capacity
            &&& id == pre.len()
            &&& forall|j: int| 0 <= j < pre.len() ==> (#[trigger] pre[j]).id != id
            &&& post.len() == pre.len() + 1
            &&& forall|j: int| 0 <= j < pre.len() ==> post[j] == pre[j]
            &&& post.last().id == id
            &&& post.last().state == OrderState::Accepted
            &&& post.last().created_at == now
            &&& post.last().updated_at == now
            &&& post.last().history@ =~= seq![
                (HistoryEntry {
                    timestamp: now,
                    prior: OrderState::Submitted,
                    next: OrderState::Accepted,
                    reason: Event::Accept,
                }),
            ]
            &&& post.last().request.instrument == request.instrument
            &&& post.last().request.side == request.side
            &&& post.last().request.volume == request.volume
            &&& post.last().request.stop_loss == request.stop_loss
            &&& post.last().request.take_profit == request.take_profit
            &&& post.last().request.needs_review == review_flag(request, reference)
        },
        Err(SubmissionError::Invalid(e)) => {
            &&& validation_error(request, config, reference) == Some(e)
            &&& post == pre
        },
        Err(SubmissionError::Overloaded) => {
            &&& validation_error(request, config, reference) is None
            &&& live_orders(pre) >= capacity
            &&& post == pre
        },
    }
}

/// Submits one trade request: validates it, creates an order for it with a
/// fresh identifier, and moves the new order from `Submitted` to
/// `Accepted`, all stamped with the caller's clock reading `now`. On any
/// failure the registry is left exactly as it was and no order is
/// created. `reference` is the current reference price for the request's
/// instrument, if the market-data collaborator could supply one.
pub fn submit(
    registry: &mut Registry,
    config: &ValidatorConfig,
    request: TradeRequest,
    reference: Option<i64>,
    now: u64,
) -> (r: Result<u64, SubmissionError>)
    requires
        old(registry).wf(),
    ensures
        final(registry).wf(),
        final(registry).spec_capacity() == old(registry).spec_capacity(),
        r is Err ==> *final(registry) == *old(registry),
        submit_post(
            old(registry)@,
            final(registry)@,
            *config,
            request,
            reference,
            now,
            old(registry).spec_capacity(),
            r,
        ),
{
    let validated = match validate(request, config, reference) {
        Ok(v) => v,
        Err(e) => {
            return Err(SubmissionError::Invalid(e));
        },
    };
    let id = match registry.create(validated, now) {
        Ok(id) => id,
        Err(RegistryError::CapacityExceeded) => {
            return Err(SubmissionError::Overloaded);
        },
    };
    let accepted = registry.transition(id, Event::Accept, now);
    proof {
        assert(accepted == Ok::<OrderState, TransitionError>(OrderState::Accepted));
    }
    Ok(id)
}

/// The order-manager service: the validation policy and the order table
/// behind the one remote procedure of the boundary, which submits a trade
/// order and receives an immediate acknowledgment. Lifecycle events from
/// the execution venue and monitoring reads go through the same object,
/// so every mutation of an order passes through the registry's state
/// machine.
pub struct MyOrderManager {
    registry: Registry,
    config: ValidatorConfig,
}

impl View for MyOrderManager {
    type V = Seq<Order>;

    closed spec fn view(&self) -> Seq<Order> {
        self.registry@
    }
}

impl MyOrderManager {
    /// The validation policy the service was configured with.
    pub closed spec fn spec_config(&self) -> ValidatorConfig {
        self.config
    }

    /// The configured maximum number of live orders.
    pub closed spec fn spec_capacity(&self) -> usize {
        self.registry.spec_capacity()
    }

    /// The service is well formed when its order table is: every order is
    /// well formed and carries its table position as its identifier.
    pub open spec fn wf(&self) -> bool {
        forall|i: int|
            0 <= i < self@.len() ==> (#[trigger] self@[i]).id == i && crate::registry::order_wf(
                self@[i],
            )
    }

    /// A service with no orders yet, validating against `config` and
    /// admitting at most `capacity` live orders.
    pub fn new(config: ValidatorConfig, capacity: usize) -> (r: MyOrderManager)
        ensures
            r.wf(),
            r@.len() == 0,
            r.spec_config() == config,
            r.spec_capacity() == capacity,
    {
        MyOrderManager { registry: Registry::new(capacity), config }
    }

    /// The remote procedure's core: submit a trade order, get back either
    /// the fresh identifier of the accepted order or the typed reason it
    /// was turned away. `now` is the caller's clock reading and
    /// `reference` the current reference price, if one is available.
    pub fn send_trade_order(
        &mut self,
        request: TradeRequest,
        reference: Option<i64>,
        now: u64,
    ) -> (r: Result<u64, SubmissionError>)
        requires
            old(self).wf(),
        ensures
            final(self).wf(),
            final(self).spec_config() == old(self).spec_config(),
            final(self).spec_capacity() == old(self).spec_capacity(),
            submit_post(
                old(self)@,
                final(self)@,
                old(self).spec_config(),
                request,
                reference,
                now,
                old(self).spec_capacity(),
                r,
            ),
    {
        submit(&mut self.registry, &self.config, request, reference, now)
    }

    /// Feeds one lifecycle event from the execution venue to the order it
    /// addresses; see [`transition_post`] for the exact guarantees.
    pub fn process_event(&mut self, id: u64, event: Event, timestamp: u64) -> (r: Result<
        OrderState,
        TransitionError,
    >)
        requires
            old(self).wf(),
        ensures
            final(self).wf(),
            final(self).spec_config() == old(self).spec_config(),
            final(self).spec_capacity() == old(self).spec_capacity(),
            transition_post(old(self)@, final(self)@, id, event, timestamp, r),
    {
        self.registry.transition(id, event, timestamp)
    }

    /// A read-only view of the order carrying `id`, or `None` when no
    /// order does.
    pub fn order(&self, id: u64) -> (r: Option<&Order>)
        ensures
            match r {
                Some(o) => id < self@.len() && *o == self@[id as int],
                None => id >= self@.len(),
            },
    {
        self.registry.get(id)
    }

    /// The identifiers of the orders that pass the filter, in issue
    /// order: a consistent point-in-time snapshot for monitoring.
    pub fn list_orders(&self, filter: Option<OrderState>) -> (r: Vec<u64>)
        ensures
            r@ == matching_ids(self@, filter),
    {
        self.registry.list(filter)
    }

    /// How many orders the service has issued so far.
    pub fn order_count(&self) -> (n: usize)
        ensures
            n == self@.len(),
    {
        self.registry.order_count()
    }

    /// How many orders are currently live (not in a terminal state).
    pub fn live_count(&self) -> (c: usize)
        ensures
            c == live_orders(self@),
    {
        self.registry.live_count()
    }
}

} // verus!
