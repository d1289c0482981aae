//! The order lifecycle state machine: which events may move an order from
//! which states, and what the successor state is.

use vstd::prelude::*;

verus! {

/// Lifecycle state of a single order. `Submitted` is the initial state;
/// `Rejected`, `Filled`, `Cancelled` and `Expired` are terminal.
#[derive(Clone, Copy, Debug, PartialEq, Eq, Structural)]
pub enum OrderState {
    Submitted,
    Accepted,
    Rejected,
    PartiallyFilled,
    Filled,
    Cancelled,
    Expired,
}

/// Whether a fill event reports the full remaining quantity or only part
/// of it.
#[derive(Clone, Copy, Debug, PartialEq, Eq, Structural)]
pub enum FillKind {
    Partial,
    Full,
}

/// A lifecycle event arriving from the downstream execution venue.
#[derive(Clone, Copy, Debug, PartialEq, Eq, Structural)]
pub enum Event {
    Accept,
    Reject,
    Fill(FillKind),
    Cancel,
    Expire,
}

/// A state is terminal when no event may ever move an order out of it.
pub open spec fn is_terminal(s: OrderState) -> bool {
    match s {
        OrderState::Rejected => true,
        OrderState::Filled => true,
        OrderState::Cancelled => true,
        OrderState::Expired => true,
        _ => false,
    }
}

/// The transition table: the state an order moves to when `e` arrives in
/// state `s`, or `None` when the event is illegal there.
pub open spec fn next_state(s: OrderState, e: Event) -> Option<OrderState> {
    match e {
        Event::Accept => {
            if s == OrderState::Submitted {
                Some(OrderState::Accepted)
            } else {
                None
            }
        },
        Event::Reject => {
            if s == OrderState::Submitted || s == OrderState::Accepted {
                Some(OrderState::Rejected)
            } else {
                None
            }
        },
        Event::Fill(FillKind::Full) => {
            if s == OrderState::Accepted || s == OrderState::PartiallyFilled {
                Some(OrderState::Filled)
            } else {
                None
            }
        },
        Event::Fill(FillKind::Partial) => {
            if s == OrderState::Accepted || s == OrderState::PartiallyFilled {
                Some(OrderState::PartiallyFilled)
            } else {
                None
            }
        },
        Event::Cancel => {
            if s == OrderState::Submitted || s == OrderState::Accepted
                || s == OrderState::PartiallyFilled {
                Some(OrderState::Cancelled)
            } else {
                None
            }
        },
        Event::Expire => {
            if s == OrderState::Submitted || s == OrderState::Accepted
                || s == OrderState::PartiallyFilled {
                Some(OrderState::Expired)
            } else {
                None
            }
        },
    }
}

/// Terminal states are final: no event has a legal transition out of one.
pub proof fn lemma_terminal_states_are_final(s: OrderState, e: Event)
    requires
        is_terminal(s),
    ensures
        next_state(s, e) is None,
{
}

/// Executable form of [`is_terminal`].
pub fn state_is_terminal(s: OrderState) -> (r: bool)
    ensures
        r == is_terminal(s),
{
    match s {
        OrderState::Rejected => true,
        OrderState::Filled => true,
        OrderState::Cancelled => true,
        OrderState::Expired => true,
        _ => false,
    }
}

/// Executable form of [`next_state`].
pub fn apply_event(s: OrderState, e: Event) -> (r: Option<OrderState>)
    ensures
        r == next_state(s, e),
{
    match e {
        Event::Accept => {
            match s {
                OrderState::Submitted => Some(OrderState::Accepted),
                _ => None,
            }
        },
        Event::Reject => {
            match s {
                OrderState::Submitted => Some(OrderState::Rejected),
                OrderState::Accepted => Some(OrderState::Rejected),
                _ => None,
            }
        },
        Event::Fill(FillKind::Full) => {
            match s {
                OrderState::Accepted => Some(OrderState::Filled),
                OrderState::PartiallyFilled => Some(OrderState::Filled),
                _ => None,
            }
        },
        Event::Fill(FillKind::Partial) => {
            match s {
                OrderState::Accepted => Some(OrderState::PartiallyFilled),
                OrderState::PartiallyFilled => Some(OrderState::PartiallyFilled),
                _ => None,
            }
        },
        Event::Cancel => {
            match s {
                OrderState::Submitted => Some(OrderState::Cancelled),
                OrderState::Accepted => Some(OrderState::Cancelled),
                OrderState::PartiallyFilled => Some(OrderState::Cancelled),
                _ => None,
            }
        },
        Event::Expire => {
            match s {
                OrderState::Submitted => Some(OrderState::Expired),
                OrderState::Accepted => Some(OrderState::Expired),
                OrderState::PartiallyFilled => Some(OrderState::Expired),
                _ => None,
            }
        },
    }
}

/// The state an order reaches by replaying `events` from `Submitted`,
/// applying each legal transition in turn; an illegal event leaves the
/// state unchanged.
pub open spec fn replay(events: Seq<Event>) -> OrderState
    decreases events.len(),
{
    if events.len() == 0 {
        OrderState::Submitted
    } else {
        step(replay(events.drop_last()), events.last())
    }
}

/// One replay step: the successor state when the transition is legal, the
/// same state otherwise.
pub open spec fn step(s: OrderState, e: Event) -> OrderState {
    match next_state(s, e) {
        Some(t) => t,
        None => s,
    }
}

} // verus!
