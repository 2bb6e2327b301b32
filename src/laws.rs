//! Properties of the state machine, proved over the abstract step.
use vstd::prelude::*;

use crate::enums::{is_conditional_spec, is_terminal_spec, OrderEventKind, OrderStatus};
use crate::events::{account_id_of, kind_of, last_px_of, last_qty_of, venue_order_id_of, OrderEvent};
use crate::order::{
    OrderError,
    conflicts, fill_qty, replay, step_or_keep, lemma_notional_bound, legal_live, state_wf, step, target, OrderState,
};

verus! {

/// A live event that the table allows from the current status, and that breaks no other rule,
/// moves the order to the status the table lists for it: a fill to `PartiallyFilled` while
/// quantity remains and to `Filled` once the cumulative fill reaches the order quantity.
pub proof fn lemma_table_transition(s: OrderState, e: OrderEvent)
    requires
        state_wf(s),
        !s.event_ids.contains(e.event_id),
        e.ts_init >= s.last_ts_init,
        !e.reconciliation,
        legal_live(s.status, kind_of(e.body), is_conditional_spec(s.order_type)),
        !conflicts(s.venue_order_id, venue_order_id_of(e.body)),
        !conflicts(s.account_id, account_id_of(e.body)),
        s.filled_qty + fill_qty(e.body) <= s.quantity,
    ensures
        step(s, e) is Ok,
        step(s, e)->Ok_0.status == target(
            s.status,
            kind_of(e.body),
            s.filled_qty + fill_qty(e.body),
            s.quantity,
        ),
        kind_of(e.body) == OrderEventKind::PartiallyFilled && s.filled_qty + fill_qty(e.body)
            < s.quantity ==> step(s, e)->Ok_0.status == OrderStatus::PartiallyFilled,
        (kind_of(e.body) == OrderEventKind::PartiallyFilled || kind_of(e.body)
            == OrderEventKind::Filled) && s.filled_qty + fill_qty(e.body) == s.quantity
            ==> step(s, e)->Ok_0.status == OrderStatus::Filled,
{
}

/// A terminal status absorbs every new live event: it is refused as an illegal transition.
pub proof fn lemma_terminal_absorbs(s: OrderState, e: OrderEvent)
    requires
        is_terminal_spec(s.status),
        !e.reconciliation,
        !s.event_ids.contains(e.event_id),
        e.ts_init >= s.last_ts_init,
    ensures
        step(s, e) == Err::<OrderState, OrderError>(OrderError::IllegalTransition),
{
}

/// An event whose identifier is already in the log changes nothing.
pub proof fn lemma_duplicate_is_noop(s: OrderState, e: OrderEvent)
    requires
        s.event_ids.contains(e.event_id),
    ensures
        step(s, e) == Ok::<OrderState, OrderError>(s),
{
}

/// Applying the same event a second time leaves the state the first application produced.
pub proof fn lemma_apply_twice(s: OrderState, e: OrderEvent)
    requires
        step(s, e) is Ok,
    ensures
        step(step(s, e)->Ok_0, e) == step(s, e),
{
    let t = step(s, e)->Ok_0;
    if !s.event_ids.contains(e.event_id) {
        assert(t.event_ids[t.event_ids.len() - 1] == e.event_id);
    }
}

/// One accepted event keeps the state reachable: fills only grow and stay within the order
/// quantity, the initialization time of the last event never goes back, and a venue order id
/// or account id once set keeps its value.
pub proof fn lemma_step_invariants(s: OrderState, e: OrderEvent)
    requires
        state_wf(s),
        step(s, e) is Ok,
    ensures
        state_wf(step(s, e)->Ok_0),
        s.filled_qty <= step(s, e)->Ok_0.filled_qty <= step(s, e)->Ok_0.quantity,
        step(s, e)->Ok_0.quantity == s.quantity,
        s.last_ts_init <= step(s, e)->Ok_0.last_ts_init,
        s.venue_order_id is Some ==> step(s, e)->Ok_0.venue_order_id == s.venue_order_id,
        s.account_id is Some ==> step(s, e)->Ok_0.account_id == s.account_id,
        s.client_order_id == step(s, e)->Ok_0.client_order_id,
{
    if !s.event_ids.contains(e.event_id) {
        match (last_qty_of(e.body), last_px_of(e.body)) {
            (Some(q), Some(p)) => {
                lemma_notional_bound(s.notional, s.filled_qty, q as nat, p as nat);
            },
            _ => {},
        }
    }
}

/// Over any sequence of events the filled quantity never decreases and never exceeds the
/// order quantity.
pub proof fn lemma_replay_fills_monotone(s: OrderState, es: Seq<OrderEvent>)
    requires
        state_wf(s),
    ensures
        state_wf(replay(s, es)),
        s.filled_qty <= replay(s, es).filled_qty <= s.quantity,
        replay(s, es).quantity == s.quantity,
    decreases es.len(),
{
    if es.len() > 0 {
        if step(s, es[0]) is Ok {
            lemma_step_invariants(s, es[0]);
        }
        lemma_replay_fills_monotone(step_or_keep(s, es[0]), es.drop_first());
    }
}

/// A fill that would take the filled quantity past the order quantity is refused as an
/// overfill, when no earlier rule refuses it.
pub proof fn lemma_overfill_refused(s: OrderState, e: OrderEvent)
    requires
        !s.event_ids.contains(e.event_id),
        e.ts_init >= s.last_ts_init,
        kind_of(e.body) != OrderEventKind::Initialized,
        e.reconciliation || legal_live(s.status, kind_of(e.body), is_conditional_spec(s.order_type)),
        !conflicts(s.venue_order_id, venue_order_id_of(e.body)),
        !conflicts(s.account_id, account_id_of(e.body)),
        s.filled_qty + fill_qty(e.body) > s.quantity,
    ensures
        step(s, e) == Err::<OrderState, OrderError>(OrderError::OverfillError),
{
}

} // verus!
