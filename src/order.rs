//! The per-order aggregate: applies lifecycle events in arrival order under the transition table.
use vstd::prelude::*;

use crate::enums::{
    is_conditional_spec, is_terminal_spec, OrderEventKind, OrderSide, OrderStatus, OrderType,
    TimeInForce,
};
use crate::events::{
    account_id_of, kind_of, last_px_of, last_qty_of, opt_view, venue_order_id_of, EventBody,
    OrderEvent,
};

verus! {

/// Why an event was refused; a refused event leaves the order unchanged.
#[derive(Clone, Copy, Debug, PartialEq, Eq, Structural)]
pub enum OrderError {
    /// A live event that the transition table does not allow from the current status.
    IllegalTransition,
    /// An event initialized before the last event applied.
    OutOfOrderEvent,
    /// A fill that would take the filled quantity past the order quantity.
    OverfillError,
    /// An event that would change a venue order id or account id already set.
    FieldConflict,
}

/// The abstract state of an order.
pub struct OrderState {
    pub trader_id: Seq<char>,
    pub strategy_id: Seq<char>,
    pub instrument_id: Seq<char>,
    pub client_order_id: Seq<char>,
    pub order_side: OrderSide,
    pub order_type: OrderType,
    pub time_in_force: TimeInForce,
    pub quantity: nat,
    pub price: Option<u64>,
    pub status: OrderStatus,
    pub filled_qty: nat,
    /// Sum over all fills of quantity times price.
    pub notional: nat,
    pub venue_order_id: Option<Seq<char>>,
    pub account_id: Option<Seq<char>>,
    pub last_ts_init: nat,
    /// Identifiers of the applied events, in the order they were applied.
    pub event_ids: Seq<u128>,
}

/// Whether the transition table allows a live event of `kind` from `status`.
pub open spec fn legal_live(status: OrderStatus, kind: OrderEventKind, conditional: bool) -> bool {
    match kind {
        OrderEventKind::Initialized => false,
        OrderEventKind::Denied => status == OrderStatus::Initialized,
        OrderEventKind::Submitted => status == OrderStatus::Initialized,
        OrderEventKind::Accepted => status == OrderStatus::Submitted,
        OrderEventKind::Rejected => status == OrderStatus::Submitted,
        OrderEventKind::Triggered => conditional && status == OrderStatus::Accepted,
        OrderEventKind::PendingUpdate => is_working(status),
        OrderEventKind::PendingCancel => is_working(status) || status == OrderStatus::PendingUpdate,
        OrderEventKind::Updated => is_working(status) || status == OrderStatus::PendingUpdate,
        OrderEventKind::ModifyRejected => status == OrderStatus::PendingUpdate,
        OrderEventKind::CancelRejected => status == OrderStatus::PendingCancel,
        OrderEventKind::PartiallyFilled => is_working(status),
        OrderEventKind::Filled => is_working(status),
        OrderEventKind::Canceled => !is_terminal_spec(status),
        OrderEventKind::Expired => !is_terminal_spec(status),
    }
}

/// The statuses in which an order works at the venue and can be filled.
pub open spec fn is_working(s: OrderStatus) -> bool {
    s == OrderStatus::Accepted || s == OrderStatus::Triggered || s == OrderStatus::PartiallyFilled
}

/// The status an order returns to once a pending request is resolved.
pub open spec fn resting(status: OrderStatus, filled_qty: nat) -> OrderStatus {
    if is_working(status) {
        status
    } else if filled_qty > 0 {
        OrderStatus::PartiallyFilled
    } else {
        OrderStatus::Accepted
    }
}

/// The status after an event of `kind`, with `filled_qty` the filled quantity after it.
pub open spec fn target(status: OrderStatus, kind: OrderEventKind, filled_qty: nat, quantity: nat) -> OrderStatus {
    match kind {
        OrderEventKind::Initialized => OrderStatus::Initialized,
        OrderEventKind::Denied => OrderStatus::Denied,
        OrderEventKind::Submitted => OrderStatus::Submitted,
        OrderEventKind::Accepted => OrderStatus::Accepted,
        OrderEventKind::Rejected => OrderStatus::Rejected,
        OrderEventKind::Triggered => OrderStatus::Triggered,
        OrderEventKind::PendingUpdate => OrderStatus::PendingUpdate,
        OrderEventKind::PendingCancel => OrderStatus::PendingCancel,
        OrderEventKind::Updated => resting(status, filled_qty),
        OrderEventKind::ModifyRejected => resting(status, filled_qty),
        OrderEventKind::CancelRejected => resting(status, filled_qty),
        OrderEventKind::PartiallyFilled | OrderEventKind::Filled =>
            if filled_qty == quantity { OrderStatus::Filled } else { OrderStatus::PartiallyFilled },
        OrderEventKind::Canceled => OrderStatus::Canceled,
        OrderEventKind::Expired => OrderStatus::Expired,
    }
}

/// The quantity an event fills: its fill quantity for a fill, zero otherwise.
pub open spec fn fill_qty(b: EventBody) -> nat {
    match last_qty_of(b) {
        Some(q) => q as nat,
        None => 0,
    }
}

/// The fill's quantity times its price, zero for an event that is no fill.
pub open spec fn fill_notional(b: EventBody) -> nat {
    match (last_qty_of(b), last_px_of(b)) {
        (Some(q), Some(p)) => q as nat * p as nat,
        _ => 0,
    }
}

/// Whether a set-once field already holding `cur` would be given a different value.
pub open spec fn conflicts(cur: Option<Seq<char>>, new: Option<Seq<char>>) -> bool {
    match (cur, new) {
        (Some(a), Some(b)) => a != b,
        _ => false,
    }
}

/// A set-once field after an event offered `new`.
pub open spec fn set_once(cur: Option<Seq<char>>, new: Option<Seq<char>>) -> Option<Seq<char>> {
    if cur is Some { cur } else { new }
}

/// The state after an accepted event.
pub open spec fn advance(s: OrderState, e: OrderEvent) -> OrderState {
    let filled = s.filled_qty + fill_qty(e.body);
    OrderState {
        price: match e.body {
            EventBody::Updated { price: Some(p), .. } => Some(p),
            _ => s.price,
        },
        status: target(s.status, kind_of(e.body), filled, s.quantity),
        filled_qty: filled,
        notional: s.notional + fill_notional(e.body),
        venue_order_id: set_once(s.venue_order_id, venue_order_id_of(e.body)),
        account_id: set_once(s.account_id, account_id_of(e.body)),
        last_ts_init: e.ts_init as nat,
        event_ids: s.event_ids.push(e.event_id),
        ..s
    }
}

/// The result of applying `e` to an order in state `s`: the next state, or the error that refuses it.
/// An event already applied leaves the state as it is.
pub open spec fn step(s: OrderState, e: OrderEvent) -> Result<OrderState, OrderError> {
    let kind = kind_of(e.body);
    if s.event_ids.contains(e.event_id) {
        Ok(s)
    } else if (e.ts_init as nat) < s.last_ts_init {
        Err(OrderError::OutOfOrderEvent)
    } else if kind == OrderEventKind::Initialized || (!e.reconciliation && !legal_live(
        s.status,
        kind,
        is_conditional_spec(s.order_type),
    )) {
        Err(OrderError::IllegalTransition)
    } else if conflicts(s.venue_order_id, venue_order_id_of(e.body)) || conflicts(
        s.account_id,
        account_id_of(e.body),
    ) {
        Err(OrderError::FieldConflict)
    } else if s.filled_qty + fill_qty(e.body) > s.quantity {
        Err(OrderError::OverfillError)
    } else {
        Ok(advance(s, e))
    }
}

/// The state of an order just created by its initializing event.
pub open spec fn initial_state(e: OrderEvent) -> OrderState
    recommends
        kind_of(e.body) == OrderEventKind::Initialized,
{
    match e.body {
        EventBody::Initialized { order_side, order_type, quantity, price, time_in_force } =>
            OrderState {
            trader_id: e.trader_id@,
            strategy_id: e.strategy_id@,
            instrument_id: e.instrument_id@,
            client_order_id: e.client_order_id@,
            order_side,
            order_type,
            time_in_force,
            quantity: quantity as nat,
            price,
            status: OrderStatus::Initialized,
            filled_qty: 0,
            notional: 0,
            venue_order_id: None,
            account_id: None,
            last_ts_init: e.ts_init as nat,
            event_ids: seq![e.event_id],
        },
        _ => arbitrary(),
    }
}

/// The state after applying `es` in order, where a refused event leaves the state as it was.
pub open spec fn replay(s: OrderState, es: Seq<OrderEvent>) -> OrderState
    decreases es.len(),
{
    if es.len() == 0 {
        s
    } else {
        replay(step_or_keep(s, es[0]), es.drop_first())
    }
}

/// The state after `e`, or `s` itself when `e` is refused.
pub open spec fn step_or_keep(s: OrderState, e: OrderEvent) -> OrderState {
    match step(s, e) {
        Ok(t) => t,
        Err(_) => s,
    }
}

/// Replaying one more event applies it to the state the others reached.
pub proof fn lemma_replay_push(s: OrderState, es: Seq<OrderEvent>, e: OrderEvent)
    ensures
        replay(s, es.push(e)) == step_or_keep(replay(s, es), e),
    decreases es.len(),
{
    if es.len() > 0 {
        assert(es.push(e)[0] == es[0]);
        assert(es.push(e).drop_first() =~= es.drop_first().push(e));
        lemma_replay_push(step_or_keep(s, es[0]), es.drop_first(), e);
        assert(replay(s, es) == replay(step_or_keep(s, es[0]), es.drop_first()));
    } else {
        assert(es.push(e)[0] == e);
        assert(es.push(e).drop_first() =~= Seq::<OrderEvent>::empty());
        assert(replay(step_or_keep(s, e), Seq::<OrderEvent>::empty()) == step_or_keep(s, e));
        assert(replay(s, es) == s);
    }
}

proof fn lemma_step_client_order_id(s: OrderState, e: OrderEvent)
    requires
        step(s, e) is Ok,
    ensures
        step(s, e)->Ok_0.client_order_id == s.client_order_id,
{
}

/// Whether a state could be reached: fills never exceed the order quantity.
pub open spec fn state_wf(s: OrderState) -> bool {
    &&& s.filled_qty <= s.quantity
    &&& s.notional <= s.filled_qty * (u64::MAX as nat)
}

fn legal_live_exec(status: OrderStatus, kind: OrderEventKind, conditional: bool) -> (r: bool)
    ensures
        r == legal_live(status, kind, conditional),
{
    let working = status == OrderStatus::Accepted || status == OrderStatus::Triggered
        || status == OrderStatus::PartiallyFilled;
    match kind {
        OrderEventKind::Initialized => false,
        OrderEventKind::Denied => status == OrderStatus::Initialized,
        OrderEventKind::Submitted => status == OrderStatus::Initialized,
        OrderEventKind::Accepted => status == OrderStatus::Submitted,
        OrderEventKind::Rejected => status == OrderStatus::Submitted,
        OrderEventKind::Triggered => conditional && status == OrderStatus::Accepted,
        OrderEventKind::PendingUpdate => working,
        OrderEventKind::PendingCancel => working || status == OrderStatus::PendingUpdate,
        OrderEventKind::Updated => working || status == OrderStatus::PendingUpdate,
        OrderEventKind::ModifyRejected => status == OrderStatus::PendingUpdate,
        OrderEventKind::CancelRejected => status == OrderStatus::PendingCancel,
        OrderEventKind::PartiallyFilled => working,
        OrderEventKind::Filled => working,
        OrderEventKind::Canceled => !status.is_terminal(),
        OrderEventKind::Expired => !status.is_terminal(),
    }
}

fn target_exec(status: OrderStatus, kind: OrderEventKind, filled_qty: u64, quantity: u64) -> (r: OrderStatus)
    ensures
        r == target(status, kind, filled_qty as nat, quantity as nat),
{
    let resting = if status == OrderStatus::Accepted || status == OrderStatus::Triggered
        || status == OrderStatus::PartiallyFilled {
        status
    } else if filled_qty > 0 {
        OrderStatus::PartiallyFilled
    } else {
        OrderStatus::Accepted
    };
    match kind {
        OrderEventKind::Initialized => OrderStatus::Initialized,
        OrderEventKind::Denied => OrderStatus::Denied,
        OrderEventKind::Submitted => OrderStatus::Submitted,
        OrderEventKind::Accepted => OrderStatus::Accepted,
        OrderEventKind::Rejected => OrderStatus::Rejected,
        OrderEventKind::Triggered => OrderStatus::Triggered,
        OrderEventKind::PendingUpdate => OrderStatus::PendingUpdate,
        OrderEventKind::PendingCancel => OrderStatus::PendingCancel,
        OrderEventKind::Updated => resting,
        OrderEventKind::ModifyRejected => resting,
        OrderEventKind::CancelRejected => resting,
        OrderEventKind::PartiallyFilled | OrderEventKind::Filled => {
            if filled_qty == quantity {
                OrderStatus::Filled
            } else {
                OrderStatus::PartiallyFilled
            }
        },
        OrderEventKind::Canceled => OrderStatus::Canceled,
        OrderEventKind::Expired => OrderStatus::Expired,
    }
}

fn conflicts_exec(cur: &Option<String>, new: &Option<String>) -> (r: bool)
    ensures
        r == conflicts(opt_view(*cur), opt_view(*new)),
{
    match (cur, new) {
        (Some(a), Some(b)) => !a.eq(b),
        _ => false,
    }
}

pub(crate) proof fn lemma_notional_bound(notional: nat, filled: nat, q: nat, px: nat)
    requires
        notional <= filled * (u64::MAX as nat),
        q <= u64::MAX,
        px <= u64::MAX,
    ensures
        q * px <= u64::MAX as nat * u64::MAX as nat,
        notional + q * px <= (filled + q) * (u64::MAX as nat),
{
    let m = u64::MAX as nat;
    assert(q * px <= m * m) by (nonlinear_arith)
        requires
            q <= m,
            px <= m,
    ;
    assert(q * px <= q * m) by (nonlinear_arith)
        requires
            px <= m,
    ;
    assert((filled + q) * m == filled * m + q * m) by (nonlinear_arith);
}

/// One order: its identity, terms, status, fill accounting and the log of applied events.
pub struct Order {
    trader_id: String,
    strategy_id: String,
    instrument_id: String,
    client_order_id: String,
    order_side: OrderSide,
    order_type: OrderType,
    time_in_force: TimeInForce,
    quantity: u64,
    price: Option<u64>,
    status: OrderStatus,
    filled_qty: u64,
    notional: u128,
    venue_order_id: Option<String>,
    account_id: Option<String>,
    last_ts_init: u64,
    event_ids: Vec<u128>,
}

impl View for Order {
    type V = OrderState;

    closed spec fn view(&self) -> OrderState {
        OrderState {
            trader_id: self.trader_id@,
            strategy_id: self.strategy_id@,
            instrument_id: self.instrument_id@,
            client_order_id: self.client_order_id@,
            order_side: self.order_side,
            order_type: self.order_type,
            time_in_force: self.time_in_force,
            quantity: self.quantity as nat,
            price: self.price,
            status: self.status,
            filled_qty: self.filled_qty as nat,
            notional: self.notional as nat,
            venue_order_id: opt_view(self.venue_order_id),
            account_id: opt_view(self.account_id),
            last_ts_init: self.last_ts_init as nat,
            event_ids: self.event_ids@,
        }
    }
}

impl Order {
    /// Whether the order is in a reachable state.
    pub open spec fn wf(&self) -> bool {
        state_wf(self@)
    }

    /// Creates an order from its initializing event; any other kind of event is refused.
    pub fn new(init: &OrderEvent) -> (r: Result<Order, OrderError>)
        ensures
            match r {
                Ok(o) => kind_of(init.body) == OrderEventKind::Initialized && o@ == initial_state(
                    *init,
                ) && o.wf(),
                Err(err) => kind_of(init.body) != OrderEventKind::Initialized && err
                    == OrderError::IllegalTransition,
            },
    {
        match &init.body {
            EventBody::Initialized { order_side, order_type, quantity, price, time_in_force } => {
                let mut event_ids: Vec<u128> = Vec::new();
                event_ids.push(init.event_id);
                let o = Order {
                    trader_id: init.trader_id.clone(),
                    strategy_id: init.strategy_id.clone(),
                    instrument_id: init.instrument_id.clone(),
                    client_order_id: init.client_order_id.clone(),
                    order_side: *order_side,
                    order_type: *order_type,
                    time_in_force: *time_in_force,
                    quantity: *quantity,
                    price: *price,
                    status: OrderStatus::Initialized,
                    filled_qty: 0,
                    notional: 0,
                    venue_order_id: None,
                    account_id: None,
                    last_ts_init: init.ts_init,
                    event_ids,
                };
                assert(o@.event_ids =~= seq![init.event_id]);
                Ok(o)
            },
            _ => Err(OrderError::IllegalTransition),
        }
    }

    /// Rebuilds an order from its event log: the first event creates it, and the others are
    /// applied in order, a refused one changing nothing.
    pub fn from_events(events: &Vec<OrderEvent>) -> (r: Result<Order, OrderError>)
        requires
            events@.len() > 0,
            forall|i: int|
                0 <= i < events@.len() ==> #[trigger] events@[i].client_order_id@
                    == events@[0].client_order_id@,
        ensures
            match r {
                Ok(o) => kind_of(events@[0].body) == OrderEventKind::Initialized && o.wf() && o@
                    == replay(initial_state(events@[0]), events@.drop_first()),
                Err(err) => kind_of(events@[0].body) != OrderEventKind::Initialized && err
                    == OrderError::IllegalTransition,
            },
    {
        let mut order = match Order::new(&events[0]) {
            Ok(o) => o,
            Err(err) => {
                return Err(err);
            },
        };
        let mut i: usize = 1;
        while i < events.len()
            invariant
                1 <= i <= events@.len(),
                order.wf(),
                order@.client_order_id == events@[0].client_order_id@,
                order@ == replay(initial_state(events@[0]), events@.subrange(1, i as int)),
                forall|j: int|
                    0 <= j < events@.len() ==> #[trigger] events@[j].client_order_id@
                        == events@[0].client_order_id@,
            decreases events@.len() - i,
        {
            let ghost before = order@;
            let _ = order.apply(&events[i]);
            proof {
                lemma_replay_push(
                    initial_state(events@[0]),
                    events@.subrange(1, i as int),
                    events@[i as int],
                );
                assert(events@.subrange(1, i as int).push(events@[i as int]) =~= events@.subrange(
                    1,
                    i + 1,
                ));
                if step(before, events@[i as int]) is Ok {
                    lemma_step_client_order_id(before, events@[i as int]);
                }
            }
            i += 1;
        }
        assert(events@.subrange(1, events@.len() as int) =~= events@.drop_first());
        Ok(order)
    }

    /// Whether an event with this identifier has been applied.
    pub fn has_applied(&self, event_id: u128) -> (r: bool)
        ensures
            r == self@.event_ids.contains(event_id),
    {
        let mut i: usize = 0;
        while i < self.event_ids.len()
            invariant
                i <= self.event_ids@.len(),
                forall|j: int| 0 <= j < i ==> self.event_ids@[j] != event_id,
            decreases self.event_ids@.len() - i,
        {
            if self.event_ids[i] == event_id {
                assert(self@.event_ids[i as int] == event_id);
                return true;
            }
            i += 1;
        }
        false
    }

    /// Applies one event. An event already applied is absorbed and changes nothing; a refused
    /// event leaves the order unchanged and reports why.
    pub fn apply(&mut self, event: &OrderEvent) -> (r: Result<(), OrderError>)
        requires
            old(self).wf(),
            event.client_order_id@ == old(self)@.client_order_id,
        ensures
            final(self).wf(),
            old(self)@.event_ids.contains(event.event_id) ==> r is Ok && *final(self) == *old(self),
            match step(old(self)@, *event) {
                Ok(s) => r is Ok && final(self)@ == s,
                Err(err) => r == Err::<(), OrderError>(err) && *final(self) == *old(self),
            },
    {
        if self.has_applied(event.event_id) {
            return Ok(());
        }
        if event.ts_init < self.last_ts_init {
            return Err(OrderError::OutOfOrderEvent);
        }
        let kind = event.kind();
        if kind == OrderEventKind::Initialized {
            return Err(OrderError::IllegalTransition);
        }
        if !event.reconciliation && !legal_live_exec(self.status, kind, self.order_type.is_conditional()) {
            return Err(OrderError::IllegalTransition);
        }
        let venue_order_id = event.venue_order_id();
        let account_id = event.account_id();
        if conflicts_exec(&self.venue_order_id, &venue_order_id) || conflicts_exec(
            &self.account_id,
            &account_id,
        ) {
            return Err(OrderError::FieldConflict);
        }
        let (qty, px): (u64, u64) = match (event.last_qty(), event.last_px()) {
            (Some(q), Some(p)) => (q, p),
            _ => (0, 0),
        };
        if qty > self.quantity - self.filled_qty {
            return Err(OrderError::OverfillError);
        }
        let filled = self.filled_qty + qty;
        proof {
            lemma_notional_bound(self.notional as nat, self.filled_qty as nat, qty as nat, px as nat);
        }
        let fill_notional = (qty as u128) * (px as u128);
        self.notional = self.notional + fill_notional;
        self.status = target_exec(self.status, kind, filled, self.quantity);
        self.filled_qty = filled;
        match &event.body {
            EventBody::Updated { price: Some(p), .. } => {
                self.price = Some(*p);
            },
            _ => {},
        }
        if self.venue_order_id.is_none() {
            self.venue_order_id = venue_order_id;
        }
        if self.account_id.is_none() {
            self.account_id = account_id;
        }
        self.last_ts_init = event.ts_init;
        self.event_ids.push(event.event_id);
        Ok(())
    }

    /// The current status.
    pub fn status(&self) -> (r: OrderStatus)
        ensures
            r == self@.status,
    {
        self.status
    }

    /// Whether the order has reached a terminal status.
    pub fn is_closed(&self) -> (r: bool)
        ensures
            r == is_terminal_spec(self@.status),
    {
        self.status.is_terminal()
    }

    /// The order quantity.
    pub fn quantity(&self) -> (r: u64)
        ensures
            r == self@.quantity,
    {
        self.quantity
    }

    /// The quantity filled so far.
    pub fn filled_qty(&self) -> (r: u64)
        ensures
            r == self@.filled_qty,
    {
        self.filled_qty
    }

    /// The quantity still to fill.
    pub fn leaves_qty(&self) -> (r: u64)
        requires
            self.wf(),
        ensures
            r == self@.quantity - self@.filled_qty,
    {
        self.quantity - self.filled_qty
    }

    /// The quantity-weighted average price of the fills, rounded down; none before a fill.
    pub fn avg_px(&self) -> (r: Option<u128>)
        ensures
            r == (if self@.filled_qty == 0 {
                None
            } else {
                Some((self@.notional / self@.filled_qty) as u128)
            }),
    {
        if self.filled_qty == 0 {
            None
        } else {
            Some(self.notional / (self.filled_qty as u128))
        }
    }

    /// The venue's identifier, once an event has set it.
    pub fn venue_order_id(&self) -> (r: Option<String>)
        ensures
            opt_view(r) == self@.venue_order_id,
    {
        match &self.venue_order_id {
            Some(v) => Some(v.clone()),
            None => None,
        }
    }

    /// The account identifier, once an event has set it.
    pub fn account_id(&self) -> (r: Option<String>)
        ensures
            opt_view(r) == self@.account_id,
    {
        match &self.account_id {
            Some(a) => Some(a.clone()),
            None => None,
        }
    }

    /// The client order identifier, the order's key.
    pub fn client_order_id(&self) -> (r: String)
        ensures
            r@ == self@.client_order_id,
    {
        self.client_order_id.clone()
    }

    /// The instrument traded.
    pub fn instrument_id(&self) -> (r: String)
        ensures
            r@ == self@.instrument_id,
    {
        self.instrument_id.clone()
    }

    /// The side of the order.
    pub fn order_side(&self) -> (r: OrderSide)
        ensures
            r == self@.order_side,
    {
        self.order_side
    }

    /// The type of the order.
    pub fn order_type(&self) -> (r: OrderType)
        ensures
            r == self@.order_type,
    {
        self.order_type
    }

    /// The current limit price, if any.
    pub fn price(&self) -> (r: Option<u64>)
        ensures
            r == self@.price,
    {
        self.price
    }

    /// The initialization time of the last event applied.
    pub fn last_ts_init(&self) -> (r: u64)
        ensures
            r == self@.last_ts_init,
    {
        self.last_ts_init
    }

    /// The number of events applied, the initializing one included.
    pub fn event_count(&self) -> (r: usize)
        ensures
            r == self@.event_ids.len(),
    {
        self.event_ids.len()
    }

    /// The identifier of the `i`-th event applied.
    pub fn event_id_at(&self, i: usize) -> (r: u128)
        requires
            i < self@.event_ids.len(),
        ensures
            r == self@.event_ids[i as int],
    {
        self.event_ids[i]
    }
}

} // verus!
