//! Order lifecycle events: a common identity envelope over a closed set of payloads.
use vstd::prelude::*;

use crate::enums::{OrderEventKind, OrderSide, OrderType, TimeInForce};
use crate::render::{decimal, push_decimal, push_uuid, uuid_text};

verus! {

/// Why an event could not be constructed: which mandatory identifier was missing or empty.
#[derive(Clone, Copy, Debug, PartialEq, Eq, Structural)]
pub enum ValidationError {
    TraderId,
    StrategyId,
    InstrumentId,
    ClientOrderId,
    VenueOrderId,
    AccountId,
    /// The event identifier was not given.
    EventId,
}

/// The payload of each kind of event; a field that does not apply to a kind is not held.
#[allow(inconsistent_fields)]
#[derive(Clone, Debug)]
pub enum EventBody {
    Initialized {
        order_side: OrderSide,
        order_type: OrderType,
        quantity: u64,
        price: Option<u64>,
        time_in_force: TimeInForce,
    },
    Denied { reason: String },
    Submitted { account_id: String },
    Accepted { venue_order_id: String, account_id: String },
    Rejected { account_id: String, reason: String },
    Triggered { venue_order_id: Option<String>, account_id: Option<String> },
    PendingUpdate { venue_order_id: Option<String>, account_id: String },
    PendingCancel { venue_order_id: Option<String>, account_id: String },
    Updated { venue_order_id: Option<String>, account_id: Option<String>, price: Option<u64> },
    ModifyRejected { venue_order_id: Option<String>, account_id: Option<String>, reason: String },
    CancelRejected { venue_order_id: Option<String>, account_id: Option<String>, reason: String },
    PartiallyFilled { venue_order_id: String, account_id: String, last_qty: u64, last_px: u64 },
    Filled { venue_order_id: String, account_id: String, last_qty: u64, last_px: u64 },
    Canceled { venue_order_id: Option<String>, account_id: Option<String> },
    Expired { venue_order_id: Option<String>, account_id: Option<String> },
}

/// One lifecycle event of one order.
#[derive(Clone, Debug)]
pub struct OrderEvent {
    pub trader_id: String,
    pub strategy_id: String,
    pub instrument_id: String,
    pub client_order_id: String,
    pub event_id: u128,
    pub ts_event: u64,
    pub ts_init: u64,
    pub reconciliation: bool,
    pub body: EventBody,
}

/// The views of an optional string.
pub open spec fn opt_view(o: Option<String>) -> Option<Seq<char>> {
    match o {
        Some(s) => Some(s@),
        None => None,
    }
}

pub open spec fn kind_of(b: EventBody) -> OrderEventKind {
    match b {
        EventBody::Initialized { .. } => OrderEventKind::Initialized,
        EventBody::Denied { .. } => OrderEventKind::Denied,
        EventBody::Submitted { .. } => OrderEventKind::Submitted,
        EventBody::Accepted { .. } => OrderEventKind::Accepted,
        EventBody::Rejected { .. } => OrderEventKind::Rejected,
        EventBody::Triggered { .. } => OrderEventKind::Triggered,
        EventBody::PendingUpdate { .. } => OrderEventKind::PendingUpdate,
        EventBody::PendingCancel { .. } => OrderEventKind::PendingCancel,
        EventBody::Updated { .. } => OrderEventKind::Updated,
        EventBody::ModifyRejected { .. } => OrderEventKind::ModifyRejected,
        EventBody::CancelRejected { .. } => OrderEventKind::CancelRejected,
        EventBody::PartiallyFilled { .. } => OrderEventKind::PartiallyFilled,
        EventBody::Filled { .. } => OrderEventKind::Filled,
        EventBody::Canceled { .. } => OrderEventKind::Canceled,
        EventBody::Expired { .. } => OrderEventKind::Expired,
    }
}

/// The venue's identifier carried by the payload, if that kind carries one.
pub open spec fn venue_order_id_of(b: EventBody) -> Option<Seq<char>> {
    match b {
        EventBody::Accepted { venue_order_id, .. } => Some(venue_order_id@),
        EventBody::PartiallyFilled { venue_order_id, .. } => Some(venue_order_id@),
        EventBody::Filled { venue_order_id, .. } => Some(venue_order_id@),
        EventBody::Triggered { venue_order_id, .. } => opt_view(venue_order_id),
        EventBody::PendingUpdate { venue_order_id, .. } => opt_view(venue_order_id),
        EventBody::PendingCancel { venue_order_id, .. } => opt_view(venue_order_id),
        EventBody::Updated { venue_order_id, .. } => opt_view(venue_order_id),
        EventBody::ModifyRejected { venue_order_id, .. } => opt_view(venue_order_id),
        EventBody::CancelRejected { venue_order_id, .. } => opt_view(venue_order_id),
        EventBody::Canceled { venue_order_id, .. } => opt_view(venue_order_id),
        EventBody::Expired { venue_order_id, .. } => opt_view(venue_order_id),
        _ => None,
    }
}

/// The account identifier carried by the payload, if that kind carries one.
pub open spec fn account_id_of(b: EventBody) -> Option<Seq<char>> {
    match b {
        EventBody::Submitted { account_id } => Some(account_id@),
        EventBody::Accepted { account_id, .. } => Some(account_id@),
        EventBody::Rejected { account_id, .. } => Some(account_id@),
        EventBody::PendingUpdate { account_id, .. } => Some(account_id@),
        EventBody::PendingCancel { account_id, .. } => Some(account_id@),
        EventBody::PartiallyFilled { account_id, .. } => Some(account_id@),
        EventBody::Filled { account_id, .. } => Some(account_id@),
        EventBody::Triggered { account_id, .. } => opt_view(account_id),
        EventBody::Updated { account_id, .. } => opt_view(account_id),
        EventBody::ModifyRejected { account_id, .. } => opt_view(account_id),
        EventBody::CancelRejected { account_id, .. } => opt_view(account_id),
        EventBody::Canceled { account_id, .. } => opt_view(account_id),
        EventBody::Expired { account_id, .. } => opt_view(account_id),
        _ => None,
    }
}

/// The quantity filled by the event, for the two fill kinds.
pub open spec fn last_qty_of(b: EventBody) -> Option<u64> {
    match b {
        EventBody::PartiallyFilled { last_qty, .. } => Some(last_qty),
        EventBody::Filled { last_qty, .. } => Some(last_qty),
        _ => None,
    }
}

/// The price of the fill, for the two fill kinds.
pub open spec fn last_px_of(b: EventBody) -> Option<u64> {
    match b {
        EventBody::PartiallyFilled { last_px, .. } => Some(last_px),
        EventBody::Filled { last_px, .. } => Some(last_px),
        _ => None,
    }
}

/// The free-text reason, for the kinds that report a refusal.
pub open spec fn reason_of(b: EventBody) -> Option<Seq<char>> {
    match b {
        EventBody::Denied { reason } => Some(reason@),
        EventBody::Rejected { reason, .. } => Some(reason@),
        EventBody::ModifyRejected { reason, .. } => Some(reason@),
        EventBody::CancelRejected { reason, .. } => Some(reason@),
        _ => None,
    }
}

/// The identifiers that a payload must hold non-empty, with the error for each.
pub open spec fn body_error(b: EventBody) -> Option<ValidationError> {
    match b {
        EventBody::Accepted { venue_order_id, account_id } =>
            if venue_order_id@.len() == 0 {
                Some(ValidationError::VenueOrderId)
            } else if account_id@.len() == 0 {
                Some(ValidationError::AccountId)
            } else {
                None
            },
        _ => match account_id_of(b) {
            Some(a) => if a.len() == 0 { Some(ValidationError::AccountId) } else { None },
            None => None,
        },
    }
}

/// The first error, in field order, that construction reports for these fields.
pub open spec fn event_error(
    trader_id: Seq<char>,
    strategy_id: Seq<char>,
    instrument_id: Seq<char>,
    client_order_id: Seq<char>,
    body: EventBody,
) -> Option<ValidationError> {
    if trader_id.len() == 0 {
        Some(ValidationError::TraderId)
    } else if strategy_id.len() == 0 {
        Some(ValidationError::StrategyId)
    } else if instrument_id.len() == 0 {
        Some(ValidationError::InstrumentId)
    } else if client_order_id.len() == 0 {
        Some(ValidationError::ClientOrderId)
    } else {
        body_error(body)
    }
}

fn clone_opt(o: &Option<String>) -> (r: Option<String>)
    ensures
        opt_view(r) == opt_view(*o),
{
    match o {
        Some(s) => Some(s.clone()),
        None => None,
    }
}

fn body_check(b: &EventBody) -> (r: Option<ValidationError>)
    ensures
        r == body_error(*b),
{
    match b {
        EventBody::Accepted { venue_order_id, account_id } => {
            if venue_order_id.as_str().is_empty() {
                Some(ValidationError::VenueOrderId)
            } else if account_id.as_str().is_empty() {
                Some(ValidationError::AccountId)
            } else {
                None
            }
        },
        _ => {
            let a = b.account_id();
            match a {
                Some(s) => if s.as_str().is_empty() {
                    Some(ValidationError::AccountId)
                } else {
                    None
                },
                None => None,
            }
        },
    }
}

impl EventBody {
    /// The kind of this payload.
    pub fn kind(&self) -> (r: OrderEventKind)
        ensures
            r == kind_of(*self),
    {
        match self {
            EventBody::Initialized { .. } => OrderEventKind::Initialized,
            EventBody::Denied { .. } => OrderEventKind::Denied,
            EventBody::Submitted { .. } => OrderEventKind::Submitted,
            EventBody::Accepted { .. } => OrderEventKind::Accepted,
            EventBody::Rejected { .. } => OrderEventKind::Rejected,
            EventBody::Triggered { .. } => OrderEventKind::Triggered,
            EventBody::PendingUpdate { .. } => OrderEventKind::PendingUpdate,
            EventBody::PendingCancel { .. } => OrderEventKind::PendingCancel,
            EventBody::Updated { .. } => OrderEventKind::Updated,
            EventBody::ModifyRejected { .. } => OrderEventKind::ModifyRejected,
            EventBody::CancelRejected { .. } => OrderEventKind::CancelRejected,
            EventBody::PartiallyFilled { .. } => OrderEventKind::PartiallyFilled,
            EventBody::Filled { .. } => OrderEventKind::Filled,
            EventBody::Canceled { .. } => OrderEventKind::Canceled,
            EventBody::Expired { .. } => OrderEventKind::Expired,
        }
    }

    /// The venue's identifier, where this kind carries one.
    pub fn venue_order_id(&self) -> (r: Option<String>)
        ensures
            opt_view(r) == venue_order_id_of(*self),
    {
        match self {
            EventBody::Accepted { venue_order_id, .. } => Some(venue_order_id.clone()),
            EventBody::PartiallyFilled { venue_order_id, .. } => Some(venue_order_id.clone()),
            EventBody::Filled { venue_order_id, .. } => Some(venue_order_id.clone()),
            EventBody::Triggered { venue_order_id, .. } => clone_opt(venue_order_id),
            EventBody::PendingUpdate { venue_order_id, .. } => clone_opt(venue_order_id),
            EventBody::PendingCancel { venue_order_id, .. } => clone_opt(venue_order_id),
            EventBody::Updated { venue_order_id, .. } => clone_opt(venue_order_id),
            EventBody::ModifyRejected { venue_order_id, .. } => clone_opt(venue_order_id),
            EventBody::CancelRejected { venue_order_id, .. } => clone_opt(venue_order_id),
            EventBody::Canceled { venue_order_id, .. } => clone_opt(venue_order_id),
            EventBody::Expired { venue_order_id, .. } => clone_opt(venue_order_id),
            _ => None,
        }
    }

    /// The account identifier, where this kind carries one.
    pub fn account_id(&self) -> (r: Option<String>)
        ensures
            opt_view(r) == account_id_of(*self),
    {
        match self {
            EventBody::Submitted { account_id } => Some(account_id.clone()),
            EventBody::Accepted { account_id, .. } => Some(account_id.clone()),
            EventBody::Rejected { account_id, .. } => Some(account_id.clone()),
            EventBody::PendingUpdate { account_id, .. } => Some(account_id.clone()),
            EventBody::PendingCancel { account_id, .. } => Some(account_id.clone()),
            EventBody::PartiallyFilled { account_id, .. } => Some(account_id.clone()),
            EventBody::Filled { account_id, .. } => Some(account_id.clone()),
            EventBody::Triggered { account_id, .. } => clone_opt(account_id),
            EventBody::Updated { account_id, .. } => clone_opt(account_id),
            EventBody::ModifyRejected { account_id, .. } => clone_opt(account_id),
            EventBody::CancelRejected { account_id, .. } => clone_opt(account_id),
            EventBody::Canceled { account_id, .. } => clone_opt(account_id),
            EventBody::Expired { account_id, .. } => clone_opt(account_id),
            _ => None,
        }
    }
}

impl OrderEvent {
    /// Builds an event, refusing one whose mandatory identifiers are empty.
    pub fn new(
        trader_id: String,
        strategy_id: String,
        instrument_id: String,
        client_order_id: String,
        event_id: u128,
        ts_event: u64,
        ts_init: u64,
        reconciliation: bool,
        body: EventBody,
    ) -> (r: Result<OrderEvent, ValidationError>)
        ensures
            match r {
                Ok(e) => event_error(trader_id@, strategy_id@, instrument_id@, client_order_id@, body)
                    is None && e.trader_id == trader_id && e.strategy_id == strategy_id
                    && e.instrument_id == instrument_id && e.client_order_id == client_order_id
                    && e.event_id == event_id && e.ts_event == ts_event && e.ts_init == ts_init
                    && e.reconciliation == reconciliation && e.body == body,
                Err(err) => event_error(trader_id@, strategy_id@, instrument_id@, client_order_id@, body)
                    == Some(err),
            },
    {
        if trader_id.as_str().is_empty() {
            return Err(ValidationError::TraderId);
        }
        if strategy_id.as_str().is_empty() {
            return Err(ValidationError::StrategyId);
        }
        if instrument_id.as_str().is_empty() {
            return Err(ValidationError::InstrumentId);
        }
        if client_order_id.as_str().is_empty() {
            return Err(ValidationError::ClientOrderId);
        }
        match body_check(&body) {
            Some(err) => Err(err),
            None => Ok(OrderEvent {
                trader_id,
                strategy_id,
                instrument_id,
                client_order_id,
                event_id,
                ts_event,
                ts_init,
                reconciliation,
                body,
            }),
        }
    }

    /// The kind of this event.
    pub fn kind(&self) -> (r: OrderEventKind)
        ensures
            r == kind_of(self.body),
    {
        self.body.kind()
    }

    /// The venue's identifier, where this kind of event carries one.
    pub fn venue_order_id(&self) -> (r: Option<String>)
        ensures
            opt_view(r) == venue_order_id_of(self.body),
    {
        self.body.venue_order_id()
    }

    /// The account identifier, where this kind of event carries one.
    pub fn account_id(&self) -> (r: Option<String>)
        ensures
            opt_view(r) == account_id_of(self.body),
    {
        self.body.account_id()
    }

    /// The quantity filled, for a fill.
    pub fn last_qty(&self) -> (r: Option<u64>)
        ensures
            r == last_qty_of(self.body),
    {
        match &self.body {
            EventBody::PartiallyFilled { last_qty, .. } => Some(*last_qty),
            EventBody::Filled { last_qty, .. } => Some(*last_qty),
            _ => None,
        }
    }

    /// The price of a fill.
    pub fn last_px(&self) -> (r: Option<u64>)
        ensures
            r == last_px_of(self.body),
    {
        match &self.body {
            EventBody::PartiallyFilled { last_px, .. } => Some(*last_px),
            EventBody::Filled { last_px, .. } => Some(*last_px),
            _ => None,
        }
    }

    /// The reason given by a refusal.
    pub fn reason(&self) -> (r: Option<String>)
        ensures
            opt_view(r) == reason_of(self.body),
    {
        match &self.body {
            EventBody::Denied { reason } => Some(reason.clone()),
            EventBody::Rejected { reason, .. } => Some(reason.clone()),
            EventBody::ModifyRejected { reason, .. } => Some(reason.clone()),
            EventBody::CancelRejected { reason, .. } => Some(reason.clone()),
            _ => None,
        }
    }

    /// The order quantity, which only the initializing event states.
    pub fn quantity(&self) -> (r: Option<u64>)
        ensures
            r == (match self.body {
                EventBody::Initialized { quantity, .. } => Some(quantity),
                _ => None,
            }),
    {
        match &self.body {
            EventBody::Initialized { quantity, .. } => Some(*quantity),
            _ => None,
        }
    }

    /// The order side, which only the initializing event states.
    pub fn order_side(&self) -> (r: Option<OrderSide>)
        ensures
            r == (match self.body {
                EventBody::Initialized { order_side, .. } => Some(order_side),
                _ => None,
            }),
    {
        match &self.body {
            EventBody::Initialized { order_side, .. } => Some(*order_side),
            _ => None,
        }
    }

    /// The order type, which only the initializing event states.
    pub fn order_type(&self) -> (r: Option<OrderType>)
        ensures
            r == (match self.body {
                EventBody::Initialized { order_type, .. } => Some(order_type),
                _ => None,
            }),
    {
        match &self.body {
            EventBody::Initialized { order_type, .. } => Some(*order_type),
            _ => None,
        }
    }

    /// The limit price, stated by the initializing event and by an update.
    pub fn price(&self) -> (r: Option<u64>)
        ensures
            r == (match self.body {
                EventBody::Initialized { price, .. } => price,
                EventBody::Updated { price, .. } => price,
                _ => None,
            }),
    {
        match &self.body {
            EventBody::Initialized { price, .. } => *price,
            EventBody::Updated { price, .. } => *price,
            _ => None,
        }
    }
}

/// The venue's acknowledgement that it accepted an order.
#[derive(Clone, Debug)]
pub struct OrderAccepted {
    pub trader_id: String,
    pub strategy_id: String,
    pub instrument_id: String,
    pub client_order_id: String,
    pub venue_order_id: String,
    pub account_id: String,
    pub event_id: u128,
    pub ts_event: u64,
    pub ts_init: u64,
    pub reconciliation: bool,
}

/// The short human-readable form of an acceptance.
pub open spec fn accepted_display(a: OrderAccepted) -> Seq<char> {
    "OrderAccepted(instrument_id="@ + a.instrument_id@ + ", client_order_id="@
        + a.client_order_id@ + ", venue_order_id="@ + a.venue_order_id@ + ", account_id="@
        + a.account_id@ + ", ts_event="@ + decimal(a.ts_event as nat) + ")"@
}

/// The full human-readable form of an acceptance, every field included.
pub open spec fn accepted_debug(a: OrderAccepted) -> Seq<char> {
    "OrderAccepted(trader_id="@ + a.trader_id@ + ", strategy_id="@ + a.strategy_id@
        + ", instrument_id="@ + a.instrument_id@ + ", client_order_id="@ + a.client_order_id@
        + ", venue_order_id="@ + a.venue_order_id@ + ", account_id="@ + a.account_id@
        + ", event_id="@ + uuid_text(a.event_id as nat) + ", ts_event="@ + decimal(
        a.ts_event as nat,
    ) + ", ts_init="@ + decimal(a.ts_init as nat) + ")"@
}

impl OrderAccepted {
    /// Builds an acceptance, refusing one whose identifiers are empty.
    pub fn new(
        trader_id: String,
        strategy_id: String,
        instrument_id: String,
        client_order_id: String,
        venue_order_id: String,
        account_id: String,
        event_id: u128,
        ts_event: u64,
        ts_init: u64,
        reconciliation: bool,
    ) -> (r: Result<OrderAccepted, ValidationError>)
        ensures
            r is Ok <==> (trader_id@.len() > 0 && strategy_id@.len() > 0 && instrument_id@.len() > 0
                && client_order_id@.len() > 0 && venue_order_id@.len() > 0 && account_id@.len()
                > 0),
            match r {
                Ok(a) => a.trader_id@.len() > 0 && a.strategy_id@.len() > 0
                    && a.instrument_id@.len() > 0 && a.client_order_id@.len() > 0
                    && a.venue_order_id@.len() > 0 && a.account_id@.len() > 0
                    && a.trader_id == trader_id && a.strategy_id == strategy_id
                    && a.instrument_id == instrument_id && a.client_order_id == client_order_id
                    && a.venue_order_id == venue_order_id && a.account_id == account_id
                    && a.event_id == event_id && a.ts_event == ts_event && a.ts_init == ts_init
                    && a.reconciliation == reconciliation,
                Err(err) => err == (if trader_id@.len() == 0 {
                    ValidationError::TraderId
                } else if strategy_id@.len() == 0 {
                    ValidationError::StrategyId
                } else if instrument_id@.len() == 0 {
                    ValidationError::InstrumentId
                } else if client_order_id@.len() == 0 {
                    ValidationError::ClientOrderId
                } else if venue_order_id@.len() == 0 {
                    ValidationError::VenueOrderId
                } else {
                    ValidationError::AccountId
                }),
            },
    {
        if trader_id.as_str().is_empty() {
            return Err(ValidationError::TraderId);
        }
        if strategy_id.as_str().is_empty() {
            return Err(ValidationError::StrategyId);
        }
        if instrument_id.as_str().is_empty() {
            return Err(ValidationError::InstrumentId);
        }
        if client_order_id.as_str().is_empty() {
            return Err(ValidationError::ClientOrderId);
        }
        if venue_order_id.as_str().is_empty() {
            return Err(ValidationError::VenueOrderId);
        }
        if account_id.as_str().is_empty() {
            return Err(ValidationError::AccountId);
        }
        Ok(OrderAccepted {
            trader_id,
            strategy_id,
            instrument_id,
            client_order_id,
            venue_order_id,
            account_id,
            event_id,
            ts_event,
            ts_init,
            reconciliation,
        })
    }

    /// The event's unique identifier.
    pub fn id(&self) -> (r: u128)
        ensures
            r == self.event_id,
    {
        self.event_id
    }

    /// Whether the event reconstructs state rather than reporting a live change.
    pub fn reconciliation(&self) -> (r: bool)
        ensures
            r == self.reconciliation,
    {
        self.reconciliation
    }

    /// The same acceptance as a general lifecycle event.
    pub fn to_event(&self) -> (r: OrderEvent)
        ensures
            r.trader_id@ == self.trader_id@,
            r.strategy_id@ == self.strategy_id@,
            r.instrument_id@ == self.instrument_id@,
            r.client_order_id@ == self.client_order_id@,
            r.event_id == self.event_id,
            r.ts_event == self.ts_event,
            r.ts_init == self.ts_init,
            r.reconciliation == self.reconciliation,
            kind_of(r.body) == OrderEventKind::Accepted,
            venue_order_id_of(r.body) == Some(self.venue_order_id@),
            account_id_of(r.body) == Some(self.account_id@),
    {
        OrderEvent {
            trader_id: self.trader_id.clone(),
            strategy_id: self.strategy_id.clone(),
            instrument_id: self.instrument_id.clone(),
            client_order_id: self.client_order_id.clone(),
            event_id: self.event_id,
            ts_event: self.ts_event,
            ts_init: self.ts_init,
            reconciliation: self.reconciliation,
            body: EventBody::Accepted {
                venue_order_id: self.venue_order_id.clone(),
                account_id: self.account_id.clone(),
            },
        }
    }

    /// The short human-readable form of this acceptance.
    pub fn to_string(&self) -> (r: String)
        ensures
            r@ == accepted_display(*self),
    {
        proof {
            reveal_strlit("OrderAccepted(instrument_id=");
            reveal_strlit(", client_order_id=");
            reveal_strlit(", venue_order_id=");
            reveal_strlit(", account_id=");
            reveal_strlit(", ts_event=");
            reveal_strlit(")");
        }
        let mut out = String::from_str("OrderAccepted(instrument_id=");
        out.append(self.instrument_id.as_str());
        out.append(", client_order_id=");
        out.append(self.client_order_id.as_str());
        out.append(", venue_order_id=");
        out.append(self.venue_order_id.as_str());
        out.append(", account_id=");
        out.append(self.account_id.as_str());
        out.append(", ts_event=");
        push_decimal(&mut out, self.ts_event);
        out.append(")");
        out
    }

    /// The full human-readable form of this acceptance, every field included.
    pub fn debug_string(&self) -> (r: String)
        ensures
            r@ == accepted_debug(*self),
    {
        proof {
            reveal_strlit("OrderAccepted(trader_id=");
            reveal_strlit(", strategy_id=");
            reveal_strlit(", instrument_id=");
            reveal_strlit(", client_order_id=");
            reveal_strlit(", venue_order_id=");
            reveal_strlit(", account_id=");
            reveal_strlit(", event_id=");
            reveal_strlit(", ts_event=");
            reveal_strlit(", ts_init=");
            reveal_strlit(")");
        }
        let mut out = String::from_str("OrderAccepted(trader_id=");
        out.append(self.trader_id.as_str());
        out.append(", strategy_id=");
        out.append(self.strategy_id.as_str());
        out.append(", instrument_id=");
        out.append(self.instrument_id.as_str());
        out.append(", client_order_id=");
        out.append(self.client_order_id.as_str());
        out.append(", venue_order_id=");
        out.append(self.venue_order_id.as_str());
        out.append(", account_id=");
        out.append(self.account_id.as_str());
        out.append(", event_id=");
        push_uuid(&mut out, self.event_id);
        out.append(", ts_event=");
        push_decimal(&mut out, self.ts_event);
        out.append(", ts_init=");
        push_decimal(&mut out, self.ts_init);
        out.append(")");
        out
    }
}

/// Collects the fields of an acceptance by name; times default to zero and the flag to false.
#[derive(Clone, Debug)]
pub struct OrderAcceptedBuilder {
    pub trader_id: Option<String>,
    pub strategy_id: Option<String>,
    pub instrument_id: Option<String>,
    pub client_order_id: Option<String>,
    pub venue_order_id: Option<String>,
    pub account_id: Option<String>,
    pub event_id: Option<u128>,
    pub ts_event: u64,
    pub ts_init: u64,
    pub reconciliation: bool,
}

/// Whether an identifier is missing or empty.
pub open spec fn blank(o: Option<String>) -> bool {
    match o {
        Some(s) => s@.len() == 0,
        None => true,
    }
}

fn take_id(o: Option<String>, err: ValidationError) -> (r: Result<String, ValidationError>)
    ensures
        match r {
            Ok(s) => !blank(o) && o == Some(s),
            Err(e) => blank(o) && e == err,
        },
{
    match o {
        Some(s) => if s.as_str().is_empty() {
            Err(err)
        } else {
            Ok(s)
        },
        None => Err(err),
    }
}

impl OrderAcceptedBuilder {
    /// A builder with no field given.
    pub fn new() -> (r: Self)
        ensures
            r.trader_id is None && r.strategy_id is None && r.instrument_id is None
                && r.client_order_id is None && r.venue_order_id is None && r.account_id is None
                && r.event_id is None && r.ts_event == 0 && r.ts_init == 0 && !r.reconciliation,
    {
        OrderAcceptedBuilder {
            trader_id: None,
            strategy_id: None,
            instrument_id: None,
            client_order_id: None,
            venue_order_id: None,
            account_id: None,
            event_id: None,
            ts_event: 0,
            ts_init: 0,
            reconciliation: false,
        }
    }

    /// The acceptance; fails on the first required field, in declaration order, that is missing
    /// or empty.
    pub fn build(self) -> (r: Result<OrderAccepted, ValidationError>)
        ensures
            match r {
                Ok(a) => !blank(self.trader_id) && !blank(self.strategy_id) && !blank(
                    self.instrument_id,
                ) && !blank(self.client_order_id) && !blank(self.venue_order_id) && !blank(
                    self.account_id,
                ) && self.event_id is Some && self.trader_id == Some(a.trader_id)
                    && self.strategy_id == Some(a.strategy_id) && self.instrument_id == Some(
                    a.instrument_id,
                ) && self.client_order_id == Some(a.client_order_id) && self.venue_order_id
                    == Some(a.venue_order_id) && self.account_id == Some(a.account_id)
                    && self.event_id == Some(a.event_id) && a.ts_event == self.ts_event
                    && a.ts_init == self.ts_init && a.reconciliation == self.reconciliation,
                Err(e) => e == (if blank(self.trader_id) {
                    ValidationError::TraderId
                } else if blank(self.strategy_id) {
                    ValidationError::StrategyId
                } else if blank(self.instrument_id) {
                    ValidationError::InstrumentId
                } else if blank(self.client_order_id) {
                    ValidationError::ClientOrderId
                } else if blank(self.venue_order_id) {
                    ValidationError::VenueOrderId
                } else if blank(self.account_id) {
                    ValidationError::AccountId
                } else {
                    ValidationError::EventId
                }) && (blank(self.trader_id) || blank(self.strategy_id) || blank(
                    self.instrument_id,
                ) || blank(self.client_order_id) || blank(self.venue_order_id) || blank(
                    self.account_id,
                ) || self.event_id is None),
            },
    {
        let trader_id = take_id(self.trader_id, ValidationError::TraderId)?;
        let strategy_id = take_id(self.strategy_id, ValidationError::StrategyId)?;
        let instrument_id = take_id(self.instrument_id, ValidationError::InstrumentId)?;
        let client_order_id = take_id(self.client_order_id, ValidationError::ClientOrderId)?;
        let venue_order_id = take_id(self.venue_order_id, ValidationError::VenueOrderId)?;
        let account_id = take_id(self.account_id, ValidationError::AccountId)?;
        let event_id = match self.event_id {
            Some(id) => id,
            None => {
                return Err(ValidationError::EventId);
            },
        };
        Ok(OrderAccepted {
            trader_id,
            strategy_id,
            instrument_id,
            client_order_id,
            venue_order_id,
            account_id,
            event_id,
            ts_event: self.ts_event,
            ts_init: self.ts_init,
            reconciliation: self.reconciliation,
        })
    }
}

} // verus!
