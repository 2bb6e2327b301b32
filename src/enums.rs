//! Closed enumerations shared by events, orders and the factory.
use vstd::prelude::*;

verus! {

/// Lifecycle status of an order.
#[derive(Clone, Copy, Debug, PartialEq, Eq, Structural)]
pub enum OrderStatus {
    Initialized,
    Denied,
    Submitted,
    Accepted,
    Rejected,
    Triggered,
    PendingUpdate,
    PendingCancel,
    PartiallyFilled,
    Filled,
    Canceled,
    Expired,
}

/// Terminal statuses absorb every further live event.
pub open spec fn is_terminal_spec(s: OrderStatus) -> bool {
    match s {
        OrderStatus::Denied | OrderStatus::Rejected | OrderStatus::Filled
        | OrderStatus::Canceled | OrderStatus::Expired => true,
        _ => false,
    }
}

impl OrderStatus {
    /// Whether the status is terminal.
    pub fn is_terminal(&self) -> (r: bool)
        ensures
            r == is_terminal_spec(*self),
    {
        match self {
            OrderStatus::Denied | OrderStatus::Rejected | OrderStatus::Filled
            | OrderStatus::Canceled | OrderStatus::Expired => true,
            _ => false,
        }
    }
}

/// Side of an order.
#[derive(Clone, Copy, Debug, PartialEq, Eq, Structural)]
pub enum OrderSide {
    Buy,
    Sell,
}

/// Type of an order.
#[derive(Clone, Copy, Debug, PartialEq, Eq, Structural)]
pub enum OrderType {
    Market,
    Limit,
    StopMarket,
    StopLimit,
    MarketIfTouched,
    LimitIfTouched,
}

/// Conditional orders wait for a trigger before they rest or execute.
pub open spec fn is_conditional_spec(t: OrderType) -> bool {
    match t {
        OrderType::StopMarket | OrderType::StopLimit | OrderType::MarketIfTouched
        | OrderType::LimitIfTouched => true,
        _ => false,
    }
}

impl OrderType {
    /// Whether orders of this type are triggered before they work.
    pub fn is_conditional(&self) -> (r: bool)
        ensures
            r == is_conditional_spec(*self),
    {
        match self {
            OrderType::StopMarket | OrderType::StopLimit | OrderType::MarketIfTouched
            | OrderType::LimitIfTouched => true,
            _ => false,
        }
    }
}

/// How long an order stays working.
#[derive(Clone, Copy, Debug, PartialEq, Eq, Structural)]
pub enum TimeInForce {
    Gtc,
    Ioc,
    Fok,
    Gtd,
    Day,
}

/// The kind of a lifecycle event.
#[derive(Clone, Copy, Debug, PartialEq, Eq, Structural)]
pub enum OrderEventKind {
    Initialized,
    Denied,
    Submitted,
    Accepted,
    Rejected,
    Triggered,
    PendingUpdate,
    PendingCancel,
    Updated,
    ModifyRejected,
    CancelRejected,
    PartiallyFilled,
    Filled,
    Canceled,
    Expired,
}

} // verus!
