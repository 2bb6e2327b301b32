use order_events::enums::{OrderEventKind, OrderSide, OrderStatus, OrderType, TimeInForce};
use order_events::events::{EventBody, OrderAccepted, OrderEvent, ValidationError};
use order_events::factory::order_factory;
use order_events::order::{Order, OrderError};

const INSTRUMENT: &str = "BTCUSDT.COINBASE";

fn event(order: &Order, event_id: u128, ts_init: u64, reconciliation: bool, body: EventBody) -> OrderEvent {
    OrderEvent::new(
        "TRADER-000".to_string(),
        "EMACross-001".to_string(),
        order.instrument_id(),
        order.client_order_id(),
        event_id,
        ts_init,
        ts_init,
        reconciliation,
        body,
    )
    .unwrap()
}

fn submitted(order: &Order, event_id: u128, ts: u64) -> OrderEvent {
    event(order, event_id, ts, false, EventBody::Submitted { account_id: "SIM-001".to_string() })
}

fn accepted(order: &Order, event_id: u128, ts: u64, reconciliation: bool) -> OrderEvent {
    event(
        order,
        event_id,
        ts,
        reconciliation,
        EventBody::Accepted { venue_order_id: "001".to_string(), account_id: "SIM-001".to_string() },
    )
}

fn fill(order: &Order, event_id: u128, ts: u64, partial: bool, qty: u64, px: u64) -> OrderEvent {
    let venue_order_id = "001".to_string();
    let account_id = "SIM-001".to_string();
    let body = if partial {
        EventBody::PartiallyFilled { venue_order_id, account_id, last_qty: qty, last_px: px }
    } else {
        EventBody::Filled { venue_order_id, account_id, last_qty: qty, last_px: px }
    };
    event(order, event_id, ts, false, body)
}

fn plain(order: &Order, event_id: u128, ts: u64, body: EventBody) -> OrderEvent {
    event(order, event_id, ts, false, body)
}

/// A limit order for 1.0 (ten units of 0.1) created by the stub factory at time zero.
fn new_order(order_type: OrderType) -> Order {
    let mut factory = order_factory();
    let init = factory
        .create(INSTRUMENT.to_string(), OrderSide::Buy, order_type, 10, Some(100), TimeInForce::Gtc, 1, 0)
        .unwrap();
    Order::new(&init).unwrap()
}

fn accepted_order() -> Order {
    let mut order = new_order(OrderType::Limit);
    let e = submitted(&order, 2, 1);
    order.apply(&e).unwrap();
    let e = accepted(&order, 3, 2, false);
    order.apply(&e).unwrap();
    order
}

fn stub_accepted() -> OrderAccepted {
    OrderAccepted::new(
        "TRADER-000".to_string(),
        "EMACross-001".to_string(),
        INSTRUMENT.to_string(),
        "O-19700101-0000-000-001-1".to_string(),
        "001".to_string(),
        "SIM-001".to_string(),
        7,
        0,
        0,
        false,
    )
    .unwrap()
}

#[test]
fn test_order_accepted_display() {
    let display = stub_accepted().to_string();
    assert_eq!(
        display,
        "OrderAccepted(instrument_id=BTCUSDT.COINBASE, client_order_id=O-19700101-0000-000-001-1, venue_order_id=001, account_id=SIM-001, ts_event=0)"
    );
}

#[test]
fn display_renders_nonzero_ts_event() {
    let mut a = stub_accepted();
    a.ts_event = 1_700_000_000_123;
    assert!(a.to_string().ends_with("ts_event=1700000000123)"));
}

#[test]
fn scenario_factory_submit_accept() {
    let mut factory = order_factory();
    let init = factory
        .create(INSTRUMENT.to_string(), OrderSide::Buy, OrderType::Limit, 10, Some(100), TimeInForce::Gtc, 1, 0)
        .unwrap();
    assert_eq!(init.kind(), OrderEventKind::Initialized);
    assert_eq!(init.client_order_id, "O-19700101-0000-000-001-1");
    assert_eq!(factory.count(), 1);
    let mut order = Order::new(&init).unwrap();
    assert_eq!(order.status(), OrderStatus::Initialized);
    let e = submitted(&order, 2, 0);
    order.apply(&e).unwrap();
    assert_eq!(order.status(), OrderStatus::Submitted);
    assert_eq!(order.venue_order_id(), None);
    let acc = OrderAccepted::new(
        "TRADER-000".to_string(),
        "EMACross-001".to_string(),
        INSTRUMENT.to_string(),
        order.client_order_id(),
        "001".to_string(),
        "SIM-001".to_string(),
        3,
        0,
        0,
        false,
    )
    .unwrap();
    order.apply(&acc.to_event()).unwrap();
    assert_eq!(order.status(), OrderStatus::Accepted);
    assert_eq!(order.venue_order_id(), Some("001".to_string()));
    assert_eq!(order.account_id(), Some("SIM-001".to_string()));
    assert_eq!(
        acc.to_string(),
        "OrderAccepted(instrument_id=BTCUSDT.COINBASE, client_order_id=O-19700101-0000-000-001-1, venue_order_id=001, account_id=SIM-001, ts_event=0)"
    );
}

#[test]
fn scenario_partial_then_full_fill() {
    let mut order = accepted_order();
    let e = fill(&order, 4, 3, true, 4, 100);
    order.apply(&e).unwrap();
    assert_eq!(order.status(), OrderStatus::PartiallyFilled);
    assert_eq!(order.filled_qty(), 4);
    assert_eq!(order.leaves_qty(), 6);
    let e = fill(&order, 5, 4, false, 6, 110);
    order.apply(&e).unwrap();
    assert_eq!(order.filled_qty(), 10);
    assert_eq!(order.leaves_qty(), 0);
    assert_eq!(order.status(), OrderStatus::Filled);
    assert_eq!(order.avg_px(), Some(106));
    let e = plain(&order, 6, 5, EventBody::Canceled { venue_order_id: None, account_id: None });
    assert_eq!(order.apply(&e), Err(OrderError::IllegalTransition));
    assert_eq!(order.status(), OrderStatus::Filled);
}

#[test]
fn scenario_reconciliation_skips_submitted() {
    let mut order = new_order(OrderType::Limit);
    let e = accepted(&order, 3, 1, true);
    assert_eq!(order.apply(&e), Ok(()));
    assert_eq!(order.status(), OrderStatus::Accepted);
    assert_eq!(order.venue_order_id(), Some("001".to_string()));
}

#[test]
fn live_accept_after_initialized_is_illegal() {
    let mut order = new_order(OrderType::Limit);
    let e = accepted(&order, 3, 1, false);
    assert_eq!(order.apply(&e), Err(OrderError::IllegalTransition));
    assert_eq!(order.status(), OrderStatus::Initialized);
    assert_eq!(order.event_count(), 1);
}

#[test]
fn scenario_duplicate_accept_is_noop() {
    let mut order = new_order(OrderType::Limit);
    let e = submitted(&order, 2, 1);
    order.apply(&e).unwrap();
    let e = accepted(&order, 3, 2, false);
    order.apply(&e).unwrap();
    let count = order.event_count();
    let ts = order.last_ts_init();
    assert_eq!(order.apply(&e), Ok(()));
    assert_eq!(order.status(), OrderStatus::Accepted);
    assert_eq!(order.event_count(), count);
    assert_eq!(order.last_ts_init(), ts);
    assert!(order.has_applied(3));
    assert!(!order.has_applied(4));
}

#[test]
fn duplicate_of_initialized_is_noop() {
    let mut factory = order_factory();
    let init = factory
        .create(INSTRUMENT.to_string(), OrderSide::Sell, OrderType::Market, 5, None, TimeInForce::Ioc, 9, 0)
        .unwrap();
    let mut order = Order::new(&init).unwrap();
    assert_eq!(order.apply(&init), Ok(()));
    assert_eq!(order.event_count(), 1);
    assert_eq!(order.event_id_at(0), 9);
}

#[test]
fn table_transitions_from_listed_statuses() {
    let mut order = new_order(OrderType::Limit);
    let e = plain(&order, 2, 1, EventBody::Denied { reason: "risk".to_string() });
    order.apply(&e).unwrap();
    assert_eq!(order.status(), OrderStatus::Denied);
    assert!(order.is_closed());

    let mut order = new_order(OrderType::Limit);
    let e = submitted(&order, 2, 1);
    order.apply(&e).unwrap();
    let e = plain(&order, 3, 2, EventBody::Rejected { account_id: "SIM-001".to_string(), reason: "x".to_string() });
    order.apply(&e).unwrap();
    assert_eq!(order.status(), OrderStatus::Rejected);

    let mut order = accepted_order();
    let e = plain(&order, 4, 3, EventBody::PendingUpdate { venue_order_id: None, account_id: "SIM-001".to_string() });
    order.apply(&e).unwrap();
    assert_eq!(order.status(), OrderStatus::PendingUpdate);
    let e = plain(&order, 5, 4, EventBody::Updated { venue_order_id: None, account_id: None, price: Some(99) });
    order.apply(&e).unwrap();
    assert_eq!(order.status(), OrderStatus::Accepted);
    assert_eq!(order.price(), Some(99));
    let e = plain(&order, 6, 5, EventBody::PendingCancel { venue_order_id: None, account_id: "SIM-001".to_string() });
    order.apply(&e).unwrap();
    assert_eq!(order.status(), OrderStatus::PendingCancel);
    let e = plain(&order, 7, 6, EventBody::CancelRejected { venue_order_id: None, account_id: None, reason: "late".to_string() });
    order.apply(&e).unwrap();
    assert_eq!(order.status(), OrderStatus::Accepted);
    let e = plain(&order, 8, 7, EventBody::Expired { venue_order_id: None, account_id: None });
    order.apply(&e).unwrap();
    assert_eq!(order.status(), OrderStatus::Expired);
}

#[test]
fn trigger_only_for_conditional_orders() {
    let mut order = accepted_order();
    let e = plain(&order, 4, 3, EventBody::Triggered { venue_order_id: None, account_id: None });
    assert_eq!(order.apply(&e), Err(OrderError::IllegalTransition));

    let mut order = new_order(OrderType::StopLimit);
    let e = submitted(&order, 2, 1);
    order.apply(&e).unwrap();
    let e = accepted(&order, 3, 2, false);
    order.apply(&e).unwrap();
    let e = plain(&order, 4, 3, EventBody::Triggered { venue_order_id: None, account_id: None });
    order.apply(&e).unwrap();
    assert_eq!(order.status(), OrderStatus::Triggered);
    let e = fill(&order, 5, 4, false, 10, 100);
    order.apply(&e).unwrap();
    assert_eq!(order.status(), OrderStatus::Filled);
}

#[test]
fn terminal_statuses_absorb_live_events() {
    let mut order = accepted_order();
    let e = plain(&order, 4, 3, EventBody::Canceled { venue_order_id: None, account_id: None });
    order.apply(&e).unwrap();
    assert_eq!(order.status(), OrderStatus::Canceled);
    let e = fill(&order, 5, 4, true, 1, 100);
    assert_eq!(order.apply(&e), Err(OrderError::IllegalTransition));
    let e = plain(&order, 6, 4, EventBody::Expired { venue_order_id: None, account_id: None });
    assert_eq!(order.apply(&e), Err(OrderError::IllegalTransition));
    assert_eq!(order.status(), OrderStatus::Canceled);
    assert_eq!(order.filled_qty(), 0);
}

#[test]
fn overfill_is_refused_and_state_kept() {
    let mut order = accepted_order();
    let e = fill(&order, 4, 3, true, 7, 100);
    order.apply(&e).unwrap();
    let e = fill(&order, 5, 4, true, 4, 100);
    assert_eq!(order.apply(&e), Err(OrderError::OverfillError));
    assert_eq!(order.filled_qty(), 7);
    assert_eq!(order.status(), OrderStatus::PartiallyFilled);
    assert!(!order.has_applied(5));
}

#[test]
fn fills_never_decrease() {
    let mut order = accepted_order();
    let mut last = order.filled_qty();
    let mut id: u128 = 10;
    for qty in [1u64, 2, 3, 5, 4] {
        let e = fill(&order, id, id as u64, true, qty, 100);
        let _ = order.apply(&e);
        assert!(order.filled_qty() >= last);
        assert!(order.filled_qty() <= order.quantity());
        last = order.filled_qty();
        id += 1;
    }
    assert_eq!(order.filled_qty(), 10);
    assert_eq!(order.status(), OrderStatus::Filled);
}

#[test]
fn out_of_order_event_is_refused() {
    let mut order = new_order(OrderType::Limit);
    let e = submitted(&order, 2, 50);
    order.apply(&e).unwrap();
    let e = accepted(&order, 3, 49, false);
    assert_eq!(order.apply(&e), Err(OrderError::OutOfOrderEvent));
    let e = accepted(&order, 3, 49, true);
    assert_eq!(order.apply(&e), Err(OrderError::OutOfOrderEvent));
    assert_eq!(order.last_ts_init(), 50);
    let e = accepted(&order, 3, 50, false);
    assert_eq!(order.apply(&e), Ok(()));
}

#[test]
fn set_once_fields_refuse_a_different_value() {
    let mut order = accepted_order();
    let e = plain(
        &order,
        4,
        3,
        EventBody::PartiallyFilled { venue_order_id: "002".to_string(), account_id: "SIM-001".to_string(), last_qty: 1, last_px: 1 },
    );
    assert_eq!(order.apply(&e), Err(OrderError::FieldConflict));
    let e = fill(&order, 5, 3, true, 1, 1);
    assert_eq!(order.apply(&e), Ok(()));
    assert_eq!(order.venue_order_id(), Some("001".to_string()));
}

#[test]
fn order_requires_initialized_event() {
    let order = accepted_order();
    let e = submitted(&order, 2, 1);
    assert_eq!(Order::new(&e).err(), Some(OrderError::IllegalTransition));
}

#[test]
fn event_validation_errors() {
    let body = || EventBody::Submitted { account_id: "SIM-001".to_string() };
    let mk = |t: &str, s: &str, i: &str, c: &str, b: EventBody| {
        OrderEvent::new(t.to_string(), s.to_string(), i.to_string(), c.to_string(), 1, 0, 0, false, b).err()
    };
    assert_eq!(mk("", "S-1", "X.Y", "O-1", body()), Some(ValidationError::TraderId));
    assert_eq!(mk("T-1", "", "X.Y", "O-1", body()), Some(ValidationError::StrategyId));
    assert_eq!(mk("T-1", "S-1", "", "O-1", body()), Some(ValidationError::InstrumentId));
    assert_eq!(mk("T-1", "S-1", "X.Y", "", body()), Some(ValidationError::ClientOrderId));
    assert_eq!(
        mk("T-1", "S-1", "X.Y", "O-1", EventBody::Accepted { venue_order_id: String::new(), account_id: "A".to_string() }),
        Some(ValidationError::VenueOrderId)
    );
    assert_eq!(mk("T-1", "S-1", "X.Y", "O-1", EventBody::Submitted { account_id: String::new() }), Some(ValidationError::AccountId));
    assert_eq!(mk("T-1", "S-1", "X.Y", "O-1", body()), None);
}

#[test]
fn accepted_validation_errors() {
    let r = OrderAccepted::new(
        "T-1".to_string(),
        "S-1".to_string(),
        "X.Y".to_string(),
        "O-1".to_string(),
        "001".to_string(),
        String::new(),
        1,
        0,
        0,
        false,
    );
    assert_eq!(r.err().map(|_| ()), Some(()));
    let r = OrderAccepted::new(
        "T-1".to_string(),
        "S-1".to_string(),
        "X.Y".to_string(),
        "O-1".to_string(),
        String::new(),
        "A".to_string(),
        1,
        0,
        0,
        false,
    );
    assert!(matches!(r, Err(ValidationError::VenueOrderId)));
}

#[test]
fn accessors_report_absent_fields() {
    let a = stub_accepted();
    let e = a.to_event();
    assert_eq!(e.kind(), OrderEventKind::Accepted);
    assert_eq!(e.venue_order_id(), Some("001".to_string()));
    assert_eq!(e.account_id(), Some("SIM-001".to_string()));
    assert_eq!(e.quantity(), None);
    assert_eq!(e.price(), None);
    assert_eq!(e.order_side(), None);
    assert_eq!(e.order_type(), None);
    assert_eq!(e.reason(), None);
    assert_eq!(e.last_qty(), None);
    assert_eq!(e.last_px(), None);
    assert_eq!(a.id(), 7);
    assert!(!a.reconciliation());
}

#[test]
fn rebuild_from_event_log() {
    let mut factory = order_factory();
    let init = factory
        .create(INSTRUMENT.to_string(), OrderSide::Buy, OrderType::Limit, 10, Some(100), TimeInForce::Gtc, 1, 0)
        .unwrap();
    let order = Order::new(&init).unwrap();
    let log = vec![
        init.clone(),
        submitted(&order, 2, 1),
        accepted(&order, 3, 2, false),
        accepted(&order, 3, 2, false),
        fill(&order, 4, 3, true, 4, 100),
        fill(&order, 5, 4, true, 7, 100),
        fill(&order, 6, 5, false, 6, 110),
    ];
    let rebuilt = Order::from_events(&log).unwrap();
    assert_eq!(rebuilt.status(), OrderStatus::Filled);
    assert_eq!(rebuilt.filled_qty(), 10);
    assert_eq!(rebuilt.event_count(), 5);
    let again = Order::from_events(&log).unwrap();
    assert_eq!(again.avg_px(), rebuilt.avg_px());
    assert_eq!(again.event_count(), rebuilt.event_count());
    let bad = vec![submitted(&order, 2, 1)];
    assert_eq!(Order::from_events(&bad).err(), Some(OrderError::IllegalTransition));
}
