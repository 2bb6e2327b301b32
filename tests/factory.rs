use order_events::enums::{OrderSide, OrderType, TimeInForce};
use order_events::events::ValidationError;
use order_events::factory::{order_factory, OrderFactory};
use order_events::ids::{tag, ClientOrderIdGenerator};

#[test]
fn generator_stamps_date_and_counts() {
    let mut g = ClientOrderIdGenerator::new("TRADER-001", "EMACross-002", 41);
    // 2024-02-29 13:45:10 UTC
    let ts: u64 = 1_709_214_310_000_000_000;
    assert_eq!(g.generate(ts), "O-20240229-1345-001-002-42");
    assert_eq!(g.generate(ts), "O-20240229-1345-001-002-43");
    assert_eq!(g.count(), 43);
}

#[test]
fn generator_handles_year_end() {
    let mut g = ClientOrderIdGenerator::new("T-1", "S-2", 0);
    // 1999-12-31 23:59:59 UTC
    assert_eq!(g.generate(946_684_799_000_000_000), "O-19991231-2359-1-2-1");
}

#[test]
fn tag_is_text_after_last_dash() {
    assert_eq!(tag("TRADER-001"), "001");
    assert_eq!(tag("A-B-C"), "C");
    assert_eq!(tag("PLAIN"), "PLAIN");
    assert_eq!(tag("ENDS-"), "");
}

#[test]
fn factory_requires_ids() {
    assert_eq!(OrderFactory::new(String::new(), "S-1".to_string(), None, None).err(), Some(ValidationError::TraderId));
    assert_eq!(OrderFactory::new("T-1".to_string(), String::new(), None, None).err(), Some(ValidationError::StrategyId));
}

#[test]
fn factory_numbers_from_initial_count() {
    let mut f = OrderFactory::new("T-7".to_string(), "S-9".to_string(), Some(4), Some(2)).unwrap();
    let e = f
        .create("ETHUSDT.BINANCE".to_string(), OrderSide::Sell, OrderType::Market, 3, None, TimeInForce::Ioc, 11, 60_000_000_000)
        .unwrap();
    assert_eq!(e.client_order_id, "O-19700101-0001-7-9-5");
    assert_eq!(e.ts_init, 60_000_000_000);
    assert_eq!(e.ts_event, 60_000_000_000);
    assert!(!e.reconciliation);
    assert_eq!(e.quantity(), Some(3));
    assert_eq!(e.order_side(), Some(OrderSide::Sell));
}

#[test]
fn factory_rejects_empty_instrument() {
    let mut f = order_factory();
    let r = f.create(String::new(), OrderSide::Buy, OrderType::Limit, 1, Some(1), TimeInForce::Gtc, 1, 0);
    assert_eq!(r.err(), Some(ValidationError::InstrumentId));
    assert_eq!(f.count(), 0);
}

#[test]
fn factory_list_ids_count_separately() {
    let mut f = OrderFactory::new("T-7".to_string(), "S-9".to_string(), Some(4), Some(2)).unwrap();
    assert_eq!(f.create_list_id(0), "OL-19700101-0000-7-9-3");
    assert_eq!(f.create_list_id(0), "OL-19700101-0000-7-9-4");
    assert_eq!(f.count(), 4);
    let e = f
        .create("X.Y".to_string(), OrderSide::Buy, OrderType::Limit, 1, Some(1), TimeInForce::Gtc, 1, 0)
        .unwrap();
    assert_eq!(e.client_order_id, "O-19700101-0000-7-9-5");
}
