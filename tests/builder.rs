use order_events::events::{OrderAcceptedBuilder, ValidationError};

fn full() -> OrderAcceptedBuilder {
    let mut b = OrderAcceptedBuilder::new();
    b.trader_id = Some("TRADER-000".to_string());
    b.strategy_id = Some("EMACross-001".to_string());
    b.instrument_id = Some("BTCUSDT.COINBASE".to_string());
    b.client_order_id = Some("O-19700101-0000-000-001-1".to_string());
    b.venue_order_id = Some("001".to_string());
    b.account_id = Some("SIM-001".to_string());
    b.event_id = Some(5);
    b
}

#[test]
fn builder_defaults_times_and_flag() {
    let a = full().build().unwrap();
    assert_eq!(a.ts_event, 0);
    assert_eq!(a.ts_init, 0);
    assert!(!a.reconciliation);
    assert_eq!(a.id(), 5);
    assert_eq!(
        a.to_string(),
        "OrderAccepted(instrument_id=BTCUSDT.COINBASE, client_order_id=O-19700101-0000-000-001-1, venue_order_id=001, account_id=SIM-001, ts_event=0)"
    );
}

#[test]
fn builder_refuses_missing_required_fields() {
    let mut b = full();
    b.trader_id = None;
    assert_eq!(b.build().err(), Some(ValidationError::TraderId));
    let mut b = full();
    b.account_id = Some(String::new());
    assert_eq!(b.build().err(), Some(ValidationError::AccountId));
    let mut b = full();
    b.event_id = None;
    assert_eq!(b.build().err(), Some(ValidationError::EventId));
    let mut b = full();
    b.instrument_id = None;
    b.event_id = None;
    assert_eq!(b.build().err(), Some(ValidationError::InstrumentId));
    assert_eq!(OrderAcceptedBuilder::new().build().err(), Some(ValidationError::TraderId));
}
