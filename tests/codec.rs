use order_events::events::OrderAccepted;

fn sample(reconciliation: bool) -> OrderAccepted {
    OrderAccepted::new(
        "TRADER-000".to_string(),
        "EMACross-001".to_string(),
        "BTCUSDT.COINBASE".to_string(),
        "O-19700101-0000-000-001-1".to_string(),
        "001".to_string(),
        "SIM-001".to_string(),
        0x0123_4567_89ab_cdef_0011_2233_4455_6677,
        1_700_000_000_000_000_001,
        u64::MAX,
        reconciliation,
    )
    .unwrap()
}

#[test]
fn accepted_round_trip_keeps_every_field() {
    for flag in [false, true] {
        let a = sample(flag);
        let b = OrderAccepted::decode(&a.encode()).unwrap();
        assert_eq!(b.trader_id, a.trader_id);
        assert_eq!(b.strategy_id, a.strategy_id);
        assert_eq!(b.instrument_id, a.instrument_id);
        assert_eq!(b.client_order_id, a.client_order_id);
        assert_eq!(b.venue_order_id, a.venue_order_id);
        assert_eq!(b.account_id, a.account_id);
        assert_eq!(b.event_id, a.event_id);
        assert_eq!(b.ts_event, a.ts_event);
        assert_eq!(b.ts_init, a.ts_init);
        assert_eq!(b.reconciliation(), flag);
        assert_eq!(b.to_string(), a.to_string());
    }
}

#[test]
fn round_trip_of_non_ascii_identifiers() {
    let a = OrderAccepted::new(
        "TRADER-é".to_string(),
        "S-ü".to_string(),
        "X.Y".to_string(),
        "O-1".to_string(),
        "v€".to_string(),
        "A".to_string(),
        1,
        2,
        3,
        false,
    )
    .unwrap();
    let b = OrderAccepted::decode(&a.encode()).unwrap();
    assert_eq!(b.trader_id, "TRADER-é");
    assert_eq!(b.venue_order_id, "v€");
}

#[test]
fn encoding_layout() {
    let a = sample(true);
    let bytes = a.encode();
    assert_eq!(&bytes[0..8], &[10, 0, 0, 0, 0, 0, 0, 0]);
    assert_eq!(&bytes[8..18], b"TRADER-000");
    assert_eq!(*bytes.last().unwrap(), 1);
    let ids = [10usize, 12, 16, 25, 3, 7];
    assert_eq!(bytes.len(), ids.iter().map(|n| n + 8).sum::<usize>() + 33);
}

#[test]
fn decode_refuses_malformed_bytes() {
    let good = sample(false).encode();
    assert!(OrderAccepted::decode(&Vec::new()).is_none());
    let mut short = good.clone();
    short.pop();
    assert!(OrderAccepted::decode(&short).is_none());
    let mut long = good.clone();
    long.push(0);
    assert!(OrderAccepted::decode(&long).is_none());
    let mut flag = good.clone();
    *flag.last_mut().unwrap() = 2;
    assert!(OrderAccepted::decode(&flag).is_none());
    let mut utf8 = good.clone();
    utf8[8] = 0xff;
    assert!(OrderAccepted::decode(&utf8).is_none());
}

#[test]
fn decode_refuses_empty_identifier() {
    let a = sample(false);
    let mut bytes = vec![0u8; 8];
    bytes.extend_from_slice(&a.encode()[18..]);
    assert!(OrderAccepted::decode(&bytes).is_none());
}

#[test]
fn debug_string_lists_every_field() {
    let a = sample(false);
    assert_eq!(
        a.debug_string(),
        "OrderAccepted(trader_id=TRADER-000, strategy_id=EMACross-001, instrument_id=BTCUSDT.COINBASE, client_order_id=O-19700101-0000-000-001-1, venue_order_id=001, account_id=SIM-001, event_id=01234567-89ab-cdef-0011-223344556677, ts_event=1700000000000000001, ts_init=18446744073709551615)"
    );
}
