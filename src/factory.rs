//! Creation of new orders: the initializing event, with an identifier from the generator and a
//! time from the caller's clock.
use vstd::prelude::*;

use crate::enums::{OrderEventKind, OrderSide, OrderType, TimeInForce};
use crate::events::{kind_of, EventBody, OrderEvent, ValidationError};
use crate::ids::{
    client_order_id_text, order_list_id_text, tag_of, ClientOrderIdGenerator, GeneratorState,
    OrderListIdGenerator,
};

verus! {

/// Creates the initializing events of a trader's orders for one strategy.
pub struct OrderFactory {
    trader_id: String,
    strategy_id: String,
    generator: ClientOrderIdGenerator,
    list_generator: OrderListIdGenerator,
}

impl OrderFactory {
    /// The trader this factory creates orders for.
    pub closed spec fn spec_trader_id(&self) -> Seq<char> {
        self.trader_id@
    }

    /// The strategy this factory creates orders for.
    pub closed spec fn spec_strategy_id(&self) -> Seq<char> {
        self.strategy_id@
    }

    /// The state of the factory's identifier generator.
    pub closed spec fn spec_generator(&self) -> GeneratorState {
        self.generator@
    }

    /// The state of the factory's order list identifier generator.
    pub closed spec fn spec_list_generator(&self) -> GeneratorState {
        self.list_generator@
    }

    /// A factory for the trader and strategy, both required; identifiers are numbered from
    /// `initial_count + 1`, or from one when no initial count is given, and order list
    /// identifiers likewise from `initial_list_count`.
    pub fn new(
        trader_id: String,
        strategy_id: String,
        initial_count: Option<u64>,
        initial_list_count: Option<u64>,
    ) -> (r: Result<
        OrderFactory,
        ValidationError,
    >)
        ensures
            match r {
                Ok(f) => trader_id@.len() > 0 && strategy_id@.len() > 0 && f.spec_trader_id()
                    == trader_id@ && f.spec_strategy_id() == strategy_id@ && f.spec_generator()
                    == (GeneratorState {
                    trader_tag: tag_of(trader_id@),
                    strategy_tag: tag_of(strategy_id@),
                    count: match initial_count {
                        Some(c) => c as nat,
                        None => 0,
                    },
                }) && f.spec_list_generator() == (GeneratorState {
                    trader_tag: tag_of(trader_id@),
                    strategy_tag: tag_of(strategy_id@),
                    count: match initial_list_count {
                        Some(c) => c as nat,
                        None => 0,
                    },
                }),
                Err(err) => if trader_id@.len() == 0 {
                    err == ValidationError::TraderId
                } else {
                    strategy_id@.len() == 0 && err == ValidationError::StrategyId
                },
            },
    {
        if trader_id.as_str().is_empty() {
            return Err(ValidationError::TraderId);
        }
        if strategy_id.as_str().is_empty() {
            return Err(ValidationError::StrategyId);
        }
        let count: u64 = match initial_count {
            Some(c) => c,
            None => 0,
        };
        let list_count: u64 = match initial_list_count {
            Some(c) => c,
            None => 0,
        };
        let generator = ClientOrderIdGenerator::new(trader_id.as_str(), strategy_id.as_str(), count);
        let list_generator = OrderListIdGenerator::new(
            trader_id.as_str(),
            strategy_id.as_str(),
            list_count,
        );
        Ok(OrderFactory { trader_id, strategy_id, generator, list_generator })
    }

    /// A fresh order list identifier for a contingent group, stamped with `ts_init`.
    pub fn create_list_id(&mut self, ts_init: u64) -> (r: String)
        requires
            old(self).spec_list_generator().count < u64::MAX,
        ensures
            final(self).spec_list_generator() == (GeneratorState {
                count: old(self).spec_list_generator().count + 1,
                ..old(self).spec_list_generator()
            }),
            final(self).spec_generator() == old(self).spec_generator(),
            final(self).spec_trader_id() == old(self).spec_trader_id(),
            final(self).spec_strategy_id() == old(self).spec_strategy_id(),
            r@ == order_list_id_text(
                ts_init as nat,
                old(self).spec_list_generator().trader_tag,
                old(self).spec_list_generator().strategy_tag,
                old(self).spec_list_generator().count + 1,
            ),
    {
        self.list_generator.generate(ts_init)
    }

    /// The number of the identifier last handed out.
    pub fn count(&self) -> (r: u64)
        ensures
            r == self.spec_generator().count,
    {
        self.generator.count()
    }

    /// The initializing event of a new order, with a fresh client order id and `ts_init` as
    /// both its event and its initialization time. Fails when the instrument id is empty.
    pub fn create(
        &mut self,
        instrument_id: String,
        order_side: OrderSide,
        order_type: OrderType,
        quantity: u64,
        price: Option<u64>,
        time_in_force: TimeInForce,
        event_id: u128,
        ts_init: u64,
    ) -> (r: Result<OrderEvent, ValidationError>)
        requires
            old(self).spec_generator().count < u64::MAX,
        ensures
            final(self).spec_list_generator() == old(self).spec_list_generator(),
            final(self).spec_trader_id() == old(self).spec_trader_id(),
            final(self).spec_strategy_id() == old(self).spec_strategy_id(),
            match r {
                Ok(e) => {
                    &&& instrument_id@.len() > 0
                    &&& final(self).spec_generator() == (GeneratorState {
                        count: old(self).spec_generator().count + 1,
                        ..old(self).spec_generator()
                    })
                    &&& e.trader_id@ == old(self).spec_trader_id()
                    &&& e.strategy_id@ == old(self).spec_strategy_id()
                    &&& e.instrument_id == instrument_id
                    &&& e.client_order_id@ == client_order_id_text(
                        ts_init as nat,
                        old(self).spec_generator().trader_tag,
                        old(self).spec_generator().strategy_tag,
                        old(self).spec_generator().count + 1,
                    )
                    &&& e.event_id == event_id
                    &&& e.ts_event == ts_init
                    &&& e.ts_init == ts_init
                    &&& !e.reconciliation
                    &&& e.body == (EventBody::Initialized {
                        order_side,
                        order_type,
                        quantity,
                        price,
                        time_in_force,
                    })
                },
                Err(err) => instrument_id@.len() == 0 && err == ValidationError::InstrumentId
                    && final(self).spec_generator() == old(self).spec_generator(),
            },
    {
        if instrument_id.as_str().is_empty() {
            return Err(ValidationError::InstrumentId);
        }
        let client_order_id = self.generator.generate(ts_init);
        Ok(OrderEvent {
            trader_id: self.trader_id.clone(),
            strategy_id: self.strategy_id.clone(),
            instrument_id,
            client_order_id,
            event_id,
            ts_event: ts_init,
            ts_init,
            reconciliation: false,
            body: EventBody::Initialized { order_side, order_type, quantity, price, time_in_force },
        })
    }
}

/// A factory for trader `TRADER-000` and strategy `EMACross-001`, numbering from one.
pub fn order_factory() -> (r: OrderFactory)
    ensures
        r.spec_trader_id() == "TRADER-000"@,
        r.spec_strategy_id() == "EMACross-001"@,
        r.spec_generator().count == 0,
        r.spec_list_generator().count == 0,
        r.spec_generator().trader_tag == tag_of("TRADER-000"@),
        r.spec_generator().strategy_tag == tag_of("EMACross-001"@),
{
    proof {
        reveal_strlit("TRADER-000");
        reveal_strlit("EMACross-001");
    }
    let trader_id = String::from_str("TRADER-000");
    let strategy_id = String::from_str("EMACross-001");
    let generator = ClientOrderIdGenerator::new(trader_id.as_str(), strategy_id.as_str(), 0);
    let list_generator = OrderListIdGenerator::new(trader_id.as_str(), strategy_id.as_str(), 0);
    OrderFactory { trader_id, strategy_id, generator, list_generator }
}

} // verus!
