//! Order lifecycle events and the per-order state machine that consumes them.

pub mod calendar;
pub mod codec;
pub mod enums;
pub mod events;
pub mod factory;
pub mod ids;
pub mod laws;
pub mod order;
pub mod render;
