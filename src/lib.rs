//! Client library for a brokerage's trading API and its authenticated
//! streaming feed of order and account events.
pub mod common;
pub mod errors;
pub mod fields;
pub mod json;
pub mod numbers;
pub mod rest;
pub mod stream;

pub use common::{Order, OrderClass, OrderIntent, OrderStatus, OrderType, Side, TimeInForce};
pub use errors::{Error, TransportError};
pub use stream::types::{AlpacaAction, AlpacaMessage, AuthorizationStatus, DecodeError, Event, OrderEvent};
pub use stream::{Connection, Frame, Input, Output, Phase, Session};
