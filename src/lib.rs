//! Composable loggers: routines that take one item at a time and may fail.
//!
//! The core trait is [`Logger`]. Loggers combine: two loggers can be chained,
//! and a logger can be filtered, mapped over, or made to swallow its errors.
//! Every logger states what one call of `log` does through the spec functions
//! `can_log` and `logged`, and every combinator states its own behaviour in
//! terms of the loggers that it wraps.
mod logger;
mod chain;
mod empty;
mod extender;
mod filter;
pub mod laws;
mod map;
mod safe;

pub use logger::Logger;
pub use chain::Chain;
pub use empty::{empty, Empty};
pub use extender::{extender, Extender};
pub use filter::Filter;
pub use map::Mapped;
pub use safe::Safe;
