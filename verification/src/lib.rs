//! Typed bindings for a trading terminal's scripting interface: the code
//! tables, the records, the marshalling of each operation into a call of the
//! foreign runtime, and the rule that turns the runtime's reply and its error
//! channel into a result.

pub mod calendar;
pub mod call;
pub mod connection;
pub mod enums;
pub mod network;
pub mod number;
pub mod prelude;
pub mod schemas;
pub mod traits;
