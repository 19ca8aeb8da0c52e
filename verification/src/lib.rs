//! Register-level protocol of the LIS302DL three-axis accelerometer.
//!
//! The driver in this crate performs no bus traffic itself. It decides what
//! is sent over the serial bus and what is made of the bytes that come back:
//! it names, one at a time, the actions to carry out on the chip-select line
//! and the bus, and is told how each ended. Whoever owns the bus and the pin
//! carries the actions out, in the order given.

pub mod bus;
pub mod config;
pub mod driver;
pub mod registers;
pub mod transaction;

pub use bus::{Action, Event};
pub use config::{Config, DataRate, PowerMode, Scale};
pub use driver::{DriverView, Lis302Dl};
pub use transaction::{Request, Transaction, TransactionView};
