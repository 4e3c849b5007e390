//! Construction and validation of backup, restore and status operations
//! against a columnar analytical database.
//!
//! The library turns a validated intent into the parameterised command that
//! the engine expects for each kind of storage destination, and decides, reply
//! by reply, what to ask the engine next. It never talks to the engine itself;
//! the one thing it reads from its surroundings is the clock, for the window of
//! a status report.

pub mod config;
pub mod destination;
pub mod error;
pub mod operation;
pub mod plan;
pub mod statement;
pub mod status;
pub mod text;
