//! The core of a desktop telemetry engine, verified with Verus.
//!
//! The library holds the decisions and the arithmetic; its caller reads the
//! operating system, runs processes, owns the database connection and sleeps.
//!
//! - `collector`: raw counters to a snapshot of processor, memory, disk and
//!   network use, with throughput taken from counter deltas.
//! - `ping`: the output of the `ping` tool to round-trip-time samples, loss
//!   and summary statistics.
//! - `db`: the statements of the history store, the reading of its rows, and
//!   the CSV export.
//! - `scheduler`: the sampling loop as a state machine.
//! - `device_info`: hardware descriptions from the output of `wmic`.
//! - `fixed`, `timestamp`, `text`: the numbers, the instants and the text that
//!   the other modules work with.
//!
//! Numbers that are not whole are `fixed::Fixed`, a count of ten-thousandths,
//! so that every result is exact and stated in the contracts.

pub mod collector;
pub mod db;
pub mod device_info;
pub mod fixed;
pub mod ping;
pub mod scheduler;
pub mod text;
pub mod timestamp;
