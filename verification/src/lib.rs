//! Aggregation and evaluation of web-performance measurements.
//!
//! A page is audited several times under each of several scenarios. From
//! every audit document a record of twenty-four indicators is taken
//! ([`audit`]). The records of a scenario's successful trials are averaged and
//! their durations brought to seconds ([`accumulate`], [`metrics`]). The
//! averaged record is rated against fixed limits, and its five tracked
//! offenders are ranked ([`evaluate`], [`rank`]). The scenarios of a run are
//! compared with the baseline ([`compare`]), and every result is added to a
//! ledger that only grows ([`ledger`]). What is written for people to read,
//! and the names of the files of a run, are in [`report`]; the longest tasks
//! of a browser trace are found in [`trace`].
//!
//! The crate computes and does nothing else: it runs no tool, reads no clock
//! and touches no file. Documents come in as plain trees ([`json`]) and texts,
//! and what is to be written goes out as text ([`text`]).
//!
//! Every measurement is a fixed-point number ([`fixed`], [`metric`]), so that
//! sums, means and comparisons with the limits are exact. A double-precision
//! number is brought to a fixed-point value from its bits ([`double`]).

pub mod accumulate;
pub mod audit;
pub mod compare;
pub mod double;
pub mod evaluate;
pub mod fixed;
pub mod json;
pub mod ledger;
pub mod metric;
pub mod metrics;
pub mod rank;
pub mod report;
pub mod text;
pub mod trace;

pub use crate::accumulate::Accumulator;
pub use crate::compare::{ScenarioMetrics, ScenarioResult};
pub use crate::evaluate::{Evaluation, Rating};
pub use crate::json::Json;
pub use crate::ledger::{LedgerEntry, LedgerError};
pub use crate::metric::{Metric, UnitClass};
pub use crate::metrics::LighthouseMetrics;
