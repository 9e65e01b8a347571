//! Status aggregation for a fleet of numbered interfaces (servers, publishers
//! and subscribers) that report whether they are active.
//!
//! The crate folds a stream of reports into a table with one row of slots per
//! category, and decides what a dashboard shows of that table and when it stops.

pub mod activity;
pub mod decode;
pub mod ingest;
pub mod monitor;
pub mod render;
pub mod report;
pub mod table;
pub mod text;
