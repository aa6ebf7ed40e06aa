//! Telemetry sampling and visualisation core for a small sensor dashboard.
//!
//! The crate keeps a bounded rolling history of sensor readings, moves fresh
//! readings between the fetch, sample and render stages through single-slot
//! mailboxes, and turns the history into line-chart geometry. Every function
//! carries a contract; the verifier checks each of them but the few thin
//! wrappers that call into other crates, whose contracts are taken on trust
//! and say so.

pub mod chart;
pub mod clock;
pub mod comm;
pub mod fetch;
pub mod http;
pub mod mailbox;
pub mod rate_limit;
pub mod records;
pub mod render;
pub mod simulate;
pub mod surface;
pub mod text;
pub mod wifi;
