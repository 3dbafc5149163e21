//! Revisioned price catalog and portfolio valuation for stash inventories.
//!
//! Amounts are integers counted in millionths of a Chaos Orb, timestamps are
//! seconds and nanoseconds since the Unix epoch, and every table is an
//! append-ordered list of rows.

pub mod catalog;
pub mod commands;
pub mod error;
pub mod ingest;
pub mod inventory;
pub mod laws;
pub mod market;
pub mod model;
pub mod oauth;
pub mod pattern;
pub mod pricing;
pub mod profiles;
pub mod snapshots;
pub mod stashes;
pub mod store;
pub mod valuation;
