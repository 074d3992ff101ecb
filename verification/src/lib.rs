//! Core of a ham-radio clock's alerting stack: telemetry snapshots are
//! evaluated against configurable watch rules, matched rules synthesize
//! discrete alerts with severity and expiry, a ledger deduplicates and ages
//! them, and accepted alerts fan out to independent sink queues.

use vstd::prelude::*;

pub mod audio;
pub mod cache;
pub mod channels;
pub mod config;
pub mod detector;
pub mod error;
pub mod fetcher;
pub mod forecast;
pub mod grid;
pub mod history;
pub mod json;
pub mod laws;
pub mod layers;
pub mod models;
pub mod mqtt;
pub mod notifications;
pub mod startup;
pub mod strfmt;
pub mod textops;
pub mod time;
pub mod views;

verus! {

/// Seconds in the storm-suppression window: a candidate alert is dropped if
/// another active alert of the same type was created less than this many
/// seconds before it.
pub const DEDUP_WINDOW_SECONDS: i64 = 300;

} // verus!
