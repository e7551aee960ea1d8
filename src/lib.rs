//! A cron-driven task scheduler: task registry, run-instance lifecycle,
//! trigger decisions, durable store, log store and hook pipeline, with their
//! contracts proved; and the plain settings, records and text rules of the
//! command-line agent built around it.

pub mod types;
pub mod keyed;
pub mod error;
pub mod runtime;
pub mod cron;
pub mod scheduler;
pub mod store;
pub mod persistent;
pub mod hooks;
pub mod voice;
pub mod model;
pub mod events;
pub mod config;
pub mod platform;
pub mod power;
pub mod system;
pub mod output;
pub mod tools;
pub mod executor;
pub mod cli;
pub mod daemon;
pub mod kv;
pub mod laws;
