//! An in-process application runtime: a dependency-injection container
//! that resolves, deduplicates, starts and gracefully stops a graph of
//! long-lived service modules. The dependency builder walks requested
//! pointer symbols depth-first against a declaration table, shares one
//! instance per equal (target type, configuration) pair, and fails fast on
//! cycles and duplicate instantiation; the store holds the resulting
//! singletons and the task bookkeeping; the two-phase shutdown signal
//! (`exiting`, then `closing`) drives an ordered start phase and a
//! best-effort concurrent stop phase. A keyed single-flight memo backs
//! both the builder's dedup and hosted modules' own compute-once needs.

pub mod app;
pub mod builder;
pub mod cache;
pub mod compat;
pub mod config;
pub mod error;
pub mod module;
pub mod orm;
pub mod render;
pub mod signal;
pub mod singleflight;
pub mod store;
pub mod strings;
