//! Reconciles pending media requests against a metadata-search service.
//!
//! The crate holds the verified core of the reconciler: building typed REST
//! requests, the device-authorization polling state machine, a time-to-live
//! bounded resolution cache, the canonical-identifier resolver, and the
//! per-tick reconciliation step. Transport, configuration loading and the
//! outer polling shell live outside the library.

pub mod cache;
pub mod config;
pub mod decimal;
pub mod device_flow;
pub mod errors;
pub mod http;
pub mod jellyfin;
pub mod reconcile;
pub mod seerrs;
pub mod trakt;
