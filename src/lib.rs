//! Lifecycle decisions of a Hermit isle controller: backend selection,
//! readiness detection, and the shutdown request, stated over plain values
//! so that each can be proved. Launching backends, reading files and
//! waiting for change notifications happen around this library.
pub mod decimal;
pub mod error;
pub mod isle;
pub mod readiness;
