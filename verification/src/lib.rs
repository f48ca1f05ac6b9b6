//! Verified core of a local-only HTTP facade for a personal data store.
//!
//! The library covers the parts of the service with real state and
//! failure-handling design: the singleton server lifecycle (idempotent
//! start, cooperative stop), the shared-state container, the uniform
//! response envelope and its error taxonomy, request dispatch, batch tag
//! parsing, field-query validation, and the cancellable tray-flash timer.
//! Transport, persistence and UI stay outside: callers hand the library
//! plain values and perform the I/O the library decides on.
pub mod calendar;
pub mod envelope;
pub mod handlers;
pub mod lifecycle;
pub mod routes;
pub mod tags;
pub mod text;
pub mod tray;
