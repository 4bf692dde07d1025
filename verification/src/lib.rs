//! A verified multi-target reachability prober.
//!
//! Given a registry of named network endpoints and, for each, the outcome of
//! one transport exchange (connect, request, first read), the library
//! classifies every endpoint as up or down, aggregates the per-target results
//! in registry order, and renders the status-bar text protocol. The network
//! I/O itself lives outside the library; everything that decides, counts or
//! formats is specified and proved here.

pub mod aggregate;
pub mod probe;
pub mod registry;
pub mod render;
pub mod text;
