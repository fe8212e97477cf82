//! Decision core of a telemetry ingestion gateway for a small sensor network.
//!
//! The gateway accepts authenticated pushes of measurements, turns each
//! accepted one into a span for the telemetry pipeline, and serves a dashboard
//! that merges the answers of three queries against a time-series store.
//! This crate holds every decision of that data path as verified functions on
//! plain values; sockets, the async runtime and the tracing exporter live with
//! the program that links it.

pub mod auth;
pub mod clock;
pub mod dashboard;
pub mod data;
pub mod error;
pub mod gps;
pub mod headers;
pub mod json;
pub mod span;
pub mod state;
pub mod status;
pub mod store;
