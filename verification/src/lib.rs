//! A small record-logging library: an append-only record store with
//! monotonically allocated identifiers, a sparse-filter query engine with
//! null-means-unfiltered semantics, a pluggable delivery decision, and a
//! uniform mapping from internal failures to API error codes.

pub mod api;
pub mod db_types;
pub mod delivery;
pub mod event_service;
pub mod handlers;
pub mod log_db_types;
pub mod mail_service;
pub mod query;
pub mod request;
pub mod response;
