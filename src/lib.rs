//! A users service's core: an ordered user store, a classifier that turns a
//! completed request into bounded metric labels, a registry of request
//! counters and duration distributions, and its text exposition.
pub mod models;
pub mod classify;
pub mod registry;
pub mod exposition;
