//! Typed client for the Amtraker train-tracking service.
//!
//! The library decodes the service's JSON responses into a stable model of
//! trains and stations, classifies failures, and builds request addresses.
//! Sending the requests is left to the caller.
pub mod client;
pub mod decode;
pub mod errors;
pub mod json;
pub mod laws;
pub mod model;

pub use client::Client;
pub use errors::{DebuggingError, Error};
pub use model::{Station, StationStop, StationsByCode, Train, TrainStatus, TrainsByNumber};
