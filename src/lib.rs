//! Supervision of backend sidecar processes: which services exist, where they
//! answer, how a health probe is judged, and the start / stop decisions made
//! over the store of live process handles.

pub mod endpoint;
pub mod health;
pub mod messages;
pub mod startup;
pub mod service;
pub mod store;
pub mod supervisor;
