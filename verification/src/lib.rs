//! Turns the secret-rotation annotations of cluster workloads into gauge samples.
//!
//! The crate holds the decisions of the exporter: which annotations are read, how
//! their values become gauge samples, what the metric store holds after each
//! upsert, and how a watch task and the group of tasks react to what happens to
//! them. Talking to the cluster and serving scrapes is left to the program that
//! uses the crate.

pub mod adapter;
pub mod annotations;
pub mod assoc;
pub mod endpoint;
pub mod extractor;
pub mod fields;
pub mod kinds;
pub mod laws;
pub mod object;
pub mod store;
pub mod supervisor;
pub mod timestamp;
