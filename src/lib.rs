//! A normalized schema model of protocol-buffer files.
//!
//! A parsed file descriptor (services, methods, messages, fields) is reduced
//! to a small tree of plain values: each field gets a closed kind and one
//! cardinality, each method one of four call shapes.
pub mod batch;
pub mod classify;
pub mod descriptor;
pub mod reduce;
pub mod schema;
