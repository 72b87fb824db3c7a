//! An in-process registry of cloud infrastructure resources.
//!
//! The library normalizes heterogeneous provider-specific resource shapes
//! into one canonical [`models::Resource`] record, validates resource
//! specifications, enforces the status lifecycle, and owns the live mapping
//! from resource identity to record with create/get/update/delete/list
//! operations over it.  Network transport and real provider API calls are
//! collaborators outside this crate.

pub mod errors;
pub mod external;
pub mod grpc;
pub mod models;
pub mod resource_types;
pub mod resources;
