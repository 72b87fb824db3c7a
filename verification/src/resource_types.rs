//! Flat, self-contained resource shapes kept for collaborators that speak
//! in per-kind records rather than the canonical [`crate::models::Resource`].

use vstd::prelude::*;

verus! {

/// Status enumeration of the flat resource shapes.
#[derive(Clone, Copy, Debug, PartialEq, Eq, Structural)]
pub enum ResourceStatus {
    /// Pending creation.
    Pending,
    /// Being created.
    Creating,
    /// Running.
    Running,
    /// Being stopped.
    Stopping,
    /// Stopped.
    Stopped,
    /// Being terminated.
    Terminating,
    /// Terminated.
    Terminated,
    /// In error.
    Error,
}

/// Compute resource definition.
#[derive(Clone, Debug, PartialEq, Eq)]
pub struct ComputeResource {
    /// Identifier, in text form.
    pub id: String,
    /// Name.
    pub name: String,
    /// Provider, in text form.
    pub provider: String,
    /// Region.
    pub region: String,
    /// Instance type.
    pub instance_type: String,
    /// Status.
    pub status: ResourceStatus,
    /// Creation timestamp in milliseconds.
    pub created_at: i64,
}

/// Storage resource definition.
#[derive(Clone, Debug, PartialEq, Eq)]
pub struct StorageResource {
    /// Identifier, in text form.
    pub id: String,
    /// Name.
    pub name: String,
    /// Provider, in text form.
    pub provider: String,
    /// Region.
    pub region: String,
    /// Storage type.
    pub storage_type: String,
    /// Size in GB.
    pub size_gb: u64,
    /// Status.
    pub status: ResourceStatus,
    /// Creation timestamp in milliseconds.
    pub created_at: i64,
}

/// Network resource definition.
#[derive(Clone, Debug, PartialEq, Eq)]
pub struct NetworkResource {
    /// Identifier, in text form.
    pub id: String,
    /// Name.
    pub name: String,
    /// Provider, in text form.
    pub provider: String,
    /// Region.
    pub region: String,
    /// Network type.
    pub network_type: String,
    /// CIDR block.
    pub cidr_block: String,
    /// Status.
    pub status: ResourceStatus,
    /// Creation timestamp in milliseconds.
    pub created_at: i64,
}

} // verus!
