//! Error taxonomy of the registry.
//!
//! Every error is local to a single operation call; the registry's state is
//! unchanged after any failed operation.

use vstd::prelude::*;

use crate::models::ResourceStatus;

verus! {

/// A field of a resource specification that a validation rule speaks of.
#[derive(Clone, Copy, Debug, PartialEq, Eq, Structural)]
pub enum FieldName {
    /// The common `region` field.
    Region,
    /// A key of the `tags` mapping.
    TagKey,
    /// A key of the `labels` mapping.
    LabelKey,
    /// The AWS provider block.
    AwsBlock,
    /// The GCP provider block.
    GcpBlock,
    /// The Azure provider block.
    AzureBlock,
    /// The AWS instance type of a compute resource.
    InstanceType,
    /// The GCP machine type of a compute resource.
    MachineType,
    /// The Azure VM size of a compute resource.
    VmSize,
}

/// Why a present field was rejected.
#[derive(Clone, Copy, Debug, PartialEq, Eq, Structural)]
pub enum InvalidReason {
    /// A mapping key is the empty string.
    EmptyKey,
    /// A mapping key occurs twice in its own mapping.
    DuplicateKey,
    /// A required text field is present but empty.
    EmptyValue,
    /// A provider block is present that does not belong to the declared provider.
    WrongProvider,
}

/// A resource specification failed model validation.
#[derive(Clone, Copy, Debug, PartialEq, Eq, Structural)]
pub enum ValidationError {
    /// A field required for the declared resource type and provider is absent.
    MissingField(FieldName),
    /// A field is present but holds an invalid value.
    InvalidValue(FieldName, InvalidReason),
}

/// An error returned by a registry operation.
#[derive(Clone, Copy, Debug, PartialEq, Eq, Structural)]
pub enum RegistryError {
    /// The specification failed model validation.
    InvalidResource(ValidationError),
    /// The operation referenced an identity that is not in the live set.
    NotFound(u128),
    /// The requested status change is not an edge of the transition table.
    InvalidTransition {
        /// The status the resource currently holds.
        from: ResourceStatus,
        /// The status the caller asked for.
        to: ResourceStatus,
    },
    /// The identity generator produced an identity that was already issued.
    /// Detected and surfaced rather than silently overwriting a record.
    IdentityCollision,
}

/// Error type kept for collaborators of the wider system.
#[derive(Clone, Debug, PartialEq, Eq)]
pub enum CoreError {
    /// A resource was not found.
    ResourceNotFound {
        /// The identity that was looked up.
        resource_id: String,
    },
    /// A resource was in an unexpected state.
    InvalidResourceState {
        /// The identity of the resource.
        resource_id: String,
        /// The state the caller expected.
        expected: String,
        /// The state the resource actually held.
        actual: String,
    },
    /// A provider-side failure reported by a collaborator.
    ProviderError {
        /// A human-readable description.
        message: String,
    },
}

} // verus!
