//! Data models for infrastructure resources.
//!
//! The canonical [`Resource`] record, the specification shapes it carries,
//! the status lifecycle with its transition table, and specification
//! validation.  Validation is a pure function of its input; the module
//! carries no mutable state.

use vstd::prelude::*;

use crate::errors::{FieldName, InvalidReason, ValidationError};

verus! {

/// Resource type enumeration.
#[derive(Clone, Copy, Debug, PartialEq, Eq, Structural)]
pub enum ResourceType {
    /// Compute instance.
    Compute,
    /// Storage volume.
    Storage,
    /// Network resource.
    Network,
    /// Database instance.
    Database,
    /// Load balancer.
    LoadBalancer,
    /// Object storage.
    ObjectStorage,
}

/// Cloud provider enumeration.
#[derive(Clone, Copy, Debug, PartialEq, Eq, Structural)]
pub enum Provider {
    /// Amazon Web Services.
    Aws,
    /// Google Cloud Platform.
    Gcp,
    /// Microsoft Azure.
    Azure,
    /// On-premise.
    OnPremise,
}

/// Resource status enumeration: the lifecycle states of a resource.
///
/// A resource starts in `Pending`; `Terminated` is terminal, and `Failed`
/// is terminal except for an explicit retry back to `Pending`.
#[derive(Clone, Copy, Debug, PartialEq, Eq, Structural)]
pub enum ResourceStatus {
    /// The resource is pending creation.
    Pending,
    /// The resource is being created.
    Creating,
    /// The resource is active and running.
    Active,
    /// The resource is updating.
    Updating,
    /// The resource is suspended.
    Suspended,
    /// The resource is deleting.
    Deleting,
    /// The resource is terminating.
    Terminating,
    /// The resource has been terminated (terminal).
    Terminated,
    /// The resource has failed.
    Failed,
}

/// The transition table: the authoritative set of legal status moves.
/// Every mutation path consults this one definition.
pub open spec fn allowed_transition(from: ResourceStatus, to: ResourceStatus) -> bool {
    match (from, to) {
        (ResourceStatus::Pending, ResourceStatus::Creating) => true,
        (ResourceStatus::Pending, ResourceStatus::Failed) => true,
        (ResourceStatus::Creating, ResourceStatus::Active) => true,
        (ResourceStatus::Creating, ResourceStatus::Failed) => true,
        (ResourceStatus::Active, ResourceStatus::Updating) => true,
        (ResourceStatus::Active, ResourceStatus::Deleting) => true,
        (ResourceStatus::Active, ResourceStatus::Suspended) => true,
        (ResourceStatus::Active, ResourceStatus::Failed) => true,
        (ResourceStatus::Updating, ResourceStatus::Active) => true,
        (ResourceStatus::Updating, ResourceStatus::Failed) => true,
        (ResourceStatus::Suspended, ResourceStatus::Active) => true,
        (ResourceStatus::Suspended, ResourceStatus::Deleting) => true,
        (ResourceStatus::Deleting, ResourceStatus::Terminating) => true,
        (ResourceStatus::Deleting, ResourceStatus::Terminated) => true,
        (ResourceStatus::Deleting, ResourceStatus::Failed) => true,
        (ResourceStatus::Terminating, ResourceStatus::Terminated) => true,
        (ResourceStatus::Terminating, ResourceStatus::Failed) => true,
        (ResourceStatus::Failed, ResourceStatus::Pending) => true,
        _ => false,
    }
}

/// Decides whether the status move `from -> to` is an edge of the
/// transition table.
pub fn transition_allowed(from: ResourceStatus, to: ResourceStatus) -> (r: bool)
    ensures
        r == allowed_transition(from, to),
{
    match (from, to) {
        (ResourceStatus::Pending, ResourceStatus::Creating) => true,
        (ResourceStatus::Pending, ResourceStatus::Failed) => true,
        (ResourceStatus::Creating, ResourceStatus::Active) => true,
        (ResourceStatus::Creating, ResourceStatus::Failed) => true,
        (ResourceStatus::Active, ResourceStatus::Updating) => true,
        (ResourceStatus::Active, ResourceStatus::Deleting) => true,
        (ResourceStatus::Active, ResourceStatus::Suspended) => true,
        (ResourceStatus::Active, ResourceStatus::Failed) => true,
        (ResourceStatus::Updating, ResourceStatus::Active) => true,
        (ResourceStatus::Updating, ResourceStatus::Failed) => true,
        (ResourceStatus::Suspended, ResourceStatus::Active) => true,
        (ResourceStatus::Suspended, ResourceStatus::Deleting) => true,
        (ResourceStatus::Deleting, ResourceStatus::Terminating) => true,
        (ResourceStatus::Deleting, ResourceStatus::Terminated) => true,
        (ResourceStatus::Deleting, ResourceStatus::Failed) => true,
        (ResourceStatus::Terminating, ResourceStatus::Terminated) => true,
        (ResourceStatus::Terminating, ResourceStatus::Failed) => true,
        (ResourceStatus::Failed, ResourceStatus::Pending) => true,
        _ => false,
    }
}

/// The status every newly validated specification starts in.
pub fn default_status() -> (r: ResourceStatus)
    ensures
        r == ResourceStatus::Pending,
{
    ResourceStatus::Pending
}

/// EBS volume specification.
#[derive(Clone, Debug, PartialEq, Eq)]
pub struct EbsVolume {
    /// Volume size in GB.
    pub size_gb: u32,
    /// Volume type.
    pub volume_type: String,
    /// IOPS, for volume types that take one.
    pub iops: Option<u32>,
    /// Whether the volume is encrypted.
    pub encrypted: bool,
}

/// AWS-specific resource specification.
#[derive(Clone, Debug, PartialEq, Eq)]
pub struct AwsSpec {
    /// Instance type.
    pub instance_type: Option<String>,
    /// AMI ID.
    pub ami_id: Option<String>,
    /// Security groups.
    pub security_groups: Vec<String>,
    /// Subnet ID.
    pub subnet_id: Option<String>,
    /// VPC ID.
    pub vpc_id: Option<String>,
    /// EBS volume specifications.
    pub ebs_volumes: Vec<EbsVolume>,
    /// IAM role.
    pub iam_role: Option<String>,
    /// Auto scaling group.
    pub auto_scaling_group: Option<String>,
}

/// GCP disk specification.
#[derive(Clone, Debug, PartialEq, Eq)]
pub struct GcpDisk {
    /// Disk size in GB.
    pub size_gb: u32,
    /// Disk type.
    pub disk_type: String,
    /// Interface.
    pub interface: String,
    /// Whether this is the boot disk.
    pub boot: bool,
}

/// GCP-specific resource specification.
#[derive(Clone, Debug, PartialEq, Eq)]
pub struct GcpSpec {
    /// Machine type.
    pub machine_type: Option<String>,
    /// Image name.
    pub image: Option<String>,
    /// Network.
    pub network: Option<String>,
    /// Subnetwork.
    pub subnetwork: Option<String>,
    /// Disks.
    pub disks: Vec<GcpDisk>,
    /// Service account.
    pub service_account: Option<String>,
    /// Auto scaling.
    pub auto_scaling: Option<bool>,
}

/// Image reference for Azure.
#[derive(Clone, Debug, PartialEq, Eq)]
pub struct ImageReference {
    /// Publisher.
    pub publisher: String,
    /// Offer.
    pub offer: String,
    /// SKU.
    pub sku: String,
    /// Version.
    pub version: String,
}

/// Azure disk specification.
#[derive(Clone, Debug, PartialEq, Eq)]
pub struct AzureDisk {
    /// Disk size in GB.
    pub size_gb: u32,
    /// Disk type.
    pub disk_type: String,
    /// Whether this is a managed disk.
    pub managed: bool,
}

/// Azure-specific resource specification.
#[derive(Clone, Debug, PartialEq, Eq)]
pub struct AzureSpec {
    /// VM size.
    pub vm_size: Option<String>,
    /// Image reference.
    pub image_reference: Option<ImageReference>,
    /// Network interface.
    pub network_interface: Option<String>,
    /// Storage account.
    pub storage_account: Option<String>,
    /// Availability set.
    pub availability_set: Option<String>,
    /// Disks.
    pub disks: Vec<AzureDisk>,
}

/// Provider-specific resource specification.  Exactly the block of the
/// declared provider may be present; validation rejects foreign blocks.
#[derive(Clone, Debug, PartialEq, Eq)]
pub struct ProviderSpec {
    /// AWS-specific fields.
    pub aws: Option<AwsSpec>,
    /// GCP-specific fields.
    pub gcp: Option<GcpSpec>,
    /// Azure-specific fields.
    pub azure: Option<AzureSpec>,
}

/// Common resource specification fields.
#[derive(Clone, Debug, PartialEq, Eq)]
pub struct CommonSpec {
    /// Free-text description.
    pub description: Option<String>,
    /// Resource tags: a key-unique string mapping.
    pub tags: Vec<(String, String)>,
    /// Resource labels: a key-unique string mapping.
    pub labels: Vec<(String, String)>,
    /// Resource region.
    pub region: String,
    /// Resource zone, for zonal resources.
    pub zone: Option<String>,
    /// Availability zone.
    pub availability_zone: Option<String>,
    /// Cost estimate in cents.
    pub cost_estimate: Option<u64>,
    /// Identities of resources this resource depends on.
    pub dependencies: Vec<u128>,
}

/// Resource specification: the type- and provider-specific attribute set
/// describing how a resource should be configured.
#[derive(Clone, Debug, PartialEq, Eq)]
pub struct ResourceSpec {
    /// Common fields for all resources.
    pub common: CommonSpec,
    /// Provider-specific fields.
    pub provider_spec: ProviderSpec,
}

/// The canonical resource record tracked by the registry.
#[derive(Clone, Debug, PartialEq, Eq)]
pub struct Resource {
    /// Unique identifier, assigned by the registry at creation, immutable.
    pub id: u128,
    /// Caller-supplied name; not unique, mutable only via update.
    pub name: String,
    /// Type of the resource.
    pub resource_type: ResourceType,
    /// Provider of the resource.
    pub provider: Provider,
    /// Current lifecycle status.
    pub status: ResourceStatus,
    /// Creation timestamp in milliseconds; immutable.
    pub created_at: i64,
    /// Last-update timestamp in milliseconds; advances on every mutation.
    pub updated_at: i64,
    /// Resource specification.
    pub spec: ResourceSpec,
    /// Optional free-text diagnostic, set when the status is `Failed`.
    pub status_details: Option<String>,
}

/// Every key of the mapping is a non-empty string.
pub open spec fn seq_keys_nonempty(m: Seq<(String, String)>) -> bool {
    forall|i: int| 0 <= i < m.len() ==> m[i].0@.len() > 0
}

/// No key occurs twice in the mapping.
pub open spec fn seq_keys_unique(m: Seq<(String, String)>) -> bool {
    forall|i: int, j: int| 0 <= i < j < m.len() ==> m[i].0@ != m[j].0@
}

/// The first rule a key-unique string mapping breaks, if any.
pub open spec fn mapping_error(m: Seq<(String, String)>, key_field: FieldName) -> Option<
    ValidationError,
> {
    if !seq_keys_nonempty(m) {
        Some(ValidationError::InvalidValue(key_field, InvalidReason::EmptyKey))
    } else if !seq_keys_unique(m) {
        Some(ValidationError::InvalidValue(key_field, InvalidReason::DuplicateKey))
    } else {
        None
    }
}

/// The rule the provider blocks break for the declared provider, if any:
/// the declared provider's block must be present, and no foreign block may
/// be.
pub open spec fn provider_block_error(p: Provider, ps: ProviderSpec) -> Option<ValidationError> {
    match p {
        Provider::Aws => if ps.aws is None {
            Some(ValidationError::MissingField(FieldName::AwsBlock))
        } else if ps.gcp is Some {
            Some(ValidationError::InvalidValue(FieldName::GcpBlock, InvalidReason::WrongProvider))
        } else if ps.azure is Some {
            Some(ValidationError::InvalidValue(FieldName::AzureBlock, InvalidReason::WrongProvider))
        } else {
            None
        },
        Provider::Gcp => if ps.gcp is None {
            Some(ValidationError::MissingField(FieldName::GcpBlock))
        } else if ps.aws is Some {
            Some(ValidationError::InvalidValue(FieldName::AwsBlock, InvalidReason::WrongProvider))
        } else if ps.azure is Some {
            Some(ValidationError::InvalidValue(FieldName::AzureBlock, InvalidReason::WrongProvider))
        } else {
            None
        },
        Provider::Azure => if ps.azure is None {
            Some(ValidationError::MissingField(FieldName::AzureBlock))
        } else if ps.aws is Some {
            Some(ValidationError::InvalidValue(FieldName::AwsBlock, InvalidReason::WrongProvider))
        } else if ps.gcp is Some {
            Some(ValidationError::InvalidValue(FieldName::GcpBlock, InvalidReason::WrongProvider))
        } else {
            None
        },
        Provider::OnPremise => if ps.aws is Some {
            Some(ValidationError::InvalidValue(FieldName::AwsBlock, InvalidReason::WrongProvider))
        } else if ps.gcp is Some {
            Some(ValidationError::InvalidValue(FieldName::GcpBlock, InvalidReason::WrongProvider))
        } else if ps.azure is Some {
            Some(ValidationError::InvalidValue(FieldName::AzureBlock, InvalidReason::WrongProvider))
        } else {
            None
        },
    }
}

/// The rule a required text field breaks, if any.
pub open spec fn required_text_error(t: Option<String>, f: FieldName) -> Option<ValidationError> {
    match t {
        None => Some(ValidationError::MissingField(f)),
        Some(s) => if s@.len() == 0 {
            Some(ValidationError::InvalidValue(f, InvalidReason::EmptyValue))
        } else {
            None
        },
    }
}

/// The rule the type-specific fields break, if any.  A compute resource
/// needs the instance sizing field of its provider.
pub open spec fn compute_field_error(rt: ResourceType, p: Provider, ps: ProviderSpec) -> Option<
    ValidationError,
> {
    match rt {
        ResourceType::Compute => match p {
            Provider::Aws => match ps.aws {
                Some(a) => required_text_error(a.instance_type, FieldName::InstanceType),
                None => None,
            },
            Provider::Gcp => match ps.gcp {
                Some(g) => required_text_error(g.machine_type, FieldName::MachineType),
                None => None,
            },
            Provider::Azure => match ps.azure {
                Some(a) => required_text_error(a.vm_size, FieldName::VmSize),
                None => None,
            },
            Provider::OnPremise => None,
        },
        _ => None,
    }
}

/// What validation returns: `Ok` when every rule holds, else the first
/// broken rule in the order region, tags, labels, provider blocks,
/// type-specific fields.
pub open spec fn validate_spec(rt: ResourceType, p: Provider, s: ResourceSpec) -> Result<
    (),
    ValidationError,
> {
    if s.common.region@.len() == 0 {
        Err(ValidationError::MissingField(FieldName::Region))
    } else {
        match mapping_error(s.common.tags@, FieldName::TagKey) {
            Some(e) => Err(e),
            None => match mapping_error(s.common.labels@, FieldName::LabelKey) {
                Some(e) => Err(e),
                None => match provider_block_error(p, s.provider_spec) {
                    Some(e) => Err(e),
                    None => match compute_field_error(rt, p, s.provider_spec) {
                        Some(e) => Err(e),
                        None => Ok(()),
                    },
                },
            },
        }
    }
}

/// A specification that validation accepts.
pub open spec fn spec_valid(rt: ResourceType, p: Provider, s: ResourceSpec) -> bool {
    validate_spec(rt, p, s) is Ok
}

/// Decides whether every key of the mapping is non-empty.
fn keys_all_nonempty(m: &Vec<(String, String)>) -> (r: bool)
    ensures
        r == seq_keys_nonempty(m@),
{
    let mut i: usize = 0;
    while i < m.len()
        invariant
            i <= m.len(),
            forall|k: int| 0 <= k < i ==> m@[k].0@.len() > 0,
        decreases m.len() - i,
    {
        if m[i].0.as_str().is_empty() {
            return false;
        }
        i += 1;
    }
    true
}

/// Decides whether no key occurs twice in the mapping.
fn keys_all_unique(m: &Vec<(String, String)>) -> (r: bool)
    ensures
        r == seq_keys_unique(m@),
{
    let mut i: usize = 0;
    while i < m.len()
        invariant
            i <= m.len(),
            forall|a: int, b: int| 0 <= a < b < i ==> m@[a].0@ != m@[b].0@,
        decreases m.len() - i,
    {
        let mut j: usize = 0;
        while j < i
            invariant
                j <= i < m.len(),
                forall|a: int, b: int| 0 <= a < b < i ==> m@[a].0@ != m@[b].0@,
                forall|a: int| 0 <= a < j ==> m@[a].0@ != m@[i as int].0@,
            decreases i - j,
        {
            if m[j].0 == m[i].0 {
                return false;
            }
            j += 1;
        }
        i += 1;
    }
    true
}

/// Checks a key-unique string mapping, returning the first broken rule.
fn mapping_check(m: &Vec<(String, String)>, key_field: FieldName) -> (r: Option<ValidationError>)
    ensures
        r == mapping_error(m@, key_field),
{
    if !keys_all_nonempty(m) {
        return Some(ValidationError::InvalidValue(key_field, InvalidReason::EmptyKey));
    }
    if !keys_all_unique(m) {
        return Some(ValidationError::InvalidValue(key_field, InvalidReason::DuplicateKey));
    }
    None
}

/// Checks the provider blocks against the declared provider.
fn provider_block_check(p: Provider, ps: &ProviderSpec) -> (r: Option<ValidationError>)
    ensures
        r == provider_block_error(p, *ps),
{
    let aws_present = ps.aws.is_some();
    let gcp_present = ps.gcp.is_some();
    let azure_present = ps.azure.is_some();
    match p {
        Provider::Aws => if !aws_present {
            Some(ValidationError::MissingField(FieldName::AwsBlock))
        } else if gcp_present {
            Some(ValidationError::InvalidValue(FieldName::GcpBlock, InvalidReason::WrongProvider))
        } else if azure_present {
            Some(ValidationError::InvalidValue(FieldName::AzureBlock, InvalidReason::WrongProvider))
        } else {
            None
        },
        Provider::Gcp => if !gcp_present {
            Some(ValidationError::MissingField(FieldName::GcpBlock))
        } else if aws_present {
            Some(ValidationError::InvalidValue(FieldName::AwsBlock, InvalidReason::WrongProvider))
        } else if azure_present {
            Some(ValidationError::InvalidValue(FieldName::AzureBlock, InvalidReason::WrongProvider))
        } else {
            None
        },
        Provider::Azure => if !azure_present {
            Some(ValidationError::MissingField(FieldName::AzureBlock))
        } else if aws_present {
            Some(ValidationError::InvalidValue(FieldName::AwsBlock, InvalidReason::WrongProvider))
        } else if gcp_present {
            Some(ValidationError::InvalidValue(FieldName::GcpBlock, InvalidReason::WrongProvider))
        } else {
            None
        },
        Provider::OnPremise => if aws_present {
            Some(ValidationError::InvalidValue(FieldName::AwsBlock, InvalidReason::WrongProvider))
        } else if gcp_present {
            Some(ValidationError::InvalidValue(FieldName::GcpBlock, InvalidReason::WrongProvider))
        } else if azure_present {
            Some(ValidationError::InvalidValue(FieldName::AzureBlock, InvalidReason::WrongProvider))
        } else {
            None
        },
    }
}

/// Checks a required text field.
fn required_text_check(t: &Option<String>, f: FieldName) -> (r: Option<ValidationError>)
    ensures
        r == required_text_error(*t, f),
{
    match t {
        None => Some(ValidationError::MissingField(f)),
        Some(s) => if s.as_str().is_empty() {
            Some(ValidationError::InvalidValue(f, InvalidReason::EmptyValue))
        } else {
            None
        },
    }
}

/// Checks the type-specific required fields.
fn compute_field_check(rt: ResourceType, p: Provider, ps: &ProviderSpec) -> (r: Option<
    ValidationError,
>)
    ensures
        r == compute_field_error(rt, p, *ps),
{
    match rt {
        ResourceType::Compute => match p {
            Provider::Aws => match &ps.aws {
                Some(a) => required_text_check(&a.instance_type, FieldName::InstanceType),
                None => None,
            },
            Provider::Gcp => match &ps.gcp {
                Some(g) => required_text_check(&g.machine_type, FieldName::MachineType),
                None => None,
            },
            Provider::Azure => match &ps.azure {
                Some(a) => required_text_check(&a.vm_size, FieldName::VmSize),
                None => None,
            },
            Provider::OnPremise => None,
        },
        _ => None,
    }
}

/// Checks that the required fields for the declared resource type and
/// provider combination are present, that mapping keys are non-empty and
/// unique within their own mapping, and that exactly the declared
/// provider's block is given.  Pure function of its input.
pub fn validate(resource_type: ResourceType, provider: Provider, spec: &ResourceSpec) -> (r: Result<
    (),
    ValidationError,
>)
    ensures
        r == validate_spec(resource_type, provider, *spec),
{
    if spec.common.region.as_str().is_empty() {
        return Err(ValidationError::MissingField(FieldName::Region));
    }
    match mapping_check(&spec.common.tags, FieldName::TagKey) {
        Some(e) => {
            return Err(e);
        },
        None => {},
    }
    match mapping_check(&spec.common.labels, FieldName::LabelKey) {
        Some(e) => {
            return Err(e);
        },
        None => {},
    }
    match provider_block_check(provider, &spec.provider_spec) {
        Some(e) => {
            return Err(e);
        },
        None => {},
    }
    match compute_field_check(resource_type, provider, &spec.provider_spec) {
        Some(e) => {
            return Err(e);
        },
        None => {},
    }
    Ok(())
}

} // verus!
