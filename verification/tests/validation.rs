use resource_registry::errors::FieldName;
use resource_registry::errors::InvalidReason;
use resource_registry::errors::RegistryError;
use resource_registry::errors::ValidationError;
use resource_registry::models::AwsSpec;
use resource_registry::models::AzureSpec;
use resource_registry::models::CommonSpec;
use resource_registry::models::GcpSpec;
use resource_registry::models::Provider;
use resource_registry::models::ProviderSpec;
use resource_registry::models::ResourceSpec;
use resource_registry::models::ResourceType;
use resource_registry::models::validate;
use resource_registry::resources::ResourceManager;

fn empty_aws() -> AwsSpec {
    AwsSpec {
        instance_type: None,
        ami_id: None,
        security_groups: Vec::new(),
        subnet_id: None,
        vpc_id: None,
        ebs_volumes: Vec::new(),
        iam_role: None,
        auto_scaling_group: None,
    }
}

fn empty_gcp() -> GcpSpec {
    GcpSpec {
        machine_type: None,
        image: None,
        network: None,
        subnetwork: None,
        disks: Vec::new(),
        service_account: None,
        auto_scaling: None,
    }
}

fn empty_azure() -> AzureSpec {
    AzureSpec {
        vm_size: None,
        image_reference: None,
        network_interface: None,
        storage_account: None,
        availability_set: None,
        disks: Vec::new(),
    }
}

fn spec_with(provider_spec: ProviderSpec) -> ResourceSpec {
    ResourceSpec {
        common: CommonSpec {
            description: None,
            tags: Vec::new(),
            labels: Vec::new(),
            region: "us-east-1".to_owned(),
            zone: None,
            availability_zone: None,
            cost_estimate: None,
            dependencies: Vec::new(),
        },
        provider_spec,
    }
}

fn on_premise_spec() -> ResourceSpec {
    spec_with(ProviderSpec { aws: None, gcp: None, azure: None })
}

#[test]
fn empty_region_is_missing_field() {
    let mut spec = on_premise_spec();
    spec.common.region = String::new();
    assert_eq!(
        validate(ResourceType::Storage, Provider::OnPremise, &spec),
        Err(ValidationError::MissingField(FieldName::Region))
    );
}

#[test]
fn empty_tag_key_is_invalid() {
    let mut spec = on_premise_spec();
    spec.common.tags.push((String::new(), "x".to_owned()));
    assert_eq!(
        validate(ResourceType::Storage, Provider::OnPremise, &spec),
        Err(ValidationError::InvalidValue(FieldName::TagKey, InvalidReason::EmptyKey))
    );
}

#[test]
fn duplicate_tag_key_is_invalid() {
    let mut spec = on_premise_spec();
    spec.common.tags.push(("env".to_owned(), "prod".to_owned()));
    spec.common.tags.push(("env".to_owned(), "dev".to_owned()));
    assert_eq!(
        validate(ResourceType::Storage, Provider::OnPremise, &spec),
        Err(ValidationError::InvalidValue(FieldName::TagKey, InvalidReason::DuplicateKey))
    );
}

#[test]
fn equal_tag_values_under_distinct_keys_are_fine() {
    let mut spec = on_premise_spec();
    spec.common.tags.push(("env".to_owned(), "prod".to_owned()));
    spec.common.tags.push(("tier".to_owned(), "prod".to_owned()));
    assert_eq!(validate(ResourceType::Storage, Provider::OnPremise, &spec), Ok(()));
}

#[test]
fn duplicate_label_key_is_invalid() {
    let mut spec = on_premise_spec();
    spec.common.labels.push(("team".to_owned(), "a".to_owned()));
    spec.common.labels.push(("team".to_owned(), "b".to_owned()));
    assert_eq!(
        validate(ResourceType::Storage, Provider::OnPremise, &spec),
        Err(ValidationError::InvalidValue(FieldName::LabelKey, InvalidReason::DuplicateKey))
    );
}

#[test]
fn declared_provider_block_is_required() {
    let spec = spec_with(ProviderSpec { aws: None, gcp: None, azure: None });
    assert_eq!(
        validate(ResourceType::Storage, Provider::Aws, &spec),
        Err(ValidationError::MissingField(FieldName::AwsBlock))
    );
    assert_eq!(
        validate(ResourceType::Storage, Provider::Gcp, &spec),
        Err(ValidationError::MissingField(FieldName::GcpBlock))
    );
    assert_eq!(
        validate(ResourceType::Storage, Provider::Azure, &spec),
        Err(ValidationError::MissingField(FieldName::AzureBlock))
    );
}

#[test]
fn foreign_provider_block_is_rejected() {
    let spec = spec_with(ProviderSpec {
        aws: Some(empty_aws()),
        gcp: Some(empty_gcp()),
        azure: None,
    });
    assert_eq!(
        validate(ResourceType::Storage, Provider::Aws, &spec),
        Err(ValidationError::InvalidValue(FieldName::GcpBlock, InvalidReason::WrongProvider))
    );
    let spec = spec_with(ProviderSpec { aws: None, gcp: None, azure: Some(empty_azure()) });
    assert_eq!(
        validate(ResourceType::Storage, Provider::OnPremise, &spec),
        Err(ValidationError::InvalidValue(FieldName::AzureBlock, InvalidReason::WrongProvider))
    );
}

#[test]
fn aws_compute_requires_instance_type() {
    let spec = spec_with(ProviderSpec { aws: Some(empty_aws()), gcp: None, azure: None });
    assert_eq!(
        validate(ResourceType::Compute, Provider::Aws, &spec),
        Err(ValidationError::MissingField(FieldName::InstanceType))
    );
    let mut with_empty = empty_aws();
    with_empty.instance_type = Some(String::new());
    let spec = spec_with(ProviderSpec { aws: Some(with_empty), gcp: None, azure: None });
    assert_eq!(
        validate(ResourceType::Compute, Provider::Aws, &spec),
        Err(ValidationError::InvalidValue(FieldName::InstanceType, InvalidReason::EmptyValue))
    );
    let mut sized = empty_aws();
    sized.instance_type = Some("m5.large".to_owned());
    let spec = spec_with(ProviderSpec { aws: Some(sized), gcp: None, azure: None });
    assert_eq!(validate(ResourceType::Compute, Provider::Aws, &spec), Ok(()));
}

#[test]
fn gcp_compute_requires_machine_type() {
    let spec = spec_with(ProviderSpec { aws: None, gcp: Some(empty_gcp()), azure: None });
    assert_eq!(
        validate(ResourceType::Compute, Provider::Gcp, &spec),
        Err(ValidationError::MissingField(FieldName::MachineType))
    );
    let mut sized = empty_gcp();
    sized.machine_type = Some("e2-small".to_owned());
    let spec = spec_with(ProviderSpec { aws: None, gcp: Some(sized), azure: None });
    assert_eq!(validate(ResourceType::Compute, Provider::Gcp, &spec), Ok(()));
}

#[test]
fn azure_compute_requires_vm_size() {
    let spec = spec_with(ProviderSpec { aws: None, gcp: None, azure: Some(empty_azure()) });
    assert_eq!(
        validate(ResourceType::Compute, Provider::Azure, &spec),
        Err(ValidationError::MissingField(FieldName::VmSize))
    );
}

#[test]
fn non_compute_types_need_no_sizing_field() {
    let spec = spec_with(ProviderSpec { aws: Some(empty_aws()), gcp: None, azure: None });
    for rt in [
        ResourceType::Storage,
        ResourceType::Network,
        ResourceType::Database,
        ResourceType::LoadBalancer,
        ResourceType::ObjectStorage,
    ] {
        assert_eq!(validate(rt, Provider::Aws, &spec), Ok(()));
    }
}

#[test]
fn create_propagates_validation_error() {
    let mut m = ResourceManager::new();
    let mut spec = on_premise_spec();
    spec.common.region = String::new();
    let r = m.create_resource("bad".to_owned(), ResourceType::Storage, Provider::OnPremise, spec);
    assert_eq!(
        r,
        Err(RegistryError::InvalidResource(ValidationError::MissingField(FieldName::Region)))
    );
    assert!(m.list_resources(&Default::default()).is_empty());
}

#[test]
fn update_validates_patched_spec() {
    let mut m = ResourceManager::new();
    let id = m
        .create_resource(
            "good".to_owned(),
            ResourceType::Storage,
            Provider::OnPremise,
            on_premise_spec(),
        )
        .unwrap()
        .id;
    let mut bad = on_premise_spec();
    bad.common.tags.push((String::new(), "x".to_owned()));
    let patch = resource_registry::resources::ResourcePatch {
        name: None,
        status: None,
        spec: Some(bad),
        status_details: None,
    };
    assert_eq!(
        m.update_resource(id, patch),
        Err(RegistryError::InvalidResource(ValidationError::InvalidValue(
            FieldName::TagKey,
            InvalidReason::EmptyKey,
        )))
    );
    assert_eq!(m.get_resource(id).unwrap().spec, on_premise_spec());
}
