use resource_registry::errors::RegistryError;
use resource_registry::models::CommonSpec;
use resource_registry::models::Provider;
use resource_registry::models::ProviderSpec;
use resource_registry::models::ResourceSpec;
use resource_registry::models::ResourceStatus;
use resource_registry::models::ResourceType;
use resource_registry::models::default_status;
use resource_registry::models::transition_allowed;
use resource_registry::resources::ResourceFilter;
use resource_registry::resources::ResourceManager;
use resource_registry::resources::ResourcePatch;

fn base_spec() -> ResourceSpec {
    ResourceSpec {
        common: CommonSpec {
            description: None,
            tags: Vec::new(),
            labels: Vec::new(),
            region: "eu-west-1".to_owned(),
            zone: None,
            availability_zone: None,
            cost_estimate: None,
            dependencies: Vec::new(),
        },
        provider_spec: ProviderSpec { aws: None, gcp: None, azure: None },
    }
}

fn no_patch() -> ResourcePatch {
    ResourcePatch { name: None, status: None, spec: None, status_details: None }
}

fn no_filter() -> ResourceFilter {
    ResourceFilter {
        resource_type: None,
        provider: None,
        status: None,
        tag: None,
        offset: 0,
        limit: None,
    }
}

fn status_patch(status: ResourceStatus) -> ResourcePatch {
    ResourcePatch { name: None, status: Some(status), spec: None, status_details: None }
}

fn create(m: &mut ResourceManager, name: &str) -> u128 {
    m.create_resource(name.to_owned(), ResourceType::Storage, Provider::OnPremise, base_spec())
        .expect("creation of a valid spec should succeed")
        .id
}

#[test]
fn created_ids_are_pairwise_distinct() {
    let mut m = ResourceManager::new();
    let mut ids = Vec::new();
    for i in 0..20 {
        ids.push(create(&mut m, &format!("r{}", i)));
    }
    for i in 0..ids.len() {
        for j in 0..i {
            assert_ne!(ids[i], ids[j]);
        }
    }
}

#[test]
fn get_after_create_returns_created_record() {
    let mut m = ResourceManager::new();
    let created = m
        .create_resource("alpha".to_owned(), ResourceType::Storage, Provider::OnPremise, base_spec())
        .expect("creation of a valid spec should succeed")
        .clone();
    let id = created.id;
    let got = m.get_resource(id).expect("record should be present");
    assert_eq!(*got, created);
    assert_eq!(got.name, "alpha");
    assert_eq!(got.resource_type, ResourceType::Storage);
    assert_eq!(got.provider, Provider::OnPremise);
    assert_eq!(got.status, ResourceStatus::Pending);
    assert_eq!(got.spec, base_spec());
    assert_eq!(got.status_details, None);
    assert_eq!(got.created_at, got.updated_at);
}

#[test]
fn get_of_absent_id_is_none() {
    let mut m = ResourceManager::new();
    assert!(m.get_resource(42).is_none());
    let id = create(&mut m, "only");
    assert!(m.get_resource(id.wrapping_add(1)).is_none());
}

#[test]
fn failed_update_leaves_record_unchanged() {
    let mut m = ResourceManager::new();
    let id = create(&mut m, "alpha");
    let before = m.get_resource(id).unwrap().clone();
    let r = m.update_resource(id, status_patch(ResourceStatus::Terminated));
    assert_eq!(
        r,
        Err(RegistryError::InvalidTransition {
            from: ResourceStatus::Pending,
            to: ResourceStatus::Terminated,
        })
    );
    let after = m.get_resource(id).unwrap();
    assert_eq!(*after, before);
}

#[test]
fn delete_is_effectful_and_final() {
    let mut m = ResourceManager::new();
    let id = create(&mut m, "alpha");
    let removed = m.delete_resource(id).expect("first delete should succeed");
    assert_eq!(removed.id, id);
    assert_eq!(removed.name, "alpha");
    assert!(m.get_resource(id).is_none());
    assert_eq!(m.delete_resource(id), Err(RegistryError::NotFound(id)));
}

#[test]
fn partial_update_preserves_untouched_fields() {
    let mut m = ResourceManager::new();
    let mut spec = base_spec();
    spec.common.tags.push(("env".to_owned(), "prod".to_owned()));
    let id = m
        .create_resource("a".to_owned(), ResourceType::Storage, Provider::OnPremise, spec.clone())
        .unwrap()
        .id;
    let updated = m
        .update_resource(id, status_patch(ResourceStatus::Creating))
        .expect("a legal status change should succeed")
        .clone();
    assert_eq!(updated.name, "a");
    assert_eq!(updated.spec.common.tags, vec![("env".to_owned(), "prod".to_owned())]);
    assert_eq!(updated.status, ResourceStatus::Creating);
    assert_eq!(updated.spec, spec);
    let got = m.get_resource(id).unwrap();
    assert_eq!(*got, updated);
}

#[test]
fn filter_by_provider_returns_matching_resources() {
    // The GCP record is inserted in differing positions; the listing of
    // AWS records is the same either way, in insertion order.
    for gcp_position in 0..3 {
        let mut m = ResourceManager::new();
        let mut aws_ids = Vec::new();
        let mut names = vec!["aws-one", "aws-two"];
        names.insert(gcp_position, "gcp-one");
        for name in &names {
            let (provider, block) = if name.starts_with("gcp") {
                (
                    Provider::Gcp,
                    ProviderSpec {
                        aws: None,
                        gcp: Some(gcp_block()),
                        azure: None,
                    },
                )
            } else {
                (
                    Provider::Aws,
                    ProviderSpec {
                        aws: Some(aws_block()),
                        gcp: None,
                        azure: None,
                    },
                )
            };
            let mut spec = base_spec();
            spec.provider_spec = block;
            let id = m
                .create_resource(name.to_string(), ResourceType::Storage, provider, spec)
                .unwrap()
                .id;
            if !name.starts_with("gcp") {
                aws_ids.push(id);
            }
        }
        let mut filter = no_filter();
        filter.provider = Some(Provider::Aws);
        let listed = m.list_resources(&filter);
        assert_eq!(listed.len(), 2);
        assert_eq!(listed[0].id, aws_ids[0]);
        assert_eq!(listed[1].id, aws_ids[1]);
        assert_eq!(listed[0].name, "aws-one");
        assert_eq!(listed[1].name, "aws-two");
    }
}

fn aws_block() -> resource_registry::models::AwsSpec {
    resource_registry::models::AwsSpec {
        instance_type: None,
        ami_id: None,
        security_groups: Vec::new(),
        subnet_id: None,
        vpc_id: None,
        ebs_volumes: Vec::new(),
        iam_role: None,
        auto_scaling_group: None,
    }
}

fn gcp_block() -> resource_registry::models::GcpSpec {
    resource_registry::models::GcpSpec {
        machine_type: None,
        image: None,
        network: None,
        subnetwork: None,
        disks: Vec::new(),
        service_account: None,
        auto_scaling: None,
    }
}

#[test]
fn transition_table_is_enforced() {
    let mut m = ResourceManager::new();
    let id = create(&mut m, "alpha");
    // Terminated straight from Pending is off the table.
    assert_eq!(
        m.update_resource(id, status_patch(ResourceStatus::Terminated)),
        Err(RegistryError::InvalidTransition {
            from: ResourceStatus::Pending,
            to: ResourceStatus::Terminated,
        })
    );
    // Walk a legal chain to Terminating, then Terminated succeeds.
    for status in [
        ResourceStatus::Creating,
        ResourceStatus::Active,
        ResourceStatus::Deleting,
        ResourceStatus::Terminating,
    ] {
        let updated = m
            .update_resource(id, status_patch(status))
            .expect("a legal status change should succeed");
        assert_eq!(updated.status, status);
    }
    let updated = m
        .update_resource(id, status_patch(ResourceStatus::Terminated))
        .expect("Terminating -> Terminated is on the table");
    assert_eq!(updated.status, ResourceStatus::Terminated);
    assert_eq!(m.get_resource(id).unwrap().status, ResourceStatus::Terminated);
}

#[test]
fn terminated_is_terminal() {
    for to in [
        ResourceStatus::Pending,
        ResourceStatus::Creating,
        ResourceStatus::Active,
        ResourceStatus::Updating,
        ResourceStatus::Suspended,
        ResourceStatus::Deleting,
        ResourceStatus::Terminating,
        ResourceStatus::Failed,
    ] {
        assert!(!transition_allowed(ResourceStatus::Terminated, to));
    }
    assert!(transition_allowed(ResourceStatus::Failed, ResourceStatus::Pending));
    assert!(!transition_allowed(ResourceStatus::Failed, ResourceStatus::Active));
}

#[test]
fn default_status_is_pending() {
    assert_eq!(default_status(), ResourceStatus::Pending);
}

#[test]
fn update_of_absent_id_is_not_found() {
    let mut m = ResourceManager::new();
    assert_eq!(m.update_resource(9, no_patch()), Err(RegistryError::NotFound(9)));
}

#[test]
fn colliding_identity_is_detected() {
    let mut m = ResourceManager::new();
    let r1 = m
        .create_resource_with_id(
            11,
            100,
            "first".to_owned(),
            ResourceType::Storage,
            Provider::OnPremise,
            base_spec(),
        )
        .map(|r| r.id);
    assert_eq!(r1, Ok(11));
    let r2 = m
        .create_resource_with_id(
            11,
            200,
            "second".to_owned(),
            ResourceType::Storage,
            Provider::OnPremise,
            base_spec(),
        )
        .map(|r| r.id);
    assert_eq!(r2, Err(RegistryError::IdentityCollision));
    assert_eq!(m.get_resource(11).unwrap().name, "first");
}

#[test]
fn deleted_identity_is_never_reissued() {
    let mut m = ResourceManager::new();
    let r1 = m
        .create_resource_with_id(
            11,
            100,
            "first".to_owned(),
            ResourceType::Storage,
            Provider::OnPremise,
            base_spec(),
        )
        .map(|r| r.id);
    assert_eq!(r1, Ok(11));
    m.delete_resource(11).unwrap();
    let r2 = m
        .create_resource_with_id(
            11,
            200,
            "second".to_owned(),
            ResourceType::Storage,
            Provider::OnPremise,
            base_spec(),
        )
        .map(|r| r.id);
    assert_eq!(r2, Err(RegistryError::IdentityCollision));
    assert!(m.get_resource(11).is_none());
}

#[test]
fn update_timestamp_never_moves_backwards() {
    let mut m = ResourceManager::new();
    let r = m
        .create_resource_with_id(
            5,
            100,
            "alpha".to_owned(),
            ResourceType::Storage,
            Provider::OnPremise,
            base_spec(),
        )
        .map(|r| r.id);
    assert_eq!(r, Ok(5));
    // A clock reading before the stored update timestamp is clamped.
    let updated = m
        .update_resource_at(5, status_patch(ResourceStatus::Creating), 40)
        .expect("a legal status change should succeed");
    assert_eq!(updated.created_at, 100);
    assert_eq!(updated.updated_at, 100);
    // A later reading advances it.
    let updated = m
        .update_resource_at(5, status_patch(ResourceStatus::Active), 250)
        .expect("a legal status change should succeed");
    assert_eq!(updated.updated_at, 250);
    assert!(updated.created_at <= updated.updated_at);
}

#[test]
fn same_status_update_is_no_change() {
    let mut m = ResourceManager::new();
    let id = create(&mut m, "alpha");
    let updated = m
        .update_resource(id, status_patch(ResourceStatus::Pending))
        .expect("a status equal to the current one is no change");
    assert_eq!(updated.status, ResourceStatus::Pending);
}

#[test]
fn status_details_can_be_set_and_cleared() {
    let mut m = ResourceManager::new();
    let id = create(&mut m, "alpha");
    m.update_resource(id, status_patch(ResourceStatus::Failed))
        .expect("Pending -> Failed is on the table");
    let set = ResourcePatch {
        name: None,
        status: None,
        spec: None,
        status_details: Some(Some("boot disk missing".to_owned())),
    };
    let updated = m.update_resource(id, set).expect("details patch should succeed");
    assert_eq!(updated.status_details, Some("boot disk missing".to_owned()));
    let clear = ResourcePatch {
        name: None,
        status: None,
        spec: None,
        status_details: Some(None),
    };
    let updated = m.update_resource(id, clear).expect("details patch should succeed");
    assert_eq!(updated.status_details, None);
}

#[test]
fn rename_via_patch() {
    let mut m = ResourceManager::new();
    let id = create(&mut m, "before");
    let patch = ResourcePatch {
        name: Some("after".to_owned()),
        status: None,
        spec: None,
        status_details: None,
    };
    let updated = m.update_resource(id, patch).expect("a name patch should succeed");
    assert_eq!(updated.name, "after");
    assert_eq!(m.get_resource(id).unwrap().name, "after");
}

#[test]
fn list_pagination_windows() {
    let mut m = ResourceManager::new();
    let mut ids = Vec::new();
    for i in 0..5 {
        ids.push(create(&mut m, &format!("r{}", i)));
    }
    let all = m.list_resources(&no_filter());
    assert_eq!(all.len(), 5);
    for (i, r) in all.iter().enumerate() {
        assert_eq!(r.id, ids[i]);
    }
    let mut window = no_filter();
    window.offset = 1;
    window.limit = Some(2);
    let page = m.list_resources(&window);
    assert_eq!(page.len(), 2);
    assert_eq!(page[0].id, ids[1]);
    assert_eq!(page[1].id, ids[2]);
    let mut beyond = no_filter();
    beyond.offset = 99;
    assert!(m.list_resources(&beyond).is_empty());
    let mut zero = no_filter();
    zero.limit = Some(0);
    assert!(m.list_resources(&zero).is_empty());
    let mut tail = no_filter();
    tail.offset = 3;
    tail.limit = Some(99);
    let rest = m.list_resources(&tail);
    assert_eq!(rest.len(), 2);
    assert_eq!(rest[0].id, ids[3]);
}

#[test]
fn list_by_tag_and_status() {
    let mut m = ResourceManager::new();
    let mut tagged = base_spec();
    tagged.common.tags.push(("env".to_owned(), "prod".to_owned()));
    let id_tagged = m
        .create_resource("a".to_owned(), ResourceType::Storage, Provider::OnPremise, tagged)
        .unwrap()
        .id;
    let mut other = base_spec();
    other.common.tags.push(("env".to_owned(), "dev".to_owned()));
    m.create_resource("b".to_owned(), ResourceType::Storage, Provider::OnPremise, other)
        .map(|r| r.id)
        .unwrap();
    let mut filter = no_filter();
    filter.tag = Some(("env".to_owned(), "prod".to_owned()));
    let listed = m.list_resources(&filter);
    assert_eq!(listed.len(), 1);
    assert_eq!(listed[0].id, id_tagged);
    let mut by_status = no_filter();
    by_status.status = Some(ResourceStatus::Pending);
    assert_eq!(m.list_resources(&by_status).len(), 2);
    by_status.status = Some(ResourceStatus::Active);
    assert!(m.list_resources(&by_status).is_empty());
}

#[test]
fn list_is_a_fresh_evaluation() {
    let mut m = ResourceManager::new();
    let id = create(&mut m, "alpha");
    assert_eq!(m.list_resources(&no_filter()).len(), 1);
    m.delete_resource(id).unwrap();
    assert!(m.list_resources(&no_filter()).is_empty());
}
