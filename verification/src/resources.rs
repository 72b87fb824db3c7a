//! Resource management: the registry owning the live mapping from resource
//! identity to record, and the shapes of kind-specific resources.
//!
//! The registry is the sole owner of the live set and the only component
//! permitted to mutate a stored [`Resource`]: records enter through
//! `create_resource`, change only through `update_resource`, and leave only
//! through `delete_resource`.  Identities are never reused: the registry
//! keeps a log of every identity it ever issued and refuses a colliding
//! draw.

use vstd::prelude::*;

use crate::errors::RegistryError;
use crate::external::fresh_id;
use crate::external::now_millis;
use crate::models::Provider;
use crate::models::Resource;
use crate::models::ResourceSpec;
use crate::models::ResourceStatus;
use crate::models::ResourceType;
use crate::models::allowed_transition;
use crate::models::spec_valid;
use crate::models::transition_allowed;
use crate::models::validate;
use crate::models::validate_spec;

verus! {

/// Storage specification.
#[derive(Clone, Debug, PartialEq, Eq)]
pub struct StorageSpec {
    /// Storage size in GB.
    pub size_gb: u64,
    /// Storage type.
    pub storage_type: String,
    /// Mount point.
    pub mount_point: Option<String>,
    /// File system type.
    pub filesystem_type: Option<String>,
    /// Whether the storage is encrypted.
    pub encrypted: bool,
}

/// Storage type enumeration.
#[derive(Clone, Copy, Debug, PartialEq, Eq, Structural)]
pub enum StorageType {
    /// EBS volume.
    Ebs,
    /// GCP persistent disk.
    GcpPersistentDisk,
    /// Azure managed disk.
    AzureManagedDisk,
    /// Object storage.
    ObjectStorage,
    /// File storage.
    FileStorage,
}

/// Network type enumeration.
#[derive(Clone, Copy, Debug, PartialEq, Eq, Structural)]
pub enum NetworkType {
    /// Virtual private cloud.
    Vpc,
    /// Virtual network.
    Vnet,
    /// Plain network.
    Network,
}

/// Database engine enumeration.
#[derive(Clone, Copy, Debug, PartialEq, Eq, Structural)]
pub enum DatabaseEngine {
    /// MySQL.
    Mysql,
    /// PostgreSQL.
    Postgresql,
    /// Oracle.
    Oracle,
    /// SQL Server.
    SqlServer,
    /// MySQL on Google Cloud SQL.
    MysqlGcp,
    /// PostgreSQL on Google Cloud SQL.
    PostgresqlGcp,
    /// MySQL on Azure Database.
    MysqlAzure,
    /// PostgreSQL on Azure Database.
    PostgresqlAzure,
}

/// Load balancer type enumeration.
#[derive(Clone, Copy, Debug, PartialEq, Eq, Structural)]
pub enum LoadBalancerType {
    /// Application load balancer.
    Application,
    /// Network load balancer.
    Network,
    /// Classic load balancer.
    Classic,
}

/// Security rule direction.
#[derive(Clone, Copy, Debug, PartialEq, Eq, Structural)]
pub enum SecurityRuleDirection {
    /// Inbound rule.
    Inbound,
    /// Outbound rule.
    Outbound,
}

/// Subnet specification.
#[derive(Clone, Debug, PartialEq, Eq)]
pub struct Subnet {
    /// Subnet ID.
    pub id: String,
    /// CIDR block.
    pub cidr_block: String,
    /// Availability zone.
    pub availability_zone: String,
    /// Route table ID.
    pub route_table_id: Option<String>,
    /// Whether the subnet is public.
    pub is_public: bool,
}

/// Security rule specification.
#[derive(Clone, Debug, PartialEq, Eq)]
pub struct SecurityRule {
    /// Rule ID.
    pub id: String,
    /// Protocol.
    pub protocol: String,
    /// Port range.
    pub port_range: String,
    /// Source CIDR.
    pub source_cidr: String,
    /// Direction.
    pub direction: SecurityRuleDirection,
}

/// Security group specification.
#[derive(Clone, Debug, PartialEq, Eq)]
pub struct SecurityGroup {
    /// Security group ID.
    pub id: String,
    /// Security group name.
    pub name: String,
    /// Description.
    pub description: String,
    /// Rules.
    pub rules: Vec<SecurityRule>,
}

/// Certificate specification.
#[derive(Clone, Debug, PartialEq, Eq)]
pub struct Certificate {
    /// Certificate ARN.
    pub arn: String,
    /// Certificate name.
    pub name: String,
}

/// Listener specification.
#[derive(Clone, Debug, PartialEq, Eq)]
pub struct Listener {
    /// Protocol.
    pub protocol: String,
    /// Port.
    pub port: u16,
    /// SSL policy.
    pub ssl_policy: Option<String>,
    /// Certificates.
    pub certificates: Vec<Certificate>,
}

/// Health check specification.
#[derive(Clone, Debug, PartialEq, Eq)]
pub struct HealthCheck {
    /// Health check path.
    pub path: String,
    /// Health check port.
    pub port: u16,
    /// Interval between checks, in seconds.
    pub interval_seconds: u32,
    /// Timeout of one check, in seconds.
    pub timeout_seconds: u32,
    /// Healthy threshold count.
    pub healthy_threshold_count: u32,
    /// Unhealthy threshold count.
    pub unhealthy_threshold_count: u32,
}

/// Target group specification.
#[derive(Clone, Debug, PartialEq, Eq)]
pub struct TargetGroup {
    /// Target group name.
    pub name: String,
    /// Protocol.
    pub protocol: String,
    /// Port.
    pub port: u16,
    /// VPC ID.
    pub vpc_id: String,
    /// Health check.
    pub health_check: HealthCheck,
}

/// Compute instance resource.
#[derive(Clone, Debug, PartialEq, Eq)]
pub struct ComputeInstance {
    /// Base resource record.
    pub resource: Resource,
    /// Instance type.
    pub instance_type: String,
    /// AMI ID, for AWS.
    pub ami_id: Option<String>,
    /// Public IP address.
    pub public_ip: Option<String>,
    /// Private IP address.
    pub private_ip: Option<String>,
    /// SSH key name.
    pub ssh_key: Option<String>,
    /// User data.
    pub user_data: Option<String>,
    /// CPU cores.
    pub cpu_cores: u32,
    /// Memory in GB.
    pub memory_gb: u32,
    /// Storage configuration.
    pub storage: Vec<StorageSpec>,
}

/// Storage resource.
#[derive(Clone, Debug, PartialEq, Eq)]
pub struct StorageResource {
    /// Base resource record.
    pub resource: Resource,
    /// Storage type.
    pub storage_type: StorageType,
    /// Size in GB.
    pub size_gb: u64,
    /// Volume type.
    pub volume_type: String,
    /// Mount point.
    pub mount_point: Option<String>,
    /// File system type.
    pub filesystem_type: Option<String>,
    /// Whether the storage is encrypted.
    pub encrypted: bool,
}

/// Network resource.
#[derive(Clone, Debug, PartialEq, Eq)]
pub struct NetworkResource {
    /// Base resource record.
    pub resource: Resource,
    /// Network type.
    pub network_type: NetworkType,
    /// CIDR block.
    pub cidr_block: String,
    /// Subnets.
    pub subnets: Vec<Subnet>,
    /// Security groups.
    pub security_groups: Vec<SecurityGroup>,
    /// Internet gateway.
    pub internet_gateway: Option<String>,
    /// Route table.
    pub route_table: Option<String>,
}

/// Database resource.
#[derive(Clone, Debug, PartialEq, Eq)]
pub struct DatabaseResource {
    /// Base resource record.
    pub resource: Resource,
    /// Database engine.
    pub engine: DatabaseEngine,
    /// Engine version.
    pub engine_version: String,
    /// Instance class.
    pub instance_class: String,
    /// Allocated storage in GB.
    pub allocated_storage_gb: u64,
    /// Master username.
    pub master_username: String,
    /// Backup retention period in days.
    pub backup_retention_period: u32,
    /// Whether the database is multi-AZ.
    pub multi_az: bool,
    /// Storage type.
    pub storage_type: String,
}

/// Load balancer resource.
#[derive(Clone, Debug, PartialEq, Eq)]
pub struct LoadBalancerResource {
    /// Base resource record.
    pub resource: Resource,
    /// Load balancer type.
    pub lb_type: LoadBalancerType,
    /// Subnets.
    pub subnets: Vec<String>,
    /// Security groups.
    pub security_groups: Vec<String>,
    /// Listeners.
    pub listeners: Vec<Listener>,
    /// Target groups.
    pub target_groups: Vec<TargetGroup>,
    /// Scheme.
    pub scheme: String,
}

/// Some live record carries this identity.
pub open spec fn has_id(s: Seq<Resource>, id: u128) -> bool {
    exists|i: int| 0 <= i < s.len() && s[i].id == id
}

/// The position of the record carrying this identity.
pub open spec fn index_of_id(s: Seq<Resource>, id: u128) -> int {
    choose|i: int| 0 <= i < s.len() && s[i].id == id
}

/// The record stored under this identity, if any.
pub open spec fn lookup(s: Seq<Resource>, id: u128) -> Option<Resource> {
    if has_id(s, id) {
        Some(s[index_of_id(s, id)])
    } else {
        None
    }
}

/// No two live records share an identity.
pub open spec fn ids_unique(s: Seq<Resource>) -> bool {
    forall|i: int, j: int| #![trigger s[i], s[j]] 0 <= i < j < s.len() ==> s[i].id != s[j].id
}

/// The record a create operation stores: status `Pending`, both timestamps
/// at the creation instant, no status details.
pub open spec fn fresh_resource(
    id: u128,
    name: String,
    resource_type: ResourceType,
    provider: Provider,
    spec: ResourceSpec,
    stamp: i64,
) -> Resource {
    Resource {
        id,
        name,
        resource_type,
        provider,
        status: ResourceStatus::Pending,
        created_at: stamp,
        updated_at: stamp,
        spec,
        status_details: None,
    }
}

/// A partial update: fields left `None` are not touched.
#[derive(Clone, Debug, PartialEq, Eq)]
pub struct ResourcePatch {
    /// New name, if the name is to change.
    pub name: Option<String>,
    /// New status, if the status is to change; the move must be an edge of
    /// the transition table.
    pub status: Option<ResourceStatus>,
    /// New specification, if the specification is to change; it is
    /// validated against the record's type and provider.
    pub spec: Option<ResourceSpec>,
    /// New status details: `Some(None)` clears them, `Some(Some(d))` sets
    /// them, `None` leaves them.
    pub status_details: Option<Option<String>>,
}

impl Default for ResourcePatch {
    /// The empty patch, which touches nothing.
    fn default() -> (r: Self)
        ensures
            r == (ResourcePatch {
                name: None,
                status: None,
                spec: None,
                status_details: None,
            }),
    {
        ResourcePatch { name: None, status: None, spec: None, status_details: None }
    }
}

/// The record after applying a patch at the given update instant: patched
/// fields take the patch's values, untouched fields keep the record's, the
/// identity, type, provider and creation timestamp never change.
pub open spec fn patched(r: Resource, p: ResourcePatch, stamp: i64) -> Resource {
    Resource {
        id: r.id,
        name: match p.name {
            Some(n) => n,
            None => r.name,
        },
        resource_type: r.resource_type,
        provider: r.provider,
        status: match p.status {
            Some(st) => st,
            None => r.status,
        },
        created_at: r.created_at,
        updated_at: stamp,
        spec: match p.spec {
            Some(s) => s,
            None => r.spec,
        },
        status_details: match p.status_details {
            Some(d) => d,
            None => r.status_details,
        },
    }
}

/// The rule a requested status change breaks, if any: a requested status
/// equal to the current one is no change, any other move must be an edge
/// of the transition table.
pub open spec fn status_error(cur: Resource, patch: ResourcePatch) -> Option<RegistryError> {
    match patch.status {
        Some(to) => if to == cur.status || allowed_transition(cur.status, to) {
            None
        } else {
            Some(RegistryError::InvalidTransition { from: cur.status, to })
        },
        None => None,
    }
}

/// The rule a patch breaks against the current record, if any: a patched
/// specification must validate for the record's type and provider, and a
/// requested status change must be legal.
pub open spec fn update_error(cur: Resource, patch: ResourcePatch) -> Option<RegistryError> {
    match patch.spec {
        Some(s) => match validate_spec(cur.resource_type, cur.provider, s) {
            Err(e) => Some(RegistryError::InvalidResource(e)),
            Ok(()) => status_error(cur, patch),
        },
        None => status_error(cur, patch),
    }
}

/// Optional predicates of a list operation; all provided predicates are
/// ANDed.  `offset` and `limit` paginate the matching records.
#[derive(Clone, Debug, PartialEq, Eq)]
pub struct ResourceFilter {
    /// Keep only records of this resource type.
    pub resource_type: Option<ResourceType>,
    /// Keep only records of this provider.
    pub provider: Option<Provider>,
    /// Keep only records in this status.
    pub status: Option<ResourceStatus>,
    /// Keep only records carrying this tag key and value.
    pub tag: Option<(String, String)>,
    /// How many matching records to skip; an offset beyond the matching
    /// set yields an empty listing, not an error.
    pub offset: usize,
    /// How many matching records to return at most; `None` returns all.
    pub limit: Option<usize>,
}

impl Default for ResourceFilter {
    /// The empty filter, which keeps every record and paginates nothing.
    fn default() -> (r: Self)
        ensures
            r == (ResourceFilter {
                resource_type: None,
                provider: None,
                status: None,
                tag: None,
                offset: 0usize,
                limit: None,
            }),
    {
        ResourceFilter {
            resource_type: None,
            provider: None,
            status: None,
            tag: None,
            offset: 0,
            limit: None,
        }
    }
}

/// The tag mapping carries this key with this value.
pub open spec fn has_tag(tags: Seq<(String, String)>, key: Seq<char>, value: Seq<char>) -> bool {
    exists|i: int| 0 <= i < tags.len() && tags[i].0@ == key && tags[i].1@ == value
}

/// A record passes every predicate the filter provides.
pub open spec fn matches_filter(r: Resource, f: ResourceFilter) -> bool {
    &&& match f.resource_type {
        Some(t) => r.resource_type == t,
        None => true,
    }
    &&& match f.provider {
        Some(p) => r.provider == p,
        None => true,
    }
    &&& match f.status {
        Some(st) => r.status == st,
        None => true,
    }
    &&& match f.tag {
        Some(kv) => has_tag(r.spec.common.tags@, kv.0@, kv.1@),
        None => true,
    }
}

/// The window `offset`/`limit` cut out of a sequence; out-of-range values
/// clamp to the sequence's bounds.
pub open spec fn page(s: Seq<Resource>, offset: usize, limit: Option<usize>) -> Seq<Resource> {
    let start: int = if offset <= s.len() {
        offset as int
    } else {
        s.len() as int
    };
    let end: int = match limit {
        Some(l) => if start + l <= s.len() {
            start + l
        } else {
            s.len() as int
        },
        None => s.len() as int,
    };
    s.subrange(start, end)
}

/// Every sequence is a prefix of itself.
proof fn lemma_prefix_refl(s: Seq<u128>)
    ensures
        s.is_prefix_of(s),
{
    assert(s.subrange(0, s.len() as int) =~= s);
}

/// Every sequence is a prefix of itself extended by one element.
proof fn lemma_prefix_push(s: Seq<u128>, x: u128)
    ensures
        s.is_prefix_of(s.push(x)),
{
    assert(s.push(x).subrange(0, s.len() as int) =~= s);
}

/// Under unique identities, the record at any position is exactly what a
/// lookup of its identity returns.
proof fn lemma_lookup_at(s: Seq<Resource>, i: int)
    requires
        ids_unique(s),
        0 <= i < s.len(),
    ensures
        lookup(s, s[i].id) == Some(s[i]),
        index_of_id(s, s[i].id) == i,
{
    let id = s[i].id;
    assert(has_id(s, id));
    let j = index_of_id(s, id);
    assert(0 <= j < s.len() && s[j].id == id);
    if i < j {
        assert(s[i].id != s[j].id);
    } else if j < i {
        assert(s[j].id != s[i].id);
    }
}

/// Law (round trip): a record stored under an identity no live record
/// carries is exactly what a lookup of that identity returns afterwards,
/// and every other identity resolves as before.
pub proof fn lemma_create_round_trip(s: Seq<Resource>, r: Resource, o: u128)
    requires
        ids_unique(s),
        forall|i: int| 0 <= i < s.len() ==> (#[trigger] s[i]).id != r.id,
    ensures
        ids_unique(s.push(r)),
        lookup(s.push(r), r.id) == Some(r),
        o != r.id ==> lookup(s.push(r), o) == lookup(s, o),
{
    let t = s.push(r);
    assert forall|i: int, j: int| #![trigger t[i], t[j]] 0 <= i < j < t.len() implies t[i].id
        != t[j].id by {
        if j < s.len() {
            assert(t[i] == s[i] && t[j] == s[j]);
        } else {
            assert(t[j] == r && t[i] == s[i]);
        }
    }
    assert(t[s.len() as int] == r);
    lemma_lookup_at(t, s.len() as int);
    if o != r.id {
        if has_id(s, o) {
            let i = index_of_id(s, o);
            assert(0 <= i < s.len() && s[i].id == o);
            lemma_lookup_at(s, i);
            lemma_lookup_at(t, i);
        } else {
            assert forall|i: int| 0 <= i < t.len() implies (#[trigger] t[i]).id != o by {
                if i < s.len() {
                    assert(t[i] == s[i]);
                    assert(!(0 <= i < s.len() && s[i].id == o));
                }
            }
            assert(!has_id(t, o));
        }
    }
}

/// Under unique identities, replacing the record at a position by one with
/// the same identity keeps identities unique, stores the new record under
/// that identity, and leaves every other identity resolving as before.
proof fn lemma_lookup_after_update(s: Seq<Resource>, i: int, r: Resource, o: u128)
    requires
        ids_unique(s),
        0 <= i < s.len(),
        r.id == s[i].id,
    ensures
        ids_unique(s.update(i, r)),
        lookup(s.update(i, r), r.id) == Some(r),
        o != r.id ==> lookup(s.update(i, r), o) == lookup(s, o),
{
    let t = s.update(i, r);
    assert forall|a: int, b: int| #![trigger t[a], t[b]] 0 <= a < b < t.len() implies t[a].id
        != t[b].id by {
        assert(s[a].id != s[b].id);
    }
    assert(t[i] == r);
    lemma_lookup_at(t, i);
    if o != r.id {
        if has_id(s, o) {
            let k = index_of_id(s, o);
            assert(0 <= k < s.len() && s[k].id == o);
            lemma_lookup_at(s, k);
            assert(k != i);
            assert(t[k] == s[k]);
            lemma_lookup_at(t, k);
        } else {
            assert forall|k: int| 0 <= k < t.len() implies (#[trigger] t[k]).id != o by {
                if k != i {
                    assert(t[k] == s[k]);
                    assert(!(0 <= k < s.len() && s[k].id == o));
                }
            }
            assert(!has_id(t, o));
        }
    }
}

/// Under unique identities, removing the record at a position retires its
/// identity from the live set and leaves every other identity resolving as
/// before.
proof fn lemma_lookup_after_remove(s: Seq<Resource>, i: int, o: u128)
    requires
        ids_unique(s),
        0 <= i < s.len(),
    ensures
        ids_unique(s.remove(i)),
        lookup(s.remove(i), s[i].id) is None,
        o != s[i].id ==> lookup(s.remove(i), o) == lookup(s, o),
{
    let t = s.remove(i);
    assert(t.len() == s.len() - 1);
    assert forall|a: int, b: int| #![trigger t[a], t[b]] 0 <= a < b < t.len() implies t[a].id
        != t[b].id by {
        let a0: int = if a < i {
            a
        } else {
            a + 1
        };
        let b0: int = if b < i {
            b
        } else {
            b + 1
        };
        assert(t[a] == s[a0] && t[b] == s[b0]);
        assert(s[a0].id != s[b0].id);
    }
    let id = s[i].id;
    assert forall|k: int| 0 <= k < t.len() implies (#[trigger] t[k]).id != id by {
        let k0: int = if k < i {
            k
        } else {
            k + 1
        };
        assert(t[k] == s[k0]);
        assert(k0 != i);
        assert(s[k0].id != s[i].id);
    }
    assert(!has_id(t, id));
    if o != id {
        if has_id(s, o) {
            let k = index_of_id(s, o);
            assert(0 <= k < s.len() && s[k].id == o);
            lemma_lookup_at(s, k);
            assert(k != i);
            let k1: int = if k < i {
                k
            } else {
                k - 1
            };
            assert(t[k1] == s[k]);
            lemma_lookup_at(t, k1);
        } else {
            assert forall|k: int| 0 <= k < t.len() implies (#[trigger] t[k]).id != o by {
                let k0: int = if k < i {
                    k
                } else {
                    k + 1
                };
                assert(t[k] == s[k0]);
                assert(!(0 <= k0 < s.len() && s[k0].id == o));
            }
            assert(!has_id(t, o));
        }
    }
}

/// Law (deletion is final): once the record carrying an identity is
/// removed, a lookup of that identity finds nothing — so a second delete
/// of the same identity fails with `NotFound` and changes nothing, as
/// `delete_resource`'s contract states for an absent identity.
pub proof fn lemma_delete_is_final(s: Seq<Resource>, id: u128)
    requires
        ids_unique(s),
        has_id(s, id),
    ensures
        !has_id(s.remove(index_of_id(s, id)), id),
        lookup(s.remove(index_of_id(s, id)), id) is None,
{
    let i = index_of_id(s, id);
    assert(0 <= i < s.len() && s[i].id == id);
    lemma_lookup_after_remove(s, i, id);
}

/// Law (partial update preserves untouched fields): a patch changes only
/// the fields it provides and the update timestamp; the identity, type,
/// provider and creation timestamp never change.
pub proof fn lemma_patch_preserves_untouched(r: Resource, p: ResourcePatch, stamp: i64)
    ensures
        p.name is None ==> patched(r, p, stamp).name == r.name,
        p.status is None ==> patched(r, p, stamp).status == r.status,
        p.spec is None ==> patched(r, p, stamp).spec == r.spec,
        p.status_details is None ==> patched(r, p, stamp).status_details == r.status_details,
        patched(r, p, stamp).id == r.id,
        patched(r, p, stamp).resource_type == r.resource_type,
        patched(r, p, stamp).provider == r.provider,
        patched(r, p, stamp).created_at == r.created_at,
{
}

/// Law (no ghost writes on failure): an update whose patch breaks a rule
/// against the current record fails, and `update_resource`'s contract then
/// forces the new state to equal the old one — so a lookup of any
/// identity afterwards returns exactly what it returned before the call.
pub proof fn lemma_failed_update_no_ghost_writes(
    pre: ResourceManager,
    post: ResourceManager,
    id: u128,
    patch: ResourcePatch,
    r: Result<(), RegistryError>,
    o: u128,
)
    requires
        lookup(pre.live(), id) matches Some(cur) && update_error(cur, patch) is Some,
        lookup(pre.live(), id) matches Some(cur) ==> (match update_error(cur, patch) {
            Some(e) => r == Err::<(), RegistryError>(e) && post == pre,
            None => true,
        }),
    ensures
        r is Err,
        lookup(post.live(), o) == lookup(pre.live(), o),
{
}

/// Law (terminal status): no edge of the transition table leaves
/// `Terminated`.
pub proof fn lemma_terminated_is_terminal(to: ResourceStatus)
    ensures
        !allowed_transition(ResourceStatus::Terminated, to),
{
}

/// Law (uniqueness): identities returned by successful creates are
/// pairwise distinct, however many other operations run in between — a
/// create returns an identity outside everything issued before it, and
/// the issued log only ever grows.
pub proof fn lemma_created_ids_distinct(
    m0: ResourceManager,
    m1: ResourceManager,
    id1: u128,
    m2: ResourceManager,
    m3: ResourceManager,
    id2: u128,
)
    requires
        !m0.issued().contains(id1),
        m1.issued() == m0.issued().push(id1),
        m1.issued().is_prefix_of(m2.issued()),
        !m2.issued().contains(id2),
        m3.issued() == m2.issued().push(id2),
    ensures
        id1 != id2,
{
    let n = m0.issued().len() as int;
    assert(m1.issued()[n] == id1);
    assert(m2.issued().subrange(0, m1.issued().len() as int) == m1.issued());
    assert(m2.issued()[n] == id1);
    assert(m2.issued().contains(id1));
}

/// Resource manager: the in-memory registry and CRUD authority over
/// resources.
pub struct ResourceManager {
    /// The live records, in insertion order.
    resources: Vec<Resource>,
    /// Every identity ever issued, oldest first; deletion never removes an
    /// entry, so identities are never reused.
    issued_ids: Vec<u128>,
}

impl ResourceManager {
    /// The live records, in insertion order.
    pub closed spec fn live(self) -> Seq<Resource> {
        self.resources@
    }

    /// Every identity the registry has ever issued, oldest first.
    pub closed spec fn issued(self) -> Seq<u128> {
        self.issued_ids@
    }

    /// What the registry protects: live identities are unique and were all
    /// issued, timestamps are ordered, and every live record's
    /// specification validates for its type and provider.
    #[verifier::type_invariant]
    spec fn wf(self) -> bool {
        &&& ids_unique(self.resources@)
        &&& forall|i: int|
            0 <= i < self.resources@.len() ==> self.issued_ids@.contains(
                (#[trigger] self.resources@[i]).id,
            )
        &&& forall|i: int|
            0 <= i < self.resources@.len() ==> (#[trigger] self.resources@[i]).created_at
                <= self.resources@[i].updated_at
        &&& forall|i: int|
            0 <= i < self.resources@.len() ==> spec_valid(
                (#[trigger] self.resources@[i]).resource_type,
                self.resources@[i].provider,
                self.resources@[i].spec,
            )
    }

    /// Creates an empty registry.
    pub fn new() -> (r: ResourceManager)
        ensures
            r.live() == Seq::<Resource>::empty(),
            r.issued() == Seq::<u128>::empty(),
    {
        ResourceManager { resources: Vec::new(), issued_ids: Vec::new() }
    }

    /// The position of the live record carrying this identity, if any.
    fn find_index(&self, id: u128) -> (r: Option<usize>)
        ensures
            match r {
                Some(i) => i < self.live().len() && self.live()[i as int].id == id,
                None => !has_id(self.live(), id),
            },
    {
        let mut i: usize = 0;
        while i < self.resources.len()
            invariant
                i <= self.resources@.len(),
                forall|k: int| 0 <= k < i ==> (#[trigger] self.resources@[k]).id != id,
            decreases self.resources@.len() - i,
        {
            if self.resources[i].id == id {
                return Some(i);
            }
            i += 1;
        }
        None
    }

    /// Whether this identity was ever issued.
    fn id_issued(&self, id: u128) -> (r: bool)
        ensures
            r == self.issued().contains(id),
    {
        let mut i: usize = 0;
        while i < self.issued_ids.len()
            invariant
                i <= self.issued_ids@.len(),
                forall|k: int| 0 <= k < i ==> self.issued_ids@[k] != id,
            decreases self.issued_ids@.len() - i,
        {
            if self.issued_ids[i] == id {
                assert(self.issued().contains(id));
                return true;
            }
            i += 1;
        }
        false
    }

    /// Returns the record stored under this identity, or `None` when the
    /// identity is absent — absence is a normal outcome, not an error.
    /// Every returned record is internally consistent: its timestamps are
    /// ordered and its specification validates.
    pub fn get_resource(&self, id: u128) -> (r: Option<&Resource>)
        ensures
            match r {
                Some(res) => lookup(self.live(), id) == Some(*res) && res.id == id
                    && res.created_at <= res.updated_at && spec_valid(
                    res.resource_type,
                    res.provider,
                    res.spec,
                ),
                None => lookup(self.live(), id) is None,
            },
    {
        proof {
            use_type_invariant(&*self);
        }
        match self.find_index(id) {
            Some(i) => {
                proof {
                    lemma_lookup_at(self.live(), i as int);
                }
                Some(&self.resources[i])
            },
            None => None,
        }
    }

    /// Creates a resource from an identity and a clock reading chosen by
    /// the caller: validates the specification, refuses an identity that
    /// was ever issued, and otherwise stores a fresh `Pending` record and
    /// returns it.  The outcome is exact in every case.
    pub fn create_resource_with_id(
        &mut self,
        id: u128,
        now_ms: i64,
        name: String,
        resource_type: ResourceType,
        provider: Provider,
        spec: ResourceSpec,
    ) -> (r: Result<&Resource, RegistryError>)
        ensures
            validate_spec(resource_type, provider, spec) matches Err(e) ==> (r == Err::<
                &Resource,
                RegistryError,
            >(RegistryError::InvalidResource(e)) && *final(self) == *old(self)),
            (spec_valid(resource_type, provider, spec) && old(self).issued().contains(id)) ==> (r
                == Err::<&Resource, RegistryError>(RegistryError::IdentityCollision)
                && *final(self) == *old(self)),
            (spec_valid(resource_type, provider, spec) && !old(self).issued().contains(id)) ==> ({
                &&& r matches Ok(res) && *res == fresh_resource(
                    id,
                    name,
                    resource_type,
                    provider,
                    spec,
                    now_ms,
                )
                &&& final(self).live() == old(self).live().push(
                    fresh_resource(id, name, resource_type, provider, spec, now_ms),
                )
                &&& final(self).issued() == old(self).issued().push(id)
                &&& lookup(final(self).live(), id) == Some(
                    fresh_resource(id, name, resource_type, provider, spec, now_ms),
                )
                &&& forall|o: u128|
                    o != id ==> #[trigger] lookup(final(self).live(), o) == lookup(
                        old(self).live(),
                        o,
                    )
            }),
            old(self).issued().is_prefix_of(final(self).issued()),
    {
        proof {
            use_type_invariant(&*self);
        }
        let ghost pre = *self;
        match validate(resource_type, provider, &spec) {
            Err(e) => {
                proof {
                    lemma_prefix_refl(self.issued_ids@);
                }
                return Err(RegistryError::InvalidResource(e));
            },
            Ok(()) => {},
        }
        if self.id_issued(id) {
            proof {
                lemma_prefix_refl(self.issued_ids@);
            }
            return Err(RegistryError::IdentityCollision);
        }
        let res = Resource {
            id,
            name,
            resource_type,
            provider,
            status: ResourceStatus::Pending,
            created_at: now_ms,
            updated_at: now_ms,
            spec,
            status_details: None,
        };
        proof {
            assert(res == fresh_resource(id, res.name, resource_type, provider, res.spec, now_ms));
            assert forall|i: int| 0 <= i < pre.resources@.len() implies (
            #[trigger] pre.resources@[i]).id != id by {
                assert(pre.issued_ids@.contains(pre.resources@[i].id));
            }
            lemma_create_round_trip(pre.resources@, res, 0);
            lemma_prefix_push(pre.issued_ids@, id);
        }
        let mut resources_local: Vec<Resource> = Vec::new();
        let mut issued_local: Vec<u128> = Vec::new();
        core::mem::swap(&mut resources_local, &mut self.resources);
        core::mem::swap(&mut issued_local, &mut self.issued_ids);
        issued_local.push(id);
        resources_local.push(res);
        proof {
            assert(resources_local@ == pre.resources@.push(res));
            assert(issued_local@ == pre.issued_ids@.push(id));
            assert forall|i: int| 0 <= i < resources_local@.len() implies issued_local@.contains(
                (#[trigger] resources_local@[i]).id,
            ) by {
                if i < pre.resources@.len() {
                    let rid = resources_local@[i].id;
                    assert(pre.issued_ids@.contains(rid));
                    let w = choose|w: int|
                        0 <= w < pre.issued_ids@.len() && pre.issued_ids@[w] == rid;
                    assert(issued_local@[w] == rid);
                } else {
                    assert(issued_local@[pre.issued_ids@.len() as int] == id);
                }
            }
        }
        core::mem::swap(&mut issued_local, &mut self.issued_ids);
        core::mem::swap(&mut resources_local, &mut self.resources);
        proof {
            assert forall|o: u128|
                o != id implies #[trigger] lookup(self.resources@, o) == lookup(
                pre.resources@,
                o,
            ) by {
                lemma_create_round_trip(pre.resources@, res, o);
            }
        }
        let n = self.resources.len();
        Ok(&self.resources[n - 1])
    }

    /// Creates a resource: validates the specification, allocates a fresh
    /// random identity, stamps both timestamps with the clock, stores the
    /// record with status `Pending`, and returns the stored record.  A
    /// colliding identity draw is detected and surfaced as
    /// `IdentityCollision` rather than overwriting a record.
    pub fn create_resource(
        &mut self,
        name: String,
        resource_type: ResourceType,
        provider: Provider,
        spec: ResourceSpec,
    ) -> (r: Result<&Resource, RegistryError>)
        ensures
            validate_spec(resource_type, provider, spec) matches Err(e) ==> (r == Err::<
                &Resource,
                RegistryError,
            >(RegistryError::InvalidResource(e)) && *final(self) == *old(self)),
            spec_valid(resource_type, provider, spec) ==> (r is Ok || r == Err::<
                &Resource,
                RegistryError,
            >(RegistryError::IdentityCollision)),
            r is Err ==> *final(self) == *old(self),
            r matches Ok(res) ==> ({
                &&& spec_valid(resource_type, provider, spec)
                &&& *res == fresh_resource(
                    res.id,
                    name,
                    resource_type,
                    provider,
                    spec,
                    res.created_at,
                )
                &&& !old(self).issued().contains(res.id)
                &&& final(self).issued() == old(self).issued().push(res.id)
                &&& final(self).live() == old(self).live().push(*res)
                &&& lookup(final(self).live(), res.id) == Some(*res)
                &&& forall|o: u128|
                    o != res.id ==> #[trigger] lookup(final(self).live(), o) == lookup(
                        old(self).live(),
                        o,
                    )
            }),
            old(self).issued().is_prefix_of(final(self).issued()),
    {
        let id = fresh_id();
        let now = now_millis();
        let r = self.create_resource_with_id(id, now, name, resource_type, provider, spec);
        r
    }

    /// Applies a partial update at a clock reading chosen by the caller;
    /// the stored update timestamp never moves backwards.  The outcome is
    /// exact in every case: `NotFound` for an absent identity, the
    /// validation error of a patched specification that does not validate,
    /// `InvalidTransition` for a status move off the table — each leaving
    /// the registry unchanged — and otherwise the patched record replaces
    /// the old one in place and is returned.
    pub fn update_resource_at(&mut self, id: u128, patch: ResourcePatch, now_ms: i64) -> (r: Result<
        &Resource,
        RegistryError,
    >)
        ensures
            !has_id(old(self).live(), id) ==> (r == Err::<&Resource, RegistryError>(
                RegistryError::NotFound(id),
            ) && *final(self) == *old(self)),
            lookup(old(self).live(), id) matches Some(cur) ==> (match update_error(cur, patch) {
                Some(e) => r == Err::<&Resource, RegistryError>(e) && *final(self) == *old(self),
                None => ({
                    let stamp = if now_ms >= cur.updated_at {
                        now_ms
                    } else {
                        cur.updated_at
                    };
                    &&& r matches Ok(res) && *res == patched(cur, patch, stamp)
                    &&& final(self).live() == old(self).live().update(
                        index_of_id(old(self).live(), id),
                        patched(cur, patch, stamp),
                    )
                    &&& lookup(final(self).live(), id) == Some(patched(cur, patch, stamp))
                    &&& forall|o: u128|
                        o != id ==> #[trigger] lookup(final(self).live(), o) == lookup(
                            old(self).live(),
                            o,
                        )
                }),
            }),
            final(self).issued() == old(self).issued(),
            old(self).issued().is_prefix_of(final(self).issued()),
    {
        proof {
            use_type_invariant(&*self);
            lemma_prefix_refl(self.issued_ids@);
        }
        let ghost pre = *self;
        let idx = match self.find_index(id) {
            Some(i) => i,
            None => {
                return Err(RegistryError::NotFound(id));
            },
        };
        proof {
            lemma_lookup_at(self.resources@, idx as int);
        }
        match &patch.spec {
            Some(s) => {
                match validate(self.resources[idx].resource_type, self.resources[idx].provider, s) {
                    Err(e) => {
                        return Err(RegistryError::InvalidResource(e));
                    },
                    Ok(()) => {},
                }
            },
            None => {},
        }
        match patch.status {
            Some(to) => {
                let from = self.resources[idx].status;
                if !(to == from) && !transition_allowed(from, to) {
                    return Err(RegistryError::InvalidTransition { from, to });
                }
            },
            None => {},
        }
        let ghost old_live = self.resources@;
        let ghost cur0 = self.resources@[idx as int];
        let mut rs: Vec<Resource> = Vec::new();
        core::mem::swap(&mut rs, &mut self.resources);
        let mut cur = rs.remove(idx);
        match patch.name {
            Some(n) => {
                cur.name = n;
            },
            None => {},
        }
        match patch.spec {
            Some(s) => {
                cur.spec = s;
            },
            None => {},
        }
        match patch.status {
            Some(st) => {
                cur.status = st;
            },
            None => {},
        }
        match patch.status_details {
            Some(d) => {
                cur.status_details = d;
            },
            None => {},
        }
        let stamp = if now_ms >= cur.updated_at {
            now_ms
        } else {
            cur.updated_at
        };
        cur.updated_at = stamp;
        rs.insert(idx, cur);
        proof {
            let upd = old_live.update(idx as int, cur);
            assert(rs@ =~= upd);
            lemma_lookup_after_update(old_live, idx as int, cur, 0);
            assert(cur == patched(cur0, patch, stamp));
            assert forall|i: int| 0 <= i < upd.len() implies ({
                &&& pre.issued_ids@.contains((#[trigger] upd[i]).id)
                &&& upd[i].created_at <= upd[i].updated_at
                &&& spec_valid(upd[i].resource_type, upd[i].provider, upd[i].spec)
            }) by {
                if i != idx {
                    assert(upd[i] == old_live[i]);
                } else {
                    assert(upd[i] == cur);
                    assert(pre.issued_ids@.contains(cur0.id));
                }
            }
        }
        core::mem::swap(&mut rs, &mut self.resources);
        proof {
            assert forall|o: u128|
                o != id implies #[trigger] lookup(self.resources@, o) == lookup(
                old_live,
                o,
            ) by {
                lemma_lookup_after_update(old_live, idx as int, cur, o);
            }
        }
        Ok(&self.resources[idx])
    }

    /// Applies a partial update: fields present in the patch replace the
    /// stored ones, fields omitted are left unchanged, and the update
    /// timestamp advances to the clock.  A patched specification is
    /// validated and a requested status change must be an edge of the
    /// transition table; any failure leaves the registry unchanged.  On
    /// success the new record is returned.
    pub fn update_resource(&mut self, id: u128, patch: ResourcePatch) -> (r: Result<
        &Resource,
        RegistryError,
    >)
        ensures
            !has_id(old(self).live(), id) ==> (r == Err::<&Resource, RegistryError>(
                RegistryError::NotFound(id),
            ) && *final(self) == *old(self)),
            lookup(old(self).live(), id) matches Some(cur) ==> (match update_error(cur, patch) {
                Some(e) => r == Err::<&Resource, RegistryError>(e) && *final(self) == *old(self),
                None => (r matches Ok(res) && {
                    &&& *res == patched(cur, patch, res.updated_at)
                    &&& res.updated_at >= cur.updated_at
                    &&& final(self).live() == old(self).live().update(
                        index_of_id(old(self).live(), id),
                        *res,
                    )
                    &&& lookup(final(self).live(), id) == Some(*res)
                    &&& forall|o: u128|
                        o != id ==> #[trigger] lookup(final(self).live(), o) == lookup(
                            old(self).live(),
                            o,
                        )
                }),
            }),
            final(self).issued() == old(self).issued(),
            old(self).issued().is_prefix_of(final(self).issued()),
    {
        let now = now_millis();
        let r = self.update_resource_at(id, patch, now);
        r
    }

    /// Removes the record stored under this identity and returns it for
    /// the caller's audit; the identity stays retired and is never issued
    /// again.  Fails with `NotFound`, changing nothing, when the identity
    /// is absent.
    pub fn delete_resource(&mut self, id: u128) -> (r: Result<Resource, RegistryError>)
        ensures
            !has_id(old(self).live(), id) ==> (r == Err::<Resource, RegistryError>(
                RegistryError::NotFound(id),
            ) && *final(self) == *old(self)),
            lookup(old(self).live(), id) matches Some(cur) ==> ({
                &&& r == Ok::<Resource, RegistryError>(cur)
                &&& final(self).live() == old(self).live().remove(
                    index_of_id(old(self).live(), id),
                )
                &&& lookup(final(self).live(), id) is None
                &&& forall|o: u128|
                    o != id ==> #[trigger] lookup(final(self).live(), o) == lookup(
                        old(self).live(),
                        o,
                    )
                &&& final(self).issued().contains(id)
            }),
            final(self).issued() == old(self).issued(),
            old(self).issued().is_prefix_of(final(self).issued()),
    {
        proof {
            use_type_invariant(&*self);
            lemma_prefix_refl(self.issued_ids@);
        }
        let ghost pre = *self;
        let idx = match self.find_index(id) {
            Some(i) => i,
            None => {
                return Err(RegistryError::NotFound(id));
            },
        };
        proof {
            lemma_lookup_at(pre.resources@, idx as int);
            lemma_lookup_after_remove(pre.resources@, idx as int, 0);
            assert forall|o: u128|
                o != id implies lookup(pre.resources@.remove(idx as int), o) == lookup(
                pre.resources@,
                o,
            ) by {
                lemma_lookup_after_remove(pre.resources@, idx as int, o);
            }
            assert(pre.issued_ids@.contains(pre.resources@[idx as int].id));
            let t = pre.resources@.remove(idx as int);
            assert forall|k: int| 0 <= k < t.len() implies ({
                &&& pre.issued_ids@.contains((#[trigger] t[k]).id)
                &&& t[k].created_at <= t[k].updated_at
                &&& spec_valid(t[k].resource_type, t[k].provider, t[k].spec)
            }) by {
                let k0: int = if k < idx {
                    k
                } else {
                    k + 1
                };
                assert(t[k] == pre.resources@[k0]);
            }
        }
        let mut rs: Vec<Resource> = Vec::new();
        core::mem::swap(&mut rs, &mut self.resources);
        let removed = rs.remove(idx);
        core::mem::swap(&mut rs, &mut self.resources);
        Ok(removed)
    }

    /// Lists the live records that pass the filter, in insertion order,
    /// windowed by the filter's `offset` and `limit`.  A fresh call
    /// re-evaluates against current state; an offset beyond the matching
    /// set yields an empty listing.
    pub fn list_resources<'a>(&'a self, filter: &ResourceFilter) -> (r: Vec<&'a Resource>)
        ensures
            r@.map_values(|x: &Resource| *x) == page(
                self.live().filter(|res: Resource| matches_filter(res, *filter)),
                filter.offset,
                filter.limit,
            ),
            forall|i: int|
                0 <= i < r@.len() ==> matches_filter(*(#[trigger] r@[i]), *filter),
    {
        broadcast use vstd::seq_lib::group_seq_properties;

        let ghost pred = |res: Resource| matches_filter(res, *filter);
        let mut matched: Vec<&'a Resource> = Vec::new();
        let mut i: usize = 0;
        while i < self.resources.len()
            invariant
                i <= self.resources@.len(),
                matched@.map_values(|x: &Resource| *x) == self.resources@.subrange(
                    0,
                    i as int,
                ).filter(pred),
                forall|k: int|
                    0 <= k < matched@.len() ==> matches_filter(*(#[trigger] matched@[k]), *filter),
                pred == (|res: Resource| matches_filter(res, *filter)),
            decreases self.resources@.len() - i,
        {
            let ghost prefix = self.resources@.subrange(0, i as int);
            proof {
                assert(self.resources@.subrange(0, i as int + 1) =~= prefix.push(
                    self.resources@[i as int],
                ));
                prefix.lemma_filter_push(self.resources@[i as int], pred);
            }
            if filter_matches(&self.resources[i], filter) {
                matched.push(&self.resources[i]);
                proof {
                    assert(matched@.map_values(|x: &Resource| *x) =~= prefix.filter(pred).push(
                        self.resources@[i as int],
                    ));
                }
            }
            i += 1;
        }
        proof {
            assert(self.resources@.subrange(0, self.resources@.len() as int) =~= self.resources@);
        }
        let flen = matched.len();
        let start = if filter.offset <= flen {
            filter.offset
        } else {
            flen
        };
        let end = match filter.limit {
            Some(l) => if l <= flen - start {
                start + l
            } else {
                flen
            },
            None => flen,
        };
        let ghost mseq = matched@.map_values(|x: &Resource| *x);
        let mut out: Vec<&'a Resource> = Vec::new();
        let mut k = start;
        while k < end
            invariant
                start <= k <= end <= flen,
                flen == matched@.len(),
                out@.map_values(|x: &Resource| *x) == mseq.subrange(start as int, k as int),
                mseq == matched@.map_values(|x: &Resource| *x),
                forall|j: int|
                    0 <= j < matched@.len() ==> matches_filter(
                        *(#[trigger] matched@[j]),
                        *filter,
                    ),
                forall|j: int|
                    0 <= j < out@.len() ==> matches_filter(*(#[trigger] out@[j]), *filter),
            decreases end - k,
        {
            out.push(matched[k]);
            proof {
                assert(out@.map_values(|x: &Resource| *x) =~= mseq.subrange(
                    start as int,
                    k as int,
                ).push(mseq[k as int]));
                assert(mseq.subrange(start as int, k as int + 1) =~= mseq.subrange(
                    start as int,
                    k as int,
                ).push(mseq[k as int]));
            }
            k += 1;
        }
        proof {
            assert(out@.map_values(|x: &Resource| *x) =~= page(
                mseq,
                filter.offset,
                filter.limit,
            ));
        }
        out
    }
}

/// The tag mapping carries this key with this value.
fn tag_present(tags: &Vec<(String, String)>, key: &String, value: &String) -> (b: bool)
    ensures
        b == has_tag(tags@, key@, value@),
{
    let mut i: usize = 0;
    while i < tags.len()
        invariant
            i <= tags@.len(),
            forall|k: int|
                0 <= k < i ==> !((#[trigger] tags@[k]).0@ == key@ && tags@[k].1@ == value@),
        decreases tags@.len() - i,
    {
        if tags[i].0 == *key && tags[i].1 == *value {
            return true;
        }
        i += 1;
    }
    false
}

/// Decides whether a record passes every predicate the filter provides.
fn filter_matches(r: &Resource, f: &ResourceFilter) -> (b: bool)
    ensures
        b == matches_filter(*r, *f),
{
    let type_ok = match &f.resource_type {
        Some(t) => r.resource_type == *t,
        None => true,
    };
    let provider_ok = match &f.provider {
        Some(p) => r.provider == *p,
        None => true,
    };
    let status_ok = match &f.status {
        Some(st) => r.status == *st,
        None => true,
    };
    let tag_ok = match &f.tag {
        Some(kv) => tag_present(&r.spec.common.tags, &kv.0, &kv.1),
        None => true,
    };
    type_ok && provider_ok && status_ok && tag_ok
}

} // verus!
