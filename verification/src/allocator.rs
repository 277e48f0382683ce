//! The allocator side of the inventory: zones, the allocators they
//! contain, the instances hosted on each allocator, and the pending
//! plan attached to an instance.
//!
//! Every entity is an immutable snapshot of plain values; each type has
//! a deep view (`...V`) over mathematical sequences and character
//! strings, and all projection contracts are stated over those views.

use vstd::prelude::*;

verus! {

/// A free-form metadata tag; also the shape of one metric label.
#[derive(Clone)]
pub struct KeyValue {
    pub key: String,
    pub value: String,
}

/// Deep view of a [`KeyValue`].
pub struct KeyValueV {
    pub key: Seq<char>,
    pub value: Seq<char>,
}

impl DeepView for KeyValue {
    type V = KeyValueV;

    open spec fn deep_view(&self) -> KeyValueV {
        KeyValueV { key: self.key@, value: self.value@ }
    }
}

impl KeyValue {
    /// A copy with the same key and value.
    pub fn duplicate(&self) -> (r: KeyValue)
        ensures
            r.deep_view() == self.deep_view(),
    {
        KeyValue { key: self.key.clone(), value: self.value.clone() }
    }
}

/// Connection and health state of an allocator.
pub struct Status {
    pub connected: bool,
    pub healthy: bool,
    pub maintenance_mode: bool,
}

impl DeepView for Status {
    type V = Status;

    open spec fn deep_view(&self) -> Status {
        *self
    }
}

/// Memory counters of an allocator, both in bytes.
///
/// `used <= total` is deliberately not enforced: the pipeline passes
/// the counters through untouched.
pub struct Memory {
    pub total: u64,
    pub used: u64,
}

impl DeepView for Memory {
    type V = Memory;

    open spec fn deep_view(&self) -> Memory {
        *self
    }
}

/// Capacity of an allocator.
pub struct Capacity {
    pub memory: Memory,
}

impl DeepView for Capacity {
    type V = Capacity;

    open spec fn deep_view(&self) -> Capacity {
        *self
    }
}

/// The pending or active configuration change of an instance.
pub struct PlansInfo {
    pub pending: bool,
    pub version: Option<String>,
    pub zone_count: Option<u64>,
}

/// Deep view of a [`PlansInfo`].
pub struct PlansInfoV {
    pub pending: bool,
    pub version: Option<Seq<char>>,
    pub zone_count: Option<u64>,
}

impl DeepView for PlansInfo {
    type V = PlansInfoV;

    open spec fn deep_view(&self) -> PlansInfoV {
        PlansInfoV {
            pending: self.pending,
            version: self.version.deep_view(),
            zone_count: self.zone_count,
        }
    }
}

/// A hosted workload running on an allocator.
pub struct Instance {
    pub cluster_type: String,
    pub cluster_id: String,
    pub cluster_name: Option<String>,
    pub instance_name: String,
    pub node_memory: u64,
    pub healthy: Option<bool>,
    pub cluster_healthy: Option<bool>,
    pub instance_configuration_id: String,
    pub moving: Option<bool>,
    pub plans_info: Option<PlansInfo>,
    pub deployment_id: Option<String>,
}

/// Deep view of an [`Instance`].
pub struct InstanceV {
    pub cluster_type: Seq<char>,
    pub cluster_id: Seq<char>,
    pub cluster_name: Option<Seq<char>>,
    pub instance_name: Seq<char>,
    pub node_memory: u64,
    pub healthy: Option<bool>,
    pub cluster_healthy: Option<bool>,
    pub instance_configuration_id: Seq<char>,
    pub moving: Option<bool>,
    pub plans_info: Option<PlansInfoV>,
    pub deployment_id: Option<Seq<char>>,
}

impl DeepView for Instance {
    type V = InstanceV;

    open spec fn deep_view(&self) -> InstanceV {
        InstanceV {
            cluster_type: self.cluster_type@,
            cluster_id: self.cluster_id@,
            cluster_name: self.cluster_name.deep_view(),
            instance_name: self.instance_name@,
            node_memory: self.node_memory,
            healthy: self.healthy,
            cluster_healthy: self.cluster_healthy,
            instance_configuration_id: self.instance_configuration_id@,
            moving: self.moving,
            plans_info: self.plans_info.deep_view(),
            deployment_id: self.deployment_id.deep_view(),
        }
    }
}

/// Version identity of the software an allocator runs.
pub struct BuildInfo {
    pub commit_hash: String,
    pub version: String,
}

/// Deep view of a [`BuildInfo`].
pub struct BuildInfoV {
    pub commit_hash: Seq<char>,
    pub version: Seq<char>,
}

impl DeepView for BuildInfo {
    type V = BuildInfoV;

    open spec fn deep_view(&self) -> BuildInfoV {
        BuildInfoV { commit_hash: self.commit_hash@, version: self.version@ }
    }
}

/// A link the control plane attaches to an allocator.
pub struct ExternalLink {
    pub id: String,
    pub label: String,
    pub uri: String,
}

/// Deep view of an [`ExternalLink`].
pub struct ExternalLinkV {
    pub id: Seq<char>,
    pub label: Seq<char>,
    pub uri: Seq<char>,
}

impl DeepView for ExternalLink {
    type V = ExternalLinkV;

    open spec fn deep_view(&self) -> ExternalLinkV {
        ExternalLinkV { id: self.id@, label: self.label@, uri: self.uri@ }
    }
}

/// A host in the inventory, with the instances it runs and the
/// metadata tags that are replicated onto every derived metric.
pub struct Allocator {
    pub status: Status,
    pub allocator_id: String,
    pub zone_id: String,
    pub host_ip: String,
    pub public_hostname: String,
    pub capacity: Capacity,
    pub instances: Vec<Instance>,
    pub metadata: Vec<KeyValue>,
    pub build_info: BuildInfo,
    pub features: Vec<String>,
    pub external_links: Vec<ExternalLink>,
}

/// Deep view of an [`Allocator`].
pub struct AllocatorV {
    pub status: Status,
    pub allocator_id: Seq<char>,
    pub zone_id: Seq<char>,
    pub host_ip: Seq<char>,
    pub public_hostname: Seq<char>,
    pub capacity: Capacity,
    pub instances: Seq<InstanceV>,
    pub metadata: Seq<KeyValueV>,
    pub build_info: BuildInfoV,
    pub features: Seq<Seq<char>>,
    pub external_links: Seq<ExternalLinkV>,
}

impl DeepView for Allocator {
    type V = AllocatorV;

    open spec fn deep_view(&self) -> AllocatorV {
        AllocatorV {
            status: self.status,
            allocator_id: self.allocator_id@,
            zone_id: self.zone_id@,
            host_ip: self.host_ip@,
            public_hostname: self.public_hostname@,
            capacity: self.capacity,
            instances: self.instances.deep_view(),
            metadata: self.metadata.deep_view(),
            build_info: self.build_info.deep_view(),
            features: self.features.deep_view(),
            external_links: self.external_links.deep_view(),
        }
    }
}

/// An availability zone and the allocators it groups.
pub struct Zone {
    pub zone_id: String,
    pub allocators: Vec<Allocator>,
}

/// Deep view of a [`Zone`].
pub struct ZoneV {
    pub zone_id: Seq<char>,
    pub allocators: Seq<AllocatorV>,
}

impl DeepView for Zone {
    type V = ZoneV;

    open spec fn deep_view(&self) -> ZoneV {
        ZoneV { zone_id: self.zone_id@, allocators: self.allocators.deep_view() }
    }
}

/// The whole allocator inventory returned by one fetch.
pub struct AllocatorsRoot {
    pub zones: Vec<Zone>,
}

/// Deep view of an [`AllocatorsRoot`].
pub struct AllocatorsRootV {
    pub zones: Seq<ZoneV>,
}

impl DeepView for AllocatorsRoot {
    type V = AllocatorsRootV;

    open spec fn deep_view(&self) -> AllocatorsRootV {
        AllocatorsRootV { zones: self.zones.deep_view() }
    }
}

} // verus!
