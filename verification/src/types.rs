//! The relation snapshots the resolver consumes and the derived records it
//! produces.
//!
//! Every record here is an immutable snapshot row: the resolver only reads
//! and recombines them, it never mutates stored topology or ban state.
//! Each exec record has a spec-level view (`...View`) over `Seq` and plain
//! values; contracts throughout the crate are stated over those views.

use vstd::prelude::*;

verus! {

/// Storage technology backing a target.
#[derive(Clone, Copy, Debug, PartialEq, Eq, Structural)]
pub enum FsType {
    Ldiskfs,
    Zfs,
}

/// A storage target as recorded by the management store: one unit of
/// persistent storage bound to a mount path, with the raw (pre-ban) set of
/// host identifiers it could run on.
#[derive(Clone, Debug, PartialEq)]
pub struct TargetRecord {
    pub id: i32,
    pub state: String,
    pub name: String,
    pub dev_path: Option<String>,
    pub active_host_id: Option<i32>,
    pub host_ids: Vec<i32>,
    pub filesystems: Vec<String>,
    pub uuid: String,
    pub mount_path: Option<String>,
    pub fs_type: Option<FsType>,
}

/// Spec-level image of a [`TargetRecord`].
pub struct TargetRecordView {
    pub id: i32,
    pub state: Seq<char>,
    pub name: Seq<char>,
    pub dev_path: Option<Seq<char>>,
    pub active_host_id: Option<i32>,
    pub host_ids: Seq<i32>,
    pub filesystems: Seq<Seq<char>>,
    pub uuid: Seq<char>,
    pub mount_path: Option<Seq<char>>,
    pub fs_type: Option<FsType>,
}

impl DeepView for TargetRecord {
    type V = TargetRecordView;

    open spec fn deep_view(&self) -> TargetRecordView {
        TargetRecordView {
            id: self.id,
            state: self.state@,
            name: self.name@,
            dev_path: self.dev_path.deep_view(),
            active_host_id: self.active_host_id,
            host_ids: self.host_ids@,
            filesystems: self.filesystems.deep_view(),
            uuid: self.uuid@,
            mount_path: self.mount_path.deep_view(),
            fs_type: self.fs_type,
        }
    }
}

/// An HA-cluster managed resource: the failover unit standing for one
/// storage target, joined to targets by its mount point.  The store hands
/// the resolver only resources with a mount point, together with the hosts
/// of the resource's cluster that are capable of hosting it.
#[derive(Clone, Debug, PartialEq)]
pub struct ClusterResource {
    pub cluster_id: i32,
    pub name: String,
    pub mount_point: String,
    pub hosts: Vec<i32>,
}

/// Spec-level image of a [`ClusterResource`].
pub struct ClusterResourceView {
    pub cluster_id: i32,
    pub name: Seq<char>,
    pub mount_point: Seq<char>,
    pub hosts: Seq<i32>,
}

impl DeepView for ClusterResource {
    type V = ClusterResourceView;

    open spec fn deep_view(&self) -> ClusterResourceView {
        ClusterResourceView {
            cluster_id: self.cluster_id,
            name: self.name@,
            mount_point: self.mount_point@,
            hosts: self.hosts@,
        }
    }
}

/// A raw placement-ban row, exactly as the store keeps it: "this node must
/// not currently run this resource".
#[derive(Clone, Debug, PartialEq)]
pub struct BannedResource {
    pub id: i32,
    pub name: String,
    pub cluster_id: i32,
    pub resource: String,
    pub node: String,
    pub weight: i32,
    pub master_only: bool,
}

/// Spec-level image of a [`BannedResource`].
pub struct BannedResourceView {
    pub id: i32,
    pub name: Seq<char>,
    pub cluster_id: i32,
    pub resource: Seq<char>,
    pub node: Seq<char>,
    pub weight: i32,
    pub master_only: bool,
}

impl DeepView for BannedResource {
    type V = BannedResourceView;

    open spec fn deep_view(&self) -> BannedResourceView {
        BannedResourceView {
            id: self.id,
            name: self.name@,
            cluster_id: self.cluster_id,
            resource: self.resource@,
            node: self.node@,
            weight: self.weight,
            master_only: self.master_only,
        }
    }
}

/// Cluster membership row: a corosync node name, the cluster it belongs
/// to, and the host identifier backing it.
#[derive(Clone, Debug, PartialEq)]
pub struct NodeHost {
    pub node: String,
    pub cluster_id: i32,
    pub host_id: i32,
}

/// Spec-level image of a [`NodeHost`].
pub struct NodeHostView {
    pub node: Seq<char>,
    pub cluster_id: i32,
    pub host_id: i32,
}

impl DeepView for NodeHost {
    type V = NodeHostView;

    open spec fn deep_view(&self) -> NodeHostView {
        NodeHostView { node: self.node@, cluster_id: self.cluster_id, host_id: self.host_id }
    }
}

/// A ban resolved against membership and resources: the host that the ban
/// excludes, and the mount point of the banned resource.
#[derive(Clone, Debug, PartialEq)]
pub struct BannedTargetResource {
    pub resource: String,
    pub cluster_id: i32,
    pub host_id: i32,
    pub mount_point: Option<String>,
}

/// Spec-level image of a [`BannedTargetResource`].
pub struct BannedTargetResourceView {
    pub resource: Seq<char>,
    pub cluster_id: i32,
    pub host_id: i32,
    pub mount_point: Option<Seq<char>>,
}

impl DeepView for BannedTargetResource {
    type V = BannedTargetResourceView;

    open spec fn deep_view(&self) -> BannedTargetResourceView {
        BannedTargetResourceView {
            resource: self.resource@,
            cluster_id: self.cluster_id,
            host_id: self.host_id,
            mount_point: self.mount_point.deep_view(),
        }
    }
}

/// The resolver's primary output: one storage target joined with its
/// cluster resource, carrying the effective eligible host set (raw
/// candidates minus banned hosts).  Computed fresh on every call, never
/// persisted.
#[derive(Clone, Debug, PartialEq)]
pub struct TargetResource {
    pub cluster_id: i32,
    pub fs_names: Vec<String>,
    pub uuid: String,
    pub name: String,
    pub resource_id: String,
    pub state: String,
    pub cluster_hosts: Vec<i32>,
}

/// Spec-level image of a [`TargetResource`].
pub struct TargetResourceView {
    pub cluster_id: i32,
    pub fs_names: Seq<Seq<char>>,
    pub uuid: Seq<char>,
    pub name: Seq<char>,
    pub resource_id: Seq<char>,
    pub state: Seq<char>,
    pub cluster_hosts: Seq<i32>,
}

impl DeepView for TargetResource {
    type V = TargetResourceView;

    open spec fn deep_view(&self) -> TargetResourceView {
        TargetResourceView {
            cluster_id: self.cluster_id,
            fs_names: self.fs_names.deep_view(),
            uuid: self.uuid@,
            name: self.name@,
            resource_id: self.resource_id@,
            state: self.state@,
            cluster_hosts: self.cluster_hosts@,
        }
    }
}

/// Membership row mapping a host identifier to its externally addressable
/// node name.
#[derive(Clone, Debug, PartialEq)]
pub struct HostFqdn {
    pub host_id: i32,
    pub fqdn: String,
}

/// Spec-level image of a [`HostFqdn`].
pub struct HostFqdnView {
    pub host_id: i32,
    pub fqdn: Seq<char>,
}

impl DeepView for HostFqdn {
    type V = HostFqdnView;

    open spec fn deep_view(&self) -> HostFqdnView {
        HostFqdnView { host_id: self.host_id, fqdn: self.fqdn@ }
    }
}

/// Membership row mapping a host identifier to one of its network
/// identifiers (a host may have several).
#[derive(Clone, Debug, PartialEq)]
pub struct HostNid {
    pub host_id: i32,
    pub nid: String,
}

/// Spec-level image of a [`HostNid`].
pub struct HostNidView {
    pub host_id: i32,
    pub nid: Seq<char>,
}

impl DeepView for HostNid {
    type V = HostNidView;

    open spec fn deep_view(&self) -> HostNidView {
        HostNidView { host_id: self.host_id, nid: self.nid@ }
    }
}

/// A known (non-deleted) filesystem, as the store lists them.
#[derive(Clone, Debug, PartialEq)]
pub struct Filesystem {
    pub id: i32,
    pub name: String,
}

/// Spec-level image of a [`Filesystem`].
pub struct FilesystemView {
    pub id: i32,
    pub name: Seq<char>,
}

impl DeepView for Filesystem {
    type V = FilesystemView;

    open spec fn deep_view(&self) -> FilesystemView {
        FilesystemView { id: self.id, name: self.name@ }
    }
}

/// Why a resolver operation was refused.  Data inconsistencies (dangling
/// bans, unresolvable hosts) are absorbed silently and never surface here.
#[derive(Clone, Debug, PartialEq)]
pub enum ResolverError {
    /// The referenced filesystem name does not resolve to a known,
    /// non-deleted filesystem; carries the name that failed to resolve.
    FilesystemNotFound(String),
}

impl ResolverError {
    /// The human-readable message for this error, carrying the
    /// filesystem name that failed to resolve.
    pub fn message(&self) -> (r: String)
        ensures
            r@ == match self {
                ResolverError::FilesystemNotFound(name) => "Filesystem "@ + name@ + " not found"@,
            },
    {
        match self {
            ResolverError::FilesystemNotFound(name) => {
                let mut s = "Filesystem ".to_owned();
                s.append(name.as_str());
                s.append(" not found");
                s
            },
        }
    }
}

} // verus!
