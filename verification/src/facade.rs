//! The resolver facade: the entry surface the transport layer calls.
//!
//! Every filesystem-scoped operation first resolves the filesystem name
//! against the known-filesystem snapshot and refuses unknown names with
//! [`ResolverError::FilesystemNotFound`] before any join logic runs.  All
//! operations are read-only over the snapshots they are handed.

use vstd::prelude::*;

use crate::eligibility::fs_filter_matches;
use crate::eligibility::get_fs_target_resources;
use crate::eligibility::target_resources;
use crate::mount::client_mount_command;
use crate::mount::client_mount_source;
use crate::mount::mount_command_spec;
use crate::mount::mount_source_spec;
use crate::partition::cluster_host_names;
use crate::partition::fs_cluster_host_ids;
use crate::partition::resolve_host_groups;
use crate::types::BannedResource;
use crate::types::BannedTargetResource;
use crate::types::ClusterResource;
use crate::types::Filesystem;
use crate::types::FilesystemView;
use crate::types::HostFqdn;
use crate::types::HostNid;
use crate::types::NodeHost;
use crate::types::NodeHostView;
use crate::types::ResolverError;
use crate::types::TargetRecord;
use crate::types::TargetRecordView;
use crate::types::TargetResource;
use crate::types::TargetResourceView;
use crate::util::clone_i32_vec;
use crate::util::clone_string_vec;
use crate::util::push_deep;
use crate::util::str_eq;
use crate::util::string_eq;

verus! {

broadcast use vstd::seq_lib::group_seq_lib_default;

/// The id of the first known filesystem named `name`, if any.
pub open spec fn fs_lookup(filesystems: Seq<FilesystemView>, name: Seq<char>) -> Option<i32>
    decreases filesystems.len(),
{
    if filesystems.len() == 0 {
        None
    } else if filesystems.first().name == name {
        Some(filesystems.first().id)
    } else {
        fs_lookup(filesystems.drop_first(), name)
    }
}

/// Resolve a filesystem name to its id, or refuse the call: the shared
/// precondition of every filesystem-scoped facade operation.
pub fn fs_id_by_name(filesystems: &Vec<Filesystem>, name: &String) -> (r: Result<
    i32,
    ResolverError,
>)
    ensures
        r matches Ok(id) ==> fs_lookup(filesystems.deep_view(), name@) == Some(id),
        r is Err <==> fs_lookup(filesystems.deep_view(), name@) is None,
        r matches Err(e) ==> e matches ResolverError::FilesystemNotFound(n) && n@ == name@,
{
    let mut i: usize = 0;
    proof {
        assert(filesystems.deep_view().skip(0) =~= filesystems.deep_view());
    }
    while i < filesystems.len()
        invariant
            i <= filesystems.len(),
            fs_lookup(filesystems.deep_view(), name@) == fs_lookup(
                filesystems.deep_view().skip(i as int),
                name@,
            ),
        decreases filesystems.len() - i,
    {
        let row = &filesystems[i];
        proof {
            let suffix = filesystems.deep_view().skip(i as int);
            assert(suffix.first() == filesystems.deep_view()[i as int]);
            assert(suffix.drop_first() =~= filesystems.deep_view().skip(i + 1 as int));
        }
        if string_eq(&row.name, name) {
            return Ok(row.id);
        }
        i += 1;
    }
    proof {
        assert(filesystems.deep_view().skip(filesystems.deep_view().len() as int) =~= Seq::<
            FilesystemView,
        >::empty());
    }
    Err(ResolverError::FilesystemNotFound(name.clone()))
}

/// The corosync node name of the first membership row backing `host_id`,
/// if any.
pub open spec fn node_name_lookup(node_hosts: Seq<NodeHostView>, host_id: i32) -> Option<
    Seq<char>,
>
    decreases node_hosts.len(),
{
    if node_hosts.len() == 0 {
        None
    } else if node_hosts.first().host_id == host_id {
        Some(node_hosts.first().node)
    } else {
        node_name_lookup(node_hosts.drop_first(), host_id)
    }
}

/// Find the corosync node name backing one host, if the membership
/// snapshot knows it.
pub fn corosync_node_name_by_host(node_hosts: &Vec<NodeHost>, host_id: i32) -> (r: Option<String>)
    ensures
        r.deep_view() == node_name_lookup(node_hosts.deep_view(), host_id),
{
    let mut i: usize = 0;
    proof {
        assert(node_hosts.deep_view().skip(0) =~= node_hosts.deep_view());
    }
    while i < node_hosts.len()
        invariant
            i <= node_hosts.len(),
            node_name_lookup(node_hosts.deep_view(), host_id) == node_name_lookup(
                node_hosts.deep_view().skip(i as int),
                host_id,
            ),
        decreases node_hosts.len() - i,
    {
        let row = &node_hosts[i];
        proof {
            let suffix = node_hosts.deep_view().skip(i as int);
            assert(suffix.first() == node_hosts.deep_view()[i as int]);
            assert(suffix.drop_first() =~= node_hosts.deep_view().skip(i + 1 as int));
        }
        if row.host_id == host_id {
            return Some(row.node.clone());
        }
        i += 1;
    }
    proof {
        assert(node_hosts.deep_view().skip(node_hosts.deep_view().len() as int) =~= Seq::<
            NodeHostView,
        >::empty());
    }
    None
}

/// List one record per joined (storage target, cluster resource) pair,
/// bans applied, optionally restricted to one filesystem.  A given
/// filesystem name must resolve, or the call is refused before any join
/// logic runs.
pub fn list_target_resources(
    filesystems: &Vec<Filesystem>,
    targets: &Vec<TargetRecord>,
    resources: &Vec<ClusterResource>,
    banned_resources: &Vec<BannedTargetResource>,
    fs_name: &Option<String>,
) -> (r: Result<Vec<TargetResource>, ResolverError>)
    ensures
        r is Err <==> (fs_name matches Some(f) && fs_lookup(filesystems.deep_view(), f@) is None),
        r matches Err(e) ==> e matches ResolverError::FilesystemNotFound(n) && fs_name matches Some(
            f,
        ) && n@ == f@,
        r matches Ok(out) ==> out.deep_view() == target_resources(
            targets.deep_view(),
            resources.deep_view(),
            banned_resources.deep_view(),
            fs_name.deep_view(),
        ),
{
    if let Some(f) = fs_name {
        if let Err(e) = fs_id_by_name(filesystems, f) {
            return Err(e);
        }
    }
    Ok(get_fs_target_resources(targets, resources, banned_resources, fs_name))
}

/// List the disjoint groups of cluster node names that make up one
/// filesystem: the eligible hosts of the filesystem's target resources,
/// grouped by cluster identity and resolved to node names.  The
/// filesystem name must resolve, or the call is refused first.
pub fn get_fs_cluster_hosts(
    filesystems: &Vec<Filesystem>,
    targets: &Vec<TargetRecord>,
    resources: &Vec<ClusterResource>,
    banned_resources: &Vec<BannedTargetResource>,
    fqdns: &Vec<HostFqdn>,
    fs_name: &String,
) -> (r: Result<Vec<Vec<String>>, ResolverError>)
    ensures
        r is Err <==> fs_lookup(filesystems.deep_view(), fs_name@) is None,
        r matches Err(e) ==> e matches ResolverError::FilesystemNotFound(n) && n@ == fs_name@,
        r matches Ok(out) ==> out.deep_view() == cluster_host_names(
            target_resources(
                targets.deep_view(),
                resources.deep_view(),
                banned_resources.deep_view(),
                Some(fs_name@),
            ),
            fqdns.deep_view(),
        ),
{
    if let Err(e) = fs_id_by_name(filesystems, fs_name) {
        return Err(e);
    }
    let scoped = Some(fs_name.clone());
    let rows = get_fs_target_resources(targets, resources, banned_resources, &scoped);
    let groups = fs_cluster_host_ids(&rows);
    Ok(resolve_host_groups(&groups, fqdns))
}

/// Return the raw placement-ban snapshot exactly as fetched: an
/// unfiltered list, empty when no ban stands, never an error.
pub fn get_banned_resources(bans: &Vec<BannedResource>) -> (r: Vec<BannedResource>)
    ensures
        r.deep_view() == bans.deep_view(),
{
    let mut out: Vec<BannedResource> = Vec::new();
    let mut i: usize = 0;
    while i < bans.len()
        invariant
            i <= bans.len(),
            out.deep_view() == bans.deep_view().take(i as int),
        decreases bans.len() - i,
    {
        let b = &bans[i];
        let copy = BannedResource {
            id: b.id,
            name: b.name.clone(),
            cluster_id: b.cluster_id,
            resource: b.resource.clone(),
            node: b.node.clone(),
            weight: b.weight,
            master_only: b.master_only,
        };
        proof {
            assert(copy.deep_view() == bans.deep_view()[i as int]);
        }
        push_deep(&mut out, copy);
        proof {
            let pre = bans.deep_view().take(i as int);
            let post = bans.deep_view().take(i + 1 as int);
            assert(post.drop_last() =~= pre);
            assert(post.last() == bans.deep_view()[i as int]);
            assert(out.deep_view() =~= post);
        }
        i += 1;
    }
    proof {
        assert(bans.deep_view().take(bans.deep_view().len() as int) =~= bans.deep_view());
    }
    out
}

/// The mount source for one filesystem, behind the shared name check.
pub fn mount_source(
    filesystems: &Vec<Filesystem>,
    targets: &Vec<TargetRecord>,
    banned_resources: &Vec<BannedTargetResource>,
    nids: &Vec<HostNid>,
    fs_name: &String,
) -> (r: Result<String, ResolverError>)
    ensures
        r is Err <==> fs_lookup(filesystems.deep_view(), fs_name@) is None,
        r matches Err(e) ==> e matches ResolverError::FilesystemNotFound(n) && n@ == fs_name@,
        r matches Ok(out) ==> out@ == mount_source_spec(
            targets.deep_view(),
            banned_resources.deep_view(),
            nids.deep_view(),
            fs_name@,
        ),
{
    if let Err(e) = fs_id_by_name(filesystems, fs_name) {
        return Err(e);
    }
    Ok(client_mount_source(targets, banned_resources, nids, fs_name))
}

/// The full mount command for one filesystem, behind the shared name
/// check.
pub fn mount_command(
    filesystems: &Vec<Filesystem>,
    targets: &Vec<TargetRecord>,
    banned_resources: &Vec<BannedTargetResource>,
    nids: &Vec<HostNid>,
    fs_name: &String,
) -> (r: Result<String, ResolverError>)
    ensures
        r is Err <==> fs_lookup(filesystems.deep_view(), fs_name@) is None,
        r matches Err(e) ==> e matches ResolverError::FilesystemNotFound(n) && n@ == fs_name@,
        r matches Ok(out) ==> out@ == mount_command_spec(
            targets.deep_view(),
            banned_resources.deep_view(),
            nids.deep_view(),
            fs_name@,
        ),
{
    if let Err(e) = fs_id_by_name(filesystems, fs_name) {
        return Err(e);
    }
    Ok(client_mount_command(targets, banned_resources, nids, fs_name))
}

/// Whether the `targets` listing keeps `t` under the given filters.
pub open spec fn target_kept(
    t: TargetRecordView,
    fs: Option<Seq<char>>,
    exclude_unmounted: Option<bool>,
) -> bool {
    fs_filter_matches(fs, t.filesystems) && (exclude_unmounted == Some(true) ==> t.state
        != "unmounted"@)
}

/// The target records admitted by the optional filesystem and lifecycle
/// filters, in relation order.
pub open spec fn filtered_targets(
    ts: Seq<TargetRecordView>,
    fs: Option<Seq<char>>,
    exclude_unmounted: Option<bool>,
) -> Seq<TargetRecordView>
    decreases ts.len(),
{
    if ts.len() == 0 {
        Seq::empty()
    } else {
        let prefix = filtered_targets(ts.drop_last(), fs, exclude_unmounted);
        if target_kept(ts.last(), fs, exclude_unmounted) {
            prefix.push(ts.last())
        } else {
            prefix
        }
    }
}

/// The first target resource named like `name`, if any.
pub open spec fn find_resource(rs: Seq<TargetResourceView>, name: Seq<char>) -> Option<
    TargetResourceView,
>
    decreases rs.len(),
{
    if rs.len() == 0 {
        None
    } else if rs.first().name == name {
        Some(rs.first())
    } else {
        find_resource(rs.drop_first(), name)
    }
}

/// `t` with its host ids replaced by the ban-aware eligible hosts of its
/// resource, where one is known.
pub open spec fn with_resource_hosts(t: TargetRecordView, rs: Seq<TargetResourceView>) -> TargetRecordView {
    match find_resource(rs, t.name) {
        Some(res) => TargetRecordView { host_ids: res.cluster_hosts, ..t },
        None => t,
    }
}

/// Every target of `ts`, its host ids replaced as known.
pub open spec fn overridden_targets(
    ts: Seq<TargetRecordView>,
    rs: Seq<TargetResourceView>,
) -> Seq<TargetRecordView>
    decreases ts.len(),
{
    if ts.len() == 0 {
        Seq::empty()
    } else {
        overridden_targets(ts.drop_last(), rs).push(with_resource_hosts(ts.last(), rs))
    }
}

/// A field-for-field copy of one target record.
fn clone_target_record(t: &TargetRecord) -> (r: TargetRecord)
    ensures
        r.deep_view() == t.deep_view(),
{
    TargetRecord {
        id: t.id,
        state: t.state.clone(),
        name: t.name.clone(),
        dev_path: match &t.dev_path {
            Some(p) => Some(p.clone()),
            None => None,
        },
        active_host_id: t.active_host_id,
        host_ids: clone_i32_vec(&t.host_ids),
        filesystems: clone_string_vec(&t.filesystems),
        uuid: t.uuid.clone(),
        mount_path: match &t.mount_path {
            Some(p) => Some(p.clone()),
            None => None,
        },
        fs_type: t.fs_type,
    }
}

/// The first resource of `rs` named like `name`, as an index.
fn find_resource_exec(rs: &Vec<TargetResource>, name: &String) -> (r: Option<usize>)
    ensures
        r matches Some(idx) ==> idx < rs@.len() && find_resource(rs.deep_view(), name@) == Some(
            rs.deep_view()[idx as int],
        ),
        r is None ==> find_resource(rs.deep_view(), name@) is None,
{
    let mut i: usize = 0;
    proof {
        assert(rs.deep_view().skip(0) =~= rs.deep_view());
    }
    while i < rs.len()
        invariant
            i <= rs.len(),
            find_resource(rs.deep_view(), name@) == find_resource(
                rs.deep_view().skip(i as int),
                name@,
            ),
        decreases rs.len() - i,
    {
        proof {
            let suffix = rs.deep_view().skip(i as int);
            assert(suffix.first() == rs.deep_view()[i as int]);
            assert(suffix.drop_first() =~= rs.deep_view().skip(i + 1 as int));
        }
        if string_eq(&rs[i].name, name) {
            return Some(i);
        }
        i += 1;
    }
    proof {
        assert(rs.deep_view().skip(rs.deep_view().len() as int) =~= Seq::<
            TargetResourceView,
        >::empty());
    }
    None
}

/// The `targets` listing's in-memory work over the fetched rows: drop
/// rows outside the requested filesystem, drop unmounted rows when asked
/// to, and replace each kept row's host ids with the ban-aware eligible
/// hosts of the resource sharing its name, where one exists.
pub fn filter_and_override_targets(
    targets: &Vec<TargetRecord>,
    resources: &Vec<TargetResource>,
    fs_name: &Option<String>,
    exclude_unmounted: Option<bool>,
) -> (r: Vec<TargetRecord>)
    ensures
        r.deep_view() == overridden_targets(
            filtered_targets(targets.deep_view(), fs_name.deep_view(), exclude_unmounted),
            resources.deep_view(),
        ),
{
    let mut kept: Vec<TargetRecord> = Vec::new();
    let mut i: usize = 0;
    while i < targets.len()
        invariant
            i <= targets.len(),
            kept.deep_view() == filtered_targets(
                targets.deep_view().take(i as int),
                fs_name.deep_view(),
                exclude_unmounted,
            ),
        decreases targets.len() - i,
    {
        let t = &targets[i];
        let fs_ok = match fs_name {
            None => true,
            Some(f) => crate::util::contains_string(&t.filesystems, f),
        };
        let state_ok = match exclude_unmounted {
            Some(true) => !str_eq(t.state.as_str(), "unmounted"),
            _ => true,
        };
        if fs_ok && state_ok {
            let copy = clone_target_record(t);
            proof {
                assert(copy.deep_view() == targets.deep_view()[i as int]);
            }
            push_deep(&mut kept, copy);
        }
        proof {
            let pre = targets.deep_view().take(i as int);
            let post = targets.deep_view().take(i + 1 as int);
            assert(post.drop_last() =~= pre);
            assert(post.last() == targets.deep_view()[i as int]);
        }
        i += 1;
    }
    proof {
        assert(targets.deep_view().take(targets.deep_view().len() as int)
            =~= targets.deep_view());
    }
    let ghost keptv = kept.deep_view();
    let mut out: Vec<TargetRecord> = Vec::new();
    let mut j: usize = 0;
    while j < kept.len()
        invariant
            j <= kept.len(),
            keptv == kept.deep_view(),
            out.deep_view() == overridden_targets(keptv.take(j as int), resources.deep_view()),
        decreases kept.len() - j,
    {
        let t = &kept[j];
        let row = match find_resource_exec(resources, &t.name) {
            Some(idx) => {
                let mut copy = clone_target_record(t);
                copy.host_ids = clone_i32_vec(&resources[idx].cluster_hosts);
                copy
            },
            None => clone_target_record(t),
        };
        proof {
            assert(row.deep_view() == with_resource_hosts(keptv[j as int], resources.deep_view()));
        }
        push_deep(&mut out, row);
        proof {
            let pre = keptv.take(j as int);
            let post = keptv.take(j + 1 as int);
            assert(post.drop_last() =~= pre);
            assert(post.last() == keptv[j as int]);
        }
        j += 1;
    }
    proof {
        assert(keptv.take(keptv.len() as int) =~= keptv);
    }
    out
}

/// The `targets` facade operation: refuse an unknown filesystem name,
/// then list the stored target rows under the optional filters, each
/// carrying the ban-aware host ids of its cluster resource where one is
/// known.
pub fn list_targets(
    filesystems: &Vec<Filesystem>,
    targets: &Vec<TargetRecord>,
    resources: &Vec<ClusterResource>,
    banned_resources: &Vec<BannedTargetResource>,
    fs_name: &Option<String>,
    exclude_unmounted: Option<bool>,
) -> (r: Result<Vec<TargetRecord>, ResolverError>)
    ensures
        r is Err <==> (fs_name matches Some(f) && fs_lookup(filesystems.deep_view(), f@) is None),
        r matches Err(e) ==> e matches ResolverError::FilesystemNotFound(n) && fs_name matches Some(
            f,
        ) && n@ == f@,
        r matches Ok(out) ==> out.deep_view() == overridden_targets(
            filtered_targets(targets.deep_view(), fs_name.deep_view(), exclude_unmounted),
            target_resources(
                targets.deep_view(),
                resources.deep_view(),
                banned_resources.deep_view(),
                None,
            ),
        ),
{
    if let Some(f) = fs_name {
        if let Err(e) = fs_id_by_name(filesystems, f) {
            return Err(e);
        }
    }
    let all_rows = get_fs_target_resources(targets, resources, banned_resources, &None);
    proof {
        assert(None::<String>.deep_view() == None::<Seq<char>>);
    }
    Ok(filter_and_override_targets(targets, &all_rows, fs_name, exclude_unmounted))
}

} // verus!
