//! The ban exclusion engine: joins storage targets with cluster resources
//! by mount point, intersects their host sets, and subtracts the hosts
//! currently banned from each resource.
//!
//! Everything is computed from immutable relation snapshots; the functions
//! here perform no I/O and cannot fail.  A resource left with no eligible
//! host is still returned (with an empty host list), and a ban referencing
//! a resource or node that no snapshot row matches is silently ignored.

use vstd::prelude::*;

use crate::types::BannedResource;
use crate::types::BannedResourceView;
use crate::types::BannedTargetResource;
use crate::types::BannedTargetResourceView;
use crate::types::ClusterResource;
use crate::types::ClusterResourceView;
use crate::types::NodeHost;
use crate::types::NodeHostView;
use crate::types::TargetRecord;
use crate::types::TargetRecordView;
use crate::types::TargetResource;
use crate::types::TargetResourceView;
use crate::util::clone_string_vec;
use crate::util::contains_i32;
use crate::util::contains_string;
use crate::util::opt_eq_some;
use crate::util::push_deep;
use crate::util::string_eq;

verus! {

broadcast use vstd::seq_lib::group_seq_lib_default;

/// Whether a resolved ban applies to a resource placed at `mount_path` in
/// cluster `cluster_id` under the name `resource`.  A ban that names no
/// mount point applies to the resource wherever it is mounted; one that
/// names a mount point applies only when the target's mount path equals it.
pub open spec fn ban_matches(
    b: BannedTargetResourceView,
    cluster_id: i32,
    resource: Seq<char>,
    mount_path: Option<Seq<char>>,
) -> bool {
    &&& b.cluster_id == cluster_id
    &&& b.resource == resource
    &&& match b.mount_point {
        None => true,
        Some(m) => mount_path == Some(m),
    }
}

/// Whether some ban in `bans` excludes `host` from the resource described
/// by `(cluster_id, resource, mount_path)`.
pub open spec fn host_banned(
    bans: Seq<BannedTargetResourceView>,
    cluster_id: i32,
    resource: Seq<char>,
    mount_path: Option<Seq<char>>,
    host: i32,
) -> bool {
    exists|i: int|
        0 <= i < bans.len() && #[trigger] ban_matches(bans[i], cluster_id, resource, mount_path)
            && bans[i].host_id == host
}

/// The eligible hosts contributed by the prefix `hosts` of a resource's
/// host set: hosts also present in the target's raw host set, not excluded
/// by any matching ban, deduplicated in first-occurrence order.
pub open spec fn eligible_from(
    hosts: Seq<i32>,
    t: TargetRecordView,
    r: ClusterResourceView,
    bans: Seq<BannedTargetResourceView>,
) -> Seq<i32>
    decreases hosts.len(),
{
    if hosts.len() == 0 {
        Seq::empty()
    } else {
        let prefix = eligible_from(hosts.drop_last(), t, r, bans);
        let h = hosts.last();
        if t.host_ids.contains(h) && !prefix.contains(h) && !host_banned(
            bans,
            r.cluster_id,
            r.name,
            t.mount_path,
            h,
        ) {
            prefix.push(h)
        } else {
            prefix
        }
    }
}

/// The effective eligible host set of target `t` joined with resource `r`:
/// the raw candidate intersection minus the hosts banned from `r` at `t`'s
/// mount path.
pub open spec fn eligible_hosts(
    t: TargetRecordView,
    r: ClusterResourceView,
    bans: Seq<BannedTargetResourceView>,
) -> Seq<i32> {
    eligible_from(r.hosts, t, r, bans)
}

/// Whether the optional filesystem filter admits a target with the given
/// filesystem names.
pub open spec fn fs_filter_matches(fs: Option<Seq<char>>, fs_names: Seq<Seq<char>>) -> bool {
    match fs {
        None => true,
        Some(f) => fs_names.contains(f),
    }
}

/// Whether target `t` joins resource `r`: the target belongs to at least
/// one filesystem and the resource manages the target's mount path.
pub open spec fn target_joins_resource(t: TargetRecordView, r: ClusterResourceView) -> bool {
    t.filesystems.len() > 0 && t.mount_path == Some(r.mount_point)
}

/// The derived record for one joined (target, resource) pair.
pub open spec fn make_target_resource(
    t: TargetRecordView,
    r: ClusterResourceView,
    bans: Seq<BannedTargetResourceView>,
) -> TargetResourceView {
    TargetResourceView {
        cluster_id: r.cluster_id,
        fs_names: t.filesystems,
        uuid: t.uuid,
        name: t.name,
        resource_id: r.name,
        state: t.state,
        cluster_hosts: eligible_hosts(t, r, bans),
    }
}

/// The derived records of one target joined against a prefix of the
/// resource relation, in relation order.
pub open spec fn rows_for_target(
    t: TargetRecordView,
    resources: Seq<ClusterResourceView>,
    bans: Seq<BannedTargetResourceView>,
    fs: Option<Seq<char>>,
) -> Seq<TargetResourceView>
    decreases resources.len(),
{
    if resources.len() == 0 {
        Seq::empty()
    } else {
        let prefix = rows_for_target(t, resources.drop_last(), bans, fs);
        let r = resources.last();
        if target_joins_resource(t, r) && fs_filter_matches(fs, t.filesystems) {
            prefix.push(make_target_resource(t, r, bans))
        } else {
            prefix
        }
    }
}

/// The full output of the ban exclusion engine: every joined (target,
/// resource) pair admitted by the filesystem filter, target-major in
/// relation order.
pub open spec fn target_resources(
    targets: Seq<TargetRecordView>,
    resources: Seq<ClusterResourceView>,
    bans: Seq<BannedTargetResourceView>,
    fs: Option<Seq<char>>,
) -> Seq<TargetResourceView>
    decreases targets.len(),
{
    if targets.len() == 0 {
        Seq::empty()
    } else {
        target_resources(targets.drop_last(), resources, bans, fs) + rows_for_target(
            targets.last(),
            resources,
            bans,
            fs,
        )
    }
}

/// Whether a membership row backs the node a ban names, in the ban's
/// cluster.
pub open spec fn node_backs_ban(nh: NodeHostView, b: BannedResourceView) -> bool {
    nh.node == b.node && nh.cluster_id == b.cluster_id
}

/// Whether a cluster resource is the one a ban names.
pub open spec fn resource_named_by_ban(r: ClusterResourceView, b: BannedResourceView) -> bool {
    r.name == b.resource && r.cluster_id == b.cluster_id
}

/// The resolved ban for one (ban, membership, resource) triple.
pub open spec fn make_banned_target(
    b: BannedResourceView,
    nh: NodeHostView,
    r: ClusterResourceView,
) -> BannedTargetResourceView {
    BannedTargetResourceView {
        resource: b.resource,
        cluster_id: b.cluster_id,
        host_id: nh.host_id,
        mount_point: Some(r.mount_point),
    }
}

/// The resolved bans contributed by one ban row and one matching
/// membership row, joined against a prefix of the resource relation.
pub open spec fn banned_rows_for_pair(
    b: BannedResourceView,
    nh: NodeHostView,
    resources: Seq<ClusterResourceView>,
) -> Seq<BannedTargetResourceView>
    decreases resources.len(),
{
    if resources.len() == 0 {
        Seq::empty()
    } else {
        let prefix = banned_rows_for_pair(b, nh, resources.drop_last());
        let r = resources.last();
        if resource_named_by_ban(r, b) {
            prefix.push(make_banned_target(b, nh, r))
        } else {
            prefix
        }
    }
}

/// The resolved bans contributed by one ban row, joined against a prefix
/// of the membership relation.
pub open spec fn banned_rows_for_ban(
    b: BannedResourceView,
    node_hosts: Seq<NodeHostView>,
    resources: Seq<ClusterResourceView>,
) -> Seq<BannedTargetResourceView>
    decreases node_hosts.len(),
{
    if node_hosts.len() == 0 {
        Seq::empty()
    } else {
        let prefix = banned_rows_for_ban(b, node_hosts.drop_last(), resources);
        let nh = node_hosts.last();
        if node_backs_ban(nh, b) {
            prefix + banned_rows_for_pair(b, nh, resources)
        } else {
            prefix
        }
    }
}

/// The full resolved-ban relation: each raw ban joined with the membership
/// rows backing its node and the resources it names, ban-major in relation
/// order.  A ban matching no membership row or no resource contributes
/// nothing (dangling bans are tolerated, never an error).
pub open spec fn banned_targets(
    bans: Seq<BannedResourceView>,
    node_hosts: Seq<NodeHostView>,
    resources: Seq<ClusterResourceView>,
) -> Seq<BannedTargetResourceView>
    decreases bans.len(),
{
    if bans.len() == 0 {
        Seq::empty()
    } else {
        banned_targets(bans.drop_last(), node_hosts, resources) + banned_rows_for_ban(
            bans.last(),
            node_hosts,
            resources,
        )
    }
}

/// Whether ban `b` applies to the resource described by `(cluster_id,
/// resource, mount_path)`, decided in executable code.
fn ban_matches_exec(
    b: &BannedTargetResource,
    cluster_id: i32,
    resource: &String,
    mount_path: &Option<String>,
) -> (r: bool)
    ensures
        r == ban_matches(b.deep_view(), cluster_id, resource@, mount_path.deep_view()),
{
    if b.cluster_id != cluster_id {
        return false;
    }
    if !string_eq(&b.resource, resource) {
        return false;
    }
    match &b.mount_point {
        None => true,
        Some(m) => opt_eq_some(mount_path, m),
    }
}

/// Whether some ban in `bans` excludes `host`, decided in executable code.
fn host_banned_exec(
    bans: &Vec<BannedTargetResource>,
    cluster_id: i32,
    resource: &String,
    mount_path: &Option<String>,
    host: i32,
) -> (r: bool)
    ensures
        r == host_banned(bans.deep_view(), cluster_id, resource@, mount_path.deep_view(), host),
{
    let mut i: usize = 0;
    while i < bans.len()
        invariant
            i <= bans.len(),
            forall|k: int|
                0 <= k < i ==> !(#[trigger] ban_matches(
                    bans.deep_view()[k],
                    cluster_id,
                    resource@,
                    mount_path.deep_view(),
                ) && bans.deep_view()[k].host_id == host),
        decreases bans.len() - i,
    {
        let b = &bans[i];
        if ban_matches_exec(b, cluster_id, resource, mount_path) && b.host_id == host {
            assert(ban_matches(
                bans.deep_view()[i as int],
                cluster_id,
                resource@,
                mount_path.deep_view(),
            ) && bans.deep_view()[i as int].host_id == host);
            return true;
        }
        i += 1;
    }
    false
}

/// The eligible host set of one joined (target, resource) pair, computed
/// in executable code.
fn eligible_hosts_exec(
    t: &TargetRecord,
    r: &ClusterResource,
    bans: &Vec<BannedTargetResource>,
) -> (out: Vec<i32>)
    ensures
        out@ == eligible_hosts(t.deep_view(), r.deep_view(), bans.deep_view()),
{
    let mut out: Vec<i32> = Vec::new();
    let mut i: usize = 0;
    while i < r.hosts.len()
        invariant
            i <= r.hosts.len(),
            out@ == eligible_from(
                r.hosts@.take(i as int),
                t.deep_view(),
                r.deep_view(),
                bans.deep_view(),
            ),
        decreases r.hosts.len() - i,
    {
        let h = r.hosts[i];
        let keep = contains_i32(&t.host_ids, h) && !contains_i32(&out, h) && !host_banned_exec(
            bans,
            r.cluster_id,
            &r.name,
            &t.mount_path,
            h,
        );
        if keep {
            out.push(h);
        }
        proof {
            let pre = r.hosts@.take(i as int);
            let post = r.hosts@.take(i + 1 as int);
            assert(post.drop_last() =~= pre);
            assert(post.last() == r.hosts@[i as int]);
        }
        i += 1;
    }
    proof {
        assert(r.hosts@.take(r.hosts@.len() as int) =~= r.hosts@);
    }
    out
}

/// Produce one [`TargetResource`] per joined (storage target, cluster
/// resource) pair, each listing the host ids the pair is capable of
/// running on once current placement bans are taken into account.
///
/// Targets belonging to no filesystem are not placement candidates and
/// are skipped; when `fs_name` is given, only targets of that filesystem
/// are reported.  A pair whose eligible set is empty is still returned.
pub fn get_fs_target_resources(
    targets: &Vec<TargetRecord>,
    resources: &Vec<ClusterResource>,
    banned_resources: &Vec<BannedTargetResource>,
    fs_name: &Option<String>,
) -> (r: Vec<TargetResource>)
    ensures
        r.deep_view() == target_resources(
            targets.deep_view(),
            resources.deep_view(),
            banned_resources.deep_view(),
            fs_name.deep_view(),
        ),
{
    let mut out: Vec<TargetResource> = Vec::new();
    let mut i: usize = 0;
    while i < targets.len()
        invariant
            i <= targets.len(),
            out.deep_view() == target_resources(
                targets.deep_view().take(i as int),
                resources.deep_view(),
                banned_resources.deep_view(),
                fs_name.deep_view(),
            ),
        decreases targets.len() - i,
    {
        let t = &targets[i];
        let ghost tv = t.deep_view();
        let mut j: usize = 0;
        let fs_admits = match fs_name {
            None => true,
            Some(f) => contains_string(&t.filesystems, f),
        };
        while j < resources.len()
            invariant
                i < targets.len(),
                j <= resources.len(),
                tv == targets.deep_view()[i as int],
                t.deep_view() == tv,
                fs_admits == fs_filter_matches(fs_name.deep_view(), tv.filesystems),
                out.deep_view() == target_resources(
                    targets.deep_view().take(i as int),
                    resources.deep_view(),
                    banned_resources.deep_view(),
                    fs_name.deep_view(),
                ) + rows_for_target(
                    tv,
                    resources.deep_view().take(j as int),
                    banned_resources.deep_view(),
                    fs_name.deep_view(),
                ),
            decreases resources.len() - j,
        {
            let r = &resources[j];
            let joins = t.filesystems.len() > 0 && opt_eq_some(&t.mount_path, &r.mount_point);
            if joins && fs_admits {
                let eligible = eligible_hosts_exec(t, r, banned_resources);
                let row = TargetResource {
                    cluster_id: r.cluster_id,
                    fs_names: clone_string_vec(&t.filesystems),
                    uuid: t.uuid.clone(),
                    name: t.name.clone(),
                    resource_id: r.name.clone(),
                    state: t.state.clone(),
                    cluster_hosts: eligible,
                };
                proof {
                    assert(row.deep_view() == make_target_resource(
                        tv,
                        resources.deep_view()[j as int],
                        banned_resources.deep_view(),
                    ));
                }
                push_deep(&mut out, row);
            }
            proof {
                let pre = resources.deep_view().take(j as int);
                let post = resources.deep_view().take(j + 1 as int);
                assert(post.drop_last() =~= pre);
                assert(post.last() == resources.deep_view()[j as int]);
                assert(out.deep_view() =~= target_resources(
                    targets.deep_view().take(i as int),
                    resources.deep_view(),
                    banned_resources.deep_view(),
                    fs_name.deep_view(),
                ) + rows_for_target(
                    tv,
                    post,
                    banned_resources.deep_view(),
                    fs_name.deep_view(),
                ));
            }
            j += 1;
        }
        proof {
            let pre = targets.deep_view().take(i as int);
            let post = targets.deep_view().take(i + 1 as int);
            assert(post.drop_last() =~= pre);
            assert(post.last() == targets.deep_view()[i as int]);
            assert(resources.deep_view().take(resources.deep_view().len() as int)
                =~= resources.deep_view());
        }
        i += 1;
    }
    proof {
        assert(targets.deep_view().take(targets.deep_view().len() as int)
            =~= targets.deep_view());
    }
    out
}

/// Resolve each raw ban row against the membership rows backing its node
/// and the resources it names, yielding the host-level exclusions the
/// engine subtracts.  Bans matching nothing contribute nothing.
pub fn get_banned_targets(
    bans: &Vec<BannedResource>,
    node_hosts: &Vec<NodeHost>,
    resources: &Vec<ClusterResource>,
) -> (r: Vec<BannedTargetResource>)
    ensures
        r.deep_view() == banned_targets(
            bans.deep_view(),
            node_hosts.deep_view(),
            resources.deep_view(),
        ),
{
    let mut out: Vec<BannedTargetResource> = Vec::new();
    let mut i: usize = 0;
    while i < bans.len()
        invariant
            i <= bans.len(),
            out.deep_view() == banned_targets(
                bans.deep_view().take(i as int),
                node_hosts.deep_view(),
                resources.deep_view(),
            ),
        decreases bans.len() - i,
    {
        let b = &bans[i];
        let ghost bv = b.deep_view();
        let mut j: usize = 0;
        while j < node_hosts.len()
            invariant
                i < bans.len(),
                j <= node_hosts.len(),
                bv == bans.deep_view()[i as int],
                b.deep_view() == bv,
                out.deep_view() == banned_targets(
                    bans.deep_view().take(i as int),
                    node_hosts.deep_view(),
                    resources.deep_view(),
                ) + banned_rows_for_ban(
                    bv,
                    node_hosts.deep_view().take(j as int),
                    resources.deep_view(),
                ),
            decreases node_hosts.len() - j,
        {
            let nh = &node_hosts[j];
            let ghost nhv = nh.deep_view();
            if string_eq(&nh.node, &b.node) && nh.cluster_id == b.cluster_id {
                let mut k: usize = 0;
                while k < resources.len()
                    invariant
                        i < bans.len(),
                        j < node_hosts.len(),
                        k <= resources.len(),
                        bv == bans.deep_view()[i as int],
                        b.deep_view() == bv,
                        nhv == node_hosts.deep_view()[j as int],
                        nh.deep_view() == nhv,
                        node_backs_ban(nhv, bv),
                        out.deep_view() == banned_targets(
                            bans.deep_view().take(i as int),
                            node_hosts.deep_view(),
                            resources.deep_view(),
                        ) + banned_rows_for_ban(
                            bv,
                            node_hosts.deep_view().take(j as int),
                            resources.deep_view(),
                        ) + banned_rows_for_pair(
                            bv,
                            nhv,
                            resources.deep_view().take(k as int),
                        ),
                    decreases resources.len() - k,
                {
                    let r = &resources[k];
                    if string_eq(&r.name, &b.resource) && r.cluster_id == b.cluster_id {
                        let row = BannedTargetResource {
                            resource: b.resource.clone(),
                            cluster_id: b.cluster_id,
                            host_id: nh.host_id,
                            mount_point: Some(r.mount_point.clone()),
                        };
                        proof {
                            assert(row.deep_view() == make_banned_target(
                                bv,
                                nhv,
                                resources.deep_view()[k as int],
                            ));
                        }
                        push_deep(&mut out, row);
                    }
                    proof {
                        let pre = resources.deep_view().take(k as int);
                        let post = resources.deep_view().take(k + 1 as int);
                        assert(post.drop_last() =~= pre);
                        assert(post.last() == resources.deep_view()[k as int]);
                        assert(out.deep_view() =~= banned_targets(
                            bans.deep_view().take(i as int),
                            node_hosts.deep_view(),
                            resources.deep_view(),
                        ) + banned_rows_for_ban(
                            bv,
                            node_hosts.deep_view().take(j as int),
                            resources.deep_view(),
                        ) + banned_rows_for_pair(bv, nhv, post));
                    }
                    k += 1;
                }
                proof {
                    assert(resources.deep_view().take(resources.deep_view().len() as int)
                        =~= resources.deep_view());
                }
            }
            proof {
                let pre = node_hosts.deep_view().take(j as int);
                let post = node_hosts.deep_view().take(j + 1 as int);
                assert(post.drop_last() =~= pre);
                assert(post.last() == node_hosts.deep_view()[j as int]);
                assert(out.deep_view() =~= banned_targets(
                    bans.deep_view().take(i as int),
                    node_hosts.deep_view(),
                    resources.deep_view(),
                ) + banned_rows_for_ban(bv, post, resources.deep_view()));
            }
            j += 1;
        }
        proof {
            let pre = bans.deep_view().take(i as int);
            let post = bans.deep_view().take(i + 1 as int);
            assert(post.drop_last() =~= pre);
            assert(post.last() == bans.deep_view()[i as int]);
            assert(node_hosts.deep_view().take(node_hosts.deep_view().len() as int)
                =~= node_hosts.deep_view());
        }
        i += 1;
    }
    proof {
        assert(bans.deep_view().take(bans.deep_view().len() as int) =~= bans.deep_view());
    }
    out
}


proof fn lemma_eligible_from_subset(
    hosts: Seq<i32>,
    t: TargetRecordView,
    r: ClusterResourceView,
    bans: Seq<BannedTargetResourceView>,
)
    ensures
        forall|h: i32|
            #[trigger] eligible_from(hosts, t, r, bans).contains(h) ==> t.host_ids.contains(h)
                && hosts.contains(h),
    decreases hosts.len(),
{
    if hosts.len() == 0 {
    } else {
        let rest = hosts.drop_last();
        lemma_eligible_from_subset(rest, t, r, bans);
        assert forall|h: i32| #[trigger] eligible_from(hosts, t, r, bans).contains(h)
            implies t.host_ids.contains(h) && hosts.contains(h) by {
            let prefix = eligible_from(rest, t, r, bans);
            if prefix.contains(h) {
                let k = choose|k: int| 0 <= k < rest.len() && rest[k] == h;
                assert(hosts[k] == h);
            } else {
                assert(h == hosts.last());
                assert(hosts[hosts.len() - 1] == h);
            }
        }
    }
}

/// The engine never introduces a host absent from the raw join: every
/// eligible host of a joined (target, resource) pair stands both in the
/// storage target's raw host set and in the cluster resource's host set.
pub proof fn lemma_eligible_subset_of_raw(
    t: TargetRecordView,
    r: ClusterResourceView,
    bans: Seq<BannedTargetResourceView>,
)
    ensures
        forall|h: i32|
            #[trigger] eligible_hosts(t, r, bans).contains(h) ==> t.host_ids.contains(h)
                && r.hosts.contains(h),
{
    lemma_eligible_from_subset(r.hosts, t, r, bans);
}

proof fn lemma_rows_for_target_from_join(
    t: TargetRecordView,
    resources: Seq<ClusterResourceView>,
    bans: Seq<BannedTargetResourceView>,
    fs: Option<Seq<char>>,
    k: int,
)
    requires
        0 <= k < rows_for_target(t, resources, bans, fs).len(),
    ensures
        exists|j: int|
            0 <= j < resources.len() && #[trigger] target_joins_resource(t, resources[j])
                && fs_filter_matches(fs, t.filesystems) && rows_for_target(t, resources, bans, fs)[k]
                == make_target_resource(t, resources[j], bans),
    decreases resources.len(),
{
    let rest = resources.drop_last();
    let prefix = rows_for_target(t, rest, bans, fs);
    if k < prefix.len() {
        lemma_rows_for_target_from_join(t, rest, bans, fs, k);
        let j = choose|j: int|
            0 <= j < rest.len() && #[trigger] target_joins_resource(t, rest[j])
                && fs_filter_matches(fs, t.filesystems) && rows_for_target(t, rest, bans, fs)[k]
                == make_target_resource(t, rest[j], bans);
        assert(resources[j] == rest[j]);
        assert(target_joins_resource(t, resources[j]));
        assert(rows_for_target(t, resources, bans, fs)[k] == rows_for_target(t, rest, bans, fs)[k]);
    } else {
        let j = resources.len() - 1;
        assert(resources[j] == resources.last());
        assert(target_joins_resource(t, resources[j]));
        assert(rows_for_target(t, resources, bans, fs)[k] == make_target_resource(
            t,
            resources[j],
            bans,
        ));
    }
}

/// Every record the engine outputs arises from an actual join: some
/// target and some resource sharing a mount point, admitted by the
/// filesystem filter, whose derived record it is.  Together with
/// [`lemma_eligible_subset_of_raw`] this pins down that no output row
/// carries a host outside its backing target's raw host set.
pub proof fn lemma_target_resources_from_join(
    targets: Seq<TargetRecordView>,
    resources: Seq<ClusterResourceView>,
    bans: Seq<BannedTargetResourceView>,
    fs: Option<Seq<char>>,
    k: int,
)
    requires
        0 <= k < target_resources(targets, resources, bans, fs).len(),
    ensures
        exists|i: int, j: int|
            0 <= i < targets.len() && 0 <= j < resources.len() && #[trigger] target_joins_resource(
                targets[i],
                resources[j],
            ) && fs_filter_matches(fs, targets[i].filesystems) && target_resources(
                targets,
                resources,
                bans,
                fs,
            )[k] == make_target_resource(targets[i], resources[j], bans),
    decreases targets.len(),
{
    let rest = targets.drop_last();
    let prefix = target_resources(rest, resources, bans, fs);
    let tail = rows_for_target(targets.last(), resources, bans, fs);
    if k < prefix.len() {
        lemma_target_resources_from_join(rest, resources, bans, fs, k);
        let (i, j) = choose|i: int, j: int|
            0 <= i < rest.len() && 0 <= j < resources.len() && #[trigger] target_joins_resource(
                rest[i],
                resources[j],
            ) && fs_filter_matches(fs, rest[i].filesystems) && target_resources(
                rest,
                resources,
                bans,
                fs,
            )[k] == make_target_resource(rest[i], resources[j], bans);
        assert(targets[i] == rest[i]);
        assert(target_joins_resource(targets[i], resources[j]));
        assert(target_resources(targets, resources, bans, fs)[k] == target_resources(
            rest,
            resources,
            bans,
            fs,
        )[k]);
    } else {
        lemma_rows_for_target_from_join(targets.last(), resources, bans, fs, k - prefix.len());
        let j = choose|j: int|
            0 <= j < resources.len() && #[trigger] target_joins_resource(
                targets.last(),
                resources[j],
            ) && fs_filter_matches(fs, targets.last().filesystems) && rows_for_target(
                targets.last(),
                resources,
                bans,
                fs,
            )[k - prefix.len()] == make_target_resource(targets.last(), resources[j], bans);
        let i = targets.len() - 1;
        assert(targets[i] == targets.last());
        assert(target_joins_resource(targets[i], resources[j]));
        assert(target_resources(targets, resources, bans, fs)[k] == rows_for_target(
            targets.last(),
            resources,
            bans,
            fs,
        )[k - prefix.len()]);
    }
}

proof fn lemma_eligible_from_banned_excluded(
    hosts: Seq<i32>,
    t: TargetRecordView,
    r: ClusterResourceView,
    bans: Seq<BannedTargetResourceView>,
    host: i32,
)
    requires
        host_banned(bans, r.cluster_id, r.name, t.mount_path, host),
    ensures
        !eligible_from(hosts, t, r, bans).contains(host),
    decreases hosts.len(),
{
    if hosts.len() == 0 {
    } else {
        lemma_eligible_from_banned_excluded(hosts.drop_last(), t, r, bans, host);
        let prefix = eligible_from(hosts.drop_last(), t, r, bans);
        if eligible_from(hosts, t, r, bans) != prefix {
            assert(eligible_from(hosts, t, r, bans) == prefix.push(hosts.last()));
            assert(!host_banned(bans, r.cluster_id, r.name, t.mount_path, hosts.last()));
        }
    }
}

/// A host banned for a resource at the target's mount path never appears
/// in that pair's eligible set.
pub proof fn lemma_banned_host_excluded(
    t: TargetRecordView,
    r: ClusterResourceView,
    bans: Seq<BannedTargetResourceView>,
    i: int,
)
    requires
        0 <= i < bans.len(),
        ban_matches(bans[i], r.cluster_id, r.name, t.mount_path),
    ensures
        !eligible_hosts(t, r, bans).contains(bans[i].host_id),
{
    assert(host_banned(bans, r.cluster_id, r.name, t.mount_path, bans[i].host_id));
    lemma_eligible_from_banned_excluded(r.hosts, t, r, bans, bans[i].host_id);
}

proof fn lemma_host_banned_push(
    bans: Seq<BannedTargetResourceView>,
    b: BannedTargetResourceView,
    cluster_id: i32,
    resource: Seq<char>,
    mount_path: Option<Seq<char>>,
    host: i32,
)
    ensures
        host_banned(bans.push(b), cluster_id, resource, mount_path, host) == (host_banned(
            bans,
            cluster_id,
            resource,
            mount_path,
            host,
        ) || (ban_matches(b, cluster_id, resource, mount_path) && b.host_id == host)),
{
    let extended = bans.push(b);
    if host_banned(bans, cluster_id, resource, mount_path, host) {
        let k = choose|k: int|
            0 <= k < bans.len() && #[trigger] ban_matches(bans[k], cluster_id, resource, mount_path)
                && bans[k].host_id == host;
        assert(extended[k] == bans[k]);
        assert(ban_matches(extended[k], cluster_id, resource, mount_path));
    }
    if ban_matches(b, cluster_id, resource, mount_path) && b.host_id == host {
        assert(extended[bans.len() as int] == b);
        assert(ban_matches(extended[bans.len() as int], cluster_id, resource, mount_path));
    }
    if host_banned(extended, cluster_id, resource, mount_path, host) {
        let k = choose|k: int|
            0 <= k < extended.len() && #[trigger] ban_matches(
                extended[k],
                cluster_id,
                resource,
                mount_path,
            ) && extended[k].host_id == host;
        if k < bans.len() {
            assert(bans[k] == extended[k]);
            assert(ban_matches(bans[k], cluster_id, resource, mount_path));
        } else {
            assert(extended[k] == b);
        }
    }
}

proof fn lemma_eligible_from_unmatched_ban(
    hosts: Seq<i32>,
    t: TargetRecordView,
    r: ClusterResourceView,
    bans: Seq<BannedTargetResourceView>,
    b: BannedTargetResourceView,
)
    requires
        !ban_matches(b, r.cluster_id, r.name, t.mount_path),
    ensures
        eligible_from(hosts, t, r, bans.push(b)) == eligible_from(hosts, t, r, bans),
    decreases hosts.len(),
{
    if hosts.len() == 0 {
    } else {
        lemma_eligible_from_unmatched_ban(hosts.drop_last(), t, r, bans, b);
        lemma_host_banned_push(bans, b, r.cluster_id, r.name, t.mount_path, hosts.last());
    }
}

/// A ban that does not match a resource (different cluster, different
/// resource name, or a mount point other than the target's) leaves that
/// pair's eligible set exactly as it was: the banned host still appears
/// in every other resource's eligible set it appeared in before.
pub proof fn lemma_unmatched_ban_irrelevant(
    t: TargetRecordView,
    r: ClusterResourceView,
    bans: Seq<BannedTargetResourceView>,
    b: BannedTargetResourceView,
)
    requires
        !ban_matches(b, r.cluster_id, r.name, t.mount_path),
    ensures
        eligible_hosts(t, r, bans.push(b)) == eligible_hosts(t, r, bans),
{
    lemma_eligible_from_unmatched_ban(r.hosts, t, r, bans, b);
}

} // verus!
