//! The cluster partitioner: groups the eligible hosts of a filesystem's
//! target resources into disjoint sets keyed by cluster identity, then
//! resolves host identifiers to externally addressable node names.
//!
//! Grouping is keyed strictly by cluster identity: one group per distinct
//! cluster id, each the deduplicated union of the eligible host sets of
//! every record sharing that cluster id.  Resolution is best-effort: a
//! host with no resolvable node name is dropped from its group, never an
//! error.

use vstd::prelude::*;

use crate::types::HostFqdn;
use crate::types::HostFqdnView;
use crate::types::TargetResource;
use crate::types::TargetResourceView;
use crate::util::contains_i32;
use crate::util::push_deep;

verus! {

broadcast use vstd::seq_lib::group_seq_lib_default;

/// The distinct cluster ids of `xs`, in first-occurrence order.
pub open spec fn distinct_clusters(xs: Seq<TargetResourceView>) -> Seq<i32>
    decreases xs.len(),
{
    if xs.len() == 0 {
        Seq::empty()
    } else {
        let prefix = distinct_clusters(xs.drop_last());
        if prefix.contains(xs.last().cluster_id) {
            prefix
        } else {
            prefix.push(xs.last().cluster_id)
        }
    }
}

/// `acc` extended with the members of `hosts` not yet present, in order.
pub open spec fn add_hosts(acc: Seq<i32>, hosts: Seq<i32>) -> Seq<i32>
    decreases hosts.len(),
{
    if hosts.len() == 0 {
        acc
    } else {
        let prefix = add_hosts(acc, hosts.drop_last());
        if prefix.contains(hosts.last()) {
            prefix
        } else {
            prefix.push(hosts.last())
        }
    }
}

/// The deduplicated union of the eligible host sets of every record of
/// `xs` whose cluster id is `c`, in first-occurrence order.
pub open spec fn cluster_union(xs: Seq<TargetResourceView>, c: i32) -> Seq<i32>
    decreases xs.len(),
{
    if xs.len() == 0 {
        Seq::empty()
    } else {
        let prefix = cluster_union(xs.drop_last(), c);
        if xs.last().cluster_id == c {
            add_hosts(prefix, xs.last().cluster_hosts)
        } else {
            prefix
        }
    }
}

/// One host group per distinct cluster id of `xs`.
pub open spec fn host_groups(xs: Seq<TargetResourceView>) -> Seq<Seq<i32>> {
    distinct_clusters(xs).map_values(|c: i32| cluster_union(xs, c))
}

/// The node name of host `h`, from the first membership row naming it.
pub open spec fn lookup_fqdn(fqdns: Seq<HostFqdnView>, h: i32) -> Option<Seq<char>>
    decreases fqdns.len(),
{
    if fqdns.len() == 0 {
        None
    } else if fqdns.first().host_id == h {
        Some(fqdns.first().fqdn)
    } else {
        lookup_fqdn(fqdns.drop_first(), h)
    }
}

/// The node names of the hosts of one group, unresolvable hosts dropped.
pub open spec fn resolve_group(group: Seq<i32>, fqdns: Seq<HostFqdnView>) -> Seq<Seq<char>>
    decreases group.len(),
{
    if group.len() == 0 {
        Seq::empty()
    } else {
        let prefix = resolve_group(group.drop_last(), fqdns);
        match lookup_fqdn(fqdns, group.last()) {
            Some(f) => prefix.push(f),
            None => prefix,
        }
    }
}

/// Every group of `groups`, resolved to node names.
pub open spec fn resolve_groups(groups: Seq<Seq<i32>>, fqdns: Seq<HostFqdnView>) -> Seq<
    Seq<Seq<char>>,
> {
    groups.map_values(|g: Seq<i32>| resolve_group(g, fqdns))
}

/// The partitioner's full output for one filesystem's target resources:
/// the per-cluster host groups, resolved to node names.
pub open spec fn cluster_host_names(xs: Seq<TargetResourceView>, fqdns: Seq<HostFqdnView>) -> Seq<
    Seq<Seq<char>>,
> {
    resolve_groups(host_groups(xs), fqdns)
}

/// The distinct cluster ids of `xs`, in first-occurrence order.
fn distinct_clusters_exec(xs: &Vec<TargetResource>) -> (r: Vec<i32>)
    ensures
        r@ == distinct_clusters(xs.deep_view()),
{
    let mut out: Vec<i32> = Vec::new();
    let mut i: usize = 0;
    while i < xs.len()
        invariant
            i <= xs.len(),
            out@ == distinct_clusters(xs.deep_view().take(i as int)),
        decreases xs.len() - i,
    {
        let c = xs[i].cluster_id;
        proof {
            assert(xs.deep_view()[i as int].cluster_id == c);
        }
        if !contains_i32(&out, c) {
            out.push(c);
        }
        proof {
            let pre = xs.deep_view().take(i as int);
            let post = xs.deep_view().take(i + 1 as int);
            assert(post.drop_last() =~= pre);
            assert(post.last() == xs.deep_view()[i as int]);
        }
        i += 1;
    }
    proof {
        assert(xs.deep_view().take(xs.deep_view().len() as int) =~= xs.deep_view());
    }
    out
}

/// The deduplicated union of the eligible host sets of the records of
/// `xs` keyed by cluster id `c`.
fn cluster_union_exec(xs: &Vec<TargetResource>, c: i32) -> (r: Vec<i32>)
    ensures
        r@ == cluster_union(xs.deep_view(), c),
{
    let mut out: Vec<i32> = Vec::new();
    let mut i: usize = 0;
    while i < xs.len()
        invariant
            i <= xs.len(),
            out@ == cluster_union(xs.deep_view().take(i as int), c),
        decreases xs.len() - i,
    {
        let x = &xs[i];
        proof {
            assert(xs.deep_view()[i as int] == x.deep_view());
        }
        if x.cluster_id == c {
            let mut j: usize = 0;
            while j < x.cluster_hosts.len()
                invariant
                    i < xs.len(),
                    j <= x.cluster_hosts.len(),
                    x.deep_view() == xs.deep_view()[i as int],
                    x.cluster_id == c,
                    out@ == add_hosts(
                        cluster_union(xs.deep_view().take(i as int), c),
                        x.cluster_hosts@.take(j as int),
                    ),
                decreases x.cluster_hosts.len() - j,
            {
                let h = x.cluster_hosts[j];
                if !contains_i32(&out, h) {
                    out.push(h);
                }
                proof {
                    let pre = x.cluster_hosts@.take(j as int);
                    let post = x.cluster_hosts@.take(j + 1 as int);
                    assert(post.drop_last() =~= pre);
                    assert(post.last() == x.cluster_hosts@[j as int]);
                }
                j += 1;
            }
            proof {
                assert(x.cluster_hosts@.take(x.cluster_hosts@.len() as int)
                    =~= x.cluster_hosts@);
                assert(x.deep_view().cluster_hosts == x.cluster_hosts@);
            }
        } else {
            proof {
                assert(add_hosts(cluster_union(xs.deep_view().take(i as int), c), Seq::empty())
                    == cluster_union(xs.deep_view().take(i as int), c));
            }
        }
        proof {
            let pre = xs.deep_view().take(i as int);
            let post = xs.deep_view().take(i + 1 as int);
            assert(post.drop_last() =~= pre);
            assert(post.last() == xs.deep_view()[i as int]);
        }
        i += 1;
    }
    proof {
        assert(xs.deep_view().take(xs.deep_view().len() as int) =~= xs.deep_view());
    }
    out
}

/// One disjoint host-id group per distinct cluster identity present in
/// `xs`, each the union of the eligible host sets of the records sharing
/// that cluster identity.
pub fn fs_cluster_host_ids(xs: &Vec<TargetResource>) -> (r: Vec<Vec<i32>>)
    ensures
        r.deep_view() == host_groups(xs.deep_view()),
{
    let clusters = distinct_clusters_exec(xs);
    let mut out: Vec<Vec<i32>> = Vec::new();
    let mut g: usize = 0;
    while g < clusters.len()
        invariant
            g <= clusters.len(),
            clusters@ == distinct_clusters(xs.deep_view()),
            out.deep_view() =~= host_groups(xs.deep_view()).take(g as int),
        decreases clusters.len() - g,
    {
        let group = cluster_union_exec(xs, clusters[g]);
        proof {
            assert(group.deep_view() =~= group@);
        }
        push_deep(&mut out, group);
        proof {
            assert(host_groups(xs.deep_view())[g as int] == cluster_union(
                xs.deep_view(),
                clusters@[g as int],
            ));
            assert(out.deep_view() =~= host_groups(xs.deep_view()).take(g + 1 as int));
        }
        g += 1;
    }
    proof {
        assert(host_groups(xs.deep_view()).take(host_groups(xs.deep_view()).len() as int)
            =~= host_groups(xs.deep_view()));
    }
    out
}

/// The node name of host `h`, from the first membership row naming it.
fn lookup_fqdn_exec(fqdns: &Vec<HostFqdn>, h: i32) -> (r: Option<String>)
    ensures
        r.deep_view() == lookup_fqdn(fqdns.deep_view(), h),
{
    let mut i: usize = 0;
    proof {
        assert(fqdns.deep_view().skip(0) =~= fqdns.deep_view());
    }
    while i < fqdns.len()
        invariant
            i <= fqdns.len(),
            lookup_fqdn(fqdns.deep_view(), h) == lookup_fqdn(
                fqdns.deep_view().skip(i as int),
                h,
            ),
        decreases fqdns.len() - i,
    {
        let row = &fqdns[i];
        proof {
            let suffix = fqdns.deep_view().skip(i as int);
            assert(suffix.first() == fqdns.deep_view()[i as int]);
            assert(suffix.drop_first() =~= fqdns.deep_view().skip(i + 1 as int));
        }
        if row.host_id == h {
            return Some(row.fqdn.clone());
        }
        i += 1;
    }
    proof {
        assert(fqdns.deep_view().skip(fqdns.deep_view().len() as int) =~= Seq::<
            HostFqdnView,
        >::empty());
    }
    None
}

/// One group of hosts resolved to node names, unresolvable hosts dropped.
fn resolve_group_exec(group: &Vec<i32>, fqdns: &Vec<HostFqdn>) -> (r: Vec<String>)
    ensures
        r.deep_view() == resolve_group(group@, fqdns.deep_view()),
{
    let mut out: Vec<String> = Vec::new();
    let mut i: usize = 0;
    while i < group.len()
        invariant
            i <= group.len(),
            out.deep_view() == resolve_group(group@.take(i as int), fqdns.deep_view()),
        decreases group.len() - i,
    {
        match lookup_fqdn_exec(fqdns, group[i]) {
            Some(f) => {
                out.push(f);
            },
            None => {},
        }
        proof {
            let pre = group@.take(i as int);
            let post = group@.take(i + 1 as int);
            assert(post.drop_last() =~= pre);
            assert(post.last() == group@[i as int]);
            assert(out.deep_view() =~= resolve_group(post, fqdns.deep_view()));
        }
        i += 1;
    }
    proof {
        assert(group@.take(group@.len() as int) =~= group@);
    }
    out
}

/// Resolve every group of host ids to a group of node names.  Resolution
/// is best-effort: a host id with no membership row is dropped from its
/// group, and the call still succeeds.
pub fn resolve_host_groups(groups: &Vec<Vec<i32>>, fqdns: &Vec<HostFqdn>) -> (r: Vec<Vec<String>>)
    ensures
        r.deep_view() == resolve_groups(groups.deep_view(), fqdns.deep_view()),
{
    let mut out: Vec<Vec<String>> = Vec::new();
    let mut g: usize = 0;
    while g < groups.len()
        invariant
            g <= groups.len(),
            out.deep_view() =~= resolve_groups(groups.deep_view(), fqdns.deep_view()).take(
                g as int,
            ),
        decreases groups.len() - g,
    {
        let resolved = resolve_group_exec(&groups[g], fqdns);
        push_deep(&mut out, resolved);
        proof {
            assert(groups.deep_view()[g as int] =~= groups@[g as int]@);
            assert(resolve_groups(groups.deep_view(), fqdns.deep_view())[g as int]
                == resolve_group(groups.deep_view()[g as int], fqdns.deep_view()));
            assert(out.deep_view() =~= resolve_groups(groups.deep_view(), fqdns.deep_view()).take(
                g + 1 as int,
            ));
        }
        g += 1;
    }
    proof {
        let full = resolve_groups(groups.deep_view(), fqdns.deep_view());
        assert(full.take(full.len() as int) =~= full);
    }
    out
}


proof fn lemma_add_hosts_membership(acc: Seq<i32>, hosts: Seq<i32>, h: i32)
    ensures
        add_hosts(acc, hosts).contains(h) == (acc.contains(h) || hosts.contains(h)),
    decreases hosts.len(),
{
    broadcast use vstd::seq_lib::group_seq_properties;

    if hosts.len() == 0 {
    } else {
        let rest = hosts.drop_last();
        lemma_add_hosts_membership(acc, rest, h);
        if rest.contains(h) {
            let k = choose|k: int| 0 <= k < rest.len() && rest[k] == h;
            assert(hosts[k] == h);
        }
        if hosts.contains(h) {
            let k = choose|k: int| 0 <= k < hosts.len() && hosts[k] == h;
            if k < hosts.len() - 1 {
                assert(rest[k] == h);
            }
        }
    }
}

proof fn lemma_cluster_union_membership(xs: Seq<TargetResourceView>, c: i32, h: i32)
    ensures
        cluster_union(xs, c).contains(h) == exists|k: int|
            #![trigger xs[k]]
            0 <= k < xs.len() && xs[k].cluster_id == c && xs[k].cluster_hosts.contains(h),
    decreases xs.len(),
{
    if xs.len() == 0 {
    } else {
        let rest = xs.drop_last();
        lemma_cluster_union_membership(rest, c, h);
        if xs.last().cluster_id == c {
            lemma_add_hosts_membership(cluster_union(rest, c), xs.last().cluster_hosts, h);
        }
        if exists|k: int|
            #![trigger rest[k]]
            0 <= k < rest.len() && rest[k].cluster_id == c && rest[k].cluster_hosts.contains(h) {
            let k = choose|k: int|
                #![trigger rest[k]]
                0 <= k < rest.len() && rest[k].cluster_id == c && rest[k].cluster_hosts.contains(h);
            assert(xs[k] == rest[k]);
        }
        if exists|k: int|
            #![trigger xs[k]]
            0 <= k < xs.len() && xs[k].cluster_id == c && xs[k].cluster_hosts.contains(h) {
            let k = choose|k: int|
                #![trigger xs[k]]
                0 <= k < xs.len() && xs[k].cluster_id == c && xs[k].cluster_hosts.contains(h);
            if k < xs.len() - 1 {
                assert(rest[k] == xs[k]);
            } else {
                assert(xs[k] == xs.last());
            }
        }
    }
}

proof fn lemma_distinct_clusters_membership(xs: Seq<TargetResourceView>, c: i32)
    ensures
        distinct_clusters(xs).contains(c) == exists|k: int|
            #![trigger xs[k]]
            0 <= k < xs.len() && xs[k].cluster_id == c,
    decreases xs.len(),
{
    broadcast use vstd::seq_lib::group_seq_properties;

    if xs.len() == 0 {
    } else {
        let rest = xs.drop_last();
        lemma_distinct_clusters_membership(rest, c);
        if exists|k: int| #![trigger rest[k]] 0 <= k < rest.len() && rest[k].cluster_id == c {
            let k = choose|k: int|
                #![trigger rest[k]]
                0 <= k < rest.len() && rest[k].cluster_id == c;
            assert(xs[k] == rest[k]);
        }
        if exists|k: int| #![trigger xs[k]] 0 <= k < xs.len() && xs[k].cluster_id == c {
            let k = choose|k: int| #![trigger xs[k]] 0 <= k < xs.len() && xs[k].cluster_id == c;
            if k < xs.len() - 1 {
                assert(rest[k] == xs[k]);
            } else {
                assert(xs[k] == xs.last());
            }
        }
        if distinct_clusters(rest).contains(c) {
            let g = choose|g: int|
                0 <= g < distinct_clusters(rest).len() && distinct_clusters(rest)[g] == c;
            assert(distinct_clusters(xs)[g] == c);
        }
    }
}

proof fn lemma_distinct_clusters_no_dup(xs: Seq<TargetResourceView>)
    ensures
        forall|a: int, b: int|
            #![trigger distinct_clusters(xs)[a], distinct_clusters(xs)[b]]
            0 <= a < b < distinct_clusters(xs).len() ==> distinct_clusters(xs)[a]
                != distinct_clusters(xs)[b],
    decreases xs.len(),
{
    broadcast use vstd::seq_lib::group_seq_properties;

    if xs.len() == 0 {
    } else {
        let rest = xs.drop_last();
        lemma_distinct_clusters_no_dup(rest);
        let prefix = distinct_clusters(rest);
        assert forall|a: int, b: int|
            #![trigger distinct_clusters(xs)[a], distinct_clusters(xs)[b]]
            0 <= a < b < distinct_clusters(xs).len() implies distinct_clusters(xs)[a]
            != distinct_clusters(xs)[b] by {
            if b < prefix.len() {
                assert(distinct_clusters(xs)[a] == prefix[a]);
                assert(distinct_clusters(xs)[b] == prefix[b]);
            } else {
                assert(!prefix.contains(xs.last().cluster_id));
                assert(distinct_clusters(xs)[a] == prefix[a]);
                assert(prefix.contains(prefix[a]));
            }
        }
    }
}

/// The cluster host groups cover exactly the eligible hosts: a host
/// stands in some group exactly when some record's eligible host set
/// holds it.  No resolvable host is lost by the grouping and none is
/// invented.
pub proof fn lemma_host_groups_cover(xs: Seq<TargetResourceView>, h: i32)
    ensures
        (exists|g: int| 0 <= g < host_groups(xs).len() && #[trigger] host_groups(xs)[g].contains(h))
            == (exists|k: int|
            0 <= k < xs.len() && #[trigger] xs[k].cluster_hosts.contains(h)),
{
    if exists|g: int| 0 <= g < host_groups(xs).len() && #[trigger] host_groups(xs)[g].contains(h) {
        let g = choose|g: int|
            0 <= g < host_groups(xs).len() && #[trigger] host_groups(xs)[g].contains(h);
        let c = distinct_clusters(xs)[g];
        assert(host_groups(xs)[g] == cluster_union(xs, c));
        lemma_cluster_union_membership(xs, c, h);
        let k = choose|k: int|
            #![trigger xs[k]]
            0 <= k < xs.len() && xs[k].cluster_id == c && xs[k].cluster_hosts.contains(h);
        assert(xs[k].cluster_hosts.contains(h));
    }
    if exists|k: int| 0 <= k < xs.len() && #[trigger] xs[k].cluster_hosts.contains(h) {
        let k = choose|k: int| 0 <= k < xs.len() && #[trigger] xs[k].cluster_hosts.contains(h);
        let c = xs[k].cluster_id;
        lemma_distinct_clusters_membership(xs, c);
        assert(distinct_clusters(xs).contains(c));
        let g = choose|g: int|
            0 <= g < distinct_clusters(xs).len() && distinct_clusters(xs)[g] == c;
        lemma_cluster_union_membership(xs, c, h);
        assert(host_groups(xs)[g] == cluster_union(xs, c));
        assert(host_groups(xs)[g].contains(h));
    }
}

/// The cluster host groups are pairwise disjoint whenever no host's
/// eligible sets span two cluster identities (cluster membership is
/// disjoint in a healthy topology): grouping is keyed strictly by
/// cluster identity, so no host identifier appears in two different
/// groups of one query.
pub proof fn lemma_host_groups_disjoint(xs: Seq<TargetResourceView>, g1: int, g2: int, h: i32)
    requires
        forall|a: int, b: int|
            #![trigger xs[a], xs[b]]
            0 <= a < xs.len() && 0 <= b < xs.len() && xs[a].cluster_id != xs[b].cluster_id ==> !(
            xs[a].cluster_hosts.contains(h) && xs[b].cluster_hosts.contains(h)),
        0 <= g1 < host_groups(xs).len(),
        0 <= g2 < host_groups(xs).len(),
        g1 != g2,
    ensures
        !(host_groups(xs)[g1].contains(h) && host_groups(xs)[g2].contains(h)),
{
    lemma_distinct_clusters_no_dup(xs);
    let c1 = distinct_clusters(xs)[g1];
    let c2 = distinct_clusters(xs)[g2];
    assert(c1 != c2);
    if host_groups(xs)[g1].contains(h) && host_groups(xs)[g2].contains(h) {
        assert(host_groups(xs)[g1] == cluster_union(xs, c1));
        assert(host_groups(xs)[g2] == cluster_union(xs, c2));
        lemma_cluster_union_membership(xs, c1, h);
        lemma_cluster_union_membership(xs, c2, h);
        let k1 = choose|k: int|
            #![trigger xs[k]]
            0 <= k < xs.len() && xs[k].cluster_id == c1 && xs[k].cluster_hosts.contains(h);
        let k2 = choose|k: int|
            #![trigger xs[k]]
            0 <= k < xs.len() && xs[k].cluster_id == c2 && xs[k].cluster_hosts.contains(h);
        assert(xs[k1].cluster_id != xs[k2].cluster_id);
        assert(false);
    }
}

} // verus!
