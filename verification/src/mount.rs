//! The mount-source composer: finds the network identifiers of the hosts
//! backing a filesystem's management service, drops those banned from the
//! management resource at its mount path, orders the survivors
//! deterministically, and joins them into the client-mountable address
//! string.

use vstd::prelude::*;

use crate::order::lemma_sorted_insert_sorted;
use crate::order::pairs_sorted;
use crate::order::sorted_insert;
use crate::order::sorted_insert_exec;
use crate::types::BannedTargetResource;
use crate::types::BannedTargetResourceView;
use crate::types::HostNid;
use crate::types::HostNidView;
use crate::types::TargetRecord;
use crate::types::TargetRecordView;
use crate::util::contains_i32;
use crate::util::contains_string;
use crate::util::opt_eq_some;
use crate::util::str_eq;

verus! {

broadcast use vstd::seq_lib::group_seq_lib_default;

/// Whether `t` is the management-service target of filesystem `fs`: the
/// target carrying the fixed management role name and belonging to `fs`.
pub open spec fn is_mgs(t: TargetRecordView, fs: Seq<char>) -> bool {
    t.name == "MGS"@ && t.filesystems.contains(fs)
}

/// Whether some resolved ban excludes `host` from the resource mounted at
/// `mount_path`.  A target without a mount path can match no ban, since
/// every resolved ban carries its resource's mount point.
pub open spec fn nid_banned(
    bans: Seq<BannedTargetResourceView>,
    mount_path: Option<Seq<char>>,
    host: i32,
) -> bool {
    mount_path is Some && exists|i: int|
        #![trigger bans[i]]
        0 <= i < bans.len() && bans[i].host_id == host && bans[i].mount_point == mount_path
}

/// Whether the network identifier row `n` survives: its host backs some
/// management-service target of `fs` and is not banned from that target's
/// resource at the target's mount path.
pub open spec fn nid_selected(
    targets: Seq<TargetRecordView>,
    bans: Seq<BannedTargetResourceView>,
    n: HostNidView,
    fs: Seq<char>,
) -> bool {
    exists|k: int|
        #![trigger targets[k]]
        0 <= k < targets.len() && is_mgs(targets[k], fs) && targets[k].host_ids.contains(n.host_id)
            && !nid_banned(bans, targets[k].mount_path, n.host_id)
}

/// The surviving (host, network identifier) pairs of the snapshot, in
/// strictly ascending (host identifier, identifier text) order with exact
/// duplicates collapsed.
pub open spec fn mgs_nid_pairs(
    targets: Seq<TargetRecordView>,
    bans: Seq<BannedTargetResourceView>,
    nids: Seq<HostNidView>,
    fs: Seq<char>,
) -> Seq<(i32, Seq<char>)>
    decreases nids.len(),
{
    if nids.len() == 0 {
        Seq::empty()
    } else {
        let prefix = mgs_nid_pairs(targets, bans, nids.drop_last(), fs);
        let n = nids.last();
        if nid_selected(targets, bans, n, fs) {
            sorted_insert(prefix, (n.host_id, n.nid))
        } else {
            prefix
        }
    }
}

/// The identifier texts of a pair sequence, in pair order.
pub open spec fn nid_list(pairs: Seq<(i32, Seq<char>)>) -> Seq<Seq<char>> {
    pairs.map_values(|p: (i32, Seq<char>)| p.1)
}

/// The members of `xs` joined with `:` between them.
pub open spec fn join_colon(xs: Seq<Seq<char>>) -> Seq<char>
    decreases xs.len(),
{
    if xs.len() == 0 {
        Seq::empty()
    } else if xs.len() == 1 {
        xs.first()
    } else {
        join_colon(xs.drop_last()) + ":"@ + xs.last()
    }
}

/// The full mount source for filesystem `fs`: the joined identifier list,
/// then `:/`, then the filesystem name.
pub open spec fn mount_source_spec(
    targets: Seq<TargetRecordView>,
    bans: Seq<BannedTargetResourceView>,
    nids: Seq<HostNidView>,
    fs: Seq<char>,
) -> Seq<char> {
    join_colon(nid_list(mgs_nid_pairs(targets, bans, nids, fs))) + ":/"@ + fs
}

/// The full client mount invocation for filesystem `fs`, wrapping the
/// mount source with the mount call and the conventional mount directory.
pub open spec fn mount_command_spec(
    targets: Seq<TargetRecordView>,
    bans: Seq<BannedTargetResourceView>,
    nids: Seq<HostNidView>,
    fs: Seq<char>,
) -> Seq<char> {
    "mount -t lustre "@ + mount_source_spec(targets, bans, nids, fs) + " /mnt/"@ + fs
}

/// Whether `t` is the management-service target of `fs`, decided in
/// executable code.
fn is_mgs_exec(t: &TargetRecord, fs: &String) -> (r: bool)
    ensures
        r == is_mgs(t.deep_view(), fs@),
{
    str_eq(t.name.as_str(), "MGS") && contains_string(&t.filesystems, fs)
}

/// Whether some resolved ban excludes `host` at `mount_path`, decided in
/// executable code.
fn nid_banned_exec(
    bans: &Vec<BannedTargetResource>,
    mount_path: &Option<String>,
    host: i32,
) -> (r: bool)
    ensures
        r == nid_banned(bans.deep_view(), mount_path.deep_view(), host),
{
    match mount_path {
        None => false,
        Some(mp) => {
            let mut i: usize = 0;
            while i < bans.len()
                invariant
                    i <= bans.len(),
                    mount_path.deep_view() == Some(mp@),
                    forall|k: int|
                        #![trigger bans.deep_view()[k]]
                        0 <= k < i ==> !(bans.deep_view()[k].host_id == host
                            && bans.deep_view()[k].mount_point == Some(mp@)),
                decreases bans.len() - i,
            {
                let b = &bans[i];
                if b.host_id == host && opt_eq_some(&b.mount_point, mp) {
                    assert(bans.deep_view()[i as int].host_id == host
                        && bans.deep_view()[i as int].mount_point == Some(mp@));
                    return true;
                }
                i += 1;
            }
            false
        },
    }
}

/// Whether the network identifier row `n` survives, decided in
/// executable code.
fn nid_selected_exec(
    targets: &Vec<TargetRecord>,
    bans: &Vec<BannedTargetResource>,
    n: &HostNid,
    fs: &String,
) -> (r: bool)
    ensures
        r == nid_selected(targets.deep_view(), bans.deep_view(), n.deep_view(), fs@),
{
    let mut k: usize = 0;
    while k < targets.len()
        invariant
            k <= targets.len(),
            forall|j: int|
                #![trigger targets.deep_view()[j]]
                0 <= j < k ==> !(is_mgs(targets.deep_view()[j], fs@)
                    && targets.deep_view()[j].host_ids.contains(n.deep_view().host_id)
                    && !nid_banned(
                    bans.deep_view(),
                    targets.deep_view()[j].mount_path,
                    n.deep_view().host_id,
                )),
        decreases targets.len() - k,
    {
        let t = &targets[k];
        if is_mgs_exec(t, fs) && contains_i32(&t.host_ids, n.host_id) && !nid_banned_exec(
            bans,
            &t.mount_path,
            n.host_id,
        ) {
            assert(is_mgs(targets.deep_view()[k as int], fs@));
            assert(targets.deep_view()[k as int].host_ids.contains(n.deep_view().host_id));
            return true;
        }
        k += 1;
    }
    false
}

/// Build the client mount source for `fs_name`: the network identifiers
/// of the hosts backing the filesystem's management-service targets,
/// minus those banned from the management resource at its mount path,
/// sorted ascending by (host identifier, identifier text) and joined as
/// `nid:nid:.../fsname`.
pub fn client_mount_source(
    targets: &Vec<TargetRecord>,
    banned_resources: &Vec<BannedTargetResource>,
    nids: &Vec<HostNid>,
    fs_name: &String,
) -> (r: String)
    ensures
        r@ == mount_source_spec(
            targets.deep_view(),
            banned_resources.deep_view(),
            nids.deep_view(),
            fs_name@,
        ),
{
    let mut pairs: Vec<(i32, String)> = Vec::new();
    let mut i: usize = 0;
    while i < nids.len()
        invariant
            i <= nids.len(),
            pairs.deep_view() == mgs_nid_pairs(
                targets.deep_view(),
                banned_resources.deep_view(),
                nids.deep_view().take(i as int),
                fs_name@,
            ),
        decreases nids.len() - i,
    {
        let n = &nids[i];
        if nid_selected_exec(targets, banned_resources, n, fs_name) {
            let pair = (n.host_id, n.nid.clone());
            proof {
                assert(pair.deep_view() == (
                    nids.deep_view()[i as int].host_id,
                    nids.deep_view()[i as int].nid,
                ));
            }
            sorted_insert_exec(&mut pairs, pair);
        }
        proof {
            let pre = nids.deep_view().take(i as int);
            let post = nids.deep_view().take(i + 1 as int);
            assert(post.drop_last() =~= pre);
            assert(post.last() == nids.deep_view()[i as int]);
        }
        i += 1;
    }
    proof {
        assert(nids.deep_view().take(nids.deep_view().len() as int) =~= nids.deep_view());
    }
    let ghost names = nid_list(pairs.deep_view());
    let mut s = String::new();
    let mut k: usize = 0;
    proof {
        assert(names.take(0) =~= Seq::<Seq<char>>::empty());
    }
    while k < pairs.len()
        invariant
            k <= pairs.len(),
            names == nid_list(pairs.deep_view()),
            names.len() == pairs@.len(),
            s@ == join_colon(names.take(k as int)),
        decreases pairs.len() - k,
    {
        if k > 0 {
            s.append(":");
        }
        s.append(pairs[k].1.as_str());
        proof {
            let pre = names.take(k as int);
            let post = names.take(k + 1 as int);
            assert(post.drop_last() =~= pre);
            assert(post.last() == names[k as int]);
            assert(names[k as int] == pairs.deep_view()[k as int].1);
            if k == 0 {
                assert(s@ =~= names[0]);
                assert(join_colon(post) == post.first());
                assert(post.first() == names[0]);
            } else {
                assert(post.len() >= 2);
                assert(join_colon(post) == join_colon(pre) + ":"@ + names[k as int]);
            }
        }
        k += 1;
    }
    proof {
        assert(names.take(pairs@.len() as int) =~= names);
    }
    s.append(":/");
    s.append(fs_name.as_str());
    s
}

/// Build the full client mount command for `fs_name`: the mount source
/// wrapped in a `mount` invocation against the conventional local mount
/// directory derived from the filesystem name.  The output can be pasted
/// on a server once the mount directory exists.
pub fn client_mount_command(
    targets: &Vec<TargetRecord>,
    banned_resources: &Vec<BannedTargetResource>,
    nids: &Vec<HostNid>,
    fs_name: &String,
) -> (r: String)
    ensures
        r@ == mount_command_spec(
            targets.deep_view(),
            banned_resources.deep_view(),
            nids.deep_view(),
            fs_name@,
        ),
{
    let src = client_mount_source(targets, banned_resources, nids, fs_name);
    let mut s = "mount -t lustre ".to_owned();
    s.append(src.as_str());
    s.append(" /mnt/");
    s.append(fs_name.as_str());
    s
}

/// The surviving pair list is strictly sorted: the network-identifier
/// order of the mount source is a deterministic function of the snapshot
/// alone, so repeated calls over identical input state always format the
/// identifiers in the same order.
pub proof fn lemma_mgs_nid_pairs_sorted(
    targets: Seq<TargetRecordView>,
    bans: Seq<BannedTargetResourceView>,
    nids: Seq<HostNidView>,
    fs: Seq<char>,
)
    ensures
        pairs_sorted(mgs_nid_pairs(targets, bans, nids, fs)),
    decreases nids.len(),
{
    if nids.len() == 0 {
    } else {
        lemma_mgs_nid_pairs_sorted(targets, bans, nids.drop_last(), fs);
        let prefix = mgs_nid_pairs(targets, bans, nids.drop_last(), fs);
        let n = nids.last();
        if nid_selected(targets, bans, n, fs) {
            lemma_sorted_insert_sorted(prefix, (n.host_id, n.nid));
        }
    }
}

} // verus!
