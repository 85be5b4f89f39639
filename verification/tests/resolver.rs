use cluster_resolver::eligibility::{get_banned_targets, get_fs_target_resources};
use cluster_resolver::facade::{
    corosync_node_name_by_host, fs_id_by_name, get_banned_resources, get_fs_cluster_hosts,
    list_target_resources, list_targets, mount_command, mount_source,
};
use cluster_resolver::types::{
    BannedResource, BannedTargetResource, ClusterResource, Filesystem, HostFqdn, HostNid,
    NodeHost, ResolverError, TargetRecord,
};

fn target(name: &str, mount: &str, hosts: Vec<i32>, fss: Vec<&str>) -> TargetRecord {
    TargetRecord {
        id: 1,
        state: "mounted".to_string(),
        name: name.to_string(),
        dev_path: None,
        active_host_id: None,
        host_ids: hosts,
        filesystems: fss.into_iter().map(|s| s.to_string()).collect(),
        uuid: format!("uuid-{}", name),
        mount_path: Some(mount.to_string()),
        fs_type: None,
    }
}

fn resource(cluster_id: i32, name: &str, mount: &str, hosts: Vec<i32>) -> ClusterResource {
    ClusterResource {
        cluster_id,
        name: name.to_string(),
        mount_point: mount.to_string(),
        hosts,
    }
}

fn ban(cluster_id: i32, resource: &str, host_id: i32, mount: Option<&str>) -> BannedTargetResource {
    BannedTargetResource {
        resource: resource.to_string(),
        cluster_id,
        host_id,
        mount_point: mount.map(|s| s.to_string()),
    }
}

#[test]
fn mgs_eligible_without_bans() {
    // A management target with raw hosts {1, 2} joined with a cluster
    // resource over hosts {1, 2, 3}: the eligible set is the raw
    // intersection {1, 2}.
    let targets = vec![target("MGS", "/mnt/mgs", vec![1, 2], vec!["fsA"])];
    let resources = vec![resource(1, "MGS", "/mnt/mgs", vec![1, 2, 3])];
    let banned = vec![];
    let rows = get_fs_target_resources(&targets, &resources, &banned, &None);
    assert_eq!(rows.len(), 1);
    assert_eq!(rows[0].cluster_id, 1);
    assert_eq!(rows[0].name, "MGS");
    assert_eq!(rows[0].resource_id, "MGS");
    assert_eq!(rows[0].fs_names, vec!["fsA".to_string()]);
    assert_eq!(rows[0].cluster_hosts, vec![1, 2]);
}

#[test]
fn banned_host_leaves_eligible_set() {
    // The same topology plus a ban of host 1 at the target's mount path:
    // only host 2 stays eligible.
    let targets = vec![target("MGS", "/mnt/mgs", vec![1, 2], vec!["fsA"])];
    let resources = vec![resource(1, "MGS", "/mnt/mgs", vec![1, 2, 3])];
    let banned = vec![ban(1, "MGS", 1, Some("/mnt/mgs"))];
    let rows = get_fs_target_resources(&targets, &resources, &banned, &None);
    assert_eq!(rows.len(), 1);
    assert_eq!(rows[0].cluster_hosts, vec![2]);
}

#[test]
fn ban_spares_other_resources() {
    // A ban names one resource at one mount point; the same host stays
    // eligible for a different resource at a different mount point.
    let targets = vec![
        target("MGS", "/mnt/mgs", vec![1, 2], vec!["fsA"]),
        target("OST0", "/mnt/ost0", vec![1, 2], vec!["fsA"]),
    ];
    let resources = vec![
        resource(1, "MGS", "/mnt/mgs", vec![1, 2]),
        resource(1, "OST0", "/mnt/ost0", vec![1, 2]),
    ];
    let banned = vec![ban(1, "MGS", 1, Some("/mnt/mgs"))];
    let rows = get_fs_target_resources(&targets, &resources, &banned, &None);
    assert_eq!(rows.len(), 2);
    assert_eq!(rows[0].cluster_hosts, vec![2]);
    assert_eq!(rows[1].cluster_hosts, vec![1, 2]);
}

#[test]
fn ban_without_mount_point_applies_everywhere() {
    // A ban carrying no mount point excludes its host from the resource
    // wherever the resource is mounted.
    let targets = vec![target("MGS", "/mnt/mgs", vec![1, 2], vec!["fsA"])];
    let resources = vec![resource(1, "MGS", "/mnt/mgs", vec![1, 2])];
    let banned = vec![ban(1, "MGS", 2, None)];
    let rows = get_fs_target_resources(&targets, &resources, &banned, &None);
    assert_eq!(rows[0].cluster_hosts, vec![1]);
}

#[test]
fn ban_with_other_mount_point_is_ignored() {
    let targets = vec![target("MGS", "/mnt/mgs", vec![1, 2], vec!["fsA"])];
    let resources = vec![resource(1, "MGS", "/mnt/mgs", vec![1, 2])];
    let banned = vec![ban(1, "MGS", 1, Some("/mnt/other"))];
    let rows = get_fs_target_resources(&targets, &resources, &banned, &None);
    assert_eq!(rows[0].cluster_hosts, vec![1, 2]);
}

#[test]
fn empty_eligible_set_is_still_returned() {
    // A resource whose every candidate host is banned is returned with
    // an empty set, not omitted.
    let targets = vec![target("MGS", "/mnt/mgs", vec![1], vec!["fsA"])];
    let resources = vec![resource(1, "MGS", "/mnt/mgs", vec![1])];
    let banned = vec![ban(1, "MGS", 1, Some("/mnt/mgs"))];
    let rows = get_fs_target_resources(&targets, &resources, &banned, &None);
    assert_eq!(rows.len(), 1);
    assert!(rows[0].cluster_hosts.is_empty());
}

#[test]
fn target_without_filesystem_is_skipped() {
    let targets = vec![target("MGS", "/mnt/mgs", vec![1, 2], vec![])];
    let resources = vec![resource(1, "MGS", "/mnt/mgs", vec![1, 2])];
    let rows = get_fs_target_resources(&targets, &resources, &vec![], &None);
    assert!(rows.is_empty());
}

#[test]
fn filesystem_filter_restricts_rows() {
    let targets = vec![
        target("MGS", "/mnt/mgs", vec![1], vec!["fsA"]),
        target("OST0", "/mnt/ost0", vec![1], vec!["fsB"]),
    ];
    let resources = vec![
        resource(1, "MGS", "/mnt/mgs", vec![1]),
        resource(1, "OST0", "/mnt/ost0", vec![1]),
    ];
    let rows =
        get_fs_target_resources(&targets, &resources, &vec![], &Some("fsB".to_string()));
    assert_eq!(rows.len(), 1);
    assert_eq!(rows[0].name, "OST0");
}

#[test]
fn banned_targets_join_resolves_hosts() {
    let bans = vec![BannedResource {
        id: 10,
        name: "b0".to_string(),
        cluster_id: 1,
        resource: "MGS".to_string(),
        node: "node1".to_string(),
        weight: 0,
        master_only: false,
    }];
    let node_hosts = vec![
        NodeHost { node: "node1".to_string(), cluster_id: 1, host_id: 7 },
        NodeHost { node: "node1".to_string(), cluster_id: 2, host_id: 8 },
    ];
    let resources = vec![resource(1, "MGS", "/mnt/mgs", vec![7])];
    let rows = get_banned_targets(&bans, &node_hosts, &resources);
    assert_eq!(rows.len(), 1);
    assert_eq!(rows[0].resource, "MGS");
    assert_eq!(rows[0].cluster_id, 1);
    assert_eq!(rows[0].host_id, 7);
    assert_eq!(rows[0].mount_point, Some("/mnt/mgs".to_string()));
}

#[test]
fn dangling_ban_is_tolerated() {
    // A ban whose node or resource matches nothing contributes nothing
    // and raises no error.
    let bans = vec![BannedResource {
        id: 11,
        name: "b1".to_string(),
        cluster_id: 9,
        resource: "GONE".to_string(),
        node: "absent".to_string(),
        weight: 0,
        master_only: false,
    }];
    let node_hosts = vec![NodeHost { node: "node1".to_string(), cluster_id: 1, host_id: 7 }];
    let resources = vec![resource(1, "MGS", "/mnt/mgs", vec![7])];
    let rows = get_banned_targets(&bans, &node_hosts, &resources);
    assert!(rows.is_empty());
}

#[test]
fn zero_ban_rows_list_as_empty() {
    // Listing raw bans over an empty snapshot returns an empty list,
    // not an error.
    let rows = get_banned_resources(&vec![]);
    assert!(rows.is_empty());
}

#[test]
fn banned_resources_snapshot_is_returned_unchanged() {
    let bans = vec![BannedResource {
        id: 3,
        name: "b3".to_string(),
        cluster_id: 1,
        resource: "MGS".to_string(),
        node: "node1".to_string(),
        weight: 5,
        master_only: true,
    }];
    let rows = get_banned_resources(&bans);
    assert_eq!(rows, bans);
}

#[test]
fn unknown_filesystem_is_refused_before_any_join() {
    // The name check fires first: the join inputs here are deliberately
    // inconsistent and are never touched.
    let filesystems = vec![Filesystem { id: 1, name: "fsA".to_string() }];
    let r = list_target_resources(
        &filesystems,
        &vec![],
        &vec![],
        &vec![],
        &Some("doesNotExist".to_string()),
    );
    match r {
        Err(ResolverError::FilesystemNotFound(name)) => assert_eq!(name, "doesNotExist"),
        _ => panic!("expected the filesystem-not-found refusal"),
    }
}

#[test]
fn known_filesystem_resolves_to_its_id() {
    let filesystems = vec![
        Filesystem { id: 1, name: "fsA".to_string() },
        Filesystem { id: 2, name: "fsB".to_string() },
    ];
    assert_eq!(fs_id_by_name(&filesystems, &"fsB".to_string()), Ok(2));
    let e = fs_id_by_name(&filesystems, &"fsC".to_string()).unwrap_err();
    assert_eq!(e.message(), "Filesystem fsC not found");
}

#[test]
fn cluster_groups_are_disjoint_and_resolved() {
    // Two clusters back fsA; the groups are keyed by cluster identity,
    // union their member hosts without duplicates, and resolve to node
    // names.  Host 4 has no known name and is dropped.
    let targets = vec![
        target("MGS", "/mnt/mgs", vec![1, 2], vec!["fsA"]),
        target("OST0", "/mnt/ost0", vec![2, 1], vec!["fsA"]),
        target("OST1", "/mnt/ost1", vec![3, 4], vec!["fsA"]),
    ];
    let resources = vec![
        resource(1, "MGS", "/mnt/mgs", vec![1, 2]),
        resource(1, "OST0", "/mnt/ost0", vec![2, 1]),
        resource(2, "OST1", "/mnt/ost1", vec![3, 4]),
    ];
    let fqdns = vec![
        HostFqdn { host_id: 1, fqdn: "n1.example.com".to_string() },
        HostFqdn { host_id: 2, fqdn: "n2.example.com".to_string() },
        HostFqdn { host_id: 3, fqdn: "n3.example.com".to_string() },
    ];
    let filesystems = vec![Filesystem { id: 1, name: "fsA".to_string() }];
    let groups = get_fs_cluster_hosts(
        &filesystems,
        &targets,
        &resources,
        &vec![],
        &fqdns,
        &"fsA".to_string(),
    )
    .unwrap();
    assert_eq!(groups.len(), 2);
    assert_eq!(groups[0], vec!["n1.example.com".to_string(), "n2.example.com".to_string()]);
    assert_eq!(groups[1], vec!["n3.example.com".to_string()]);
    for g in &groups[0] {
        assert!(!groups[1].contains(g));
    }
}

#[test]
fn mount_command_joins_sorted_identifiers() {
    // The scenario mount command: two resolved network identifiers give
    // "mount -t lustre 10.0.0.1@tcp:10.0.0.2@tcp:/fsA /mnt/fsA".
    let filesystems = vec![Filesystem { id: 1, name: "fsA".to_string() }];
    let targets = vec![target("MGS", "/mnt/mgs", vec![1, 2], vec!["fsA"])];
    let nids = vec![
        HostNid { host_id: 2, nid: "10.0.0.2@tcp".to_string() },
        HostNid { host_id: 1, nid: "10.0.0.1@tcp".to_string() },
    ];
    let cmd = mount_command(&filesystems, &targets, &vec![], &nids, &"fsA".to_string()).unwrap();
    assert_eq!(cmd, "mount -t lustre 10.0.0.1@tcp:10.0.0.2@tcp:/fsA /mnt/fsA");
}

#[test]
fn mount_source_orders_and_deduplicates() {
    // Identifiers arrive unordered and duplicated; the source lists them
    // ascending by (host, identifier) once each, and repeated calls give
    // identical output.
    let filesystems = vec![Filesystem { id: 1, name: "fsA".to_string() }];
    let targets = vec![target("MGS", "/mnt/mgs", vec![1, 2], vec!["fsA"])];
    let nids = vec![
        HostNid { host_id: 2, nid: "10.0.0.2@tcp".to_string() },
        HostNid { host_id: 1, nid: "10.0.0.1@tcp2".to_string() },
        HostNid { host_id: 1, nid: "10.0.0.1@tcp".to_string() },
        HostNid { host_id: 2, nid: "10.0.0.2@tcp".to_string() },
    ];
    let first = mount_source(&filesystems, &targets, &vec![], &nids, &"fsA".to_string()).unwrap();
    let second = mount_source(&filesystems, &targets, &vec![], &nids, &"fsA".to_string()).unwrap();
    assert_eq!(first, "10.0.0.1@tcp:10.0.0.1@tcp2:10.0.0.2@tcp:/fsA");
    assert_eq!(first, second);
}

#[test]
fn mount_source_excludes_hosts_banned_at_management_mount() {
    let filesystems = vec![Filesystem { id: 1, name: "fsA".to_string() }];
    let targets = vec![target("MGS", "/mnt/mgs", vec![1, 2], vec!["fsA"])];
    let banned = vec![ban(1, "MGS", 1, Some("/mnt/mgs"))];
    let nids = vec![
        HostNid { host_id: 1, nid: "10.0.0.1@tcp".to_string() },
        HostNid { host_id: 2, nid: "10.0.0.2@tcp".to_string() },
    ];
    let src = mount_source(&filesystems, &targets, &banned, &nids, &"fsA".to_string()).unwrap();
    assert_eq!(src, "10.0.0.2@tcp:/fsA");
}

#[test]
fn mount_source_for_unknown_filesystem_is_refused() {
    let filesystems = vec![Filesystem { id: 1, name: "fsA".to_string() }];
    let r = mount_source(&filesystems, &vec![], &vec![], &vec![], &"nope".to_string());
    match r {
        Err(ResolverError::FilesystemNotFound(name)) => assert_eq!(name, "nope"),
        _ => panic!("expected the filesystem-not-found refusal"),
    }
}

#[test]
fn listed_targets_carry_resource_hosts_and_filters() {
    // The targets listing drops unmounted rows when asked to and
    // replaces host ids with the ban-aware hosts of the resource that
    // shares the target's name.
    let mut unmounted = target("OST1", "/mnt/ost1", vec![5], vec!["fsA"]);
    unmounted.state = "unmounted".to_string();
    let targets = vec![
        target("MGS", "/mnt/mgs", vec![1, 2], vec!["fsA"]),
        unmounted,
    ];
    let resources = vec![
        resource(1, "MGS", "/mnt/mgs", vec![1, 2]),
        resource(1, "OST1", "/mnt/ost1", vec![5]),
    ];
    let banned = vec![ban(1, "MGS", 1, Some("/mnt/mgs"))];
    let filesystems = vec![Filesystem { id: 1, name: "fsA".to_string() }];
    let rows = list_targets(
        &filesystems,
        &targets,
        &resources,
        &banned,
        &Some("fsA".to_string()),
        Some(true),
    )
    .unwrap();
    assert_eq!(rows.len(), 1);
    assert_eq!(rows[0].name, "MGS");
    assert_eq!(rows[0].host_ids, vec![2]);
}

#[test]
fn listed_targets_keep_unmounted_rows_by_default() {
    let mut unmounted = target("OST1", "/mnt/ost1", vec![5], vec!["fsA"]);
    unmounted.state = "unmounted".to_string();
    let targets = vec![unmounted];
    let rows = list_targets(&vec![], &targets, &vec![], &vec![], &None, None).unwrap();
    assert_eq!(rows.len(), 1);
    assert_eq!(rows[0].host_ids, vec![5]);
}

#[test]
fn eligible_hosts_never_leave_the_raw_set() {
    // Whatever the resource offers, the eligible set stays inside the
    // target's raw host set.
    let targets = vec![target("OST3", "/mnt/ost3", vec![4, 6], vec!["fsA"])];
    let resources = vec![resource(3, "OST3", "/mnt/ost3", vec![9, 6, 4, 2, 6])];
    let rows = get_fs_target_resources(&targets, &resources, &vec![], &None);
    assert_eq!(rows[0].cluster_hosts, vec![6, 4]);
    for h in &rows[0].cluster_hosts {
        assert!(targets[0].host_ids.contains(h));
    }
}

#[test]
fn node_name_resolves_by_host_id() {
    let node_hosts = vec![
        NodeHost { node: "node1".to_string(), cluster_id: 1, host_id: 7 },
        NodeHost { node: "node2".to_string(), cluster_id: 1, host_id: 8 },
    ];
    assert_eq!(corosync_node_name_by_host(&node_hosts, 8), Some("node2".to_string()));
    assert_eq!(corosync_node_name_by_host(&node_hosts, 9), None);
}
