//! Cluster resource availability resolver for a high-availability storage
//! deployment.
//!
//! Given in-memory snapshots of the topology relations (storage targets,
//! HA cluster resources, placement bans, and cluster membership), the
//! resolver computes the set of hosts actually eligible to run each storage
//! resource, groups eligible hosts into disjoint per-filesystem cluster
//! partitions, and derives the ordered network-identifier list used to
//! build a client mount string.

pub mod api;
pub mod commands;
pub mod eligibility;
pub mod facade;
pub mod mount;
pub mod order;
pub mod partition;
pub mod policy;
pub mod types;
pub mod util;
