//! The query and mutation roots of the resolver's external interface,
//! and the envelope used to hand work to the job scheduler.
//!
//! The roots only hand out the sub-surfaces; the resolver operations
//! themselves live in [`crate::facade`] and take relation snapshots.

use vstd::prelude::*;

verus! {

/// The stratagem query sub-surface.
#[derive(Clone, Copy, Debug, PartialEq, Eq, Structural)]
pub struct StratagemQuery;

/// The task query sub-surface.
#[derive(Clone, Copy, Debug, PartialEq, Eq, Structural)]
pub struct TaskQuery;

/// The snapshot query sub-surface.
#[derive(Clone, Copy, Debug, PartialEq, Eq, Structural)]
pub struct SnapshotQuery;

/// The filesystem mutation sub-surface.
#[derive(Clone, Copy, Debug, PartialEq, Eq, Structural)]
pub struct FilesystemMutation;

/// The stratagem mutation sub-surface.
#[derive(Clone, Copy, Debug, PartialEq, Eq, Structural)]
pub struct StratagemMutation;

/// The task mutation sub-surface.
#[derive(Clone, Copy, Debug, PartialEq, Eq, Structural)]
pub struct TaskMutation;

/// The snapshot mutation sub-surface.
#[derive(Clone, Copy, Debug, PartialEq, Eq, Structural)]
pub struct SnapshotMutation;

/// The root of the read-only query surface.
#[derive(Clone, Copy, Debug, PartialEq, Eq, Structural)]
pub struct QueryRoot;

impl QueryRoot {
    /// The stratagem queries.
    pub fn stratagem(&self) -> (r: StratagemQuery)
        ensures
            r == StratagemQuery,
    {
        StratagemQuery
    }

    /// The task queries.
    pub fn task(&self) -> (r: TaskQuery)
        ensures
            r == TaskQuery,
    {
        TaskQuery
    }

    /// The snapshot queries.
    pub fn snapshot(&self) -> (r: SnapshotQuery)
        ensures
            r == SnapshotQuery,
    {
        SnapshotQuery
    }
}

/// The root of the mutation surface.
#[derive(Clone, Copy, Debug, PartialEq, Eq, Structural)]
pub struct MutationRoot;

impl MutationRoot {
    /// The filesystem mutations.
    pub fn filesystem(&self) -> (r: FilesystemMutation)
        ensures
            r == FilesystemMutation,
    {
        FilesystemMutation
    }

    /// The stratagem mutations.
    pub fn stratagem(&self) -> (r: StratagemMutation)
        ensures
            r == StratagemMutation,
    {
        StratagemMutation
    }

    /// The task mutations.
    pub fn task(&self) -> (r: TaskMutation)
        ensures
            r == TaskMutation,
    {
        TaskMutation
    }

    /// The snapshot mutations.
    pub fn snapshot(&self) -> (r: SnapshotMutation)
        ensures
            r == SnapshotMutation,
    {
        SnapshotMutation
    }
}

/// One job handed to the scheduler: the job class to run and its
/// arguments, exactly as the scheduler's submission call expects them.
#[derive(Debug)]
pub struct SendJob<'a, T> {
    pub class_name: &'a str,
    pub args: T,
}

} // verus!
