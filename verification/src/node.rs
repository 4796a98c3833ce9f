//! Node configuration: what a node lets its callers do.

use vstd::prelude::*;

use crate::map::VecMap;
use crate::text::string_of;

verus! {

/// What a caller of a node may ask it to do.
#[derive(Debug, Clone, Copy, PartialEq, Eq, Structural)]
pub struct Permissions {
    pub create_workers: bool,
    pub create_leaders: bool,
}

impl Default for Permissions {
    fn default() -> (res: Self)
        ensures
            !res.create_workers,
            !res.create_leaders,
    {
        Permissions { create_workers: false, create_leaders: false }
    }
}

impl Permissions {
    /// Permissions of the node's root user: it may create workers, not
    /// leaders.
    pub fn root() -> (res: Self)
        ensures
            res.create_workers,
            !res.create_leaders,
    {
        Permissions { create_workers: true, create_leaders: false }
    }
}

/// Configuration of a node.
#[derive(Debug, Clone)]
pub struct NodeConfig {
    pub single_threaded: bool,
    pub max_memory: usize,
    pub workers_per_thread: u16,
    /// Permissions of each user
    pub acl: VecMap<String, Permissions>,
}

impl Default for NodeConfig {
    /// Multi-threaded node with a thousand megabytes of memory, two workers
    /// per thread, and a `root` user with root permissions.
    fn default() -> (res: Self)
        ensures
            !res.single_threaded,
            res.max_memory == 1000,
            res.workers_per_thread == 2,
            res.acl@ == map![ "root"@ => Permissions { create_workers: true, create_leaders: false } ],
    {
        let mut acl: VecMap<String, Permissions> = VecMap::new();
        acl.insert(string_of("root"), Permissions::root());
        proof {
            assert(acl@ =~= map![ "root"@ => Permissions { create_workers: true, create_leaders: false } ]);
        }
        NodeConfig { single_threaded: false, max_memory: 1000, workers_per_thread: 2, acl }
    }
}

} // verus!
