//! The cgroup under which a new container is placed by default.

use vstd::prelude::*;
use vstd::string::*;

verus! {

/// The cgroup parent for the cgroupfs cgroup manager.
pub const CGROUPFS_DEFAULT_CGROUP_PARENT: &'static str = "/libpod_parent";

/// The cgroup parent for the systemd cgroup manager.
pub const SYSTEMD_DEFAULT_CGROUP_PARENT: &'static str = "machine.slice";

/// The cgroup parent for the systemd cgroup manager when running as rootless.
pub const SYSTEMD_DEFAULT_ROOTLESS_CGROUP_PARENT: &'static str = "user.slice";

/// Who creates and owns the cgroups of containers.
#[derive(Debug, Clone, Copy, PartialEq, Eq, Structural)]
pub enum CgroupManager {
    /// Cgroups are plain directories of the cgroup file system.
    Cgroupfs,
    /// Cgroups are units of systemd.
    Systemd,
}

/// The default cgroup parent.
///
/// With cgroupfs it is one fixed path, whoever runs the container. Systemd
/// only nests cgroups under slices it knows, and a rootless session has
/// authority over the user's own slice alone.
pub open spec fn default_cgroup_parent(manager: CgroupManager, rootless: bool) -> Seq<char> {
    match manager {
        CgroupManager::Cgroupfs => "/libpod_parent"@,
        CgroupManager::Systemd => if rootless {
            "user.slice"@
        } else {
            "machine.slice"@
        },
    }
}

/// Resolves the cgroup parent under which a new container is nested when its
/// configuration names none.
pub fn resolve_cgroup_parent(manager: CgroupManager, rootless: bool) -> (parent: &'static str)
    ensures
        parent@ == default_cgroup_parent(manager, rootless),
{
    match manager {
        CgroupManager::Cgroupfs => CGROUPFS_DEFAULT_CGROUP_PARENT,
        CgroupManager::Systemd => if rootless {
            SYSTEMD_DEFAULT_ROOTLESS_CGROUP_PARENT
        } else {
            SYSTEMD_DEFAULT_CGROUP_PARENT
        },
    }
}

} // verus!
