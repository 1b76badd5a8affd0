//! The kinds of Linux namespace and their names.

use vstd::prelude::*;
use vstd::string::*;

verus! {

/// Represents the ID for a [Linux namespace](https://en.wikipedia.org/wiki/Linux_namespaces).
#[derive(Debug, Clone, Copy, PartialEq, Eq, Structural)]
pub enum LinuxNs {
    /// Represents an invalid namespace.
    InvalidNs,
    /// Represents the IPC namespace.
    IpcNs,
    /// Represents the mount namespace.
    MountNs,
    /// Represents the network namespace.
    NetNs,
    /// Represents the PID namespace.
    PidNs,
    /// Represents the user namespace.
    UserNs,
    /// Represents the UTS namespace.
    UtsNs,
    /// Represents the Cgroup namespace.
    CgroupNs,
}

impl LinuxNs {
    /// The name of the namespace: for a kernel namespace, the name of its
    /// entry under `/proc/<pid>/ns`.
    pub open spec fn name(self) -> Seq<char> {
        match self {
            LinuxNs::InvalidNs => "invalid"@,
            LinuxNs::IpcNs => "ipc"@,
            LinuxNs::MountNs => "mnt"@,
            LinuxNs::NetNs => "net"@,
            LinuxNs::PidNs => "pid"@,
            LinuxNs::UserNs => "user"@,
            LinuxNs::UtsNs => "uts"@,
            LinuxNs::CgroupNs => "cgroup"@,
        }
    }

    /// Returns a string representation of the Linux namespace.
    ///
    /// This is guaranteed to be equivalent to the name of the namespace used in /proc.
    pub fn as_str(&self) -> (name: &'static str)
        ensures
            name@ == self.name(),
    {
        match self {
            LinuxNs::InvalidNs => "invalid",
            LinuxNs::IpcNs => "ipc",
            LinuxNs::MountNs => "mnt",
            LinuxNs::NetNs => "net",
            LinuxNs::PidNs => "pid",
            LinuxNs::UserNs => "user",
            LinuxNs::UtsNs => "uts",
            LinuxNs::CgroupNs => "cgroup",
        }
    }

    /// Returns the name of the namespace as an owned string.
    pub fn to_string(&self) -> (name: String)
        ensures
            name@ == self.name(),
    {
        self.as_str().to_owned()
    }

    /// No two kinds of namespace share a name. In particular the name of
    /// `InvalidNs` is the name of no kernel namespace.
    pub proof fn lemma_names_are_distinct(a: LinuxNs, b: LinuxNs)
        requires
            a != b,
        ensures
            a.name() != b.name(),
    {
        reveal_strlit("invalid");
        reveal_strlit("ipc");
        reveal_strlit("mnt");
        reveal_strlit("net");
        reveal_strlit("pid");
        reveal_strlit("user");
        reveal_strlit("uts");
        reveal_strlit("cgroup");
        if a.name().len() == b.name().len() {
            assert(a.name()[0] != b.name()[0] || a.name()[1] != b.name()[1]);
        }
    }
}

} // verus!
