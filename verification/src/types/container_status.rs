//! The lifecycle stage of a container and the rules for moving between stages.

use crate::text::same_text;
use vstd::prelude::*;
use vstd::std_specs::convert::FromSpecImpl;
use vstd::string::*;

verus! {

/// Indicates the status of a container.
#[derive(Debug, Clone, Copy, PartialEq, Eq, Structural)]
pub enum ContainerStatus {
    /// Indicates that the container is in an error state in which information
    /// about it cannot be retrieved.
    Unknown,
    /// Indicates that the container's storage has been configured but that it
    /// has not been created in the OCI runtime yet.
    Configured,
    /// Indicates that the container has been created in the OCI runtime but has
    /// not been started yet.
    Initialized,
    /// Indicates that the container is currently running.
    Running,
    /// Indicates that the container is in the process of stopping.
    Stopping,
    /// Indicates that the container is stopped (but has previously been
    /// running).
    Stopped,
    /// Indicates that the container has been paused.
    Paused,
    /// Indicates that the container has been exited.
    Exited,
    /// Indicates that the container is currently being removed.
    Removing,
}

impl ContainerStatus {
    /// The canonical name of the status: the text under which it is persisted
    /// and reported.
    pub open spec fn name(self) -> Seq<char> {
        match self {
            ContainerStatus::Unknown => "unknown"@,
            ContainerStatus::Configured => "configured"@,
            ContainerStatus::Initialized => "initialized"@,
            ContainerStatus::Running => "running"@,
            ContainerStatus::Stopping => "stopping"@,
            ContainerStatus::Stopped => "stopped"@,
            ContainerStatus::Paused => "paused"@,
            ContainerStatus::Exited => "exited"@,
            ContainerStatus::Removing => "removing"@,
        }
    }

    /// The status that `text` names. A text that names no status stands for
    /// `Unknown`, so decoding never fails.
    pub open spec fn from_name(text: Seq<char>) -> ContainerStatus {
        if text == "configured"@ {
            ContainerStatus::Configured
        } else if text == "initialized"@ {
            ContainerStatus::Initialized
        } else if text == "running"@ {
            ContainerStatus::Running
        } else if text == "stopping"@ {
            ContainerStatus::Stopping
        } else if text == "stopped"@ {
            ContainerStatus::Stopped
        } else if text == "paused"@ {
            ContainerStatus::Paused
        } else if text == "exited"@ {
            ContainerStatus::Exited
        } else if text == "removing"@ {
            ContainerStatus::Removing
        } else {
            ContainerStatus::Unknown
        }
    }

    /// Whether a caller may move a container from `self` to `next`.
    ///
    /// Every status may give way to `Unknown`, which records that the runtime
    /// could not be asked. `Removing` and `Unknown` lead nowhere else.
    pub open spec fn permits(self, next: ContainerStatus) -> bool {
        next == ContainerStatus::Unknown || match self {
            ContainerStatus::Configured => next == ContainerStatus::Initialized,
            ContainerStatus::Initialized => {
                next == ContainerStatus::Running || next == ContainerStatus::Removing
            },
            ContainerStatus::Running => {
                next == ContainerStatus::Stopping || next == ContainerStatus::Paused || next
                    == ContainerStatus::Exited
            },
            ContainerStatus::Stopping => {
                next == ContainerStatus::Stopped || next == ContainerStatus::Exited
            },
            ContainerStatus::Stopped | ContainerStatus::Paused | ContainerStatus::Exited => {
                next == ContainerStatus::Running || next == ContainerStatus::Removing
            },
            ContainerStatus::Removing | ContainerStatus::Unknown => false,
        }
    }

    /// Returns the canonical name of the status.
    ///
    /// These match Docker's `docker ps` statuses.
    pub fn as_str(&self) -> (name: &'static str)
        ensures
            name@ == self.name(),
    {
        match self {
            ContainerStatus::Unknown => "unknown",
            ContainerStatus::Configured => "configured",
            ContainerStatus::Initialized => "initialized",
            ContainerStatus::Running => "running",
            ContainerStatus::Stopping => "stopping",
            ContainerStatus::Stopped => "stopped",
            ContainerStatus::Paused => "paused",
            ContainerStatus::Exited => "exited",
            ContainerStatus::Removing => "removing",
        }
    }

    /// Stringifies the status.
    pub fn to_string(&self) -> (name: String)
        ensures
            name@ == self.name(),
    {
        self.as_str().to_owned()
    }

    /// Converts a stringified status back to a [`ContainerStatus`].
    ///
    /// If none of the options are matched, [`ContainerStatus::Unknown`] will be
    /// returned.
    pub fn from_str(text: &str) -> (status: ContainerStatus)
        ensures
            status == ContainerStatus::from_name(text@),
    {
        if same_text(text, "configured") {
            ContainerStatus::Configured
        } else if same_text(text, "initialized") {
            ContainerStatus::Initialized
        } else if same_text(text, "running") {
            ContainerStatus::Running
        } else if same_text(text, "stopping") {
            ContainerStatus::Stopping
        } else if same_text(text, "stopped") {
            ContainerStatus::Stopped
        } else if same_text(text, "paused") {
            ContainerStatus::Paused
        } else if same_text(text, "exited") {
            ContainerStatus::Exited
        } else if same_text(text, "removing") {
            ContainerStatus::Removing
        } else {
            ContainerStatus::Unknown
        }
    }

    /// Whether a caller may move a container from this status to `next`.
    #[verifier::when_used_as_spec(permits)]
    pub fn can_transition_to(self, next: ContainerStatus) -> (allowed: bool)
        ensures
            allowed == self.permits(next),
    {
        if next == ContainerStatus::Unknown {
            return true;
        }
        match self {
            ContainerStatus::Configured => next == ContainerStatus::Initialized,
            ContainerStatus::Initialized => {
                next == ContainerStatus::Running || next == ContainerStatus::Removing
            },
            ContainerStatus::Running => {
                next == ContainerStatus::Stopping || next == ContainerStatus::Paused || next
                    == ContainerStatus::Exited
            },
            ContainerStatus::Stopping => {
                next == ContainerStatus::Stopped || next == ContainerStatus::Exited
            },
            ContainerStatus::Stopped | ContainerStatus::Paused | ContainerStatus::Exited => {
                next == ContainerStatus::Running || next == ContainerStatus::Removing
            },
            ContainerStatus::Removing | ContainerStatus::Unknown => false,
        }
    }

    /// No two statuses share a name.
    pub proof fn lemma_names_are_distinct(a: ContainerStatus, b: ContainerStatus)
        requires
            a != b,
        ensures
            a.name() != b.name(),
    {
        reveal_strlit("unknown");
        reveal_strlit("configured");
        reveal_strlit("initialized");
        reveal_strlit("running");
        reveal_strlit("stopping");
        reveal_strlit("stopped");
        reveal_strlit("paused");
        reveal_strlit("exited");
        reveal_strlit("removing");
        if a.name().len() == b.name().len() {
            assert(a.name()[0] != b.name()[0]);
        }
    }

    /// Decoding the name of a status gives that status back.
    pub proof fn lemma_name_round_trips(status: ContainerStatus)
        ensures
            ContainerStatus::from_name(status.name()) == status,
    {
        let decoded = ContainerStatus::from_name(status.name());
        if decoded != ContainerStatus::Unknown {
            assert(decoded.name() == status.name());
        }
        if decoded != status {
            ContainerStatus::lemma_names_are_distinct(decoded, status);
            if status != ContainerStatus::Unknown {
                assert(status.name() != "unknown"@) by {
                    ContainerStatus::lemma_names_are_distinct(status, ContainerStatus::Unknown);
                }
            }
        }
    }

    /// A text that is the name of no status decodes to `Unknown`: the empty
    /// text, garbage, a name that a later version may add.
    pub proof fn lemma_foreign_text_is_unknown(text: Seq<char>)
        requires
            forall|status: ContainerStatus| text != #[trigger] status.name(),
        ensures
            ContainerStatus::from_name(text) == ContainerStatus::Unknown,
    {
        let decoded = ContainerStatus::from_name(text);
        if decoded != ContainerStatus::Unknown {
            assert(text == decoded.name());
        }
    }
}

impl From<String> for ContainerStatus {
    /// Converts a stringified status back to a [`ContainerStatus`].
    ///
    /// If none of the options are matched, [`ContainerStatus::Unknown`] will be
    /// returned.
    fn from(val: String) -> (status: ContainerStatus) {
        ContainerStatus::from_str(val.as_str())
    }
}

impl FromSpecImpl<String> for ContainerStatus {
    open spec fn obeys_from_spec() -> bool {
        true
    }

    open spec fn from_spec(val: String) -> ContainerStatus {
        ContainerStatus::from_name(val@)
    }
}

/// Indicates the status of a container exec session.
#[derive(Debug, Clone, Copy, PartialEq, Eq, Structural)]
pub enum ContainerExecStatus {
    /// Indicates that the exec session is in an unknown state.
    Unknown,
    /// Indicates that the exec session has been created but not started yet.
    Created,
    /// Indicates that the exec session has been started but has not exited yet.
    Running,
    /// Indicates that the exec session has stopped.
    Stopped,
}

} // verus!
