//! The record of one container: what it was created with, what was last
//! observed of it, and the advisory lock of batch operations.

use crate::cgroup::{resolve_cgroup_parent, CgroupManager};
use crate::error::ContainerError;
use crate::types::container_status::ContainerStatus;
use vstd::prelude::*;
use vstd::string::*;

pub use crate::namespace::LinuxNs;

verus! {

/// The parameters a container was created with. A record never changes them:
/// a container that is to run with other parameters gets a new record.
pub struct ContainerConfig {
    /// The identity of the container.
    pub id: String,
    /// The cgroup under which the container's own cgroup is created.
    pub cgroup_parent: String,
    /// The namespaces that the container joins instead of owning one of its own.
    pub shared_namespaces: Vec<LinuxNs>,
}

impl ContainerConfig {
    /// A configuration that names no cgroup parent of its own and so is placed
    /// under the default parent of its cgroup manager.
    pub fn new(
        id: String,
        manager: CgroupManager,
        rootless: bool,
        shared_namespaces: Vec<LinuxNs>,
    ) -> (config: ContainerConfig)
        ensures
            config.id == id,
            config.cgroup_parent@ == crate::cgroup::default_cgroup_parent(manager, rootless),
            config.shared_namespaces == shared_namespaces,
    {
        ContainerConfig {
            id,
            cgroup_parent: resolve_cgroup_parent(manager, rootless).to_owned(),
            shared_namespaces,
        }
    }
}

/// What came with an observation of a container besides its status.
#[derive(Debug, Clone, Copy, PartialEq, Eq)]
pub struct ObservedFields {
    /// The process id of the container's process, while it has one.
    pub pid: Option<u32>,
    /// The exit code of the container's process, once it has exited.
    pub exit_code: Option<i32>,
    /// When the observation was made.
    pub timestamp: u64,
}

/// What was last observed of a container.
#[derive(Debug, Clone, Copy, PartialEq, Eq)]
pub struct ContainerState {
    /// The lifecycle stage.
    pub status: ContainerStatus,
    /// The process id of the container's process, while it has one.
    pub pid: Option<u32>,
    /// The exit code of the container's process, once it has exited.
    pub exit_code: Option<i32>,
    /// When the state was observed.
    pub timestamp: u64,
}

impl ContainerState {
    /// The state that `status` and the fields observed with it make up.
    pub open spec fn observed(status: ContainerStatus, fields: ObservedFields) -> ContainerState {
        ContainerState {
            status,
            pid: fields.pid,
            exit_code: fields.exit_code,
            timestamp: fields.timestamp,
        }
    }

    /// The state of a container that has just been configured.
    pub open spec fn initial(timestamp: u64) -> ContainerState {
        ContainerState {
            status: ContainerStatus::Configured,
            pid: None,
            exit_code: None,
            timestamp,
        }
    }

    /// This state with its status lost: the runtime could not report, so
    /// nothing else is newer than it was.
    pub open spec fn unreported(self) -> ContainerState {
        ContainerState { status: ContainerStatus::Unknown, ..self }
    }

    /// The state that a persisted record stands for. Its status is the one
    /// that `status` names; a record whose status text is corrupt, or was
    /// written by a version that knew more statuses, is read as `Unknown`.
    pub open spec fn restored(
        status: Seq<char>,
        pid: Option<u32>,
        exit_code: Option<i32>,
        timestamp: u64,
    ) -> ContainerState {
        ContainerState { status: ContainerStatus::from_name(status), pid, exit_code, timestamp }
    }

    /// The state in the form in which a store keeps it: the status under its
    /// canonical name, the rest as it is.
    pub fn to_persisted(&self) -> (persisted: PersistedState)
        ensures
            persisted.status@ == self.status.name(),
            persisted.pid == self.pid,
            persisted.exit_code == self.exit_code,
            persisted.timestamp == self.timestamp,
    {
        PersistedState {
            status: self.status.to_string(),
            pid: self.pid,
            exit_code: self.exit_code,
            timestamp: self.timestamp,
        }
    }

    /// Reads a state back from the form in which a store keeps it. This never
    /// fails: a status text that names no status is read as `Unknown`.
    pub fn from_persisted(persisted: &PersistedState) -> (state: ContainerState)
        ensures
            state == ContainerState::restored(
                persisted.status@,
                persisted.pid,
                persisted.exit_code,
                persisted.timestamp,
            ),
    {
        ContainerState {
            status: ContainerStatus::from_str(persisted.status.as_str()),
            pid: persisted.pid,
            exit_code: persisted.exit_code,
            timestamp: persisted.timestamp,
        }
    }

    /// A state that is persisted and read back is the state it was.
    pub proof fn lemma_persisted_state_round_trips(state: ContainerState)
        ensures
            ContainerState::restored(
                state.status.name(),
                state.pid,
                state.exit_code,
                state.timestamp,
            ) == state,
    {
        ContainerStatus::lemma_name_round_trips(state.status);
    }
}

/// A state in the form in which a store keeps it.
#[derive(Debug, PartialEq, Eq)]
pub struct PersistedState {
    /// The canonical name of the status.
    pub status: String,
    /// The process id of the container's process, while it has one.
    pub pid: Option<u32>,
    /// The exit code of the container's process, once it has exited.
    pub exit_code: Option<i32>,
    /// When the state was observed.
    pub timestamp: u64,
}

/// The value of a [`Container`]: its three parts, for use in contracts.
pub struct ContainerView {
    pub config: ContainerConfig,
    pub state: ContainerState,
    pub batched: bool,
}

impl ContainerView {
    /// The record after a request to move it to `next`, and the answer to the
    /// request. A move that the status does not permit changes nothing.
    pub open spec fn apply_transition(self, next: ContainerStatus, fields: ObservedFields) -> (
        ContainerView,
        Result<(), ContainerError>,
    ) {
        if self.state.status.permits(next) {
            (ContainerView { state: ContainerState::observed(next, fields), ..self }, Ok(()))
        } else {
            (self, Err(ContainerError::InvalidTransition { from: self.state.status, to: next }))
        }
    }

    /// The record after the runtime was asked about the container, and the
    /// answer to the attempt. `None` says that the runtime could not report.
    /// What the runtime reports is taken as it is, whatever the record held:
    /// it is the truth about the container. A record held by a batch is left
    /// alone.
    pub open spec fn refresh(self, observed: Option<ContainerState>) -> (
        ContainerView,
        Result<(), ContainerError>,
    ) {
        if self.batched {
            (self, Err(ContainerError::AlreadyBatched))
        } else {
            match observed {
                Some(state) => (ContainerView { state, ..self }, Ok(())),
                None => (ContainerView { state: self.state.unreported(), ..self }, Ok(())),
            }
        }
    }

    /// The record after an attempt to take the batch lock, and the answer to
    /// the attempt.
    pub open spec fn try_lock_batch(self) -> (ContainerView, Result<(), ContainerError>) {
        if self.batched {
            (self, Err(ContainerError::AlreadyBatched))
        } else {
            (ContainerView { batched: true, ..self }, Ok(()))
        }
    }

    /// The record after the batch lock was released.
    pub open spec fn unlock_batch(self) -> ContainerView {
        ContainerView { batched: false, ..self }
    }

    /// A move that the current status does not permit is refused as an
    /// invalid transition, and the record stays as it was.
    pub proof fn lemma_unlisted_transition_is_rejected(
        self,
        next: ContainerStatus,
        fields: ObservedFields,
    )
        requires
            !self.state.status.permits(next),
        ensures
            self.apply_transition(next, fields) == (
                self,
                Err::<(), ContainerError>(
                    ContainerError::InvalidTransition { from: self.state.status, to: next },
                ),
            ),
    {
    }

    /// A move that the current status permits succeeds, and the record then
    /// shows the new status with the fields observed. Nothing else changes.
    pub proof fn lemma_listed_transition_is_applied(
        self,
        next: ContainerStatus,
        fields: ObservedFields,
    )
        requires
            self.state.status.permits(next),
        ensures
            self.apply_transition(next, fields).1 is Ok,
            self.apply_transition(next, fields).0.state.status == next,
            self.apply_transition(next, fields).0.state == ContainerState::observed(next, fields),
            self.apply_transition(next, fields).0.config == self.config,
            self.apply_transition(next, fields).0.batched == self.batched,
    {
    }

    /// Of two callers that try to take the batch lock of a free record one
    /// after the other, the first gets it and the second is refused. The
    /// second is refused again however often it tries, and gets the lock once
    /// the first has released it.
    pub proof fn lemma_batch_lock_is_exclusive(self)
        requires
            !self.batched,
        ensures
            ({
                let (held, first) = self.try_lock_batch();
                let (still_held, second) = held.try_lock_batch();
                let (taken_again, third) = held.unlock_batch().try_lock_batch();
                &&& first is Ok
                &&& held.batched
                &&& second == Err::<(), ContainerError>(ContainerError::AlreadyBatched)
                &&& still_held == held
                &&& third is Ok
                &&& taken_again == held
            }),
    {
    }

    /// Taking and releasing the batch lock leaves what the record holds of
    /// the container alone.
    pub proof fn lemma_batch_lock_keeps_the_record(self)
        ensures
            self.try_lock_batch().0.config == self.config,
            self.try_lock_batch().0.state == self.state,
            self.unlock_batch().config == self.config,
            self.unlock_batch().state == self.state,
    {
    }
}

/// The record of one container.
pub struct Container {
    config: ContainerConfig,
    state: ContainerState,
    /// Indicates whether or not a container has been locked as part of a batch operation.
    batched: bool,
}

impl View for Container {
    type V = ContainerView;

    closed spec fn view(&self) -> ContainerView {
        ContainerView { config: self.config, state: self.state, batched: self.batched }
    }
}

impl Container {
    /// The record of a container that has just been configured and that no
    /// batch holds.
    pub fn new(config: ContainerConfig, timestamp: u64) -> (record: Container)
        ensures
            record@ == (ContainerView {
                config,
                state: ContainerState::initial(timestamp),
                batched: false,
            }),
    {
        Container {
            config,
            state: ContainerState {
                status: ContainerStatus::Configured,
                pid: None,
                exit_code: None,
                timestamp,
            },
            batched: false,
        }
    }

    /// The parameters the container was created with.
    pub fn config(&self) -> (config: &ContainerConfig)
        ensures
            *config == self@.config,
    {
        &self.config
    }

    /// A snapshot of what was last observed of the container.
    pub fn state(&self) -> (state: ContainerState)
        ensures
            state == self@.state,
    {
        self.state
    }

    /// Whether a batch operation holds the record.
    pub fn batched(&self) -> (batched: bool)
        ensures
            batched == self@.batched,
    {
        self.batched
    }

    /// Moves the container to `next` and records what was observed with it,
    /// if its status permits the move. Otherwise the record stays as it was
    /// and the move is reported as invalid.
    pub fn apply_transition(&mut self, next: ContainerStatus, fields: ObservedFields) -> (result:
        Result<(), ContainerError>)
        ensures
            (final(self)@, result) == old(self)@.apply_transition(next, fields),
            old(self)@.state.status.permits(next) ==> result is Ok && final(self)@.state.status
                == next,
            !old(self)@.state.status.permits(next) ==> final(self)@ == old(self)@ && result == Err::<
                (),
                ContainerError,
            >(ContainerError::InvalidTransition { from: old(self)@.state.status, to: next }),
            final(self)@.config == old(self)@.config,
    {
        let from = self.state.status;
        if from.can_transition_to(next) {
            self.state = ContainerState {
                status: next,
                pid: fields.pid,
                exit_code: fields.exit_code,
                timestamp: fields.timestamp,
            };
            Ok(())
        } else {
            Err(ContainerError::InvalidTransition { from, to: next })
        }
    }

    /// Takes over what the runtime reported of the container; `None` says
    /// that it could not report, and leaves the status unknown. A record held
    /// by a batch is not touched.
    pub fn refresh(&mut self, observed: Option<ContainerState>) -> (result: Result<
        (),
        ContainerError,
    >)
        ensures
            (final(self)@, result) == old(self)@.refresh(observed),
    {
        if self.batched {
            return Err(ContainerError::AlreadyBatched);
        }
        match observed {
            Some(state) => {
                self.state = state;
            },
            None => {
                self.state.status = ContainerStatus::Unknown;
            },
        }
        Ok(())
    }

    /// Takes the batch lock, unless a batch holds the record already.
    pub fn try_lock_batch(&mut self) -> (result: Result<(), ContainerError>)
        ensures
            (final(self)@, result) == old(self)@.try_lock_batch(),
            result is Ok <==> !old(self)@.batched,
            result is Err ==> result == Err::<(), ContainerError>(ContainerError::AlreadyBatched),
            final(self)@.batched,
    {
        if self.batched {
            Err(ContainerError::AlreadyBatched)
        } else {
            self.batched = true;
            Ok(())
        }
    }

    /// Releases the batch lock.
    pub fn unlock_batch(&mut self)
        ensures
            final(self)@ == old(self)@.unlock_batch(),
    {
        self.batched = false;
    }
}

} // verus!
