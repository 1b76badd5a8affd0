use container_lifecycle::cgroup::CgroupManager;
use container_lifecycle::container::{
    Container, ContainerConfig, ContainerState, LinuxNs, ObservedFields, PersistedState,
};
use container_lifecycle::error::ContainerError;
use container_lifecycle::types::container_status::ContainerStatus;

const ALL_STATUSES: [ContainerStatus; 9] = [
    ContainerStatus::Unknown,
    ContainerStatus::Configured,
    ContainerStatus::Initialized,
    ContainerStatus::Running,
    ContainerStatus::Stopping,
    ContainerStatus::Stopped,
    ContainerStatus::Paused,
    ContainerStatus::Exited,
    ContainerStatus::Removing,
];

fn config() -> ContainerConfig {
    ContainerConfig::new(
        String::from("c0ffee"),
        CgroupManager::Systemd,
        false,
        vec![LinuxNs::NetNs, LinuxNs::IpcNs],
    )
}

fn fields(pid: Option<u32>, exit_code: Option<i32>, timestamp: u64) -> ObservedFields {
    ObservedFields { pid, exit_code, timestamp }
}

/// A fresh record brought to `status` by taking over a report of the runtime.
fn record_at(status: ContainerStatus) -> Container {
    let mut record = Container::new(config(), 1);
    let seen = ContainerState { status, pid: Some(7), exit_code: None, timestamp: 2 };
    assert_eq!(record.refresh(Some(seen)), Ok(()));
    assert_eq!(record.state(), seen);
    record
}

#[test]
fn config_takes_the_default_cgroup_parent() {
    let rootful = config();
    assert_eq!(rootful.id, "c0ffee");
    assert_eq!(rootful.cgroup_parent, "machine.slice");
    assert_eq!(rootful.shared_namespaces, vec![LinuxNs::NetNs, LinuxNs::IpcNs]);
    let rootless =
        ContainerConfig::new(String::from("a"), CgroupManager::Systemd, true, Vec::new());
    assert_eq!(rootless.cgroup_parent, "user.slice");
    let cgroupfs =
        ContainerConfig::new(String::from("b"), CgroupManager::Cgroupfs, true, Vec::new());
    assert_eq!(cgroupfs.cgroup_parent, "/libpod_parent");
}

#[test]
fn container_starts_configured_and_unlocked() {
    let record = Container::new(config(), 42);
    assert_eq!(
        record.state(),
        ContainerState {
            status: ContainerStatus::Configured,
            pid: None,
            exit_code: None,
            timestamp: 42
        }
    );
    assert!(!record.batched());
    assert_eq!(record.config().id, "c0ffee");
    assert_eq!(record.config().cgroup_parent, "machine.slice");
}

#[test]
fn container_walks_through_a_whole_life() {
    let mut record = Container::new(config(), 0);
    let life = [
        (ContainerStatus::Initialized, fields(None, None, 1)),
        (ContainerStatus::Running, fields(Some(4242), None, 2)),
        (ContainerStatus::Paused, fields(Some(4242), None, 3)),
        (ContainerStatus::Running, fields(Some(4242), None, 4)),
        (ContainerStatus::Stopping, fields(Some(4242), None, 5)),
        (ContainerStatus::Stopped, fields(None, Some(0), 6)),
        (ContainerStatus::Running, fields(Some(4300), None, 7)),
        (ContainerStatus::Exited, fields(None, Some(137), 8)),
        (ContainerStatus::Removing, fields(None, Some(137), 9)),
    ];
    for (next, observed) in life {
        assert_eq!(record.apply_transition(next, observed), Ok(()));
        assert_eq!(
            record.state(),
            ContainerState {
                status: next,
                pid: observed.pid,
                exit_code: observed.exit_code,
                timestamp: observed.timestamp
            }
        );
    }
    assert_eq!(record.config().id, "c0ffee");
}

#[test]
fn container_applies_every_listed_move_and_no_other() {
    for from in ALL_STATUSES {
        for to in ALL_STATUSES {
            let mut record = record_at(from);
            let before = record.state();
            let observed = fields(Some(99), Some(-1), 1234);
            let result = record.apply_transition(to, observed);
            if from.can_transition_to(to) {
                assert_eq!(result, Ok(()), "{:?} -> {:?}", from, to);
                assert_eq!(record.state().status, to);
                assert_eq!(record.state().pid, Some(99));
                assert_eq!(record.state().exit_code, Some(-1));
                assert_eq!(record.state().timestamp, 1234);
            } else {
                assert_eq!(
                    result,
                    Err(ContainerError::InvalidTransition { from, to }),
                    "{:?} -> {:?}",
                    from,
                    to
                );
                assert_eq!(record.state(), before);
            }
            assert!(!record.batched());
        }
    }
}

#[test]
fn container_rejects_a_jump_from_configured_to_running() {
    let mut record = Container::new(config(), 5);
    let before = record.state();
    assert_eq!(
        record.apply_transition(ContainerStatus::Running, fields(Some(1), None, 6)),
        Err(ContainerError::InvalidTransition {
            from: ContainerStatus::Configured,
            to: ContainerStatus::Running
        })
    );
    assert_eq!(record.state(), before);
}

#[test]
fn container_may_always_become_unknown() {
    for from in ALL_STATUSES {
        let mut record = record_at(from);
        assert_eq!(
            record.apply_transition(ContainerStatus::Unknown, fields(None, None, 77)),
            Ok(())
        );
        assert_eq!(record.state().status, ContainerStatus::Unknown);
    }
}

#[test]
fn container_unknown_is_left_by_a_refresh_only() {
    let mut record = record_at(ContainerStatus::Unknown);
    assert_eq!(
        record.apply_transition(ContainerStatus::Running, fields(Some(3), None, 10)),
        Err(ContainerError::InvalidTransition {
            from: ContainerStatus::Unknown,
            to: ContainerStatus::Running
        })
    );
    let seen = ContainerState {
        status: ContainerStatus::Running,
        pid: Some(3),
        exit_code: None,
        timestamp: 11,
    };
    assert_eq!(record.refresh(Some(seen)), Ok(()));
    assert_eq!(record.state(), seen);
}

#[test]
fn container_transition_works_under_the_batch_lock() {
    let mut record = Container::new(config(), 0);
    assert_eq!(record.try_lock_batch(), Ok(()));
    assert_eq!(
        record.apply_transition(ContainerStatus::Initialized, fields(None, None, 1)),
        Ok(())
    );
    assert_eq!(record.state().status, ContainerStatus::Initialized);
    assert!(record.batched());
}

#[test]
fn batch_lock_goes_to_one_caller_only() {
    let mut record = Container::new(config(), 0);
    assert_eq!(record.try_lock_batch(), Ok(()));
    assert!(record.batched());
    assert_eq!(record.try_lock_batch(), Err(ContainerError::AlreadyBatched));
    assert_eq!(record.try_lock_batch(), Err(ContainerError::AlreadyBatched));
    assert!(record.batched());
    record.unlock_batch();
    assert!(!record.batched());
    assert_eq!(record.try_lock_batch(), Ok(()));
    assert!(record.batched());
}

#[test]
fn batch_lock_leaves_the_state_alone() {
    let mut record = record_at(ContainerStatus::Running);
    let before = record.state();
    assert_eq!(record.try_lock_batch(), Ok(()));
    assert_eq!(record.state(), before);
    assert_eq!(record.try_lock_batch(), Err(ContainerError::AlreadyBatched));
    assert_eq!(record.state(), before);
    record.unlock_batch();
    assert_eq!(record.state(), before);
}

#[test]
fn batch_unlock_of_a_free_record_changes_nothing() {
    let mut record = Container::new(config(), 3);
    let before = record.state();
    record.unlock_batch();
    assert!(!record.batched());
    assert_eq!(record.state(), before);
}

#[test]
fn refresh_takes_over_what_the_runtime_reports() {
    let mut record = Container::new(config(), 0);
    let seen = ContainerState {
        status: ContainerStatus::Exited,
        pid: None,
        exit_code: Some(2),
        timestamp: 900,
    };
    assert_eq!(record.refresh(Some(seen)), Ok(()));
    assert_eq!(record.state(), seen);
    assert!(!record.batched());
}

#[test]
fn refresh_without_a_report_leaves_the_status_unknown() {
    let mut record = record_at(ContainerStatus::Running);
    let before = record.state();
    assert_eq!(record.refresh(None), Ok(()));
    assert_eq!(
        record.state(),
        ContainerState { status: ContainerStatus::Unknown, ..before }
    );
}

#[test]
fn refresh_leaves_a_batched_record_alone() {
    let mut record = record_at(ContainerStatus::Running);
    let before = record.state();
    assert_eq!(record.try_lock_batch(), Ok(()));
    let seen = ContainerState {
        status: ContainerStatus::Exited,
        pid: None,
        exit_code: Some(1),
        timestamp: 50,
    };
    assert_eq!(record.refresh(Some(seen)), Err(ContainerError::AlreadyBatched));
    assert_eq!(record.state(), before);
    assert_eq!(record.refresh(None), Err(ContainerError::AlreadyBatched));
    assert_eq!(record.state(), before);
    assert!(record.batched());
    record.unlock_batch();
    assert_eq!(record.refresh(Some(seen)), Ok(()));
    assert_eq!(record.state(), seen);
}

#[test]
fn persisted_state_uses_the_canonical_status_name() {
    let state = ContainerState {
        status: ContainerStatus::Exited,
        pid: None,
        exit_code: Some(137),
        timestamp: 1_700_000_000,
    };
    assert_eq!(
        state.to_persisted(),
        PersistedState {
            status: String::from("exited"),
            pid: None,
            exit_code: Some(137),
            timestamp: 1_700_000_000
        }
    );
}

#[test]
fn persisted_state_round_trips() {
    for status in ALL_STATUSES {
        let state = ContainerState {
            status,
            pid: Some(u32::MAX),
            exit_code: Some(i32::MIN),
            timestamp: u64::MAX,
        };
        assert_eq!(ContainerState::from_persisted(&state.to_persisted()), state);
    }
}

#[test]
fn persisted_state_with_a_foreign_status_reads_as_unknown() {
    for text in ["", "zombie", "Exited", "exited\u{0}"] {
        let persisted = PersistedState {
            status: String::from(text),
            pid: Some(12),
            exit_code: Some(3),
            timestamp: 8,
        };
        assert_eq!(
            ContainerState::from_persisted(&persisted),
            ContainerState {
                status: ContainerStatus::Unknown,
                pid: Some(12),
                exit_code: Some(3),
                timestamp: 8
            }
        );
    }
}
