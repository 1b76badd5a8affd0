//! Waiting for a container to show a status.
//!
//! The kernel tells nobody when a process changes, so a wait polls: it looks at
//! the record, lets some time pass, asks the runtime again, and looks again,
//! until the record shows a status that is waited for, the time is up, the
//! container is gone or the caller gives up. The engine here decides; it
//! neither sleeps nor asks the runtime. It says what is to be done next, the
//! caller does it and reports back.

use crate::container::{Container, ContainerState, ContainerView};
use crate::error::ContainerError;
use crate::types::container_status::ContainerStatus;
use vstd::prelude::*;

verus! {

/// The default interval between container status checks while waiting, in
/// milliseconds.
pub const DEFAULT_WAIT_INTERVAL_MS: u64 = 250;

/// What the engine asks its caller to do next.
#[derive(Debug, Clone, Copy, PartialEq, Eq)]
pub enum WaitAction {
    /// Let this many milliseconds pass, then report [`WaitEvent::Slept`].
    Sleep(u64),
    /// Ask the runtime about the container, then report what came of it.
    Refresh,
    /// Stop: the wait is over, with this result.
    Finish(Result<ContainerStatus, ContainerError>),
}

/// What the caller reports to the engine.
#[derive(Debug, Clone, Copy, PartialEq, Eq)]
pub enum WaitEvent {
    /// The time asked for has passed.
    Slept,
    /// The runtime was asked. It reported the state within, or, with `None`,
    /// could not report.
    Inspected(Option<ContainerState>),
    /// The container is no longer in the index that backs the records.
    NotFound,
    /// The caller abandons the wait.
    Cancelled,
}

/// The poll interval that a wait uses when asked for `interval`. Polling
/// without any delay would spin, so a wait asked for no delay uses the default.
pub open spec fn effective_interval(interval: nat) -> nat {
    if interval == 0 {
        DEFAULT_WAIT_INTERVAL_MS as nat
    } else {
        interval
    }
}

/// The value of a [`WaitEngine`]. Times are in milliseconds.
pub struct WaitView {
    /// The statuses waited for.
    pub targets: Seq<ContainerStatus>,
    /// How long the wait may sleep in all.
    pub timeout: nat,
    /// How long it sleeps between two looks at most.
    pub interval: nat,
    /// How long it has slept so far.
    pub elapsed: nat,
    /// How often the runtime has been asked so far.
    pub refreshes: nat,
    /// What the caller is to do next.
    pub pending: WaitAction,
}

impl WaitView {
    /// What holds of every wait: it never sleeps past its timeout, every sleep
    /// it asks for is longer than nothing and no longer than the interval, and
    /// it asks the runtime only after it has slept.
    pub open spec fn wf(self) -> bool {
        &&& 0 < self.interval <= u64::MAX
        &&& self.elapsed <= self.timeout <= u64::MAX
        &&& self.refreshes <= self.elapsed
        &&& match self.pending {
            WaitAction::Sleep(delay) => 0 < delay <= self.interval && self.elapsed + delay
                <= self.timeout,
            WaitAction::Refresh => self.refreshes < self.elapsed,
            WaitAction::Finish(_) => true,
        }
    }

    /// What is to be done once the record shows `status`: stop with success
    /// if it is waited for, stop with a timeout if no time is left, else sleep
    /// for the interval or for the time that is left, whichever is shorter.
    pub open spec fn decide(self, status: ContainerStatus) -> WaitAction {
        if self.targets.contains(status) {
            WaitAction::Finish(Ok(status))
        } else if self.elapsed >= self.timeout {
            WaitAction::Finish(Err(ContainerError::Timeout))
        } else if self.interval <= self.timeout - self.elapsed {
            WaitAction::Sleep(self.interval as u64)
        } else {
            WaitAction::Sleep((self.timeout - self.elapsed) as u64)
        }
    }

    /// A wait that begins on a record that shows `status`.
    pub open spec fn start(
        status: ContainerStatus,
        targets: Seq<ContainerStatus>,
        timeout: nat,
        interval: nat,
    ) -> WaitView {
        let fresh = WaitView {
            targets,
            timeout,
            interval: effective_interval(interval),
            elapsed: 0,
            refreshes: 0,
            pending: WaitAction::Refresh,
        };
        WaitView { pending: fresh.decide(status), ..fresh }
    }

    /// The wait and the record after `event`.
    ///
    /// A wait that is over stays as it is. Any other wait ends when it is
    /// cancelled. A report of sleep counts the time if a sleep was asked for.
    /// A report from the runtime, if one was asked for, is taken over into
    /// the record, unless a batch holds it, and the wait decides by what the
    /// record then shows. A container that is gone ends the wait. An event
    /// that answers nothing the engine asked for changes nothing.
    pub open spec fn step(self, record: ContainerView, event: WaitEvent) -> (
        WaitView,
        ContainerView,
    ) {
        match (self.pending, event) {
            (WaitAction::Finish(_), _) => (self, record),
            (_, WaitEvent::Cancelled) => (
                WaitView { pending: WaitAction::Finish(Err(ContainerError::Cancelled)), ..self },
                record,
            ),
            (WaitAction::Sleep(delay), WaitEvent::Slept) => (
                WaitView {
                    elapsed: self.elapsed + delay as nat,
                    pending: WaitAction::Refresh,
                    ..self
                },
                record,
            ),
            (WaitAction::Refresh, WaitEvent::Inspected(observed)) => {
                let seen = record.refresh(observed).0;
                (self.refreshed(seen.state.status), seen)
            },
            (WaitAction::Refresh, WaitEvent::NotFound) => (
                WaitView {
                    refreshes: self.refreshes + 1,
                    pending: WaitAction::Finish(Err(ContainerError::Removed)),
                    ..self
                },
                record,
            ),
            _ => (self, record),
        }
    }

    /// The wait after the runtime was asked and the record then shows `status`.
    pub open spec fn refreshed(self, status: ContainerStatus) -> WaitView {
        let counted = WaitView { refreshes: self.refreshes + 1, ..self };
        WaitView { pending: counted.decide(status), ..counted }
    }
}

impl WaitView {
    /// One round of polling: the sleep that is pending passes, then the
    /// runtime is asked and answers with `observed`.
    pub open spec fn poll(self, record: ContainerView, observed: Option<ContainerState>) -> (
        WaitView,
        ContainerView,
    ) {
        let slept = self.step(record, WaitEvent::Slept);
        slept.0.step(slept.1, WaitEvent::Inspected(observed))
    }

    /// Rounds of polling, one for each of `observations` in turn.
    pub open spec fn polls(
        self,
        record: ContainerView,
        observations: Seq<Option<ContainerState>>,
    ) -> (WaitView, ContainerView)
        decreases observations.len(),
    {
        if observations.len() == 0 {
            (self, record)
        } else {
            let before = self.polls(record, observations.drop_last());
            before.0.poll(before.1, observations.last())
        }
    }

    /// A wait begins well-formed.
    pub proof fn lemma_start_is_well_formed(
        status: ContainerStatus,
        targets: Seq<ContainerStatus>,
        timeout: nat,
        interval: nat,
    )
        requires
            timeout <= u64::MAX,
            interval <= u64::MAX,
        ensures
            WaitView::start(status, targets, timeout, interval).wf(),
    {
    }

    /// A wait stays well-formed whatever is reported to it. So it never asks
    /// for a sleep of no length or of more than its interval, never sleeps
    /// past its timeout, and never asks the runtime twice without a sleep in
    /// between.
    pub proof fn lemma_step_preserves_well_formedness(
        wait: WaitView,
        record: ContainerView,
        event: WaitEvent,
    )
        requires
            wait.wf(),
        ensures
            wait.step(record, event).0.wf(),
            wait.step(record, event).0.pending is Refresh ==> wait.pending is Sleep || wait.pending
                is Refresh,
    {
    }

    /// A wait on a record that already shows a status waited for is over at
    /// once, with that status: nobody sleeps and nobody asks the runtime,
    /// whatever the timeout, be it zero.
    pub proof fn lemma_satisfied_wait_finishes_at_once(
        status: ContainerStatus,
        targets: Seq<ContainerStatus>,
        timeout: nat,
        interval: nat,
    )
        requires
            targets.contains(status),
        ensures
            WaitView::start(status, targets, timeout, interval).pending == WaitAction::Finish(
                Ok(status),
            ),
            WaitView::start(status, targets, timeout, interval).elapsed == 0,
            WaitView::start(status, targets, timeout, interval).refreshes == 0,
    {
    }

    /// A wait with no time at all is over at once as well: with a timeout,
    /// if the record does not show a status waited for.
    pub proof fn lemma_wait_without_time_finishes_at_once(
        status: ContainerStatus,
        targets: Seq<ContainerStatus>,
        interval: nat,
    )
        requires
            !targets.contains(status),
        ensures
            WaitView::start(status, targets, 0, interval).pending == WaitAction::Finish(
                Err(ContainerError::Timeout),
            ),
    {
    }

    /// A wait that is over stays over: whatever is reported to it, it asks
    /// for nothing more, counts nothing more and leaves the record alone.
    pub proof fn lemma_finished_wait_is_final(
        wait: WaitView,
        record: ContainerView,
        event: WaitEvent,
    )
        requires
            wait.pending is Finish,
        ensures
            wait.step(record, event) == (wait, record),
    {
    }

    /// Cancelling ends a wait that is not over yet, without a look at the
    /// runtime and without a change to the record. By
    /// [`Self::lemma_finished_wait_is_final`] nothing is asked of the runtime
    /// or recorded afterwards either.
    pub proof fn lemma_cancelled_wait_is_over(wait: WaitView, record: ContainerView)
        requires
            !(wait.pending is Finish),
        ensures
            wait.step(record, WaitEvent::Cancelled).0.pending == WaitAction::Finish(
                Err(ContainerError::Cancelled),
            ),
            wait.step(record, WaitEvent::Cancelled).0.refreshes == wait.refreshes,
            wait.step(record, WaitEvent::Cancelled).1 == record,
    {
    }

    /// A wait that never sees a status it waits for gives up exactly when it
    /// has slept for its timeout.
    ///
    /// Let the wait poll once for each of `observations`, none of which
    /// brings a status waited for onto the record. While the polls made so
    /// far, each an interval apart, do not fill the timeout, the wait goes on
    /// sleeping. With the first poll that reaches the timeout it ends with
    /// `Timeout`, having slept for the timeout exactly and asked the runtime
    /// once per poll. A record that a batch holds is the same afterwards.
    pub proof fn lemma_stuck_wait_times_out(
        record: ContainerView,
        targets: Seq<ContainerStatus>,
        timeout: nat,
        interval: nat,
        observations: Seq<Option<ContainerState>>,
    )
        requires
            timeout <= u64::MAX,
            interval <= u64::MAX,
            !targets.contains(record.state.status),
            forall|i: int|
                0 <= i < observations.len() ==> !targets.contains(
                    #[trigger] record.refresh(observations[i]).0.state.status,
                ),
        ensures
            ({
                let polls = observations.len();
                let pace = effective_interval(interval);
                let (wait, after) = WaitView::start(
                    record.state.status,
                    targets,
                    timeout,
                    interval,
                ).polls(record, observations);
                &&& wait.targets == targets
                &&& wait.timeout == timeout
                &&& wait.interval == pace
                &&& after.batched == record.batched
                &&& record.batched ==> after == record
                &&& polls * pace < timeout ==> {
                    &&& wait.pending == wait.decide(record.state.status)
                    &&& wait.pending is Sleep
                    &&& wait.elapsed == polls * pace
                    &&& wait.refreshes == polls
                }
                &&& polls * pace >= timeout && (polls == 0 || (polls - 1) * pace < timeout) ==> {
                    &&& wait.pending == WaitAction::Finish(Err(ContainerError::Timeout))
                    &&& wait.elapsed == timeout
                    &&& wait.refreshes == polls
                }
            }),
        decreases observations.len(),
    {
        let pace = effective_interval(interval);
        let first = WaitView::start(record.state.status, targets, timeout, interval);
        let polls = observations.len();
        if polls == 0 {
            assert(polls * pace == 0) by (nonlinear_arith)
                requires
                    polls == 0,
            ;
        } else {
            // The polls before the last one are as stuck as all of them.
            let earlier = observations.drop_last();
            assert forall|i: int| 0 <= i < earlier.len() implies !targets.contains(
                #[trigger] record.refresh(earlier[i]).0.state.status,
            ) by {
                assert(earlier[i] == observations[i]);
            }
            WaitView::lemma_stuck_wait_times_out(record, targets, timeout, interval, earlier);
            assert((polls - 1) * pace + pace == polls * pace) by (nonlinear_arith);
            if (polls - 1) * pace < timeout {
                // The last poll sees what the first record would have seen:
                // a free record takes any report over, a held one none.
                let before = first.polls(record, earlier);
                let seen = before.1.refresh(observations.last()).0;
                assert(seen.state.status == record.refresh(
                    observations[polls - 1],
                ).0.state.status);
            }
        }
    }
}

/// Whether `status` is among `targets`.
fn is_target(targets: &Vec<ContainerStatus>, status: ContainerStatus) -> (found: bool)
    ensures
        found == targets@.contains(status),
{
    let mut i: usize = 0;
    while i < targets.len()
        invariant
            i <= targets.len(),
            forall|j: int| 0 <= j < i ==> targets@[j] != status,
        decreases targets.len() - i,
    {
        if targets[i] == status {
            return true;
        }
        i += 1;
    }
    false
}

/// The state of one wait.
pub struct WaitEngine {
    targets: Vec<ContainerStatus>,
    timeout_ms: u64,
    interval_ms: u64,
    elapsed_ms: u64,
    refreshes: u64,
    pending: WaitAction,
}

impl View for WaitEngine {
    type V = WaitView;

    closed spec fn view(&self) -> WaitView {
        WaitView {
            targets: self.targets@,
            timeout: self.timeout_ms as nat,
            interval: self.interval_ms as nat,
            elapsed: self.elapsed_ms as nat,
            refreshes: self.refreshes as nat,
            pending: self.pending,
        }
    }
}

impl WaitEngine {
    #[verifier::type_invariant]
    spec fn well_formed(&self) -> bool {
        self@.wf()
    }

    /// What is to be done once the record shows `status`.
    fn decide(
        targets: &Vec<ContainerStatus>,
        timeout_ms: u64,
        interval_ms: u64,
        elapsed_ms: u64,
        refreshes: u64,
        status: ContainerStatus,
    ) -> (action: WaitAction)
        requires
            elapsed_ms <= timeout_ms,
        ensures
            action == (WaitView {
                targets: targets@,
                timeout: timeout_ms as nat,
                interval: interval_ms as nat,
                elapsed: elapsed_ms as nat,
                refreshes: refreshes as nat,
                pending: WaitAction::Refresh,
            }).decide(status),
    {
        if is_target(targets, status) {
            WaitAction::Finish(Ok(status))
        } else if elapsed_ms >= timeout_ms {
            WaitAction::Finish(Err(ContainerError::Timeout))
        } else if interval_ms <= timeout_ms - elapsed_ms {
            WaitAction::Sleep(interval_ms)
        } else {
            WaitAction::Sleep(timeout_ms - elapsed_ms)
        }
    }

    /// Begins a wait, on `record`, for one of `targets`, that sleeps
    /// `timeout_ms` milliseconds in all at most and `interval_ms`
    /// milliseconds at a time. With an interval of zero it sleeps
    /// [`DEFAULT_WAIT_INTERVAL_MS`] at a time.
    ///
    /// The wait looks at the record first. If it shows a status that is waited
    /// for, the wait is over before anybody has slept or asked the runtime.
    pub fn start(
        record: &Container,
        targets: Vec<ContainerStatus>,
        timeout_ms: u64,
        interval_ms: u64,
    ) -> (engine: WaitEngine)
        ensures
            engine@ == WaitView::start(
                record@.state.status,
                targets@,
                timeout_ms as nat,
                interval_ms as nat,
            ),
            targets@.contains(record@.state.status) ==> engine@.pending == WaitAction::Finish(
                Ok(record@.state.status),
            ),
    {
        let interval_ms = if interval_ms == 0 {
            DEFAULT_WAIT_INTERVAL_MS
        } else {
            interval_ms
        };
        let pending = WaitEngine::decide(
            &targets,
            timeout_ms,
            interval_ms,
            0,
            0,
            record.state().status,
        );
        WaitEngine { targets, timeout_ms, interval_ms, elapsed_ms: 0, refreshes: 0, pending }
    }

    /// What the caller is to do next.
    pub fn action(&self) -> (action: WaitAction)
        ensures
            action == self@.pending,
    {
        self.pending
    }

    /// How many milliseconds the wait has slept so far.
    pub fn elapsed_ms(&self) -> (elapsed: u64)
        ensures
            elapsed == self@.elapsed,
    {
        self.elapsed_ms
    }

    /// How often the wait has had the runtime asked so far.
    pub fn refreshes(&self) -> (refreshes: u64)
        ensures
            refreshes == self@.refreshes,
    {
        self.refreshes
    }

    /// Takes `event` into account: gives the wait as it is after it, and
    /// brings `record` up to date where the event is a report from the runtime.
    pub fn step(self, record: &mut Container, event: WaitEvent) -> (next: WaitEngine)
        ensures
            (next@, final(record)@) == self@.step(old(record)@, event),
    {
        proof {
            use_type_invariant(&self);
        }
        match (self.pending, event) {
            (WaitAction::Finish(_), _) => self,
            (_, WaitEvent::Cancelled) => WaitEngine {
                pending: WaitAction::Finish(Err(ContainerError::Cancelled)),
                ..self
            },
            (WaitAction::Sleep(delay), WaitEvent::Slept) => WaitEngine {
                elapsed_ms: self.elapsed_ms + delay,
                pending: WaitAction::Refresh,
                ..self
            },
            (WaitAction::Refresh, WaitEvent::Inspected(observed)) => {
                let _ = record.refresh(observed);
                let refreshes = self.refreshes + 1;
                let pending = WaitEngine::decide(
                    &self.targets,
                    self.timeout_ms,
                    self.interval_ms,
                    self.elapsed_ms,
                    refreshes,
                    record.state().status,
                );
                WaitEngine { refreshes, pending, ..self }
            },
            (WaitAction::Refresh, WaitEvent::NotFound) => WaitEngine {
                refreshes: self.refreshes + 1,
                pending: WaitAction::Finish(Err(ContainerError::Removed)),
                ..self
            },
            _ => self,
        }
    }
}

} // verus!
