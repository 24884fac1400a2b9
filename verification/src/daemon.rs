//! The polling daemon as a machine: each step takes what the outside world
//! reported and answers with the next thing to do.

use vstd::prelude::*;
use crate::error::TeslaError;
use crate::poll::PollState;
use crate::text::same_text;

verus! {

/// Where the daemon stands in its cycle.
#[derive(Debug, Clone, Copy, PartialEq, Eq, Structural)]
pub enum Phase {
    /// At the top of a cycle, about to look at the stop flag.
    Idle,
    /// The credential is being checked and, where it is stale, renewed.
    Refreshing,
    /// The vehicle's status is being fetched.
    FetchingStatus,
    /// The full telemetry is being fetched.
    FetchingTelemetry,
    /// The snapshot is being handed to the sink.
    Saving,
    /// The daemon waits for the current interval.
    Sleeping,
    /// A stop was asked for and the sink was told to shut down.
    Stopped,
}

/// How a cycle ended.
#[derive(Debug, Clone, Copy, PartialEq, Eq, Structural)]
pub enum CycleEnd {
    /// The snapshot reached the sink.
    Saved,
    /// The credential could not be renewed.
    RefreshFailed,
    /// The status could not be fetched.
    StatusFailed,
    /// The vehicle is reachable through the service but not online.
    NotOnline,
    /// The telemetry could not be fetched.
    TelemetryFailed,
}

/// What the outside world reports to the daemon.
#[derive(Debug, Clone, PartialEq, Eq)]
pub enum Event {
    /// The stop flag was read; `true` means that a stop was asked for.
    Cancellation(bool),
    /// The credential check ended; `true` means that a valid credential is
    /// at hand.
    Refreshed(bool),
    /// The status fetch ended: the connectivity state, or `None` where the
    /// fetch failed.
    Status(Option<String>),
    /// The telemetry fetch ended; `true` means that a snapshot is at hand.
    Telemetry(bool),
    /// The sink took the snapshot.
    Saved,
}

/// What an `Event` holds, as a mathematical value.
pub enum EventModel {
    Cancellation(bool),
    Refreshed(bool),
    Status(Option<Seq<char>>),
    Telemetry(bool),
    Saved,
}

impl View for Event {
    type V = EventModel;

    open spec fn view(&self) -> EventModel {
        match self {
            Event::Cancellation(stop) => EventModel::Cancellation(*stop),
            Event::Refreshed(ok) => EventModel::Refreshed(*ok),
            Event::Status(Some(state)) => EventModel::Status(Some(state@)),
            Event::Status(None) => EventModel::Status(None),
            Event::Telemetry(ok) => EventModel::Telemetry(*ok),
            Event::Saved => EventModel::Saved,
        }
    }
}

/// What the daemon asks the outside world to do next.
#[derive(Debug, Clone, Copy, PartialEq, Eq, Structural)]
pub enum Action {
    /// Read the stop flag and report `Cancellation`.
    CheckCancellation,
    /// Run the credential check and report `Refreshed`.
    Refresh,
    /// Fetch the vehicle's status and report `Status`.
    FetchStatus,
    /// Fetch the full telemetry and report `Telemetry`.
    FetchTelemetry,
    /// Hand the snapshot to the sink and report `Saved`.
    Save,
    /// Wait that many seconds, then read the stop flag and report
    /// `Cancellation`. The second field says how the cycle ended.
    Sleep(u64, CycleEnd),
    /// Shut the sink down and leave.
    Shutdown,
}

/// The connectivity state in which a vehicle answers telemetry requests.
pub open spec fn online_state() -> Seq<char> {
    "online"@
}

/// Whether a connectivity state is the one in which the vehicle answers
/// telemetry requests.
pub fn is_online(state: &str) -> (online: bool)
    ensures
        online == (state@ == online_state()),
{
    same_text(state, "online")
}

/// The daemon's state: its place in the cycle and its polling interval.
#[derive(Debug, Clone, Copy, PartialEq, Eq, Structural)]
pub struct Scheduler {
    pub phase: Phase,
    pub poll: PollState,
}

/// The state in which a failed cycle leaves the daemon.
pub open spec fn failed(s: Scheduler, now: u64) -> Scheduler {
    Scheduler { phase: Phase::Sleeping, poll: s.poll.backed_off(now) }
}

/// The action that follows a failed cycle.
pub open spec fn sleep_after_failure(s: Scheduler, now: u64, end: CycleEnd) -> Action {
    Action::Sleep(s.poll.backed_off(now).current_interval, end)
}

/// The daemon's transition rule: the state and the action that follow from
/// a state and an event at time `now`, or `None` where the event answers no
/// action that the state could have asked for.
pub open spec fn transition(s: Scheduler, event: EventModel, now: u64) -> Option<
    (Scheduler, Action),
> {
    match (s.phase, event) {
        (Phase::Idle, EventModel::Cancellation(false)) => Some(
            (Scheduler { phase: Phase::Refreshing, ..s }, Action::Refresh),
        ),
        (Phase::Idle, EventModel::Cancellation(true)) => Some(
            (Scheduler { phase: Phase::Stopped, ..s }, Action::Shutdown),
        ),
        (Phase::Refreshing, EventModel::Refreshed(true)) => Some(
            (Scheduler { phase: Phase::FetchingStatus, ..s }, Action::FetchStatus),
        ),
        (Phase::Refreshing, EventModel::Refreshed(false)) => Some(
            (failed(s, now), sleep_after_failure(s, now, CycleEnd::RefreshFailed)),
        ),
        (Phase::FetchingStatus, EventModel::Status(Some(state))) => if state == online_state() {
            Some((Scheduler { phase: Phase::FetchingTelemetry, ..s }, Action::FetchTelemetry))
        } else {
            Some((failed(s, now), sleep_after_failure(s, now, CycleEnd::NotOnline)))
        },
        (Phase::FetchingStatus, EventModel::Status(None)) => Some(
            (failed(s, now), sleep_after_failure(s, now, CycleEnd::StatusFailed)),
        ),
        (Phase::FetchingTelemetry, EventModel::Telemetry(true)) => Some(
            (Scheduler { phase: Phase::Saving, ..s }, Action::Save),
        ),
        (Phase::FetchingTelemetry, EventModel::Telemetry(false)) => Some(
            (failed(s, now), sleep_after_failure(s, now, CycleEnd::TelemetryFailed)),
        ),
        (Phase::Saving, EventModel::Saved) => Some(
            (
                Scheduler { phase: Phase::Sleeping, poll: s.poll.restored(now) },
                Action::Sleep(s.poll.default_interval, CycleEnd::Saved),
            ),
        ),
        (Phase::Sleeping, EventModel::Cancellation(false)) => Some(
            (Scheduler { phase: Phase::Idle, ..s }, Action::CheckCancellation),
        ),
        (Phase::Sleeping, EventModel::Cancellation(true)) => Some(
            (Scheduler { phase: Phase::Stopped, ..s }, Action::Shutdown),
        ),
        _ => None,
    }
}

impl Scheduler {
    /// The polling interval is within its bounds.
    pub open spec fn wf(self) -> bool {
        self.poll.wf()
    }

    /// A daemon at the top of its first cycle, with the action that starts
    /// it.
    pub fn start(poll: PollState) -> (begun: (Scheduler, Action))
        ensures
            begun.0 == (Scheduler { phase: Phase::Idle, poll }),
            begun.1 == Action::CheckCancellation,
    {
        (Scheduler { phase: Phase::Idle, poll }, Action::CheckCancellation)
    }

    /// Takes one event at time `now`. Where the rule has a transition for
    /// it, the daemon moves on and the next action is returned. Where it has
    /// none, the daemon stays as it was and a `SystemError` is returned.
    pub fn step(&mut self, event: &Event, now: u64) -> (next: Result<Action, TeslaError>)
        requires
            old(self).wf(),
            old(self).poll.fits(now),
        ensures
            final(self).wf(),
            match transition(*old(self), event@, now) {
                Some((state, action)) => *final(self) == state && next == Ok::<
                    Action,
                    TeslaError,
                >(action),
                None => *final(self) == *old(self) && next is Err && next->Err_0 is SystemError,
            },
    {
        match (self.phase, event) {
            (Phase::Idle, Event::Cancellation(false)) => {
                self.phase = Phase::Refreshing;
                Ok(Action::Refresh)
            },
            (Phase::Idle, Event::Cancellation(true)) => {
                self.phase = Phase::Stopped;
                Ok(Action::Shutdown)
            },
            (Phase::Refreshing, Event::Refreshed(true)) => {
                self.phase = Phase::FetchingStatus;
                Ok(Action::FetchStatus)
            },
            (Phase::Refreshing, Event::Refreshed(false)) => Ok(
                self.fail(now, CycleEnd::RefreshFailed),
            ),
            (Phase::FetchingStatus, Event::Status(Some(state))) => {
                if is_online(state.as_str()) {
                    self.phase = Phase::FetchingTelemetry;
                    Ok(Action::FetchTelemetry)
                } else {
                    Ok(self.fail(now, CycleEnd::NotOnline))
                }
            },
            (Phase::FetchingStatus, Event::Status(None)) => Ok(
                self.fail(now, CycleEnd::StatusFailed),
            ),
            (Phase::FetchingTelemetry, Event::Telemetry(true)) => {
                self.phase = Phase::Saving;
                Ok(Action::Save)
            },
            (Phase::FetchingTelemetry, Event::Telemetry(false)) => Ok(
                self.fail(now, CycleEnd::TelemetryFailed),
            ),
            (Phase::Saving, Event::Saved) => {
                self.poll.restore(now);
                self.phase = Phase::Sleeping;
                Ok(Action::Sleep(self.poll.current_interval, CycleEnd::Saved))
            },
            (Phase::Sleeping, Event::Cancellation(false)) => {
                self.phase = Phase::Idle;
                Ok(Action::CheckCancellation)
            },
            (Phase::Sleeping, Event::Cancellation(true)) => {
                self.phase = Phase::Stopped;
                Ok(Action::Shutdown)
            },
            _ => Err(TeslaError::SystemError),
        }
    }

    fn fail(&mut self, now: u64, end: CycleEnd) -> (action: Action)
        requires
            old(self).wf(),
            old(self).poll.fits(now),
        ensures
            *final(self) == failed(*old(self), now),
            action == sleep_after_failure(*old(self), now, end),
            final(self).wf(),
    {
        self.poll.back_off(now);
        self.phase = Phase::Sleeping;
        Action::Sleep(self.poll.current_interval, end)
    }
}

/// Once stopped, the daemon takes no further event: nothing follows the
/// one `Shutdown`.
pub proof fn lemma_stopped_is_final(s: Scheduler, event: EventModel, now: u64)
    requires
        s.phase == Phase::Stopped,
    ensures
        transition(s, event, now) is None,
{
}

/// The sink is shut down exactly when the daemon stops, and the daemon
/// stops only where the stop flag was found set, at the top of a cycle or
/// after a sleep.
pub proof fn lemma_shutdown_on_stop_only(s: Scheduler, event: EventModel, now: u64)
    requires
        transition(s, event, now) is Some,
    ensures
        ({
            let (after, action) = transition(s, event, now)->0;
            &&& action == Action::Shutdown <==> after.phase == Phase::Stopped
            &&& after.phase == Phase::Stopped ==> event == EventModel::Cancellation(true) && (
            s.phase == Phase::Idle || s.phase == Phase::Sleeping)
        }),
{
}

/// A set stop flag ends the daemon at either checkpoint, whatever the
/// polling interval.
pub proof fn lemma_cancellation_stops(s: Scheduler, now: u64)
    requires
        s.phase == Phase::Idle || s.phase == Phase::Sleeping,
    ensures
        transition(s, EventModel::Cancellation(true), now) == Some(
            (Scheduler { phase: Phase::Stopped, ..s }, Action::Shutdown),
        ),
{
}

/// The sink is handed a snapshot only after a telemetry fetch that
/// succeeded, and the telemetry is fetched only after a status that says
/// `online`.
pub proof fn lemma_sink_needs_telemetry(s: Scheduler, event: EventModel, now: u64)
    requires
        transition(s, event, now) is Some,
    ensures
        ({
            let (after, action) = transition(s, event, now)->0;
            &&& action == Action::Save ==> s.phase == Phase::FetchingTelemetry && event
                == EventModel::Telemetry(true)
            &&& action == Action::FetchTelemetry ==> s.phase == Phase::FetchingStatus && event
                == EventModel::Status(Some(online_state()))
        }),
{
}

/// Every cycle that does not reach the sink lengthens the pause, and the
/// one that does makes it the default again.
pub proof fn lemma_cycle_end_sets_interval(s: Scheduler, event: EventModel, now: u64)
    requires
        transition(s, event, now) is Some,
    ensures
        ({
            let (after, action) = transition(s, event, now)->0;
            match action {
                Action::Sleep(seconds, CycleEnd::Saved) => after.poll == s.poll.restored(now)
                    && seconds == s.poll.default_interval,
                Action::Sleep(seconds, _) => after.poll == s.poll.backed_off(now) && seconds
                    == after.poll.current_interval,
                _ => after.poll == s.poll,
            }
        }),
{
}

} // verus!
