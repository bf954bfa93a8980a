use vstd::prelude::*;
use crate::acquisition::Acquisition;
use crate::models::{BookingDetails, ResyError};
use crate::time_of_day::TimeOfDay;

verus! {

/// How long the outer loop keeps restarting the pipeline.
pub const RETRY_WINDOW_MS: u64 = 10000;

/// Pause after a failed pass of the outer loop.
pub const RETRY_PAUSE_MS: u64 = 500;

/// Deadline of the acquisition loop within one outer pass.
pub const SEARCH_DEADLINE_MS: u64 = 1000;

/// What to book: given once at startup and never changed.
#[derive(Debug, Clone)]
pub struct ReservationDetails {
    pub date: String,
    pub party_size: i32,
    pub venue_id: i32,
    pub earliest_reservation_time: TimeOfDay,
    pub latest_reservation_time: TimeOfDay,
    pub accept_outdoor: bool,
}

impl ReservationDetails {
    /// The acquisition loop that one outer pass runs for this request.
    pub fn acquisition(&self) -> (r: Acquisition)
        ensures
            r == (Acquisition {
                earliest: self.earliest_reservation_time,
                latest: self.latest_reservation_time,
                accept_outdoor: self.accept_outdoor,
                deadline_ms: SEARCH_DEADLINE_MS,
            }),
    {
        Acquisition::new(
            self.earliest_reservation_time,
            self.latest_reservation_time,
            self.accept_outdoor,
            SEARCH_DEADLINE_MS,
        )
    }
}

/// The controller's state.
#[derive(Debug, Clone, PartialEq, Eq)]
pub enum Phase {
    /// Before the grab time.
    Waiting,
    /// Running the outer loop, which began at `started_ms`.
    Retrying { started_ms: i64 },
    /// A booking was confirmed with this token.
    Succeeded(String),
    /// The outer window passed without a booking.
    Failed,
}

/// What the driver of the controller does next.
#[derive(Debug, Clone, PartialEq, Eq)]
pub enum ControllerAction {
    /// Suspend this many milliseconds, then report the clock again.
    Sleep(u64),
    /// Run one pass: search and select, fetch details, commit.
    Attempt,
    /// A terminal state was reached.
    Stop,
}

/// The scheduling controller: waits for the grab time, then restarts the
/// whole booking pipeline until it succeeds or the retry window passes.
#[derive(Debug)]
pub struct ResyBookingWorkflow {
    pub reservation_details: ReservationDetails,
    /// The grab time, in milliseconds since the Unix epoch.
    pub grab_time_ms: i64,
    pub phase: Phase,
}

/// The controller's step when the clock reads `now_ms`.
pub open spec fn clock_step(grab_time_ms: i64, phase: Phase, now_ms: i64) -> (Phase, ControllerAction) {
    match phase {
        Phase::Waiting => if now_ms < grab_time_ms {
            (Phase::Waiting, ControllerAction::Sleep((grab_time_ms - now_ms) as u64))
        } else {
            (Phase::Retrying { started_ms: now_ms }, ControllerAction::Attempt)
        },
        Phase::Retrying { started_ms } => if started_ms <= now_ms && now_ms - started_ms
            < RETRY_WINDOW_MS {
            (phase, ControllerAction::Attempt)
        } else if now_ms < started_ms {
            (phase, ControllerAction::Sleep(RETRY_PAUSE_MS))
        } else {
            (Phase::Failed, ControllerAction::Stop)
        },
        _ => (phase, ControllerAction::Stop),
    }
}

/// The controller's step when a pass has ended with `result`.
pub open spec fn attempt_step(phase: Phase, result: Result<String, ResyError>) -> (Phase, ControllerAction) {
    match phase {
        Phase::Retrying { .. } => match result {
            Ok(token) => (Phase::Succeeded(token), ControllerAction::Stop),
            Err(_) => (phase, ControllerAction::Sleep(RETRY_PAUSE_MS)),
        },
        Phase::Waiting => (phase, ControllerAction::Sleep(0)),
        _ => (phase, ControllerAction::Stop),
    }
}

impl ResyBookingWorkflow {
    /// The outer loop only ever runs after the grab time.
    pub open spec fn wf(&self) -> bool {
        self.phase matches Phase::Retrying { started_ms } ==> started_ms >= self.grab_time_ms
    }

    pub fn new(reservation_details: ReservationDetails, grab_time_ms: i64) -> (r: Self)
        ensures
            r.wf(),
            r.reservation_details == reservation_details,
            r.grab_time_ms == grab_time_ms,
            r.phase == Phase::Waiting,
    {
        ResyBookingWorkflow { reservation_details, grab_time_ms, phase: Phase::Waiting }
    }

    /// Milliseconds still to wait before the grab time; zero once it has come.
    pub fn wait_until_grab_time(&self, now_ms: i64) -> (r: u64)
        ensures
            r as int == (if now_ms < self.grab_time_ms {
                self.grab_time_ms - now_ms
            } else {
                0
            }),
    {
        if now_ms < self.grab_time_ms {
            (self.grab_time_ms as i128 - now_ms as i128) as u64
        } else {
            0
        }
    }

    /// Advances the controller on a clock reading: sleeps until the grab time,
    /// starts the outer loop there, and ends it once the retry window has
    /// passed.
    pub fn on_clock(&mut self, now_ms: i64) -> (r: ControllerAction)
        requires
            old(self).wf(),
        ensures
            final(self).wf(),
            final(self).reservation_details == old(self).reservation_details,
            final(self).grab_time_ms == old(self).grab_time_ms,
            (final(self).phase, r) == clock_step(old(self).grab_time_ms, old(self).phase, now_ms),
            r is Attempt ==> now_ms >= old(self).grab_time_ms,
    {
        match self.phase {
            Phase::Waiting => {
                if now_ms < self.grab_time_ms {
                    ControllerAction::Sleep(self.wait_until_grab_time(now_ms))
                } else {
                    self.phase = Phase::Retrying { started_ms: now_ms };
                    ControllerAction::Attempt
                }
            },
            Phase::Retrying { started_ms } => {
                if started_ms <= now_ms && (now_ms as i128 - started_ms as i128)
                    < RETRY_WINDOW_MS as i128 {
                    ControllerAction::Attempt
                } else if now_ms < started_ms {
                    ControllerAction::Sleep(RETRY_PAUSE_MS)
                } else {
                    self.phase = Phase::Failed;
                    ControllerAction::Stop
                }
            },
            _ => ControllerAction::Stop,
        }
    }

    /// Advances the controller when a pass has ended: success ends the run,
    /// a failure pauses before the next pass.
    pub fn on_attempt(&mut self, result: Result<String, ResyError>) -> (r: ControllerAction)
        requires
            old(self).wf(),
        ensures
            final(self).wf(),
            final(self).reservation_details == old(self).reservation_details,
            final(self).grab_time_ms == old(self).grab_time_ms,
            (final(self).phase, r) == attempt_step(old(self).phase, result),
            !(r is Attempt),
    {
        match self.phase {
            Phase::Retrying { .. } => match result {
                Ok(token) => {
                    self.phase = Phase::Succeeded(token);
                    ControllerAction::Stop
                },
                Err(_) => ControllerAction::Sleep(RETRY_PAUSE_MS),
            },
            Phase::Waiting => ControllerAction::Sleep(0),
            _ => ControllerAction::Stop,
        }
    }
}

/// The next step of one pass of the pipeline: search and select, fetch the
/// booking details for the selected slot, commit with exactly those details.
#[derive(Debug)]
pub enum PassAction {
    /// Fetch booking details for this slot.
    FetchDetails(String),
    /// Commit with these details, fetched in this pass.
    Commit(BookingDetails),
    /// The pass is over with this result.
    Finish(Result<String, ResyError>),
}

/// After the acquisition loop: fetch details for the slot, or end the pass.
pub fn after_search(found: Result<String, ResyError>) -> (r: PassAction)
    ensures
        match found {
            Ok(id) => r == PassAction::FetchDetails(id),
            Err(e) => r == PassAction::Finish(Err(e)),
        },
{
    match found {
        Ok(id) => PassAction::FetchDetails(id),
        Err(e) => PassAction::Finish(Err(e)),
    }
}

/// After the detail fetch: commit with the details just fetched, never with
/// details of an earlier pass, or end the pass.
pub fn after_details(details: Result<BookingDetails, ResyError>) -> (r: PassAction)
    ensures
        match details {
            Ok(d) => r == PassAction::Commit(d),
            Err(e) => r == PassAction::Finish(Err(e)),
        },
{
    match details {
        Ok(d) => PassAction::Commit(d),
        Err(e) => PassAction::Finish(Err(e)),
    }
}

/// After the commit: the pass is over with its result.
pub fn after_commit(confirmation: Result<String, ResyError>) -> (r: PassAction)
    ensures
        r == PassAction::Finish(confirmation),
{
    PassAction::Finish(confirmation)
}

/// The controller never starts a pass before the grab time: from any
/// well-formed state, a clock reading earlier than the grab time yields no
/// `Attempt`, and the end of a pass never yields one directly.
pub proof fn lemma_no_attempt_before_grab(
    wf_state: ResyBookingWorkflow,
    now_ms: i64,
    result: Result<String, ResyError>,
)
    requires
        wf_state.wf(),
    ensures
        clock_step(wf_state.grab_time_ms, wf_state.phase, now_ms).1 is Attempt ==> now_ms
            >= wf_state.grab_time_ms,
        !(attempt_step(wf_state.phase, result).1 is Attempt),
        clock_step(wf_state.grab_time_ms, wf_state.phase, now_ms).0 matches Phase::Retrying {
            started_ms,
        } ==> started_ms >= wf_state.grab_time_ms,
{
}

} // verus!
