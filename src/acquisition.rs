use vstd::prelude::*;
use crate::backoff::{backoff_bounds, backoff_sleep_ms};
use crate::models::ResyError;
use crate::selector::{selection_result, SlotIndex};
use crate::time_of_day::TimeOfDay;

verus! {

/// What the driver of the acquisition loop does next.
#[derive(Debug)]
pub enum AcquireAction {
    /// Run one search against the remote service.
    Search,
    /// Pause this many milliseconds, then ask again.
    Sleep(u64),
    /// A slot was selected: the loop is over.
    Found(String),
    /// The loop is over without a slot.
    Fail(ResyError),
}

/// The acquisition loop: repeated searches and selections until a slot is
/// found, a search fails, or the deadline has passed.
#[derive(Debug, Clone, Copy)]
pub struct Acquisition {
    pub earliest: TimeOfDay,
    pub latest: TimeOfDay,
    pub accept_outdoor: bool,
    /// No search starts once this many milliseconds have elapsed.
    pub deadline_ms: u64,
}

/// A new search may start at `elapsed_ms`.
pub open spec fn search_admitted(deadline_ms: u64, elapsed_ms: u64) -> bool {
    elapsed_ms <= deadline_ms
}

impl Acquisition {
    pub fn new(
        earliest: TimeOfDay,
        latest: TimeOfDay,
        accept_outdoor: bool,
        deadline_ms: u64,
    ) -> (r: Acquisition)
        ensures
            r == (Acquisition { earliest, latest, accept_outdoor, deadline_ms }),
    {
        Acquisition { earliest, latest, accept_outdoor, deadline_ms }
    }

    /// Before each pass: search while the deadline has not passed, else give
    /// up with `NoAvailableReservations`.
    pub fn next_pass(&self, elapsed_ms: u64) -> (r: AcquireAction)
        ensures
            search_admitted(self.deadline_ms, elapsed_ms) ==> r is Search,
            !search_admitted(self.deadline_ms, elapsed_ms) ==> r == AcquireAction::Fail(
                ResyError::NoAvailableReservations,
            ),
    {
        if elapsed_ms <= self.deadline_ms {
            AcquireAction::Search
        } else {
            AcquireAction::Fail(ResyError::NoAvailableReservations)
        }
    }

    /// After a search: a transport fault ends the loop with `UnknownError`; a
    /// selected slot ends it with the slot. Otherwise a backoff pause is drawn;
    /// if it would end past the deadline the loop ends with
    /// `NoAvailableReservations`, else the driver pauses and asks again.
    pub fn on_search(&self, outcome: Result<SlotIndex, String>, elapsed_ms: u64) -> (r:
        AcquireAction)
        ensures
            outcome matches Err(msg) ==> r == AcquireAction::Fail(ResyError::UnknownError(msg)),
            outcome matches Ok(index) ==> match r {
                AcquireAction::Found(id) => selection_result(
                    index.times@,
                    self.earliest,
                    self.latest,
                    self.accept_outdoor,
                    Ok(id),
                ),
                AcquireAction::Sleep(ms) => selection_result(
                    index.times@,
                    self.earliest,
                    self.latest,
                    self.accept_outdoor,
                    Err(ResyError::CannotFindReservation),
                ) && backoff_bounds(elapsed_ms).0 <= ms < backoff_bounds(elapsed_ms).1
                    && pause_granted(self.deadline_ms, elapsed_ms, ms),
                AcquireAction::Fail(e) => selection_result(
                    index.times@,
                    self.earliest,
                    self.latest,
                    self.accept_outdoor,
                    Err(ResyError::CannotFindReservation),
                ) && e == ResyError::NoAvailableReservations && elapsed_ms + backoff_bounds(
                    elapsed_ms,
                ).1 - 1 > self.deadline_ms,
                AcquireAction::Search => false,
            },
            outcome is Ok && elapsed_ms + backoff_bounds(elapsed_ms).1 - 1 <= self.deadline_ms
                ==> !(r is Fail),
    {
        match outcome {
            Err(msg) => AcquireAction::Fail(ResyError::UnknownError(msg)),
            Ok(index) => match index.find_best_reservation_time(
                self.earliest,
                self.latest,
                self.accept_outdoor,
            ) {
                Ok(id) => AcquireAction::Found(id),
                Err(_) => {
                    let pause = backoff_sleep_ms(elapsed_ms);
                    if pause <= self.deadline_ms && elapsed_ms <= self.deadline_ms - pause {
                        AcquireAction::Sleep(pause)
                    } else {
                        AcquireAction::Fail(ResyError::NoAvailableReservations)
                    }
                },
            },
        }
    }
}

/// A pause of `ms` that begins at `elapsed_ms` ends by the deadline.
pub open spec fn pause_granted(deadline_ms: u64, elapsed_ms: u64, ms: u64) -> bool {
    elapsed_ms + ms <= deadline_ms
}

/// The acquisition loop ends in bounded time. Take the passes of one run:
/// pass `i` starts a search at `starts[i]`, admitted by the deadline, and the
/// search returns at `ends[i]`, at most `latency` later; between two passes
/// lies a pause `pauses[i]` drawn by the backoff policy and granted by the
/// deadline, and the next pass starts once it is over. Then at most
/// `deadline / 40 + 1` searches start, every search returns by
/// `deadline + latency`, and every pause is over by the deadline, so the loop
/// ends (found, failed, or refused a further pass) within the deadline plus
/// one call's latency.
pub proof fn lemma_acquisition_bounded(
    deadline_ms: u64,
    latency_ms: u64,
    starts: Seq<u64>,
    ends: Seq<u64>,
    pauses: Seq<u64>,
)
    requires
        ends.len() == starts.len(),
        pauses.len() + 1 == starts.len(),
        forall|i: int| 0 <= i < starts.len() ==> search_admitted(deadline_ms, #[trigger] starts[i]),
        forall|i: int|
            0 <= i < starts.len() ==> #[trigger] starts[i] <= ends[i] && ends[i] <= starts[i]
                + latency_ms,
        forall|i: int|
            0 <= i < pauses.len() ==> backoff_bounds(ends[i]).0 <= #[trigger] pauses[i]
                && pause_granted(deadline_ms, ends[i], pauses[i]),
        forall|i: int| 0 <= i < pauses.len() ==> starts[i + 1] >= ends[i] + #[trigger] pauses[i],
    ensures
        starts.len() <= deadline_ms / 40 + 1,
        forall|i: int| 0 <= i < ends.len() ==> #[trigger] ends[i] <= deadline_ms + latency_ms,
        forall|i: int| 0 <= i < pauses.len() ==> ends[i] + #[trigger] pauses[i] <= deadline_ms,
{
    let n = starts.len() as int;
    assert forall|i: int| 0 <= i < n implies #[trigger] starts[i] >= 40 * i by {
        lemma_starts_grow(starts, ends, pauses, i);
    }
    assert forall|i: int| 0 <= i < ends.len() implies #[trigger] ends[i] <= deadline_ms
        + latency_ms by {
        assert(search_admitted(deadline_ms, starts[i]));
    }
    if n > 0 {
        assert(starts[n - 1] <= deadline_ms);
        let d = deadline_ms as int;
        assert(40 * (n - 1) <= d);
        assert(n - 1 <= d / 40) by (nonlinear_arith)
            requires
                40 * (n - 1) <= d,
                n >= 1,
                d >= 0,
        ;
    }
}

proof fn lemma_starts_grow(starts: Seq<u64>, ends: Seq<u64>, pauses: Seq<u64>, i: int)
    requires
        0 <= i < starts.len(),
        ends.len() == starts.len(),
        pauses.len() + 1 == starts.len(),
        forall|j: int| 0 <= j < starts.len() ==> #[trigger] starts[j] <= ends[j],
        forall|j: int| 0 <= j < pauses.len() ==> backoff_bounds(ends[j]).0 <= #[trigger] pauses[j],
        forall|j: int| 0 <= j < pauses.len() ==> starts[j + 1] >= ends[j] + #[trigger] pauses[j],
    ensures
        starts[i] >= 40 * i,
    decreases i,
{
    if i > 0 {
        lemma_starts_grow(starts, ends, pauses, i - 1);
        assert(starts[i - 1] <= ends[i - 1]);
        assert(backoff_bounds(ends[i - 1]).0 <= pauses[i - 1]);
        assert(starts[i] >= ends[i - 1] + pauses[i - 1]);
    }
}

} // verus!
