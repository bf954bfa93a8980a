use vstd::prelude::*;
use rand::Rng;

verus! {

/// Elapsed time after which polling slows down.
pub const FAST_POLL_WINDOW_MS: u64 = 3000;

/// The half-open range `[lo, hi)` in milliseconds from which the pause after
/// a fruitless search is drawn, given the time elapsed since polling began.
pub open spec fn backoff_bounds(elapsed_ms: u64) -> (u64, u64) {
    if elapsed_ms < FAST_POLL_WINDOW_MS {
        (40, 60)
    } else {
        (400, 600)
    }
}

/// Relies on rand's `thread_rng().gen_range(lo..hi)`: a value drawn from
/// `[lo, hi)`; it panics on an empty range, which `requires` leaves out.
#[verifier::external_body]
fn random_in_range(lo: u64, hi: u64) -> (r: u64)
    requires
        lo < hi,
    ensures
        lo <= r < hi,
{
    rand::thread_rng().gen_range(lo..hi)
}

/// The range that the pause is drawn from: fast polling for the first three
/// seconds, slow polling after.
pub fn backoff_range(elapsed_ms: u64) -> (r: (u64, u64))
    ensures
        r == backoff_bounds(elapsed_ms),
{
    if elapsed_ms < FAST_POLL_WINDOW_MS {
        (40, 60)
    } else {
        (400, 600)
    }
}

/// A jittered pause before the next search: in `[40, 60)` ms while under three
/// seconds have elapsed, in `[400, 600)` ms after.
pub fn backoff_sleep_ms(elapsed_ms: u64) -> (r: u64)
    ensures
        backoff_bounds(elapsed_ms).0 <= r < backoff_bounds(elapsed_ms).1,
        elapsed_ms < 3000 ==> 40 <= r < 60,
        elapsed_ms >= 3000 ==> 400 <= r < 600,
{
    let (lo, hi) = backoff_range(elapsed_ms);
    random_in_range(lo, hi)
}

} // verus!
