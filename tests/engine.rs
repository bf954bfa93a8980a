use resy_bot::acquisition::{AcquireAction, Acquisition};
use resy_bot::backoff::{backoff_range, backoff_sleep_ms};
use resy_bot::models::ResyError;
use resy_bot::selector::SlotIndex;
use resy_bot::time_of_day::TimeOfDay;
use resy_bot::models::BookingDetails;
use resy_bot::workflow::{
    after_commit, after_details, after_search, ControllerAction, PassAction, Phase,
    ReservationDetails, ResyBookingWorkflow,
};

fn t(s: &str) -> TimeOfDay {
    TimeOfDay::parse(s).unwrap()
}

#[test]
fn backoff_stays_in_its_bounds() {
    for elapsed in [0u64, 1, 1500, 2999] {
        for _ in 0..500 {
            let d = backoff_sleep_ms(elapsed);
            assert!((40..60).contains(&d));
        }
    }
    for elapsed in [3000u64, 3001, 10_000, u64::MAX] {
        for _ in 0..500 {
            let d = backoff_sleep_ms(elapsed);
            assert!((400..600).contains(&d));
        }
    }
    assert_eq!(backoff_range(2999), (40, 60));
    assert_eq!(backoff_range(3000), (400, 600));
}

fn index_outside_window() -> SlotIndex {
    let mut index = SlotIndex::new();
    index.insert(t("17:00"), "Indoor".to_string(), "X".to_string());
    index.insert(t("22:30"), "Indoor".to_string(), "Y".to_string());
    index
}

#[test]
fn acquisition_exhausts_deadline_with_no_available_reservations() {
    let acq = Acquisition::new(t("19:00"), t("20:30"), false, 1000);
    let latency: u64 = 7;
    let mut elapsed: u64 = 0;
    let mut searches = 0;
    let outcome = loop {
        match acq.next_pass(elapsed) {
            AcquireAction::Search => {
                searches += 1;
                elapsed += latency;
                match acq.on_search(Ok(index_outside_window()), elapsed) {
                    AcquireAction::Sleep(ms) => {
                        elapsed += ms;
                        assert!(elapsed <= 1000);
                    }
                    other => break other,
                }
            }
            other => break other,
        }
    };
    assert!(matches!(outcome, AcquireAction::Fail(ResyError::NoAvailableReservations)));
    assert!(elapsed <= 1000 + latency);
    assert!(elapsed + 60 > 1000);
    assert!(searches >= 1 && searches <= 1000 / 40 + 1);
}

#[test]
fn no_pause_is_granted_past_the_deadline() {
    let acq = Acquisition::new(t("19:00"), t("20:30"), false, 1000);
    assert!(matches!(
        acq.on_search(Ok(index_outside_window()), 990),
        AcquireAction::Fail(ResyError::NoAvailableReservations)
    ));
    for _ in 0..200 {
        match acq.on_search(Ok(index_outside_window()), 900) {
            AcquireAction::Sleep(ms) => assert!((40..60).contains(&ms)),
            other => panic!("unexpected {:?}", other),
        }
    }
}

#[test]
fn acquisition_returns_found_slot() {
    let acq = Acquisition::new(t("19:00"), t("20:30"), false, 1000);
    let mut index = SlotIndex::new();
    index.insert(t("19:45"), "Indoor".to_string(), "slot-1".to_string());
    match acq.on_search(Ok(index), 10) {
        AcquireAction::Found(id) => assert_eq!(id, "slot-1"),
        other => panic!("unexpected {:?}", other),
    }
}

#[test]
fn acquisition_aborts_on_transport_error() {
    let acq = Acquisition::new(t("19:00"), t("20:30"), false, 1000);
    match acq.on_search(Err("connection reset".to_string()), 10) {
        AcquireAction::Fail(ResyError::UnknownError(m)) => assert_eq!(m, "connection reset"),
        other => panic!("unexpected {:?}", other),
    }
}

#[test]
fn acquisition_deadline_is_inclusive() {
    let acq = Acquisition::new(t("19:00"), t("20:30"), false, 1000);
    assert!(matches!(acq.next_pass(1000), AcquireAction::Search));
    assert!(matches!(
        acq.next_pass(1001),
        AcquireAction::Fail(ResyError::NoAvailableReservations)
    ));
}

fn details() -> ReservationDetails {
    ReservationDetails {
        date: "2024-06-01".to_string(),
        party_size: 2,
        venue_id: 1505,
        earliest_reservation_time: t("19:00"),
        latest_reservation_time: t("20:30"),
        accept_outdoor: false,
    }
}

#[test]
fn controller_waits_until_grab_time() {
    let mut wf = ResyBookingWorkflow::new(details(), 10_000);
    assert_eq!(wf.wait_until_grab_time(7_500), 2_500);
    assert_eq!(wf.wait_until_grab_time(12_000), 0);
    assert_eq!(wf.on_clock(7_500), ControllerAction::Sleep(2_500));
    assert_eq!(wf.phase, Phase::Waiting);
    assert_eq!(wf.on_clock(9_999), ControllerAction::Sleep(1));
    assert_eq!(wf.on_clock(10_002), ControllerAction::Attempt);
    assert_eq!(wf.phase, Phase::Retrying { started_ms: 10_002 });
}

#[test]
fn controller_never_attempts_before_grab_time() {
    let mut wf = ResyBookingWorkflow::new(details(), 50_000);
    for now in (0..50_000).step_by(997) {
        assert_ne!(wf.on_clock(now), ControllerAction::Attempt);
    }
}

#[test]
fn grab_time_already_past_starts_at_once() {
    let mut wf = ResyBookingWorkflow::new(details(), 1_000);
    assert_eq!(wf.on_clock(5_000), ControllerAction::Attempt);
}

#[test]
fn one_failed_detail_fetch_then_success() {
    let mut wf = ResyBookingWorkflow::new(details(), 0);
    let mut failures = 0;
    let mut sleeps = 0;
    let mut now: i64 = 0;
    let mut action = wf.on_clock(now);
    let mut pass = 0;
    loop {
        match action {
            ControllerAction::Attempt => {
                pass += 1;
                let result = if pass == 1 {
                    failures += 1;
                    Err(ResyError::UnknownError("Could not find booking token".to_string()))
                } else {
                    Ok("confirmation-token".to_string())
                };
                now += 300;
                action = wf.on_attempt(result);
            }
            ControllerAction::Sleep(ms) => {
                assert_eq!(ms, 500);
                sleeps += 1;
                now += ms as i64;
                action = wf.on_clock(now);
            }
            ControllerAction::Stop => break,
        }
    }
    assert_eq!(wf.phase, Phase::Succeeded("confirmation-token".to_string()));
    assert_eq!(failures, 1);
    assert_eq!(sleeps, 1);
}

#[test]
fn controller_gives_up_after_retry_window() {
    let mut wf = ResyBookingWorkflow::new(details(), 0);
    let mut now: i64 = 0;
    let mut action = wf.on_clock(now);
    let mut passes = 0;
    while action != ControllerAction::Stop {
        match action {
            ControllerAction::Attempt => {
                passes += 1;
                now += 1000;
                action = wf.on_attempt(Err(ResyError::NoAvailableReservations));
            }
            ControllerAction::Sleep(ms) => {
                now += ms as i64;
                action = wf.on_clock(now);
            }
            ControllerAction::Stop => {}
        }
    }
    assert_eq!(wf.phase, Phase::Failed);
    assert_eq!(passes, 7);
}

#[test]
fn error_messages() {
    assert_eq!(ResyError::NoAvailableReservations.message(), "No available reservations");
    assert_eq!(ResyError::CannotFindReservation.message(), "Cannot find reservation");
    assert_eq!(
        ResyError::UnknownError("boom".to_string()).message(),
        "Unknown error: boom"
    );
    assert_eq!(
        ResyError::from_fault("x".to_string()),
        ResyError::UnknownError("x".to_string())
    );
}

#[test]
fn pass_steps_commit_with_freshly_fetched_details() {
    assert!(matches!(after_search(Ok("slot".to_string())), PassAction::FetchDetails(id) if id == "slot"));
    assert!(matches!(
        after_search(Err(ResyError::NoAvailableReservations)),
        PassAction::Finish(Err(ResyError::NoAvailableReservations))
    ));
    let d = BookingDetails { payment_method_id: 3, booking_token: "fresh".to_string() };
    match after_details(Ok(d.clone())) {
        PassAction::Commit(c) => assert_eq!(c, d),
        other => panic!("unexpected {:?}", other),
    }
    assert!(matches!(
        after_details(Err(ResyError::UnknownError("x".to_string()))),
        PassAction::Finish(Err(ResyError::UnknownError(_)))
    ));
    assert!(matches!(after_commit(Ok("RT".to_string())), PassAction::Finish(Ok(t)) if t == "RT"));
}
