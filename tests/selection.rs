use resy_bot::models::ResyError;
use resy_bot::selector::{contains_str, is_eligible_label, is_outdoor_lowered, SlotIndex};
use resy_bot::time_of_day::TimeOfDay;

fn t(s: &str) -> TimeOfDay {
    TimeOfDay::parse(s).unwrap()
}

fn sample_index() -> SlotIndex {
    let mut index = SlotIndex::new();
    index.insert(t("18:00"), "Indoor".to_string(), "A".to_string());
    index.insert(t("19:30"), "Outdoor Patio".to_string(), "B".to_string());
    index.insert(t("20:00"), "Indoor".to_string(), "C".to_string());
    index
}

#[test]
fn window_and_outdoor_filter_pick_later_indoor_slot() {
    let index = sample_index();
    let r = index.find_best_reservation_time(t("19:00"), t("20:30"), false);
    assert_eq!(r, Ok("C".to_string()));
}

#[test]
fn accepting_outdoor_picks_earliest_qualifying_time() {
    let index = sample_index();
    let r = index.find_best_reservation_time(t("19:00"), t("20:30"), true);
    assert_eq!(r, Ok("B".to_string()));
}

#[test]
fn window_bounds_are_inclusive() {
    let index = sample_index();
    assert_eq!(index.find_best_reservation_time(t("18:00"), t("18:00"), false), Ok("A".to_string()));
    assert_eq!(index.find_best_reservation_time(t("20:00"), t("23:59"), false), Ok("C".to_string()));
}

#[test]
fn nothing_in_window_is_cannot_find() {
    let index = sample_index();
    let r = index.find_best_reservation_time(t("21:00"), t("22:00"), true);
    assert_eq!(r, Err(ResyError::CannotFindReservation));
}

#[test]
fn empty_index_is_cannot_find() {
    let index = SlotIndex::new();
    let r = index.find_best_reservation_time(t("00:00"), t("23:59"), true);
    assert_eq!(r, Err(ResyError::CannotFindReservation));
}

#[test]
fn insertion_order_of_times_does_not_matter() {
    let mut index = SlotIndex::new();
    index.insert(t("21:00"), "Bar".to_string(), "late".to_string());
    index.insert(t("19:15"), "Dining Room".to_string(), "early".to_string());
    let r = index.find_best_reservation_time(t("19:00"), t("22:00"), false);
    assert_eq!(r, Ok("early".to_string()));
}

#[test]
fn outdoor_only_time_falls_through_to_next_time() {
    let mut index = SlotIndex::new();
    index.insert(t("19:00"), "PATIO".to_string(), "p".to_string());
    index.insert(t("19:00"), "Garden Outdoor".to_string(), "o".to_string());
    index.insert(t("19:45"), "Counter".to_string(), "c".to_string());
    let r = index.find_best_reservation_time(t("19:00"), t("20:00"), false);
    assert_eq!(r, Ok("c".to_string()));
}

#[test]
fn insert_replaces_slot_of_same_table_type() {
    let mut index = SlotIndex::new();
    index.insert(t("19:00"), "Indoor".to_string(), "old".to_string());
    index.insert(t("19:00"), "Indoor".to_string(), "new".to_string());
    assert_eq!(index.times.len(), 1);
    assert_eq!(index.times[0].tables.len(), 1);
    let r = index.find_best_reservation_time(t("19:00"), t("19:00"), false);
    assert_eq!(r, Ok("new".to_string()));
}

#[test]
fn repeated_selection_is_the_same() {
    let index = sample_index();
    for accept in [false, true] {
        let first = index.find_best_reservation_time(t("17:00"), t("21:00"), accept);
        for _ in 0..20 {
            assert_eq!(index.find_best_reservation_time(t("17:00"), t("21:00"), accept), first);
        }
    }
}

#[test]
fn selected_slot_always_lies_in_window_and_respects_outdoor_flag() {
    let index = sample_index();
    let times = ["17:00", "18:00", "19:00", "19:30", "20:00", "20:30"];
    for e in times {
        for l in times {
            for accept in [false, true] {
                let r = index.find_best_reservation_time(t(e), t(l), accept);
                if let Ok(id) = r {
                    let ts = index
                        .times
                        .iter()
                        .find(|ts| ts.tables.iter().any(|s| s.config_id == id))
                        .unwrap();
                    let m = ts.time.minutes_of_day();
                    assert!(t(e).minutes_of_day() <= m && m <= t(l).minutes_of_day());
                    if !accept {
                        assert_ne!(id, "B");
                    }
                }
            }
        }
    }
}

#[test]
fn outdoor_label_check_is_case_insensitive() {
    assert!(!is_eligible_label("Outdoor Patio", false));
    assert!(!is_eligible_label("PATIO seating", false));
    assert!(is_eligible_label("Outdoor Patio", true));
    assert!(is_eligible_label("Indoor", false));
}

#[test]
fn lowered_label_matching() {
    assert!(is_outdoor_lowered("covered patio"));
    assert!(is_outdoor_lowered("outdoor"));
    assert!(!is_outdoor_lowered("Outdoor"));
    assert!(!is_outdoor_lowered("dining room"));
}

#[test]
fn substring_search() {
    assert!(contains_str("abcde", "cde"));
    assert!(contains_str("abc", ""));
    assert!(!contains_str("ab", "abc"));
    assert!(!contains_str("abcd", "bd"));
}

#[test]
fn time_of_day_parsing() {
    assert_eq!(TimeOfDay::parse("19:30"), Some(TimeOfDay { hour: 19, minute: 30 }));
    assert_eq!(TimeOfDay::parse("9:05"), Some(TimeOfDay { hour: 9, minute: 5 }));
    assert_eq!(TimeOfDay::parse("24:00"), None);
    assert_eq!(TimeOfDay::parse("12:60"), None);
    assert_eq!(TimeOfDay::parse("1230"), None);
    assert_eq!(TimeOfDay::parse(""), None);
    assert_eq!(t("19:30").minutes_of_day(), 1170);
    assert!(t("9:30").minutes_of_day() < t("10:00").minutes_of_day());
}
