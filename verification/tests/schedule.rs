use reepicheep::calendar::calculate_date_range_for_cycles;
use reepicheep::calendar::cycle_start_day;
use reepicheep::calendar::PlanError;
use reepicheep::plan::Medication;
use reepicheep::plan::MedicationPlan;
use reepicheep::plan::TimeOfDay;
use reepicheep::schedule::basic_message_structure;
use reepicheep::schedule::check_todays_message_status;
use reepicheep::schedule::gather_meds;
use reepicheep::schedule::in_window;
use reepicheep::schedule::message_state;
use reepicheep::schedule::MessageState;
use reepicheep::store::CycleStore;

fn med(name: &str, morning: bool, evening: bool, daily: bool, cycle_days: &[u8]) -> Medication {
    Medication {
        med_name: name.to_string(),
        morning,
        evening,
        daily,
        cycle_days: cycle_days.to_vec(),
    }
}

fn plan_with(start: &str, length: u8, cycles: u8, meds: Vec<Medication>) -> MedicationPlan {
    MedicationPlan {
        number_of_cycles: cycles,
        cycle_start_date: start.to_string(),
        length_of_cycles_in_days: length,
        meds,
    }
}

#[test]
fn window_boundaries_match_the_policy() {
    // 07:05:59 is still minute 5, 07:06:00 is minute 6, and so on: the
    // windows are defined at whole-minute granularity.
    assert_eq!(message_state(false, TimeOfDay::Morning, 7, 5), MessageState::Due);
    assert_eq!(message_state(false, TimeOfDay::Morning, 7, 6), MessageState::Pending);
    assert_eq!(message_state(false, TimeOfDay::Evening, 17, 24), MessageState::Pending);
    assert_eq!(message_state(false, TimeOfDay::Evening, 17, 25), MessageState::Due);
    assert_eq!(message_state(false, TimeOfDay::Evening, 18, 1), MessageState::Due);
    assert_eq!(message_state(false, TimeOfDay::Evening, 18, 2), MessageState::Pending);
}

#[test]
fn window_edges() {
    assert!(in_window(TimeOfDay::Morning, 7, 0));
    assert!(!in_window(TimeOfDay::Morning, 8, 0));
    assert!(!in_window(TimeOfDay::Morning, 6, 59));
    assert!(in_window(TimeOfDay::Evening, 18, 0));
    assert!(!in_window(TimeOfDay::Evening, 16, 30));
}

#[test]
fn sent_flag_is_terminal_even_inside_the_window() {
    assert_eq!(message_state(true, TimeOfDay::Morning, 7, 2), MessageState::Sent);
    assert_eq!(message_state(true, TimeOfDay::Evening, 17, 30), MessageState::Sent);
}

#[test]
fn daily_medication_is_gathered_on_every_day_of_its_slots() {
    let p = plan_with("2024-01-01", 10, 1, vec![med("Aspirin", true, true, true, &[])]);
    for offset in [0u16, 3, 250, 400] {
        assert_eq!(gather_meds(&p, TimeOfDay::Morning, offset), vec!["Aspirin".to_string()]);
        assert_eq!(gather_meds(&p, TimeOfDay::Evening, offset), vec!["Aspirin".to_string()]);
    }
}

#[test]
fn slot_flags_filter_the_gathering() {
    let p = plan_with(
        "2024-01-01",
        10,
        1,
        vec![med("MorningOnly", true, false, true, &[]), med("EveningOnly", false, true, true, &[])],
    );
    assert_eq!(gather_meds(&p, TimeOfDay::Morning, 0), vec!["MorningOnly".to_string()]);
    assert_eq!(gather_meds(&p, TimeOfDay::Evening, 0), vec!["EveningOnly".to_string()]);
}

#[test]
fn non_daily_medication_is_gathered_only_on_its_cycle_days() {
    let p = plan_with("2024-01-01", 10, 1, vec![med("Chemo", true, false, false, &[2, 5])]);
    for offset in 0u16..10 {
        let gathered = gather_meds(&p, TimeOfDay::Morning, offset);
        if offset == 2 || offset == 5 {
            assert_eq!(gathered, vec!["Chemo".to_string()]);
        } else {
            assert!(gathered.is_empty());
        }
    }
}

#[test]
fn non_daily_medication_without_cycle_days_never_fires() {
    let p = plan_with("2024-01-01", 10, 1, vec![med("Orphan", true, true, false, &[])]);
    for offset in 0u16..10 {
        assert!(gather_meds(&p, TimeOfDay::Morning, offset).is_empty());
        assert!(gather_meds(&p, TimeOfDay::Evening, offset).is_empty());
    }
}

#[test]
fn messages_list_the_medications_in_plan_order() {
    let morning = basic_message_structure(
        vec!["Aspirin".to_string(), "Ibuprofen".to_string()],
        TimeOfDay::Morning,
    );
    assert_eq!(morning, "Good morning! Please take your Aspirin, Ibuprofen.");

    let evening = basic_message_structure(vec!["Melatonin".to_string()], TimeOfDay::Evening);
    assert_eq!(evening, "Good evening! Please take your Melatonin.");
}

#[test]
fn empty_medication_list_keeps_the_trimmed_phrase() {
    // The renderer always trims the two trailing separator characters, so an
    // empty list loses the last two letters of the request phrase.
    let text = basic_message_structure(Vec::new(), TimeOfDay::Morning);
    assert_eq!(text, "Good morning! Please take you.");
}

#[test]
fn a_full_day_sends_each_reminder_exactly_once() {
    let p = plan_with("2024-01-01", 3, 1, vec![med("Aspirin", true, false, true, &[])]);
    let start = cycle_start_day(&p).expect("valid date");

    let dates = calculate_date_range_for_cycles(&p).expect("valid plan");
    assert_eq!(dates, vec![start, start + 1, start + 2]);

    let mut store = CycleStore::new();
    store.bulk_initialize(&dates);

    // First poll of 2024-01-01 lands inside the morning window.
    let rows = store.get_rows_for_date(start);
    assert_eq!(rows.len(), 1);
    let due = check_todays_message_status(&p, &rows, start, 7, 2).expect("in range");
    assert_eq!(due.len(), 1);
    assert_eq!(due[0].time_of_day, TimeOfDay::Morning);
    assert_eq!(due[0].message, "Good morning! Please take your Aspirin.");
    store.mark_sent(start, due[0].time_of_day);

    // A second poll in the same window does not resend.
    let rows = store.get_rows_for_date(start);
    let again = check_todays_message_status(&p, &rows, start, 7, 4).expect("in range");
    assert!(again.is_empty());

    // Outside every window nothing is due either.
    let later = check_todays_message_status(&p, &rows, start, 12, 0).expect("in range");
    assert!(later.is_empty());
}

#[test]
fn evening_reminder_goes_out_in_the_evening_window() {
    let p = plan_with("2024-01-01", 3, 1, vec![med("Melatonin", false, true, true, &[])]);
    let start = cycle_start_day(&p).expect("valid date");
    let mut store = CycleStore::new();
    store.bulk_initialize(&calculate_date_range_for_cycles(&p).expect("valid plan"));

    let rows = store.get_rows_for_date(start + 1);
    let due = check_todays_message_status(&p, &rows, start + 1, 17, 30).expect("in range");
    assert_eq!(due.len(), 1);
    assert_eq!(due[0].time_of_day, TimeOfDay::Evening);
    assert_eq!(due[0].message, "Good evening! Please take your Melatonin.");
}

#[test]
fn dispatch_errors_name_their_cause() {
    let bad = plan_with("01/02/2024", 3, 1, vec![med("Aspirin", true, false, true, &[])]);
    let r = check_todays_message_status(&bad, &Vec::new(), 0, 7, 2);
    assert_eq!(r.unwrap_err(), PlanError::InvalidStartDate);

    let p = plan_with("2024-01-01", 3, 1, vec![med("Aspirin", true, false, true, &[])]);
    let start = cycle_start_day(&p).expect("valid date");
    let r = check_todays_message_status(&p, &Vec::new(), start - 1, 7, 2);
    assert_eq!(r.unwrap_err(), PlanError::DateOutOfRange);
}
