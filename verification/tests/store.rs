use reepicheep::plan::TimeOfDay;
use reepicheep::store::CyclePlan;
use reepicheep::store::CycleStore;

fn initialized_store(dates: &[i64]) -> CycleStore {
    let mut store = CycleStore::new();
    store.bulk_initialize(&dates.to_vec());
    store
}

#[test]
fn bulk_initialize_creates_one_unsent_row_per_date() {
    let store = initialized_store(&[10, 11, 12]);
    for d in [10i64, 11, 12] {
        let rows = store.get_rows_for_date(d);
        assert_eq!(rows.len(), 1);
        assert_eq!(
            rows[0],
            CyclePlan { cycle_date: d, morning_message_sent: false, evening_message_sent: false }
        );
    }
}

#[test]
fn absent_date_has_no_rows() {
    let store = initialized_store(&[10, 11, 12]);
    assert_eq!(store.get_rows_for_date(13).len(), 0);
    assert_eq!(store.get_rows_for_date(9).len(), 0);
}

#[test]
fn reset_drops_every_row() {
    let mut store = initialized_store(&[10, 11, 12]);
    store.reset();
    assert_eq!(store.get_rows_for_date(10).len(), 0);
}

#[test]
fn mark_sent_sets_only_the_named_flag_of_the_named_date() {
    let mut store = initialized_store(&[10, 11]);
    store.mark_sent(10, TimeOfDay::Morning);

    let marked = store.get_rows_for_date(10);
    assert_eq!(
        marked[0],
        CyclePlan { cycle_date: 10, morning_message_sent: true, evening_message_sent: false }
    );

    let untouched = store.get_rows_for_date(11);
    assert_eq!(
        untouched[0],
        CyclePlan { cycle_date: 11, morning_message_sent: false, evening_message_sent: false }
    );

    store.mark_sent(10, TimeOfDay::Evening);
    let both = store.get_rows_for_date(10);
    assert_eq!(
        both[0],
        CyclePlan { cycle_date: 10, morning_message_sent: true, evening_message_sent: true }
    );
}

#[test]
fn mark_sent_twice_leaves_the_state_of_marking_once() {
    let mut once = initialized_store(&[10, 11]);
    once.mark_sent(10, TimeOfDay::Evening);

    let mut twice = initialized_store(&[10, 11]);
    twice.mark_sent(10, TimeOfDay::Evening);
    twice.mark_sent(10, TimeOfDay::Evening);

    for d in [10i64, 11] {
        assert_eq!(once.get_rows_for_date(d), twice.get_rows_for_date(d));
    }
}

#[test]
fn mark_sent_on_an_absent_date_changes_nothing() {
    let mut store = initialized_store(&[10, 11]);
    store.mark_sent(42, TimeOfDay::Morning);
    for d in [10i64, 11] {
        let rows = store.get_rows_for_date(d);
        assert!(!rows[0].morning_message_sent);
        assert!(!rows[0].evening_message_sent);
    }
}
