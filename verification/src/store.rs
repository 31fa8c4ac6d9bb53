//! The cycle store: one row per calendar day of the plan, with two delivery
//! flags that only ever move from false to true. This is the in-memory model
//! of the persisted table; the persistence layer mirrors these operations
//! row for row.

use vstd::prelude::*;

use crate::plan::TimeOfDay;

verus! {

/// One persisted row: a cycle date (as a day number) and whether the morning
/// and evening reminders of that day have been sent.
#[derive(Clone, Copy, PartialEq, Eq, Structural, Debug)]
pub struct CyclePlan {
    pub cycle_date: i64,
    pub morning_message_sent: bool,
    pub evening_message_sent: bool,
}

/// A freshly initialized row: both flags false.
pub open spec fn fresh_row(date: i64) -> CyclePlan {
    CyclePlan { cycle_date: date, morning_message_sent: false, evening_message_sent: false }
}

/// The rows that a bulk initialization of `dates` creates, in order.
pub open spec fn fresh_rows(dates: Seq<i64>) -> Seq<CyclePlan> {
    dates.map_values(|d: i64| fresh_row(d))
}

/// `row` with the flag of the given slot set; other rows' dates and the
/// other flag are untouched.
pub open spec fn marked_row(row: CyclePlan, date: i64, time_of_day: TimeOfDay) -> CyclePlan {
    if row.cycle_date == date {
        match time_of_day {
            TimeOfDay::Morning => CyclePlan { morning_message_sent: true, ..row },
            TimeOfDay::Evening => CyclePlan { evening_message_sent: true, ..row },
        }
    } else {
        row
    }
}

/// The store after marking the given date's slot as sent: every row whose
/// date matches gets that flag set to true, every other row is unchanged.
pub open spec fn mark_spec(rows: Seq<CyclePlan>, date: i64, time_of_day: TimeOfDay) -> Seq<
    CyclePlan,
> {
    rows.map_values(|row: CyclePlan| marked_row(row, date, time_of_day))
}

/// The rows of `rows` whose cycle date is `date`, in order.
pub open spec fn rows_for_date(rows: Seq<CyclePlan>, date: i64) -> Seq<CyclePlan>
    decreases rows.len(),
{
    if rows.len() == 0 {
        Seq::empty()
    } else {
        let rest = rows_for_date(rows.drop_last(), date);
        if rows.last().cycle_date == date {
            rest.push(rows.last())
        } else {
            rest
        }
    }
}

/// Marking the same (date, slot) twice leaves the store exactly as marking
/// it once does: the flag update is an idempotent overwrite.
pub proof fn lemma_mark_sent_idempotent(rows: Seq<CyclePlan>, date: i64, time_of_day: TimeOfDay)
    ensures
        mark_spec(mark_spec(rows, date, time_of_day), date, time_of_day) == mark_spec(
            rows,
            date,
            time_of_day,
        ),
{
    let once = mark_spec(rows, date, time_of_day);
    let twice = mark_spec(once, date, time_of_day);
    assert forall|i: int| 0 <= i < rows.len() implies twice[i] == once[i] by {
        assert(marked_row(marked_row(rows[i], date, time_of_day), date, time_of_day)
            == marked_row(rows[i], date, time_of_day));
    }
    assert(twice =~= once);
}

/// Bulk-initializing the consecutive dates `start, start + 1, ...` yields
/// exactly the half-open day interval the plan covers: one unsent row per
/// calendar day, in ascending order, with no duplicate dates.
pub proof fn lemma_bulk_rows_cover_range(dates: Seq<i64>, start: i64)
    requires
        forall|i: int| 0 <= i < dates.len() ==> dates[i] == start + i,
    ensures
        fresh_rows(dates).len() == dates.len(),
        forall|i: int|
            0 <= i < dates.len() ==> (#[trigger] fresh_rows(dates)[i]).cycle_date == start + i
                && !fresh_rows(dates)[i].morning_message_sent && !fresh_rows(
                dates,
            )[i].evening_message_sent,
        forall|i: int, j: int|
            0 <= i < j < dates.len() ==> fresh_rows(dates)[i].cycle_date != fresh_rows(
                dates,
            )[j].cycle_date,
{
    assert forall|i: int| 0 <= i < dates.len() implies (#[trigger] fresh_rows(
        dates,
    )[i]).cycle_date == start + i && !fresh_rows(dates)[i].morning_message_sent && !fresh_rows(
        dates,
    )[i].evening_message_sent by {
        assert(fresh_rows(dates)[i] == fresh_row(dates[i]));
    }
}

/// The in-memory cycle store: the full table of cycle rows.
pub struct CycleStore {
    rows: Vec<CyclePlan>,
}

impl View for CycleStore {
    type V = Seq<CyclePlan>;

    closed spec fn view(&self) -> Seq<CyclePlan> {
        self.rows@
    }
}

impl CycleStore {
    /// A freshly created store holds no rows.
    pub fn new() -> (s: Self)
        ensures
            s@ == Seq::<CyclePlan>::empty(),
    {
        CycleStore { rows: Vec::new() }
    }

    /// Drops every row, as recreating the schema from scratch does. Starting
    /// from empty makes re-initialization at startup idempotent.
    pub fn reset(&mut self)
        ensures
            final(self)@ == Seq::<CyclePlan>::empty(),
    {
        self.rows = Vec::new();
    }

    /// Appends one fresh row (both flags false) per date, in order. Called
    /// exactly once after a reset; on an empty store with distinct dates this
    /// establishes the one-row-per-date invariant.
    pub fn bulk_initialize(&mut self, dates: &Vec<i64>)
        ensures
            final(self)@ == old(self)@ + fresh_rows(dates@),
    {
        let ghost orig = self.rows@;
        let mut i: usize = 0;
        while i < dates.len()
            invariant
                i <= dates@.len(),
                self.rows@ == orig + fresh_rows(dates@.take(i as int)),
            decreases dates@.len() - i,
        {
            self.rows.push(
                CyclePlan {
                    cycle_date: dates[i],
                    morning_message_sent: false,
                    evening_message_sent: false,
                },
            );
            proof {
                assert(self.rows@ =~= orig + fresh_rows(dates@.take(i + 1 as int)));
            }
            i = i + 1;
        }
        proof {
            assert(dates@.take(dates@.len() as int) =~= dates@);
        }
    }

    /// Every row whose cycle date is exactly `date`, in store order. Under
    /// the one-row-per-date invariant this is at most one row.
    pub fn get_rows_for_date(&self, date: i64) -> (r: Vec<CyclePlan>)
        ensures
            r@ == rows_for_date(self@, date),
    {
        let mut found: Vec<CyclePlan> = Vec::new();
        let mut i: usize = 0;
        while i < self.rows.len()
            invariant
                i <= self.rows@.len(),
                found@ == rows_for_date(self.rows@.take(i as int), date),
            decreases self.rows@.len() - i,
        {
            let row = self.rows[i];
            if row.cycle_date == date {
                found.push(row);
            }
            proof {
                assert(self.rows@.take(i + 1 as int).drop_last() =~= self.rows@.take(i as int));
                assert(self.rows@.take(i + 1 as int).last() == self.rows@[i as int]);
            }
            i = i + 1;
        }
        proof {
            assert(self.rows@.take(self.rows@.len() as int) =~= self.rows@);
        }
        found
    }

    /// Sets the given slot's flag to true on every row whose cycle date is
    /// `date`. Setting a flag that is already true is a harmless overwrite,
    /// which is what makes delivery idempotent across duplicate polls.
    pub fn mark_sent(&mut self, date: i64, time_of_day: TimeOfDay)
        ensures
            final(self)@ == mark_spec(old(self)@, date, time_of_day),
    {
        let ghost orig = self.rows@;
        let mut updated: Vec<CyclePlan> = Vec::new();
        let mut i: usize = 0;
        while i < self.rows.len()
            invariant
                i <= self.rows@.len(),
                self.rows@ == orig,
                updated@ =~= mark_spec(orig.take(i as int), date, time_of_day),
            decreases self.rows@.len() - i,
        {
            let row = self.rows[i];
            let new_row = if row.cycle_date == date {
                match time_of_day {
                    TimeOfDay::Morning => CyclePlan { morning_message_sent: true, ..row },
                    TimeOfDay::Evening => CyclePlan { evening_message_sent: true, ..row },
                }
            } else {
                row
            };
            updated.push(new_row);
            proof {
                assert(updated@ =~= mark_spec(orig.take(i + 1 as int), date, time_of_day));
            }
            i = i + 1;
        }
        proof {
            assert(orig.take(orig.len() as int) =~= orig);
        }
        self.rows = updated;
    }
}

} // verus!
