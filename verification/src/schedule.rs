//! The due-window evaluator and the per-tick dispatch decision: given the
//! current local time, a day's delivery flags and the plan, decide which
//! reminders are due now and render their messages. All wall-clock inputs
//! are explicit parameters, so every decision here is a pure function.

use vstd::prelude::*;

use crate::calendar::PlanError;
use crate::calendar::cycle_start_day;
use crate::calendar::day_in_range;
use crate::calendar::get_cycle_day;
use crate::calendar::parsed_day;
use crate::plan::Medication;
use crate::plan::MedicationPlan;
use crate::plan::TimeOfDay;
use crate::plan::med_due;
use crate::plan::med_in_slot;

verus! {

/// State of one (date, slot) reminder: not yet inside its window, due for
/// dispatch right now, or already sent (terminal).
#[derive(Clone, Copy, PartialEq, Eq, Structural, Debug)]
pub enum MessageState {
    Pending,
    Due,
    Sent,
}

/// The delivery window of each slot, in local wall-clock time: mornings
/// 07:00 through 07:05, evenings 17:25 through 18:01.
pub open spec fn spec_in_window(time_of_day: TimeOfDay, hour: u8, minute: u8) -> bool {
    match time_of_day {
        TimeOfDay::Morning => hour == 7 && minute < 6,
        TimeOfDay::Evening => (hour == 17 && minute >= 25) || (hour == 18 && minute <= 1),
    }
}

/// Whether the given local time falls inside the slot's delivery window.
pub fn in_window(time_of_day: TimeOfDay, hour: u8, minute: u8) -> (r: bool)
    ensures
        r == spec_in_window(time_of_day, hour, minute),
{
    match time_of_day {
        TimeOfDay::Morning => hour == 7 && minute < 6,
        TimeOfDay::Evening => (hour == 17 && minute >= 25) || (hour == 18 && minute <= 1),
    }
}

/// A sent flag is terminal; an unsent reminder is due exactly while the
/// clock is inside its window, and pending outside it.
pub open spec fn spec_message_state(
    sent: bool,
    time_of_day: TimeOfDay,
    hour: u8,
    minute: u8,
) -> MessageState {
    if sent {
        MessageState::Sent
    } else if spec_in_window(time_of_day, hour, minute) {
        MessageState::Due
    } else {
        MessageState::Pending
    }
}

/// Evaluates one (date, slot) reminder against the current local time.
pub fn message_state(sent: bool, time_of_day: TimeOfDay, hour: u8, minute: u8) -> (r:
    MessageState)
    ensures
        r == spec_message_state(sent, time_of_day, hour, minute),
{
    if sent {
        MessageState::Sent
    } else if in_window(time_of_day, hour, minute) {
        MessageState::Due
    } else {
        MessageState::Pending
    }
}

/// Whether a reminder triggers dispatch now: its flag is still false and the
/// clock is inside its window.
pub open spec fn due_now(sent: bool, time_of_day: TimeOfDay, hour: u8, minute: u8) -> bool {
    spec_message_state(sent, time_of_day, hour, minute) is Due
}

/// The names of the medications listed for the given slot and cycle day
/// offset, in plan order.
pub open spec fn gathered(meds: Seq<Medication>, time_of_day: TimeOfDay, cycle_day: int) -> Seq<
    Seq<char>,
>
    decreases meds.len(),
{
    if meds.len() == 0 {
        Seq::empty()
    } else {
        let rest = gathered(meds.drop_last(), time_of_day, cycle_day);
        if med_due(meds.last(), time_of_day, cycle_day) {
            rest.push(meds.last().med_name@)
        } else {
            rest
        }
    }
}

/// Whether the listed cycle days include the given offset.
fn cycle_days_contains(days: &Vec<u8>, cycle_day: u16) -> (r: bool)
    ensures
        r == exists|k: int| 0 <= k < days@.len() && days@[k] == cycle_day as int,
{
    let mut i: usize = 0;
    while i < days.len()
        invariant
            i <= days@.len(),
            forall|k: int| 0 <= k < i ==> days@[k] != cycle_day as int,
        decreases days@.len() - i,
    {
        if days[i] as u16 == cycle_day {
            return true;
        }
        i = i + 1;
    }
    false
}

/// Every daily medication with a true flag for `time_of_day`, and every
/// non-daily one whose cycle days include `cycle_day`, in plan order.
pub fn gather_meds(plan: &MedicationPlan, time_of_day: TimeOfDay, cycle_day: u16) -> (r: Vec<
    String,
>)
    ensures
        r@.map_values(|m: String| m@) == gathered(plan.meds@, time_of_day, cycle_day as int),
{
    let mut meds: Vec<String> = Vec::new();
    let mut i: usize = 0;
    while i < plan.meds.len()
        invariant
            i <= plan.meds@.len(),
            meds@.map_values(|m: String| m@) == gathered(
                plan.meds@.take(i as int),
                time_of_day,
                cycle_day as int,
            ),
        decreases plan.meds@.len() - i,
    {
        let med = &plan.meds[i];
        let in_slot = match time_of_day {
            TimeOfDay::Morning => med.morning,
            TimeOfDay::Evening => med.evening,
        };
        let applies = med.daily || cycle_days_contains(&med.cycle_days, cycle_day);
        if in_slot && applies {
            meds.push(med.med_name.clone());
        }
        proof {
            assert(plan.meds@.take(i + 1 as int).drop_last() =~= plan.meds@.take(i as int));
            assert(plan.meds@.take(i + 1 as int).last() == plan.meds@[i as int]);
            assert(meds@.map_values(|m: String| m@) =~~= gathered(
                plan.meds@.take(i + 1 as int),
                time_of_day,
                cycle_day as int,
            ));
        }
        i = i + 1;
    }
    proof {
        assert(plan.meds@.take(plan.meds@.len() as int) =~= plan.meds@);
    }
    meds
}

/// Any daily medication with the matching slot flag is gathered for that
/// slot on every cycle day offset.
pub proof fn lemma_daily_med_gathered(
    meds: Seq<Medication>,
    i: int,
    time_of_day: TimeOfDay,
    cycle_day: int,
)
    requires
        0 <= i < meds.len(),
        meds[i].daily,
        med_in_slot(meds[i], time_of_day),
    ensures
        gathered(meds, time_of_day, cycle_day).contains(meds[i].med_name@),
    decreases meds.len(),
{
    let g = gathered(meds, time_of_day, cycle_day);
    let rest = gathered(meds.drop_last(), time_of_day, cycle_day);
    if i == meds.len() - 1 {
        assert(med_due(meds.last(), time_of_day, cycle_day));
        assert(g[g.len() - 1] == meds[i].med_name@);
        assert(g.contains(meds[i].med_name@));
    } else {
        lemma_daily_med_gathered(meds.drop_last(), i, time_of_day, cycle_day);
        let k = choose|k: int| 0 <= k < rest.len() && rest[k] == meds[i].med_name@;
        assert(g[k] == meds[i].med_name@);
        assert(g.contains(meds[i].med_name@));
    }
}

/// Whether some medication of the list is due in the slot on the day and
/// carries the given name.
pub open spec fn some_due_med_named(
    meds: Seq<Medication>,
    time_of_day: TimeOfDay,
    cycle_day: int,
    name: Seq<char>,
) -> bool {
    exists|i: int|
        0 <= i < meds.len() && med_due(#[trigger] meds[i], time_of_day, cycle_day)
            && meds[i].med_name@ == name
}

/// Gathering is also complete the other way: every gathered name belongs to
/// a medication that is due in that slot on that cycle day. A medication
/// that is neither daily nor listed for the day contributes nothing.
pub proof fn lemma_gathered_names_come_from_due_meds(
    meds: Seq<Medication>,
    time_of_day: TimeOfDay,
    cycle_day: int,
)
    ensures
        forall|k: int|
            0 <= k < gathered(meds, time_of_day, cycle_day).len() ==> some_due_med_named(
                meds,
                time_of_day,
                cycle_day,
                #[trigger] gathered(meds, time_of_day, cycle_day)[k],
            ),
    decreases meds.len(),
{
    if meds.len() > 0 {
        lemma_gathered_names_come_from_due_meds(meds.drop_last(), time_of_day, cycle_day);
        let g = gathered(meds, time_of_day, cycle_day);
        let rest = gathered(meds.drop_last(), time_of_day, cycle_day);
        assert forall|k: int| 0 <= k < g.len() implies some_due_med_named(
            meds,
            time_of_day,
            cycle_day,
            g[k],
        ) by {
            if k < rest.len() {
                assert(some_due_med_named(meds.drop_last(), time_of_day, cycle_day, rest[k]));
                let i = choose|i: int|
                    0 <= i < meds.drop_last().len() && med_due(
                        #[trigger] meds.drop_last()[i],
                        time_of_day,
                        cycle_day,
                    ) && meds.drop_last()[i].med_name@ == rest[k];
                assert(meds[i] == meds.drop_last()[i]);
                assert(g[k] == rest[k]);
                assert(med_due(meds[i], time_of_day, cycle_day) && meds[i].med_name@ == g[k]);
            } else {
                assert(med_due(meds.last(), time_of_day, cycle_day));
                let i = meds.len() - 1;
                assert(med_due(meds[i], time_of_day, cycle_day) && meds[i].med_name@ == g[k]);
            }
        }
    }
}

/// The greeting that opens each slot's message.
pub open spec fn greeting_text(time_of_day: TimeOfDay) -> Seq<char> {
    match time_of_day {
        TimeOfDay::Morning => "Good morning!"@,
        TimeOfDay::Evening => "Good evening!"@,
    }
}

/// The gathered names joined with a comma and a space.
pub open spec fn med_list_text(meds: Seq<Seq<char>>) -> Seq<char>
    decreases meds.len(),
{
    if meds.len() == 0 {
        Seq::empty()
    } else if meds.len() == 1 {
        meds.last()
    } else {
        med_list_text(meds.drop_last()) + ", "@ + meds.last()
    }
}

/// The full reminder text: greeting, the request phrase, the joined names
/// and a closing period. With no medications the phrase loses its last two
/// characters, exactly as the trailing-separator trim produces it.
pub open spec fn message_text(meds: Seq<Seq<char>>, time_of_day: TimeOfDay) -> Seq<char> {
    if meds.len() == 0 {
        greeting_text(time_of_day) + " Please take you."@
    } else {
        greeting_text(time_of_day) + " Please take your "@ + med_list_text(meds) + "."@
    }
}

/// Renders the plain-text reminder for the given slot and medication names.
pub fn basic_message_structure(meds: Vec<String>, time_of_day: TimeOfDay) -> (r: String)
    ensures
        r@ == message_text(meds@.map_values(|m: String| m@), time_of_day),
{
    let ghost views = meds@.map_values(|m: String| m@);
    let mut message = match time_of_day {
        TimeOfDay::Morning => String::from_str("Good morning!"),
        TimeOfDay::Evening => String::from_str("Good evening!"),
    };
    if meds.len() == 0 {
        message.append(" Please take you.");
        proof {
            assert(message@ =~= message_text(views, time_of_day));
        }
        return message;
    }
    message.append(" Please take your ");
    let ghost opening = message@;
    let mut i: usize = 0;
    while i < meds.len()
        invariant
            i <= meds@.len(),
            meds@.len() > 0,
            views == meds@.map_values(|m: String| m@),
            opening == greeting_text(time_of_day) + " Please take your "@,
            i == 0 ==> message@ == opening,
            i >= 1 ==> message@ == opening + med_list_text(views.take(i as int)),
        decreases meds@.len() - i,
    {
        if i > 0 {
            message.append(", ");
        }
        message.append(meds[i].as_str());
        proof {
            assert(views.take(i + 1 as int).drop_last() =~= views.take(i as int));
            assert(views.take(i + 1 as int).last() == views[i as int]);
            assert(message@ =~= opening + med_list_text(views.take(i + 1 as int)));
        }
        i = i + 1;
    }
    message.append(".");
    proof {
        assert(views.take(views.len() as int) =~= views);
        assert(message@ =~= message_text(views, time_of_day));
    }
    message
}

/// One reminder that is due right now: its slot and its rendered message.
#[derive(Debug)]
pub struct DueDispatch {
    pub time_of_day: TimeOfDay,
    pub message: String,
}

/// The slot and message text of each dispatch, for stating contracts.
pub open spec fn dispatch_views(dispatches: Seq<DueDispatch>) -> Seq<(TimeOfDay, Seq<char>)> {
    dispatches.map_values(|d: DueDispatch| (d.time_of_day, d.message@))
}

/// The dispatches one row yields at the given local time: a morning one if
/// the morning reminder is due, then an evening one if that is due.
pub open spec fn row_dispatches(
    meds: Seq<Medication>,
    row: crate::store::CyclePlan,
    cycle_day: int,
    hour: u8,
    minute: u8,
) -> Seq<(TimeOfDay, Seq<char>)> {
    let morning: Seq<(TimeOfDay, Seq<char>)> = if due_now(
        row.morning_message_sent,
        TimeOfDay::Morning,
        hour,
        minute,
    ) {
        seq![
            (
                TimeOfDay::Morning,
                message_text(gathered(meds, TimeOfDay::Morning, cycle_day), TimeOfDay::Morning),
            ),
        ]
    } else {
        Seq::empty()
    };
    let evening: Seq<(TimeOfDay, Seq<char>)> = if due_now(
        row.evening_message_sent,
        TimeOfDay::Evening,
        hour,
        minute,
    ) {
        seq![
            (
                TimeOfDay::Evening,
                message_text(gathered(meds, TimeOfDay::Evening, cycle_day), TimeOfDay::Evening),
            ),
        ]
    } else {
        Seq::empty()
    };
    morning + evening
}

/// All dispatches of one tick, over the given rows in order.
pub open spec fn tick_dispatches(
    meds: Seq<Medication>,
    rows: Seq<crate::store::CyclePlan>,
    cycle_day: int,
    hour: u8,
    minute: u8,
) -> Seq<(TimeOfDay, Seq<char>)>
    decreases rows.len(),
{
    if rows.len() == 0 {
        Seq::empty()
    } else {
        tick_dispatches(meds, rows.drop_last(), cycle_day, hour, minute) + row_dispatches(
            meds,
            rows.last(),
            cycle_day,
            hour,
            minute,
        )
    }
}

/// The per-tick decision: for each of today's rows, every reminder whose
/// flag is still false and whose window contains the current local time, in
/// row order, morning before evening, with its rendered message. Fails when
/// the plan's start date does not parse, or when `today` is not within a
/// representable offset of the cycle start.
pub fn check_todays_message_status(
    plan: &MedicationPlan,
    rows: &Vec<crate::store::CyclePlan>,
    today: i64,
    hour: u8,
    minute: u8,
) -> (r: Result<Vec<DueDispatch>, PlanError>)
    requires
        day_in_range(today),
    ensures
        r is Ok <==> (parsed_day(plan.cycle_start_date@) matches Some(s) && 0 <= today - s
            <= u16::MAX),
        r matches Ok(v) ==> (parsed_day(plan.cycle_start_date@) matches Some(s) && dispatch_views(
            v@,
        ) == tick_dispatches(plan.meds@, rows@, today - s, hour, minute)),
        r == Err::<Vec<DueDispatch>, PlanError>(PlanError::InvalidStartDate) <==> parsed_day(
            plan.cycle_start_date@,
        ) is None,
        r == Err::<Vec<DueDispatch>, PlanError>(PlanError::DateOutOfRange) <==> (parsed_day(
            plan.cycle_start_date@,
        ) matches Some(s) && !(0 <= today - s <= u16::MAX)),
{
    let start = match cycle_start_day(plan) {
        Ok(d) => d,
        Err(_) => {
            return Err(PlanError::InvalidStartDate);
        },
    };
    let diff: i64 = today - start;
    if diff < 0 || diff > 65535 {
        return Err(PlanError::DateOutOfRange);
    }
    let cycle_day = get_cycle_day(start, today);
    let mut dispatches: Vec<DueDispatch> = Vec::new();
    let mut i: usize = 0;
    while i < rows.len()
        invariant
            i <= rows@.len(),
            dispatch_views(dispatches@) == tick_dispatches(
                plan.meds@,
                rows@.take(i as int),
                cycle_day as int,
                hour,
                minute,
            ),
        decreases rows@.len() - i,
    {
        let row = rows[i];
        match message_state(row.morning_message_sent, TimeOfDay::Morning, hour, minute) {
            MessageState::Due => {
                let morning_meds = gather_meds(plan, TimeOfDay::Morning, cycle_day);
                let message = basic_message_structure(morning_meds, TimeOfDay::Morning);
                dispatches.push(DueDispatch { time_of_day: TimeOfDay::Morning, message });
            },
            _ => {},
        }
        match message_state(row.evening_message_sent, TimeOfDay::Evening, hour, minute) {
            MessageState::Due => {
                let evening_meds = gather_meds(plan, TimeOfDay::Evening, cycle_day);
                let message = basic_message_structure(evening_meds, TimeOfDay::Evening);
                dispatches.push(DueDispatch { time_of_day: TimeOfDay::Evening, message });
            },
            _ => {},
        }
        proof {
            assert(rows@.take(i + 1 as int).drop_last() =~= rows@.take(i as int));
            assert(rows@.take(i + 1 as int).last() == rows@[i as int]);
            assert(dispatch_views(dispatches@) =~~= tick_dispatches(
                plan.meds@,
                rows@.take(i + 1 as int),
                cycle_day as int,
                hour,
                minute,
            ));
        }
        i = i + 1;
    }
    proof {
        assert(rows@.take(rows@.len() as int) =~= rows@);
    }
    Ok(dispatches)
}

} // verus!
