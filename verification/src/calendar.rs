//! The cycle calendar: dates are handled as proleptic Gregorian day numbers
//! (January 1 of year 1 is day 1), so that all cycle arithmetic is plain
//! integer arithmetic. Only turning the plan's ISO start-date text into a day
//! number is delegated to an outside date library.

use vstd::prelude::*;

use crate::plan::MedicationPlan;
use crate::plan::plan_wf;

verus! {

/// Errors of the cycle calendar: the plan's start date text does not parse,
/// or a queried date lies too far from the cycle start.
#[derive(Clone, Copy, PartialEq, Eq, Structural, Debug)]
pub enum PlanError {
    InvalidStartDate,
    DateOutOfRange,
}

/// The day number that the ISO `YYYY-MM-DD` text denotes, or `None` when the
/// text is not a valid date. A function of the text alone.
pub uninterp spec fn parsed_day(s: Seq<char>) -> Option<i64>;

/// Day numbers the date library can produce fit an `i32`.
pub open spec fn day_in_range(d: i64) -> bool {
    -0x8000_0000 <= d <= 0x7fff_ffff
}

/// Relies on `chrono::NaiveDate::parse_from_str` with the `%Y-%m-%d` format
/// and on `chrono::Datelike::num_days_from_ce`: the parsed date is a function
/// of the text alone, and its day count since January 1 of year 1 (that date
/// being day 1) is returned as an `i32`.
#[verifier::external_body]
fn parse_date_str(s: &str) -> (r: Option<i64>)
    ensures
        r == parsed_day(s@),
        r matches Some(d) ==> day_in_range(d),
{
    match chrono::NaiveDate::parse_from_str(s, "%Y-%m-%d") {
        Ok(d) => Some(chrono::Datelike::num_days_from_ce(&d) as i64),
        Err(_) => None,
    }
}

/// How many calendar days the whole plan covers.
pub open spec fn total_cycle_days(plan: MedicationPlan) -> int {
    plan.length_of_cycles_in_days as int * plan.number_of_cycles as int
}

/// The product of two day counts that each fit a byte fits 16 bits, and is
/// positive when both counts are.
proof fn lemma_total_bound(l: u8, n: u8)
    ensures
        0 <= l as int * n as int <= 65025,
        l >= 1 && n >= 1 ==> l as int * n as int >= 1,
{
    assert(0 <= l as int * n as int <= 65025 && (l >= 1 && n >= 1 ==> l as int * n as int >= 1))
        by (nonlinear_arith)
        requires
            0 <= l as int <= 255,
            0 <= n as int <= 255,
    ;
}

/// Day number of the plan's start date, or `InvalidStartDate` when the
/// plan's start-date text is not a valid ISO date.
pub fn cycle_start_day(plan: &MedicationPlan) -> (r: Result<i64, PlanError>)
    ensures
        r is Ok <==> parsed_day(plan.cycle_start_date@) is Some,
        r matches Ok(d) ==> parsed_day(plan.cycle_start_date@) == Some(d) && day_in_range(d),
        r matches Err(e) ==> e == PlanError::InvalidStartDate,
{
    match parse_date_str(plan.cycle_start_date.as_str()) {
        Some(d) => Ok(d),
        None => Err(PlanError::InvalidStartDate),
    }
}

/// The first day after the last cycle: start day plus
/// `length_of_cycles_in_days * number_of_cycles`.
pub fn calculate_cycle_end_date(plan: &MedicationPlan) -> (r: Result<i64, PlanError>)
    ensures
        r is Ok <==> parsed_day(plan.cycle_start_date@) is Some,
        r matches Ok(e) ==> parsed_day(plan.cycle_start_date@) matches Some(s) && e == s
            + total_cycle_days(*plan),
        r matches Err(e) ==> e == PlanError::InvalidStartDate,
{
    let start = match cycle_start_day(plan) {
        Ok(d) => d,
        Err(e) => {
            return Err(e);
        },
    };
    proof {
        lemma_total_bound(plan.length_of_cycles_in_days, plan.number_of_cycles);
    }
    let total: u32 = plan.length_of_cycles_in_days as u32 * plan.number_of_cycles as u32;
    Ok(start + total as i64)
}

/// Whether the cycle has ended: `1` once the current day has reached the end
/// date's midnight boundary, `0` before it.
pub fn have_the_cycles_ended_or_not(end_date: i64, today: i64) -> (r: u8)
    ensures
        r == 1 <==> today >= end_date,
        r == 0 <==> today < end_date,
{
    if today >= end_date {
        1
    } else {
        0
    }
}

/// Every day number `d` with `start <= d < start + total_cycle_days(plan)`,
/// in ascending order: exactly one entry per calendar day of the plan, no
/// gaps, no duplicates.
pub fn calculate_date_range_for_cycles(plan: &MedicationPlan) -> (r: Result<
    Vec<i64>,
    PlanError,
>)
    ensures
        r is Ok <==> parsed_day(plan.cycle_start_date@) is Some,
        r matches Ok(v) ==> parsed_day(plan.cycle_start_date@) matches Some(s) && v@.len()
            == total_cycle_days(*plan) && (forall|i: int|
            0 <= i < v@.len() ==> v@[i] == s + i) && (v@.len() > 0 ==> v@[0] == s) && (forall|
            i: int,
            j: int,
        |
            0 <= i < j < v@.len() ==> v@[i] < v@[j]),
        r is Ok && plan_wf(*plan) ==> r.unwrap()@.len() > 0,
        r matches Err(e) ==> e == PlanError::InvalidStartDate,
{
    let start = match cycle_start_day(plan) {
        Ok(d) => d,
        Err(e) => {
            return Err(e);
        },
    };
    proof {
        lemma_total_bound(plan.length_of_cycles_in_days, plan.number_of_cycles);
    }
    let total: u32 = plan.length_of_cycles_in_days as u32 * plan.number_of_cycles as u32;
    let mut date_range: Vec<i64> = Vec::new();
    let mut i: u32 = 0;
    while i < total
        invariant
            i <= total,
            total == total_cycle_days(*plan),
            day_in_range(start),
            date_range@.len() == i,
            forall|k: int| 0 <= k < i ==> date_range@[k] == start + k,
        decreases total - i,
    {
        date_range.push(start + i as i64);
        i = i + 1;
    }
    Ok(date_range)
}

/// Zero-based cycle day offset of `today`: whole days since the cycle start.
pub fn get_cycle_day(start_day: i64, today: i64) -> (r: u16)
    requires
        0 <= today - start_day <= u16::MAX,
    ensures
        r == today - start_day,
{
    (today - start_day) as u16
}

} // verus!
