//! The medication plan: an immutable, validated description of the cycle
//! (how many cycles, how long each one is, when the first one starts) and of
//! each medication's scheduling rule.

use vstd::prelude::*;

verus! {

/// Morning or evening reminder slot.
#[derive(Clone, Copy, PartialEq, Eq, Structural, Debug)]
pub enum TimeOfDay {
    Morning,
    Evening,
}

/// One medication and its scheduling rule: which reminder slots it belongs
/// to, and on which cycle-relative days it applies when it is not daily.
#[derive(Debug)]
pub struct Medication {
    pub med_name: String,
    pub morning: bool,
    pub evening: bool,
    pub daily: bool,
    pub cycle_days: Vec<u8>,
}

/// The whole plan: a start date (ISO `YYYY-MM-DD` text), the cycle geometry,
/// and the ordered list of medications.
#[derive(Debug)]
pub struct MedicationPlan {
    pub number_of_cycles: u8,
    pub cycle_start_date: String,
    pub length_of_cycles_in_days: u8,
    pub meds: Vec<Medication>,
}

/// A well-formed plan covers at least one day.
pub open spec fn plan_wf(plan: MedicationPlan) -> bool {
    plan.number_of_cycles >= 1 && plan.length_of_cycles_in_days >= 1
}

/// Whether a medication applies on the given zero-based cycle day offset:
/// daily medications always apply, others only on their listed days.
pub open spec fn med_applies(med: Medication, cycle_day: int) -> bool {
    med.daily || exists|i: int| 0 <= i < med.cycle_days@.len() && med.cycle_days@[i] == cycle_day
}

/// Whether a medication belongs to the given reminder slot.
pub open spec fn med_in_slot(med: Medication, time_of_day: TimeOfDay) -> bool {
    match time_of_day {
        TimeOfDay::Morning => med.morning,
        TimeOfDay::Evening => med.evening,
    }
}

/// Whether a medication is listed in the reminder for the given slot and
/// cycle day offset.
pub open spec fn med_due(med: Medication, time_of_day: TimeOfDay, cycle_day: int) -> bool {
    med_in_slot(med, time_of_day) && med_applies(med, cycle_day)
}

} // verus!
