//! Medication cycle scheduler: computes the calendar range of a recurring
//! medication cycle, tracks per-day morning/evening delivery state, and
//! decides on each poll whether a reminder is due, already sent, or outside
//! its delivery window.

pub mod calendar;
pub mod plan;
pub mod schedule;
pub mod store;
