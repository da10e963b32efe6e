//! Wall-clock readings, taken through chrono.
//!
//! Every value produced here depends on the clock, so nothing is promised
//! about it; callers state what holds of their results whatever the clock
//! returned.

use vstd::prelude::*;

verus! {

/// Relies on chrono's `Local::now`, formatted as year-month-day,
/// a space, then hour:minute:second.  The value depends on the clock.
#[verifier::external_body]
pub(crate) fn now_stamp_spaced() -> String {
    chrono::Local::now().format("%Y-%m-%d %H:%M:%S").to_string()
}

/// Relies on chrono's `Local::now`, formatted as year-month-day, a colon,
/// then hour:minute:second.  The value depends on the clock.
#[verifier::external_body]
pub(crate) fn now_stamp_coloned() -> String {
    chrono::Local::now().format("%Y-%m-%d:%H:%M:%S").to_string()
}

} // verus!
