//! Simulated-time display values.

use vstd::prelude::*;

verus! {

/// Thousandths of a simulated day in one day.
pub const MILLI_PER_DAY: u64 = 1000;

/// Thousandths of a simulated day in one display month of 30.417 days.
pub const MILLI_PER_MONTH: u64 = 30417;

/// Thousandths of a simulated day in one display year of 12 months.
pub const MILLI_PER_YEAR: u64 = 365004;

/// Splits an elapsed simulated time, given in thousandths of a day, into the
/// whole days, months and years of the on-screen report. Each field is
/// computed from the same elapsed value independently (not cascaded from the
/// previous field) and rounded down; one month is 30.417 days and one year
/// is 12 months.
pub fn time_converter(elapsed_days_milli: u64) -> (r: (u64, u64, u64))
    ensures
        r.0 == elapsed_days_milli as int / MILLI_PER_DAY as int,
        r.1 == elapsed_days_milli as int / MILLI_PER_MONTH as int,
        r.2 == elapsed_days_milli as int / MILLI_PER_YEAR as int,
{
    (
        elapsed_days_milli / MILLI_PER_DAY,
        elapsed_days_milli / MILLI_PER_MONTH,
        elapsed_days_milli / MILLI_PER_YEAR,
    )
}

} // verus!
