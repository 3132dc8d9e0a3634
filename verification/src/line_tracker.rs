//! Line tracker: the report for one reading of the tracker's output (high
//! while the sensor sees the line).
use vstd::prelude::*;

verus! {

/// The report printed for a reading.
pub fn tracker_report(on_line: bool) -> (report: &'static str)
    ensures
        on_line ==> report@ == "tracker is on line"@,
        !on_line ==> report@ == "tracker is not on line"@,
{
    if on_line {
        "tracker is on line"
    } else {
        "tracker is not on line"
    }
}

} // verus!
