//! The main context's polling of the firing counter.
use vstd::prelude::*;

verus! {

/// A change of the counter seen by the main context.
#[derive(Clone, Copy, Debug, PartialEq, Eq, Structural)]
pub struct CountChange {
    /// The value seen before.
    pub previous: u32,
    /// The value seen now.
    pub current: u32,
}

/// The outcome of one poll: the baseline to keep and the change to report.
#[derive(Clone, Copy, Debug, PartialEq, Eq, Structural)]
pub struct Observation {
    pub baseline: u32,
    pub report: Option<CountChange>,
}

/// One poll: any difference from the baseline, a wrap to a smaller value
/// included, is reported and becomes the new baseline.
pub open spec fn observe_spec(baseline: u32, current: u32) -> Observation {
    if baseline != current {
        Observation { baseline: current, report: Some(CountChange { previous: baseline, current }) }
    } else {
        Observation { baseline, report: None }
    }
}

/// Compares a freshly read counter with the baseline.
pub fn observe(baseline: u32, current: u32) -> (r: Observation)
    ensures
        r == observe_spec(baseline, current),
{
    if baseline != current {
        Observation { baseline: current, report: Some(CountChange { previous: baseline, current }) }
    } else {
        Observation { baseline, report: None }
    }
}

} // verus!
