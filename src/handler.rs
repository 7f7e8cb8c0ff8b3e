//! The transition executed on every alarm firing.
use vstd::prelude::*;

verus! {

/// The fixed interval, in milliseconds, for which the alarm is rearmed.
pub const ALARM_INTERVAL_MS: u32 = 1000;

/// The counter value after one more firing: wraps to zero past `u32::MAX`.
pub open spec fn next_count_spec(counter: u32) -> u32 {
    ((counter as int + 1) % 0x1_0000_0000) as u32
}

/// Adds one firing to the counter, wrapping on overflow.
pub fn next_count(counter: u32) -> (r: u32)
    ensures
        r == next_count_spec(counter),
{
    if counter == u32::MAX {
        0
    } else {
        counter + 1
    }
}

/// One call the handler makes on a capability.
#[derive(Clone, Copy, Debug, PartialEq, Eq, Structural)]
pub enum Step {
    /// Clear the alarm's pending condition.
    Acknowledge,
    /// Schedule the alarm again, this many milliseconds from now.
    Rearm(u32),
    /// Toggle the output line.
    Toggle,
}

/// The alarm's calls on one firing: acknowledge, then rearm for the fixed
/// interval; none when no alarm is installed.
pub open spec fn alarm_steps(installed: bool) -> Seq<Step> {
    if installed {
        seq![Step::Acknowledge, Step::Rearm(ALARM_INTERVAL_MS)]
    } else {
        seq![]
    }
}

/// The output's call on one firing: a toggle; none when no output is installed.
pub open spec fn output_steps(installed: bool) -> Seq<Step> {
    if installed {
        seq![Step::Toggle]
    } else {
        seq![]
    }
}

/// The calls of one firing, in the order they are made.
pub open spec fn plan_steps(alarm_installed: bool, output_installed: bool) -> Seq<Step> {
    alarm_steps(alarm_installed) + output_steps(output_installed)
}

/// What the handler does on one firing.
#[derive(Clone, Debug, PartialEq, Eq)]
pub struct FiringPlan {
    /// The calls to make, in order.
    pub steps: Vec<Step>,
    /// The counter value to store.
    pub counter: u32,
}

/// Decides the steps of one firing.
///
/// An installed alarm is acknowledged and then rearmed for the fixed
/// interval, after which an installed output is toggled; a capability that
/// is not installed yet is skipped. The counter always advances by one,
/// wrapping.
pub fn plan_firing(alarm_installed: bool, output_installed: bool, counter: u32) -> (r: FiringPlan)
    ensures
        r.steps@ == plan_steps(alarm_installed, output_installed),
        r.counter == next_count_spec(counter),
{
    let mut steps: Vec<Step> = Vec::new();
    if alarm_installed {
        steps.push(Step::Acknowledge);
        steps.push(Step::Rearm(ALARM_INTERVAL_MS));
    }
    if output_installed {
        steps.push(Step::Toggle);
    }
    assert(steps@ =~= plan_steps(alarm_installed, output_installed));
    FiringPlan { steps, counter: next_count(counter) }
}

} // verus!
