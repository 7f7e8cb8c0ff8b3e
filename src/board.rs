//! Plain-value stand-ins for the two capabilities, and the state that the
//! interrupt handler and the main context share.
use vstd::prelude::*;

use crate::handler::{ALARM_INTERVAL_MS, FiringPlan, Step, next_count_spec, plan_firing, plan_steps};
use crate::slot::SharedSlot;

verus! {

/// A one-shot alarm: once it expires it stays stopped until scheduled again.
#[derive(Clone, Copy, Debug, PartialEq, Eq, Structural)]
pub struct AlarmModel {
    /// The firing has been raised and not yet acknowledged.
    pub pending: bool,
    /// The countdown, in milliseconds, of the schedule in force; `None` when stopped.
    pub armed_ms: Option<u32>,
}

/// A toggleable output line.
#[derive(Clone, Copy, Debug, PartialEq, Eq, Structural)]
pub struct OutputModel {
    /// The line's logical level.
    pub level: bool,
}

impl AlarmModel {
    /// An alarm scheduled for `ms` milliseconds, with nothing pending.
    pub fn armed(ms: u32) -> (r: Self)
        ensures
            r == (AlarmModel { pending: false, armed_ms: Some(ms) }),
    {
        AlarmModel { pending: false, armed_ms: Some(ms) }
    }

    /// Clears the pending condition.
    pub fn clear_interrupt(&mut self)
        ensures
            *final(self) == (AlarmModel { pending: false, ..*old(self) }),
    {
        self.pending = false;
    }

    /// Schedules the alarm `ms` milliseconds from now, not from the previous
    /// deadline: the period drifts by the handler's latency.
    pub fn schedule(&mut self, ms: u32)
        ensures
            *final(self) == (AlarmModel { armed_ms: Some(ms), ..*old(self) }),
    {
        self.armed_ms = Some(ms);
    }

    /// The countdown runs out: an armed alarm raises its firing and stops.
    pub fn expire(&mut self)
        ensures
            *final(self) == expired_spec(*old(self)),
    {
        if self.armed_ms.is_some() {
            self.pending = true;
            self.armed_ms = None;
        }
    }
}

/// The alarm after its countdown runs out.
pub open spec fn expired_spec(a: AlarmModel) -> AlarmModel {
    if a.armed_ms is Some {
        AlarmModel { pending: true, armed_ms: None }
    } else {
        a
    }
}

impl OutputModel {
    /// Inverts the level.
    pub fn toggle(&mut self)
        ensures
            final(self).level == !old(self).level,
    {
        self.level = !self.level;
    }
}

/// The state shared between the two contexts: one slot per capability, the
/// firing counter, which starts at zero, and the record of every call made
/// on the capabilities, in order.
pub struct Board {
    /// The alarm, once installed.
    pub alarm: SharedSlot<AlarmModel>,
    /// The output line, once installed.
    pub output: SharedSlot<OutputModel>,
    /// Firings so far, modulo 2^32.
    pub counter: u32,
    /// The calls made on the capabilities so far, oldest first.
    pub calls: Vec<Step>,
}

/// The state of a `Board` as plain values.
pub struct BoardView {
    pub alarm: Option<AlarmModel>,
    pub output: Option<OutputModel>,
    pub counter: u32,
    pub calls: Seq<Step>,
}

impl BoardView {
    /// The calls one firing makes on this state.
    pub open spec fn firing_steps(self) -> Seq<Step> {
        plan_steps(self.alarm is Some, self.output is Some)
    }
}

/// The state after `step` is carried out; a step for a capability that is
/// not installed does nothing and is not recorded.
pub open spec fn applied(v: BoardView, step: Step) -> BoardView {
    match step {
        Step::Acknowledge => match v.alarm {
            Some(a) => BoardView {
                alarm: Some(AlarmModel { pending: false, ..a }),
                calls: v.calls.push(step),
                ..v
            },
            None => v,
        },
        Step::Rearm(ms) => match v.alarm {
            Some(a) => BoardView {
                alarm: Some(AlarmModel { armed_ms: Some(ms), ..a }),
                calls: v.calls.push(step),
                ..v
            },
            None => v,
        },
        Step::Toggle => match v.output {
            Some(o) => BoardView {
                output: Some(OutputModel { level: !o.level }),
                calls: v.calls.push(step),
                ..v
            },
            None => v,
        },
    }
}

/// The state after the steps are carried out, first to last.
pub open spec fn applied_all(v: BoardView, steps: Seq<Step>) -> BoardView
    decreases steps.len(),
{
    if steps.len() == 0 {
        v
    } else {
        applied(applied_all(v, steps.drop_last()), steps.last())
    }
}

/// The state after the handler has run once: the alarm acknowledged and
/// rearmed, the output toggled, the counter advanced, and the calls of
/// `firing_steps` recorded in their order.
pub open spec fn serviced(v: BoardView) -> BoardView {
    BoardView {
        alarm: match v.alarm {
            Some(a) => Some(AlarmModel { pending: false, armed_ms: Some(ALARM_INTERVAL_MS) }),
            None => None,
        },
        output: match v.output {
            Some(o) => Some(OutputModel { level: !o.level }),
            None => None,
        },
        counter: next_count_spec(v.counter),
        calls: v.calls + v.firing_steps(),
    }
}

/// The state after one firing: the alarm expires, then the handler runs.
pub open spec fn fired(v: BoardView) -> BoardView {
    serviced(
        BoardView {
            alarm: match v.alarm {
                Some(a) => Some(expired_spec(a)),
                None => None,
            },
            ..v
        },
    )
}

/// The state after `n` firings.
pub open spec fn after_firings(v: BoardView, n: nat) -> BoardView
    decreases n,
{
    if n == 0 {
        v
    } else {
        fired(after_firings(v, (n - 1) as nat))
    }
}

proof fn lemma_serviced_by_steps(v: BoardView)
    ensures
        serviced(v) == (BoardView {
            counter: next_count_spec(v.counter),
            ..applied_all(v, v.firing_steps())
        }),
{
    reveal_with_fuel(applied_all, 4);
    let s = v.firing_steps();
    if v.alarm is Some {
        if v.output is Some {
            assert(s =~= seq![Step::Acknowledge, Step::Rearm(ALARM_INTERVAL_MS), Step::Toggle]);
            assert(s.drop_last() =~= seq![Step::Acknowledge, Step::Rearm(ALARM_INTERVAL_MS)]);
            assert(s.drop_last().drop_last() =~= seq![Step::Acknowledge]);
            assert(s.drop_last().drop_last().drop_last() =~= seq![]);
        } else {
            assert(s =~= seq![Step::Acknowledge, Step::Rearm(ALARM_INTERVAL_MS)]);
            assert(s.drop_last() =~= seq![Step::Acknowledge]);
            assert(s.drop_last().drop_last() =~= seq![]);
        }
    } else {
        if v.output is Some {
            assert(s =~= seq![Step::Toggle]);
            assert(s.drop_last() =~= seq![]);
        } else {
            assert(s =~= seq![]);
        }
    }
    assert(serviced(v).calls =~= applied_all(v, s).calls);
}

impl Board {
    /// The board's state as plain values.
    pub open spec fn view(&self) -> BoardView {
        BoardView {
            alarm: self.alarm@,
            output: self.output@,
            counter: self.counter,
            calls: self.calls@,
        }
    }

    /// Both slots empty, counter zero, no calls made.
    pub fn new() -> (r: Self)
        ensures
            r@.alarm is None,
            r@.output is None,
            r@.counter == 0,
            r@.calls == Seq::<Step>::empty(),
    {
        Board { alarm: SharedSlot::new(), output: SharedSlot::new(), counter: 0, calls: Vec::new() }
    }

    /// Moves both capabilities into their slots.
    pub fn install(&mut self, alarm: AlarmModel, output: OutputModel)
        ensures
            final(self)@ == (BoardView { alarm: Some(alarm), output: Some(output), ..old(self)@ }),
    {
        self.alarm.put(alarm);
        self.output.put(output);
    }

    /// Carries out one step on the capability it concerns and records it; a
    /// step for a capability that is not installed is skipped.
    pub fn perform(&mut self, step: Step)
        ensures
            final(self)@ == applied(old(self)@, step),
    {
        match step {
            Step::Acknowledge => match self.alarm.with() {
                Some(a) => {
                    a.clear_interrupt();
                    self.calls.push(step);
                },
                None => {},
            },
            Step::Rearm(ms) => match self.alarm.with() {
                Some(a) => {
                    a.schedule(ms);
                    self.calls.push(step);
                },
                None => {},
            },
            Step::Toggle => match self.output.with() {
                Some(o) => {
                    o.toggle();
                    self.calls.push(step);
                },
                None => {},
            },
        }
    }

    /// Runs the handler once: carries out the planned steps in order
    /// (acknowledge, rearm, toggle, skipping a capability whose slot is
    /// still empty) and advances the counter. Returns the plan.
    pub fn service_firing(&mut self) -> (r: FiringPlan)
        ensures
            final(self)@ == serviced(old(self)@),
            r.steps@ == old(self)@.firing_steps(),
            r.counter == next_count_spec(old(self)@.counter),
    {
        let ghost start = self@;
        let plan = plan_firing(self.alarm.is_installed(), self.output.is_installed(), self.counter);
        let mut i: usize = 0;
        while i < plan.steps.len()
            invariant
                i <= plan.steps@.len(),
                plan.steps@ == start.firing_steps(),
                plan.counter == next_count_spec(start.counter),
                self@ == applied_all(start, plan.steps@.take(i as int)),
            decreases plan.steps@.len() - i,
        {
            assert(plan.steps@.take(i + 1).drop_last() =~= plan.steps@.take(i as int));
            self.perform(plan.steps[i]);
            i = i + 1;
        }
        assert(plan.steps@.take(i as int) =~= plan.steps@);
        proof {
            lemma_serviced_by_steps(start);
        }
        self.counter = plan.counter;
        plan
    }

    /// One firing: the alarm's countdown runs out and the handler runs.
    pub fn fire(&mut self) -> (r: FiringPlan)
        ensures
            final(self)@ == fired(old(self)@),
            r.steps@ == old(self)@.firing_steps(),
            r.counter == next_count_spec(old(self)@.counter),
    {
        match self.alarm.with() {
            Some(a) => a.expire(),
            None => {},
        }
        self.service_firing()
    }

    /// Delivers `n` firings in a row.
    pub fn run_firings(&mut self, n: u64)
        ensures
            final(self)@ == after_firings(old(self)@, n as nat),
    {
        let ghost start = self@;
        let mut i: u64 = 0;
        while i < n
            invariant
                i <= n,
                self@ == after_firings(start, i as nat),
            decreases n - i,
        {
            self.fire();
            i = i + 1;
        }
    }
}

} // verus!
