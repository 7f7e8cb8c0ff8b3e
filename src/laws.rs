//! What holds of every run of firings.
use vstd::prelude::*;

use crate::board::{AlarmModel, BoardView, OutputModel, after_firings, fired};
use crate::handler::{ALARM_INTERVAL_MS, Step, next_count_spec};
use crate::observe::{CountChange, observe_spec};

verus! {

/// After `n` firings the output level is the initial level, inverted when
/// `n` is odd: no toggle is lost or repeated.
pub proof fn lemma_level_parity(v: BoardView, n: nat)
    requires
        v.output is Some,
    ensures
        after_firings(v, n).output == Some(
            OutputModel {
                level: if n % 2 == 1 {
                    !v.output->0.level
                } else {
                    v.output->0.level
                },
            },
        ),
    decreases n,
{
    if n > 0 {
        lemma_level_parity(v, (n - 1) as nat);
    }
}

/// After `n` firings the counter has advanced by `n`, modulo 2^32.
pub proof fn lemma_counter_wraps(v: BoardView, n: nat)
    ensures
        after_firings(v, n).counter == (v.counter + n) % 0x1_0000_0000,
    decreases n,
{
    if n > 0 {
        lemma_counter_wraps(v, (n - 1) as nat);
        let c = after_firings(v, (n - 1) as nat).counter;
        assert(((c as int + 1) % 0x1_0000_0000) == ((v.counter + n) % 0x1_0000_0000)) by {
            vstd::arithmetic::div_mod::lemma_add_mod_noop(v.counter + n - 1, 1, 0x1_0000_0000);
            vstd::arithmetic::div_mod::lemma_mod_twice(v.counter + n - 1, 0x1_0000_0000);
        }
    }
}

/// Starting from zero, the counter after `k` firings is `k` modulo 2^32.
pub proof fn lemma_counter_from_zero(v: BoardView, k: nat)
    requires
        v.counter == 0,
    ensures
        after_firings(v, k).counter == k % 0x1_0000_0000,
{
    lemma_counter_wraps(v, k);
}

/// An installed alarm never stops: after every firing it is acknowledged and
/// scheduled again for the fixed interval.
pub proof fn lemma_rearm_unconditional(v: BoardView, n: nat)
    requires
        v.alarm is Some,
        n >= 1,
    ensures
        after_firings(v, n).alarm == Some(
            AlarmModel { pending: false, armed_ms: Some(ALARM_INTERVAL_MS) },
        ),
    decreases n,
{
    if n > 1 {
        lemma_rearm_unconditional(v, (n - 1) as nat);
    } else {
        assert(after_firings(v, 0) == v);
    }
}

/// `steps` repeated `n` times.
pub open spec fn repeated(steps: Seq<Step>, n: nat) -> Seq<Step>
    decreases n,
{
    if n == 0 {
        Seq::empty()
    } else {
        repeated(steps, (n - 1) as nat) + steps
    }
}

/// Firings neither install nor remove a capability, and each one makes the
/// same calls in the same order: with both installed, acknowledge, then
/// rearm for the fixed interval, then toggle.
pub proof fn lemma_calls_in_order(v: BoardView, n: nat)
    ensures
        after_firings(v, n).alarm is Some == v.alarm is Some,
        after_firings(v, n).output is Some == v.output is Some,
        after_firings(v, n).calls == v.calls + repeated(v.firing_steps(), n),
        v.alarm is Some && v.output is Some ==> v.firing_steps() == seq![
            Step::Acknowledge,
            Step::Rearm(ALARM_INTERVAL_MS),
            Step::Toggle,
        ],
    decreases n,
{
    if n > 0 {
        lemma_calls_in_order(v, (n - 1) as nat);
        let s = v.firing_steps();
        assert(v.calls + repeated(s, (n - 1) as nat) + s =~= v.calls + repeated(s, n));
    } else {
        assert(v.calls + repeated(v.firing_steps(), 0) =~= v.calls);
    }
    if v.alarm is Some && v.output is Some {
        assert(v.firing_steps() =~= seq![
            Step::Acknowledge,
            Step::Rearm(ALARM_INTERVAL_MS),
            Step::Toggle,
        ]);
    }
}

/// Polling once after each firing reports exactly that firing, as the change
/// from the counter before it to the counter after it.
pub proof fn lemma_each_firing_reported(v: BoardView)
    ensures
        observe_spec(v.counter, fired(v).counter).report == Some(
            CountChange { previous: v.counter, current: next_count_spec(v.counter) },
        ),
        observe_spec(v.counter, fired(v).counter).baseline == fired(v).counter,
{
}

} // verus!
