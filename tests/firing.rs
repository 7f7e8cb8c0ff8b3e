use alarm_blink::board::{AlarmModel, Board, OutputModel};
use alarm_blink::exclusion::{read_counter_excluded, InterruptLine};
use alarm_blink::handler::{next_count, plan_firing, FiringPlan, Step, ALARM_INTERVAL_MS};
use alarm_blink::observe::{observe, CountChange, Observation};
use alarm_blink::slot::SharedSlot;

fn installed_board(level: bool) -> Board {
    let mut b = Board::new();
    b.install(AlarmModel::armed(ALARM_INTERVAL_MS), OutputModel { level });
    b
}

fn level(b: &mut Board) -> bool {
    b.output.with().expect("output installed").level
}

#[test]
fn counter_wraps_to_zero() {
    assert_eq!(next_count(0), 1);
    assert_eq!(next_count(41), 42);
    assert_eq!(next_count(u32::MAX), 0);
}

#[test]
fn plan_with_both_installed() {
    assert_eq!(
        plan_firing(true, true, 7),
        FiringPlan { steps: vec![Step::Acknowledge, Step::Rearm(1000), Step::Toggle], counter: 8 }
    );
}

#[test]
fn plan_skips_missing_capabilities() {
    assert_eq!(plan_firing(false, false, u32::MAX), FiringPlan { steps: vec![], counter: 0 });
    assert_eq!(
        plan_firing(true, false, 0),
        FiringPlan { steps: vec![Step::Acknowledge, Step::Rearm(1000)], counter: 1 }
    );
    assert_eq!(plan_firing(false, true, 0), FiringPlan { steps: vec![Step::Toggle], counter: 1 });
}

#[test]
fn one_capability_installed_gets_its_steps() {
    let mut b = Board::new();
    b.alarm.put(AlarmModel::armed(1000));
    b.counter = u32::MAX;
    b.fire();
    assert_eq!(b.calls, vec![Step::Acknowledge, Step::Rearm(1000)]);
    assert_eq!(*b.alarm.with().unwrap(), AlarmModel::armed(1000));
    assert!(!b.output.is_installed());
    assert_eq!(b.counter, 0);

    let mut b = Board::new();
    b.output.put(OutputModel { level: false });
    b.fire();
    assert_eq!(b.calls, vec![Step::Toggle]);
    assert!(!b.alarm.is_installed());
    assert!(level(&mut b));
    assert_eq!(b.counter, 1);
}

#[test]
fn slot_empty_until_put() {
    let mut s: SharedSlot<u32> = SharedSlot::new();
    assert!(!s.is_installed());
    assert!(s.with().is_none());
    s.put(5);
    assert!(s.is_installed());
    *s.with().unwrap() += 1;
    assert_eq!(s.value, Some(6));
    s.put(9);
    assert_eq!(s.value, Some(9));
}

#[test]
fn level_parity_after_n_firings() {
    for n in 0..10u64 {
        for start in [false, true] {
            let mut b = installed_board(start);
            b.run_firings(n);
            assert_eq!(level(&mut b), start ^ (n % 2 == 1));
        }
    }
}

#[test]
fn every_firing_rearms_with_the_interval() {
    let mut b = installed_board(false);
    for _ in 0..3 {
        let plan = b.fire();
        assert_eq!(plan.steps, vec![Step::Acknowledge, Step::Rearm(1000), Step::Toggle]);
        let alarm = *b.alarm.with().unwrap();
        assert_eq!(alarm, AlarmModel { pending: false, armed_ms: Some(1000) });
    }
    let one = [Step::Acknowledge, Step::Rearm(1000), Step::Toggle];
    assert_eq!(b.calls, [one, one, one].concat());
}

#[test]
fn alarm_left_stopped_after_expiry_until_serviced() {
    let mut a = AlarmModel::armed(1000);
    a.expire();
    assert_eq!(a, AlarmModel { pending: true, armed_ms: None });
    a.expire();
    assert_eq!(a, AlarmModel { pending: true, armed_ms: None });
    a.clear_interrupt();
    a.schedule(1000);
    assert_eq!(a, AlarmModel::armed(1000));
}

#[test]
fn counter_crosses_overflow_boundary() {
    let mut b = installed_board(false);
    b.counter = u32::MAX - 1;
    b.run_firings(3);
    assert_eq!(b.counter, 1);
}

#[test]
fn handler_before_install_is_a_no_op() {
    let mut b = Board::new();
    let plan = b.service_firing();
    assert_eq!(plan, FiringPlan { steps: vec![], counter: 1 });
    assert!(b.calls.is_empty());
    assert!(!b.alarm.is_installed());
    assert!(!b.output.is_installed());
    assert_eq!(b.counter, 1);
    b.install(AlarmModel::armed(1000), OutputModel { level: false });
    b.service_firing();
    assert!(level(&mut b));
    assert_eq!(b.counter, 2);
    assert_eq!(b.calls, vec![Step::Acknowledge, Step::Rearm(1000), Step::Toggle]);
}

#[test]
fn observe_reports_any_change() {
    assert_eq!(observe(3, 3), Observation { baseline: 3, report: None });
    assert_eq!(
        observe(3, 4),
        Observation { baseline: 4, report: Some(CountChange { previous: 3, current: 4 }) }
    );
    assert_eq!(
        observe(u32::MAX, 0),
        Observation { baseline: 0, report: Some(CountChange { previous: u32::MAX, current: 0 }) }
    );
}

#[test]
fn excluded_read_restores_line() {
    let mut b = installed_board(false);
    b.run_firings(4);
    for enabled in [false, true] {
        let mut line = InterruptLine::new(enabled);
        assert_eq!(read_counter_excluded(&mut line, &b), 4);
        assert_eq!(line.can_deliver(), enabled);
    }
    let mut line = InterruptLine::new(true);
    let outer = line.enter();
    let inner = line.enter();
    assert!(!line.can_deliver());
    line.exit(inner);
    assert!(!line.can_deliver());
    line.exit(outer);
    assert!(line.can_deliver());
}

#[test]
fn five_seconds_of_firings() {
    let mut b = installed_board(false);
    let mut line = InterruptLine::new(true);
    let mut baseline = read_counter_excluded(&mut line, &b);
    let mut reports = Vec::new();
    let elapsed_ms: u32 = 5000;
    for _ in 0..elapsed_ms / ALARM_INTERVAL_MS {
        b.fire();
        let seen = observe(baseline, read_counter_excluded(&mut line, &b));
        baseline = seen.baseline;
        if let Some(change) = seen.report {
            reports.push((change.previous, change.current));
        }
        let idle = observe(baseline, read_counter_excluded(&mut line, &b));
        assert!(idle.report.is_none());
    }
    assert_eq!(b.counter, 5);
    assert!(level(&mut b));
    assert_eq!(reports, vec![(0, 1), (1, 2), (2, 3), (3, 4), (4, 5)]);
}
