use cosi::children::ChildTable;
use cosi::reaper::{reap_step, ReapAction, WaitOutcome};
use std::collections::HashSet;

#[test]
fn reap_step_decisions() {
    assert_eq!(reap_step(WaitOutcome::Exited { pid: 41 }), ReapAction::Publish { pid: 41 });
    assert_eq!(reap_step(WaitOutcome::Signaled { pid: 9 }), ReapAction::Publish { pid: 9 });
    assert_eq!(reap_step(WaitOutcome::StillAlive), ReapAction::Stop);
    assert_eq!(reap_step(WaitOutcome::OtherChange), ReapAction::Stop);
    assert_eq!(reap_step(WaitOutcome::NoChildren), ReapAction::Stop);
    assert_eq!(reap_step(WaitOutcome::Interrupted), ReapAction::Retry);
    assert_eq!(reap_step(WaitOutcome::Failed { errno: 22 }), ReapAction::Fail { errno: 22 });
}

#[test]
fn sweep_collects_fifty_killed_children_exactly_once() {
    // Fifty children under one table, all killed, then swept from the signal
    // hook: the union of sweep results has size exactly fifty, and every one
    // of them is terminated-and-collected, none still running.
    let mut table = ChildTable::new();
    for pid in 1..=50 {
        table.spawn(pid);
    }
    for pid in 1..=50 {
        table.kill(pid);
    }

    let mut union: HashSet<i32> = HashSet::new();
    // Repeated sweeps, as the catch-all signal hook performs them.
    for _ in 0..3 {
        for pid in table.reap_all() {
            assert!(union.insert(pid), "pid {} reported twice", pid);
        }
    }

    assert_eq!(union.len(), 50);
    for pid in 1..=50 {
        assert!(union.contains(&pid));
        assert!(table.is_reaped(pid));
        assert!(!table.is_running(pid));
        assert!(!table.is_zombie(pid));
    }
}

#[test]
fn sweep_reports_only_the_terminated() {
    let mut table = ChildTable::new();
    table.spawn(10);
    table.spawn(11);
    table.spawn(12);
    table.kill(11);

    let pids = table.reap_all();
    assert_eq!(pids, vec![11]);
    assert!(table.is_running(10));
    assert!(table.is_running(12));
    assert!(table.is_reaped(11));
}

#[test]
fn second_sweep_never_repeats_a_pid() {
    let mut table = ChildTable::new();
    table.spawn(7);
    table.kill(7);
    let first = table.reap_all();
    assert_eq!(first, vec![7]);
    let second = table.reap_all();
    assert!(second.is_empty());
    // A later termination is still delivered, and still without repeats.
    table.spawn(8);
    table.kill(8);
    let third = table.reap_all();
    assert_eq!(third, vec![8]);
    assert!(!third.contains(&7));
}

#[test]
fn live_sweep_with_no_children_reports_none() {
    // The real sweep against the operating system: this process has no
    // unwaited child, so the wait reports "no children" and the sweep ends
    // with an empty collection, for the catch-all and the targeted form.
    let (mut hub, reaper) = cosi::reaper::new();
    let swept = reaper.reap(-1, &mut hub).expect("catch-all sweep should not fail");
    assert!(swept.is_empty());
    let targeted = reaper.reap(999999, &mut hub).expect("targeted sweep should not fail");
    assert!(targeted.is_empty());
}
