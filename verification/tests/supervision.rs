use cosi::manager::{notification_ends_watch, Manager, HANDOFF_RETRY_MILLIS, TEARDOWN_DELAY_MILLIS};
use cosi::supervise::{
    invocation_args, signal_action, supervise_step, MonitorAction, MonitorEvent, MonitorState,
    SignalAction, SignalKind,
};

#[test]
fn spawning_to_running_on_spawn() {
    let (state, action) = supervise_step(MonitorState::Spawning, MonitorEvent::Spawned { pid: 42 });
    assert_eq!(state, MonitorState::Running { pid: 42 });
    assert_eq!(action, MonitorAction::HandOffAndWatch { pid: 42 });
}

#[test]
fn spawn_failure_is_fatal_to_the_monitor() {
    let (state, action) = supervise_step(MonitorState::Spawning, MonitorEvent::SpawnFailed);
    assert_eq!(state, MonitorState::Spawning);
    assert_eq!(action, MonitorAction::GiveUp);
}

#[test]
fn exit_of_watched_child_respawns() {
    // Killing the supervised child always leads to a fresh spawn for the
    // same executable, with no restart budget: the transition holds again
    // on every later exit.
    let mut state = MonitorState::Running { pid: 7 };
    for _ in 0..3 {
        let (next, action) = supervise_step(state, MonitorEvent::Notified { pid: 7 });
        assert_eq!(next, MonitorState::Spawning);
        assert_eq!(action, MonitorAction::Respawn);
        let (running, _) = supervise_step(next, MonitorEvent::Spawned { pid: 7 });
        state = running;
    }
}

#[test]
fn foreign_notification_is_ignored() {
    let (state, action) = supervise_step(
        MonitorState::Running { pid: 7 },
        MonitorEvent::Notified { pid: 8 },
    );
    assert_eq!(state, MonitorState::Running { pid: 7 });
    assert_eq!(action, MonitorAction::KeepWaiting);
}

#[test]
fn watch_decision_matches_only_the_watched_pid() {
    assert!(notification_ends_watch(5, 5));
    assert!(!notification_ends_watch(5, 6));
    assert!(!notification_ends_watch(6, 5));
}

#[test]
fn watch_consumes_until_its_own_notification() {
    // The manager's wait ignores any stray notification for another pid and
    // ends only on its own.
    let (manager, tx) = Manager::new();
    tx.send(6).unwrap();
    tx.send(9).unwrap();
    tx.send(5).unwrap();
    assert_eq!(manager.watch(5), Some(5));
}

#[test]
fn watch_returns_none_when_the_channel_dies() {
    let (manager, tx) = Manager::new();
    drop(tx);
    assert_eq!(manager.watch(5), None);
}

#[test]
fn invocation_convention() {
    let args = invocation_args("unix:/run/engine.sock");
    assert_eq!(args, vec![String::from("--address"), String::from("unix:/run/engine.sock")]);
}

#[test]
fn signal_dispatch_rule() {
    assert_eq!(signal_action(SignalKind::Child), SignalAction::ReapAll);
    assert_eq!(signal_action(SignalKind::Hangup), SignalAction::CallerPolicy);
    assert_eq!(signal_action(SignalKind::Interrupt), SignalAction::CallerPolicy);
    assert_eq!(signal_action(SignalKind::Terminate), SignalAction::CallerPolicy);
}

#[test]
fn fixed_delays() {
    assert_eq!(TEARDOWN_DELAY_MILLIS, 250);
    assert_eq!(HANDOFF_RETRY_MILLIS, 250);
}

#[test]
fn output_labels() {
    let prefix = cosi::manager::output_prefix("plugins/mount-linux-x86_64");
    assert_eq!(prefix, "<plugins/mount-linux-x86_64>");
    let line = cosi::manager::labeled_line(&prefix, "ready");
    assert_eq!(line, "<plugins/mount-linux-x86_64>: ready");
}

#[test]
fn discovery_pattern_shape() {
    let pattern = cosi::loader::discovery_pattern("plugins", "linux", "x86_64");
    assert_eq!(pattern, "plugins/*-linux-x86_64");
}

#[test]
fn discovery_match_rule_is_fixed() {
    let rule = cosi::loader::discovery_match_rule();
    assert!(rule.case_sensitive);
    assert!(!rule.require_literal_separator);
    assert!(!rule.require_literal_leading_dot);
}
