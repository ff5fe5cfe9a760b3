use std::sync::{Arc, Mutex};
use xeen_desktop::launch::{LaunchCommandSet, LaunchStep};
use xeen_desktop::lifecycle::{Phase, Supervisor};
use xeen_desktop::readiness::{ProbeAction, ReadinessTarget};
use xeen_desktop::slot::SupervisorState;

/// Stand-in for a spawned process.
#[derive(Debug, PartialEq)]
struct FakeProcess {
    pid: u32,
}

#[test]
fn new_slot_is_empty() {
    let mut s: SupervisorState<u32> = SupervisorState::new();
    assert!(!s.peek_running());
    assert_eq!(s.take(), None);
}

#[test]
fn take_twice_drains_once() {
    let mut s = SupervisorState::new();
    s.store(FakeProcess { pid: 7 });
    assert!(s.peek_running());
    assert_eq!(s.take(), Some(FakeProcess { pid: 7 }));
    assert!(!s.peek_running());
    assert_eq!(s.take(), None);
}

#[test]
fn store_then_take_through_a_lock_sees_the_whole_handle() {
    let shared = Arc::new(Mutex::new(SupervisorState::new()));
    let startup = Arc::clone(&shared);
    startup.lock().unwrap().store(FakeProcess { pid: 4242 });
    let ui = Arc::clone(&shared);
    let got = ui.lock().unwrap().take();
    assert_eq!(got, Some(FakeProcess { pid: 4242 }));
    assert_eq!(shared.lock().unwrap().take(), None);
}

/// Drives the launcher with the given spawn results.
fn launch(set: &LaunchCommandSet, spawnable: &[bool]) -> (Vec<usize>, LaunchStep) {
    let mut attempted = Vec::new();
    let mut step = set.first_step();
    while let LaunchStep::Attempt(i) = step {
        attempted.push(i);
        step = set.step_after(i, spawnable[i]);
    }
    (attempted, step)
}

/// Records a terminate signal for whatever the hook hands back.
fn shutdown(sup: &mut Supervisor<FakeProcess>, signalled: &mut Vec<u32>) {
    if let Some(p) = sup.on_window_destroyed() {
        signalled.push(p.pid);
        sup.terminate_finished();
    }
}

#[test]
fn scenario_primary_launches_and_becomes_ready() {
    let set = LaunchCommandSet::service_commands();
    let mut sup = Supervisor::new();
    sup.begin_launch();
    let (attempted, step) = launch(&set, &[true, true]);
    assert_eq!(attempted, vec![0]);
    assert_eq!(step, LaunchStep::Launched(0));
    assert_eq!(set.get(0).program, "xeen");
    sup.launch_succeeded(FakeProcess { pid: 100 });
    assert_eq!(sup.current_phase(), Phase::Launched);

    let target = ReadinessTarget::service_default();
    sup.begin_probe();
    // Connectable within 2 s: the attempt at 2000 ms succeeds.
    assert_eq!(target.before_attempt(2_000), ProbeAction::Connect);
    let outcome = target.after_attempt(true);
    assert_eq!(outcome, ProbeAction::Finish(true));
    sup.probe_finished(true);
    assert_eq!(sup.current_phase(), Phase::Ready);
    sup.ui_started();
    assert_eq!(sup.current_phase(), Phase::Running);
    assert!(sup.has_process());

    let mut signalled = Vec::new();
    shutdown(&mut sup, &mut signalled);
    assert_eq!(signalled, vec![100]);
    assert_eq!(sup.current_phase(), Phase::Terminated);
}

#[test]
fn scenario_fallback_launch_is_a_success() {
    let set = LaunchCommandSet::service_commands();
    let (attempted, step) = launch(&set, &[false, true]);
    assert_eq!(attempted, vec![0, 1]);
    assert_eq!(step, LaunchStep::Launched(1));
    assert_eq!(set.get(1).program, "python3");
    assert_eq!(set.get(1).args, vec!["-m", "xeen.cli", "server", "--port", "7600"]);
    let mut sup = Supervisor::new();
    sup.begin_launch();
    sup.launch_succeeded(FakeProcess { pid: 200 });
    assert_eq!(sup.current_phase(), Phase::Launched);
    assert!(sup.has_process());
}

#[test]
fn scenario_no_command_leaves_slot_empty_and_shutdown_noop() {
    let set = LaunchCommandSet::service_commands();
    let (attempted, step) = launch(&set, &[false, false]);
    assert_eq!(attempted, vec![0, 1]);
    assert_eq!(step, LaunchStep::Failed);
    let mut sup: Supervisor<FakeProcess> = Supervisor::new();
    sup.begin_launch();
    sup.launch_failed();
    assert_eq!(sup.current_phase(), Phase::LaunchFailed);
    assert!(!sup.has_process());
    sup.ui_started();
    assert_eq!(sup.current_phase(), Phase::Running);
    let mut signalled = Vec::new();
    shutdown(&mut sup, &mut signalled);
    assert!(signalled.is_empty());
    assert_eq!(sup.current_phase(), Phase::Terminated);
}

#[test]
fn scenario_duplicate_shutdown_signals_once() {
    let mut sup = Supervisor::new();
    sup.begin_launch();
    sup.launch_succeeded(FakeProcess { pid: 300 });
    sup.begin_probe();
    sup.probe_finished(false);
    assert_eq!(sup.current_phase(), Phase::Unready);
    sup.ui_started();
    let mut signalled = Vec::new();
    let first = sup.on_window_destroyed();
    assert_eq!(first, Some(FakeProcess { pid: 300 }));
    signalled.push(first.unwrap().pid);
    assert_eq!(sup.current_phase(), Phase::Terminating);
    assert!(!sup.has_process());
    // A duplicate signal before the terminate finished changes nothing.
    assert_eq!(sup.on_window_destroyed(), None);
    assert_eq!(sup.current_phase(), Phase::Terminating);
    sup.terminate_finished();
    shutdown(&mut sup, &mut signalled);
    assert_eq!(signalled, vec![300]);
    assert_eq!(sup.current_phase(), Phase::Terminated);
}
