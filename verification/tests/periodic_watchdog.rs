use guard::guard::Guard;
use guard::guard::RunningGuard;
use guard::periodic::monitor_step;
use guard::periodic::new_tokio_guard;
use guard::periodic::GuardCell;
use guard::periodic::MonitorDecision;
use guard::periodic::PeriodicGuard;

#[test]
fn fresh_cell_is_safe_and_untargeted() {
    let cell: GuardCell<u32> = GuardCell::new();
    assert!(cell.is_safe());
    assert!(cell.wake_target().is_none());
}

#[test]
fn registering_a_target_keeps_the_status() {
    let mut cell: GuardCell<u32> = GuardCell::new();
    cell.set_wake_target(7);
    assert!(cell.is_safe());
    assert_eq!(cell.wake_target(), &Some(7));

    // A later registration replaces the earlier target.
    cell.set_wake_target(8);
    assert_eq!(cell.wake_target(), &Some(8));
}

#[test]
fn invalidation_is_terminal_and_keeps_the_target() {
    let mut cell: GuardCell<u32> = GuardCell::new();
    cell.set_wake_target(7);
    cell.invalidate();
    assert!(!cell.is_safe());
    assert_eq!(cell.wake_target(), &Some(7));

    // Registering a target after the transition does not revive the status,
    // and a second invalidation changes nothing.
    cell.set_wake_target(9);
    assert!(!cell.is_safe());
    cell.invalidate();
    assert!(!cell.is_safe());
    assert_eq!(cell.wake_target(), &Some(9));
}

#[test]
fn monitor_decisions() {
    assert_eq!(monitor_step(true, true), MonitorDecision::Halt);
    assert_eq!(monitor_step(true, false), MonitorDecision::Halt);
    assert_eq!(monitor_step(false, true), MonitorDecision::Signal);
    assert_eq!(monitor_step(false, false), MonitorDecision::Idle);
}

#[test]
fn descriptor_round_trip() {
    let descriptor: PeriodicGuard<&str, u8, u32> = new_tokio_guard(10, "resource", 6);
    let (interval, work_res, terminal) = descriptor.into_parts();
    assert_eq!(interval, 10);
    assert_eq!(work_res, "resource");
    assert_eq!(terminal, 6);
}

#[test]
fn started_handle_stops_with_its_terminal_state() {
    let descriptor: PeriodicGuard<&str, u8, u32> = new_tokio_guard(10, "resource", 6);
    let (work_res, mut running) = descriptor.start();
    assert_eq!(work_res, "resource");
    assert!(running.is_safe());

    running.set_waker(3);
    assert_eq!(running.wake_target(), &Some(3));

    let terminal = running.stop();
    assert_eq!(terminal, 6);
}

#[test]
fn firing_keeps_the_wake_target_registered() {
    let descriptor: PeriodicGuard<u8, u8, u32> = new_tokio_guard(10, 5, 6);
    let (_work_res, mut running) = descriptor.start();
    running.set_waker(11);
    running.signal_unsafe();
    assert!(!running.is_safe());
    assert_eq!(running.wake_target(), &Some(11));

    // Stopping after an invalidation still hands back the terminal state.
    let terminal = running.stop();
    assert_eq!(terminal, 6);
}
