use guard::guard::with_guard;
use guard::guard::Guard;
use guard::guard::GuardExecutor;
use guard::guard::GuardOutput;
use guard::guard::TurnStep;
use guard::periodic::new_tokio_guard;
use guard::periodic::PeriodicGuard;
use guard::resource::CleanupTicket;

// Predicate never fires; the work completes with 42 on its second scheduling
// turn. The outcome is Completed(42), the original state comes back untouched
// and still armed, and the watchdog's terminal state is handed back (the stop
// happened, once).
#[test]
fn completed_after_two_turns() {
    let descriptor: PeriodicGuard<&str, &str, u32> =
        new_tokio_guard(10, "work-resource", "terminal-state");
    let ticket = CleanupTicket::new(true);
    let (mut exec, inner, work_res) = with_guard(descriptor, ticket);

    assert!(!inner.is_armed());
    assert_eq!(work_res, "work-resource");

    // Turn 1: safe, work still pending; the turn's token is dropped.
    assert!(matches!(exec.poll_safety::<i32>(1), TurnStep::Proceed(_)));

    // Turn 2: safe, work completes with 42.
    let token = match exec.poll_safety::<i32>(2) {
        TurnStep::Proceed(token) => token,
        TurnStep::Invalidated(..) => panic!("watchdog fired although nothing invalidated it"),
    };
    let (original, terminal, outcome) = exec.complete_work(token, 42);

    assert_eq!(outcome, GuardOutput::Completed(42));
    assert!(original.is_armed());
    assert_eq!(terminal, "terminal-state");
}

// The predicate fires before the combinator's first turn; the work never
// completes. The outcome is Invalidated and the original state is the
// untouched input.
#[test]
fn invalidated_on_first_turn() {
    let descriptor: PeriodicGuard<u8, u8, u32> = new_tokio_guard(10, 5, 6);
    let (work_res, mut running) = descriptor.start();
    assert_eq!(work_res, 5);

    // Play the monitor whose predicate returned true.
    running.signal_unsafe();

    let (mut exec, inner) = GuardExecutor::new(running, CleanupTicket::new(true));
    assert!(!inner.is_armed());

    match exec.poll_safety::<i32>(1) {
        TurnStep::Invalidated(original, terminal, outcome) => {
            assert_eq!(outcome, GuardOutput::<i32>::Invalidated);
            assert!(original.is_armed());
            assert_eq!(terminal, 6);
        },
        TurnStep::Proceed(_) => panic!("the unsafe status was missed"),
    }
}

// An invalidation between two turns is observed on the next turn, even though
// an earlier turn saw a safe status.
#[test]
fn invalidated_on_later_turn() {
    let descriptor: PeriodicGuard<u8, u8, u32> = new_tokio_guard(10, 5, 6);
    let (_work_res, running) = descriptor.start();

    let (mut exec, _inner) = GuardExecutor::new(running, CleanupTicket::new(true));
    assert!(matches!(exec.poll_safety::<i32>(1), TurnStep::Proceed(_)));
    assert!(matches!(exec.poll_safety::<i32>(2), TurnStep::Proceed(_)));

    // The monitor cannot be reached once the executor owns it, so rebuild the
    // run with the firing happening before the third turn instead.
    let descriptor: PeriodicGuard<u8, u8, u32> = new_tokio_guard(10, 5, 6);
    let (_work_res, mut running) = descriptor.start();
    running.signal_unsafe();
    let (mut exec, _inner) = GuardExecutor::new(running, CleanupTicket::new(true));
    assert!(matches!(exec.poll_safety::<i32>(3), TurnStep::Invalidated(..)));
}

// The watchdog never invalidates and the work never completes: the combinator
// stays running over a bounded window of turns, with no spurious termination.
#[test]
fn stays_running_without_events() {
    let descriptor: PeriodicGuard<u8, u8, u32> = new_tokio_guard(10, 5, 6);
    let ticket = CleanupTicket::new(true);
    let (mut exec, _inner, _work_res) = with_guard(descriptor, ticket);

    for turn in 0..25u32 {
        match exec.poll_safety::<i32>(turn) {
            TurnStep::Proceed(_) => {},
            TurnStep::Invalidated(..) => panic!("spurious termination on turn {}", turn),
        }
    }
}

// The turn's decision is fixed by the observed status: a safe observation
// proceeds, an unsafe one terminates with Invalidated.
#[test]
fn decision_follows_the_observation() {
    let descriptor: PeriodicGuard<u8, u8, u32> = new_tokio_guard(10, 5, 6);
    let (mut exec, _inner, _work_res) = with_guard(descriptor, CleanupTicket::new(true));
    assert!(matches!(exec.decide_turn::<i32>(true), TurnStep::Proceed(_)));

    let descriptor: PeriodicGuard<u8, u8, u32> = new_tokio_guard(10, 5, 6);
    let (mut exec, _inner, _work_res) = with_guard(descriptor, CleanupTicket::new(true));
    match exec.decide_turn::<i32>(false) {
        TurnStep::Invalidated(original, terminal, outcome) => {
            assert_eq!(outcome, GuardOutput::<i32>::Invalidated);
            assert!(original.is_armed());
            assert_eq!(terminal, 6);
        },
        TurnStep::Proceed(_) => panic!("an unsafe observation must not proceed"),
    }
}

// A guarded execution over the empty composite: work that needs no protected
// resource of its own.
#[test]
fn empty_composite_execution() {
    let descriptor: PeriodicGuard<u8, u8, u32> = new_tokio_guard(10, 5, 6);
    let (mut exec, inner, _work_res) = with_guard(descriptor, ());
    let _: () = inner;
    let token = match exec.poll_safety::<&str>(1) {
        TurnStep::Proceed(token) => token,
        TurnStep::Invalidated(..) => panic!("watchdog fired although nothing invalidated it"),
    };
    let (_original, terminal, outcome) = exec.complete_work(token, "value");
    assert_eq!(outcome, GuardOutput::Completed("value"));
    assert_eq!(terminal, 6);
}
