//! The guard protocol and the guarded-execution combinator.
//!
//! A [`Guard`] is an inert descriptor; starting it yields the resource state
//! for the protected work and a live [`RunningGuard`] watchdog handle. The
//! [`GuardExecutor`] pairs that handle with the caller's original resource
//! state and runs the combinator's state machine: `Running` until exactly one
//! outcome is reported, then `Done`. The embedding runtime drives the machine
//! one scheduling turn at a time: it registers a wake target and asks for the
//! safety phase, and, when allowed to proceed, gives the protected work one
//! turn and reports a completion.

use vstd::prelude::*;

use crate::resource::exactly_one_armed;
use crate::resource::Resource;

verus! {

/// Outcome of one guarded execution: the protected work finished first, or
/// the watchdog detected unsafety first.
#[derive(Debug, PartialEq, Eq)]
pub enum GuardOutput<T> {
    Completed(T),
    Invalidated,
}

/// An active, independently progressing safety monitor.
///
/// The safety status may be flipped from safe to unsafe at any moment by the
/// concurrently running monitoring activity, so nothing is promised about
/// what `is_safe` returns; two reads may differ. What is pinned down is the
/// stop protocol: `stop` is called at most once per handle, and only `stop`
/// ends the handle's monitoring.
pub trait RunningGuard {
    type StoppedResourceState;

    /// The notification target the monitor invokes on a safety transition;
    /// an abstract resume handle supplied by the embedding runtime.
    type WakeTarget;

    /// Whether `stop` has already been called on this handle.
    spec fn stopped(&self) -> bool;

    /// The terminal resource state this handle would hand back on stop.
    spec fn terminal(&self) -> Self::StoppedResourceState;

    /// The currently registered wake notification target, if any.
    spec fn target(&self) -> Option<Self::WakeTarget>;

    /// Non-blocking read of the current safety status.
    fn is_safe(&self) -> bool;

    /// Replace whatever notification target was previously registered. After
    /// this call, any safety transition to unsafe eventually invokes the new
    /// target.
    fn set_waker(&mut self, waker: Self::WakeTarget)
        ensures
            final(self).stopped() == old(self).stopped(),
            final(self).terminal() == old(self).terminal(),
            final(self).target() == Some(waker),
    ;

    /// Signal the monitoring activity to halt, without waiting for it to
    /// terminate, and hand back whatever terminal resource state it
    /// accumulated. The registered target stays in place: stopping does not
    /// unregister.
    fn stop(&mut self) -> (r: Self::StoppedResourceState)
        requires
            !old(self).stopped(),
        ensures
            final(self).stopped(),
            r == old(self).terminal(),
            final(self).target() == old(self).target(),
    ;
}

/// An inert watchdog descriptor, consumed exactly once by `start`.
pub trait Guard {
    /// The resource state handed to the protected work.
    type ResourceState;

    type RunningGuard: RunningGuard;

    /// The resource state that `start` hands out for the protected work.
    spec fn work_resource(&self) -> Self::ResourceState;

    /// The terminal resource state the started handle will hand back on stop.
    spec fn stop_resource(&self) -> <Self::RunningGuard as RunningGuard>::StoppedResourceState;

    /// Consume the descriptor; hand out the resource state for the protected
    /// work and a live, not yet stopped watchdog handle. Must not block: the
    /// monitoring activity progresses on its own schedule.
    fn start(self) -> (r: (Self::ResourceState, Self::RunningGuard))
        ensures
            r.0 == self.work_resource(),
            !r.1.stopped(),
            r.1.terminal() == self.stop_resource(),
            r.1.target() is None,
    ;
}

/// Permission to give the protected work one scheduling turn: evidence that
/// the safety phase of the current turn saw a safe status. It is consumed
/// when a completion is reported, so one safety observation backs at most one
/// reported completion.
pub struct TurnToken {
    turn: Ghost<nat>,
}

impl TurnToken {
    /// The turn whose safety phase produced this token.
    pub closed spec fn turn(&self) -> nat {
        self.turn@
    }
}

/// What the safety phase of one scheduling turn decided.
pub enum TurnStep<T, S, ST> {
    /// The watchdog detected unsafety: the execution is over. Carries the
    /// caller's untouched original resource state, the watchdog's terminal
    /// resource state, and the `Invalidated` outcome.
    Invalidated(S, ST, GuardOutput<T>),
    /// The status was safe: the protected work may receive this turn.
    Proceed(TurnToken),
}

/// The guarded-execution combinator: a state machine that is `Running` until
/// exactly one of two terminal conditions is observed, then `Done`.
///
/// It owns the watchdog handle and the caller's original resource state; the
/// original is exposed again only in the one reported outcome, untouched.
pub struct GuardExecutor<S, RG: RunningGuard> {
    running_guard: RG,
    initial_state: Option<S>,
    finished: bool,
    turn_count: Ghost<nat>,
}

impl<S, RG: RunningGuard> GuardExecutor<S, RG> {
    /// The outcome has been reported; the machine accepts no further turns.
    pub closed spec fn done(&self) -> bool {
        self.finished
    }

    /// No outcome has been reported yet.
    pub open spec fn running(&self) -> bool {
        !self.done()
    }

    /// The caller's original resource state, held untouched while running.
    pub closed spec fn initial(&self) -> S {
        self.initial_state->Some_0
    }

    /// Whether the owned watchdog handle has been stopped.
    pub closed spec fn guard_stopped(&self) -> bool {
        self.running_guard.stopped()
    }

    /// The terminal resource state the owned watchdog hands back on stop.
    pub closed spec fn guard_terminal(&self) -> RG::StoppedResourceState {
        self.running_guard.terminal()
    }

    /// The wake target currently registered with the owned watchdog.
    pub closed spec fn guard_target(&self) -> Option<RG::WakeTarget> {
        self.running_guard.target()
    }

    /// How many scheduling turns have entered their safety phase.
    pub closed spec fn turns(&self) -> nat {
        self.turn_count@
    }

    /// The machine's invariant: while running it still holds the original
    /// resource state and a not yet stopped watchdog; once done, the watchdog
    /// has been stopped.
    pub closed spec fn wf(&self) -> bool {
        &&& (self.running() ==> self.initial_state is Some && !self.running_guard.stopped())
        &&& (self.done() ==> self.running_guard.stopped())
    }

    /// One turn's decision, taken on a freshly observed safety status: the
    /// branch is fixed by the observation. An unsafe observation is terminal
    /// — the watchdog is stopped, the machine goes `Done`, and the protected
    /// work is abandoned in place, simply receiving no further turns. A safe
    /// observation keeps the machine running and yields the token that admits
    /// the work's turn.
    pub fn decide_turn<T>(&mut self, safe: bool) -> (r: TurnStep<
        T,
        S,
        RG::StoppedResourceState,
    >)
        requires
            old(self).wf(),
            old(self).running(),
        ensures
            final(self).wf(),
            final(self).turns() == old(self).turns() + 1,
            final(self).guard_target() == old(self).guard_target(),
            !safe ==> (r matches TurnStep::Invalidated(original, terminal, out)
                && original == old(self).initial()
                && terminal == old(self).guard_terminal()
                && out == GuardOutput::<T>::Invalidated
                && final(self).done()
                && final(self).guard_stopped()),
            safe ==> (r matches TurnStep::Proceed(token)
                && token.turn() == final(self).turns()
                && final(self).running()
                && final(self).initial() == old(self).initial()
                && final(self).guard_terminal() == old(self).guard_terminal()
                && !final(self).guard_stopped()),
    {
        self.turn_count = Ghost(self.turn_count@ + 1);
        if !safe {
            let terminal = self.running_guard.stop();
            let original = self.initial_state.take().unwrap();
            self.finished = true;
            TurnStep::Invalidated(original, terminal, GuardOutput::Invalidated)
        } else {
            TurnStep::Proceed(TurnToken { turn: Ghost(self.turn_count@) })
        }
    }

    /// The safety phase of one scheduling turn: register the runtime's
    /// current wake target with the watchdog, then read the safety status,
    /// then decide the turn on that fresh reading — unsafe is terminal with
    /// `Invalidated`, safe admits the work's turn.
    ///
    /// Registering before reading closes the missed-notification race: a
    /// transition to unsafe after registration eventually re-invokes the
    /// target, and one before registration is caught by the immediate read.
    /// The registration itself is pinned: afterwards the watchdog's target is
    /// this turn's, on either branch.
    pub fn poll_safety<T>(&mut self, wake_target: RG::WakeTarget) -> (r: TurnStep<
        T,
        S,
        RG::StoppedResourceState,
    >)
        requires
            old(self).wf(),
            old(self).running(),
        ensures
            final(self).wf(),
            final(self).turns() == old(self).turns() + 1,
            final(self).guard_target() == Some(wake_target),
            match r {
                TurnStep::Invalidated(original, terminal, out) => {
                    &&& final(self).done()
                    &&& final(self).guard_stopped()
                    &&& original == old(self).initial()
                    &&& terminal == old(self).guard_terminal()
                    &&& out == GuardOutput::<T>::Invalidated
                },
                TurnStep::Proceed(token) => {
                    &&& final(self).running()
                    &&& final(self).initial() == old(self).initial()
                    &&& final(self).guard_terminal() == old(self).guard_terminal()
                    &&& !final(self).guard_stopped()
                    &&& token.turn() == final(self).turns()
                },
            },
    {
        self.running_guard.set_waker(wake_target);
        let safe = self.running_guard.is_safe();
        self.decide_turn(safe)
    }

    /// Report that the protected work completed during the turn the token
    /// belongs to: the other terminal condition. The watchdog is stopped and
    /// the machine goes `Done`; the caller receives the untouched original
    /// resource state, the watchdog's terminal state, and the work's value,
    /// uninterpreted.
    pub fn complete_work<T>(&mut self, token: TurnToken, value: T) -> (r: (
        S,
        RG::StoppedResourceState,
        GuardOutput<T>,
    ))
        requires
            old(self).wf(),
            old(self).running(),
            token.turn() == old(self).turns(),
        ensures
            final(self).wf(),
            final(self).done(),
            final(self).guard_stopped(),
            final(self).turns() == old(self).turns(),
            final(self).guard_target() == old(self).guard_target(),
            r.0 == old(self).initial(),
            r.1 == old(self).guard_terminal(),
            r.2 == GuardOutput::Completed(value),
    {
        let terminal = self.running_guard.stop();
        let original = self.initial_state.take().unwrap();
        self.finished = true;
        (original, terminal, GuardOutput::Completed(value))
    }
}

impl<S: Resource, RG: RunningGuard> GuardExecutor<S, RG> {
    /// Perform the duplication handshake around an already started watchdog
    /// handle: duplicate the caller's resource state, disarm the duplicate,
    /// and retain the still armed original inside the machine. Returns the
    /// machine and the disarmed duplicate for the protected work.
    pub fn new(running_guard: RG, initial_state: S) -> (r: (Self, S))
        requires
            !running_guard.stopped(),
        ensures
            r.0.wf(),
            r.0.running(),
            r.0.initial() == initial_state,
            r.0.guard_terminal() == running_guard.terminal(),
            r.0.guard_target() == running_guard.target(),
            r.0.turns() == 0,
            !r.1.armed(),
            initial_state.armed() ==> exactly_one_armed(r.0.initial(), r.1),
    {
        let mut inner_state = initial_state.clone_state();
        inner_state.set_cleanup_enabled(false);
        let exec = GuardExecutor {
            running_guard,
            initial_state: Some(initial_state),
            finished: false,
            turn_count: Ghost(0),
        };
        (exec, inner_state)
    }
}

/// Pair a watchdog descriptor with a caller-held resource state: start the
/// watchdog, duplicate the state, disarm the duplicate, and hand back the
/// combinator together with what the protected work is built from — the
/// disarmed duplicate and the watchdog-provided resource state.
pub fn with_guard<S: Resource, G: Guard>(guard: G, initial_state: S) -> (r: (
    GuardExecutor<S, G::RunningGuard>,
    S,
    G::ResourceState,
))
    ensures
        r.0.wf(),
        r.0.running(),
        r.0.initial() == initial_state,
        r.0.guard_terminal() == guard.stop_resource(),
        r.0.guard_target() is None,
        r.0.turns() == 0,
        !r.1.armed(),
        initial_state.armed() ==> exactly_one_armed(r.0.initial(), r.1),
        r.2 == guard.work_resource(),
{
    let (guard_resource, running_guard) = guard.start();
    let (exec, inner_state) = GuardExecutor::new(running_guard, initial_state);
    (exec, inner_state, guard_resource)
}

/// Stop-exactly-once: under the machine's invariant, the watchdog has been
/// stopped precisely when the execution has reported its one outcome — never
/// before (so the monitor keeps running while the work is driven), and always
/// after (whichever terminal branch was taken).
pub proof fn lemma_stopped_iff_done<S, RG: RunningGuard>(e: &GuardExecutor<S, RG>)
    requires
        e.wf(),
    ensures
        e.done() <==> e.guard_stopped(),
{
}

/// Single termination: a machine that has reported its outcome is no longer
/// running, and both turn-taking operations require a running machine, so no
/// second outcome can be produced — polling after termination is excluded by
/// precondition rather than supported.
pub proof fn lemma_no_turn_after_done<S, RG: RunningGuard>(e: &GuardExecutor<S, RG>)
    requires
        e.done(),
    ensures
        !e.running(),
{
}

} // verus!
