//! The periodic-check watchdog: a reference watchdog that runs a caller's
//! asynchronous predicate on a fixed interval and flips a shared safety flag
//! when the predicate fires.
//!
//! The pieces that decide are here and verified: the shared safety record
//! ([`GuardCell`]), the monitoring loop's per-round decision
//! ([`monitor_step`]), and the watchdog handle's stop protocol
//! ([`PeriodicRunningGuard`]). The embedding runtime supplies what cannot be
//! decided — it schedules the monitoring loop, awaits the predicate, sleeps
//! out the interval, and carries the shared record between the two sides.

use vstd::prelude::*;

use crate::guard::Guard;
use crate::guard::RunningGuard;

verus! {

/// The shared safety record: the current status and the registered wake
/// target. Both sides access it under one mutual-exclusion region — the
/// combinator reads the status and writes the wake target, the monitor writes
/// the status and reads the wake target to invoke it.
pub struct GuardCell<W> {
    safe: bool,
    wake_target: Option<W>,
}

impl<W> GuardCell<W> {
    /// The current safety status.
    pub closed spec fn status(&self) -> bool {
        self.safe
    }

    /// The currently registered wake target, if any. Absence is possible only
    /// before the first scheduling turn.
    pub closed spec fn target(&self) -> Option<W> {
        self.wake_target
    }

    /// A fresh record: safe, with no wake target registered yet.
    pub fn new() -> (r: Self)
        ensures
            r.status(),
            r.target() is None,
    {
        GuardCell { safe: true, wake_target: None }
    }

    /// Non-blocking read of the status.
    pub fn is_safe(&self) -> (r: bool)
        ensures
            r == self.status(),
    {
        self.safe
    }

    /// Replace whatever wake target was previously registered. The status is
    /// untouched.
    pub fn set_wake_target(&mut self, waker: W)
        ensures
            final(self).status() == old(self).status(),
            final(self).target() == Some(waker),
    {
        self.wake_target = Some(waker);
    }

    /// Record that the monitor detected unsafety. The transition goes one way
    /// only — no operation ever sets the status back to safe — and the wake
    /// target stays registered, so the monitor can still invoke it.
    pub fn invalidate(&mut self)
        ensures
            !final(self).status(),
            final(self).target() == old(self).target(),
    {
        self.safe = false;
    }

    /// The registered wake target, for the monitor to invoke after it flipped
    /// the status.
    pub fn wake_target(&self) -> (r: &Option<W>)
        ensures
            *r == self.target(),
    {
        &self.wake_target
    }
}

/// One access to the shared safety record, by either side.
pub enum CellOp<W> {
    SetWakeTarget(W),
    Invalidate,
}

/// The status after one access: registering a wake target leaves it as it
/// was, an invalidation forces it unsafe.
pub open spec fn apply_op<W>(status: bool, op: CellOp<W>) -> bool {
    match op {
        CellOp::SetWakeTarget(_) => status,
        CellOp::Invalidate => false,
    }
}

/// The status after a sequence of accesses, applied in order.
pub open spec fn run_ops<W>(status: bool, ops: Seq<CellOp<W>>) -> bool
    decreases ops.len(),
{
    if ops.len() == 0 {
        status
    } else {
        run_ops(apply_op(status, ops[0]), ops.subrange(1, ops.len() as int))
    }
}

/// The safety status is monotone: once unsafe, no sequence of accesses to the
/// shared record makes it safe again.
pub proof fn lemma_unsafe_is_terminal<W>(ops: Seq<CellOp<W>>)
    ensures
        !run_ops(false, ops),
    decreases ops.len(),
{
    if ops.len() > 0 {
        lemma_unsafe_is_terminal::<W>(ops.subrange(1, ops.len() as int));
    }
}

/// Read backwards: a status observed safe after any sequence of accesses was
/// safe all along — the record never reverses a transition to unsafe.
pub proof fn lemma_safe_was_always_safe<W>(status: bool, ops: Seq<CellOp<W>>)
    requires
        run_ops(status, ops),
    ensures
        status,
{
    if !status {
        lemma_unsafe_is_terminal::<W>(ops);
    }
}

/// What the monitoring loop does after one round of observation.
#[derive(Debug, PartialEq, Eq)]
pub enum MonitorDecision {
    /// A stop signal was observed (sent, or the sender is gone): exit.
    Halt,
    /// The predicate fired: flip the shared status to unsafe and invoke the
    /// registered wake target.
    Signal,
    /// Nothing happened: wait out the interval and check again.
    Idle,
}

/// The decision the monitoring loop owes to one round of observation.
pub open spec fn spec_monitor_step(stop_observed: bool, predicate_fired: bool) -> MonitorDecision {
    if stop_observed {
        MonitorDecision::Halt
    } else if predicate_fired {
        MonitorDecision::Signal
    } else {
        MonitorDecision::Idle
    }
}

/// One decision round of the monitoring loop. A stop signal halts the loop
/// before the predicate is consulted; otherwise a firing predicate signals
/// unsafety, and a quiet one lets the loop idle until the next interval.
pub fn monitor_step(stop_observed: bool, predicate_fired: bool) -> (r: MonitorDecision)
    ensures
        r == spec_monitor_step(stop_observed, predicate_fired),
{
    if stop_observed {
        MonitorDecision::Halt
    } else if predicate_fired {
        MonitorDecision::Signal
    } else {
        MonitorDecision::Idle
    }
}

/// Descriptor for the periodic-check watchdog: the check interval, the
/// resource state handed to the protected work, and the terminal resource
/// state returned when the watchdog is stopped. The asynchronous predicate
/// itself, and the scheduling of the monitoring loop that runs it, belong to
/// the embedding runtime, which reads this descriptor through `into_parts`.
pub struct PeriodicGuard<AT, ST, W> {
    sleep_duration_ms: u64,
    resource_state: AT,
    stopped_resource_state: ST,
    wake: core::marker::PhantomData<W>,
}

impl<AT, ST, W> PeriodicGuard<AT, ST, W> {
    /// The interval between two predicate checks, in milliseconds.
    pub closed spec fn interval_ms(&self) -> u64 {
        self.sleep_duration_ms
    }

    /// Take the descriptor apart for an embedding runtime that schedules the
    /// monitoring loop itself: interval, work-side resource state, terminal
    /// resource state.
    pub fn into_parts(self) -> (r: (u64, AT, ST))
        ensures
            r.0 == self.interval_ms(),
            r.1 == self.work_resource(),
            r.2 == self.stop_resource(),
    {
        (self.sleep_duration_ms, self.resource_state, self.stopped_resource_state)
    }
}

/// Build the descriptor for the periodic-check watchdog. The name records the
/// runtime family the reference monitoring loop is written for; the
/// descriptor itself is inert data.
pub fn new_tokio_guard<AT, ST, W>(
    sleep_duration_ms: u64,
    resource_state: AT,
    stopped_resource_state: ST,
) -> (r: PeriodicGuard<AT, ST, W>)
    ensures
        r.interval_ms() == sleep_duration_ms,
        r.work_resource() == resource_state,
        r.stop_resource() == stopped_resource_state,
{
    PeriodicGuard {
        sleep_duration_ms,
        resource_state,
        stopped_resource_state,
        wake: core::marker::PhantomData,
    }
}

/// The periodic watchdog's handle, as the combinator sees it: the shared
/// safety record and the terminal resource state that `stop` hands back
/// exactly once.
pub struct PeriodicRunningGuard<ST, W> {
    cell: GuardCell<W>,
    stopped_resource_state: Option<ST>,
}

impl<ST, W> PeriodicRunningGuard<ST, W> {
    /// The current safety status of the shared record.
    pub closed spec fn status(&self) -> bool {
        self.cell.status()
    }

    /// Act as the monitor whose predicate fired: flip the shared status to
    /// unsafe. The stop protocol and the terminal state are untouched, and
    /// the wake target stays registered.
    pub fn signal_unsafe(&mut self)
        ensures
            !final(self).status(),
            final(self).target() == old(self).target(),
            final(self).stopped() == old(self).stopped(),
            final(self).terminal() == old(self).terminal(),
    {
        self.cell.invalidate();
    }

    /// The registered wake target, as the monitor side reads it.
    pub fn wake_target(&self) -> (r: &Option<W>)
        ensures
            *r == self.target(),
    {
        self.cell.wake_target()
    }
}

impl<ST, W> RunningGuard for PeriodicRunningGuard<ST, W> {
    type StoppedResourceState = ST;

    type WakeTarget = W;

    /// Stopped once the terminal resource state has been handed out.
    closed spec fn stopped(&self) -> bool {
        self.stopped_resource_state is None
    }

    /// The terminal resource state still owed to `stop`.
    closed spec fn terminal(&self) -> ST {
        self.stopped_resource_state->Some_0
    }

    /// The currently registered wake target.
    closed spec fn target(&self) -> Option<W> {
        self.cell.target()
    }

    /// Reads the shared status.
    fn is_safe(&self) -> (r: bool)
        ensures
            r == self.status(),
    {
        self.cell.is_safe()
    }

    /// Stores the target in the shared record, replacing any previous one.
    fn set_waker(&mut self, waker: W)
        ensures
            final(self).status() == old(self).status(),
            final(self).target() == Some(waker),
    {
        self.cell.set_wake_target(waker);
    }

    /// Hands back the stored terminal resource state; the one-shot stop
    /// signal to the monitoring loop is the embedding runtime's to send.
    fn stop(&mut self) -> (r: ST)
        ensures
            r == old(self).terminal(),
            final(self).status() == old(self).status(),
    {
        self.stopped_resource_state.take().unwrap()
    }
}

impl<AT, ST, W> Guard for PeriodicGuard<AT, ST, W> {
    type ResourceState = AT;

    type RunningGuard = PeriodicRunningGuard<ST, W>;

    /// Hands out the descriptor's work-side resource state.
    closed spec fn work_resource(&self) -> AT {
        self.resource_state
    }

    /// The started handle hands back the descriptor's terminal state.
    closed spec fn stop_resource(&self) -> ST {
        self.stopped_resource_state
    }

    /// Hand out the resource state for the protected work and a fresh handle:
    /// safe, no wake target yet, not stopped, terminal state stored. The
    /// monitoring loop that would flip the status runs on the embedding
    /// runtime's schedule; within the verified model the monitor side is
    /// played through `signal_unsafe`.
    fn start(self) -> (r: (AT, PeriodicRunningGuard<ST, W>))
        ensures
            r.1.status(),
            r.1.target() is None,
    {
        let running = PeriodicRunningGuard {
            cell: GuardCell::new(),
            stopped_resource_state: Some(self.stopped_resource_state),
        };
        (self.resource_state, running)
    }
}

} // verus!
