//! The resource capability: duplication of ownership state and control over
//! which copy is responsible for the external cleanup action.

use vstd::prelude::*;

verus! {

/// Exactly one of two resource-state copies that trace back to the same
/// acquisition is responsible for cleanup.
pub open spec fn exactly_one_armed<S: Resource>(a: S, b: S) -> bool {
    a.armed() != b.armed()
}

/// A value standing for ownership of an external, cleanup-sensitive entity
/// (a file descriptor, a device lock, a lease token).
///
/// Across all live copies that trace back to one acquisition, at most one may
/// be cleanup-armed at any moment: no armed copy means the entity leaks, two
/// armed copies mean a double cleanup. Callers of `clone_state` keep this
/// invariant by immediately disarming one of the two copies.
pub trait Resource: Sized {
    /// Whether destruction of this copy triggers the external cleanup action.
    spec fn armed(&self) -> bool;

    /// Whether this holder has anything to arm. The empty composite has not:
    /// asking it to arm has no effect, and it never triggers cleanup.
    spec fn armable() -> bool;

    /// Produce a second in-memory copy standing for the same external
    /// ownership. No physical side effect: the duplication is purely a
    /// duplication of the ownership record, arming included, so the caller
    /// must immediately arrange that at most one of the two copies stays
    /// armed.
    fn clone_state(&self) -> (r: Self)
        ensures
            r.armed() == self.armed(),
    ;

    /// Set whether destruction of this copy triggers cleanup: afterwards the
    /// copy is armed exactly when arming was asked for and the holder has
    /// something to arm.
    fn set_cleanup_enabled(&mut self, cleanup_enabled: bool)
        ensures
            final(self).armed() == (cleanup_enabled && Self::armable()),
    ;
}

/// When the original is armed and the duplicate handed to the protected work
/// has been disarmed, exactly one of the two copies is responsible for
/// cleanup.
pub proof fn lemma_exactly_one_armed<S: Resource>(original: S, duplicate: S)
    requires
        original.armed(),
        !duplicate.armed(),
    ensures
        exactly_one_armed(original, duplicate),
{
}

/// The reference protectable value: a ticket recording whether this copy is
/// the one responsible for the external cleanup.
pub struct CleanupTicket {
    armed: bool,
}

impl CleanupTicket {
    pub fn new(armed: bool) -> (r: Self)
        ensures
            r.armed() == armed,
    {
        CleanupTicket { armed }
    }

    pub fn is_armed(&self) -> (r: bool)
        ensures
            r == self.armed(),
    {
        self.armed
    }
}

impl Resource for CleanupTicket {
    closed spec fn armed(&self) -> bool {
        self.armed
    }

    open spec fn armable() -> bool {
        true
    }

    fn clone_state(&self) -> (r: Self) {
        CleanupTicket { armed: self.armed }
    }

    fn set_cleanup_enabled(&mut self, cleanup_enabled: bool)
        ensures
            final(self).armed() == cleanup_enabled,
    {
        self.armed = cleanup_enabled;
    }
}

/// The empty composite: a no-op capability holder for work that needs no
/// protected resource. There is nothing to arm, so it never triggers cleanup.
impl Resource for () {
    open spec fn armed(&self) -> bool {
        false
    }

    open spec fn armable() -> bool {
        false
    }

    fn clone_state(&self) -> (r: Self) {
    }

    fn set_cleanup_enabled(&mut self, cleanup_enabled: bool) {
    }
}

/// A composite is armed as soon as any member is: destroying it would trigger
/// that member's cleanup. Duplication and arming forward to every member in
/// declaration order, so each member of a duplicate copies its counterpart,
/// and each member of the composite is armed or disarmed individually.
impl<A: Resource> Resource for (A,) {
    open spec fn armed(&self) -> bool {
        self.0.armed()
    }

    open spec fn armable() -> bool {
        A::armable()
    }

    fn clone_state(&self) -> (r: Self)
        ensures
            r.0.armed() == self.0.armed(),
    {
        (self.0.clone_state(),)
    }

    fn set_cleanup_enabled(&mut self, cleanup_enabled: bool)
        ensures
            final(self).0.armed() == (cleanup_enabled && A::armable()),
    {
        self.0.set_cleanup_enabled(cleanup_enabled);
    }
}

impl<A: Resource, B: Resource> Resource for (A, B) {
    open spec fn armed(&self) -> bool {
        self.0.armed() || self.1.armed()
    }

    open spec fn armable() -> bool {
        A::armable() || B::armable()
    }

    fn clone_state(&self) -> (r: Self)
        ensures
            r.0.armed() == self.0.armed(),
            r.1.armed() == self.1.armed(),
    {
        (self.0.clone_state(), self.1.clone_state())
    }

    fn set_cleanup_enabled(&mut self, cleanup_enabled: bool)
        ensures
            final(self).0.armed() == (cleanup_enabled && A::armable()),
            final(self).1.armed() == (cleanup_enabled && B::armable()),
    {
        self.0.set_cleanup_enabled(cleanup_enabled);
        self.1.set_cleanup_enabled(cleanup_enabled);
    }
}

impl<A: Resource, B: Resource, C: Resource> Resource for (A, B, C) {
    open spec fn armed(&self) -> bool {
        self.0.armed() || self.1.armed() || self.2.armed()
    }

    open spec fn armable() -> bool {
        A::armable() || B::armable() || C::armable()
    }

    fn clone_state(&self) -> (r: Self)
        ensures
            r.0.armed() == self.0.armed(),
            r.1.armed() == self.1.armed(),
            r.2.armed() == self.2.armed(),
    {
        (self.0.clone_state(), self.1.clone_state(), self.2.clone_state())
    }

    fn set_cleanup_enabled(&mut self, cleanup_enabled: bool)
        ensures
            final(self).0.armed() == (cleanup_enabled && A::armable()),
            final(self).1.armed() == (cleanup_enabled && B::armable()),
            final(self).2.armed() == (cleanup_enabled && C::armable()),
    {
        self.0.set_cleanup_enabled(cleanup_enabled);
        self.1.set_cleanup_enabled(cleanup_enabled);
        self.2.set_cleanup_enabled(cleanup_enabled);
    }
}

impl<A: Resource, B: Resource, C: Resource, D: Resource> Resource for (A, B, C, D) {
    open spec fn armed(&self) -> bool {
        self.0.armed() || self.1.armed() || self.2.armed() || self.3.armed()
    }

    open spec fn armable() -> bool {
        A::armable() || B::armable() || C::armable() || D::armable()
    }

    fn clone_state(&self) -> (r: Self)
        ensures
            r.0.armed() == self.0.armed(),
            r.1.armed() == self.1.armed(),
            r.2.armed() == self.2.armed(),
            r.3.armed() == self.3.armed(),
    {
        (self.0.clone_state(), self.1.clone_state(), self.2.clone_state(), self.3.clone_state())
    }

    fn set_cleanup_enabled(&mut self, cleanup_enabled: bool)
        ensures
            final(self).0.armed() == (cleanup_enabled && A::armable()),
            final(self).1.armed() == (cleanup_enabled && B::armable()),
            final(self).2.armed() == (cleanup_enabled && C::armable()),
            final(self).3.armed() == (cleanup_enabled && D::armable()),
    {
        self.0.set_cleanup_enabled(cleanup_enabled);
        self.1.set_cleanup_enabled(cleanup_enabled);
        self.2.set_cleanup_enabled(cleanup_enabled);
        self.3.set_cleanup_enabled(cleanup_enabled);
    }
}

impl<A: Resource, B: Resource, C: Resource, D: Resource, E: Resource> Resource for (A, B, C, D, E) {
    open spec fn armed(&self) -> bool {
        self.0.armed() || self.1.armed() || self.2.armed() || self.3.armed() || self.4.armed()
    }

    open spec fn armable() -> bool {
        A::armable() || B::armable() || C::armable() || D::armable() || E::armable()
    }

    fn clone_state(&self) -> (r: Self)
        ensures
            r.0.armed() == self.0.armed(),
            r.1.armed() == self.1.armed(),
            r.2.armed() == self.2.armed(),
            r.3.armed() == self.3.armed(),
            r.4.armed() == self.4.armed(),
    {
        (self.0.clone_state(), self.1.clone_state(), self.2.clone_state(), self.3.clone_state(), self.4.clone_state())
    }

    fn set_cleanup_enabled(&mut self, cleanup_enabled: bool)
        ensures
            final(self).0.armed() == (cleanup_enabled && A::armable()),
            final(self).1.armed() == (cleanup_enabled && B::armable()),
            final(self).2.armed() == (cleanup_enabled && C::armable()),
            final(self).3.armed() == (cleanup_enabled && D::armable()),
            final(self).4.armed() == (cleanup_enabled && E::armable()),
    {
        self.0.set_cleanup_enabled(cleanup_enabled);
        self.1.set_cleanup_enabled(cleanup_enabled);
        self.2.set_cleanup_enabled(cleanup_enabled);
        self.3.set_cleanup_enabled(cleanup_enabled);
        self.4.set_cleanup_enabled(cleanup_enabled);
    }
}

impl<A: Resource, B: Resource, C: Resource, D: Resource, E: Resource, F: Resource> Resource for (A, B, C, D, E, F) {
    open spec fn armed(&self) -> bool {
        self.0.armed() || self.1.armed() || self.2.armed() || self.3.armed() || self.4.armed() || self.5.armed()
    }

    open spec fn armable() -> bool {
        A::armable() || B::armable() || C::armable() || D::armable() || E::armable() || F::armable()
    }

    fn clone_state(&self) -> (r: Self)
        ensures
            r.0.armed() == self.0.armed(),
            r.1.armed() == self.1.armed(),
            r.2.armed() == self.2.armed(),
            r.3.armed() == self.3.armed(),
            r.4.armed() == self.4.armed(),
            r.5.armed() == self.5.armed(),
    {
        (self.0.clone_state(), self.1.clone_state(), self.2.clone_state(), self.3.clone_state(), self.4.clone_state(), self.5.clone_state())
    }

    fn set_cleanup_enabled(&mut self, cleanup_enabled: bool)
        ensures
            final(self).0.armed() == (cleanup_enabled && A::armable()),
            final(self).1.armed() == (cleanup_enabled && B::armable()),
            final(self).2.armed() == (cleanup_enabled && C::armable()),
            final(self).3.armed() == (cleanup_enabled && D::armable()),
            final(self).4.armed() == (cleanup_enabled && E::armable()),
            final(self).5.armed() == (cleanup_enabled && F::armable()),
    {
        self.0.set_cleanup_enabled(cleanup_enabled);
        self.1.set_cleanup_enabled(cleanup_enabled);
        self.2.set_cleanup_enabled(cleanup_enabled);
        self.3.set_cleanup_enabled(cleanup_enabled);
        self.4.set_cleanup_enabled(cleanup_enabled);
        self.5.set_cleanup_enabled(cleanup_enabled);
    }
}

impl<A: Resource, B: Resource, C: Resource, D: Resource, E: Resource, F: Resource, G: Resource> Resource for (A, B, C, D, E, F, G) {
    open spec fn armed(&self) -> bool {
        self.0.armed() || self.1.armed() || self.2.armed() || self.3.armed() || self.4.armed() || self.5.armed() || self.6.armed()
    }

    open spec fn armable() -> bool {
        A::armable() || B::armable() || C::armable() || D::armable() || E::armable() || F::armable() || G::armable()
    }

    fn clone_state(&self) -> (r: Self)
        ensures
            r.0.armed() == self.0.armed(),
            r.1.armed() == self.1.armed(),
            r.2.armed() == self.2.armed(),
            r.3.armed() == self.3.armed(),
            r.4.armed() == self.4.armed(),
            r.5.armed() == self.5.armed(),
            r.6.armed() == self.6.armed(),
    {
        (self.0.clone_state(), self.1.clone_state(), self.2.clone_state(), self.3.clone_state(), self.4.clone_state(), self.5.clone_state(), self.6.clone_state())
    }

    fn set_cleanup_enabled(&mut self, cleanup_enabled: bool)
        ensures
            final(self).0.armed() == (cleanup_enabled && A::armable()),
            final(self).1.armed() == (cleanup_enabled && B::armable()),
            final(self).2.armed() == (cleanup_enabled && C::armable()),
            final(self).3.armed() == (cleanup_enabled && D::armable()),
            final(self).4.armed() == (cleanup_enabled && E::armable()),
            final(self).5.armed() == (cleanup_enabled && F::armable()),
            final(self).6.armed() == (cleanup_enabled && G::armable()),
    {
        self.0.set_cleanup_enabled(cleanup_enabled);
        self.1.set_cleanup_enabled(cleanup_enabled);
        self.2.set_cleanup_enabled(cleanup_enabled);
        self.3.set_cleanup_enabled(cleanup_enabled);
        self.4.set_cleanup_enabled(cleanup_enabled);
        self.5.set_cleanup_enabled(cleanup_enabled);
        self.6.set_cleanup_enabled(cleanup_enabled);
    }
}

impl<A: Resource, B: Resource, C: Resource, D: Resource, E: Resource, F: Resource, G: Resource, H: Resource> Resource for (A, B, C, D, E, F, G, H) {
    open spec fn armed(&self) -> bool {
        self.0.armed() || self.1.armed() || self.2.armed() || self.3.armed() || self.4.armed() || self.5.armed() || self.6.armed() || self.7.armed()
    }

    open spec fn armable() -> bool {
        A::armable() || B::armable() || C::armable() || D::armable() || E::armable() || F::armable() || G::armable() || H::armable()
    }

    fn clone_state(&self) -> (r: Self)
        ensures
            r.0.armed() == self.0.armed(),
            r.1.armed() == self.1.armed(),
            r.2.armed() == self.2.armed(),
            r.3.armed() == self.3.armed(),
            r.4.armed() == self.4.armed(),
            r.5.armed() == self.5.armed(),
            r.6.armed() == self.6.armed(),
            r.7.armed() == self.7.armed(),
    {
        (self.0.clone_state(), self.1.clone_state(), self.2.clone_state(), self.3.clone_state(), self.4.clone_state(), self.5.clone_state(), self.6.clone_state(), self.7.clone_state())
    }

    fn set_cleanup_enabled(&mut self, cleanup_enabled: bool)
        ensures
            final(self).0.armed() == (cleanup_enabled && A::armable()),
            final(self).1.armed() == (cleanup_enabled && B::armable()),
            final(self).2.armed() == (cleanup_enabled && C::armable()),
            final(self).3.armed() == (cleanup_enabled && D::armable()),
            final(self).4.armed() == (cleanup_enabled && E::armable()),
            final(self).5.armed() == (cleanup_enabled && F::armable()),
            final(self).6.armed() == (cleanup_enabled && G::armable()),
            final(self).7.armed() == (cleanup_enabled && H::armable()),
    {
        self.0.set_cleanup_enabled(cleanup_enabled);
        self.1.set_cleanup_enabled(cleanup_enabled);
        self.2.set_cleanup_enabled(cleanup_enabled);
        self.3.set_cleanup_enabled(cleanup_enabled);
        self.4.set_cleanup_enabled(cleanup_enabled);
        self.5.set_cleanup_enabled(cleanup_enabled);
        self.6.set_cleanup_enabled(cleanup_enabled);
        self.7.set_cleanup_enabled(cleanup_enabled);
    }
}

impl<A: Resource, B: Resource, C: Resource, D: Resource, E: Resource, F: Resource, G: Resource, H: Resource, I: Resource> Resource for (A, B, C, D, E, F, G, H, I) {
    open spec fn armed(&self) -> bool {
        self.0.armed() || self.1.armed() || self.2.armed() || self.3.armed() || self.4.armed() || self.5.armed() || self.6.armed() || self.7.armed() || self.8.armed()
    }

    open spec fn armable() -> bool {
        A::armable() || B::armable() || C::armable() || D::armable() || E::armable() || F::armable() || G::armable() || H::armable() || I::armable()
    }

    fn clone_state(&self) -> (r: Self)
        ensures
            r.0.armed() == self.0.armed(),
            r.1.armed() == self.1.armed(),
            r.2.armed() == self.2.armed(),
            r.3.armed() == self.3.armed(),
            r.4.armed() == self.4.armed(),
            r.5.armed() == self.5.armed(),
            r.6.armed() == self.6.armed(),
            r.7.armed() == self.7.armed(),
            r.8.armed() == self.8.armed(),
    {
        (self.0.clone_state(), self.1.clone_state(), self.2.clone_state(), self.3.clone_state(), self.4.clone_state(), self.5.clone_state(), self.6.clone_state(), self.7.clone_state(), self.8.clone_state())
    }

    fn set_cleanup_enabled(&mut self, cleanup_enabled: bool)
        ensures
            final(self).0.armed() == (cleanup_enabled && A::armable()),
            final(self).1.armed() == (cleanup_enabled && B::armable()),
            final(self).2.armed() == (cleanup_enabled && C::armable()),
            final(self).3.armed() == (cleanup_enabled && D::armable()),
            final(self).4.armed() == (cleanup_enabled && E::armable()),
            final(self).5.armed() == (cleanup_enabled && F::armable()),
            final(self).6.armed() == (cleanup_enabled && G::armable()),
            final(self).7.armed() == (cleanup_enabled && H::armable()),
            final(self).8.armed() == (cleanup_enabled && I::armable()),
    {
        self.0.set_cleanup_enabled(cleanup_enabled);
        self.1.set_cleanup_enabled(cleanup_enabled);
        self.2.set_cleanup_enabled(cleanup_enabled);
        self.3.set_cleanup_enabled(cleanup_enabled);
        self.4.set_cleanup_enabled(cleanup_enabled);
        self.5.set_cleanup_enabled(cleanup_enabled);
        self.6.set_cleanup_enabled(cleanup_enabled);
        self.7.set_cleanup_enabled(cleanup_enabled);
        self.8.set_cleanup_enabled(cleanup_enabled);
    }
}

impl<A: Resource, B: Resource, C: Resource, D: Resource, E: Resource, F: Resource, G: Resource, H: Resource, I: Resource, J: Resource> Resource for (A, B, C, D, E, F, G, H, I, J) {
    open spec fn armed(&self) -> bool {
        self.0.armed() || self.1.armed() || self.2.armed() || self.3.armed() || self.4.armed() || self.5.armed() || self.6.armed() || self.7.armed() || self.8.armed() || self.9.armed()
    }

    open spec fn armable() -> bool {
        A::armable() || B::armable() || C::armable() || D::armable() || E::armable() || F::armable() || G::armable() || H::armable() || I::armable() || J::armable()
    }

    fn clone_state(&self) -> (r: Self)
        ensures
            r.0.armed() == self.0.armed(),
            r.1.armed() == self.1.armed(),
            r.2.armed() == self.2.armed(),
            r.3.armed() == self.3.armed(),
            r.4.armed() == self.4.armed(),
            r.5.armed() == self.5.armed(),
            r.6.armed() == self.6.armed(),
            r.7.armed() == self.7.armed(),
            r.8.armed() == self.8.armed(),
            r.9.armed() == self.9.armed(),
    {
        (self.0.clone_state(), self.1.clone_state(), self.2.clone_state(), self.3.clone_state(), self.4.clone_state(), self.5.clone_state(), self.6.clone_state(), self.7.clone_state(), self.8.clone_state(), self.9.clone_state())
    }

    fn set_cleanup_enabled(&mut self, cleanup_enabled: bool)
        ensures
            final(self).0.armed() == (cleanup_enabled && A::armable()),
            final(self).1.armed() == (cleanup_enabled && B::armable()),
            final(self).2.armed() == (cleanup_enabled && C::armable()),
            final(self).3.armed() == (cleanup_enabled && D::armable()),
            final(self).4.armed() == (cleanup_enabled && E::armable()),
            final(self).5.armed() == (cleanup_enabled && F::armable()),
            final(self).6.armed() == (cleanup_enabled && G::armable()),
            final(self).7.armed() == (cleanup_enabled && H::armable()),
            final(self).8.armed() == (cleanup_enabled && I::armable()),
            final(self).9.armed() == (cleanup_enabled && J::armable()),
    {
        self.0.set_cleanup_enabled(cleanup_enabled);
        self.1.set_cleanup_enabled(cleanup_enabled);
        self.2.set_cleanup_enabled(cleanup_enabled);
        self.3.set_cleanup_enabled(cleanup_enabled);
        self.4.set_cleanup_enabled(cleanup_enabled);
        self.5.set_cleanup_enabled(cleanup_enabled);
        self.6.set_cleanup_enabled(cleanup_enabled);
        self.7.set_cleanup_enabled(cleanup_enabled);
        self.8.set_cleanup_enabled(cleanup_enabled);
        self.9.set_cleanup_enabled(cleanup_enabled);
    }
}

impl<A: Resource, B: Resource, C: Resource, D: Resource, E: Resource, F: Resource, G: Resource, H: Resource, I: Resource, J: Resource, K: Resource> Resource for (A, B, C, D, E, F, G, H, I, J, K) {
    open spec fn armed(&self) -> bool {
        self.0.armed() || self.1.armed() || self.2.armed() || self.3.armed() || self.4.armed() || self.5.armed() || self.6.armed() || self.7.armed() || self.8.armed() || self.9.armed() || self.10.armed()
    }

    open spec fn armable() -> bool {
        A::armable() || B::armable() || C::armable() || D::armable() || E::armable() || F::armable() || G::armable() || H::armable() || I::armable() || J::armable() || K::armable()
    }

    fn clone_state(&self) -> (r: Self)
        ensures
            r.0.armed() == self.0.armed(),
            r.1.armed() == self.1.armed(),
            r.2.armed() == self.2.armed(),
            r.3.armed() == self.3.armed(),
            r.4.armed() == self.4.armed(),
            r.5.armed() == self.5.armed(),
            r.6.armed() == self.6.armed(),
            r.7.armed() == self.7.armed(),
            r.8.armed() == self.8.armed(),
            r.9.armed() == self.9.armed(),
            r.10.armed() == self.10.armed(),
    {
        (self.0.clone_state(), self.1.clone_state(), self.2.clone_state(), self.3.clone_state(), self.4.clone_state(), self.5.clone_state(), self.6.clone_state(), self.7.clone_state(), self.8.clone_state(), self.9.clone_state(), self.10.clone_state())
    }

    fn set_cleanup_enabled(&mut self, cleanup_enabled: bool)
        ensures
            final(self).0.armed() == (cleanup_enabled && A::armable()),
            final(self).1.armed() == (cleanup_enabled && B::armable()),
            final(self).2.armed() == (cleanup_enabled && C::armable()),
            final(self).3.armed() == (cleanup_enabled && D::armable()),
            final(self).4.armed() == (cleanup_enabled && E::armable()),
            final(self).5.armed() == (cleanup_enabled && F::armable()),
            final(self).6.armed() == (cleanup_enabled && G::armable()),
            final(self).7.armed() == (cleanup_enabled && H::armable()),
            final(self).8.armed() == (cleanup_enabled && I::armable()),
            final(self).9.armed() == (cleanup_enabled && J::armable()),
            final(self).10.armed() == (cleanup_enabled && K::armable()),
    {
        self.0.set_cleanup_enabled(cleanup_enabled);
        self.1.set_cleanup_enabled(cleanup_enabled);
        self.2.set_cleanup_enabled(cleanup_enabled);
        self.3.set_cleanup_enabled(cleanup_enabled);
        self.4.set_cleanup_enabled(cleanup_enabled);
        self.5.set_cleanup_enabled(cleanup_enabled);
        self.6.set_cleanup_enabled(cleanup_enabled);
        self.7.set_cleanup_enabled(cleanup_enabled);
        self.8.set_cleanup_enabled(cleanup_enabled);
        self.9.set_cleanup_enabled(cleanup_enabled);
        self.10.set_cleanup_enabled(cleanup_enabled);
    }
}

impl<A: Resource, B: Resource, C: Resource, D: Resource, E: Resource, F: Resource, G: Resource, H: Resource, I: Resource, J: Resource, K: Resource, L: Resource> Resource for (A, B, C, D, E, F, G, H, I, J, K, L) {
    open spec fn armed(&self) -> bool {
        self.0.armed() || self.1.armed() || self.2.armed() || self.3.armed() || self.4.armed() || self.5.armed() || self.6.armed() || self.7.armed() || self.8.armed() || self.9.armed() || self.10.armed() || self.11.armed()
    }

    open spec fn armable() -> bool {
        A::armable() || B::armable() || C::armable() || D::armable() || E::armable() || F::armable() || G::armable() || H::armable() || I::armable() || J::armable() || K::armable() || L::armable()
    }

    fn clone_state(&self) -> (r: Self)
        ensures
            r.0.armed() == self.0.armed(),
            r.1.armed() == self.1.armed(),
            r.2.armed() == self.2.armed(),
            r.3.armed() == self.3.armed(),
            r.4.armed() == self.4.armed(),
            r.5.armed() == self.5.armed(),
            r.6.armed() == self.6.armed(),
            r.7.armed() == self.7.armed(),
            r.8.armed() == self.8.armed(),
            r.9.armed() == self.9.armed(),
            r.10.armed() == self.10.armed(),
            r.11.armed() == self.11.armed(),
    {
        (self.0.clone_state(), self.1.clone_state(), self.2.clone_state(), self.3.clone_state(), self.4.clone_state(), self.5.clone_state(), self.6.clone_state(), self.7.clone_state(), self.8.clone_state(), self.9.clone_state(), self.10.clone_state(), self.11.clone_state())
    }

    fn set_cleanup_enabled(&mut self, cleanup_enabled: bool)
        ensures
            final(self).0.armed() == (cleanup_enabled && A::armable()),
            final(self).1.armed() == (cleanup_enabled && B::armable()),
            final(self).2.armed() == (cleanup_enabled && C::armable()),
            final(self).3.armed() == (cleanup_enabled && D::armable()),
            final(self).4.armed() == (cleanup_enabled && E::armable()),
            final(self).5.armed() == (cleanup_enabled && F::armable()),
            final(self).6.armed() == (cleanup_enabled && G::armable()),
            final(self).7.armed() == (cleanup_enabled && H::armable()),
            final(self).8.armed() == (cleanup_enabled && I::armable()),
            final(self).9.armed() == (cleanup_enabled && J::armable()),
            final(self).10.armed() == (cleanup_enabled && K::armable()),
            final(self).11.armed() == (cleanup_enabled && L::armable()),
    {
        self.0.set_cleanup_enabled(cleanup_enabled);
        self.1.set_cleanup_enabled(cleanup_enabled);
        self.2.set_cleanup_enabled(cleanup_enabled);
        self.3.set_cleanup_enabled(cleanup_enabled);
        self.4.set_cleanup_enabled(cleanup_enabled);
        self.5.set_cleanup_enabled(cleanup_enabled);
        self.6.set_cleanup_enabled(cleanup_enabled);
        self.7.set_cleanup_enabled(cleanup_enabled);
        self.8.set_cleanup_enabled(cleanup_enabled);
        self.9.set_cleanup_enabled(cleanup_enabled);
        self.10.set_cleanup_enabled(cleanup_enabled);
        self.11.set_cleanup_enabled(cleanup_enabled);
    }
}

} // verus!
