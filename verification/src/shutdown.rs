use vstd::prelude::*;

verus! {

/// The shutdown coordinator's whole state: whether the one-shot shutdown
/// signal has been observed, and how many admitted requests have not yet
/// completed. While draining, no new request is admitted, and the process
/// may exit only once every admitted request has completed.
pub struct ShutdownCoordinator {
    /// True from the first termination notification on.
    pub draining: bool,
    /// Requests admitted and not yet completed.
    pub in_flight: u64,
}

/// The state after a termination notification: draining, with the in-flight
/// requests untouched. A second notification changes nothing more.
pub open spec fn spec_signal(c: ShutdownCoordinator) -> ShutdownCoordinator {
    ShutdownCoordinator { draining: true, in_flight: c.in_flight }
}

/// Whether a new request would be admitted in this state.
pub open spec fn spec_admit_allowed(c: ShutdownCoordinator) -> bool {
    !c.draining
}

/// The state after one in-flight request completes.
pub open spec fn spec_complete(c: ShutdownCoordinator) -> ShutdownCoordinator {
    ShutdownCoordinator { draining: c.draining, in_flight: (c.in_flight - 1) as u64 }
}

/// The state after `k` in-flight requests complete, one by one.
pub open spec fn spec_completes(c: ShutdownCoordinator, k: nat) -> ShutdownCoordinator
    decreases k,
{
    if k == 0 {
        c
    } else {
        spec_complete(spec_completes(c, (k - 1) as nat))
    }
}

/// Whether the process may exit: only once draining and nothing in flight.
pub open spec fn spec_may_exit(c: ShutdownCoordinator) -> bool {
    c.draining && c.in_flight == 0
}

impl ShutdownCoordinator {
    /// A fresh coordinator: serving, nothing in flight.
    pub fn new() -> (r: Self)
        ensures
            !r.draining,
            r.in_flight == 0,
    {
        ShutdownCoordinator { draining: false, in_flight: 0 }
    }

    /// Observes a termination notification. The transition is one-shot:
    /// whichever notification arrives first wins, later ones are ignored.
    pub fn signal(&mut self)
        ensures
            *final(self) == spec_signal(*old(self)),
    {
        self.draining = true;
    }

    /// Admits a new request unless draining; an admitted request is counted
    /// in flight until it completes.
    pub fn try_admit(&mut self) -> (admitted: bool)
        requires
            old(self).in_flight < u64::MAX,
        ensures
            admitted == spec_admit_allowed(*old(self)),
            admitted ==> *final(self) == (ShutdownCoordinator {
                draining: old(self).draining,
                in_flight: (old(self).in_flight + 1) as u64,
            }),
            !admitted ==> *final(self) == *old(self),
    {
        if self.draining {
            false
        } else {
            self.in_flight = self.in_flight + 1;
            true
        }
    }

    /// Records that one admitted request has completed.
    pub fn complete(&mut self)
        requires
            old(self).in_flight > 0,
        ensures
            *final(self) == spec_complete(*old(self)),
    {
        self.in_flight = self.in_flight - 1;
    }

    /// Whether the process may exit now.
    pub fn may_exit(&self) -> (r: bool)
        ensures
            r == spec_may_exit(*self),
    {
        self.draining && self.in_flight == 0
    }
}

/// Law: the shutdown transition is one-shot. The second notification finds
/// the coordinator already draining and changes nothing.
pub proof fn lemma_signal_one_shot(c: ShutdownCoordinator)
    ensures
        spec_signal(spec_signal(c)) == spec_signal(c),
{
}

/// Law: a termination signal while `n` requests are in flight stops
/// admission immediately, leaves all `n` requests their completions, and
/// lets the process exit exactly when the last of them has completed.
pub proof fn lemma_graceful_drain(c: ShutdownCoordinator, k: nat)
    requires
        k <= c.in_flight,
    ensures
        !spec_admit_allowed(spec_signal(c)),
        spec_completes(spec_signal(c), k).in_flight == c.in_flight - k,
        spec_completes(spec_signal(c), k).draining,
        spec_may_exit(spec_completes(spec_signal(c), k)) <==> k == c.in_flight,
    decreases k,
{
    if k > 0 {
        lemma_graceful_drain(c, (k - 1) as nat);
    }
}

} // verus!
