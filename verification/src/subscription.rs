//! Lifecycle of one observation subscription (a scroll listener or an
//! intersection observation registered with the host).
//!
//! Every tracker owns exactly one subscription. It starts pending (the
//! observed element may not be mounted yet), becomes active once the element
//! resolves, and is stopped exactly once when the owning component unmounts.
//! Stopping twice is a no-op, and a stopped subscription never delivers
//! another event.

use vstd::prelude::*;

verus! {

/// The mathematical state of a subscription.
pub ghost struct SubscriptionModel {
    /// The observation has been registered with the host.
    pub started: bool,
    /// The stop handle has been called.
    pub stopped: bool,
    /// How many detach commands were issued to the host.
    pub detach_calls: int,
}

impl SubscriptionModel {
    /// A subscription issues a detach command exactly when it was started and
    /// then stopped, and never more than once.
    pub open spec fn wf(self) -> bool {
        self.detach_calls == if self.started && self.stopped {
            1int
        } else {
            0int
        }
    }

    /// An active subscription delivers events: it has started and was not
    /// stopped.
    pub open spec fn is_active(self) -> bool {
        self.started && !self.stopped
    }

    /// What calling the stop handle does: a no-op on a stopped subscription,
    /// otherwise it marks the subscription stopped and, if the observation had
    /// started, issues the one detach command.
    pub open spec fn stop(self) -> SubscriptionModel {
        if self.stopped {
            self
        } else {
            SubscriptionModel {
                started: self.started,
                stopped: true,
                detach_calls: if self.started {
                    1int
                } else {
                    0int
                },
            }
        }
    }

    /// What resolving the observed element does: a pending subscription
    /// becomes active; a stopped one never starts again.
    pub open spec fn attach(self) -> SubscriptionModel {
        if self.stopped {
            self
        } else {
            SubscriptionModel { started: true, ..self }
        }
    }
}

/// One observation subscription owned by a tracker.
pub struct Subscription {
    started: bool,
    stopped: bool,
    detach_calls: u64,
}

impl View for Subscription {
    type V = SubscriptionModel;

    closed spec fn view(&self) -> SubscriptionModel {
        SubscriptionModel {
            started: self.started,
            stopped: self.stopped,
            detach_calls: self.detach_calls as int,
        }
    }
}

impl Subscription {
    /// A fresh, pending subscription: nothing observed yet, nothing to detach.
    pub fn new() -> (s: Subscription)
        ensures
            s@.wf(),
            !s@.started,
            !s@.stopped,
            s@.detach_calls == 0,
    {
        Subscription { started: false, stopped: false, detach_calls: 0 }
    }

    /// The observed element resolved and the observation was registered.
    /// Starting is deferred, not an error: nothing happens until this call.
    pub fn attach(&mut self)
        requires
            old(self)@.wf(),
        ensures
            final(self)@.wf(),
            final(self)@ == old(self)@.attach(),
    {
        if !self.stopped {
            self.started = true;
        }
    }

    /// The stop handle. Releases the observation exactly once; calling it
    /// again is a no-op. Returns whether a detach command was issued now.
    pub fn stop(&mut self) -> (detached: bool)
        requires
            old(self)@.wf(),
        ensures
            final(self)@.wf(),
            final(self)@ == old(self)@.stop(),
            detached == old(self)@.is_active(),
            final(self)@.stopped,
    {
        if self.stopped {
            false
        } else {
            self.stopped = true;
            if self.started {
                self.detach_calls = 1;
                true
            } else {
                false
            }
        }
    }

    /// Whether events are currently delivered.
    pub fn is_active(&self) -> (active: bool)
        ensures
            active == self@.is_active(),
    {
        self.started && !self.stopped
    }

    /// How many detach commands this subscription has issued so far.
    pub fn detach_calls(&self) -> (n: u64)
        ensures
            n == self@.detach_calls,
    {
        self.detach_calls
    }
}

/// Unmounting stops a subscription exactly once: stopping issues at most one
/// detach command over the subscription's whole lifetime (exactly one when the
/// observation had started), and stopping again changes nothing.
pub proof fn lemma_stop_exactly_once(s: SubscriptionModel)
    requires
        s.wf(),
    ensures
        s.stop().wf(),
        s.stop().detach_calls == if s.started {
            1int
        } else {
            0int
        },
        s.stop().stop() == s.stop(),
{
}

} // verus!
