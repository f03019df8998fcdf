//! Scroll tracking: one container's live scroll offset along one axis.
//!
//! A tracker wraps one scrollable container and republishes the container's
//! scroll position, in whole pixels, on every scroll event the host delivers.
//! Derived consumers read the offset; only the tracker writes it.

use vstd::prelude::*;
use crate::subscription::Subscription;
use crate::subscription::SubscriptionModel;

verus! {

/// The mathematical state of a scroll tracker.
pub ghost struct ScrollTrackerModel {
    /// The published offset, in whole pixels.
    pub offset: int,
    /// The scroll listener's subscription.
    pub sub: SubscriptionModel,
}

impl ScrollTrackerModel {
    pub open spec fn wf(self) -> bool {
        self.sub.wf()
    }

    /// What one scroll event does: a delivered offset replaces the published
    /// one while the subscription is active, and is ignored otherwise.
    pub open spec fn on_scroll(self, offset: int) -> ScrollTrackerModel {
        if self.sub.is_active() {
            ScrollTrackerModel { offset, sub: self.sub }
        } else {
            self
        }
    }

    /// What a whole sequence of scroll events does, in delivery order.
    pub open spec fn run(self, events: Seq<int>) -> ScrollTrackerModel
        decreases events.len(),
    {
        if events.len() == 0 {
            self
        } else {
            self.on_scroll(events[0]).run(events.skip(1))
        }
    }
}

/// A live scroll offset for one mounted container.
pub struct ScrollTracker {
    offset: u64,
    sub: Subscription,
}

impl View for ScrollTracker {
    type V = ScrollTrackerModel;

    closed spec fn view(&self) -> ScrollTrackerModel {
        ScrollTrackerModel { offset: self.offset as int, sub: self.sub@ }
    }
}

impl ScrollTracker {
    /// A tracker for a container that has not mounted yet: offset zero,
    /// listener pending.
    pub fn new() -> (t: ScrollTracker)
        ensures
            t@.wf(),
            t@.offset == 0,
            !t@.sub.started,
            !t@.sub.stopped,
    {
        ScrollTracker { offset: 0, sub: Subscription::new() }
    }

    /// The container reference resolved: the scroll listener attaches and
    /// tracking starts. Until this call every scroll event is ignored, which
    /// is the deferred-start condition, not an error.
    pub fn container_mounted(&mut self)
        requires
            old(self)@.wf(),
        ensures
            final(self)@.wf(),
            final(self)@.offset == old(self)@.offset,
            final(self)@.sub == old(self)@.sub.attach(),
    {
        self.sub.attach();
    }

    /// A scroll event: publishes the container's current position. Ignored
    /// while the listener is pending and after it was stopped.
    pub fn on_scroll(&mut self, offset: u64)
        requires
            old(self)@.wf(),
        ensures
            final(self)@.wf(),
            final(self)@ == old(self)@.on_scroll(offset as int),
            old(self)@.sub.is_active() ==> final(self)@.offset == offset as int,
            !old(self)@.sub.is_active() ==> final(self)@ == old(self)@,
    {
        if self.sub.is_active() {
            self.offset = offset;
        }
    }

    /// The published offset, in whole pixels.
    pub fn current_offset(&self) -> (offset: u64)
        ensures
            offset as int == self@.offset,
    {
        self.offset
    }

    /// Unmount: detaches the scroll listener exactly once. Returns whether a
    /// detach command was issued now; a second call is a no-op.
    pub fn unmount(&mut self) -> (detached: bool)
        requires
            old(self)@.wf(),
        ensures
            final(self)@.wf(),
            final(self)@.offset == old(self)@.offset,
            final(self)@.sub == old(self)@.sub.stop(),
            detached == old(self)@.sub.is_active(),
            final(self)@.sub.stopped,
    {
        self.sub.stop()
    }

    /// How many detach commands this tracker's subscription has issued.
    pub fn detach_calls(&self) -> (n: u64)
        ensures
            n == self@.sub.detach_calls,
    {
        self.sub.detach_calls()
    }
}

/// No scroll event is delivered after the listener stops: a stopped tracker is
/// left exactly as it was by any sequence of scroll events.
pub proof fn lemma_scroll_run_stopped(t: ScrollTrackerModel, events: Seq<int>)
    requires
        t.sub.stopped,
    ensures
        t.run(events) == t,
    decreases events.len(),
{
    if events.len() > 0 {
        lemma_scroll_run_stopped(t, events.skip(1));
    }
}

} // verus!
