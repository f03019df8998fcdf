//! Intersection watching: whether one element currently intersects the
//! viewport.
//!
//! A watcher wraps one element and a threshold (the fraction of the element's
//! area, in thousandths, that must be visible to count as intersecting). The
//! host delivers intersection records in batches; one batch may carry several
//! records in order, and only the last record of a batch determines the new
//! state. Several independent watchers on one element are permitted.

use vstd::prelude::*;
use crate::subscription::Subscription;
use crate::subscription::SubscriptionModel;

verus! {

/// The mathematical state of an intersection watcher.
pub ghost struct IntersectionWatcherModel {
    /// The configured threshold, in thousandths of the element's area.
    pub threshold_milli: int,
    /// The published intersection state.
    pub intersecting: bool,
    /// The observation's subscription.
    pub sub: SubscriptionModel,
}

impl IntersectionWatcherModel {
    pub open spec fn wf(self) -> bool {
        &&& self.sub.wf()
        &&& 0 <= self.threshold_milli <= 1000
    }

    /// What one intersection record does: it replaces the published state
    /// while the observation is active, and is ignored otherwise.
    pub open spec fn on_record(self, intersecting: bool) -> IntersectionWatcherModel {
        if self.sub.is_active() {
            IntersectionWatcherModel { intersecting, ..self }
        } else {
            self
        }
    }

    /// What one batch of records does: each record in order, so the last
    /// record of a non-empty batch decides the new state.
    pub open spec fn on_batch(self, records: Seq<bool>) -> IntersectionWatcherModel
        decreases records.len(),
    {
        if records.len() == 0 {
            self
        } else {
            self.on_record(records[0]).on_batch(records.skip(1))
        }
    }

    /// What a whole sequence of batches does, in delivery order.
    pub open spec fn run(self, batches: Seq<Seq<bool>>) -> IntersectionWatcherModel
        decreases batches.len(),
    {
        if batches.len() == 0 {
            self
        } else {
            self.on_batch(batches[0]).run(batches.skip(1))
        }
    }
}

/// A live intersection state for one watched element.
pub struct IntersectionWatcher {
    threshold_milli: u32,
    intersecting: bool,
    sub: Subscription,
}

impl View for IntersectionWatcher {
    type V = IntersectionWatcherModel;

    closed spec fn view(&self) -> IntersectionWatcherModel {
        IntersectionWatcherModel {
            threshold_milli: self.threshold_milli as int,
            intersecting: self.intersecting,
            sub: self.sub@,
        }
    }
}

impl IntersectionWatcher {
    /// A watcher for an element that has not mounted yet: not intersecting,
    /// observation pending. The threshold is a fraction of the element's area
    /// in thousandths, so at most 1000.
    pub fn new(threshold_milli: u32) -> (w: IntersectionWatcher)
        requires
            threshold_milli <= 1000,
        ensures
            w@.wf(),
            w@.threshold_milli == threshold_milli as int,
            !w@.intersecting,
            !w@.sub.started,
            !w@.sub.stopped,
    {
        IntersectionWatcher { threshold_milli, intersecting: false, sub: Subscription::new() }
    }

    /// The element reference resolved: the observation registers and the
    /// watcher starts reacting. Until this call every record is ignored,
    /// which is the deferred-start condition, not an error.
    pub fn element_mounted(&mut self)
        requires
            old(self)@.wf(),
        ensures
            final(self)@.wf(),
            final(self)@.intersecting == old(self)@.intersecting,
            final(self)@.threshold_milli == old(self)@.threshold_milli,
            final(self)@.sub == old(self)@.sub.attach(),
    {
        self.sub.attach();
    }

    /// One intersection record: publishes its intersecting flag. Ignored while
    /// the observation is pending and after it was stopped.
    pub fn on_record(&mut self, intersecting: bool)
        requires
            old(self)@.wf(),
        ensures
            final(self)@.wf(),
            final(self)@ == old(self)@.on_record(intersecting),
    {
        if self.sub.is_active() {
            self.intersecting = intersecting;
        }
    }

    /// One host callback: a batch of intersection records in delivery order.
    /// While the observation is active, the last record of a non-empty batch
    /// becomes the published state; an empty batch changes nothing.
    pub fn on_batch(&mut self, records: &Vec<bool>)
        requires
            old(self)@.wf(),
        ensures
            final(self)@.wf(),
            final(self)@ == old(self)@.on_batch(records@),
            final(self)@.sub == old(self)@.sub,
            final(self)@.threshold_milli == old(self)@.threshold_milli,
            old(self)@.sub.is_active() && records@.len() > 0 ==> final(self)@.intersecting
                == records@.last(),
            !old(self)@.sub.is_active() ==> final(self)@ == old(self)@,
    {
        let ghost all = records@;
        let mut i: usize = 0;
        while i < records.len()
            invariant
                self@.wf(),
                i <= records.len(),
                records@ == all,
                self@ == old(self)@.on_batch(all.take(i as int)),
            decreases records.len() - i,
        {
            proof {
                assert(all.take(i + 1) =~= all.take(i as int).push(all[i as int]));
                lemma_on_batch_push(old(self)@, all.take(i as int), all[i as int]);
            }
            self.on_record(records[i]);
            i = i + 1;
        }
        proof {
            assert(all.take(all.len() as int) =~= all);
            lemma_on_batch_preserves(old(self)@, all);
            if old(self)@.sub.is_active() {
                lemma_on_batch_last(old(self)@, all);
            } else {
                lemma_on_batch_inactive(old(self)@, all);
            }
        }
    }

    /// Whether the observation is currently delivering records.
    pub fn is_active(&self) -> (active: bool)
        ensures
            active == self@.sub.is_active(),
    {
        self.sub.is_active()
    }

    /// The published intersection state.
    pub fn is_intersecting(&self) -> (intersecting: bool)
        ensures
            intersecting == self@.intersecting,
    {
        self.intersecting
    }

    /// The configured threshold, in thousandths.
    pub fn threshold_milli(&self) -> (t: u32)
        ensures
            t as int == self@.threshold_milli,
    {
        self.threshold_milli
    }

    /// The stop handle: releases the observation exactly once. Returns whether
    /// a detach command was issued now; a second call is a no-op.
    pub fn stop(&mut self) -> (detached: bool)
        requires
            old(self)@.wf(),
        ensures
            final(self)@.wf(),
            final(self)@.intersecting == old(self)@.intersecting,
            final(self)@.threshold_milli == old(self)@.threshold_milli,
            final(self)@.sub == old(self)@.sub.stop(),
            detached == old(self)@.sub.is_active(),
            final(self)@.sub.stopped,
    {
        self.sub.stop()
    }

    /// How many detach commands this watcher's subscription has issued.
    pub fn detach_calls(&self) -> (n: u64)
        ensures
            n == self@.sub.detach_calls,
    {
        self.sub.detach_calls()
    }
}

/// Processing a batch and then one more record is processing the extended
/// batch.
proof fn lemma_on_batch_push(w: IntersectionWatcherModel, records: Seq<bool>, r: bool)
    ensures
        w.on_batch(records.push(r)) == w.on_batch(records).on_record(r),
    decreases records.len(),
{
    reveal_with_fuel(IntersectionWatcherModel::on_batch, 3);
    if records.len() == 0 {
        assert(records.push(r)[0] == r);
        assert(records.push(r).skip(1) =~= Seq::<bool>::empty());
    } else {
        assert(records.push(r)[0] == records[0]);
        assert(records.push(r).skip(1) =~= records.skip(1).push(r));
        lemma_on_batch_push(w.on_record(records[0]), records.skip(1), r);
    }
}

/// A batch of records only ever touches the published state: the
/// subscription and the threshold come through unchanged.
proof fn lemma_on_batch_preserves(w: IntersectionWatcherModel, records: Seq<bool>)
    ensures
        w.on_batch(records).sub == w.sub,
        w.on_batch(records).threshold_milli == w.threshold_milli,
    decreases records.len(),
{
    if records.len() > 0 {
        lemma_on_batch_preserves(w.on_record(records[0]), records.skip(1));
    }
}

/// On an active watcher, a non-empty batch publishes its last record.
proof fn lemma_on_batch_last(w: IntersectionWatcherModel, records: Seq<bool>)
    requires
        w.sub.is_active(),
    ensures
        records.len() > 0 ==> w.on_batch(records).intersecting == records.last(),
        w.on_batch(records).sub == w.sub,
        w.on_batch(records).threshold_milli == w.threshold_milli,
        records.len() == 0 ==> w.on_batch(records) == w,
    decreases records.len(),
{
    if records.len() > 0 {
        lemma_on_batch_last(w.on_record(records[0]), records.skip(1));
        if records.len() > 1 {
            assert(records.skip(1).last() == records.last());
        }
    }
}

/// No record is delivered to an inactive watcher: a batch leaves it unchanged.
proof fn lemma_on_batch_inactive(w: IntersectionWatcherModel, records: Seq<bool>)
    requires
        !w.sub.is_active(),
    ensures
        w.on_batch(records) == w,
    decreases records.len(),
{
    if records.len() > 0 {
        lemma_on_batch_inactive(w, records.skip(1));
    }
}

/// No record is delivered after the stop handle runs: a stopped watcher is
/// left exactly as it was by any sequence of batches.
pub proof fn lemma_watcher_run_stopped(w: IntersectionWatcherModel, batches: Seq<Seq<bool>>)
    requires
        w.sub.stopped,
    ensures
        w.run(batches) == w,
    decreases batches.len(),
{
    if batches.len() > 0 {
        lemma_on_batch_inactive(w, batches[0]);
        lemma_watcher_run_stopped(w, batches.skip(1));
    }
}

} // verus!
