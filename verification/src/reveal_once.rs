//! Reveal-once: a sticky "has been revealed" flag derived from intersection
//! events.
//!
//! The component owns one intersection watcher with a threshold of 0.8 (the
//! element must be 80% visible to count). The first record the observation
//! reports is discarded as a priming event: it is the baseline the host
//! delivers right after observing starts, and reacting to it would reveal
//! content at page load before the user has scrolled. From the second record
//! on, any intersecting record sets the flag, and nothing ever clears it.

use vstd::prelude::*;
use crate::intersection::IntersectionWatcher;
use crate::intersection::IntersectionWatcherModel;

verus! {

/// The reveal threshold: 80% of the element's area, in thousandths.
pub const REVEAL_THRESHOLD_MILLI: u32 = 800;

/// The mathematical state of a reveal-once component.
pub ghost struct RevealModel {
    /// The owned intersection watcher.
    pub watcher: IntersectionWatcherModel,
    /// The priming event has been consumed.
    pub primed: bool,
    /// The sticky revealed flag.
    pub revealed: bool,
}

impl RevealModel {
    pub open spec fn wf(self) -> bool {
        self.watcher.wf()
    }

    /// What one intersection record does. While the observation is active:
    /// the first record only primes; afterwards an intersecting record sets
    /// the flag and a non-intersecting one is ignored. An inactive watcher
    /// delivers nothing.
    pub open spec fn on_record(self, intersecting: bool) -> RevealModel {
        if self.watcher.sub.is_active() {
            RevealModel {
                watcher: self.watcher.on_record(intersecting),
                primed: true,
                revealed: self.revealed || (self.primed && intersecting),
            }
        } else {
            self
        }
    }

    /// What a sequence of records does, in delivery order.
    pub open spec fn run(self, records: Seq<bool>) -> RevealModel
        decreases records.len(),
    {
        if records.len() == 0 {
            self
        } else {
            self.on_record(records[0]).run(records.skip(1))
        }
    }
}

/// Wraps child content and exposes a boolean "revealed" that starts false,
/// flips to true the first time the wrapped element becomes visible after the
/// priming event, and never flips back.
pub struct RevealOnFirstVisible {
    watcher: IntersectionWatcher,
    primed: bool,
    revealed: bool,
    delay_ms: u64,
}

impl View for RevealOnFirstVisible {
    type V = RevealModel;

    closed spec fn view(&self) -> RevealModel {
        RevealModel { watcher: self.watcher@, primed: self.primed, revealed: self.revealed }
    }
}

impl RevealOnFirstVisible {
    /// A fresh component: hidden, unprimed, observation pending. The delay is
    /// handed to the presentation layer for transition timing only; it never
    /// gates the transition itself.
    pub fn new(delay_ms: u64) -> (c: RevealOnFirstVisible)
        ensures
            c@.wf(),
            !c@.primed,
            !c@.revealed,
            c@.watcher.threshold_milli == REVEAL_THRESHOLD_MILLI as int,
            !c@.watcher.sub.started,
            !c@.watcher.sub.stopped,
            c.delay_ms_spec() == delay_ms as int,
    {
        RevealOnFirstVisible {
            watcher: IntersectionWatcher::new(REVEAL_THRESHOLD_MILLI),
            primed: false,
            revealed: false,
            delay_ms,
        }
    }

    /// The presentation delay, in milliseconds.
    pub closed spec fn delay_ms_spec(self) -> int {
        self.delay_ms as int
    }

    /// The wrapped element resolved: the observation registers.
    pub fn element_mounted(&mut self)
        requires
            old(self)@.wf(),
        ensures
            final(self)@.wf(),
            final(self)@.watcher.sub == old(self)@.watcher.sub.attach(),
            final(self)@.primed == old(self)@.primed,
            final(self)@.revealed == old(self)@.revealed,
            final(self).delay_ms_spec() == old(self).delay_ms_spec(),
    {
        self.watcher.element_mounted();
    }

    /// One intersection record. The revealed flag is monotonic: once true it
    /// stays true, whatever the record says.
    pub fn on_record(&mut self, intersecting: bool)
        requires
            old(self)@.wf(),
        ensures
            final(self)@.wf(),
            final(self)@ == old(self)@.on_record(intersecting),
            old(self)@.revealed ==> final(self)@.revealed,
            final(self).delay_ms_spec() == old(self).delay_ms_spec(),
    {
        if self.watcher.is_active() {
            if self.primed && intersecting {
                self.revealed = true;
            }
            self.primed = true;
            self.watcher.on_record(intersecting);
        }
    }

    /// One host callback: a batch of records, each processed in order.
    pub fn on_batch(&mut self, records: &Vec<bool>)
        requires
            old(self)@.wf(),
        ensures
            final(self)@.wf(),
            final(self)@ == old(self)@.run(records@),
            old(self)@.revealed ==> final(self)@.revealed,
            final(self).delay_ms_spec() == old(self).delay_ms_spec(),
    {
        let ghost all = records@;
        let mut i: usize = 0;
        while i < records.len()
            invariant
                self@.wf(),
                i <= records.len(),
                records@ == all,
                self@ == old(self)@.run(all.take(i as int)),
                self.delay_ms_spec() == old(self).delay_ms_spec(),
            decreases records.len() - i,
        {
            proof {
                assert(all.take(i + 1) =~= all.take(i as int).push(all[i as int]));
                lemma_run_push(old(self)@, all.take(i as int), all[i as int]);
            }
            self.on_record(records[i]);
            i = i + 1;
        }
        proof {
            assert(all.take(all.len() as int) =~= all);
            lemma_run_monotonic(old(self)@, all);
        }
    }

    /// The sticky revealed flag, read by conditional styling.
    pub fn is_revealed(&self) -> (revealed: bool)
        ensures
            revealed == self@.revealed,
    {
        self.revealed
    }

    /// The presentation delay, in milliseconds.
    pub fn delay_ms(&self) -> (d: u64)
        ensures
            d as int == self.delay_ms_spec(),
    {
        self.delay_ms
    }

    /// Unmount: releases the observation exactly once; the flag keeps its
    /// value but no further record is ever delivered.
    pub fn unmount(&mut self) -> (detached: bool)
        requires
            old(self)@.wf(),
        ensures
            final(self)@.wf(),
            final(self)@.watcher.sub == old(self)@.watcher.sub.stop(),
            final(self)@.primed == old(self)@.primed,
            final(self)@.revealed == old(self)@.revealed,
            detached == old(self)@.watcher.sub.is_active(),
            final(self)@.watcher.sub.stopped,
    {
        self.watcher.stop()
    }

    /// How many detach commands this component's one subscription has issued.
    pub fn detach_calls(&self) -> (n: u64)
        ensures
            n == self@.watcher.sub.detach_calls,
    {
        self.watcher.detach_calls()
    }
}

/// Running a record sequence and then one more record is running the extended
/// sequence.
proof fn lemma_run_push(s: RevealModel, records: Seq<bool>, r: bool)
    ensures
        s.run(records.push(r)) == s.run(records).on_record(r),
    decreases records.len(),
{
    reveal_with_fuel(RevealModel::run, 3);
    if records.len() == 0 {
        assert(records.push(r)[0] == r);
        assert(records.push(r).skip(1) =~= Seq::<bool>::empty());
    } else {
        assert(records.push(r)[0] == records[0]);
        assert(records.push(r).skip(1) =~= records.skip(1).push(r));
        lemma_run_push(s.on_record(records[0]), records.skip(1), r);
    }
}

/// The revealed flag is monotonic: once true, it remains true for all
/// subsequent states, regardless of later intersection records.
pub proof fn lemma_run_monotonic(s: RevealModel, records: Seq<bool>)
    ensures
        s.revealed ==> s.run(records).revealed,
    decreases records.len(),
{
    if records.len() > 0 {
        lemma_run_monotonic(s.on_record(records[0]), records.skip(1));
    }
}

/// Some record of a non-empty sequence is true iff its head is, or some
/// record of its tail is.
proof fn lemma_some_true_head_tail(records: Seq<bool>)
    requires
        records.len() > 0,
    ensures
        (exists|i: int| 0 <= i < records.len() && records[i]) == (records[0] || exists|j: int|
            0 <= j < records.skip(1).len() && records.skip(1)[j]),
{
    if exists|i: int| 0 <= i < records.len() && records[i] {
        let i = choose|i: int| 0 <= i < records.len() && records[i];
        if i > 0 {
            assert(records.skip(1)[i - 1] == records[i]);
        }
    }
    if exists|j: int| 0 <= j < records.skip(1).len() && records.skip(1)[j] {
        let j = choose|j: int| 0 <= j < records.skip(1).len() && records.skip(1)[j];
        assert(records[j + 1] == records.skip(1)[j]);
    }
}

/// Some record after the head of a non-empty sequence is true iff some record
/// of its tail is.
proof fn lemma_some_true_after_head(records: Seq<bool>)
    requires
        records.len() > 0,
    ensures
        (exists|i: int| 1 <= i < records.len() && records[i]) == (exists|j: int|
            0 <= j < records.skip(1).len() && records.skip(1)[j]),
{
    if exists|i: int| 1 <= i < records.len() && records[i] {
        let i = choose|i: int| 1 <= i < records.len() && records[i];
        assert(records.skip(1)[i - 1] == records[i]);
    }
    if exists|j: int| 0 <= j < records.skip(1).len() && records.skip(1)[j] {
        let j = choose|j: int| 0 <= j < records.skip(1).len() && records.skip(1)[j];
        assert(records[j + 1] == records.skip(1)[j]);
        assert(1 <= j + 1 < records.len() && records[j + 1]);
    }
}

/// Once the priming event is consumed, the revealed flag after a record
/// sequence is the old flag joined with "some record intersected".
proof fn lemma_run_primed(s: RevealModel, records: Seq<bool>)
    requires
        s.primed,
        s.watcher.sub.is_active(),
    ensures
        s.run(records).revealed == (s.revealed || exists|i: int|
            0 <= i < records.len() && records[i]),
    decreases records.len(),
{
    if records.len() > 0 {
        let s1 = s.on_record(records[0]);
        assert(s1.watcher.sub == s.watcher.sub);
        lemma_run_primed(s1, records.skip(1));
        lemma_some_true_head_tail(records);
    }
}

/// On a freshly mounted component, the revealed flag after a record sequence
/// is true iff at least one record after the priming event intersected.
pub proof fn lemma_reveal_iff_visible_after_priming(s: RevealModel, records: Seq<bool>)
    requires
        !s.primed,
        !s.revealed,
        s.watcher.sub.is_active(),
    ensures
        s.run(records).revealed == exists|i: int| 1 <= i < records.len() && records[i],
{
    if records.len() > 0 {
        let s1 = s.on_record(records[0]);
        assert(s1.primed && !s1.revealed && s1.watcher.sub == s.watcher.sub);
        lemma_run_primed(s1, records.skip(1));
        lemma_some_true_after_head(records);
    }
}

} // verus!
