//! Visibility-gated media playback: play while visible, pause while not.
//!
//! The component owns one intersection watcher over the media element. On
//! every change of the published intersection state it issues one playback
//! command: play when the element becomes visible, pause (with an optional
//! rewind to time zero) when it stops being visible. Repeated identical
//! states issue no duplicate command. The host may reject a command (an
//! autoplay policy, say); the caller swallows the rejection — playback is
//! best-effort, never authoritative.

use vstd::prelude::*;
use crate::intersection::IntersectionWatcher;
use crate::intersection::IntersectionWatcherModel;

verus! {

/// A playback command handed to the host media subsystem.
#[derive(Clone, Copy, Debug, PartialEq, Eq, Structural)]
pub enum MediaCommand {
    /// Start playback.
    Play,
    /// Pause playback where it stands.
    Pause,
    /// Pause playback and rewind to time zero.
    PauseAndReset,
}

/// The mathematical state of a visibility-gated media component.
pub ghost struct MediaModel {
    /// The owned intersection watcher.
    pub watcher: IntersectionWatcherModel,
    /// Whether losing visibility also rewinds to time zero.
    pub reset_on_hide: bool,
}

impl MediaModel {
    pub open spec fn wf(self) -> bool {
        self.watcher.wf()
    }

    /// The command a hide issues: pause, rewinding in the reset variant.
    pub open spec fn hide_command(self) -> MediaCommand {
        if self.reset_on_hide {
            MediaCommand::PauseAndReset
        } else {
            MediaCommand::Pause
        }
    }

    /// The command one batch of records issues: exactly one command per
    /// change of the published state, none otherwise.
    pub open spec fn command_for(self, records: Seq<bool>) -> Option<MediaCommand> {
        let now = self.watcher.on_batch(records).intersecting;
        if now == self.watcher.intersecting {
            None
        } else if now {
            Some(MediaCommand::Play)
        } else {
            Some(self.hide_command())
        }
    }
}

/// Drives playback of one media element from its live intersection state.
pub struct VisibilityGatedMedia {
    watcher: IntersectionWatcher,
    reset_on_hide: bool,
}

impl View for VisibilityGatedMedia {
    type V = MediaModel;

    closed spec fn view(&self) -> MediaModel {
        MediaModel { watcher: self.watcher@, reset_on_hide: self.reset_on_hide }
    }
}

impl VisibilityGatedMedia {
    /// A fresh component: not visible, observation pending. The threshold is
    /// the fraction of the element's area, in thousandths, that must be
    /// visible to count as intersecting.
    pub fn new(threshold_milli: u32, reset_on_hide: bool) -> (c: VisibilityGatedMedia)
        requires
            threshold_milli <= 1000,
        ensures
            c@.wf(),
            c@.watcher.threshold_milli == threshold_milli as int,
            !c@.watcher.intersecting,
            !c@.watcher.sub.started,
            !c@.watcher.sub.stopped,
            c@.reset_on_hide == reset_on_hide,
    {
        VisibilityGatedMedia { watcher: IntersectionWatcher::new(threshold_milli), reset_on_hide }
    }

    /// The media element resolved: the observation registers. If it never
    /// does, no command is ever issued — non-fatal.
    pub fn element_mounted(&mut self)
        requires
            old(self)@.wf(),
        ensures
            final(self)@.wf(),
            final(self)@.watcher.sub == old(self)@.watcher.sub.attach(),
            final(self)@.watcher.intersecting == old(self)@.watcher.intersecting,
            final(self)@.watcher.threshold_milli == old(self)@.watcher.threshold_milli,
            final(self)@.reset_on_hide == old(self)@.reset_on_hide,
    {
        self.watcher.element_mounted();
    }

    /// One host callback: a batch of intersection records. Issues exactly one
    /// command when the published state changes — play on becoming visible,
    /// pause (rewinding in the reset variant) on becoming hidden — and no
    /// command when the state is unchanged, the batch is empty, or the
    /// observation is not active.
    pub fn on_batch(&mut self, records: &Vec<bool>) -> (command: Option<MediaCommand>)
        requires
            old(self)@.wf(),
        ensures
            final(self)@.wf(),
            final(self)@.watcher == old(self)@.watcher.on_batch(records@),
            final(self)@.watcher.sub == old(self)@.watcher.sub,
            final(self)@.watcher.threshold_milli == old(self)@.watcher.threshold_milli,
            final(self)@.reset_on_hide == old(self)@.reset_on_hide,
            command == old(self)@.command_for(records@),
            command is Some <==> final(self)@.watcher.intersecting
                != old(self)@.watcher.intersecting,
            command == Some(MediaCommand::Play) <==> (!old(self)@.watcher.intersecting
                && final(self)@.watcher.intersecting),
            (old(self)@.watcher.intersecting && !final(self)@.watcher.intersecting) ==> command
                == Some(old(self)@.hide_command()),
            old(self)@.watcher.sub.is_active() && records@.len() > 0
                ==> final(self)@.watcher.intersecting == records@.last(),
            !old(self)@.watcher.sub.is_active() ==> final(self)@.watcher == old(self)@.watcher,
    {
        let was = self.watcher.is_intersecting();
        self.watcher.on_batch(records);
        let now = self.watcher.is_intersecting();
        if now != was {
            if now {
                Some(MediaCommand::Play)
            } else if self.reset_on_hide {
                Some(MediaCommand::PauseAndReset)
            } else {
                Some(MediaCommand::Pause)
            }
        } else {
            None
        }
    }

    /// The published intersection state.
    pub fn is_visible(&self) -> (visible: bool)
        ensures
            visible == self@.watcher.intersecting,
    {
        self.watcher.is_intersecting()
    }

    /// Whether losing visibility also rewinds to time zero.
    pub fn resets_on_hide(&self) -> (reset: bool)
        ensures
            reset == self@.reset_on_hide,
    {
        self.reset_on_hide
    }

    /// Unmount: releases the observation exactly once; no command and no
    /// record ever follows.
    pub fn unmount(&mut self) -> (detached: bool)
        requires
            old(self)@.wf(),
        ensures
            final(self)@.wf(),
            final(self)@.watcher.sub == old(self)@.watcher.sub.stop(),
            final(self)@.watcher.intersecting == old(self)@.watcher.intersecting,
            final(self)@.reset_on_hide == old(self)@.reset_on_hide,
            detached == old(self)@.watcher.sub.is_active(),
            final(self)@.watcher.sub.stopped,
    {
        self.watcher.stop()
    }

    /// How many detach commands this component's one subscription has issued.
    pub fn detach_calls(&self) -> (n: u64)
        ensures
            n == self@.watcher.sub.detach_calls,
    {
        self.watcher.detach_calls()
    }
}

} // verus!
