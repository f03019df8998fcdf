//! Scale-on-scroll: a bounded scale factor derived from an ambient scroll
//! offset.
//!
//! The scale is a pure function of the offset: `1.0 - clamp(offset / 1000,
//! 0, 0.5)`, monotonically non-increasing, ceiling `1.0` and floor `0.5`.
//! This crate works in whole pixels and in thousandths of the scale (a scale
//! of `1.0` is `1000`, `0.5` is `500`); the presentation layer divides by
//! `1000.0` when it writes the CSS transform.

use vstd::prelude::*;
use crate::scroll::ScrollTracker;

verus! {

/// A scale factor of 1.0, in thousandths.
pub const SCALE_ONE_MILLI: u32 = 1000;

/// `clamp(offset / 1000, 0, 0.5)` in thousandths, for an offset in whole
/// pixels: the amount the panel has shrunk by.
pub open spec fn spec_scale_drop_milli(offset: int) -> int {
    if offset < 0 {
        0
    } else if offset > 500 {
        500
    } else {
        offset
    }
}

/// The scale factor in thousandths: `1.0 - clamp(offset / 1000, 0, 0.5)`.
pub open spec fn spec_scale_milli(offset: int) -> int {
    1000 - spec_scale_drop_milli(offset)
}

/// The scale factor for a scroll offset, in thousandths.
pub fn scale_factor_milli(offset: u64) -> (scale: u32)
    ensures
        scale == spec_scale_milli(offset as int),
        500 <= scale <= 1000,
{
    if offset >= 500 {
        500
    } else {
        1000 - (offset as u32)
    }
}

/// The scale factor is `1.0` at rest, never leaves `[0.5, 1.0]`, and sits at
/// the floor `0.5` for every offset of at least 500 pixels.
pub proof fn lemma_scale_factor_bounds(offset: int)
    ensures
        500 <= spec_scale_milli(offset) <= 1000,
        offset <= 0 ==> spec_scale_milli(offset) == 1000,
        offset >= 500 ==> spec_scale_milli(offset) == 500,
{
}

/// The scale factor is monotonically non-increasing in the offset.
pub proof fn lemma_scale_factor_monotone(o1: int, o2: int)
    requires
        o1 <= o2,
    ensures
        spec_scale_milli(o2) <= spec_scale_milli(o1),
{
}

/// The configuration errors of this crate. They surface at mount and abort
/// the offending subtree; nothing else in the crate is a fatal condition.
#[derive(Clone, Copy, Debug, PartialEq, Eq, Structural)]
pub enum ConfigError {
    /// A scale-on-scroll panel was mounted with no ambient scroll provider in
    /// scope.
    MissingScrollProvider,
}

impl ConfigError {
    /// A fixed description of the error.
    pub fn message(&self) -> (msg: &'static str)
        ensures
            msg@ == "missing required context: no ambient scroll provider"@,
    {
        "missing required context: no ambient scroll provider"
    }
}

/// The mathematical state of a scale-on-scroll panel.
pub ghost struct ScaleOnScrollModel {
    /// The last offset the ambient provider published, in whole pixels.
    pub offset: int,
    /// The derived scale, in thousandths.
    pub scale_milli: int,
}

impl ScaleOnScrollModel {
    /// The held scale is the one derived from the held offset.
    pub open spec fn wf(self) -> bool {
        self.scale_milli == spec_scale_milli(self.offset)
    }
}

/// A panel that shrinks as its ambient container scrolls. It must be mounted
/// inside a component that publishes a scroll offset; the provider is passed
/// explicitly, and mounting without one is a configuration error, raised at
/// mount and not at first use.
pub struct ScaleOnScroll {
    offset: u64,
    scale_milli: u32,
}

impl View for ScaleOnScroll {
    type V = ScaleOnScrollModel;

    closed spec fn view(&self) -> ScaleOnScrollModel {
        ScaleOnScrollModel { offset: self.offset as int, scale_milli: self.scale_milli as int }
    }
}

impl ScaleOnScroll {
    /// Mounts the panel under an ambient scroll provider. With no provider in
    /// scope this fails fast with a configuration error; with one, the panel
    /// starts at the provider's current offset.
    pub fn mount(provider: Option<&ScrollTracker>) -> (result: Result<ScaleOnScroll, ConfigError>)
        ensures
            result is Ok <==> provider is Some,
            result is Err ==> result->Err_0 == ConfigError::MissingScrollProvider,
            result is Ok ==> result->Ok_0@.wf() && result->Ok_0@.offset == provider->0@.offset,
    {
        match provider {
            None => Err(ConfigError::MissingScrollProvider),
            Some(tracker) => {
                let offset = tracker.current_offset();
                let scale_milli = scale_factor_milli(offset);
                Ok(ScaleOnScroll { offset, scale_milli })
            },
        }
    }

    /// The provider published a new offset: recompute the scale. Runs on every
    /// change, with no debouncing.
    pub fn on_scroll_change(&mut self, offset: u64)
        ensures
            final(self)@.wf(),
            final(self)@.offset == offset as int,
            final(self)@.scale_milli == spec_scale_milli(offset as int),
    {
        self.offset = offset;
        self.scale_milli = scale_factor_milli(offset);
    }

    /// The current scale factor in thousandths, in `[500, 1000]`.
    pub fn scale_milli(&self) -> (scale: u32)
        requires
            self@.wf(),
        ensures
            scale == self@.scale_milli,
            500 <= scale <= 1000,
    {
        proof {
            lemma_scale_factor_bounds(self@.offset);
        }
        self.scale_milli
    }
}

} // verus!
