//! Pointer-relative tracking and the spotlight overlay it feeds.
//!
//! On every pointer-move over a container, the tracker turns the pointer's
//! client coordinates into coordinates relative to the container's bounding
//! box. The spotlight overlay keeps that position together with a hover
//! opacity: full on pointer-enter or move, zero on pointer-leave. All
//! coordinates are whole pixels; the opacity is in thousandths (binary for
//! now, continuous so easing can come later).

use vstd::prelude::*;

verus! {

/// The fixed radius of the spotlight's radial highlight, in pixels.
pub const SPOTLIGHT_RADIUS_PX: u64 = 600;

/// A hover opacity of 1.0, in thousandths.
pub const OPACITY_FULL_MILLI: u32 = 1000;

/// A container's bounding box as the host reports it, in whole pixels.
#[derive(Clone, Copy, Debug, PartialEq, Eq, Structural)]
pub struct BoundingBox {
    /// Distance of the box's left edge from the viewport's left edge.
    pub left: i64,
    /// Distance of the box's top edge from the viewport's top edge.
    pub top: i64,
    /// The box's width.
    pub width: i64,
    /// The box's height.
    pub height: i64,
}

/// A pointer position relative to a container's top-left corner, in pixels.
#[derive(Clone, Copy, Debug, PartialEq, Eq, Structural)]
pub struct PointerPosition {
    pub x: i64,
    pub y: i64,
}

/// The pointer's position relative to the box's top-left corner.
pub fn relative_position(container: &BoundingBox, client_x: i64, client_y: i64) -> (pos:
    PointerPosition)
    requires
        i64::MIN <= client_x - container.left <= i64::MAX,
        i64::MIN <= client_y - container.top <= i64::MAX,
    ensures
        pos.x == client_x - container.left,
        pos.y == client_y - container.top,
{
    PointerPosition { x: client_x - container.left, y: client_y - container.top }
}

/// The mathematical state of a pointer-relative tracker.
pub ghost struct PointerTrackerModel {
    /// The last published relative position.
    pub pos: PointerPosition,
}

impl PointerTrackerModel {
    /// What one pointer-move does: with a resolved container, the relative
    /// position is published; with none, the event is dropped and the
    /// position is unchanged — never an error.
    pub open spec fn on_pointer_move(
        self,
        container: Option<BoundingBox>,
        client_x: int,
        client_y: int,
    ) -> PointerTrackerModel {
        match container {
            Some(b) => PointerTrackerModel {
                pos: PointerPosition {
                    x: (client_x - b.left) as i64,
                    y: (client_y - b.top) as i64,
                },
            },
            None => self,
        }
    }
}

/// Computes pointer coordinates relative to one container's bounding box,
/// publishing them on every pointer-move.
pub struct PointerRelativeTracker {
    pos: PointerPosition,
}

impl View for PointerRelativeTracker {
    type V = PointerTrackerModel;

    closed spec fn view(&self) -> PointerTrackerModel {
        PointerTrackerModel { pos: self.pos }
    }
}

impl PointerRelativeTracker {
    /// A fresh tracker: position at the origin.
    pub fn new() -> (t: PointerRelativeTracker)
        ensures
            t@.pos == (PointerPosition { x: 0, y: 0 }),
    {
        PointerRelativeTracker { pos: PointerPosition { x: 0, y: 0 } }
    }

    /// One pointer-move at client coordinates. The container's bounding box is
    /// queried at the moment of the event; if the container reference does not
    /// resolve at that moment, the event is dropped.
    pub fn on_pointer_move(&mut self, container: Option<&BoundingBox>, client_x: i64, client_y: i64)
        requires
            container is Some ==> i64::MIN <= client_x - container->0.left <= i64::MAX,
            container is Some ==> i64::MIN <= client_y - container->0.top <= i64::MAX,
        ensures
            final(self)@ == old(self)@.on_pointer_move(
                match container {
                    Some(b) => Some(*b),
                    None => None,
                },
                client_x as int,
                client_y as int,
            ),
            container is Some ==> final(self)@.pos.x == client_x - container->0.left
                && final(self)@.pos.y == client_y - container->0.top,
            container is None ==> final(self)@ == old(self)@,
    {
        if let Some(b) = container {
            self.pos = relative_position(b, client_x, client_y);
        }
    }

    /// The last published relative position.
    pub fn position(&self) -> (pos: PointerPosition)
        ensures
            pos == self@.pos,
    {
        self.pos
    }
}

/// The mathematical state of a spotlight overlay.
pub ghost struct SpotlightModel {
    /// The tracked pointer position the highlight is centered on.
    pub tracker: PointerTrackerModel,
    /// The hover opacity, in thousandths.
    pub opacity_milli: int,
}

impl SpotlightModel {
    /// The opacity is binary: zero, or full.
    pub open spec fn wf(self) -> bool {
        self.opacity_milli == 0 || self.opacity_milli == OPACITY_FULL_MILLI as int
    }
}

/// A radial highlight that follows the pointer over one container and is
/// visible only while the pointer hovers it.
pub struct SpotlightOverlay {
    tracker: PointerRelativeTracker,
    opacity_milli: u32,
}

impl View for SpotlightOverlay {
    type V = SpotlightModel;

    closed spec fn view(&self) -> SpotlightModel {
        SpotlightModel { tracker: self.tracker@, opacity_milli: self.opacity_milli as int }
    }
}

impl SpotlightOverlay {
    /// A fresh overlay: position at the origin, invisible.
    pub fn new() -> (s: SpotlightOverlay)
        ensures
            s@.wf(),
            s@.tracker.pos == (PointerPosition { x: 0, y: 0 }),
            s@.opacity_milli == 0,
    {
        SpotlightOverlay { tracker: PointerRelativeTracker::new(), opacity_milli: 0 }
    }

    /// One pointer-move over the container: the highlight recenters on the
    /// relative position and turns fully visible. With an unresolved
    /// container the event is dropped whole — position and opacity keep
    /// their values.
    pub fn on_pointer_move(&mut self, container: Option<&BoundingBox>, client_x: i64, client_y: i64)
        requires
            old(self)@.wf(),
            container is Some ==> i64::MIN <= client_x - container->0.left <= i64::MAX,
            container is Some ==> i64::MIN <= client_y - container->0.top <= i64::MAX,
        ensures
            final(self)@.wf(),
            final(self)@.tracker == old(self)@.tracker.on_pointer_move(
                match container {
                    Some(b) => Some(*b),
                    None => None,
                },
                client_x as int,
                client_y as int,
            ),
            container is Some ==> final(self)@.opacity_milli == OPACITY_FULL_MILLI as int,
            container is None ==> final(self)@ == old(self)@,
    {
        if container.is_some() {
            self.tracker.on_pointer_move(container, client_x, client_y);
            self.opacity_milli = OPACITY_FULL_MILLI;
        }
    }

    /// The pointer left the container: the highlight turns invisible; its
    /// position keeps its last value.
    pub fn on_pointer_leave(&mut self)
        requires
            old(self)@.wf(),
        ensures
            final(self)@.wf(),
            final(self)@.tracker == old(self)@.tracker,
            final(self)@.opacity_milli == 0,
    {
        self.opacity_milli = 0;
    }

    /// The highlight's center, relative to the container.
    pub fn position(&self) -> (pos: PointerPosition)
        ensures
            pos == self@.tracker.pos,
    {
        self.tracker.position()
    }

    /// The hover opacity in thousandths: 0 or 1000.
    pub fn opacity_milli(&self) -> (o: u32)
        requires
            self@.wf(),
        ensures
            o == self@.opacity_milli,
            o == 0 || o == OPACITY_FULL_MILLI,
    {
        self.opacity_milli
    }
}

} // verus!
