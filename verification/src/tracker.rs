//! The desktop eye-tracking component's event logic.
//!
//! A pointer-move listener is registered when the component mounts and
//! removed when it unmounts. While the listener is attached, every pointer
//! move produces at most one style update per eye sprite: the sprite's new
//! position relative to its container. After unmount no update is ever
//! produced, even if further events are dispatched. An eye whose element
//! cannot be located at event time is skipped for that event without
//! affecting the other eye.

use crate::geometry::{displacement, offset_spec, Point};
use vstd::prelude::*;

verus! {

/// Resting position of the right eye sprite's center, relative to its
/// container.
pub const RIGHT_EYE_X: i64 = 260;

pub const RIGHT_EYE_Y: i64 = 218;

/// Resting position of the left eye sprite's center, relative to its
/// container.
pub const LEFT_EYE_X: i64 = 386;

pub const LEFT_EYE_Y: i64 = 218;

/// Bound on the container's page offset; keeps every absolute anchor
/// within the geometry engine's working range.
pub const PARENT_LIMIT: i64 = 999_999_000;

/// The container offset the tracker accepts.
pub open spec fn parent_in_range(parent: Point) -> bool {
    &&& -PARENT_LIMIT <= parent.x <= PARENT_LIMIT
    &&& -PARENT_LIMIT <= parent.y <= PARENT_LIMIT
}

/// The style update for one eye: its new position relative to the
/// container, given the eye's resting position, the container's page
/// offset, and the pointer's page position. The offset is computed against
/// the eye's absolute anchor and applied to its resting position.
pub open spec fn eye_update_spec(rel_x: int, rel_y: int, parent: Point, pointer: Point) -> (
    int,
    int,
) {
    let o = offset_spec(pointer.x - (rel_x + parent.x), pointer.y - (rel_y + parent.y));
    (rel_x + o.0, rel_y + o.1)
}

/// Lifecycle state of the eye-tracking component: whether its pointer-move
/// listener is still attached.
pub struct EyeTracker {
    attached: bool,
}

impl EyeTracker {
    /// Whether the pointer-move listener is attached.
    pub closed spec fn spec_attached(&self) -> bool {
        self.attached
    }

    /// Mounting the component registers the pointer-move listener.
    pub fn new() -> (t: EyeTracker)
        ensures
            t.spec_attached(),
    {
        EyeTracker { attached: true }
    }

    /// Unmounting the component removes the pointer-move listener.
    pub fn unmount(&mut self)
        ensures
            !final(self).spec_attached(),
    {
        self.attached = false;
    }

    /// Decide the style updates for one pointer-move event.
    ///
    /// `parent` is the container's page offset, `pointer` the event's page
    /// position, and the two flags say whether each eye's element could be
    /// located. A detached tracker produces no update at all; an attached
    /// one produces exactly one update per located eye, at the position the
    /// geometry engine prescribes, skipping a missing eye without affecting
    /// the other.
    pub fn pointer_moved(&self, parent: Point, pointer: Point, right_present: bool, left_present: bool) -> (upd: (
        Option<Point>,
        Option<Point>,
    ))
        requires
            pointer.wf(),
            parent_in_range(parent),
        ensures
            upd.0 is Some <==> self.spec_attached() && right_present,
            upd.1 is Some <==> self.spec_attached() && left_present,
            upd.0 matches Some(d) ==> {
                let expect = eye_update_spec(RIGHT_EYE_X as int, RIGHT_EYE_Y as int, parent, pointer);
                d.x as int == expect.0 && d.y as int == expect.1
            },
            upd.1 matches Some(d) ==> {
                let expect = eye_update_spec(LEFT_EYE_X as int, LEFT_EYE_Y as int, parent, pointer);
                d.x as int == expect.0 && d.y as int == expect.1
            },
    {
        if !self.attached {
            (None, None)
        } else {
            let right = if right_present {
                let anchor = Point { x: RIGHT_EYE_X + parent.x, y: RIGHT_EYE_Y + parent.y };
                let o = displacement(anchor, pointer);
                Some(Point { x: RIGHT_EYE_X + o.0, y: RIGHT_EYE_Y + o.1 })
            } else {
                None
            };
            let left = if left_present {
                let anchor = Point { x: LEFT_EYE_X + parent.x, y: LEFT_EYE_Y + parent.y };
                let o = displacement(anchor, pointer);
                Some(Point { x: LEFT_EYE_X + o.0, y: LEFT_EYE_Y + o.1 })
            } else {
                None
            };
            (right, left)
        }
    }
}

} // verus!
