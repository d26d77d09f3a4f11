//! The pointer's last known position in world space.

use crate::geometry::Point;
use vstd::prelude::*;

verus! {

/// Where the pointer was in world space when it was last seen over the
/// window.
///
/// It starts at the zero point and is overwritten whenever a frame observes
/// the pointer; a frame that does not observe it leaves the value alone.
#[derive(Clone, Copy, Debug, PartialEq, Eq, Structural)]
pub struct DragAndDropCursorPosition(pub Point);

/// The position kept after a frame that observed `observed`: the observed
/// point if there is one, the previous position otherwise.
pub open spec fn tracked_position(
    previous: DragAndDropCursorPosition,
    observed: Option<Point>,
) -> DragAndDropCursorPosition {
    match observed {
        Some(world_pos) => DragAndDropCursorPosition(world_pos),
        None => previous,
    }
}

impl Default for DragAndDropCursorPosition {
    fn default() -> (start: DragAndDropCursorPosition)
        ensures
            start.0.x == 0,
            start.0.y == 0,
    {
        DragAndDropCursorPosition(Point::zero())
    }
}

/// Records what this frame observed of the pointer.
///
/// `observed` is the pointer's position projected into world space, or
/// `None` when the pointer is outside the window or cannot be projected.
pub fn update_cursor_ui_position_sys(
    mouse_pos: &mut DragAndDropCursorPosition,
    observed: Option<Point>,
)
    ensures
        *final(mouse_pos) == tracked_position(*old(mouse_pos), observed),
{
    if let Some(world_pos) = observed {
        mouse_pos.0 = world_pos;
    }
}

/// A frame in which the pointer is not seen keeps the position of the frame
/// before: it does not fall back to zero or to any other value.
pub proof fn lemma_unseen_pointer_keeps_position(previous: DragAndDropCursorPosition)
    ensures
        tracked_position(previous, None) == previous,
{
}

/// A frame in which the pointer is seen forgets the earlier position
/// altogether.
pub proof fn lemma_seen_pointer_replaces_position(
    previous: DragAndDropCursorPosition,
    world_pos: Point,
)
    ensures
        tracked_position(previous, Some(world_pos)).0 == world_pos,
{
}

} // verus!
