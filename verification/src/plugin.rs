//! One frame of drag and drop: the four steps in their fixed order.

use crate::cursor::{tracked_position, update_cursor_ui_position_sys, DragAndDropCursorPosition};
use crate::drag::{
    after_begin, after_end, after_translate, any_dragging, begin_dragging_draggable_sys,
    end_dragging_motion_sys, lemma_missed_press_changes_nothing,
    lemma_nothing_held_nothing_moves, lemma_release_ends_the_drag,
    translate_dragging_draggable_sys, DraggableEntity,
};
use crate::geometry::Point;
use vstd::prelude::*;

verus! {

/// What the host observed in one frame.
#[derive(Clone, Copy, Debug, PartialEq, Eq)]
pub struct FrameInput {
    /// The pointer in world space, or `None` when it is not over the window.
    pub cursor: Option<Point>,
    /// The button went from up to down in this frame.
    pub just_pressed: bool,
    /// The button went from down to up in this frame.
    pub just_released: bool,
}

/// Drag and drop as a unit: it runs the pointer tracker and the three steps
/// of the drag state machine, once per frame and always in the same order.
#[derive(Clone, Copy, Debug, PartialEq, Eq)]
pub struct CursorDragAndDropPlugin;

/// The scene after one frame with the pointer at `cursor`: a press captures
/// first, then the held object follows the pointer, then a release frees.
/// The press and the release steps run only in a frame that saw that edge;
/// the move runs in every frame.
pub open spec fn after_frame(
    draggables: Seq<DraggableEntity>,
    cursor: Point,
    just_pressed: bool,
    just_released: bool,
) -> Seq<DraggableEntity> {
    let begun = if just_pressed {
        after_begin(draggables, cursor)
    } else {
        draggables
    };
    let moved = after_translate(begun, cursor);
    if just_released {
        after_end(moved)
    } else {
        moved
    }
}

impl CursorDragAndDropPlugin {
    /// Runs one frame: records the pointer, then lets the drag state machine
    /// act on the position just recorded.
    pub fn run_frame(
        &self,
        mouse_pos: &mut DragAndDropCursorPosition,
        draggables: &mut Vec<DraggableEntity>,
        input: &FrameInput,
    )
        ensures
            *final(mouse_pos) == tracked_position(*old(mouse_pos), input.cursor),
            final(draggables)@ == after_frame(
                old(draggables)@,
                final(mouse_pos).0,
                input.just_pressed,
                input.just_released,
            ),
    {
        update_cursor_ui_position_sys(mouse_pos, input.cursor);
        if input.just_pressed {
            begin_dragging_draggable_sys(draggables, mouse_pos);
        }
        translate_dragging_draggable_sys(draggables, mouse_pos);
        if input.just_released {
            end_dragging_motion_sys(draggables);
        }
    }
}

/// A frame without a press, in a scene where nothing is held, changes no
/// object, wherever the pointer is and whether or not the button went up.
pub proof fn lemma_idle_frame_changes_nothing(
    draggables: Seq<DraggableEntity>,
    cursor: Point,
    just_released: bool,
)
    requires
        !any_dragging(draggables),
    ensures
        after_frame(draggables, cursor, false, just_released) == draggables,
{
    lemma_nothing_held_nothing_moves(draggables, cursor);
    if just_released {
        assert(after_end(draggables) =~= draggables) by {
            assert forall|i: int| 0 <= i < draggables.len() implies draggables[i].released()
                == draggables[i] by {
                assert(!draggables[i].is_dragging());
            }
        }
    }
}

/// A press that hits no object, in a scene where nothing is held, changes
/// no object: nothing is captured and nothing moves.
pub proof fn lemma_missed_press_frame_changes_nothing(
    draggables: Seq<DraggableEntity>,
    cursor: Point,
)
    requires
        !any_dragging(draggables),
        forall|i: int|
            0 <= i < draggables.len() ==> !(#[trigger] draggables[i]).is_under(cursor),
    ensures
        after_frame(draggables, cursor, true, false) == draggables,
{
    lemma_missed_press_changes_nothing(draggables, cursor);
}

/// Whatever else happens in it, a frame that sees the release leaves no
/// object held.
pub proof fn lemma_release_frame_frees_everything(
    draggables: Seq<DraggableEntity>,
    cursor: Point,
    just_pressed: bool,
)
    ensures
        !any_dragging(after_frame(draggables, cursor, just_pressed, true)),
{
    let begun = if just_pressed {
        after_begin(draggables, cursor)
    } else {
        draggables
    };
    lemma_release_ends_the_drag(after_translate(begun, cursor), cursor);
}

} // verus!
