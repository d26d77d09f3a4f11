//! Mouse-driven drag and drop for objects on a two-dimensional world grid.
//!
//! A host feeds the library once per frame with what it observed: where the
//! pointer is in world space (if it is over the window at all) and whether
//! the button went down or up. The library keeps the pointer's last known
//! position, decides which draggable objects the pointer captures, moves the
//! captured object with the pointer and lets go on release.
//!
//! Coordinates are integers. What one unit means (a pixel, a fraction of a
//! world unit) is the host's choice; the library only compares and copies
//! them, so every statement below is exact.

pub mod cursor;
pub mod drag;
pub mod geometry;
pub mod plugin;

pub use crate::cursor::{update_cursor_ui_position_sys, DragAndDropCursorPosition};
pub use crate::drag::{
    begin_dragging_draggable_sys, end_dragging_motion_sys, translate_dragging_draggable_sys,
    Draggable, DraggableEntity, Dragging,
};
pub use crate::geometry::{is_point_in_rectangle, Point, Rectangle};
pub use crate::plugin::{CursorDragAndDropPlugin, FrameInput};
