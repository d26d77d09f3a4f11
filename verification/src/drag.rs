//! The drag state machine: capture on press, follow the pointer, let go on
//! release.
//!
//! Every object is either idle or being dragged. A press captures each
//! object whose bounds hold the pointer; a release frees every captured
//! object. In between, the captured object follows the pointer. Should a
//! press have captured several overlapping objects, the one that comes first
//! in the sequence follows the pointer and the others stay where they are
//! until the release frees them all.

use crate::cursor::DragAndDropCursorPosition;
use crate::geometry::{is_point_in_rectangle, point_in_rectangle, Point, Rectangle};
use vstd::prelude::*;

verus! {

/// Marks an object as one the pointer can pick up. The rectangle is its
/// bounding box, centred on the object's own position.
#[derive(Clone, Copy, Debug, PartialEq, Eq)]
pub struct Draggable(pub Rectangle);

/// Marks an object as currently held by the pointer.
#[derive(Clone, Copy, Debug, PartialEq, Eq)]
pub struct Dragging;

/// One draggable object of the scene: where it is, what it covers and
/// whether the pointer holds it.
#[derive(Clone, Copy, Debug, PartialEq, Eq)]
pub struct DraggableEntity {
    pub translation: Point,
    pub draggable: Draggable,
    pub dragging: Option<Dragging>,
}

impl DraggableEntity {
    /// An idle object at `translation` whose bounds are `bounds`.
    pub fn new(translation: Point, bounds: Rectangle) -> (entity: DraggableEntity)
        ensures
            entity.translation == translation,
            entity.draggable.0 == bounds,
            !entity.is_dragging(),
    {
        DraggableEntity { translation, draggable: Draggable(bounds), dragging: None }
    }

    /// Whether the pointer holds this object.
    pub open spec fn is_dragging(&self) -> bool {
        self.dragging is Some
    }

    /// Whether the object's bounds, centred on where it is now, hold `cursor`.
    pub open spec fn is_under(&self, cursor: Point) -> bool {
        point_in_rectangle(cursor, self.translation, self.draggable.0)
    }

    /// The same object, held by the pointer.
    pub open spec fn captured(self) -> DraggableEntity {
        DraggableEntity { dragging: Some(Dragging), ..self }
    }

    /// The same object, no longer held.
    pub open spec fn released(self) -> DraggableEntity {
        DraggableEntity { dragging: None, ..self }
    }

    /// The same object, placed at `cursor`.
    pub open spec fn moved_to(self, cursor: Point) -> DraggableEntity {
        DraggableEntity { translation: cursor, ..self }
    }
}

/// The scene after a press with the pointer at `cursor`: every object under
/// the pointer is captured, every other object is as it was.
pub open spec fn after_begin(draggables: Seq<DraggableEntity>, cursor: Point) -> Seq<
    DraggableEntity,
> {
    Seq::new(
        draggables.len(),
        |i: int|
            if draggables[i].is_under(cursor) {
                draggables[i].captured()
            } else {
                draggables[i]
            },
    )
}

/// Whether the object at `index` is the one that follows the pointer: it is
/// held, and no object before it in the sequence is.
pub open spec fn leads_drag(draggables: Seq<DraggableEntity>, index: int) -> bool {
    &&& 0 <= index < draggables.len()
    &&& draggables[index].is_dragging()
    &&& forall|j: int| 0 <= j < index ==> !(#[trigger] draggables[j]).is_dragging()
}

/// The scene after the held object has followed the pointer to `cursor`:
/// the leading held object is at `cursor`, every other object is as it was.
pub open spec fn after_translate(draggables: Seq<DraggableEntity>, cursor: Point) -> Seq<
    DraggableEntity,
> {
    Seq::new(
        draggables.len(),
        |i: int|
            if leads_drag(draggables, i) {
                draggables[i].moved_to(cursor)
            } else {
                draggables[i]
            },
    )
}

/// The scene after a release: no object is held, and none has moved.
pub open spec fn after_end(draggables: Seq<DraggableEntity>) -> Seq<DraggableEntity> {
    Seq::new(draggables.len(), |i: int| draggables[i].released())
}

/// Whether any object of the scene is held.
pub open spec fn any_dragging(draggables: Seq<DraggableEntity>) -> bool {
    exists|i: int| 0 <= i < draggables.len() && (#[trigger] draggables[i]).is_dragging()
}

/// Handles a press: captures every object whose bounds hold the pointer.
///
/// The whole scene is tested; a first match does not end the search, so
/// overlapping objects are captured together.
pub fn begin_dragging_draggable_sys(
    draggables: &mut Vec<DraggableEntity>,
    mouse_pos: &DragAndDropCursorPosition,
)
    ensures
        final(draggables)@ == after_begin(old(draggables)@, mouse_pos.0),
{
    let ghost before = draggables@;
    let n = draggables.len();
    let mut i: usize = 0;
    while i < n
        invariant
            i <= n,
            n == before.len(),
            draggables@.len() == n,
            forall|k: int| 0 <= k < i ==> draggables@[k] == after_begin(before, mouse_pos.0)[k],
            forall|k: int| i <= k < n ==> draggables@[k] == before[k],
        decreases n - i,
    {
        let entity = draggables[i];
        if is_point_in_rectangle(mouse_pos.0, entity.translation, &entity.draggable.0) {
            draggables.set(
                i,
                DraggableEntity {
                    translation: entity.translation,
                    draggable: entity.draggable,
                    dragging: Some(Dragging),
                },
            );
        }
        i += 1;
    }
    assert(draggables@ =~= after_begin(before, mouse_pos.0));
}

/// Moves the held object to the pointer.
///
/// With nothing held this changes nothing. With several objects held, only
/// the first of them in the sequence moves.
pub fn translate_dragging_draggable_sys(
    draggables: &mut Vec<DraggableEntity>,
    mouse_pos: &DragAndDropCursorPosition,
)
    ensures
        final(draggables)@ == after_translate(old(draggables)@, mouse_pos.0),
{
    let ghost before = draggables@;
    let n = draggables.len();
    let mut i: usize = 0;
    while i < n
        invariant
            i <= n,
            n == before.len(),
            before == old(draggables)@,
            draggables@ == before,
            forall|k: int| 0 <= k < i ==> !(#[trigger] before[k]).is_dragging(),
        decreases n - i,
    {
        let entity = draggables[i];
        if entity.dragging.is_some() {
            draggables.set(
                i,
                DraggableEntity {
                    translation: mouse_pos.0,
                    draggable: entity.draggable,
                    dragging: entity.dragging,
                },
            );
            proof {
                assert(leads_drag(before, i as int));
                assert forall|k: int| 0 <= k < n && k != i implies !leads_drag(before, k) by {
                    if k > i {
                        assert(before[i as int].is_dragging());
                    }
                }
                assert(draggables@ =~= after_translate(before, mouse_pos.0));
            }
            return;
        }
        i += 1;
    }
    assert(draggables@ =~= after_translate(before, mouse_pos.0));
}

/// Handles a release: frees every held object, wherever the pointer is.
pub fn end_dragging_motion_sys(draggables: &mut Vec<DraggableEntity>)
    ensures
        final(draggables)@ == after_end(old(draggables)@),
{
    let ghost before = draggables@;
    let n = draggables.len();
    let mut i: usize = 0;
    while i < n
        invariant
            i <= n,
            n == before.len(),
            draggables@.len() == n,
            forall|k: int| 0 <= k < i ==> draggables@[k] == before[k].released(),
            forall|k: int| i <= k < n ==> draggables@[k] == before[k],
        decreases n - i,
    {
        let entity = draggables[i];
        if entity.dragging.is_some() {
            draggables.set(
                i,
                DraggableEntity {
                    translation: entity.translation,
                    draggable: entity.draggable,
                    dragging: None,
                },
            );
        }
        i += 1;
    }
    assert(draggables@ =~= after_end(before));
}

/// Following the pointer twice is following it once: while the pointer
/// stays where it is, a second move changes nothing.
pub proof fn lemma_translate_is_idempotent(draggables: Seq<DraggableEntity>, cursor: Point)
    ensures
        after_translate(after_translate(draggables, cursor), cursor) == after_translate(
            draggables,
            cursor,
        ),
{
    let once = after_translate(draggables, cursor);
    assert forall|i: int| 0 <= i < draggables.len() implies leads_drag(once, i) == leads_drag(
        draggables,
        i,
    ) by {
        lemma_translate_keeps_the_leader(draggables, cursor, i);
    }
    assert(after_translate(once, cursor) =~= once);
}

/// Moving the held object does not change which objects are held, so the
/// object that follows the pointer is the same before and after.
pub proof fn lemma_translate_keeps_the_leader(
    draggables: Seq<DraggableEntity>,
    cursor: Point,
    index: int,
)
    ensures
        leads_drag(after_translate(draggables, cursor), index) == leads_drag(draggables, index),
{
    let once = after_translate(draggables, cursor);
    assert forall|j: int| 0 <= j < draggables.len() implies (#[trigger] once[j]).is_dragging()
        == draggables[j].is_dragging() by {}
    if leads_drag(draggables, index) {
        assert forall|j: int| 0 <= j < index implies !(#[trigger] once[j]).is_dragging() by {
            assert(!draggables[j].is_dragging());
        }
    }
    if leads_drag(once, index) {
        assert forall|j: int| 0 <= j < index implies !(#[trigger] draggables[j]).is_dragging() by {
            assert(!once[j].is_dragging());
        }
    }
}

/// A press does not stop at the first object it finds: two objects that
/// both hold the pointer are both captured.
pub proof fn lemma_overlapping_objects_are_both_captured(
    draggables: Seq<DraggableEntity>,
    cursor: Point,
    first: int,
    second: int,
)
    requires
        0 <= first < draggables.len(),
        0 <= second < draggables.len(),
        draggables[first].is_under(cursor),
        draggables[second].is_under(cursor),
    ensures
        after_begin(draggables, cursor)[first].is_dragging(),
        after_begin(draggables, cursor)[second].is_dragging(),
{
}

/// A press that hits no object captures none: the scene is as it was, and
/// if nothing was held before, the following move changes nothing either.
pub proof fn lemma_missed_press_changes_nothing(draggables: Seq<DraggableEntity>, cursor: Point)
    requires
        forall|i: int|
            0 <= i < draggables.len() ==> !(#[trigger] draggables[i]).is_under(cursor),
    ensures
        after_begin(draggables, cursor) == draggables,
        !any_dragging(draggables) ==> after_translate(after_begin(draggables, cursor), cursor)
            == draggables,
{
    assert(after_begin(draggables, cursor) =~= draggables);
    if !any_dragging(draggables) {
        lemma_nothing_held_nothing_moves(draggables, cursor);
    }
}

/// With no object held, following the pointer moves nothing.
pub proof fn lemma_nothing_held_nothing_moves(draggables: Seq<DraggableEntity>, cursor: Point)
    requires
        !any_dragging(draggables),
    ensures
        after_translate(draggables, cursor) == draggables,
{
    assert forall|i: int| 0 <= i < draggables.len() implies !leads_drag(draggables, i) by {
        if draggables[i].is_dragging() {
            assert(any_dragging(draggables));
        }
    }
    assert(after_translate(draggables, cursor) =~= draggables);
}

/// With exactly one object held, that object lands on the pointer and no
/// other object changes.
pub proof fn lemma_single_held_object_follows_pointer(
    draggables: Seq<DraggableEntity>,
    cursor: Point,
    held: int,
)
    requires
        0 <= held < draggables.len(),
        forall|i: int|
            0 <= i < draggables.len() ==> ((#[trigger] draggables[i]).is_dragging() <==> i
                == held),
    ensures
        after_translate(draggables, cursor) == draggables.update(
            held,
            draggables[held].moved_to(cursor),
        ),
{
    assert(draggables[held].is_dragging());
    assert(leads_drag(draggables, held));
    assert forall|i: int| 0 <= i < draggables.len() && i != held implies !leads_drag(
        draggables,
        i,
    ) by {
        assert(!draggables[i].is_dragging());
    }
    assert(after_translate(draggables, cursor) =~= draggables.update(
        held,
        draggables[held].moved_to(cursor),
    ));
}

/// A release ends the drag for good: afterwards no object is held, and
/// following the pointer no longer moves anything.
pub proof fn lemma_release_ends_the_drag(draggables: Seq<DraggableEntity>, cursor: Point)
    ensures
        !any_dragging(after_end(draggables)),
        after_translate(after_end(draggables), cursor) == after_end(draggables),
{
    let freed = after_end(draggables);
    assert forall|i: int| 0 <= i < freed.len() implies !(#[trigger] freed[i]).is_dragging() by {}
    lemma_nothing_held_nothing_moves(freed, cursor);
}

} // verus!
