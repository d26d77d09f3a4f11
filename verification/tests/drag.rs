use cursor_drag_and_drop::{
    begin_dragging_draggable_sys, end_dragging_motion_sys, translate_dragging_draggable_sys,
    update_cursor_ui_position_sys, DragAndDropCursorPosition, Draggable, DraggableEntity,
    Dragging, Point, Rectangle,
};

// Coordinates in these scenes count half world units: 2 is one unit.

fn entity(x: i64, y: i64, half_width: i64, half_height: i64) -> DraggableEntity {
    DraggableEntity::new(
        Point { x, y },
        Rectangle { half_size: Point { x: half_width, y: half_height } },
    )
}

fn pointer(x: i64, y: i64) -> DragAndDropCursorPosition {
    DragAndDropCursorPosition(Point { x, y })
}

#[test]
fn new_entity_is_idle() {
    let made = entity(3, 4, 5, 6);
    assert_eq!(made.translation, Point { x: 3, y: 4 });
    assert_eq!(made.draggable, Draggable(Rectangle { half_size: Point { x: 5, y: 6 } }));
    assert_eq!(made.dragging, None);
}

#[test]
fn full_cycle_press_drag_release() {
    let mut mouse_pos = DragAndDropCursorPosition::default();
    let mut scene = vec![entity(0, 0, 2, 2)];

    update_cursor_ui_position_sys(&mut mouse_pos, Some(Point { x: 1, y: 1 }));
    begin_dragging_draggable_sys(&mut scene, &mouse_pos);
    assert_eq!(scene[0].dragging, Some(Dragging));
    assert_eq!(scene[0].translation, Point { x: 0, y: 0 });

    update_cursor_ui_position_sys(&mut mouse_pos, Some(Point { x: 20, y: 20 }));
    translate_dragging_draggable_sys(&mut scene, &mouse_pos);
    assert_eq!(scene[0].translation, Point { x: 20, y: 20 });
    assert_eq!(scene[0].dragging, Some(Dragging));

    end_dragging_motion_sys(&mut scene);
    assert_eq!(scene[0].dragging, None);
    assert_eq!(scene[0].translation, Point { x: 20, y: 20 });

    update_cursor_ui_position_sys(&mut mouse_pos, Some(Point { x: -8, y: 3 }));
    translate_dragging_draggable_sys(&mut scene, &mouse_pos);
    translate_dragging_draggable_sys(&mut scene, &mouse_pos);
    assert_eq!(scene[0].translation, Point { x: 20, y: 20 });
    assert_eq!(scene[0].draggable, Draggable(Rectangle { half_size: Point { x: 2, y: 2 } }));
}

#[test]
fn press_outside_the_bounds_captures_nothing() {
    let mouse_pos = pointer(10, 10);
    let mut scene = vec![entity(0, 0, 2, 2)];
    let before = scene.clone();
    begin_dragging_draggable_sys(&mut scene, &mouse_pos);
    assert_eq!(scene, before);
    translate_dragging_draggable_sys(&mut scene, &mouse_pos);
    assert_eq!(scene, before);
}

#[test]
fn press_on_the_boundary_captures() {
    let mut scene = vec![entity(0, 0, 2, 2)];
    begin_dragging_draggable_sys(&mut scene, &pointer(2, -2));
    assert_eq!(scene[0].dragging, Some(Dragging));
    let mut scene = vec![entity(0, 0, 2, 2)];
    begin_dragging_draggable_sys(&mut scene, &pointer(3, 0));
    assert_eq!(scene[0].dragging, None);
}

#[test]
fn overlapping_objects_are_both_captured() {
    let mut scene = vec![entity(0, 0, 4, 4), entity(100, 100, 1, 1), entity(2, 2, 4, 4)];
    let mouse_pos = pointer(1, 1);
    begin_dragging_draggable_sys(&mut scene, &mouse_pos);
    assert_eq!(scene[0].dragging, Some(Dragging));
    assert_eq!(scene[1].dragging, None);
    assert_eq!(scene[2].dragging, Some(Dragging));
    assert_eq!(scene[0].translation, Point { x: 0, y: 0 });
    assert_eq!(scene[1].translation, Point { x: 100, y: 100 });
    assert_eq!(scene[2].translation, Point { x: 2, y: 2 });
}

#[test]
fn of_several_held_objects_the_first_follows_the_pointer() {
    let mut scene = vec![entity(50, 50, 1, 1), entity(0, 0, 4, 4), entity(2, 2, 4, 4)];
    begin_dragging_draggable_sys(&mut scene, &pointer(1, 1));
    translate_dragging_draggable_sys(&mut scene, &pointer(30, -30));
    assert_eq!(scene[0].translation, Point { x: 50, y: 50 });
    assert_eq!(scene[1].translation, Point { x: 30, y: -30 });
    assert_eq!(scene[2].translation, Point { x: 2, y: 2 });
    assert_eq!(scene[1].dragging, Some(Dragging));
    assert_eq!(scene[2].dragging, Some(Dragging));
}

#[test]
fn release_frees_every_held_object() {
    let mut scene = vec![entity(0, 0, 4, 4), entity(2, 2, 4, 4), entity(90, 90, 1, 1)];
    begin_dragging_draggable_sys(&mut scene, &pointer(1, 1));
    translate_dragging_draggable_sys(&mut scene, &pointer(7, 7));
    end_dragging_motion_sys(&mut scene);
    assert_eq!(scene[0].dragging, None);
    assert_eq!(scene[1].dragging, None);
    assert_eq!(scene[2].dragging, None);
    assert_eq!(scene[0].translation, Point { x: 7, y: 7 });
    assert_eq!(scene[1].translation, Point { x: 2, y: 2 });
    let settled = scene.clone();
    translate_dragging_draggable_sys(&mut scene, &pointer(-40, 40));
    assert_eq!(scene, settled);
}

#[test]
fn moving_twice_to_the_same_pointer_is_moving_once() {
    let mut scene = vec![entity(5, 5, 1, 1), entity(0, 0, 2, 2), entity(1, 1, 2, 2)];
    begin_dragging_draggable_sys(&mut scene, &pointer(1, 1));
    let mouse_pos = pointer(-14, 9);
    translate_dragging_draggable_sys(&mut scene, &mouse_pos);
    let once = scene.clone();
    translate_dragging_draggable_sys(&mut scene, &mouse_pos);
    assert_eq!(scene, once);
    translate_dragging_draggable_sys(&mut scene, &mouse_pos);
    assert_eq!(scene, once);
    assert_eq!(once[1].translation, Point { x: -14, y: 9 });
}

#[test]
fn move_with_nothing_held_is_a_no_op() {
    let mut scene = vec![entity(0, 0, 2, 2), entity(9, 9, 2, 2)];
    let before = scene.clone();
    translate_dragging_draggable_sys(&mut scene, &pointer(0, 0));
    assert_eq!(scene, before);
}

#[test]
fn release_with_nothing_held_is_a_no_op() {
    let mut scene = vec![entity(0, 0, 2, 2), entity(9, 9, 2, 2)];
    let before = scene.clone();
    end_dragging_motion_sys(&mut scene);
    assert_eq!(scene, before);
}

#[test]
fn empty_scene_is_left_empty() {
    let mut scene: Vec<DraggableEntity> = Vec::new();
    let mouse_pos = pointer(0, 0);
    begin_dragging_draggable_sys(&mut scene, &mouse_pos);
    translate_dragging_draggable_sys(&mut scene, &mouse_pos);
    end_dragging_motion_sys(&mut scene);
    assert!(scene.is_empty());
}

#[test]
fn press_tests_against_where_the_object_is_now() {
    let mut scene = vec![entity(0, 0, 2, 2)];
    begin_dragging_draggable_sys(&mut scene, &pointer(0, 0));
    translate_dragging_draggable_sys(&mut scene, &pointer(40, 40));
    end_dragging_motion_sys(&mut scene);

    begin_dragging_draggable_sys(&mut scene, &pointer(1, 1));
    assert_eq!(scene[0].dragging, None);
    begin_dragging_draggable_sys(&mut scene, &pointer(41, 39));
    assert_eq!(scene[0].dragging, Some(Dragging));
}

#[test]
fn press_elsewhere_leaves_a_held_object_held() {
    let mut scene = vec![entity(0, 0, 2, 2), entity(20, 20, 2, 2)];
    begin_dragging_draggable_sys(&mut scene, &pointer(0, 0));
    begin_dragging_draggable_sys(&mut scene, &pointer(20, 20));
    assert_eq!(scene[0].dragging, Some(Dragging));
    assert_eq!(scene[1].dragging, Some(Dragging));
}

#[test]
fn release_does_not_look_at_the_pointer() {
    let mut scene = vec![entity(0, 0, 2, 2)];
    begin_dragging_draggable_sys(&mut scene, &pointer(0, 0));
    translate_dragging_draggable_sys(&mut scene, &pointer(1000, -1000));
    end_dragging_motion_sys(&mut scene);
    assert_eq!(scene[0].dragging, None);
    assert_eq!(scene[0].translation, Point { x: 1000, y: -1000 });
}
