use vector_field::sandbox::{first_near, GravitySandbox, PointerFrame, PointerOutcome};

#[derive(Clone, Copy, Debug, PartialEq)]
struct Star {
    x: i32,
    y: i32,
    mass: u32,
}

const fn star(x: i32, y: i32, mass: u32) -> Star {
    Star { x, y, mass }
}

fn frame(left_pressed: bool, right_pressed: bool, left_down: bool, placing: bool) -> PointerFrame {
    PointerFrame { active: true, left_pressed, right_pressed, left_down, placing }
}

/// One frame with the cursor at (cx, cy); a star within distance 1 is under it.
fn step(s: &mut GravitySandbox<Star>, f: PointerFrame, cx: i32, cy: i32) -> PointerOutcome {
    s.pointer_frame(
        f,
        |b: &Star| (b.x - cx).abs() <= 1 && (b.y - cy).abs() <= 1,
        star(cx, cy, 1),
        |b: &Star| Star { x: cx, y: cy, mass: b.mass },
    )
}

fn binary() -> GravitySandbox<Star> {
    GravitySandbox::new(vec![star(-5, 0, 16), star(5, 0, 16)])
}

#[test]
fn placing_tool_adds_star_on_empty_space() {
    let mut s = binary();
    let out = step(&mut s, frame(true, false, true, true), 0, 10);
    assert_eq!(out, PointerOutcome { grabbed: None, placed: true, removed: None, moved: None });
    assert_eq!(s.bodies, vec![star(-5, 0, 16), star(5, 0, 16), star(0, 10, 1)]);
    assert_eq!(s.dragged, None);
}

#[test]
fn click_on_empty_space_without_placing_tool_does_nothing() {
    let mut s = binary();
    let out = step(&mut s, frame(true, false, true, false), 0, 10);
    assert!(!out.placed);
    assert_eq!(s.bodies.len(), 2);
}

#[test]
fn press_on_star_grabs_and_drags_it() {
    let mut s = binary();
    let out = step(&mut s, frame(true, false, true, true), 5, 1);
    assert_eq!(out.grabbed, Some(1));
    assert!(!out.placed);
    assert_eq!(out.moved, Some(1));
    assert_eq!(s.dragged, Some(1));
    assert_eq!(s.bodies[1], star(5, 1, 16));
    // Held on later frames, the star follows the cursor far from where it was.
    let out = step(&mut s, frame(false, false, true, false), 20, 20);
    assert_eq!(out.moved, Some(1));
    assert_eq!(s.bodies[1], star(20, 20, 16));
    assert_eq!(s.bodies[0], star(-5, 0, 16));
}

#[test]
fn release_ends_drag() {
    let mut s = binary();
    step(&mut s, frame(true, false, true, false), -5, 0);
    assert_eq!(s.dragged, Some(0));
    let out = step(&mut s, frame(false, false, false, false), 3, 3);
    assert_eq!(out.moved, None);
    assert_eq!(s.dragged, None);
    assert_eq!(s.bodies[0], star(-5, 0, 16));
}

#[test]
fn right_click_deletes_first_star_under_cursor() {
    let mut s = GravitySandbox::new(vec![star(0, 0, 1), star(1, 1, 2), star(9, 9, 3)]);
    let out = step(&mut s, frame(false, true, false, false), 1, 0);
    assert_eq!(out.removed, Some(0));
    assert_eq!(s.bodies, vec![star(1, 1, 2), star(9, 9, 3)]);
}

#[test]
fn right_click_on_empty_space_keeps_stars() {
    let mut s = binary();
    let out = step(&mut s, frame(false, true, false, false), 0, 0);
    assert_eq!(out.removed, None);
    assert_eq!(s.bodies.len(), 2);
}

#[test]
fn inactive_frame_ends_drag_and_keeps_stars() {
    let mut s = binary();
    step(&mut s, frame(true, false, true, false), 5, 0);
    let mut f = frame(true, true, true, true);
    f.active = false;
    let out = step(&mut s, f, 5, 0);
    assert_eq!(out, PointerOutcome { grabbed: None, placed: false, removed: None, moved: None });
    assert_eq!(s.dragged, None);
    assert_eq!(s.bodies, vec![star(-5, 0, 16), star(5, 0, 16)]);
}

#[test]
fn place_and_delete_in_one_frame_restores() {
    let mut s = binary();
    let out = step(&mut s, frame(true, true, true, true), 0, 10);
    assert!(out.placed);
    assert_eq!(out.removed, Some(2));
    assert_eq!(s.bodies, vec![star(-5, 0, 16), star(5, 0, 16)]);
}

#[test]
fn stale_drag_index_moves_nothing() {
    let mut s = binary();
    step(&mut s, frame(true, false, true, false), 5, 0);
    assert_eq!(s.dragged, Some(1));
    // Deleting the dragged star leaves the index pointing past the end.
    let out = step(&mut s, frame(false, true, true, false), 5, 0);
    assert_eq!(out.removed, Some(1));
    assert_eq!(out.moved, None);
    assert_eq!(s.dragged, Some(1));
    assert_eq!(s.bodies, vec![star(-5, 0, 16)]);
}

#[test]
fn body_near_finds_first_hit() {
    let bodies = vec![star(0, 0, 1), star(3, 3, 1), star(3, 4, 1)];
    assert_eq!(first_near(&bodies, &|b: &Star| b.x == 3), Some(1));
    assert_eq!(first_near(&bodies, &|b: &Star| b.x == 7), None);
    let empty: Vec<Star> = Vec::new();
    assert_eq!(first_near(&empty, &|_: &Star| true), None);
}
