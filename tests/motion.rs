use raytrace::camera::{axis, Camera, Intent, Intents, SPEED, TURN_SPEED};
use raytrace::fov::{ANGLE_PI, ANGLE_TURN};
use raytrace::geometry::{Direction, Point, DIR_ONE};

fn held(left: bool, right: bool, forward: bool, backward: bool) -> Intents {
    Intents { left, right, forward, backward }
}

fn top_down_camera() -> Camera {
    let mut c = Camera::new();
    c.toggle_view();
    c
}

#[test]
fn axis_resolves_opposite_intents() {
    assert_eq!(axis(true, false), -1);
    assert_eq!(axis(false, true), 1);
    assert_eq!(axis(true, true), 0);
    assert_eq!(axis(false, false), 0);
}

#[test]
fn top_down_left_and_up_moves_diagonally() {
    let mut c = top_down_camera();
    c.update(&held(true, false, true, false), Direction { dx: DIR_ONE, dy: 0 });
    assert_eq!(c.position, Point { x: 100 - SPEED, y: 100 - SPEED });
    assert_eq!(c.position, Point { x: 95, y: 95 });
    assert_eq!(c.angle, 0);
}

#[test]
fn top_down_left_and_right_cancel() {
    let mut c = top_down_camera();
    c.update(&held(true, true, false, false), Direction { dx: DIR_ONE, dy: 0 });
    assert_eq!(c.position, Point { x: 100, y: 100 });
    c.update(&held(false, false, true, true), Direction { dx: DIR_ONE, dy: 0 });
    assert_eq!(c.position, Point { x: 100, y: 100 });
}

#[test]
fn top_down_right_and_down() {
    let mut c = top_down_camera();
    c.update(&held(false, true, false, true), Direction { dx: 0, dy: 0 });
    assert_eq!(c.position, Point { x: 105, y: 105 });
}

#[test]
fn first_person_forward_facing_down() {
    let mut c = Camera::new();
    c.angle = ANGLE_PI / 2;
    let intents = held(false, false, true, false);
    assert_eq!(c.turned_angle(&intents), ANGLE_PI / 2);
    c.update(&intents, Direction { dx: 0, dy: DIR_ONE });
    assert_eq!(c.position, Point { x: 100, y: 105 });
    assert_eq!(c.angle, ANGLE_PI / 2);
}

#[test]
fn first_person_backward_moves_against_heading() {
    let mut c = Camera::new();
    c.update(&held(false, false, false, true), Direction { dx: DIR_ONE, dy: 0 });
    assert_eq!(c.position, Point { x: 95, y: 100 });
}

#[test]
fn first_person_turns_and_wraps() {
    let mut c = Camera::new();
    let left = held(true, false, false, false);
    assert_eq!(c.turned_angle(&left), ANGLE_TURN - TURN_SPEED);
    c.update(&left, Direction { dx: DIR_ONE, dy: 0 });
    assert_eq!(c.angle, ANGLE_TURN - TURN_SPEED);
    assert_eq!(c.position, Point { x: 100, y: 100 });
    let right = held(false, true, false, false);
    c.update(&right, Direction { dx: DIR_ONE, dy: 0 });
    c.update(&right, Direction { dx: DIR_ONE, dy: 0 });
    assert_eq!(c.angle, TURN_SPEED);
}

#[test]
fn pointer_turns_only_top_down() {
    let mut c = Camera::new();
    c.pointer_moved(1234);
    assert_eq!(c.angle, 0);
    c.toggle_view();
    assert!(c.top_down);
    c.pointer_moved(1234);
    assert_eq!(c.angle, 1234);
    c.pointer_moved(-ANGLE_PI / 2);
    assert_eq!(c.angle, ANGLE_TURN - ANGLE_PI / 2);
    c.toggle_view();
    assert!(!c.top_down);
}

#[test]
fn intents_set_and_clear() {
    let mut i = Intents::none();
    i.set(Intent::Left, true);
    i.set(Intent::Backward, true);
    assert_eq!(i, held(true, false, false, true));
    i.set(Intent::Left, false);
    assert_eq!(i, held(false, false, false, true));
}
