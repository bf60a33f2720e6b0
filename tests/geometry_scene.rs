use raytrace::geometry::{point_in_rect, Color, Point, Rect};
use raytrace::scene::{Obstacle, Scene};

fn rect(x: i64, y: i64, w: i64, h: i64) -> Rect {
    Rect { x, y, w, h }
}

#[test]
fn point_in_rect_left_and_top_edges_inclusive() {
    let r = rect(10, 20, 30, 40);
    assert!(point_in_rect(Point { x: 10, y: 20 }, &r));
    assert!(point_in_rect(Point { x: 10, y: 35 }, &r));
    assert!(point_in_rect(Point { x: 25, y: 20 }, &r));
}

#[test]
fn point_in_rect_right_and_bottom_edges_exclusive() {
    let r = rect(10, 20, 30, 40);
    assert!(!point_in_rect(Point { x: 40, y: 30 }, &r));
    assert!(!point_in_rect(Point { x: 20, y: 60 }, &r));
    assert!(point_in_rect(Point { x: 39, y: 59 }, &r));
}

#[test]
fn point_in_rect_outside_each_side() {
    let r = rect(10, 20, 30, 40);
    assert!(!point_in_rect(Point { x: 9, y: 30 }, &r));
    assert!(!point_in_rect(Point { x: 20, y: 19 }, &r));
    assert!(!point_in_rect(Point { x: 41, y: 30 }, &r));
    assert!(!point_in_rect(Point { x: 20, y: 61 }, &r));
}

#[test]
fn first_obstacle_at_prefers_first_inserted() {
    let c1 = Color::new(10, 20, 30, 255);
    let c2 = Color::new(40, 50, 60, 255);
    let scene = Scene::new(vec![
        Obstacle { rect: rect(0, 0, 10, 10), color: c1 },
        Obstacle { rect: rect(5, 5, 10, 10), color: c2 },
    ]);
    assert_eq!(scene.first_obstacle_at(Point { x: 7, y: 7 }), Some(c1));
    assert_eq!(scene.first_obstacle_at(Point { x: 12, y: 12 }), Some(c2));
    assert_eq!(scene.first_obstacle_at(Point { x: 2, y: 2 }), Some(c1));
    assert_eq!(scene.first_obstacle_at(Point { x: 20, y: 20 }), None);
}

#[test]
fn first_obstacle_at_empty_scene() {
    let scene = Scene::new(vec![]);
    assert_eq!(scene.first_obstacle_at(Point { x: 0, y: 0 }), None);
}
