use raytrace::fov::{ray_angles, sweep, FovConfig, ANGLE_PI, MAX_FOV, MAX_RAYS};
use raytrace::geometry::{Color, Direction, Point, Rect, DIR_ONE};
use raytrace::ray::{point_at, ray_cast, ConfigError, RayConfig, RayHit, MAX_RANGE};
use raytrace::scene::{Obstacle, Scene};

fn one_rect_scene(x: i64, y: i64, w: i64, h: i64, color: Color) -> Scene {
    Scene::new(vec![Obstacle { rect: Rect { x, y, w, h }, color }])
}

#[test]
fn ray_cast_distance_is_quantized_to_the_step() {
    let c = Color::new(1, 2, 3, 255);
    let scene = one_rect_scene(50, -5, 10, 10, c);
    let cfg = RayConfig::new(3, 400).unwrap();
    let hit = ray_cast(Point { x: 0, y: 0 }, Direction { dx: DIR_ONE, dy: 0 }, &scene, &cfg);
    assert_eq!(hit, Some(RayHit { color: c, point: Point { x: 51, y: 0 }, distance: 51 }));
}

#[test]
fn ray_cast_without_obstacle_in_reach_escapes() {
    let scene = one_rect_scene(500, -5, 10, 10, Color::new(1, 2, 3, 255));
    let cfg = RayConfig::new(3, 400).unwrap();
    assert_eq!(ray_cast(Point { x: 0, y: 0 }, Direction { dx: DIR_ONE, dy: 0 }, &scene, &cfg), None);
    assert_eq!(ray_cast(Point { x: 0, y: 0 }, Direction { dx: -DIR_ONE, dy: 0 }, &scene, &cfg), None);
    let empty = Scene::new(vec![]);
    assert_eq!(ray_cast(Point { x: 0, y: 0 }, Direction { dx: 0, dy: DIR_ONE }, &empty, &cfg), None);
}

#[test]
fn ray_cast_hits_at_origin_with_distance_zero() {
    let c = Color::new(9, 9, 9, 255);
    let scene = one_rect_scene(-5, -5, 10, 10, c);
    let cfg = RayConfig::new(3, 400).unwrap();
    let hit = ray_cast(Point { x: 0, y: 0 }, Direction { dx: 0, dy: DIR_ONE }, &scene, &cfg);
    assert_eq!(hit, Some(RayHit { color: c, point: Point { x: 0, y: 0 }, distance: 0 }));
}

#[test]
fn ray_cast_last_sample_is_below_max_distance() {
    let c = Color::new(9, 9, 9, 255);
    let scene = one_rect_scene(399, -1, 1, 2, c);
    let cfg = RayConfig::new(3, 400).unwrap();
    let dir = Direction { dx: DIR_ONE, dy: 0 };
    assert_eq!(ray_cast(Point { x: 0, y: 0 }, dir, &scene, &cfg).map(|h| h.distance), Some(399));
    let short = RayConfig::new(3, 399).unwrap();
    assert_eq!(ray_cast(Point { x: 0, y: 0 }, dir, &scene, &short), None);
}

#[test]
fn point_at_rounds_down() {
    let p = point_at(Point { x: 10, y: 10 }, Direction { dx: DIR_ONE / 2, dy: -DIR_ONE / 2 }, 3);
    assert_eq!(p, Point { x: 11, y: 8 });
}

#[test]
fn ray_config_errors() {
    assert_eq!(RayConfig::new(0, 400), Err(ConfigError::NonPositiveStep));
    assert_eq!(RayConfig::new(-3, 400), Err(ConfigError::NonPositiveStep));
    assert_eq!(RayConfig::new(3, -1), Err(ConfigError::DistanceOutOfRange));
    assert_eq!(RayConfig::new(3, MAX_RANGE + 1), Err(ConfigError::DistanceOutOfRange));
    assert_eq!(RayConfig::new(3, 400), Ok(RayConfig { step: 3, max_distance: 400 }));
}

#[test]
fn fov_config_errors() {
    assert_eq!(FovConfig::new(0, ANGLE_PI), Err(ConfigError::TooFewRays));
    assert_eq!(FovConfig::new(1, ANGLE_PI), Err(ConfigError::TooFewRays));
    assert_eq!(FovConfig::new(MAX_RAYS + 1, ANGLE_PI), Err(ConfigError::FovOutOfRange));
    assert_eq!(FovConfig::new(5, MAX_FOV + 1), Err(ConfigError::FovOutOfRange));
    assert_eq!(FovConfig::new(5, -1), Err(ConfigError::FovOutOfRange));
    assert_eq!(FovConfig::new(2, 0), Ok(FovConfig { ray_count: 2, fov: 0 }));
}

#[test]
fn fov_angles_span_the_field_evenly() {
    let cfg = FovConfig::new(5, ANGLE_PI).unwrap();
    let angles = ray_angles(0, &cfg);
    assert_eq!(angles, vec![-ANGLE_PI / 2, -ANGLE_PI / 4, 0, ANGLE_PI / 4, ANGLE_PI / 2]);
}

#[test]
fn fov_angles_are_centered_on_facing() {
    let cfg = FovConfig::new(3, 12288).unwrap();
    assert_eq!(ray_angles(1000, &cfg), vec![1000 - 6144, 1000, 1000 + 6144]);
    let two = FovConfig::new(2, 7).unwrap();
    assert_eq!(ray_angles(0, &two), vec![-4, 3]);
}

#[test]
fn sweep_twice_gives_identical_hits() {
    let scene = Scene::new(vec![
        Obstacle { rect: Rect { x: 30, y: -20, w: 10, h: 40 }, color: Color::new(200, 0, 0, 255) },
        Obstacle { rect: Rect { x: -40, y: 10, w: 20, h: 20 }, color: Color::new(0, 200, 0, 255) },
    ]);
    let cfg = RayConfig::new(3, 400).unwrap();
    let dirs = vec![
        Direction { dx: DIR_ONE, dy: 0 },
        Direction { dx: 0, dy: DIR_ONE },
        Direction { dx: -DIR_ONE, dy: DIR_ONE / 2 },
    ];
    let origin = Point { x: 0, y: 0 };
    let first = sweep(origin, &dirs, &scene, &cfg);
    let second = sweep(origin, &dirs, &scene, &cfg);
    assert_eq!(first, second);
    assert_eq!(first.len(), 3);
    assert_eq!(first[0].map(|h| h.distance), Some(30));
    assert_eq!(first[1], None);
    assert_eq!(first[2].map(|h| (h.distance, h.point)), Some((21, Point { x: -21, y: 10 })));
}
