//! Marching a single ray through a scene in fixed-size steps.
use vstd::prelude::*;
use crate::geometry::{Color, Direction, Point, DIR_ONE, floor_div};
use crate::scene::{Scene, Obstacle, first_color};

verus! {

/// Largest step length and largest reach of a ray.
pub const MAX_RANGE: i64 = 0x10_0000;

/// Why a ray configuration was refused.
#[derive(Clone, Copy, Debug, PartialEq, Eq, Structural)]
pub enum ConfigError {
    /// The step length is zero or negative: the march would never advance.
    NonPositiveStep,
    /// The maximum distance is negative or beyond `MAX_RANGE`.
    DistanceOutOfRange,
    /// Fewer than two rays in the field of view.
    TooFewRays,
    /// More rays than `MAX_RAYS`, or a field of view outside `[0, MAX_FOV]`.
    FovOutOfRange,
}

/// The step length of the march and the distance at which a ray escapes.
#[derive(Clone, Copy, Debug, PartialEq, Eq, Structural)]
pub struct RayConfig {
    pub step: i64,
    pub max_distance: i64,
}

/// What a ray hit: the obstacle's color, the sample point inside it, and the
/// distance travelled to that point.
#[derive(Clone, Copy, Debug, PartialEq, Eq, Structural)]
pub struct RayHit {
    pub color: Color,
    pub point: Point,
    pub distance: i64,
}

impl RayConfig {
    pub open spec fn wf(&self) -> bool {
        0 < self.step <= MAX_RANGE && 0 <= self.max_distance <= MAX_RANGE
    }

    /// A configuration, refused where the step is not positive or the
    /// distance is out of range.
    pub fn new(step: i64, max_distance: i64) -> (r: Result<RayConfig, ConfigError>)
        ensures
            step <= 0 ==> r == Err::<RayConfig, ConfigError>(ConfigError::NonPositiveStep),
            step > 0 && !(0 <= max_distance <= MAX_RANGE && step <= MAX_RANGE) ==> r == Err::<
                RayConfig,
                ConfigError,
            >(ConfigError::DistanceOutOfRange),
            0 < step <= MAX_RANGE && 0 <= max_distance <= MAX_RANGE ==> r == Ok::<
                RayConfig,
                ConfigError,
            >(RayConfig { step, max_distance }),
            r is Ok ==> r->Ok_0.wf(),
    {
        if step <= 0 {
            Err(ConfigError::NonPositiveStep)
        } else if !(0 <= max_distance && max_distance <= MAX_RANGE && step <= MAX_RANGE) {
            Err(ConfigError::DistanceOutOfRange)
        } else {
            Ok(RayConfig { step, max_distance })
        }
    }
}

/// `d * c / DIR_ONE`, rounded down.
pub open spec fn scale(d: int, c: int) -> int {
    (d * c) / (DIR_ONE as int)
}

/// The point at distance `d` from `origin` along `dir`.
pub open spec fn sample_point(origin: Point, dir: Direction, d: int) -> Point {
    Point {
        x: (origin.x + scale(d, dir.dx as int)) as i64,
        y: (origin.y + scale(d, dir.dy as int)) as i64,
    }
}

/// The first hit among the samples at distances `d, d + step, ...` below
/// `max_distance`.
pub open spec fn cast_from(
    origin: Point,
    dir: Direction,
    obs: Seq<Obstacle>,
    step: int,
    max_distance: int,
    d: int,
) -> Option<RayHit>
    decreases max_distance - d + step,
{
    if step <= 0 || d < 0 || d >= max_distance {
        None
    } else {
        match first_color(obs, sample_point(origin, dir, d)) {
            Some(c) => Some(RayHit { color: c, point: sample_point(origin, dir, d), distance: d as i64 }),
            None => cast_from(origin, dir, obs, step, max_distance, d + step),
        }
    }
}

/// The ray's result: samples at every multiple of the step below the maximum
/// distance, starting at the origin itself.
pub open spec fn cast_spec(origin: Point, dir: Direction, obs: Seq<Obstacle>, cfg: RayConfig) -> Option<RayHit> {
    cast_from(origin, dir, obs, cfg.step as int, cfg.max_distance as int, 0)
}

/// `d * c / DIR_ONE` rounded down, for a distance and a direction component.
fn scaled(d: i64, c: i64) -> (r: i64)
    requires
        0 <= d <= MAX_RANGE,
        -DIR_ONE <= c <= DIR_ONE,
    ensures
        r == scale(d as int, c as int),
        -MAX_RANGE <= r <= MAX_RANGE,
{
    assert(-MAX_RANGE * DIR_ONE <= d * c <= MAX_RANGE * DIR_ONE) by (nonlinear_arith)
        requires
            0 <= d <= MAX_RANGE,
            -DIR_ONE <= c <= DIR_ONE,
    ;
    let p = d * c;
    if p >= 0 {
        let q = p / DIR_ONE;
        assert(q == p / DIR_ONE);
        q
    } else {
        let n = -p + (DIR_ONE - 1);
        let q = n / DIR_ONE;
        assert(-q == (p as int) / (DIR_ONE as int)) by (nonlinear_arith)
            requires
                p < 0,
                n == -p + (DIR_ONE - 1),
                q == n / DIR_ONE,
        ;
        -q
    }
}

/// The point at distance `d` from `origin` along `dir`.
pub fn point_at(origin: Point, dir: Direction, d: i64) -> (p: Point)
    requires
        origin.wf(),
        dir.wf(),
        0 <= d <= MAX_RANGE,
    ensures
        p == sample_point(origin, dir, d as int),
{
    Point { x: origin.x + scaled(d, dir.dx), y: origin.y + scaled(d, dir.dy) }
}

/// March from `origin` along `dir`: the first sample, at a distance that is a
/// multiple of the step and below the maximum, that lies in an obstacle gives
/// the hit; `None` where the ray escapes.
pub fn ray_cast(origin: Point, dir: Direction, scene: &Scene, cfg: &RayConfig) -> (r: Option<RayHit>)
    requires
        origin.wf(),
        dir.wf(),
        scene.wf(),
        cfg.wf(),
    ensures
        r == cast_spec(origin, dir, scene.obstacles@, *cfg),
{
    let mut d: i64 = 0;
    while d < cfg.max_distance
        invariant
            origin.wf(),
            dir.wf(),
            scene.wf(),
            cfg.wf(),
            0 <= d <= cfg.max_distance + cfg.step,
            cast_spec(origin, dir, scene.obstacles@, *cfg) == cast_from(
                origin,
                dir,
                scene.obstacles@,
                cfg.step as int,
                cfg.max_distance as int,
                d as int,
            ),
        decreases cfg.max_distance - d + cfg.step,
    {
        let point = point_at(origin, dir, d);
        match scene.first_obstacle_at(point) {
            Some(color) => {
                return Some(RayHit { color, point, distance: d });
            },
            None => {},
        }
        d = d + cfg.step;
    }
    None
}

} // verus!

verus! {

/// A ray whose samples below the maximum distance all miss every obstacle
/// escapes: the cast reports no hit.
pub proof fn lemma_escape(origin: Point, dir: Direction, obs: Seq<Obstacle>, cfg: RayConfig)
    requires
        cfg.wf(),
        forall|k: int|
            0 <= k && k * cfg.step < cfg.max_distance ==> first_color(
                obs,
                #[trigger] sample_point(origin, dir, k * cfg.step),
            ) is None,
    ensures
        cast_spec(origin, dir, obs, cfg) is None,
{
    lemma_escape_from(origin, dir, obs, cfg, 0);
}

proof fn lemma_escape_from(origin: Point, dir: Direction, obs: Seq<Obstacle>, cfg: RayConfig, k: int)
    requires
        cfg.wf(),
        0 <= k,
        forall|j: int|
            0 <= j && j * cfg.step < cfg.max_distance ==> first_color(
                obs,
                #[trigger] sample_point(origin, dir, j * cfg.step),
            ) is None,
    ensures
        cast_from(origin, dir, obs, cfg.step as int, cfg.max_distance as int, k * cfg.step) is None,
    decreases cfg.max_distance - k * cfg.step + cfg.step,
{
    assert(0 <= k * cfg.step) by (nonlinear_arith)
        requires
            0 <= k,
            0 < cfg.step,
    ;
    assert((k + 1) * cfg.step == k * cfg.step + cfg.step) by (nonlinear_arith);
    if k * cfg.step < cfg.max_distance {
        lemma_escape_from(origin, dir, obs, cfg, k + 1);
    }
}

} // verus!
