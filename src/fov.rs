//! Fanning rays across the field of view.
use vstd::prelude::*;
use crate::geometry::{Direction, Point, floor_div};
use crate::ray::{ConfigError, RayConfig, RayHit, cast_spec, ray_cast};
use crate::scene::{Obstacle, Scene};

verus! {

/// Angle units that make up half a turn (pi radians).
pub const ANGLE_PI: i64 = 20480;

/// Angle units in a full turn.
pub const ANGLE_TURN: i64 = 40960;

/// Largest number of rays in a field of view.
pub const MAX_RAYS: usize = 0x1_0000;

/// Widest field of view, in angle units.
pub const MAX_FOV: i64 = 81920;

/// Largest magnitude of a facing angle handed to the sampler.
pub const ANGLE_LIMIT: i64 = 0x100_0000_0000;

/// How many rays are cast, and the angular width they span.
#[derive(Clone, Copy, Debug, PartialEq, Eq, Structural)]
pub struct FovConfig {
    pub ray_count: usize,
    pub fov: i64,
}

impl FovConfig {
    pub open spec fn wf(&self) -> bool {
        2 <= self.ray_count <= MAX_RAYS && 0 <= self.fov <= MAX_FOV
    }

    /// A configuration, refused where fewer than two rays are asked for (the
    /// spacing of the rays would divide by zero) or a value is out of range.
    pub fn new(ray_count: usize, fov: i64) -> (r: Result<FovConfig, ConfigError>)
        ensures
            ray_count < 2 ==> r == Err::<FovConfig, ConfigError>(ConfigError::TooFewRays),
            ray_count >= 2 && !(ray_count <= MAX_RAYS && 0 <= fov <= MAX_FOV) ==> r == Err::<
                FovConfig,
                ConfigError,
            >(ConfigError::FovOutOfRange),
            2 <= ray_count <= MAX_RAYS && 0 <= fov <= MAX_FOV ==> r == Ok::<FovConfig, ConfigError>(
                FovConfig { ray_count, fov },
            ),
    {
        if ray_count < 2 {
            Err(ConfigError::TooFewRays)
        } else if !(ray_count <= MAX_RAYS && 0 <= fov && fov <= MAX_FOV) {
            Err(ConfigError::FovOutOfRange)
        } else {
            Ok(FovConfig { ray_count, fov })
        }
    }
}

/// The angle of ray `i` of `n`: `facing + (i / (n - 1) - 1/2) * fov`, rounded
/// down to whole angle units.
pub open spec fn ray_angle(facing: int, fov: int, n: int, i: int) -> int {
    facing + ((2 * i - (n - 1)) * fov) / (2 * (n - 1))
}

/// The angles of all rays, in increasing order of index.
pub fn ray_angles(facing: i64, cfg: &FovConfig) -> (r: Vec<i64>)
    requires
        cfg.wf(),
        -ANGLE_LIMIT <= facing <= ANGLE_LIMIT,
    ensures
        r@.len() == cfg.ray_count,
        forall|i: int|
            0 <= i < r@.len() ==> r@[i] == ray_angle(
                facing as int,
                cfg.fov as int,
                cfg.ray_count as int,
                i,
            ),
{
    let n = cfg.ray_count as i64;
    let den = 2 * (n - 1);
    let mut out: Vec<i64> = Vec::new();
    let mut i: usize = 0;
    while i < cfg.ray_count
        invariant
            cfg.wf(),
            -ANGLE_LIMIT <= facing <= ANGLE_LIMIT,
            n == cfg.ray_count,
            den == 2 * (n - 1),
            i <= cfg.ray_count,
            out@.len() == i,
            forall|k: int|
                0 <= k < i ==> out@[k] == ray_angle(
                    facing as int,
                    cfg.fov as int,
                    cfg.ray_count as int,
                    k,
                ),
        decreases cfg.ray_count - i,
    {
        let m = 2 * (i as i64) - (n - 1);
        assert(-MAX_RAYS * MAX_FOV <= m * cfg.fov <= MAX_RAYS * MAX_FOV) by (nonlinear_arith)
            requires
                -MAX_RAYS <= m <= MAX_RAYS,
                0 <= cfg.fov <= MAX_FOV,
        ;
        let off = floor_div(m * cfg.fov, den);
        out.push(facing + off);
        i = i + 1;
    }
    out
}

/// The hits of the rays that start at `origin`, one per direction.
pub open spec fn sweep_spec(origin: Point, dirs: Seq<Direction>, obs: Seq<Obstacle>, cfg: RayConfig) -> Seq<Option<RayHit>> {
    Seq::new(dirs.len(), |i: int| cast_spec(origin, dirs[i], obs, cfg))
}

/// Cast one ray per direction, in order; the scene is only read.
pub fn sweep(origin: Point, dirs: &Vec<Direction>, scene: &Scene, cfg: &RayConfig) -> (r: Vec<Option<RayHit>>)
    requires
        origin.wf(),
        scene.wf(),
        cfg.wf(),
        forall|i: int| 0 <= i < dirs@.len() ==> (#[trigger] dirs@[i]).wf(),
    ensures
        r@ == sweep_spec(origin, dirs@, scene.obstacles@, *cfg),
{
    let mut out: Vec<Option<RayHit>> = Vec::new();
    let mut i: usize = 0;
    while i < dirs.len()
        invariant
            origin.wf(),
            scene.wf(),
            cfg.wf(),
            forall|k: int| 0 <= k < dirs@.len() ==> (#[trigger] dirs@[k]).wf(),
            i <= dirs@.len(),
            out@.len() == i,
            forall|k: int|
                0 <= k < i ==> out@[k] == cast_spec(origin, dirs@[k], scene.obstacles@, *cfg),
        decreases dirs@.len() - i,
    {
        let hit = ray_cast(origin, dirs[i], scene, cfg);
        out.push(hit);
        i = i + 1;
    }
    assert(out@ =~= sweep_spec(origin, dirs@, scene.obstacles@, *cfg));
    out
}

/// Two sweeps over the same origin, directions, scene and configuration give
/// the same hits, ray for ray: a sweep depends on nothing else.
pub proof fn lemma_sweep_repeatable(
    origin: Point,
    dirs: Seq<Direction>,
    obs: Seq<Obstacle>,
    cfg: RayConfig,
    first: Seq<Option<RayHit>>,
    second: Seq<Option<RayHit>>,
)
    requires
        first.len() == dirs.len(),
        second.len() == dirs.len(),
        forall|i: int| 0 <= i < dirs.len() ==> first[i] == cast_spec(origin, dirs[i], obs, cfg),
        forall|i: int| 0 <= i < dirs.len() ==> second[i] == cast_spec(origin, dirs[i], obs, cfg),
    ensures
        first == second,
        first == sweep_spec(origin, dirs, obs, cfg),
{
    assert(first =~= second);
    assert(first =~= sweep_spec(origin, dirs, obs, cfg));
}

} // verus!
