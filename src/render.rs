//! Turning ray hits into draw commands.
use vstd::prelude::*;
use crate::camera::Camera;
use crate::fov::MAX_RAYS;
use crate::geometry::{Color, Point, Rect, COORD_LIMIT};
use crate::ray::{RayHit, MAX_RANGE};
use crate::scene::{Obstacle, Scene};

verus! {

/// Distance at which shading reaches zero intensity.
pub const FADE_DISTANCE: i64 = 400;

/// Width of the line drawn for each ray in top-down mode.
pub const LINE_WIDTH: i64 = 2;

/// Radius of the camera marker in top-down mode.
pub const MARKER_RADIUS: i64 = 10;

/// The camera marker's color: opaque red.
pub open spec fn marker_color() -> Color {
    Color { r: 255, g: 0, b: 0, a: 255 }
}

/// An abstract drawing primitive, for the rendering collaborator to apply in
/// order over a cleared frame.
#[derive(Clone, Copy, Debug, PartialEq, Eq, Structural)]
pub enum DrawCommand {
    FillRect { rect: Rect, color: Color },
    Line { from: Point, to: Point, width: i64, color: Color },
    Circle { center: Point, radius: i64, color: Color },
}

/// The size of the area drawn into.
#[derive(Clone, Copy, Debug, PartialEq, Eq, Structural)]
pub struct Viewport {
    pub width: i64,
    pub height: i64,
}

impl Viewport {
    pub open spec fn wf(&self) -> bool {
        0 < self.width <= COORD_LIMIT && 0 < self.height <= COORD_LIMIT
    }
}

/// Remaining intensity at distance `d`, as a part of `fade`: `fade - d`, held
/// within `[0, fade]`.
pub open spec fn intensity(d: int, fade: int) -> int {
    if d <= 0 {
        fade
    } else if d >= fade {
        0
    } else {
        fade - d
    }
}

/// `c` scaled by `1 - d / fade`, rounded down, with no negative intensity.
pub open spec fn dim(c: u8, d: int, fade: int) -> u8 {
    ((c as int * intensity(d, fade)) / fade) as u8
}

/// Top-down line color: the obstacle's color with alpha `1 - d / fade`.
pub open spec fn faded_color(c: Color, d: int, fade: int) -> Color {
    Color { a: dim(255, d, fade), ..c }
}

/// First-person column color: red, green and blue dimmed by distance, alpha kept.
pub open spec fn shaded_color(c: Color, d: int, fade: int) -> Color {
    Color { r: dim(c.r, d, fade), g: dim(c.g, d, fade), b: dim(c.b, d, fade), a: c.a }
}

/// The column of ray `i` of `n`: at `width * i / (n - 1)`, `width / n + 1`
/// wide, the full height.
pub open spec fn column_rect(i: int, n: int, vp: Viewport) -> Rect {
    Rect {
        x: ((vp.width as int * i) / (n - 1)) as i64,
        y: 0,
        w: (vp.width as int / n + 1) as i64,
        h: vp.height,
    }
}

/// What one hit draws in the camera's mode.
pub open spec fn hit_command(h: RayHit, i: int, n: int, cam: Camera, vp: Viewport, fade: int) -> DrawCommand {
    if cam.top_down {
        DrawCommand::Line {
            from: cam.position,
            to: h.point,
            width: LINE_WIDTH,
            color: faded_color(h.color, h.distance as int, fade),
        }
    } else {
        DrawCommand::FillRect {
            rect: column_rect(i, n, vp),
            color: shaded_color(h.color, h.distance as int, fade),
        }
    }
}

/// The commands of the rays in `hits`, in order; rays with no hit draw
/// nothing. `n` is the total number of rays.
pub open spec fn ray_commands(hits: Seq<Option<RayHit>>, n: int, cam: Camera, vp: Viewport, fade: int) -> Seq<DrawCommand>
    decreases hits.len(),
{
    if hits.len() == 0 {
        Seq::empty()
    } else {
        let rest = ray_commands(hits.drop_last(), n, cam, vp, fade);
        match hits.last() {
            Some(h) => rest.push(hit_command(h, hits.len() - 1, n, cam, vp, fade)),
            None => rest,
        }
    }
}

/// Each obstacle as a filled rectangle in its color.
pub open spec fn obstacle_commands(obs: Seq<Obstacle>) -> Seq<DrawCommand> {
    obs.map_values(|o: Obstacle| DrawCommand::FillRect { rect: o.rect, color: o.color })
}

/// A frame: top-down mode draws the obstacles, one line per hit and the
/// camera marker; first-person mode draws one shaded column per hit.
pub open spec fn frame_commands(hits: Seq<Option<RayHit>>, cam: Camera, obs: Seq<Obstacle>, vp: Viewport, fade: int) -> Seq<DrawCommand> {
    let rays = ray_commands(hits, hits.len() as int, cam, vp, fade);
    if cam.top_down {
        obstacle_commands(obs) + rays + seq![
            DrawCommand::Circle { center: cam.position, radius: MARKER_RADIUS, color: marker_color() },
        ]
    } else {
        rays
    }
}

fn dim_channel(c: u8, d: i64, fade: i64) -> (r: u8)
    requires
        0 < fade <= MAX_RANGE,
    ensures
        r == dim(c, d as int, fade as int),
{
    let k: i64 = if d <= 0 {
        fade
    } else if d >= fade {
        0
    } else {
        fade - d
    };
    assert(0 <= (c as int) * k <= 255 * fade) by (nonlinear_arith)
        requires
            0 <= k <= fade,
            0 <= c <= 255,
    ;
    let q = (c as i64) * k / fade;
    assert(0 <= q <= c) by (nonlinear_arith)
        requires
            0 <= k <= fade,
            0 < fade,
            0 <= c <= 255,
            q == ((c as int) * k) / (fade as int),
    ;
    q as u8
}

fn hit_to_command(h: &RayHit, i: usize, n: usize, cam: &Camera, vp: &Viewport, fade: i64) -> (r: DrawCommand)
    requires
        0 < fade <= MAX_RANGE,
        2 <= n <= MAX_RAYS,
        i < n,
        vp.wf(),
    ensures
        r == hit_command(*h, i as int, n as int, *cam, *vp, fade as int),
{
    if cam.top_down {
        DrawCommand::Line {
            from: cam.position,
            to: h.point,
            width: LINE_WIDTH,
            color: Color { a: dim_channel(255, h.distance, fade), ..h.color },
        }
    } else {
        assert(0 <= vp.width * (i as int) <= COORD_LIMIT * MAX_RAYS) by (nonlinear_arith)
            requires
                0 < vp.width <= COORD_LIMIT,
                i < n <= MAX_RAYS,
        ;
        let x = vp.width * (i as i64) / ((n - 1) as i64);
        let w = vp.width / (n as i64) + 1;
        DrawCommand::FillRect {
            rect: Rect { x, y: 0, w, h: vp.height },
            color: Color {
                r: dim_channel(h.color.r, h.distance, fade),
                g: dim_channel(h.color.g, h.distance, fade),
                b: dim_channel(h.color.b, h.distance, fade),
                a: h.color.a,
            },
        }
    }
}

/// The draw commands for one frame, from the hits of every ray in order.
pub fn render(hits: &Vec<Option<RayHit>>, camera: &Camera, scene: &Scene, viewport: &Viewport, fade: i64) -> (r: Vec<DrawCommand>)
    requires
        2 <= hits@.len() <= MAX_RAYS,
        viewport.wf(),
        0 < fade <= MAX_RANGE,
    ensures
        r@ == frame_commands(hits@, *camera, scene.obstacles@, *viewport, fade as int),
{
    let n = hits.len();
    let mut out: Vec<DrawCommand> = Vec::new();
    if camera.top_down {
        let mut j: usize = 0;
        while j < scene.obstacles.len()
            invariant
                j <= scene.obstacles@.len(),
                out@ == obstacle_commands(scene.obstacles@.take(j as int)),
            decreases scene.obstacles@.len() - j,
        {
            let o = scene.obstacles[j];
            out.push(DrawCommand::FillRect { rect: o.rect, color: o.color });
            assert(scene.obstacles@.take(j + 1) =~= scene.obstacles@.take(j as int).push(o));
            assert(out@ =~= obstacle_commands(scene.obstacles@.take(j + 1)));
            j = j + 1;
        }
        assert(scene.obstacles@.take(j as int) =~= scene.obstacles@);
    }
    let ghost base = out@;
    let mut i: usize = 0;
    while i < n
        invariant
            n == hits@.len(),
            2 <= n <= MAX_RAYS,
            viewport.wf(),
            0 < fade <= MAX_RANGE,
            i <= n,
            out@ == base + ray_commands(hits@.take(i as int), n as int, *camera, *viewport, fade as int),
        decreases n - i,
    {
        assert(hits@.take(i + 1).drop_last() =~= hits@.take(i as int));
        match &hits[i] {
            Some(h) => {
                let c = hit_to_command(h, i, n, camera, viewport, fade);
                out.push(c);
            },
            None => {},
        }
        assert(out@ =~= base + ray_commands(hits@.take(i + 1), n as int, *camera, *viewport, fade as int));
        i = i + 1;
    }
    assert(hits@.take(n as int) =~= hits@);
    if camera.top_down {
        out.push(DrawCommand::Circle {
            center: camera.position,
            radius: MARKER_RADIUS,
            color: Color { r: 255, g: 0, b: 0, a: 255 },
        });
    }
    assert(out@ =~= frame_commands(hits@, *camera, scene.obstacles@, *viewport, fade as int));
    out
}

} // verus!
