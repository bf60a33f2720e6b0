//! A session: camera, scene and held intents, with a fresh random scene on
//! start and on reset.
use vstd::prelude::*;
use rand::Rng;
use crate::camera::{Camera, Intents, advance_spec, initial_camera, motion_spec, no_intents, wrap_spec};
use crate::geometry::{Color, Direction, Rect};
use crate::render::Viewport;
use crate::scene::{Obstacle, Scene};

verus! {

/// Number of obstacles in a generated scene.
pub const OBSTACLE_COUNT: usize = 10;

/// Smallest side of a generated rectangle.
pub const MIN_SIDE: i64 = 10;

/// Bound, not reached, on the side of a generated rectangle.
pub const MAX_SIDE: i64 = 80;

/// Relies on rand's `Rng::gen_range` over `rand::thread_rng()`: a value in
/// `[lo, hi)`; it panics only on an empty range, which `requires` excludes.
#[verifier::external_body]
fn random_in(lo: i64, hi: i64) -> (r: i64)
    requires
        lo < hi,
    ensures
        lo <= r < hi,
{
    rand::thread_rng().gen_range(lo..hi)
}

/// A generated obstacle: sides in `[MIN_SIDE, MAX_SIDE)`, wholly inside the
/// viewport, opaque.
pub open spec fn placed(o: Obstacle, vp: Viewport) -> bool {
    &&& MIN_SIDE <= o.rect.w < MAX_SIDE
    &&& MIN_SIDE <= o.rect.h < MAX_SIDE
    &&& 0 <= o.rect.x && o.rect.x + o.rect.w < vp.width
    &&& 0 <= o.rect.y && o.rect.y + o.rect.h < vp.height
    &&& o.color.a == 255
}

/// Viewports large enough to place any generated rectangle.
pub open spec fn roomy(vp: Viewport) -> bool {
    vp.wf() && vp.width >= MAX_SIDE && vp.height >= MAX_SIDE
}

/// A fresh scene of `OBSTACLE_COUNT` random obstacles placed in the viewport.
pub fn generate_scene(viewport: &Viewport) -> (s: Scene)
    requires
        roomy(*viewport),
    ensures
        s.wf(),
        s.obstacles@.len() == OBSTACLE_COUNT,
        forall|i: int| 0 <= i < s.obstacles@.len() ==> placed(#[trigger] s.obstacles@[i], *viewport),
{
    let mut obstacles: Vec<Obstacle> = Vec::new();
    let mut k: usize = 0;
    while k < OBSTACLE_COUNT
        invariant
            roomy(*viewport),
            k <= OBSTACLE_COUNT,
            obstacles@.len() == k,
            forall|i: int| 0 <= i < k ==> placed(#[trigger] obstacles@[i], *viewport),
        decreases OBSTACLE_COUNT - k,
    {
        let w = random_in(MIN_SIDE, MAX_SIDE);
        let h = random_in(MIN_SIDE, MAX_SIDE);
        let x = random_in(0, viewport.width - w);
        let y = random_in(0, viewport.height - h);
        let r = random_in(0, 255) as u8;
        let g = random_in(0, 255) as u8;
        let b = random_in(0, 255) as u8;
        obstacles.push(Obstacle { rect: Rect { x, y, w, h }, color: Color { r, g, b, a: 255 } });
        k = k + 1;
    }
    let s = Scene { obstacles };
    assert forall|i: int| 0 <= i < s.obstacles@.len() implies (#[trigger] s.obstacles@[i]).rect.wf() by {
        assert(placed(s.obstacles@[i], *viewport));
    }
    s
}

/// The whole state of a session: camera, scene and held intents.
#[derive(Clone, Debug)]
pub struct App {
    pub camera: Camera,
    pub scene: Scene,
    pub held: Intents,
}

impl App {
    pub open spec fn wf(&self) -> bool {
        self.camera.wf() && self.scene.wf()
    }

    /// The state a session starts in: the initial camera, no held intents,
    /// and a fresh scene.
    pub open spec fn fresh(&self, vp: Viewport) -> bool {
        &&& self.wf()
        &&& self.camera == initial_camera()
        &&& self.held == no_intents()
        &&& self.scene.obstacles@.len() == OBSTACLE_COUNT
        &&& forall|i: int| 0 <= i < self.scene.obstacles@.len() ==> placed(#[trigger] self.scene.obstacles@[i], vp)
    }

    pub fn new(viewport: &Viewport) -> (w: App)
        requires
            roomy(*viewport),
        ensures
            w.fresh(*viewport),
    {
        App { camera: Camera::new(), scene: generate_scene(viewport), held: Intents::none() }
    }

    /// Start over: camera, held intents and scene are all replaced at once.
    pub fn reset(&mut self, viewport: &Viewport)
        requires
            roomy(*viewport),
        ensures
            final(self).fresh(*viewport),
    {
        *self = App::new(viewport);
    }

    /// Replace the set of held intents.
    pub fn set_held(&mut self, held: Intents)
        ensures
            *final(self) == (App { held, ..*old(self) }),
    {
        self.held = held;
    }

    /// One frame of motion from the held intents; `heading` is the direction
    /// of `self.camera.turned_angle(&self.held)`.
    pub fn frame(&mut self, heading: Direction)
        requires
            old(self).wf(),
            heading.wf(),
        ensures
            final(self).camera == motion_spec(old(self).camera, old(self).held, heading),
            final(self).scene == old(self).scene,
            final(self).held == old(self).held,
            final(self).wf(),
    {
        self.camera.update(&self.held, heading);
    }
}

/// Right after a reset no intent is held, so the next frame leaves the camera
/// where reset put it, whatever the heading.
pub proof fn lemma_frame_after_reset(w: App, vp: Viewport, heading: Direction)
    requires
        w.fresh(vp),
    ensures
        motion_spec(w.camera, w.held, heading) == initial_camera(),
{
    assert(advance_spec(0, heading.dx as int) == 0);
    assert(advance_spec(0, heading.dy as int) == 0);
    assert(wrap_spec(0) == 0);
}

} // verus!
