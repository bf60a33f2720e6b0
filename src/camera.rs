//! The camera and the two ways it moves.
use vstd::prelude::*;
use crate::geometry::{Direction, Point, COORD_LIMIT, DIR_ONE, floor_div};
use crate::fov::{ANGLE_LIMIT, ANGLE_TURN};

verus! {

/// Distance moved per frame.
pub const SPEED: i64 = 5;

/// Angle units turned per frame in first-person mode (about 0.05 radians).
pub const TURN_SPEED: i64 = 326;

/// A logical movement direction.
#[derive(Clone, Copy, Debug, PartialEq, Eq, Structural)]
pub enum Intent {
    Left,
    Right,
    Forward,
    Backward,
}

/// Which movement intents are currently held.
#[derive(Clone, Copy, Debug, PartialEq, Eq, Structural)]
pub struct Intents {
    pub left: bool,
    pub right: bool,
    pub forward: bool,
    pub backward: bool,
}

/// Position, facing angle (in `[0, ANGLE_TURN)`) and view mode.
#[derive(Clone, Copy, Debug, PartialEq, Eq, Structural)]
pub struct Camera {
    pub position: Point,
    pub angle: i64,
    pub top_down: bool,
}

/// `-1` where only the negative side is held, `1` where only the positive
/// side is, `0` where neither or both are.
pub open spec fn axis_spec(neg: bool, pos: bool) -> int {
    if neg && !pos {
        -1
    } else if pos && !neg {
        1
    } else {
        0
    }
}

/// An angle brought into `[0, ANGLE_TURN)`; it names the same direction.
pub open spec fn wrap_spec(a: int) -> int {
    a % (ANGLE_TURN as int)
}

/// A coordinate held within the world's range.
pub open spec fn clamp_spec(v: int) -> int {
    if v < -COORD_LIMIT {
        -COORD_LIMIT as int
    } else if v > COORD_LIMIT {
        COORD_LIMIT as int
    } else {
        v
    }
}

/// The offset along one component of `heading` for a move of `sign * SPEED`.
pub open spec fn advance_spec(sign: int, c: int) -> int {
    (sign * SPEED * c) / (DIR_ONE as int)
}

pub open spec fn initial_camera() -> Camera {
    Camera { position: Point { x: 100, y: 100 }, angle: 0, top_down: false }
}

pub open spec fn no_intents() -> Intents {
    Intents { left: false, right: false, forward: false, backward: false }
}

/// The angle after a frame's turn: first-person mode turns by the horizontal
/// intent; top-down mode keeps the angle.
pub open spec fn turned_spec(c: Camera, i: Intents) -> int {
    if c.top_down {
        c.angle as int
    } else {
        wrap_spec(c.angle + axis_spec(i.left, i.right) * TURN_SPEED)
    }
}

/// One frame of motion. Top-down: each axis moves by its resolved sign times
/// `SPEED` (forward is up, toward smaller y). First-person: the angle turns,
/// then the camera moves forward or back along `heading`.
pub open spec fn motion_spec(c: Camera, i: Intents, heading: Direction) -> Camera {
    if c.top_down {
        Camera {
            position: Point {
                x: clamp_spec(c.position.x + axis_spec(i.left, i.right) * SPEED) as i64,
                y: clamp_spec(c.position.y + axis_spec(i.forward, i.backward) * SPEED) as i64,
            },
            ..c
        }
    } else {
        let f = axis_spec(i.backward, i.forward);
        Camera {
            position: Point {
                x: clamp_spec(c.position.x + advance_spec(f, heading.dx as int)) as i64,
                y: clamp_spec(c.position.y + advance_spec(f, heading.dy as int)) as i64,
            },
            angle: turned_spec(c, i) as i64,
            ..c
        }
    }
}

/// Resolve a pair of opposite intents to `-1`, `0` or `1`.
pub fn axis(neg: bool, pos: bool) -> (r: i64)
    ensures
        r == axis_spec(neg, pos),
{
    if neg && !pos {
        -1
    } else if pos && !neg {
        1
    } else {
        0
    }
}

fn wrap(a: i64) -> (r: i64)
    requires
        -0x4000_0000_0000_0000 <= a <= 0x4000_0000_0000_0000,
    ensures
        r == wrap_spec(a as int),
        0 <= r < ANGLE_TURN,
{
    let q = floor_div(a, ANGLE_TURN);
    assert(a - q * ANGLE_TURN == (a as int) % (ANGLE_TURN as int)) by (nonlinear_arith)
        requires
            q == (a as int) / (ANGLE_TURN as int),
            ANGLE_TURN == 40960,
    ;
    a - q * ANGLE_TURN
}

fn clamp(v: i64) -> (r: i64)
    ensures
        r == clamp_spec(v as int),
{
    if v < -COORD_LIMIT {
        -COORD_LIMIT
    } else if v > COORD_LIMIT {
        COORD_LIMIT
    } else {
        v
    }
}

fn advance(sign: i64, c: i64) -> (r: i64)
    requires
        -1 <= sign <= 1,
        -DIR_ONE <= c <= DIR_ONE,
    ensures
        r == advance_spec(sign as int, c as int),
        -SPEED <= r <= SPEED,
{
    assert(-SPEED * DIR_ONE <= sign * SPEED * c <= SPEED * DIR_ONE) by (nonlinear_arith)
        requires
            -1 <= sign <= 1,
            -DIR_ONE <= c <= DIR_ONE,
            SPEED == 5,
    ;
    let r = floor_div(sign * SPEED * c, DIR_ONE);
    assert(-SPEED <= r <= SPEED) by (nonlinear_arith)
        requires
            -SPEED * DIR_ONE <= sign * SPEED * c <= SPEED * DIR_ONE,
            r == (sign * SPEED * c) / (DIR_ONE as int),
            DIR_ONE == 0x1_0000,
    ;
    r
}

impl Intents {
    pub fn none() -> (r: Intents)
        ensures
            r == no_intents(),
    {
        Intents { left: false, right: false, forward: false, backward: false }
    }

    /// The same set with `intent` held (`held`) or released.
    pub fn set(&mut self, intent: Intent, held: bool)
        ensures
            *final(self) == (match intent {
                Intent::Left => Intents { left: held, ..*old(self) },
                Intent::Right => Intents { right: held, ..*old(self) },
                Intent::Forward => Intents { forward: held, ..*old(self) },
                Intent::Backward => Intents { backward: held, ..*old(self) },
            }),
    {
        match intent {
            Intent::Left => self.left = held,
            Intent::Right => self.right = held,
            Intent::Forward => self.forward = held,
            Intent::Backward => self.backward = held,
        }
    }
}

impl Camera {
    pub open spec fn wf(&self) -> bool {
        self.position.wf() && 0 <= self.angle < ANGLE_TURN
    }

    /// The camera a session starts with: at (100, 100), facing angle 0, in
    /// first-person mode.
    pub fn new() -> (c: Camera)
        ensures
            c == initial_camera(),
            c.wf(),
    {
        Camera { position: Point { x: 100, y: 100 }, angle: 0, top_down: false }
    }

    /// Flip between top-down and first-person mode.
    pub fn toggle_view(&mut self)
        ensures
            *final(self) == (Camera { top_down: !old(self).top_down, ..*old(self) }),
    {
        self.top_down = !self.top_down;
    }

    /// The pointer moved; `pointer_angle` is the angle from the camera toward
    /// it. Top-down mode faces the pointer; first-person mode ignores it.
    pub fn pointer_moved(&mut self, pointer_angle: i64)
        requires
            old(self).wf(),
            -ANGLE_LIMIT <= pointer_angle <= ANGLE_LIMIT,
        ensures
            final(self).wf(),
            old(self).top_down ==> *final(self) == (Camera {
                angle: wrap_spec(pointer_angle as int) as i64,
                ..*old(self)
            }),
            !old(self).top_down ==> *final(self) == *old(self),
    {
        if self.top_down {
            self.angle = wrap(pointer_angle);
        }
    }

    /// The facing angle after this frame's turn; the caller makes the heading
    /// for `update` from it.
    pub fn turned_angle(&self, intents: &Intents) -> (r: i64)
        requires
            self.wf(),
        ensures
            r == turned_spec(*self, *intents),
            0 <= r < ANGLE_TURN,
    {
        if self.top_down {
            self.angle
        } else {
            wrap(self.angle + axis(intents.left, intents.right) * TURN_SPEED)
        }
    }

    /// One frame of motion driven by the held intents; `heading` is the
    /// direction of `turned_angle`, used in first-person mode only.
    pub fn update(&mut self, intents: &Intents, heading: Direction)
        requires
            old(self).wf(),
            heading.wf(),
        ensures
            *final(self) == motion_spec(*old(self), *intents, heading),
            final(self).wf(),
    {
        if self.top_down {
            let h = axis(intents.left, intents.right);
            let v = axis(intents.forward, intents.backward);
            self.position = Point {
                x: clamp(self.position.x + h * SPEED),
                y: clamp(self.position.y + v * SPEED),
            };
        } else {
            let angle = self.turned_angle(intents);
            let f = axis(intents.backward, intents.forward);
            self.position = Point {
                x: clamp(self.position.x + advance(f, heading.dx)),
                y: clamp(self.position.y + advance(f, heading.dy)),
            };
            self.angle = angle;
        }
    }
}

} // verus!
