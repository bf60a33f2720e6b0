//! The obstacles that rays are tested against.
use vstd::prelude::*;
use crate::geometry::{Color, Point, Rect, contains, point_in_rect};

verus! {

/// A rectangle and the color it shows when a ray hits it.
#[derive(Clone, Copy, Debug, PartialEq, Eq, Structural)]
pub struct Obstacle {
    pub rect: Rect,
    pub color: Color,
}

/// An ordered list of obstacles; on overlap the earliest one wins.
#[derive(Clone, Debug)]
pub struct Scene {
    pub obstacles: Vec<Obstacle>,
}

/// The color of the first obstacle at or after index `i` that contains `p`.
pub open spec fn first_color_from(obs: Seq<Obstacle>, p: Point, i: int) -> Option<Color>
    decreases obs.len() - i,
{
    if i < 0 || i >= obs.len() {
        None
    } else if contains(obs[i].rect, p) {
        Some(obs[i].color)
    } else {
        first_color_from(obs, p, i + 1)
    }
}

/// The color of the first obstacle, in insertion order, that contains `p`.
pub open spec fn first_color(obs: Seq<Obstacle>, p: Point) -> Option<Color> {
    first_color_from(obs, p, 0)
}

impl Scene {
    pub open spec fn wf(&self) -> bool {
        forall|i: int| 0 <= i < self.obstacles@.len() ==> (#[trigger] self.obstacles@[i]).rect.wf()
    }

    pub fn new(obstacles: Vec<Obstacle>) -> (s: Scene)
        ensures
            s.obstacles@ == obstacles@,
    {
        Scene { obstacles }
    }

    /// The color of the first obstacle, in insertion order, whose rectangle
    /// contains `point`; `None` where no rectangle does.
    pub fn first_obstacle_at(&self, point: Point) -> (r: Option<Color>)
        requires
            self.wf(),
        ensures
            r == first_color(self.obstacles@, point),
    {
        let mut i: usize = 0;
        while i < self.obstacles.len()
            invariant
                self.wf(),
                i <= self.obstacles@.len(),
                first_color(self.obstacles@, point) == first_color_from(
                    self.obstacles@,
                    point,
                    i as int,
                ),
            decreases self.obstacles@.len() - i,
        {
            let o = &self.obstacles[i];
            if point_in_rect(point, &o.rect) {
                return Some(o.color);
            }
            i = i + 1;
        }
        None
    }
}

/// Among overlapping obstacles, the one inserted first decides the color.
pub proof fn lemma_first_inserted_wins(obs: Seq<Obstacle>, p: Point, i: int)
    requires
        0 <= i < obs.len(),
        contains(obs[i].rect, p),
        forall|k: int| 0 <= k < i ==> !contains(#[trigger] obs[k].rect, p),
    ensures
        first_color(obs, p) == Some(obs[i].color),
{
    lemma_first_from(obs, p, 0, i);
}

proof fn lemma_first_from(obs: Seq<Obstacle>, p: Point, j: int, i: int)
    requires
        0 <= j <= i < obs.len(),
        contains(obs[i].rect, p),
        forall|k: int| 0 <= k < i ==> !contains(#[trigger] obs[k].rect, p),
    ensures
        first_color_from(obs, p, j) == Some(obs[i].color),
    decreases i - j,
{
    if j < i {
        lemma_first_from(obs, p, j + 1, i);
    }
}

} // verus!
