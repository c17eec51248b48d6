//! The per-tick drift controller: advance the arena centre, reflect its
//! velocity off the viewport edges, and carry the whole boundary ring
//! along rigidly.

use vstd::prelude::*;
use crate::builder::BoundarySegment;
use crate::geometry::Vec2i;

verus! {

/// Largest magnitude accepted for a velocity component, per tick unit.
pub const MAX_SPEED: i64 = 1_000_000_000;

/// Largest magnitude accepted for the elapsed time of one tick.
pub const MAX_TICK: i64 = 1_000_000_000;

/// Largest value accepted for the arena radius and the viewport
/// half-extents.
pub const MAX_EXTENT: i64 = 1_000_000_000;

/// Largest magnitude accepted for a coordinate entering a tick. Chosen
/// so that a position, its per-tick displacement (at most
/// `MAX_SPEED * MAX_TICK`) and the arena radius always sum within
/// `i64`.
pub const MAX_COORD: i64 = 4_000_000_000_000_000_000;

/// The drift state of the arena: the velocity of its logical centre and
/// the centre's current position. Exactly one instance drives a run;
/// the controller updates it every tick.
#[derive(Clone, Copy, Debug, PartialEq, Eq, Structural)]
pub struct ArenaCenter {
    pub velocity: Vec2i,
    pub position: Vec2i,
}

/// Mathematical model of a drift state, over unbounded integers.
pub ghost struct Drift {
    pub vx: int,
    pub vy: int,
    pub px: int,
    pub py: int,
}

impl View for ArenaCenter {
    type V = Drift;

    open spec fn view(&self) -> Drift {
        Drift {
            vx: self.velocity.x as int,
            vy: self.velocity.y as int,
            px: self.position.x as int,
            py: self.position.y as int,
        }
    }
}

/// Whether motion along one axis must reflect this tick: the look-ahead
/// position `p + v * dt`, padded by the arena radius, would reach or
/// cross either viewport edge on that axis.
pub open spec fn reflects(p: int, v: int, dt: int, radius: int, half_extent: int) -> bool {
    ||| p + v * dt + radius >= half_extent
    ||| p + v * dt - radius <= -half_extent
}

/// The velocity component along one axis after the reflection check:
/// negated exactly when `reflects` holds of the look-ahead position.
pub open spec fn bounced(v: int, p: int, dt: int, radius: int, half_extent: int) -> int {
    if reflects(p, v, dt, radius, half_extent) {
        -v
    } else {
        v
    }
}

/// One tick of the drift controller, as a pure function on the model:
/// reflect each velocity component off its axis independently, then
/// move the centre by the post-reflection displacement.
pub open spec fn step(d: Drift, dt: int, radius: int, half_w: int, half_h: int) -> Drift {
    let vx = bounced(d.vx, d.px, dt, radius, half_w);
    let vy = bounced(d.vy, d.py, dt, radius, half_h);
    Drift { vx, vy, px: d.px + vx * dt, py: d.py + vy * dt }
}

/// `n` ticks of the drift controller on the model.
pub open spec fn step_n(d: Drift, n: nat, dt: int, radius: int, half_w: int, half_h: int) -> Drift
    decreases n,
{
    if n == 0 {
        d
    } else {
        step(step_n(d, (n - 1) as nat, dt, radius, half_w, half_h), dt, radius, half_w, half_h)
    }
}

/// How one tick moves a boundary segment: its centre is translated by
/// `disp` and every other attribute is untouched.
pub open spec fn translated(after: BoundarySegment, before: BoundarySegment, disp: Vec2i) -> bool {
    &&& after.center.x == before.center.x + disp.x
    &&& after.center.y == before.center.y + disp.y
    &&& after.orientation == before.orientation
    &&& after.half_length == before.half_length
    &&& after.half_thickness == before.half_thickness
}

/// Reflection uses the look-ahead position and the post-flip
/// displacement: for purely horizontal motion whose next position,
/// padded by the radius, would reach the right viewport edge, one step
/// flips the sign of the x velocity and moves the centre by the
/// displacement of the flipped velocity, not the original one; the y
/// coordinate stays put.
pub proof fn lemma_reflection_uses_post_flip_displacement(
    d: Drift,
    dt: int,
    radius: int,
    half_w: int,
    half_h: int,
)
    requires
        d.vy == 0,
        d.px + d.vx * dt + radius >= half_w,
    ensures
        step(d, dt, radius, half_w, half_h).vx == -d.vx,
        step(d, dt, radius, half_w, half_h).px == d.px + (-d.vx) * dt,
        step(d, dt, radius, half_w, half_h).vy == 0,
        step(d, dt, radius, half_w, half_h).py == d.py,
{
}

/// When the look-ahead positions on both axes leave the viewport in the
/// same step, both velocity components flip in that step, each axis
/// independently of the other.
pub proof fn lemma_corner_flips_both(d: Drift, dt: int, radius: int, half_w: int, half_h: int)
    requires
        reflects(d.px, d.vx, dt, radius, half_w),
        reflects(d.py, d.vy, dt, radius, half_h),
    ensures
        step(d, dt, radius, half_w, half_h).vx == -d.vx,
        step(d, dt, radius, half_w, half_h).vy == -d.vy,
{
}

/// Zero motion is a steady state: with both velocity components zero,
/// any number of steps leaves the drift state exactly as it was, so the
/// centre (and with it, by the rigidity of each tick, every boundary
/// segment) never moves.
pub proof fn lemma_zero_velocity_is_steady(
    d: Drift,
    n: nat,
    dt: int,
    radius: int,
    half_w: int,
    half_h: int,
)
    requires
        d.vx == 0,
        d.vy == 0,
    ensures
        step_n(d, n, dt, radius, half_w, half_h) == d,
    decreases n,
{
    if n > 0 {
        lemma_zero_velocity_is_steady(d, (n - 1) as nat, dt, radius, half_w, half_h);
    }
}

/// One simulation tick.
///
/// Advances `center` by one `step` of the model: each velocity
/// component is negated exactly when the look-ahead position on its
/// axis, padded by `arena_radius`, would reach or cross the viewport
/// half-extent, and the centre then moves by the post-reflection
/// displacement `velocity * dt`. Every boundary segment is translated
/// by that same displacement, which is also returned, so the ring moves
/// rigidly with the centre and never distorts.
///
/// `dt` may be zero or negative (time sources can misbehave); the tick
/// is still a well-defined step and with a zero displacement it moves
/// nothing.
pub fn tick(
    center: &mut ArenaCenter,
    segments: &mut Vec<BoundarySegment>,
    dt: i64,
    arena_radius: i64,
    half_width: i64,
    half_height: i64,
) -> (disp: Vec2i)
    requires
        -MAX_TICK <= dt <= MAX_TICK,
        0 <= arena_radius <= MAX_EXTENT,
        0 <= half_width <= MAX_EXTENT,
        0 <= half_height <= MAX_EXTENT,
        -MAX_SPEED <= old(center).velocity.x <= MAX_SPEED,
        -MAX_SPEED <= old(center).velocity.y <= MAX_SPEED,
        -MAX_COORD <= old(center).position.x <= MAX_COORD,
        -MAX_COORD <= old(center).position.y <= MAX_COORD,
        forall|i: int| 0 <= i < old(segments)@.len() ==> {
            &&& -MAX_COORD <= (#[trigger] old(segments)@[i]).center.x <= MAX_COORD
            &&& -MAX_COORD <= old(segments)@[i].center.y <= MAX_COORD
        },
    ensures
        final(center)@ == step(
            old(center)@, dt as int, arena_radius as int, half_width as int, half_height as int),
        disp.x == final(center)@.vx * dt,
        disp.y == final(center)@.vy * dt,
        final(center)@.px == old(center)@.px + disp.x,
        final(center)@.py == old(center)@.py + disp.y,
        final(center).velocity.x == -old(center).velocity.x
            || final(center).velocity.x == old(center).velocity.x,
        final(center).velocity.y == -old(center).velocity.y
            || final(center).velocity.y == old(center).velocity.y,
        final(segments)@.len() == old(segments)@.len(),
        forall|i: int| 0 <= i < old(segments)@.len() ==>
            translated(#[trigger] final(segments)@[i], old(segments)@[i], disp),
{
    let vx0 = center.velocity.x;
    let vy0 = center.velocity.y;
    proof {
        assert(-1_000_000_000_000_000_000 <= vx0 as int * dt as int <= 1_000_000_000_000_000_000)
            by (nonlinear_arith)
            requires -1_000_000_000 <= vx0 <= 1_000_000_000 && -1_000_000_000 <= dt <= 1_000_000_000;
        assert(-1_000_000_000_000_000_000 <= vy0 as int * dt as int <= 1_000_000_000_000_000_000)
            by (nonlinear_arith)
            requires -1_000_000_000 <= vy0 <= 1_000_000_000 && -1_000_000_000 <= dt <= 1_000_000_000;
    }
    let next_x = center.position.x + vx0 * dt;
    let next_y = center.position.y + vy0 * dt;
    let vx = if next_x + arena_radius >= half_width || next_x - arena_radius <= -half_width {
        -vx0
    } else {
        vx0
    };
    let vy = if next_y + arena_radius >= half_height || next_y - arena_radius <= -half_height {
        -vy0
    } else {
        vy0
    };
    proof {
        assert(-1_000_000_000_000_000_000 <= vx as int * dt as int <= 1_000_000_000_000_000_000)
            by (nonlinear_arith)
            requires -1_000_000_000 <= vx <= 1_000_000_000 && -1_000_000_000 <= dt <= 1_000_000_000;
        assert(-1_000_000_000_000_000_000 <= vy as int * dt as int <= 1_000_000_000_000_000_000)
            by (nonlinear_arith)
            requires -1_000_000_000 <= vy <= 1_000_000_000 && -1_000_000_000 <= dt <= 1_000_000_000;
    }
    let dx = vx * dt;
    let dy = vy * dt;
    center.velocity = Vec2i { x: vx, y: vy };
    center.position = Vec2i { x: center.position.x + dx, y: center.position.y + dy };

    let ghost orig = segments@;
    let disp = Vec2i { x: dx, y: dy };
    let mut i: usize = 0;
    while i < segments.len()
        invariant
            segments@.len() == orig.len(),
            0 <= i <= orig.len(),
            -1_000_000_000_000_000_000 <= dx <= 1_000_000_000_000_000_000,
            -1_000_000_000_000_000_000 <= dy <= 1_000_000_000_000_000_000,
            disp.x == dx,
            disp.y == dy,
            forall|j: int| 0 <= j < orig.len() ==> {
                &&& -MAX_COORD <= (#[trigger] orig[j]).center.x <= MAX_COORD
                &&& -MAX_COORD <= orig[j].center.y <= MAX_COORD
            },
            forall|j: int| 0 <= j < i ==> translated(#[trigger] segments@[j], orig[j], disp),
            forall|j: int| i <= j < orig.len() ==> segments@[j] == orig[j],
        decreases orig.len() - i,
    {
        let s = segments[i];
        proof {
            assert(segments@[i as int] == orig[i as int]);
            assert(-MAX_COORD <= orig[i as int].center.x <= MAX_COORD);
        }
        let moved = BoundarySegment {
            center: Vec2i { x: s.center.x + dx, y: s.center.y + dy },
            ..s
        };
        segments.set(i, moved);
        i += 1;
    }
    disp
}

} // verus!
