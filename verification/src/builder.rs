//! The polygon boundary builder: placement of the straight segments that
//! approximate the circular arena wall.

use vstd::prelude::*;
use crate::geometry::{Angle, Vec2i, mul_div, trunc_mul_div};

verus! {

/// Largest fixed-point scale accepted for a trigonometric table.
pub const MAX_TRIG_ONE: i64 = 1_000_000_000;

/// One straight piece of the arena wall: a thin rectangle (a chord of
/// the circle) at a fixed position and orientation. Its shape never
/// changes after construction; only its centre is moved, by the drift
/// controller's uniform translation.
#[derive(Clone, Copy, Debug, PartialEq, Eq, Structural)]
pub struct BoundarySegment {
    /// Midpoint of the chord, at the apothem's distance from the arena
    /// centre.
    pub center: Vec2i,
    /// Rotation of the rectangle: tangent to the circle at `center`,
    /// i.e. a quarter turn past the direction from the arena centre.
    pub orientation: Angle,
    /// Half the chord's length.
    pub half_length: i64,
    /// Half the rectangle's thickness.
    pub half_thickness: i64,
}

/// Why a build request was rejected.
#[derive(Clone, Copy, Debug, PartialEq, Eq, Structural)]
pub enum BuildError {
    /// Fewer than three faces cannot close a polygon.
    TooFewFaces,
    /// The arena radius must be strictly positive.
    NonPositiveRadius,
    /// The trigonometric table does not fit the requested face count or
    /// holds values outside its own scale.
    InvalidTable,
}

/// Fixed-point samples of the trigonometric values the builder needs.
///
/// The crate keeps its arithmetic exact by working on integers, so the
/// caller samples the trigonometry once, at whatever precision it
/// chooses: `one` is the integer standing for the real number 1, and
/// every other field is the real value scaled by `one` and rounded.
pub struct TrigTable {
    /// The fixed-point scale: the integer standing for 1.
    pub one: i64,
    /// `cos(pi / n)` scaled by `one`, for `n` faces: the apothem of the
    /// inscribed polygon as a fraction of its radius.
    pub cos_half_step: i64,
    /// `sin(pi / n)` scaled by `one`: half of one face's length as a
    /// fraction of the radius.
    pub sin_half_step: i64,
    /// For each face `i` of `n`, the unit direction from the arena
    /// centre to the face's midpoint, `(cos(2*pi*i/n), sin(2*pi*i/n))`,
    /// scaled by `one`.
    pub dirs: Vec<Vec2i>,
}

/// A table fits a face count when it has one direction per face and
/// every sample lies within its own scale. For three or more faces the
/// half-step angle `pi / n` is in the first quadrant, so its sine and
/// cosine must be non-negative.
pub open spec fn table_valid(t: TrigTable, face_count: int) -> bool {
    &&& 0 < t.one <= MAX_TRIG_ONE
    &&& 0 <= t.cos_half_step <= t.one
    &&& 0 <= t.sin_half_step <= t.one
    &&& t.dirs@.len() == face_count
    &&& forall|i: int| 0 <= i < t.dirs@.len() ==> {
        &&& -t.one <= (#[trigger] t.dirs@[i]).x <= t.one
        &&& -t.one <= t.dirs@[i].y <= t.one
    }
}

/// The apothem of the inscribed polygon: the radius scaled by
/// `cos(pi / n)`, the distance from the arena centre to the midpoint of
/// each face.
pub open spec fn apothem_spec(radius: int, t: TrigTable) -> int {
    trunc_mul_div(radius, t.cos_half_step as int, t.one as int)
}

/// Half of one face's length: the radius scaled by `sin(pi / n)`. This
/// equals `perimeter / n / 2` for the inscribed polygon's perimeter
/// `2 * n * radius * sin(pi / n)`.
pub open spec fn half_length_spec(radius: int, t: TrigTable) -> int {
    trunc_mul_div(radius, t.sin_half_step as int, t.one as int)
}

/// The x coordinate of face `i`'s midpoint: the apothem scaled by the
/// face's unit direction.
pub open spec fn center_x_spec(radius: int, t: TrigTable, i: int) -> int {
    trunc_mul_div(apothem_spec(radius, t), t.dirs@[i].x as int, t.one as int)
}

/// The y coordinate of face `i`'s midpoint.
pub open spec fn center_y_spec(radius: int, t: TrigTable, i: int) -> int {
    trunc_mul_div(apothem_spec(radius, t), t.dirs@[i].y as int, t.one as int)
}

/// What the builder owes for face `i` of `face_count`: the midpoint on
/// the apothem circle in the face's direction, the orientation
/// `i / face_count + 1/4` of a turn (the tangent `2*pi*i/n + pi/2` in
/// radians), and the shared half-length and half-thickness.
pub open spec fn segment_spec(
    s: BoundarySegment,
    radius: int,
    face_count: int,
    half_thickness: int,
    t: TrigTable,
    i: int,
) -> bool {
    &&& s.center.x == center_x_spec(radius, t, i)
    &&& s.center.y == center_y_spec(radius, t, i)
    &&& s.orientation.turn_num == 4 * i + face_count
    &&& s.orientation.turn_denom == 4 * face_count
    &&& s.half_length == half_length_spec(radius, t)
    &&& s.half_thickness == half_thickness
}

/// The ring the builder lays out is circular to the precision of the
/// table: scaled back up by the table's `one`, each segment centre
/// differs from the apothem times its face's unit direction by less
/// than `one` per coordinate, the apothem itself differs from
/// `radius * cos(pi / n)` by less than `one`, and the shared
/// half-length equals `radius * sin(pi / n)` — the inscribed polygon's
/// `perimeter / n / 2` — to the same precision. So the centres lie on
/// the circle of radius `radius * cos(pi / n)` as closely as the
/// caller's trigonometric samples allow.
pub proof fn lemma_ring_is_circular_to_precision(
    radius: int,
    t: TrigTable,
    face_count: int,
    i: int,
)
    requires
        table_valid(t, face_count),
        0 <= i < face_count,
    ensures
        radius * t.cos_half_step - t.one
            < t.one * apothem_spec(radius, t)
            < radius * t.cos_half_step + t.one,
        radius * t.sin_half_step - t.one
            < t.one * half_length_spec(radius, t)
            < radius * t.sin_half_step + t.one,
        apothem_spec(radius, t) * t.dirs@[i].x - t.one
            < t.one * center_x_spec(radius, t, i)
            < apothem_spec(radius, t) * t.dirs@[i].x + t.one,
        apothem_spec(radius, t) * t.dirs@[i].y - t.one
            < t.one * center_y_spec(radius, t, i)
            < apothem_spec(radius, t) * t.dirs@[i].y + t.one,
{
    crate::geometry::lemma_trunc_mul_div_close(radius, t.cos_half_step as int, t.one as int);
    crate::geometry::lemma_trunc_mul_div_close(radius, t.sin_half_step as int, t.one as int);
    crate::geometry::lemma_trunc_mul_div_close(
        apothem_spec(radius, t), t.dirs@[i].x as int, t.one as int);
    crate::geometry::lemma_trunc_mul_div_close(
        apothem_spec(radius, t), t.dirs@[i].y as int, t.one as int);
}

/// Checks that a trigonometric table fits a face count.
fn table_ok(t: &TrigTable, face_count: usize) -> (b: bool)
    ensures
        b == table_valid(*t, face_count as int),
{
    if !(0 < t.one && t.one <= MAX_TRIG_ONE) {
        return false;
    }
    if !(0 <= t.cos_half_step && t.cos_half_step <= t.one) {
        return false;
    }
    if !(0 <= t.sin_half_step && t.sin_half_step <= t.one) {
        return false;
    }
    if t.dirs.len() != face_count {
        return false;
    }
    let mut i: usize = 0;
    while i < t.dirs.len()
        invariant
            0 <= i <= t.dirs@.len(),
            0 < t.one <= MAX_TRIG_ONE,
            forall|j: int| 0 <= j < i ==> {
                &&& -t.one <= (#[trigger] t.dirs@[j]).x <= t.one
                &&& -t.one <= t.dirs@[j].y <= t.one
            },
        decreases t.dirs@.len() - i,
    {
        let d = t.dirs[i];
        if !(-t.one <= d.x && d.x <= t.one && -t.one <= d.y && d.y <= t.one) {
            return false;
        }
        i += 1;
    }
    true
}

/// Builds the arena wall: one segment per face of a regular polygon
/// with `face_count` faces inscribed in the circle of the given radius.
///
/// A request with too few faces or a non-positive radius is rejected
/// outright (a degenerate polygon cannot close the ring), as is a
/// trigonometric table that does not fit `face_count`; the checks are
/// made in that order. On success the result holds exactly `face_count`
/// segments, and face `i` carries the midpoint, orientation and shared
/// half-length that `segment_spec` states.
pub fn build(
    radius: i64,
    face_count: usize,
    half_thickness: i64,
    table: &TrigTable,
) -> (r: Result<Vec<BoundarySegment>, BuildError>)
    requires
        5 * (face_count as int) <= i64::MAX,
    ensures
        r is Err <==> (face_count <= 2 || radius <= 0
            || !table_valid(*table, face_count as int)),
        face_count <= 2 ==> (r matches Err(e) && e == BuildError::TooFewFaces),
        face_count > 2 && radius <= 0 ==> (r matches Err(e) && e == BuildError::NonPositiveRadius),
        face_count > 2 && radius > 0 && !table_valid(*table, face_count as int)
            ==> (r matches Err(e) && e == BuildError::InvalidTable),
        r matches Ok(segs) ==> {
            &&& segs@.len() == face_count
            &&& forall|i: int| 0 <= i < face_count ==> segment_spec(
                #[trigger] segs@[i],
                radius as int,
                face_count as int,
                half_thickness as int,
                *table,
                i,
            )
        },
{
    if face_count <= 2 {
        return Err(BuildError::TooFewFaces);
    }
    if radius <= 0 {
        return Err(BuildError::NonPositiveRadius);
    }
    if !table_ok(table, face_count) {
        return Err(BuildError::InvalidTable);
    }
    let apothem = mul_div(radius, table.cos_half_step, table.one);
    let half_length = mul_div(radius, table.sin_half_step, table.one);
    let mut segs: Vec<BoundarySegment> = Vec::new();
    let mut i: usize = 0;
    while i < face_count
        invariant
            0 <= i <= face_count,
            5 * (face_count as int) <= i64::MAX,
            0 < radius,
            table_valid(*table, face_count as int),
            0 <= apothem <= radius,
            apothem == apothem_spec(radius as int, *table),
            half_length == half_length_spec(radius as int, *table),
            segs@.len() == i,
            forall|j: int| 0 <= j < i ==> segment_spec(
                #[trigger] segs@[j],
                radius as int,
                face_count as int,
                half_thickness as int,
                *table,
                j,
            ),
        decreases face_count - i,
    {
        let d = table.dirs[i];
        let cx = mul_div(apothem, d.x, table.one);
        let cy = mul_div(apothem, d.y, table.one);
        let seg = BoundarySegment {
            center: Vec2i { x: cx, y: cy },
            orientation: Angle {
                turn_num: 4 * (i as i64) + (face_count as i64),
                turn_denom: 4 * (face_count as i64),
            },
            half_length,
            half_thickness,
        };
        segs.push(seg);
        i += 1;
    }
    Ok(segs)
}

} // verus!
