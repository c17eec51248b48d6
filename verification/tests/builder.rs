// Tests for the polygon boundary builder. Coordinates are in
// milli-pixels (one thousandth of a pixel), the unit the embedding
// application is expected to choose.

use arena_drift::builder::{build, BoundarySegment, BuildError, TrigTable};
use arena_drift::geometry::Vec2i;

const ONE: i64 = 1_000_000;

fn clamp_to_scale(v: f64, one: i64) -> i64 {
    let r = v.round() as i64;
    r.max(-one).min(one)
}

fn make_table(faces: usize, one: i64) -> TrigTable {
    let n = faces as f64;
    let pi = std::f64::consts::PI;
    let scale = one as f64;
    let mut dirs = Vec::new();
    for i in 0..faces {
        let a = (i as f64) * 2.0 * pi / n;
        dirs.push(Vec2i {
            x: clamp_to_scale(a.cos() * scale, one),
            y: clamp_to_scale(a.sin() * scale, one),
        });
    }
    TrigTable {
        one,
        cos_half_step: clamp_to_scale((pi / n).cos() * scale, one),
        sin_half_step: clamp_to_scale((pi / n).sin() * scale, one),
        dirs,
    }
}

fn orientation_radians(s: &BoundarySegment) -> f64 {
    2.0 * std::f64::consts::PI * (s.orientation.turn_num as f64)
        / (s.orientation.turn_denom as f64)
}

#[test]
fn builder_rejects_too_few_faces() {
    let t = make_table(2, ONE);
    assert_eq!(build(250_000, 2, 500, &t), Err(BuildError::TooFewFaces));
    assert_eq!(build(250_000, 0, 500, &t), Err(BuildError::TooFewFaces));
}

#[test]
fn builder_rejects_non_positive_radius() {
    let t = make_table(3, ONE);
    assert_eq!(build(0, 3, 500, &t), Err(BuildError::NonPositiveRadius));
    assert_eq!(build(-250_000, 3, 500, &t), Err(BuildError::NonPositiveRadius));
}

#[test]
fn builder_rejects_mismatched_table() {
    let t = make_table(8, ONE);
    assert_eq!(build(250_000, 16, 500, &t), Err(BuildError::InvalidTable));
    let bad = TrigTable {
        one: 1000,
        cos_half_step: 1001,
        sin_half_step: 500,
        dirs: make_table(3, 1000).dirs,
    };
    assert_eq!(build(250_000, 3, 500, &bad), Err(BuildError::InvalidTable));
}

#[test]
fn builder_exact_square() {
    // A hand-written table for a square, so every value is exact.
    let dirs = vec![
        Vec2i { x: 1000, y: 0 },
        Vec2i { x: 0, y: 1000 },
        Vec2i { x: -1000, y: 0 },
        Vec2i { x: 0, y: -1000 },
    ];
    let t = TrigTable { one: 1000, cos_half_step: 707, sin_half_step: 707, dirs };
    let segs = build(100_000, 4, 500, &t).unwrap();
    assert_eq!(segs.len(), 4);
    // apothem = 100_000 * 707 / 1000 = 70_700, half length the same.
    assert_eq!(segs[0].center, Vec2i { x: 70_700, y: 0 });
    assert_eq!(segs[1].center, Vec2i { x: 0, y: 70_700 });
    assert_eq!(segs[2].center, Vec2i { x: -70_700, y: 0 });
    assert_eq!(segs[3].center, Vec2i { x: 0, y: -70_700 });
    for (i, s) in segs.iter().enumerate() {
        assert_eq!(s.half_length, 70_700);
        assert_eq!(s.half_thickness, 500);
        // Orientation: i/4 + 1/4 of a turn.
        assert_eq!(s.orientation.turn_num, 4 * (i as i64) + 4);
        assert_eq!(s.orientation.turn_denom, 16);
    }
}

#[test]
fn builder_count_matches_faces() {
    for faces in [3usize, 5, 12, 64, 100] {
        let t = make_table(faces, ONE);
        let segs = build(250_000, faces, 500, &t).unwrap();
        assert_eq!(segs.len(), faces);
    }
}

#[test]
fn builder_centers_lie_on_apothem_circle() {
    // Segment midpoints lie on the circle of radius r * cos(pi/n),
    // within the fixed-point rounding of the table.
    let faces = 64usize;
    let radius_f = 250_000.0f64;
    let t = make_table(faces, ONE);
    let segs = build(250_000, faces, 500, &t).unwrap();
    let apothem = radius_f * (std::f64::consts::PI / faces as f64).cos();
    for s in &segs {
        let norm = ((s.center.x as f64).powi(2) + (s.center.y as f64).powi(2)).sqrt();
        assert!((norm - apothem).abs() < 3.0, "norm {} apothem {}", norm, apothem);
    }
}

#[test]
fn builder_end_to_end_sizes() {
    // radius = 250 px, 64 faces: half length ~ 12.27 px and apothem
    // ~ 249.7 px, here in milli-pixels.
    let faces = 64usize;
    let t = make_table(faces, ONE);
    let segs = build(250_000, faces, 500, &t).unwrap();
    assert_eq!(segs.len(), 64);
    let pi = std::f64::consts::PI;
    let expect_half_len = 2.0 * 64.0 * 250_000.0 * (pi / 64.0).sin() / 64.0 / 2.0;
    let expect_apothem = 250_000.0 * (pi / 64.0).cos();
    assert!((expect_half_len - 12_266.9).abs() < 1.0);
    assert!((expect_apothem - 249_698.9).abs() < 1.0);
    for s in &segs {
        assert!((s.half_length as f64 - expect_half_len).abs() < 3.0);
        let norm = ((s.center.x as f64).powi(2) + (s.center.y as f64).powi(2)).sqrt();
        assert!((norm - expect_apothem).abs() < 3.0);
    }
}

#[test]
fn builder_ring_is_closed() {
    // Consecutive segment endpoints coincide within the rounding of the
    // fixed-point table: the ring has no gaps.
    let faces = 64usize;
    let t = make_table(faces, ONE);
    let segs = build(250_000, faces, 500, &t).unwrap();
    for i in 0..faces {
        let a = &segs[i];
        let b = &segs[(i + 1) % faces];
        let ta = orientation_radians(a);
        let tb = orientation_radians(b);
        // Endpoint of `a` toward `b`, and endpoint of `b` toward `a`.
        let ax = a.center.x as f64 + a.half_length as f64 * ta.cos();
        let ay = a.center.y as f64 + a.half_length as f64 * ta.sin();
        let bx = b.center.x as f64 - b.half_length as f64 * tb.cos();
        let by = b.center.y as f64 - b.half_length as f64 * tb.sin();
        let gap = ((ax - bx).powi(2) + (ay - by).powi(2)).sqrt();
        assert!(gap < 5.0, "gap {} at face {}", gap, i);
    }
}
