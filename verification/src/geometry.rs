//! Geometry generation for the slider widget.
//!
//! All coordinates are in fixed-point micro-NDC units: one normalized device
//! coordinate unit equals `UNIT` micro-units. The widget is drawn as two
//! quads: a draggable head anchored at its top-left corner, and a fixed
//! track. Colors use the same fixed-point scale (1.0 == `UNIT`).

use vstd::prelude::*;

verus! {

/// One NDC unit, in micro-units.
pub const UNIT: i64 = 1_000_000;

/// Width of the slider head (0.10 NDC).
pub const HEAD_WIDTH: i64 = 100_000;

/// Height of the slider head (0.15 NDC).
pub const HEAD_HEIGHT: i64 = 150_000;

/// Left edge of the fixed track (-0.60 NDC).
pub const TRACK_LEFT: i64 = -600_000;

/// Right edge of the fixed track (0.60 NDC).
pub const TRACK_RIGHT: i64 = 600_000;

/// Top edge of the fixed track (0.50 NDC).
pub const TRACK_TOP: i64 = 500_000;

/// Bottom edge of the fixed track (0.45 NDC).
pub const TRACK_BOTTOM: i64 = 450_000;

/// Red component of the widget color (0.5).
pub const COLOR_R: i64 = 500_000;

/// Green component of the widget color (0.0).
pub const COLOR_G: i64 = 0;

/// Blue component of the widget color (0.5).
pub const COLOR_B: i64 = 500_000;

/// Bound on the magnitude of any coordinate the library accepts, far beyond
/// the [-1, 1] NDC square, so that geometry arithmetic cannot overflow.
pub const COORD_LIMIT: i64 = 1_000_000_000_000;

/// One vertex of the widget geometry: a position and a color, both in
/// fixed-point micro-units.
#[derive(Copy, Clone, Debug, PartialEq, Eq)]
pub struct Vertex {
    pub position: (i64, i64, i64),
    pub color: (i64, i64, i64),
}

/// Whether a coordinate is small enough for geometry arithmetic to stay
/// within `i64`.
pub open spec fn in_coord_bounds(c: i64) -> bool {
    -COORD_LIMIT <= c && c <= COORD_LIMIT
}

/// A vertex at the given position, carrying the constant widget color.
pub open spec fn spec_vertex(px: int, py: int) -> Vertex {
    Vertex {
        position: ((px as i64), (py as i64), 0),
        color: (COLOR_R, COLOR_G, COLOR_B),
    }
}

/// The eight vertices drawn for a head anchored at `(x, y)`: four head
/// corners (top-left, bottom-left, bottom-right, top-right) followed by the
/// four fixed track corners.
pub open spec fn spec_generate(x: i64, y: i64) -> Seq<Vertex> {
    seq![
        spec_vertex(x as int, y as int),
        spec_vertex(x as int, y - HEAD_HEIGHT),
        spec_vertex(x + HEAD_WIDTH, y - HEAD_HEIGHT),
        spec_vertex(x + HEAD_WIDTH, y as int),
        spec_vertex(TRACK_LEFT as int, TRACK_TOP as int),
        spec_vertex(TRACK_LEFT as int, TRACK_BOTTOM as int),
        spec_vertex(TRACK_RIGHT as int, TRACK_BOTTOM as int),
        spec_vertex(TRACK_RIGHT as int, TRACK_TOP as int),
    ]
}

/// The fixed triangulation: two triangles for the head quad, two for the
/// track quad (whose indices are offset by the quad size, 4).
pub open spec fn spec_indices() -> Seq<u16> {
    seq![0u16, 1u16, 3u16, 1u16, 2u16, 3u16, 4u16, 5u16, 7u16, 5u16, 6u16, 7u16]
}

fn vertex(px: i64, py: i64) -> (r: Vertex)
    ensures
        r == spec_vertex(px as int, py as int),
{
    Vertex { position: (px, py, 0), color: (COLOR_R, COLOR_G, COLOR_B) }
}

/// Compute the full widget geometry for a head anchored at `(x, y)`: the
/// result is exactly `spec_generate(x, y)`, so equal anchors always yield
/// equal geometry.
pub fn generate(x: i64, y: i64) -> (r: Vec<Vertex>)
    requires
        in_coord_bounds(x),
        in_coord_bounds(y),
    ensures
        r@ == spec_generate(x, y),
{
    let mut r: Vec<Vertex> = Vec::new();
    r.push(vertex(x, y));
    r.push(vertex(x, y - HEAD_HEIGHT));
    r.push(vertex(x + HEAD_WIDTH, y - HEAD_HEIGHT));
    r.push(vertex(x + HEAD_WIDTH, y));
    r.push(vertex(TRACK_LEFT, TRACK_TOP));
    r.push(vertex(TRACK_LEFT, TRACK_BOTTOM));
    r.push(vertex(TRACK_RIGHT, TRACK_BOTTOM));
    r.push(vertex(TRACK_RIGHT, TRACK_TOP));
    proof {
        assert(r@ =~= spec_generate(x, y));
    }
    r
}

/// The index list that triangulates the two quads.
pub fn indices() -> (r: Vec<u16>)
    ensures
        r@ == spec_indices(),
{
    let mut r: Vec<u16> = Vec::new();
    r.push(0);
    r.push(1);
    r.push(3);
    r.push(1);
    r.push(2);
    r.push(3);
    r.push(4);
    r.push(5);
    r.push(7);
    r.push(5);
    r.push(6);
    r.push(7);
    proof {
        assert(r@ =~= spec_indices());
    }
    r
}

/// Every anchor yields a head quad of constant width `HEAD_WIDTH` and height
/// `HEAD_HEIGHT`, anchored at `(x, y)`, and a track quad with the fixed
/// construction-time corners.
pub proof fn lemma_generate_shape(x: i64, y: i64)
    requires
        in_coord_bounds(x),
        in_coord_bounds(y),
    ensures
        spec_generate(x, y).len() == 8,
        spec_generate(x, y)[0].position.0 == x,
        spec_generate(x, y)[0].position.1 == y,
        spec_generate(x, y)[3].position.0 - spec_generate(x, y)[0].position.0 == HEAD_WIDTH,
        spec_generate(x, y)[0].position.1 - spec_generate(x, y)[1].position.1 == HEAD_HEIGHT,
        spec_generate(x, y)[1].position.0 == spec_generate(x, y)[0].position.0,
        spec_generate(x, y)[2].position.0 == spec_generate(x, y)[3].position.0,
        spec_generate(x, y)[2].position.1 == spec_generate(x, y)[1].position.1,
        spec_generate(x, y)[3].position.1 == spec_generate(x, y)[0].position.1,
        spec_generate(x, y)[4] == spec_vertex(TRACK_LEFT as int, TRACK_TOP as int),
        spec_generate(x, y)[5] == spec_vertex(TRACK_LEFT as int, TRACK_BOTTOM as int),
        spec_generate(x, y)[6] == spec_vertex(TRACK_RIGHT as int, TRACK_BOTTOM as int),
        spec_generate(x, y)[7] == spec_vertex(TRACK_RIGHT as int, TRACK_TOP as int),
{
}

/// Geometry generation is pure: two results computed for the same anchor are
/// identical.
pub proof fn lemma_generate_pure(x: i64, y: i64, a: Seq<Vertex>, b: Seq<Vertex>)
    requires
        a == spec_generate(x, y),
        b == spec_generate(x, y),
    ensures
        a == b,
{
}

} // verus!
