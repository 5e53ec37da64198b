//! Positioned shape descriptions: what rendering hands to a serializer.

use crate::tile::triangle::ElasticTileType;
use crate::vec2::Vec2;
use vstd::prelude::*;

verus! {

/// The edge length of a tile's own square, in the units of its own
/// coordinates. It is four times the openness unit, so that every vertex of
/// every tile is a whole number.
pub const EDGE: i64 = 4_000_000;

/// One step of a path outline.
#[derive(Clone, Copy, Debug, PartialEq, Eq)]
pub enum PathCommand {
    /// Start a new outline at a point.
    MoveTo(Vec2<i64>),
    /// Draw a straight line to a point.
    LineTo(Vec2<i64>),
    /// Draw an elliptical arc to a point.
    ArcTo { radii: Vec2<i64>, rotation: i64, large_arc: bool, sweep: bool, to: Vec2<i64> },
}

/// A closed four-cornered polygon made by a wedge tile.
#[derive(Clone, Copy, Debug, PartialEq, Eq)]
pub struct Polygon {
    /// The vertices in drawing order; the last one is the wedge's apex.
    pub vertices: [Vec2<i64>; 4],
    /// The openness of the tile that was drawn, in millionths.
    pub t: i64,
    /// The identity of the tile that was drawn.
    pub kind: ElasticTileType,
}

impl Polygon {
    /// The coordinates of the vertices in one row: `x` and then `y` of each
    /// vertex in turn.
    pub open spec fn flat(self) -> Seq<i64> {
        seq![
            self.vertices[0].x,
            self.vertices[0].y,
            self.vertices[1].x,
            self.vertices[1].y,
            self.vertices[2].x,
            self.vertices[2].y,
            self.vertices[3].x,
            self.vertices[3].y,
        ]
    }

    /// Computes [`Polygon::flat`].
    pub fn points(&self) -> (points: Vec<i64>)
        ensures
            points@ == self.flat(),
    {
        let mut points: Vec<i64> = Vec::new();
        let mut index: usize = 0;
        while index < 4
            invariant
                index <= 4,
                points@.len() == 2 * index,
                forall|i: int|
                    0 <= i < index ==> points@[2 * i] == self.vertices[i].x && points@[2 * i + 1]
                        == self.vertices[i].y,
            decreases 4 - index,
        {
            let vertex = self.vertices[index];
            points.push(vertex.x);
            points.push(vertex.y);
            index += 1;
        }
        assert(points@[0] == self.vertices[0].x && points@[1] == self.vertices[0].y);
        assert(points@[2] == self.vertices[1].x && points@[3] == self.vertices[1].y);
        assert(points@[4] == self.vertices[2].x && points@[5] == self.vertices[2].y);
        assert(points@[6] == self.vertices[3].x && points@[7] == self.vertices[3].y);
        assert(points@ =~= self.flat());
        points
    }
}

/// Two closed ribbons, each bounded by two arcs, made by a circle tile.
#[derive(Clone, Copy, Debug, PartialEq, Eq)]
pub struct Ribbons {
    /// The ribbon round the square's first corner.
    pub upper: [PathCommand; 5],
    /// The ribbon round the opposite corner.
    pub lower: [PathCommand; 5],
    /// The width of the line that outlines each ribbon.
    pub stroke_width: i64,
    /// Whether both ribbons are turned by a quarter turn about `pivot`.
    pub quarter_turn: bool,
    /// The centre of the tile's square.
    pub pivot: Vec2<i64>,
}

/// A shape with its place in the picture.
#[derive(Clone, Copy, Debug, PartialEq, Eq)]
pub enum Shape {
    Polygon(Polygon),
    Ribbons(Ribbons),
}

/// Whether `value` is a coordinate that `i64` holds.
pub open spec fn is_coordinate(value: int) -> bool {
    i64::MIN <= value <= i64::MAX
}

/// Where the point `(x, y)` of a tile's own square lies when the tile is
/// drawn at `origin` with `scale`.
pub open spec fn placed(x: int, y: int, scale: u32, origin: Vec2<i64>) -> Vec2<i64> {
    Vec2 { x: (x * scale + origin.x) as i64, y: (y * scale + origin.y) as i64 }
}

/// `value` kept within `[low, high]`.
pub open spec fn clamped(value: int, low: int, high: int) -> int {
    if value < low {
        low
    } else if value > high {
        high
    } else {
        value
    }
}

/// Whether a whole tile square drawn at `origin` with `scale` has
/// coordinates that `i64` holds.
pub open spec fn square_fits(scale: u32, origin: Vec2<i64>) -> bool {
    &&& origin.x + EDGE * scale <= i64::MAX
    &&& origin.y + EDGE * scale <= i64::MAX
}

/// A point of a tile's square that is drawn where the square fits lies at
/// that point times the scale, moved by the origin: taking the origin away
/// and dividing by the scale gives the point back, wherever and however
/// large the tile is drawn.
pub proof fn placed_is_scaled_and_moved(x: int, y: int, scale: u32, origin: Vec2<i64>)
    requires
        0 <= x <= EDGE,
        0 <= y <= EDGE,
        square_fits(scale, origin),
    ensures
        placed(x, y, scale, origin).x - origin.x == x * scale,
        placed(x, y, scale, origin).y - origin.y == y * scale,
{
    let s = scale as int;
    assert(0 <= x * s <= EDGE * s) by (nonlinear_arith)
        requires
            0 <= x <= EDGE,
            0 <= s,
    ;
    assert(0 <= y * s <= EDGE * s) by (nonlinear_arith)
        requires
            0 <= y <= EDGE,
            0 <= s,
    ;
}

/// Computes [`square_fits`].
pub(crate) fn square_fits_at(scale: u32, origin: Vec2<i64>) -> (fits: bool)
    ensures
        fits == square_fits(scale, origin),
{
    let reach: i64 = EDGE * (scale as i64);
    origin.x <= i64::MAX - reach && origin.y <= i64::MAX - reach
}

/// Computes [`placed`] for a point of the square.
pub(crate) fn place(x: i64, y: i64, scale: u32, origin: Vec2<i64>) -> (point: Vec2<i64>)
    requires
        0 <= x <= EDGE,
        0 <= y <= EDGE,
        square_fits(scale, origin),
    ensures
        point == placed(x as int, y as int, scale, origin),
        point.x == x * scale + origin.x,
        point.y == y * scale + origin.y,
{
    let s: i64 = scale as i64;
    assert(0 <= x * s <= EDGE * s) by (nonlinear_arith)
        requires
            0 <= x <= EDGE,
            0 <= s,
    ;
    assert(0 <= y * s <= EDGE * s) by (nonlinear_arith)
        requires
            0 <= y <= EDGE,
            0 <= s,
    ;
    Vec2::new(x * s + origin.x, y * s + origin.y)
}

} // verus!
