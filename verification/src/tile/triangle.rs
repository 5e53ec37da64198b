//! The wedge tile: three corners of the square and an apex that slides along
//! a diagonal as the tile opens.

use crate::shape::{Polygon, Shape, EDGE};
use crate::tile::traits::{RandomTile, Tile, UNIT};
use crate::vec2::Vec2;
use vstd::prelude::*;

verus! {

/// Which corners of the square a wedge tile covers.
#[derive(Clone, Copy, Debug, PartialEq, Eq)]
pub enum ElasticTileType {
    ///
    /// ```text
    /// |*       |
    /// |***     |
    /// |*****   |
    /// |********|
    /// ```
    A,
    ///
    /// ```text
    /// |********|
    /// |*****   |
    /// |***     |
    /// |*       |
    /// ```
    B,
    ///
    /// ```text
    /// |********|
    /// |  ******|
    /// |     ***|
    /// |       *|
    /// ```
    C,
    ///
    /// ```text
    /// |       *|
    /// |     ***|
    /// |  ******|
    /// |********|
    /// ```
    D,
}

impl ElasticTileType {
    /// The letter that names the identity.
    pub open spec fn letter(self) -> Seq<char> {
        match self {
            ElasticTileType::A => "A"@,
            ElasticTileType::B => "B"@,
            ElasticTileType::C => "C"@,
            ElasticTileType::D => "D"@,
        }
    }

    /// The identity with the given number: 0, 1 and 2 give the first three,
    /// every other number the last.
    pub open spec fn numbered(index: int) -> Self {
        if index == 0 {
            ElasticTileType::A
        } else if index == 1 {
            ElasticTileType::B
        } else if index == 2 {
            ElasticTileType::C
        } else {
            ElasticTileType::D
        }
    }

    pub fn to_string(&self) -> (name: String)
        ensures
            name@ == self.letter(),
    {
        match self {
            ElasticTileType::A => "A".to_owned(),
            ElasticTileType::B => "B".to_owned(),
            ElasticTileType::C => "C".to_owned(),
            ElasticTileType::D => "D".to_owned(),
        }
    }

    /// Computes [`ElasticTileType::numbered`].
    pub fn from_index(index: u32) -> (kind: Self)
        ensures
            kind == Self::numbered(index as int),
    {
        match index {
            0 => ElasticTileType::A,
            1 => ElasticTileType::B,
            2 => ElasticTileType::C,
            _ => ElasticTileType::D,
        }
    }
}

/// The three fixed corners of a wedge of the given identity, in the tile's
/// own coordinates and in drawing order.
pub open spec fn corners(kind: ElasticTileType) -> Seq<(int, int)> {
    let e = EDGE as int;
    match kind {
        ElasticTileType::A => seq![(e, e), (0, e), (0, 0)],
        ElasticTileType::B => seq![(0, e), (0, 0), (e, 0)],
        ElasticTileType::C => seq![(0, 0), (e, 0), (e, e)],
        ElasticTileType::D => seq![(e, 0), (e, e), (0, e)],
    }
}

/// The apex of a wedge of the given identity and openness `t`, in the tile's
/// own coordinates: each coordinate is `t / 2 + 1 / 4` of the edge, or one
/// edge minus that.
pub open spec fn apex(kind: ElasticTileType, t: int) -> (int, int) {
    let q = 2 * t + UNIT;
    match kind {
        ElasticTileType::A => (EDGE - q, q),
        ElasticTileType::B => (EDGE - q, EDGE - q),
        ElasticTileType::C => (q, EDGE - q),
        ElasticTileType::D => (q, q),
    }
}

/// The four vertices of a wedge in the tile's own coordinates: the corners,
/// then the apex.
pub open spec fn local_vertices(kind: ElasticTileType, t: int) -> Seq<(int, int)> {
    corners(kind).push(apex(kind, t))
}

/// The polygon of a wedge of the given identity and openness drawn at
/// `origin` with `scale`.
pub open spec fn wedge(kind: ElasticTileType, t: int, scale: u32, origin: Vec2<i64>) -> Shape {
    let v = local_vertices(kind, t);
    Shape::Polygon(
        Polygon {
            vertices: [
                crate::shape::placed(v[0].0, v[0].1, scale, origin),
                crate::shape::placed(v[1].0, v[1].1, scale, origin),
                crate::shape::placed(v[2].0, v[2].1, scale, origin),
                crate::shape::placed(v[3].0, v[3].1, scale, origin),
            ],
            t: t as i64,
            kind,
        },
    )
}

/// A wedge tile: an identity and an openness between 0 and [`UNIT`].
#[derive(Clone, Copy, Debug, PartialEq, Eq)]
pub struct ElasticTriangleTile {
    t: i64,
    tile_type: ElasticTileType,
}

impl ElasticTriangleTile {
    #[verifier::type_invariant]
    spec fn in_range(self) -> bool {
        0 <= self.t <= UNIT
    }

    /// The tile's identity.
    pub closed spec fn kind(&self) -> ElasticTileType {
        self.tile_type
    }

    /// The tile of the given identity whose openness is `t` clamped to `[0, UNIT]`.
    pub closed spec fn of(kind: ElasticTileType, t: int) -> Self {
        ElasticTriangleTile {
            t: if t < 0 {
                0
            } else if t > UNIT {
                UNIT
            } else {
                t as i64
            },
            tile_type: kind,
        }
    }

    /// A tile is known by its identity and its openness.
    pub proof fn of_is_exact(kind: ElasticTileType, t: int)
        ensures
            Self::of(kind, t).kind() == kind,
            Self::of(kind, t).openness() == if t < 0 {
                0
            } else if t > UNIT {
                UNIT as int
            } else {
                t
            },
    {
    }

    /// Makes a tile of the given identity; an openness outside `[0, UNIT]`
    /// is clamped.
    pub fn new(t: i64, tile_type: ElasticTileType) -> (tile: Self)
        ensures
            tile == Self::of(tile_type, t as int),
    {
        let t = if t < 0 {
            0
        } else if t > UNIT {
            UNIT
        } else {
            t
        };
        Self { t, tile_type }
    }

    pub fn type_a() -> (tile: Self)
        ensures
            tile == Self::of(ElasticTileType::A, UNIT / 2),
    {
        Self::new(UNIT / 2, ElasticTileType::A)
    }

    pub fn type_b() -> (tile: Self)
        ensures
            tile == Self::of(ElasticTileType::B, UNIT / 2),
    {
        Self::new(UNIT / 2, ElasticTileType::B)
    }

    pub fn type_c() -> (tile: Self)
        ensures
            tile == Self::of(ElasticTileType::C, UNIT / 2),
    {
        Self::new(UNIT / 2, ElasticTileType::C)
    }

    pub fn type_d() -> (tile: Self)
        ensures
            tile == Self::of(ElasticTileType::D, UNIT / 2),
    {
        Self::new(UNIT / 2, ElasticTileType::D)
    }

    /// The tile's openness, in millionths.
    pub fn t(&self) -> (t: i64)
        ensures
            t == self.openness(),
            0 <= t <= UNIT,
    {
        proof {
            use_type_invariant(self);
        }
        self.t
    }

    pub fn tile_type(&self) -> (kind: ElasticTileType)
        ensures
            kind == self.kind(),
    {
        self.tile_type
    }

    /// The wedge's apex in the tile's own coordinates.
    pub fn point(&self) -> (apex: Vec2<i64>)
        ensures
            (apex.x as int, apex.y as int) == self::apex(self.kind(), self.openness()),
            UNIT <= apex.x <= 3 * UNIT,
            UNIT <= apex.y <= 3 * UNIT,
    {
        proof {
            use_type_invariant(self);
        }
        let q: i64 = 2 * self.t + UNIT;
        match self.tile_type {
            ElasticTileType::A => Vec2::new(EDGE - q, q),
            ElasticTileType::B => Vec2::new(EDGE - q, EDGE - q),
            ElasticTileType::C => Vec2::new(q, EDGE - q),
            ElasticTileType::D => Vec2::new(q, q),
        }
    }

    /// The tile drawn from a number: see [`ElasticTileType::numbered`]. The
    /// tile has the openness of a fresh tile, one half.
    pub fn from_index(index: u32) -> (tile: Self)
        ensures
            tile == Self::of(ElasticTileType::numbered(index as int), UNIT / 2),
    {
        Self::new(UNIT / 2, ElasticTileType::from_index(index))
    }
}

impl Default for ElasticTriangleTile {
    #[inline]
    fn default() -> (tile: Self)
        ensures
            tile == Self::of(ElasticTileType::A, UNIT / 2),
    {
        Self::type_a()
    }
}

impl Tile for ElasticTriangleTile {
    closed spec fn openness(&self) -> int {
        self.t as int
    }

    open spec fn lit(&self, brightness: i64) -> Self {
        Self::of(self.kind(), crate::tile::traits::openness_of(brightness as int))
    }

    open spec fn neutral() -> Self {
        Self::of(ElasticTileType::A, UNIT / 2)
    }

    open spec fn can_render(&self, scale: u32, origin: Vec2<i64>) -> bool {
        crate::shape::square_fits(scale, origin)
    }

    open spec fn outline(&self, scale: u32, origin: Vec2<i64>) -> Shape {
        wedge(self.kind(), self.openness(), scale, origin)
    }

    proof fn lit_sets_openness(&self, brightness: i64) {
    }

    fn default_tile() -> (tile: Self) {
        Self::type_a()
    }

    fn set_brightness(&mut self, brightness: i64) {
        self.t = crate::tile::traits::openness_for(brightness);
    }

    fn render(&self, scale: u32, origin: Vec2<i64>) -> (shape: Option<Shape>) {
        if !crate::shape::square_fits_at(scale, origin) {
            return None;
        }
        proof {
            use_type_invariant(self);
        }
        let far = EDGE;
        let (first, second, third) = match self.tile_type {
            ElasticTileType::A => (
                crate::shape::place(far, far, scale, origin),
                crate::shape::place(0, far, scale, origin),
                crate::shape::place(0, 0, scale, origin),
            ),
            ElasticTileType::B => (
                crate::shape::place(0, far, scale, origin),
                crate::shape::place(0, 0, scale, origin),
                crate::shape::place(far, 0, scale, origin),
            ),
            ElasticTileType::C => (
                crate::shape::place(0, 0, scale, origin),
                crate::shape::place(far, 0, scale, origin),
                crate::shape::place(far, far, scale, origin),
            ),
            ElasticTileType::D => (
                crate::shape::place(far, 0, scale, origin),
                crate::shape::place(far, far, scale, origin),
                crate::shape::place(0, far, scale, origin),
            ),
        };
        let tip = self.point();
        let fourth = crate::shape::place(tip.x, tip.y, scale, origin);
        Some(
            Shape::Polygon(
                Polygon { vertices: [first, second, third, fourth], t: self.t, kind: self.tile_type },
            ),
        )
    }
}

/// Draws a whole number with `rand::Rng::gen_range` over the inclusive range
/// `0..=max`, from the generator that `rand::thread_rng` hands out. Of the
/// number drawn the contract says only that it lies in that range.
#[verifier::external_body]
fn random_index(max: u32) -> (index: u32)
    ensures
        index <= max,
{
    rand::Rng::gen_range(&mut rand::thread_rng(), 0..=max)
}

impl RandomTile for ElasticTriangleTile {
    /// A fresh wedge has one of the four identities and openness one half.
    open spec fn fresh(tile: Self) -> bool {
        tile == Self::of(tile.kind(), UNIT / 2)
    }

    fn sample() -> (tile: Self) {
        Self::from_index(random_index(3))
    }
}

/// A wedge drawn fully closed and fully open has the vertices that its
/// identity fixes: the three corners, and the apex a quarter of the edge away
/// from the one diagonal or the other. Wherever and however large the wedge is
/// drawn, its polygon is those vertices scaled and moved.
pub proof fn extreme_wedges(kind: ElasticTileType, scale: u32, origin: Vec2<i64>)
    ensures
        local_vertices(kind, 0) == corners(kind).push(
            match kind {
                ElasticTileType::A => (3 * UNIT, UNIT as int),
                ElasticTileType::B => (3 * UNIT, 3 * UNIT),
                ElasticTileType::C => (UNIT as int, 3 * UNIT),
                ElasticTileType::D => (UNIT as int, UNIT as int),
            },
        ),
        local_vertices(kind, UNIT as int) == corners(kind).push(
            match kind {
                ElasticTileType::A => (UNIT as int, 3 * UNIT),
                ElasticTileType::B => (UNIT as int, UNIT as int),
                ElasticTileType::C => (3 * UNIT, UNIT as int),
                ElasticTileType::D => (3 * UNIT, 3 * UNIT),
            },
        ),
        forall|t: int, i: int|
            0 <= t <= UNIT && 0 <= i < 4 && crate::shape::square_fits(scale, origin) ==> {
                let drawn = (#[trigger] wedge(kind, t, scale, origin)->Polygon_0.vertices[i]);
                let local = local_vertices(kind, t)[i];
                drawn.x - origin.x == local.0 * scale && drawn.y - origin.y == local.1 * scale
            },
{
    assert forall|t: int, i: int|
        0 <= t <= UNIT && 0 <= i < 4 && crate::shape::square_fits(scale, origin) implies {
            let drawn = (#[trigger] wedge(kind, t, scale, origin)->Polygon_0.vertices[i]);
            let local = local_vertices(kind, t)[i];
            drawn.x - origin.x == local.0 * scale && drawn.y - origin.y == local.1 * scale
        } by {
        let local = local_vertices(kind, t)[i];
        assert(0 <= local.0 <= EDGE && 0 <= local.1 <= EDGE);
        let s = scale as int;
        assert(0 <= local.0 * s <= EDGE * s) by (nonlinear_arith)
            requires
                0 <= local.0 <= EDGE,
                0 <= s,
        ;
        assert(0 <= local.1 * s <= EDGE * s) by (nonlinear_arith)
            requires
                0 <= local.1 <= EDGE,
                0 <= s,
        ;
    }
}

} // verus!
