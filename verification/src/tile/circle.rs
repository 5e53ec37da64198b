//! The circle tile: two ribbons, each a quarter ring round a corner of the
//! square, whose width follows the tile's openness.

use crate::shape::{PathCommand, Ribbons, Shape, EDGE};
use crate::tile::traits::{Tile, UNIT};
use crate::vec2::Vec2;
use vstd::prelude::*;

verus! {

/// The largest radius a circle tile holds, in the tile's own coordinates.
pub const RADIUS_LIMIT: i64 = 17_179_869_180;

/// The width of the line round each ribbon of a tile drawn with scale 1: a
/// hundredth of the edge.
pub const STROKE: i64 = 40_000;

/// The shape of a circle tile with the given half width and radius (both in
/// the tile's own coordinates) drawn at `origin` with `scale`.
///
/// Each ribbon starts on one edge of the square, half a width beyond the
/// edge's middle, follows the outer arc to the neighbouring edge, crosses the
/// ribbon along that edge, follows the inner arc back and closes.
pub open spec fn ribbons(
    turned: bool,
    half_width: int,
    radius: int,
    scale: u32,
    origin: Vec2<i64>,
) -> Shape {
    let h = EDGE / 2;
    let e = EDGE as int;
    let w = half_width;
    let outer = Vec2 { x: ((radius + w) * scale) as i64, y: ((radius + w) * scale) as i64 };
    let inner = Vec2 { x: ((radius - w) * scale) as i64, y: ((radius - w) * scale) as i64 };
    Shape::Ribbons(
        Ribbons {
            upper: [
                PathCommand::MoveTo(crate::shape::placed(0, h + w, scale, origin)),
                PathCommand::ArcTo {
                    radii: outer,
                    rotation: 0,
                    large_arc: false,
                    sweep: false,
                    to: crate::shape::placed(h + w, 0, scale, origin),
                },
                PathCommand::LineTo(crate::shape::placed(h - w, 0, scale, origin)),
                PathCommand::ArcTo {
                    radii: inner,
                    rotation: 0,
                    large_arc: false,
                    sweep: true,
                    to: crate::shape::placed(0, h - w, scale, origin),
                },
                PathCommand::LineTo(crate::shape::placed(0, h + w, scale, origin)),
            ],
            lower: [
                PathCommand::MoveTo(crate::shape::placed(e, h - w, scale, origin)),
                PathCommand::ArcTo {
                    radii: outer,
                    rotation: 0,
                    large_arc: false,
                    sweep: false,
                    to: crate::shape::placed(h - w, e, scale, origin),
                },
                PathCommand::LineTo(crate::shape::placed(h + w, e, scale, origin)),
                PathCommand::ArcTo {
                    radii: inner,
                    rotation: 0,
                    large_arc: false,
                    sweep: true,
                    to: crate::shape::placed(e, h + w, scale, origin),
                },
                PathCommand::LineTo(crate::shape::placed(e, h - w, scale, origin)),
            ],
            stroke_width: (STROKE * scale) as i64,
            quarter_turn: turned,
            pivot: crate::shape::placed(h, h, scale, origin),
        },
    )
}

/// A circle tile: whether it is turned by a quarter turn, the half width of
/// its ribbons and the radius of their middle line.
#[derive(Clone, Copy, Debug, PartialEq, Eq)]
pub struct ElasticCircleTile {
    flipped: bool,
    half_width: i64,
    radius: i64,
}

impl ElasticCircleTile {
    #[verifier::type_invariant]
    spec fn in_range(self) -> bool {
        &&& 0 <= self.half_width <= EDGE / 2
        &&& 0 <= self.radius <= RADIUS_LIMIT
    }

    /// Whether the tile is turned by a quarter turn.
    pub closed spec fn turned(&self) -> bool {
        self.flipped
    }

    /// Half the width of a ribbon, in the tile's own coordinates.
    pub closed spec fn half_width(&self) -> int {
        self.half_width as int
    }

    /// The radius of a ribbon's middle line, in the tile's own coordinates.
    pub closed spec fn radius(&self) -> int {
        self.radius as int
    }

    /// The tile with the given turn, half width and radius, the half width
    /// kept within half an edge and the radius within [`RADIUS_LIMIT`].
    pub closed spec fn of(turned: bool, half_width: int, radius: int) -> Self {
        ElasticCircleTile {
            flipped: turned,
            half_width: crate::shape::clamped(half_width, 0, EDGE / 2) as i64,
            radius: crate::shape::clamped(radius, 0, RADIUS_LIMIT as int) as i64,
        }
    }

    /// A tile is known by its turn, its half width and its radius.
    pub proof fn of_is_exact(turned: bool, half_width: int, radius: int)
        ensures
            Self::of(turned, half_width, radius).turned() == turned,
            Self::of(turned, half_width, radius).half_width() == crate::shape::clamped(
                half_width,
                0,
                EDGE / 2,
            ),
            Self::of(turned, half_width, radius).radius() == crate::shape::clamped(
                radius,
                0,
                RADIUS_LIMIT as int,
            ),
    {
    }

    /// Makes a tile from a ribbon width and a radius, both in millionths of
    /// the edge. A width outside `[0, UNIT]` is clamped; the tile holds half
    /// of it.
    pub fn new(flipped: bool, width: i64, radius: u32) -> (tile: Self)
        ensures
            tile == Self::of(
                flipped,
                2 * crate::shape::clamped(width as int, 0, UNIT as int),
                4 * radius,
            ),
    {
        let width = if width < 0 {
            0
        } else if width > UNIT {
            UNIT
        } else {
            width
        };
        Self { flipped, half_width: 2 * width, radius: 4 * (radius as i64) }
    }

    /// The same tile turned by a quarter turn, or turned back.
    pub fn flipped(self) -> (tile: Self)
        ensures
            tile == Self::of(!self.turned(), self.half_width(), self.radius()),
    {
        proof {
            use_type_invariant(&self);
        }
        Self { flipped: !self.flipped, half_width: self.half_width, radius: self.radius }
    }

    pub fn is_flipped(&self) -> (turned: bool)
        ensures
            turned == self.turned(),
    {
        self.flipped
    }

    /// Where the ribbon round the first corner meets the square's edges, in
    /// the tile's own coordinates.
    pub fn upper_arc(self) -> (ends: (Vec2<i64>, Vec2<i64>))
        ensures
            ends.0 == (Vec2 { x: 0i64, y: (EDGE / 2) as i64 }),
            ends.1 == (Vec2 { x: (EDGE / 2) as i64, y: 0i64 }),
    {
        (Vec2::new(0, EDGE / 2), Vec2::new(EDGE / 2, 0))
    }

    /// Where the ribbon round the opposite corner meets the square's edges,
    /// in the tile's own coordinates.
    pub fn lower_arc(self) -> (ends: (Vec2<i64>, Vec2<i64>))
        ensures
            ends.0 == (Vec2 { x: EDGE, y: (EDGE / 2) as i64 }),
            ends.1 == (Vec2 { x: (EDGE / 2) as i64, y: EDGE }),
    {
        (Vec2::new(EDGE, EDGE / 2), Vec2::new(EDGE / 2, EDGE))
    }
}

impl Default for ElasticCircleTile {
    #[inline]
    fn default() -> (tile: Self)
        ensures
            tile == Self::of(false, UNIT / 5, 2 * UNIT),
    {
        Self::new(false, UNIT / 10, 500_000)
    }
}

impl Tile for ElasticCircleTile {
    open spec fn openness(&self) -> int {
        UNIT - self.half_width()
    }

    open spec fn lit(&self, brightness: i64) -> Self {
        Self::of(
            self.turned(),
            UNIT - crate::tile::traits::openness_of(brightness as int),
            self.radius(),
        )
    }

    open spec fn neutral() -> Self {
        Self::of(false, UNIT / 5, 2 * UNIT)
    }

    open spec fn can_render(&self, scale: u32, origin: Vec2<i64>) -> bool {
        &&& crate::shape::square_fits(scale, origin)
        &&& (self.radius() + self.half_width()) * scale <= i64::MAX
    }

    open spec fn outline(&self, scale: u32, origin: Vec2<i64>) -> Shape {
        ribbons(self.turned(), self.half_width(), self.radius(), scale, origin)
    }

    proof fn lit_sets_openness(&self, brightness: i64) {
    }

    fn default_tile() -> (tile: Self) {
        Self::new(false, UNIT / 10, 500_000)
    }

    #[inline]
    fn set_brightness(&mut self, brightness: i64) {
        proof {
            use_type_invariant(&*self);
        }
        self.half_width = UNIT - crate::tile::traits::openness_for(brightness);
    }

    fn render(&self, scale: u32, origin: Vec2<i64>) -> (shape: Option<Shape>) {
        proof {
            use_type_invariant(self);
        }
        let w = self.half_width;
        let reach: i128 = self.radius as i128 + w as i128;
        assert(0 <= reach * scale <= (RADIUS_LIMIT + EDGE / 2) * 0xffff_ffff) by (nonlinear_arith)
            requires
                0 <= reach <= RADIUS_LIMIT + EDGE / 2,
                0 <= scale <= 0xffff_ffff,
        ;
        let wide: i128 = reach * (scale as i128);
        if !crate::shape::square_fits_at(scale, origin) || wide > i64::MAX as i128 {
            return None;
        }
        let (upper_start, upper_end) = self.upper_arc();
        let (lower_start, lower_end) = self.lower_arc();

        let s: i64 = scale as i64;
        assert(-(w * s) <= (self.radius - w) * s <= (self.radius + w) * s) by (nonlinear_arith)
            requires
                0 <= w,
                0 <= s,
                0 <= self.radius,
        ;
        assert(0 <= w * s <= (EDGE / 2) * s) by (nonlinear_arith)
            requires
                0 <= w <= EDGE / 2,
                0 <= s,
        ;
        let r_plus_hw: i64 = (self.radius + w) * s;
        let r_minus_hw: i64 = (self.radius - w) * s;
        let outer = Vec2::new(r_plus_hw, r_plus_hw);
        let inner = Vec2::new(r_minus_hw, r_minus_hw);

        let upper_from = crate::shape::place(upper_start.x, upper_start.y + w, scale, origin);
        let upper = [
            PathCommand::MoveTo(upper_from),
            PathCommand::ArcTo {
                radii: outer,
                rotation: 0,
                large_arc: false,
                sweep: false,
                to: crate::shape::place(upper_end.x + w, upper_end.y, scale, origin),
            },
            PathCommand::LineTo(
                crate::shape::place(upper_end.x - w, upper_end.y, scale, origin),
            ),
            PathCommand::ArcTo {
                radii: inner,
                rotation: 0,
                large_arc: false,
                sweep: true,
                to: crate::shape::place(upper_start.x, upper_start.y - w, scale, origin),
            },
            PathCommand::LineTo(upper_from),
        ];

        let lower_from = crate::shape::place(lower_start.x, lower_start.y - w, scale, origin);
        let lower = [
            PathCommand::MoveTo(lower_from),
            PathCommand::ArcTo {
                radii: outer,
                rotation: 0,
                large_arc: false,
                sweep: false,
                to: crate::shape::place(lower_end.x - w, lower_end.y, scale, origin),
            },
            PathCommand::LineTo(
                crate::shape::place(lower_end.x + w, lower_end.y, scale, origin),
            ),
            PathCommand::ArcTo {
                radii: inner,
                rotation: 0,
                large_arc: false,
                sweep: true,
                to: crate::shape::place(lower_start.x, lower_start.y + w, scale, origin),
            },
            PathCommand::LineTo(lower_from),
        ];

        Some(
            Shape::Ribbons(
                Ribbons {
                    upper,
                    lower,
                    stroke_width: STROKE * s,
                    quarter_turn: self.flipped,
                    pivot: crate::shape::place(EDGE / 2, EDGE / 2, scale, origin),
                },
            ),
        )
    }
}

/// The two extremes of a circle tile. Lit with a brightness below a quarter
/// it has openness 0, and each ribbon reaches a quarter of the edge to either
/// side of the edge's middle; lit with a brightness above three quarters it
/// has openness 1, and each ribbon has shrunk to its middle line.
pub proof fn extreme_openness(tile: ElasticCircleTile, dark: i64, bright: i64)
    requires
        dark < UNIT / 4,
        bright > 3 * UNIT / 4,
    ensures
        tile.lit(dark).openness() == 0,
        tile.lit(dark).half_width() == UNIT,
        tile.lit(dark).turned() == tile.turned(),
        tile.lit(bright).openness() == UNIT,
        tile.lit(bright).half_width() == 0,
        tile.lit(bright).turned() == tile.turned(),
{
}

/// The shapes of the two extremes of a circle tile: where each ribbon starts,
/// where its arcs and lines end, in the tile's own coordinates, whatever the
/// scale and the origin at which the tile is drawn. A fully open tile's
/// ribbons have no width: their outer and inner arcs have one radius and one
/// pair of ends.
pub proof fn extreme_ribbons(turned: bool, radius: int, scale: u32, origin: Vec2<i64>)
    ensures
        ({
            let closed = ribbons(turned, UNIT as int, radius, scale, origin)->Ribbons_0;
            &&& closed.upper[0] == PathCommand::MoveTo(
                crate::shape::placed(0, 3 * UNIT, scale, origin),
            )
            &&& closed.upper[1]->ArcTo_to == crate::shape::placed(3 * UNIT, 0, scale, origin)
            &&& closed.upper[2] == PathCommand::LineTo(
                crate::shape::placed(UNIT as int, 0, scale, origin),
            )
            &&& closed.upper[3]->ArcTo_to == crate::shape::placed(0, UNIT as int, scale, origin)
            &&& closed.upper[4] == PathCommand::LineTo(
                crate::shape::placed(0, 3 * UNIT, scale, origin),
            )
            &&& closed.lower[0] == PathCommand::MoveTo(
                crate::shape::placed(4 * UNIT, UNIT as int, scale, origin),
            )
            &&& closed.lower[1]->ArcTo_to == crate::shape::placed(UNIT as int, 4 * UNIT, scale, origin)
            &&& closed.lower[2] == PathCommand::LineTo(
                crate::shape::placed(3 * UNIT, 4 * UNIT, scale, origin),
            )
            &&& closed.lower[3]->ArcTo_to == crate::shape::placed(4 * UNIT, 3 * UNIT, scale, origin)
            &&& closed.lower[4] == PathCommand::LineTo(
                crate::shape::placed(4 * UNIT, UNIT as int, scale, origin),
            )
        }),
        ({
            let open = ribbons(turned, 0, radius, scale, origin)->Ribbons_0;
            &&& open.upper[0] == PathCommand::MoveTo(
                crate::shape::placed(0, 2 * UNIT, scale, origin),
            )
            &&& open.upper[1]->ArcTo_to == crate::shape::placed(2 * UNIT, 0, scale, origin)
            &&& open.upper[2] == PathCommand::LineTo(
                crate::shape::placed(2 * UNIT, 0, scale, origin),
            )
            &&& open.upper[3]->ArcTo_to == crate::shape::placed(0, 2 * UNIT, scale, origin)
            &&& open.upper[4] == PathCommand::LineTo(
                crate::shape::placed(0, 2 * UNIT, scale, origin),
            )
            &&& open.lower[0] == PathCommand::MoveTo(
                crate::shape::placed(4 * UNIT, 2 * UNIT, scale, origin),
            )
            &&& open.lower[1]->ArcTo_to == crate::shape::placed(2 * UNIT, 4 * UNIT, scale, origin)
            &&& open.lower[2] == PathCommand::LineTo(
                crate::shape::placed(2 * UNIT, 4 * UNIT, scale, origin),
            )
            &&& open.lower[3]->ArcTo_to == crate::shape::placed(4 * UNIT, 2 * UNIT, scale, origin)
            &&& open.lower[4] == PathCommand::LineTo(
                crate::shape::placed(4 * UNIT, 2 * UNIT, scale, origin),
            )
            &&& open.upper[1]->ArcTo_radii == open.upper[3]->ArcTo_radii
        }),
{
}

} // verus!
