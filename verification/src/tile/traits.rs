//! What every tile can do, and the one mapping from brightness to openness.

use crate::shape::Shape;
use crate::vec2::Vec2;
use vstd::prelude::*;

verus! {

/// The fixed-point value that stands for brightness 1 and openness 1.
pub const UNIT: i64 = 1_000_000;

/// The openness that a brightness maps to: 0 below a quarter, 1 above three
/// quarters, and the ramp `2b - 1/2` in between.
pub open spec fn openness_of(brightness: int) -> int {
    if brightness < UNIT / 4 {
        0
    } else if brightness > 3 * UNIT / 4 {
        UNIT as int
    } else {
        2 * brightness - UNIT / 2
    }
}

/// Computes [`openness_of`].
pub fn openness_for(brightness: i64) -> (t: i64)
    ensures
        t == openness_of(brightness as int),
        0 <= t <= UNIT,
{
    if brightness < UNIT / 4 {
        0
    } else if brightness > 3 * (UNIT / 4) {
        UNIT
    } else {
        2 * brightness - UNIT / 2
    }
}

/// Openness never falls when brightness rises.
pub proof fn openness_is_monotonic(darker: int, brighter: int)
    requires
        darker <= brighter,
    ensures
        openness_of(darker) <= openness_of(brighter),
{
}

/// Openness stays between 0 and 1 whatever the brightness, also outside `[0, 1]`.
pub proof fn openness_is_clamped(brightness: int)
    ensures
        0 <= openness_of(brightness) <= UNIT,
        brightness <= 0 ==> openness_of(brightness) == 0,
        brightness >= UNIT ==> openness_of(brightness) == UNIT,
{
}

/// A single parametric shape on the unit square.
///
/// A tile has an identity that never changes and one scalar, its openness,
/// that [`Tile::set_brightness`] overwrites.
pub trait Tile: Copy {
    /// The tile's openness, in millionths.
    spec fn openness(&self) -> int;

    /// This tile after `set_brightness(brightness)`.
    spec fn lit(&self, brightness: i64) -> Self;

    /// The tile that fills the cells for which none was supplied.
    spec fn neutral() -> Self;

    /// Whether every coordinate of the tile drawn at `origin` with `scale`
    /// fits the coordinate type.
    spec fn can_render(&self, scale: u32, origin: Vec2<i64>) -> bool;

    /// The tile drawn at `origin` with `scale`: each point `p` of the tile's
    /// own square goes to `p * scale + origin`.
    spec fn outline(&self, scale: u32, origin: Vec2<i64>) -> Shape;

    /// Lighting a tile sets its openness by [`openness_of`], whatever it was.
    proof fn lit_sets_openness(&self, brightness: i64)
        ensures
            self.lit(brightness).openness() == openness_of(brightness as int),
    ;

    fn default_tile() -> (tile: Self)
        ensures
            tile == Self::neutral(),
    ;

    fn set_brightness(&mut self, brightness: i64)
        ensures
            *final(self) == old(self).lit(brightness),
    ;

    fn render(&self, scale: u32, origin: Vec2<i64>) -> (shape: Option<Shape>)
        ensures
            shape == if self.can_render(scale, origin) {
                Some(self.outline(scale, origin))
            } else {
                None
            },
    ;
}

/// Whatever the tile and whatever the brightness, setting the brightness
/// leaves the tile with an openness between 0 and 1, and a brighter setting
/// never leaves it less open than a darker one.
pub proof fn brighter_is_never_less_open<T: Tile>(tile: T, darker: i64, brighter: i64)
    requires
        darker <= brighter,
    ensures
        0 <= tile.lit(darker).openness() <= tile.lit(brighter).openness() <= UNIT,
{
    tile.lit_sets_openness(darker);
    tile.lit_sets_openness(brighter);
}

/// A tile kind with finitely many identities, one of which can be drawn at
/// random.
pub trait RandomTile: Tile {
    /// Whether `tile` is a freshly made tile of one of the kind's identities.
    spec fn fresh(tile: Self) -> bool;

    /// Draws a fresh tile, each identity being equally likely.
    fn sample() -> (tile: Self)
        ensures
            Self::fresh(tile),
    ;
}

} // verus!
