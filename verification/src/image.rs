//! Brightness sources: anything with a pixel grid and a brightness at each
//! pixel.

use crate::tile::traits::UNIT;
use crate::vec2::Vec2;
use vstd::prelude::*;

verus! {

/// A grid of pixels, each with a brightness in millionths: 0 is black and
/// [`UNIT`] is white.
///
/// `dimensions` and `brightness_at` are the source as contracts speak of it;
/// nothing ever calls them. `size` and `get_pixel_brightness` are what the
/// engine calls, and they return what the first two say: a source answers
/// the same question the same way every time.
pub trait Image {
    /// How many pixels the source holds along each axis.
    spec fn dimensions(&self) -> Vec2<usize>;

    /// The brightness of the pixel in column `pos.x` and row `pos.y`.
    spec fn brightness_at(&self, pos: Vec2<usize>) -> i64;

    fn size(&self) -> (size: Vec2<usize>)
        ensures
            size == self.dimensions(),
    ;

    fn get_pixel_brightness(&self, pos: Vec2<usize>) -> (brightness: i64)
        requires
            pos.x < self.dimensions().x,
            pos.y < self.dimensions().y,
        ensures
            brightness == self.brightness_at(pos),
    ;
}

/// A pixel's brightness as it is counted: a value below 0 counts as 0 and one
/// above [`UNIT`] as [`UNIT`].
pub open spec fn sample<I: Image>(image: &I, x: int, y: int) -> int {
    crate::shape::clamped(
        image.brightness_at(Vec2 { x: x as usize, y: y as usize }) as int,
        0,
        UNIT as int,
    )
}

/// The sum of the samples of `count` pixels of column `x`, from row `top`
/// down.
pub open spec fn column_sum<I: Image>(image: &I, x: int, top: int, count: nat) -> int
    decreases count,
{
    if count == 0 {
        0
    } else {
        column_sum(image, x, top, (count - 1) as nat) + sample(image, x, top + count - 1)
    }
}

/// The sum of the samples of the pixels in the rectangle of the given width
/// and height whose first pixel is `(left, top)`.
pub open spec fn block_sum<I: Image>(image: &I, left: int, top: int, width: nat, height: nat) -> int
    decreases width,
{
    if width == 0 {
        0
    } else {
        block_sum(image, left, top, (width - 1) as nat, height) + column_sum(
            image,
            left + width - 1,
            top,
            height,
        )
    }
}

/// The mean brightness of the rectangle of the given width and height whose
/// first pixel is `(left, top)`: the sum of its samples over their number,
/// rounded down.
pub open spec fn block_mean<I: Image>(image: &I, left: int, top: int, width: nat, height: nat) -> int {
    block_sum(image, left, top, width, height) / ((width * height) as int)
}

/// A column of `count` samples sums to between 0 and `count` times [`UNIT`].
pub proof fn column_sum_bounds<I: Image>(image: &I, x: int, top: int, count: nat)
    ensures
        0 <= column_sum(image, x, top, count) <= count * UNIT,
    decreases count,
{
    if count > 0 {
        column_sum_bounds(image, x, top, (count - 1) as nat);
    }
}

/// A rectangle of samples sums to between 0 and its area times [`UNIT`].
pub proof fn block_sum_bounds<I: Image>(image: &I, left: int, top: int, width: nat, height: nat)
    ensures
        0 <= block_sum(image, left, top, width, height) <= width * height * UNIT,
    decreases width,
{
    if width > 0 {
        block_sum_bounds(image, left, top, (width - 1) as nat, height);
        column_sum_bounds(image, left + width - 1, top, height);
        assert(width * height * UNIT == (width - 1) * height * UNIT + height * UNIT)
            by (nonlinear_arith);
    } else {
        assert(width * height * UNIT == 0) by (nonlinear_arith)
            requires
                width == 0,
        ;
    }
}

/// Where every pixel of a rectangle has one sample, the rectangle's mean is
/// that sample.
pub proof fn uniform_block_mean<I: Image>(
    image: &I,
    left: int,
    top: int,
    width: nat,
    height: nat,
    level: int,
)
    requires
        width > 0,
        height > 0,
        forall|x: int, y: int|
            left <= x < left + width && top <= y < top + height ==> sample(image, x, y) == level,
    ensures
        block_sum(image, left, top, width, height) == width * height * level,
        block_mean(image, left, top, width, height) == level,
{
    uniform_block_sum(image, left, top, width, width, height, level);
    let area = (width * height) as int;
    assert(area > 0) by (nonlinear_arith)
        requires
            area == width * height,
            width > 0,
            height > 0,
    ;
    assert((area * level) / area == level) by (nonlinear_arith)
        requires
            area > 0,
    ;
}

/// Two sources that agree on every pixel of a rectangle have the same mean
/// over it, whatever they hold elsewhere.
pub proof fn block_mean_reads_its_block<A: Image, B: Image>(
    first: &A,
    second: &B,
    left: int,
    top: int,
    width: nat,
    height: nat,
)
    requires
        forall|x: int, y: int|
            left <= x < left + width && top <= y < top + height ==> sample(first, x, y) == sample(
                second,
                x,
                y,
            ),
    ensures
        block_mean(first, left, top, width, height) == block_mean(second, left, top, width, height),
{
    same_block_sum(first, second, left, top, width, width, height);
}

proof fn same_column_sum<A: Image, B: Image>(
    first: &A,
    second: &B,
    x: int,
    top: int,
    count: nat,
    height: nat,
)
    requires
        count <= height,
        forall|y: int| top <= y < top + height ==> sample(first, x, y) == sample(second, x, y),
    ensures
        column_sum(first, x, top, count) == column_sum(second, x, top, count),
    decreases count,
{
    if count > 0 {
        same_column_sum(first, second, x, top, (count - 1) as nat, height);
    }
}

proof fn same_block_sum<A: Image, B: Image>(
    first: &A,
    second: &B,
    left: int,
    top: int,
    count: nat,
    width: nat,
    height: nat,
)
    requires
        count <= width,
        forall|x: int, y: int|
            left <= x < left + width && top <= y < top + height ==> sample(first, x, y) == sample(
                second,
                x,
                y,
            ),
    ensures
        block_sum(first, left, top, count, height) == block_sum(second, left, top, count, height),
    decreases count,
{
    if count > 0 {
        same_block_sum(first, second, left, top, (count - 1) as nat, width, height);
        same_column_sum(first, second, left + count - 1, top, height, height);
    }
}

proof fn uniform_column_sum<I: Image>(
    image: &I,
    x: int,
    top: int,
    count: nat,
    height: nat,
    level: int,
)
    requires
        count <= height,
        forall|y: int| top <= y < top + height ==> sample(image, x, y) == level,
    ensures
        column_sum(image, x, top, count) == count * level,
    decreases count,
{
    if count > 0 {
        uniform_column_sum(image, x, top, (count - 1) as nat, height, level);
        assert(count * level == (count - 1) * level + level) by (nonlinear_arith);
    } else {
        assert(count * level == 0) by (nonlinear_arith)
            requires
                count == 0,
        ;
    }
}

proof fn uniform_block_sum<I: Image>(
    image: &I,
    left: int,
    top: int,
    count: nat,
    width: nat,
    height: nat,
    level: int,
)
    requires
        count <= width,
        forall|x: int, y: int|
            left <= x < left + width && top <= y < top + height ==> sample(image, x, y) == level,
    ensures
        block_sum(image, left, top, count, height) == count * height * level,
    decreases count,
{
    if count > 0 {
        uniform_block_sum(image, left, top, (count - 1) as nat, width, height, level);
        uniform_column_sum(image, left + count - 1, top, height, height, level);
        assert(count * height * level == (count - 1) * height * level + height * level)
            by (nonlinear_arith);
    } else {
        assert(count * height * level == 0) by (nonlinear_arith)
            requires
                count == 0,
        ;
    }
}

} // verus!
