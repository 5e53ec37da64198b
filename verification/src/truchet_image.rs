//! The tiling engine: from a brightness source and an arrangement to a grid
//! of brightness-adjusted arrangements, and from that grid to shapes.

use crate::generator::{Generator, PatternGenerator};
use crate::image::Image;
use crate::shape::{Shape, EDGE};
use crate::tile::traits::{Tile, UNIT};
use crate::vec2::Vec2;
use vstd::prelude::*;

verus! {

/// The largest number of pixels in a block whose samples can be summed.
pub const MAX_BLOCK_AREA: u64 = 18_446_744_073_709;

/// Why a source and an arrangement cannot be composed.
#[derive(Clone, Copy, Debug, PartialEq, Eq)]
pub enum ConfigError {
    /// The arrangement's source block has no pixels along some axis.
    EmptyBlock,
    /// The arrangement has no tiles along some axis.
    EmptyFootprint,
    /// The arrangement's source block has more than [`MAX_BLOCK_AREA`] pixels.
    BlockTooLarge,
    /// The grid would have more cells than can be counted.
    GridTooLarge,
}

/// What is wrong with composing a source of size `dimensions` with an
/// arrangement of the given block size and footprint, if anything.
pub open spec fn config_error(
    dimensions: Vec2<usize>,
    block: Vec2<usize>,
    footprint: Vec2<usize>,
) -> Option<ConfigError> {
    if block.x == 0 || block.y == 0 {
        Some(ConfigError::EmptyBlock)
    } else if footprint.x == 0 || footprint.y == 0 {
        Some(ConfigError::EmptyFootprint)
    } else if block.x * block.y > MAX_BLOCK_AREA {
        Some(ConfigError::BlockTooLarge)
    } else if (dimensions.x / block.x) * (dimensions.y / block.y) > usize::MAX {
        Some(ConfigError::GridTooLarge)
    } else {
        None
    }
}

/// The mean brightness of the source block that the grid cell with the
/// given storage index stands for: the cell `(index / grid.y, index % grid.y)`
/// covers the pixels from `(gx * block.x, gy * block.y)` on.
pub open spec fn cell_brightness<I: Image>(
    image: &I,
    index: int,
    grid: Vec2<usize>,
    block: Vec2<usize>,
) -> int {
    crate::image::block_mean(
        image,
        (index / (grid.y as int)) * block.x,
        (index % (grid.y as int)) * block.y,
        block.x as nat,
        block.y as nat,
    )
}

/// Where the grid cell with the given storage index has its origin when
/// a picture with the given grid and footprint is drawn at `origin` with
/// `scale`: the cell `(gx, gy)` lies `gx` arrangement widths and `gy`
/// arrangement heights from the picture's origin.
pub open spec fn block_origin(
    index: int,
    grid: Vec2<usize>,
    footprint: Vec2<usize>,
    scale: u32,
    origin: Vec2<i64>,
) -> (int, int) {
    (
        origin.x + (index / (grid.y as int)) * footprint.x * (EDGE * scale),
        origin.y + (index % (grid.y as int)) * footprint.y * (EDGE * scale),
    )
}

/// Whether the arrangement in the grid cell with the given storage index
/// can be drawn: its origin and every coordinate of its tiles fit the
/// coordinate type.
pub open spec fn block_fits<G: Generator>(
    blocks: Seq<G>,
    index: int,
    grid: Vec2<usize>,
    footprint: Vec2<usize>,
    scale: u32,
    origin: Vec2<i64>,
) -> bool {
    let at = block_origin(index, grid, footprint, scale, origin);
    &&& crate::shape::is_coordinate(at.0)
    &&& crate::shape::is_coordinate(at.1)
    &&& crate::generator::cells_fit(
        blocks[index].cells(),
        footprint,
        scale,
        Vec2 { x: at.0 as i64, y: at.1 as i64 },
    )
}

/// Whether every arrangement of a picture can be drawn.
pub open spec fn blocks_fit<G: Generator>(
    blocks: Seq<G>,
    grid: Vec2<usize>,
    footprint: Vec2<usize>,
    scale: u32,
    origin: Vec2<i64>,
) -> bool {
    forall|index: int|
        0 <= index < blocks.len() ==> #[trigger] block_fits(
            blocks,
            index,
            grid,
            footprint,
            scale,
            origin,
        )
}

/// The shape with the given number in a drawn picture: the shapes come
/// arrangement by arrangement, and within an arrangement cell by cell, both
/// in storage order.
pub open spec fn picture_shape<G: Generator>(
    blocks: Seq<G>,
    number: int,
    grid: Vec2<usize>,
    footprint: Vec2<usize>,
    scale: u32,
    origin: Vec2<i64>,
) -> Shape {
    let per_block = footprint.x * footprint.y;
    let at = block_origin(number / per_block, grid, footprint, scale, origin);
    crate::generator::cell_shape(
        blocks[number / per_block].cells(),
        number % per_block,
        footprint,
        scale,
        Vec2 { x: at.0 as i64, y: at.1 as i64 },
    )
}

/// The shapes of a drawn picture: one per tile of each arrangement.
pub open spec fn picture_shapes<G: Generator>(
    blocks: Seq<G>,
    grid: Vec2<usize>,
    footprint: Vec2<usize>,
    scale: u32,
    origin: Vec2<i64>,
) -> Seq<Shape> {
    Seq::new(
        (blocks.len() * (footprint.x * footprint.y)) as nat,
        |number: int| picture_shape(blocks, number, grid, footprint, scale, origin),
    )
}

/// A composed picture: a grid of arrangements, one per block of the source,
/// each adjusted to its block's mean brightness.
pub struct TruchetImage<TGenerator: Generator> {
    generators_size: Vec2<usize>,
    generator: TGenerator,
    generators: Vec<TGenerator>,
}

/// The mean brightness of one block of the source.
fn block_brightness<TImage: Image>(image: &TImage, start: Vec2<usize>, block: Vec2<usize>) -> (mean:
    i64)
    requires
        0 < block.x,
        0 < block.y,
        block.x * block.y <= MAX_BLOCK_AREA,
        start.x + block.x <= image.dimensions().x,
        start.y + block.y <= image.dimensions().y,
    ensures
        mean == crate::image::block_mean(
            image,
            start.x as int,
            start.y as int,
            block.x as nat,
            block.y as nat,
        ),
        0 <= mean <= UNIT,
{
    let end_x = start.x + block.x;
    let end_y = start.y + block.y;
    assert(0 < block.x * block.y) by (nonlinear_arith)
        requires
            0 < block.x,
            0 < block.y,
    ;
    let area: u64 = (block.x as u64) * (block.y as u64);

    let mut brightness: u64 = 0;
    let mut pixel_x = start.x;
    while pixel_x < end_x
        invariant
            start.x <= pixel_x <= end_x,
            end_x == start.x + block.x,
            end_y == start.y + block.y,
            end_x <= image.dimensions().x,
            end_y <= image.dimensions().y,
            block.x * block.y <= MAX_BLOCK_AREA,
            0 < area == block.x * block.y,
            brightness == crate::image::block_sum(
                image,
                start.x as int,
                start.y as int,
                (pixel_x - start.x) as nat,
                block.y as nat,
            ),
        decreases end_x - pixel_x,
    {
        let ghost before = brightness as int;
        let ghost done = (pixel_x - start.x) as nat;
        proof {
            crate::image::block_sum_bounds(
                image,
                start.x as int,
                start.y as int,
                done,
                block.y as nat,
            );
            assert(done * block.y * UNIT + block.y * UNIT <= block.x * block.y * UNIT)
                by (nonlinear_arith)
                requires
                    done < block.x,
            ;
        }
        let mut pixel_y = start.y;
        while pixel_y < end_y
            invariant
                start.y <= pixel_y <= end_y,
                start.x <= pixel_x < end_x,
                end_y == start.y + block.y,
                end_x <= image.dimensions().x,
                end_y <= image.dimensions().y,
                before + block.y * UNIT <= MAX_BLOCK_AREA * UNIT,
                0 <= before,
                brightness == before + crate::image::column_sum(
                    image,
                    pixel_x as int,
                    start.y as int,
                    (pixel_y - start.y) as nat,
                ),
            decreases end_y - pixel_y,
        {
            proof {
                crate::image::column_sum_bounds(
                    image,
                    pixel_x as int,
                    start.y as int,
                    (pixel_y - start.y) as nat,
                );
            }
            let raw = image.get_pixel_brightness(Vec2::new(pixel_x, pixel_y));
            let counted: u64 = if raw < 0 {
                0
            } else if raw > UNIT {
                UNIT as u64
            } else {
                raw as u64
            };
            brightness += counted;
            pixel_y += 1;
        }
        pixel_x += 1;
    }

    proof {
        crate::image::block_sum_bounds(
            image,
            start.x as int,
            start.y as int,
            block.x as nat,
            block.y as nat,
        );
        let total = brightness as int;
        let count = area as int;
        assert(0 <= total / count <= UNIT) by (nonlinear_arith)
            requires
                0 <= total <= count * UNIT,
                0 < count,
        ;
    }
    (brightness / area) as i64
}

impl<TGenerator: Generator> TruchetImage<TGenerator> {
    #[verifier::type_invariant]
    spec fn arranged(self) -> bool {
        &&& self.generators@.len() == self.generators_size.x * self.generators_size.y
        &&& self.generator.footprint().x > 0
        &&& self.generator.footprint().y > 0
        &&& forall|index: int|
            0 <= index < self.generators@.len() ==> (#[trigger] self.generators@[index]).footprint()
                == self.generator.footprint()
    }

    /// How many arrangements the picture holds along each axis.
    pub closed spec fn grid(&self) -> Vec2<usize> {
        self.generators_size
    }

    /// The arrangement that the picture was composed with, as it was given.
    pub closed spec fn template(&self) -> TGenerator {
        self.generator
    }

    /// The adjusted arrangements in storage order: the grid cell `(gx, gy)`
    /// is at index `gx * grid.y + gy`.
    pub closed spec fn blocks(&self) -> Seq<TGenerator> {
        self.generators@
    }

    /// Whether the picture is a composition of `image` with `template`: the
    /// grid has one cell for each whole block of the source, and each cell
    /// holds the template adjusted to the mean brightness of its block.
    pub open spec fn composed_from<TImage: Image>(
        &self,
        image: &TImage,
        template: TGenerator,
    ) -> bool {
        let block = template.block_size();
        let grid = self.grid();
        &&& self.template() == template
        &&& grid.x == image.dimensions().x / block.x
        &&& grid.y == image.dimensions().y / block.y
        &&& self.blocks().len() == grid.x * grid.y
        &&& forall|index: int|
            0 <= index < self.blocks().len() ==> template.adjusts_to(
                cell_brightness(image, index, grid, block) as i64,
                #[trigger] &self.blocks()[index],
            )
    }

    /// Whether every coordinate of the picture drawn at `origin` with
    /// `scale` fits the coordinate type.
    pub open spec fn can_render(&self, scale: u32, origin: Vec2<i64>) -> bool {
        blocks_fit(self.blocks(), self.grid(), self.template().footprint(), scale, origin)
    }

    /// The shapes of the picture drawn at `origin` with `scale`.
    pub open spec fn shapes(&self, scale: u32, origin: Vec2<i64>) -> Seq<Shape> {
        picture_shapes(self.blocks(), self.grid(), self.template().footprint(), scale, origin)
    }

    /// Draws the picture: every arrangement at its place in the grid, all
    /// with one scale. `None` where some coordinate does not fit.
    pub fn render(&self, scale: u32, origin: Vec2<i64>) -> (shapes: Option<Vec<Shape>>)
        ensures
            shapes is Some <==> self.can_render(scale, origin),
            shapes matches Some(drawn) ==> drawn@ == self.shapes(scale, origin),
            shapes matches Some(drawn) ==> drawn@.len() == self.grid().x * self.grid().y * (
            self.template().footprint().x * self.template().footprint().y),
    {
        proof {
            use_type_invariant(self);
        }
        let footprint = self.generator.generator_block_size();
        let grid = self.generators_size;
        let ghost per_block = footprint.x * footprint.y;
        assert(per_block > 0) by (nonlinear_arith)
            requires
                per_block == footprint.x * footprint.y,
                footprint.x > 0,
                footprint.y > 0,
        ;
        let step: i64 = EDGE * (scale as i64);
        let mut drawn: Vec<Shape> = Vec::new();

        let mut index: usize = 0;
        while index < self.generators.len()
            invariant
                index <= self.generators@.len(),
                self.generators@.len() == grid.x * grid.y,
                grid == self.generators_size,
                footprint == self.generator.footprint(),
                per_block == footprint.x * footprint.y,
                per_block > 0,
                forall|i: int|
                    0 <= i < self.generators@.len() ==> (#[trigger] self.generators@[i]).footprint()
                        == footprint,
                step == EDGE * scale,
                drawn@.len() == index * per_block,
                forall|i: int|
                    0 <= i < index ==> #[trigger] block_fits(
                        self.generators@,
                        i,
                        grid,
                        footprint,
                        scale,
                        origin,
                    ),
                forall|number: int|
                    0 <= number < drawn@.len() ==> #[trigger] drawn@[number] == picture_shape(
                        self.generators@,
                        number,
                        grid,
                        footprint,
                        scale,
                        origin,
                    ),
            decreases self.generators@.len() - index,
        {
            assert(grid.y != 0) by (nonlinear_arith)
                requires
                    index < grid.x * grid.y,
            ;
            let gen_x: usize = index / grid.y;
            let gen_y: usize = index % grid.y;
            let x = match axis_origin(origin.x, gen_x, footprint.x, scale) {
                Some(x) => x,
                None => {
                    assert(!block_fits(self.generators@, index as int, grid, footprint, scale, origin));
                    return None;
                },
            };
            let y = match axis_origin(origin.y, gen_y, footprint.y, scale) {
                Some(y) => y,
                None => {
                    assert(!block_fits(self.generators@, index as int, grid, footprint, scale, origin));
                    return None;
                },
            };
            let pattern_origin = Vec2::new(x, y);
            assert((x as int, y as int) == block_origin(index as int, grid, footprint, scale, origin));

            let mut gen = match self.generators[index].render(scale, pattern_origin) {
                Some(gen) => gen,
                None => {
                    assert(!block_fits(self.generators@, index as int, grid, footprint, scale, origin));
                    return None;
                },
            };
            let ghost before = drawn@;
            let ghost block_shapes = gen@;
            let block_cells = self.generators[index].generator_block_size();
            assert(block_shapes.len() == per_block);
            drawn.append(&mut gen);

            proof {
                assert((index + 1) * per_block == index * per_block + per_block)
                    by (nonlinear_arith);
                assert forall|number: int| 0 <= number < drawn@.len() implies #[trigger] drawn@[number]
                    == picture_shape(self.generators@, number, grid, footprint, scale, origin) by {
                    if number >= before.len() {
                        let within = number - index * per_block;
                        vstd::arithmetic::div_mod::lemma_fundamental_div_mod_converse(
                            number,
                            per_block,
                            index as int,
                            within,
                        );
                        assert(drawn@[number] == block_shapes[within]);
                    }
                }
            }
            index += 1;
        }
        proof {
            assert(drawn@ =~= self.shapes(scale, origin));
            assert(grid.x * grid.y * per_block == self.generators@.len() * per_block);
        }
        Some(drawn)
    }

    pub fn grid_size(&self) -> (size: Vec2<usize>)
        ensures
            size == self.grid(),
            self.blocks().len() == size.x * size.y,
    {
        proof {
            use_type_invariant(self);
        }
        self.generators_size
    }

    pub fn generator(&self) -> (template: &TGenerator)
        ensures
            *template == self.template(),
    {
        &self.generator
    }

    pub fn generators(&self) -> (blocks: &Vec<TGenerator>)
        ensures
            blocks@ == self.blocks(),
    {
        &self.generators
    }
}

/// Composes a picture: cuts `image` into blocks of the arrangement's block
/// size, dropping what is left over at the far edges, and adjusts one copy of
/// `generator` to each block's mean brightness.
pub fn generate<TImage: Image, TGenerator: Generator>(image: &TImage, generator: TGenerator) -> (result:
    Result<TruchetImage<TGenerator>, ConfigError>)
    ensures
        match result {
            Ok(truchet) => config_error(
                image.dimensions(),
                generator.block_size(),
                generator.footprint(),
            ) is None && truchet.composed_from(image, generator),
            Err(error) => config_error(
                image.dimensions(),
                generator.block_size(),
                generator.footprint(),
            ) == Some(error),
        },
{
    let block = generator.source_image_block_size();
    let footprint = generator.generator_block_size();
    if block.x == 0 || block.y == 0 {
        return Err(ConfigError::EmptyBlock);
    }
    if footprint.x == 0 || footprint.y == 0 {
        return Err(ConfigError::EmptyFootprint);
    }
    assert(block.x * block.y <= 0xffff_ffff_ffff_ffff * 0xffff_ffff_ffff_ffff) by (nonlinear_arith)
        requires
            block.x <= 0xffff_ffff_ffff_ffff,
            block.y <= 0xffff_ffff_ffff_ffff,
    ;
    if (block.x as u128) * (block.y as u128) > MAX_BLOCK_AREA as u128 {
        return Err(ConfigError::BlockTooLarge);
    }
    let generators_size = image.size() / block;
    assert(generators_size.x * generators_size.y <= 0xffff_ffff_ffff_ffff * 0xffff_ffff_ffff_ffff)
        by (nonlinear_arith)
        requires
            generators_size.x <= 0xffff_ffff_ffff_ffff,
            generators_size.y <= 0xffff_ffff_ffff_ffff,
    ;
    if (generators_size.x as u128) * (generators_size.y as u128) > usize::MAX as u128 {
        return Err(ConfigError::GridTooLarge);
    }
    let mut generators: Vec<TGenerator> = Vec::new();

    let mut generator_x: usize = 0;
    while generator_x < generators_size.x
        invariant
            generator_x <= generators_size.x,
            0 < block.x,
            0 < block.y,
            block.x * block.y <= MAX_BLOCK_AREA,
            block == generator.block_size(),
            generators_size.x == image.dimensions().x / block.x,
            generators_size.y == image.dimensions().y / block.y,
            generators@.len() == generator_x * generators_size.y,
            forall|index: int|
                0 <= index < generators@.len() ==> generator.adjusts_to(
                    cell_brightness(image, index, generators_size, block) as i64,
                    #[trigger] &generators@[index],
                ),
        decreases generators_size.x - generator_x,
    {
        let mut generator_y: usize = 0;
        while generator_y < generators_size.y
            invariant
                generator_x < generators_size.x,
                generator_y <= generators_size.y,
                0 < block.x,
                0 < block.y,
                block.x * block.y <= MAX_BLOCK_AREA,
                block == generator.block_size(),
                generators_size.x == image.dimensions().x / block.x,
                generators_size.y == image.dimensions().y / block.y,
                generators@.len() == generator_x * generators_size.y + generator_y,
                forall|index: int|
                    0 <= index < generators@.len() ==> generator.adjusts_to(
                        cell_brightness(image, index, generators_size, block) as i64,
                        #[trigger] &generators@[index],
                    ),
            decreases generators_size.y - generator_y,
        {
            proof {
                whole_blocks_fit(image.dimensions().x as int, block.x as int, generator_x as int);
                whole_blocks_fit(image.dimensions().y as int, block.y as int, generator_y as int);
                vstd::arithmetic::div_mod::lemma_fundamental_div_mod_converse(
                    generator_x * generators_size.y + generator_y,
                    generators_size.y as int,
                    generator_x as int,
                    generator_y as int,
                );
            }
            let start_x = block.x * generator_x;
            let start_y = block.y * generator_y;

            let brightness = block_brightness(image, Vec2::new(start_x, start_y), block);
            assert(brightness == cell_brightness(
                image,
                generator_x * generators_size.y + generator_y,
                generators_size,
                block,
            )) by {
                assert(start_x == generator_x * block.x) by (nonlinear_arith)
                    requires
                        start_x == block.x * generator_x,
                ;
                assert(start_y == generator_y * block.y) by (nonlinear_arith)
                    requires
                        start_y == block.y * generator_y,
                ;
            }

            generators.push(generator.clone_with_brightness(brightness));
            generator_y += 1;
        }
        assert((generator_x + 1) * generators_size.y == generator_x * generators_size.y
            + generators_size.y) by (nonlinear_arith);
        generator_x += 1;
    }

    proof {
        assert forall|index: int| 0 <= index < generators@.len() implies (
        #[trigger] generators@[index]).footprint() == generator.footprint() by {
            generator.adjusted_is_lit(
                cell_brightness(image, index, generators_size, block) as i64,
                &generators@[index],
            );
        }
    }
    Ok(TruchetImage { generators_size, generator, generators })
}

/// A picture composed with a fixed pattern from a source that has one
/// brightness everywhere holds the same tiles in every cell of its grid: the
/// pattern's tiles, each lit with that brightness as it is counted.
pub proof fn uniform_source_gives_identical_cells<TImage: Image, TTile: Tile>(
    truchet: TruchetImage<PatternGenerator<TTile>>,
    image: &TImage,
    template: PatternGenerator<TTile>,
    level: i64,
)
    requires
        config_error(image.dimensions(), template.block_size(), template.footprint()) is None,
        truchet.composed_from(image, template),
        forall|pos: Vec2<usize>|
            pos.x < image.dimensions().x && pos.y < image.dimensions().y
                ==> #[trigger] image.brightness_at(pos) == level,
    ensures
        forall|index: int|
            0 <= index < truchet.blocks().len() ==> (#[trigger] truchet.blocks()[index]).cells()
                == crate::generator::lit_cells(
                template.cells(),
                crate::shape::clamped(level as int, 0, UNIT as int) as i64,
            ),
{
    let block = template.block_size();
    let grid = truchet.grid();
    let counted = crate::shape::clamped(level as int, 0, UNIT as int);
    assert forall|index: int| 0 <= index < truchet.blocks().len() implies (
    #[trigger] truchet.blocks()[index]).cells() == crate::generator::lit_cells(
        template.cells(),
        counted as i64,
    ) by {
        assert(grid.y > 0) by (nonlinear_arith)
            requires
                0 <= index < grid.x * grid.y,
        ;
        let gx = index / (grid.y as int);
        let gy = index % (grid.y as int);
        vstd::arithmetic::div_mod::lemma_fundamental_div_mod(index, grid.y as int);
        assert(0 <= gx < grid.x) by (nonlinear_arith)
            requires
                0 <= index < grid.x * grid.y,
                index == grid.y * gx + gy,
                0 <= gy < grid.y,
        ;
        whole_blocks_fit(image.dimensions().x as int, block.x as int, gx);
        whole_blocks_fit(image.dimensions().y as int, block.y as int, gy);
        assert(gx * block.x == block.x * gx) by (nonlinear_arith);
        assert(gy * block.y == block.y * gy) by (nonlinear_arith);
        crate::image::uniform_block_mean(
            image,
            gx * block.x,
            gy * block.y,
            block.x as nat,
            block.y as nat,
            counted,
        );
        assert(cell_brightness(image, index, grid, block) == counted);
        assert(template.adjusts_to(counted as i64, &truchet.blocks()[index]));
    }
}

/// The offsets of the nested grids add up: the tile in cell `(cx, cy)` of
/// the arrangement in grid cell `(gx, gy)` is drawn where the tile
/// `(gx * footprint.x + cx, gy * footprint.y + cy)` of one grid over the whole
/// picture would be, that many scaled edges from the picture's origin.
pub proof fn nested_offsets_add_up(
    block: int,
    cell: int,
    grid: Vec2<usize>,
    footprint: Vec2<usize>,
    scale: u32,
    origin: Vec2<i64>,
)
    requires
        crate::shape::is_coordinate(block_origin(block, grid, footprint, scale, origin).0),
        crate::shape::is_coordinate(block_origin(block, grid, footprint, scale, origin).1),
    ensures
        ({
            let at = block_origin(block, grid, footprint, scale, origin);
            let tile_at = crate::generator::cell_origin(
                cell,
                footprint,
                scale,
                Vec2 { x: at.0 as i64, y: at.1 as i64 },
            );
            let gx = block / (grid.y as int);
            let gy = block % (grid.y as int);
            let cx = cell % (footprint.x as int);
            let cy = cell / (footprint.x as int);
            &&& tile_at.0 == origin.x + (gx * footprint.x + cx) * (EDGE * scale)
            &&& tile_at.1 == origin.y + (gy * footprint.y + cy) * (EDGE * scale)
        }),
{
    let gx = block / (grid.y as int);
    let gy = block % (grid.y as int);
    let cx = cell % (footprint.x as int);
    let cy = cell / (footprint.x as int);
    let step = EDGE * scale;
    assert((gx * footprint.x + cx) * step == gx * footprint.x * step + cx * step)
        by (nonlinear_arith);
    assert((gy * footprint.y + cy) * step == gy * footprint.y * step + cy * step)
        by (nonlinear_arith);
}

/// What lies beyond the last whole block is never looked at: two sources
/// that agree on the pixels that the grid covers give every cell the same
/// brightness, whatever they hold in the margin.
pub proof fn margin_is_ignored<A: Image, B: Image>(
    first: &A,
    second: &B,
    index: int,
    grid: Vec2<usize>,
    block: Vec2<usize>,
)
    requires
        0 < block.x,
        0 < block.y,
        0 <= index < grid.x * grid.y,
        forall|pos: Vec2<usize>|
            pos.x < grid.x * block.x && pos.y < grid.y * block.y ==> #[trigger] first.brightness_at(
                pos,
            ) == second.brightness_at(pos),
    ensures
        cell_brightness(first, index, grid, block) == cell_brightness(second, index, grid, block),
{
    assert(grid.y > 0) by (nonlinear_arith)
        requires
            0 <= index < grid.x * grid.y,
    ;
    let gx = index / (grid.y as int);
    let gy = index % (grid.y as int);
    vstd::arithmetic::div_mod::lemma_fundamental_div_mod(index, grid.y as int);
    assert(0 <= gx < grid.x) by (nonlinear_arith)
        requires
            0 <= index < grid.x * grid.y,
            index == grid.y * gx + gy,
            0 <= gy < grid.y,
    ;
    let left = gx * block.x;
    let top = gy * block.y;
    assert(0 <= left && left + block.x <= grid.x * block.x) by (nonlinear_arith)
        requires
            left == gx * block.x,
            0 <= gx < grid.x,
            0 < block.x,
    ;
    assert(0 <= top && top + block.y <= grid.y * block.y) by (nonlinear_arith)
        requires
            top == gy * block.y,
            0 <= gy < grid.y,
            0 < block.y,
    ;
    assert forall|x: int, y: int|
        left <= x < left + block.x && top <= y < top + block.y implies crate::image::sample(
        first,
        x,
        y,
    ) == crate::image::sample(second, x, y) by {
        let pos = Vec2 { x: x as usize, y: y as usize };
        assert(first.brightness_at(pos) == second.brightness_at(pos));
    }
    crate::image::block_mean_reads_its_block(
        first,
        second,
        left,
        top,
        block.x as nat,
        block.y as nat,
    );
}

/// The origin of an arrangement along one axis: the picture's origin plus
/// `index` arrangements of `cells` tiles, each tile a scaled edge long.
/// `None` where that does not fit the coordinate type.
fn axis_origin(origin: i64, index: usize, cells: usize, scale: u32) -> (at: Option<i64>)
    ensures
        at == if crate::shape::is_coordinate(origin + index * cells * (EDGE * scale)) {
            Some((origin + index * cells * (EDGE * scale)) as i64)
        } else {
            None
        },
{
    let step: i64 = EDGE * (scale as i64);
    if step == 0 {
        assert(index * cells * (EDGE * scale) == 0) by (nonlinear_arith)
            requires
                EDGE * scale == 0,
        ;
        return Some(origin);
    }
    assert(index * cells <= 0xffff_ffff_ffff_ffff * 0xffff_ffff_ffff_ffff) by (nonlinear_arith)
        requires
            index <= 0xffff_ffff_ffff_ffff,
            cells <= 0xffff_ffff_ffff_ffff,
    ;
    let span: u128 = (index as u128) * (cells as u128);
    if span > 0xffff_ffff_ffff_ffff {
        assert(span * (EDGE * scale) > 0xffff_ffff_ffff_ffff) by (nonlinear_arith)
            requires
                span > 0xffff_ffff_ffff_ffff,
                EDGE * scale >= 1,
        ;
        return None;
    }
    assert(0 <= span * step <= 0xffff_ffff_ffff_ffff * (EDGE * 0xffff_ffff)) by (nonlinear_arith)
        requires
            0 <= span <= 0xffff_ffff_ffff_ffff,
            0 <= step <= EDGE * 0xffff_ffff,
    ;
    let at: i128 = origin as i128 + (span as i128) * (step as i128);
    if at > i64::MAX as i128 {
        None
    } else {
        Some(at as i64)
    }
}

/// The block with index `index` along an axis lies wholly within a source
/// of `length` pixels along that axis when the index is below the number of
/// whole blocks.
proof fn whole_blocks_fit(length: int, block: int, index: int)
    requires
        0 < block,
        0 <= index < length / block,
        0 <= length,
    ensures
        0 <= block * index,
        block * index + block <= length,
{
    vstd::arithmetic::div_mod::lemma_fundamental_div_mod(length, block);
    let whole = length / block;
    assert(block * index + block <= block * whole) by (nonlinear_arith)
        requires
            0 < block,
            0 <= index < whole,
    ;
    assert(0 <= block * index) by (nonlinear_arith)
        requires
            0 < block,
            0 <= index,
    ;
}

} // verus!
