//! Tile arrangements: small fixed grids of tiles that repeat over a picture.

use crate::shape::{Shape, EDGE};
use crate::tile::circle::ElasticCircleTile;
use crate::tile::traits::{RandomTile, Tile, UNIT};
use crate::tile::triangle::{ElasticTileType, ElasticTriangleTile};
use crate::vec2::Vec2;
use vstd::prelude::*;

verus! {

/// Where the cell with the given storage index has its origin when an
/// arrangement with `footprint` is drawn at `origin` with `scale`. Cells are
/// stored row after row, so the index belongs to the cell
/// `(index % footprint.x, index / footprint.x)`, which lies that many scaled
/// edges from the arrangement's origin.
pub open spec fn cell_origin(
    index: int,
    footprint: Vec2<usize>,
    scale: u32,
    origin: Vec2<i64>,
) -> (int, int) {
    (
        origin.x + (index % (footprint.x as int)) * (EDGE * scale),
        origin.y + (index / (footprint.x as int)) * (EDGE * scale),
    )
}

/// Whether the cell with the given storage index can be drawn: its origin
/// and every coordinate of its tile fit the coordinate type.
pub open spec fn cell_fits<T: Tile>(
    cells: Seq<T>,
    index: int,
    footprint: Vec2<usize>,
    scale: u32,
    origin: Vec2<i64>,
) -> bool {
    let at = cell_origin(index, footprint, scale, origin);
    &&& crate::shape::is_coordinate(at.0)
    &&& crate::shape::is_coordinate(at.1)
    &&& cells[index].can_render(scale, Vec2 { x: at.0 as i64, y: at.1 as i64 })
}

/// Whether every cell of an arrangement can be drawn.
pub open spec fn cells_fit<T: Tile>(
    cells: Seq<T>,
    footprint: Vec2<usize>,
    scale: u32,
    origin: Vec2<i64>,
) -> bool {
    forall|index: int|
        0 <= index < cells.len() ==> #[trigger] cell_fits(cells, index, footprint, scale, origin)
}

/// The shape of the cell with the given storage index.
pub open spec fn cell_shape<T: Tile>(
    cells: Seq<T>,
    index: int,
    footprint: Vec2<usize>,
    scale: u32,
    origin: Vec2<i64>,
) -> Shape {
    let at = cell_origin(index, footprint, scale, origin);
    cells[index].outline(scale, Vec2 { x: at.0 as i64, y: at.1 as i64 })
}

/// The shapes of an arrangement, one per cell, in storage order.
pub open spec fn cell_shapes<T: Tile>(
    cells: Seq<T>,
    footprint: Vec2<usize>,
    scale: u32,
    origin: Vec2<i64>,
) -> Seq<Shape> {
    Seq::new(cells.len(), |index: int| cell_shape(cells, index, footprint, scale, origin))
}

/// The tiles of `cells`, each lit with `brightness`.
pub open spec fn lit_cells<T: Tile>(cells: Seq<T>, brightness: i64) -> Seq<T> {
    Seq::new(cells.len(), |index: int| cells[index].lit(brightness))
}

/// A tile arrangement: a grid of tiles that stands for one block of source
/// pixels.
pub trait Generator: Sized {
    type TileType: Tile;

    /// How many tiles the arrangement holds along each axis.
    spec fn footprint(&self) -> Vec2<usize>;

    /// How many source pixels one copy of the arrangement stands for, along
    /// each axis.
    spec fn block_size(&self) -> Vec2<usize>;

    /// The tiles in storage order, row after row: the cell `(cx, cy)` is at
    /// index `cy * footprint.x + cx`.
    spec fn cells(&self) -> Seq<Self::TileType>;

    /// Whether `adjusted` is an arrangement that `clone_with_brightness` may
    /// return for `brightness`.
    spec fn adjusts_to(&self, brightness: i64, adjusted: &Self) -> bool;

    /// Whatever arrangement a brightness adjustment returns, it has the
    /// sizes of the one it was made from, and each of its tiles has the
    /// openness that the brightness maps to.
    proof fn adjusted_is_lit(&self, brightness: i64, adjusted: &Self)
        requires
            self.adjusts_to(brightness, adjusted),
        ensures
            adjusted.footprint() == self.footprint(),
            adjusted.block_size() == self.block_size(),
            adjusted.cells().len() == self.cells().len(),
            forall|index: int|
                0 <= index < adjusted.cells().len() ==> (#[trigger] adjusted.cells()[index]).openness()
                    == crate::tile::traits::openness_of(brightness as int),
    ;

    /// A new arrangement whose every tile has its brightness set; `self` is
    /// left as it is.
    fn clone_with_brightness(&self, brightness: i64) -> (adjusted: Self)
        ensures
            self.adjusts_to(brightness, &adjusted),
    ;

    fn generator_block_size(&self) -> (size: Vec2<usize>)
        ensures
            size == self.footprint(),
            self.cells().len() == size.x * size.y <= usize::MAX,
    ;

    fn source_image_block_size(&self) -> (size: Vec2<usize>)
        ensures
            size == self.block_size(),
    ;

    /// Draws every cell's tile at its place: `None` where some coordinate
    /// does not fit.
    fn render(&self, scale: u32, origin: Vec2<i64>) -> (shapes: Option<Vec<Shape>>)
        ensures
            shapes is Some <==> cells_fit(self.cells(), self.footprint(), scale, origin),
            shapes matches Some(drawn) ==> drawn@ == cell_shapes(
                self.cells(),
                self.footprint(),
                scale,
                origin,
            ),
    ;
}

/// An arrangement with a fixed pattern of tiles.
pub struct PatternGenerator<TTile: Tile> {
    gen_size: Vec2<usize>,
    src_img_block_size: Vec2<usize>,
    tiles: Vec<TTile>,
}

impl<TTile: Tile> PatternGenerator<TTile> {
    #[verifier::type_invariant]
    spec fn full(self) -> bool {
        self.tiles@.len() == self.gen_size.x * self.gen_size.y
    }

    /// Makes an arrangement from a grid of tiles written as an array of rows:
    /// `tiles[cy][cx]` becomes the cell `(cx, cy)`.
    pub fn from_slice<const GEN_X_SIZE: usize, const GEN_Y_SIZE: usize>(
        tiles: [[TTile; GEN_X_SIZE]; GEN_Y_SIZE],
        src_img_block_size: Vec2<usize>,
    ) -> (made: Self)
        ensures
            made.footprint() == (Vec2 { x: GEN_X_SIZE, y: GEN_Y_SIZE }),
            made.block_size() == src_img_block_size,
            made.cells() == Seq::new(
                (GEN_X_SIZE * GEN_Y_SIZE) as nat,
                |index: int| tiles[index / (GEN_X_SIZE as int)][index % (GEN_X_SIZE as int)],
            ),
    {
        let mut vectorized: Vec<TTile> = Vec::new();
        let mut cy: usize = 0;
        while cy < GEN_Y_SIZE
            invariant
                cy <= GEN_Y_SIZE,
                vectorized@.len() == cy * GEN_X_SIZE,
                forall|index: int|
                    0 <= index < vectorized@.len() ==> #[trigger] vectorized@[index]
                        == tiles[index / (GEN_X_SIZE as int)][index % (GEN_X_SIZE as int)],
            decreases GEN_Y_SIZE - cy,
        {
            let row = tiles[cy];
            let mut cx: usize = 0;
            while cx < GEN_X_SIZE
                invariant
                    cy < GEN_Y_SIZE,
                    cx <= GEN_X_SIZE,
                    row == tiles[cy as int],
                    vectorized@.len() == cy * GEN_X_SIZE + cx,
                    forall|index: int|
                        0 <= index < vectorized@.len() ==> #[trigger] vectorized@[index]
                            == tiles[index / (GEN_X_SIZE as int)][index % (GEN_X_SIZE as int)],
                decreases GEN_X_SIZE - cx,
            {
                proof {
                    vstd::arithmetic::div_mod::lemma_fundamental_div_mod_converse(
                        cy * GEN_X_SIZE + cx,
                        GEN_X_SIZE as int,
                        cy as int,
                        cx as int,
                    );
                }
                vectorized.push(row[cx]);
                cx += 1;
            }
            assert((cy + 1) * GEN_X_SIZE == cy * GEN_X_SIZE + GEN_X_SIZE) by (nonlinear_arith);
            cy += 1;
        }
        assert(vectorized@.len() == GEN_X_SIZE * GEN_Y_SIZE) by (nonlinear_arith)
            requires
                vectorized@.len() == GEN_Y_SIZE * GEN_X_SIZE,
        ;
        Self { tiles: vectorized, gen_size: Vec2::new(GEN_X_SIZE, GEN_Y_SIZE), src_img_block_size }
    }

    /// Makes an arrangement of `gen_size.x` by `gen_size.y` tiles from tiles
    /// in storage order, row after row. Where fewer tiles are given than the
    /// footprint holds, the rest are default tiles.
    pub fn from_vec(
        mut tiles: Vec<TTile>,
        gen_size: Vec2<usize>,
        src_img_block_size: Vec2<usize>,
    ) -> (made: Self)
        requires
            tiles@.len() <= gen_size.x * gen_size.y <= usize::MAX,
        ensures
            made.footprint() == gen_size,
            made.block_size() == src_img_block_size,
            made.cells() == tiles@ + Seq::new(
                (gen_size.x * gen_size.y - tiles@.len()) as nat,
                |index: int| TTile::neutral(),
            ),
    {
        let ghost given = tiles@;
        let missing_tiles_count = gen_size.x * gen_size.y - tiles.len();

        let mut added: usize = 0;
        while added < missing_tiles_count
            invariant
                added <= missing_tiles_count,
                missing_tiles_count == gen_size.x * gen_size.y - given.len(),
                tiles@ == given + Seq::new(added as nat, |index: int| TTile::neutral()),
            decreases missing_tiles_count - added,
        {
            tiles.push(TTile::default_tile());
            added += 1;
            assert(tiles@ =~= given + Seq::new(added as nat, |index: int| TTile::neutral()));
        }

        Self { tiles, gen_size, src_img_block_size }
    }

    /// The tiles in storage order.
    pub fn tiles(&self) -> (tiles: &Vec<TTile>)
        ensures
            tiles@ == self.cells(),
    {
        &self.tiles
    }
}

impl<TTile: Tile> Clone for PatternGenerator<TTile> {
    fn clone(&self) -> (copy: Self)
        ensures
            copy.footprint() == self.footprint(),
            copy.block_size() == self.block_size(),
            copy.cells() == self.cells(),
    {
        proof {
            use_type_invariant(self);
        }
        let mut tiles: Vec<TTile> = Vec::new();
        let mut index: usize = 0;
        while index < self.tiles.len()
            invariant
                index <= self.tiles@.len(),
                tiles@ == self.tiles@.take(index as int),
            decreases self.tiles@.len() - index,
        {
            tiles.push(self.tiles[index]);
            index += 1;
            assert(tiles@ =~= self.tiles@.take(index as int));
        }
        assert(tiles@ =~= self.tiles@);
        Self { gen_size: self.gen_size, src_img_block_size: self.src_img_block_size, tiles }
    }
}

impl<TTile: Tile> Generator for PatternGenerator<TTile> {
    type TileType = TTile;

    closed spec fn footprint(&self) -> Vec2<usize> {
        self.gen_size
    }

    closed spec fn block_size(&self) -> Vec2<usize> {
        self.src_img_block_size
    }

    closed spec fn cells(&self) -> Seq<TTile> {
        self.tiles@
    }

    /// A fixed pattern keeps each tile's identity and lights every tile.
    open spec fn adjusts_to(&self, brightness: i64, adjusted: &Self) -> bool {
        &&& adjusted.footprint() == self.footprint()
        &&& adjusted.block_size() == self.block_size()
        &&& adjusted.cells() == lit_cells(self.cells(), brightness)
    }

    proof fn adjusted_is_lit(&self, brightness: i64, adjusted: &Self) {
        assert forall|index: int| 0 <= index < adjusted.cells().len() implies (
        #[trigger] adjusted.cells()[index]).openness() == crate::tile::traits::openness_of(
            brightness as int,
        ) by {
            self.cells()[index].lit_sets_openness(brightness);
        }
    }

    fn clone_with_brightness(&self, brightness: i64) -> (adjusted: Self) {
        proof {
            use_type_invariant(self);
        }
        let mut tiles: Vec<TTile> = Vec::new();
        let mut index: usize = 0;
        while index < self.tiles.len()
            invariant
                index <= self.tiles@.len(),
                tiles@.len() == index,
                forall|i: int| 0 <= i < index ==> #[trigger] tiles@[i] == self.tiles@[i].lit(brightness),
            decreases self.tiles@.len() - index,
        {
            let mut tile = self.tiles[index];
            tile.set_brightness(brightness);
            tiles.push(tile);
            index += 1;
        }
        assert(tiles@ =~= lit_cells(self.tiles@, brightness));
        Self { gen_size: self.gen_size, src_img_block_size: self.src_img_block_size, tiles }
    }

    #[inline]
    fn generator_block_size(&self) -> (size: Vec2<usize>) {
        proof {
            use_type_invariant(self);
        }
        assert(self.tiles.len() <= usize::MAX);
        self.gen_size
    }

    #[inline]
    fn source_image_block_size(&self) -> (size: Vec2<usize>) {
        self.src_img_block_size
    }

    fn render(&self, scale: u32, origin: Vec2<i64>) -> (shapes: Option<Vec<Shape>>) {
        proof {
            use_type_invariant(self);
        }
        let step: i64 = EDGE * (scale as i64);
        let mut drawn: Vec<Shape> = Vec::new();
        let mut index: usize = 0;
        while index < self.tiles.len()
            invariant
                index <= self.tiles@.len(),
                self.tiles@.len() == self.gen_size.x * self.gen_size.y,
                step == EDGE * scale,
                drawn@.len() == index,
                forall|i: int| 0 <= i < index ==> #[trigger] cell_fits(self.tiles@, i, self.gen_size, scale, origin),
                forall|i: int|
                    0 <= i < index ==> #[trigger] drawn@[i] == cell_shape(
                        self.tiles@,
                        i,
                        self.gen_size,
                        scale,
                        origin,
                    ),
            decreases self.tiles@.len() - index,
        {
            assert(self.gen_size.x != 0) by (nonlinear_arith)
                requires
                    index < self.gen_size.x * self.gen_size.y,
            ;
            let cx: usize = index % self.gen_size.x;
            let cy: usize = index / self.gen_size.x;
            assert(0 <= cx * step <= 0xffff_ffff_ffff_ffff * (EDGE * 0xffff_ffff)) by (nonlinear_arith)
                requires
                    0 <= cx <= 0xffff_ffff_ffff_ffff,
                    0 <= step <= EDGE * 0xffff_ffff,
            ;
            assert(0 <= cy * step <= 0xffff_ffff_ffff_ffff * (EDGE * 0xffff_ffff)) by (nonlinear_arith)
                requires
                    0 <= cy <= 0xffff_ffff_ffff_ffff,
                    0 <= step <= EDGE * 0xffff_ffff,
            ;
            let x: i128 = origin.x as i128 + (cx as i128) * (step as i128);
            let y: i128 = origin.y as i128 + (cy as i128) * (step as i128);
            assert((x as int, y as int) == cell_origin(index as int, self.gen_size, scale, origin));
            if x > i64::MAX as i128 || y > i64::MAX as i128 {
                assert(!cell_fits(self.tiles@, index as int, self.gen_size, scale, origin));
                return None;
            }
            let at = Vec2::new(x as i64, y as i64);
            match self.tiles[index].render(scale, at) {
                Some(shape) => {
                    drawn.push(shape);
                },
                None => {
                    assert(!cell_fits(self.tiles@, index as int, self.gen_size, scale, origin));
                    return None;
                },
            }
            index += 1;
        }
        assert(drawn@ =~= cell_shapes(self.tiles@, self.gen_size, scale, origin));
        Some(drawn)
    }
}

/// Whether `tile` is some fresh tile lit with `brightness`.
pub open spec fn fresh_and_lit<T: RandomTile>(tile: T, brightness: i64) -> bool {
    exists|fresh: T| T::fresh(fresh) && #[trigger] fresh.lit(brightness) == tile
}

/// An arrangement whose tiles are drawn at random, and drawn anew whenever
/// its brightness is adjusted.
pub struct RandomGenerator<TTile: RandomTile>(PatternGenerator<TTile>);

impl<TTile: RandomTile> RandomGenerator<TTile> {
    /// Makes an arrangement of the given footprint, every tile drawn at
    /// random.
    fn new(gen_size: Vec2<usize>, src_img_block_size: Vec2<usize>) -> (made: Self)
        requires
            gen_size.x * gen_size.y <= usize::MAX,
        ensures
            made.footprint() == gen_size,
            made.block_size() == src_img_block_size,
            made.cells().len() == gen_size.x * gen_size.y,
            forall|index: int|
                0 <= index < made.cells().len() ==> TTile::fresh(#[trigger] made.cells()[index]),
    {
        let tiles_count = gen_size.x * gen_size.y;
        let mut tiles: Vec<TTile> = Vec::new();
        let mut index: usize = 0;
        while index < tiles_count
            invariant
                index <= tiles_count,
                tiles@.len() == index,
                forall|i: int| 0 <= i < index ==> TTile::fresh(#[trigger] tiles@[i]),
            decreases tiles_count - index,
        {
            tiles.push(TTile::sample());
            index += 1;
        }
        assert(tiles@ + Seq::new(0nat, |index: int| TTile::neutral()) =~= tiles@);
        Self(PatternGenerator::from_vec(tiles, gen_size, src_img_block_size))
    }

    /// The tiles in storage order.
    pub fn tiles(&self) -> (tiles: &Vec<TTile>)
        ensures
            tiles@ == self.cells(),
    {
        self.0.tiles()
    }
}

impl<TTile: RandomTile> Clone for RandomGenerator<TTile> {
    fn clone(&self) -> (copy: Self)
        ensures
            copy.footprint() == self.footprint(),
            copy.block_size() == self.block_size(),
            copy.cells() == self.cells(),
    {
        Self(self.0.clone())
    }
}

impl<TTile: RandomTile> Generator for RandomGenerator<TTile> {
    type TileType = TTile;

    closed spec fn footprint(&self) -> Vec2<usize> {
        self.0.footprint()
    }

    closed spec fn block_size(&self) -> Vec2<usize> {
        self.0.block_size()
    }

    closed spec fn cells(&self) -> Seq<TTile> {
        self.0.cells()
    }

    /// A random pattern keeps its sizes; each of its tiles is drawn anew and
    /// then lit.
    open spec fn adjusts_to(&self, brightness: i64, adjusted: &Self) -> bool {
        &&& adjusted.footprint() == self.footprint()
        &&& adjusted.block_size() == self.block_size()
        &&& adjusted.cells().len() == self.cells().len()
        &&& forall|index: int|
            0 <= index < adjusted.cells().len() ==> fresh_and_lit(
                #[trigger] adjusted.cells()[index],
                brightness,
            )
    }

    proof fn adjusted_is_lit(&self, brightness: i64, adjusted: &Self) {
        assert forall|index: int| 0 <= index < adjusted.cells().len() implies (
        #[trigger] adjusted.cells()[index]).openness() == crate::tile::traits::openness_of(
            brightness as int,
        ) by {
            let tile = adjusted.cells()[index];
            assert(fresh_and_lit(tile, brightness));
            let fresh = choose|fresh: TTile| TTile::fresh(fresh) && #[trigger] fresh.lit(brightness) == tile;
            fresh.lit_sets_openness(brightness);
        }
    }

    fn clone_with_brightness(&self, brightness: i64) -> (adjusted: Self) {
        let gen_size = self.generator_block_size();
        let redrawn = Self::new(gen_size, self.source_image_block_size());
        let adjusted = Self(redrawn.0.clone_with_brightness(brightness));
        assert forall|index: int| 0 <= index < adjusted.cells().len() implies fresh_and_lit(
            #[trigger] adjusted.cells()[index],
            brightness,
        ) by {
            assert(TTile::fresh(redrawn.cells()[index]));
            assert(redrawn.cells()[index].lit(brightness) == adjusted.cells()[index]);
        }
        adjusted
    }

    fn generator_block_size(&self) -> (size: Vec2<usize>) {
        self.0.generator_block_size()
    }

    fn source_image_block_size(&self) -> (size: Vec2<usize>) {
        self.0.source_image_block_size()
    }

    #[inline]
    fn render(&self, scale: u32, origin: Vec2<i64>) -> (shapes: Option<Vec<Shape>>) {
        self.0.render(scale, origin)
    }
}

/// A fresh wedge of the given identity.
pub open spec fn wedge_tile(kind: ElasticTileType) -> ElasticTriangleTile {
    ElasticTriangleTile::of(kind, UNIT / 2)
}

/// The default circle tile, turned or not.
pub open spec fn circle_tile(turned: bool) -> ElasticCircleTile {
    ElasticCircleTile::of(turned, UNIT / 5, 2 * UNIT)
}

/// Two by two wedges whose filled halves run in stripes along one diagonal.
pub fn stripes_ac(image_block_size: Vec2<usize>) -> (made: PatternGenerator<ElasticTriangleTile>)
    ensures
        made.footprint() == (Vec2 { x: 2usize, y: 2usize }),
        made.block_size() == image_block_size,
        made.cells() == seq![
            wedge_tile(ElasticTileType::A),
            wedge_tile(ElasticTileType::C),
            wedge_tile(ElasticTileType::C),
            wedge_tile(ElasticTileType::A),
        ],
{
    let made = PatternGenerator::from_slice(
        [
            [ElasticTriangleTile::type_a(), ElasticTriangleTile::type_c()],
            [ElasticTriangleTile::type_c(), ElasticTriangleTile::type_a()],
        ],
        image_block_size,
    );
    assert(made.cells() =~= seq![
        wedge_tile(ElasticTileType::A),
        wedge_tile(ElasticTileType::C),
        wedge_tile(ElasticTileType::C),
        wedge_tile(ElasticTileType::A),
    ]);
    made
}

/// Two by two wedges whose filled halves run in stripes along the other
/// diagonal.
pub fn stripes_bd(image_block_size: Vec2<usize>) -> (made: PatternGenerator<ElasticTriangleTile>)
    ensures
        made.footprint() == (Vec2 { x: 2usize, y: 2usize }),
        made.block_size() == image_block_size,
        made.cells() == seq![
            wedge_tile(ElasticTileType::B),
            wedge_tile(ElasticTileType::D),
            wedge_tile(ElasticTileType::D),
            wedge_tile(ElasticTileType::B),
        ],
{
    let made = PatternGenerator::from_slice(
        [
            [ElasticTriangleTile::type_b(), ElasticTriangleTile::type_d()],
            [ElasticTriangleTile::type_d(), ElasticTriangleTile::type_b()],
        ],
        image_block_size,
    );
    assert(made.cells() =~= seq![
        wedge_tile(ElasticTileType::B),
        wedge_tile(ElasticTileType::D),
        wedge_tile(ElasticTileType::D),
        wedge_tile(ElasticTileType::B),
    ]);
    made
}

/// Two by two wedges, one of each identity, laid out as a cross.
pub fn bosh_d(image_block_size: Vec2<usize>) -> (made: PatternGenerator<ElasticTriangleTile>)
    ensures
        made.footprint() == (Vec2 { x: 2usize, y: 2usize }),
        made.block_size() == image_block_size,
        made.cells() == seq![
            wedge_tile(ElasticTileType::B),
            wedge_tile(ElasticTileType::A),
            wedge_tile(ElasticTileType::C),
            wedge_tile(ElasticTileType::D),
        ],
{
    let made = PatternGenerator::from_slice(
        [
            [ElasticTriangleTile::type_b(), ElasticTriangleTile::type_a()],
            [ElasticTriangleTile::type_c(), ElasticTriangleTile::type_d()],
        ],
        image_block_size,
    );
    assert(made.cells() =~= seq![
        wedge_tile(ElasticTileType::B),
        wedge_tile(ElasticTileType::A),
        wedge_tile(ElasticTileType::C),
        wedge_tile(ElasticTileType::D),
    ]);
    made
}

/// Two by two wedges, one of each identity, laid out as a fan.
pub fn fan(image_block_size: Vec2<usize>) -> (made: PatternGenerator<ElasticTriangleTile>)
    ensures
        made.footprint() == (Vec2 { x: 2usize, y: 2usize }),
        made.block_size() == image_block_size,
        made.cells() == seq![
            wedge_tile(ElasticTileType::A),
            wedge_tile(ElasticTileType::B),
            wedge_tile(ElasticTileType::D),
            wedge_tile(ElasticTileType::C),
        ],
{
    let made = PatternGenerator::from_slice(
        [
            [ElasticTriangleTile::type_a(), ElasticTriangleTile::type_b()],
            [ElasticTriangleTile::type_d(), ElasticTriangleTile::type_c()],
        ],
        image_block_size,
    );
    assert(made.cells() =~= seq![
        wedge_tile(ElasticTileType::A),
        wedge_tile(ElasticTileType::B),
        wedge_tile(ElasticTileType::D),
        wedge_tile(ElasticTileType::C),
    ]);
    made
}

/// Two by two circle tiles, turned on one diagonal, which close into
/// circles.
pub fn circles(image_block_size: Vec2<usize>) -> (made: PatternGenerator<ElasticCircleTile>)
    ensures
        made.footprint() == (Vec2 { x: 2usize, y: 2usize }),
        made.block_size() == image_block_size,
        made.cells() == seq![
            circle_tile(false),
            circle_tile(true),
            circle_tile(true),
            circle_tile(false),
        ],
{
    proof {
        ElasticCircleTile::of_is_exact(false, UNIT / 5, 2 * UNIT);
    }
    let made = PatternGenerator::from_slice(
        [
            [ElasticCircleTile::default(), ElasticCircleTile::default().flipped()],
            [ElasticCircleTile::default().flipped(), ElasticCircleTile::default()],
        ],
        image_block_size,
    );
    assert(made.cells() =~= seq![
        circle_tile(false),
        circle_tile(true),
        circle_tile(true),
        circle_tile(false),
    ]);
    made
}

/// Two by two circle tiles, turned in one column, which join into waves.
pub fn waves(image_block_size: Vec2<usize>) -> (made: PatternGenerator<ElasticCircleTile>)
    ensures
        made.footprint() == (Vec2 { x: 2usize, y: 2usize }),
        made.block_size() == image_block_size,
        made.cells() == seq![
            circle_tile(false),
            circle_tile(true),
            circle_tile(false),
            circle_tile(true),
        ],
{
    proof {
        ElasticCircleTile::of_is_exact(false, UNIT / 5, 2 * UNIT);
    }
    let made = PatternGenerator::from_slice(
        [
            [ElasticCircleTile::default(), ElasticCircleTile::default().flipped()],
            [ElasticCircleTile::default(), ElasticCircleTile::default().flipped()],
        ],
        image_block_size,
    );
    assert(made.cells() =~= seq![
        circle_tile(false),
        circle_tile(true),
        circle_tile(false),
        circle_tile(true),
    ]);
    made
}

/// An arrangement of wedges drawn at random.
pub fn random(gen_size: Vec2<usize>, src_img_block_size: Vec2<usize>) -> (made: RandomGenerator<
    ElasticTriangleTile,
>)
    requires
        gen_size.x * gen_size.y <= usize::MAX,
    ensures
        made.footprint() == gen_size,
        made.block_size() == src_img_block_size,
        made.cells().len() == gen_size.x * gen_size.y,
        forall|index: int|
            0 <= index < made.cells().len() ==> ElasticTriangleTile::fresh(
                #[trigger] made.cells()[index],
            ),
{
    RandomGenerator::new(gen_size, src_img_block_size)
}

} // verus!
