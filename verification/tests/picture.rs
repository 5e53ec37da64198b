use truchet::generator::{circles, fan, random, stripes_ac, Generator, PatternGenerator};
use truchet::image::Image;
use truchet::shape::{Shape, EDGE};
use truchet::tile::traits::{Tile, UNIT};
use truchet::tile::triangle::{ElasticTileType, ElasticTriangleTile};
use truchet::truchet_image::{generate, ConfigError, MAX_BLOCK_AREA};
use truchet::vec2::Vec2;

/// A source that holds its pixels column after column.
struct Raster {
    width: usize,
    height: usize,
    pixels: Vec<i64>,
}

impl Raster {
    fn uniform(width: usize, height: usize, level: i64) -> Self {
        Raster { width, height, pixels: vec![level; width * height] }
    }

    fn set(&mut self, x: usize, y: usize, level: i64) {
        self.pixels[x * self.height + y] = level;
    }
}

impl Image for Raster {
    fn dimensions(&self) -> Vec2<usize> {
        self.size()
    }

    fn brightness_at(&self, pos: Vec2<usize>) -> i64 {
        self.get_pixel_brightness(pos)
    }

    fn size(&self) -> Vec2<usize> {
        Vec2::new(self.width, self.height)
    }

    fn get_pixel_brightness(&self, pos: Vec2<usize>) -> i64 {
        assert!(pos.x() < self.width && pos.y() < self.height);
        self.pixels[pos.x() * self.height + pos.y()]
    }
}

/// A source of a size that no memory holds, which must never be sampled.
struct Vast {
    width: usize,
    height: usize,
}

impl Image for Vast {
    fn dimensions(&self) -> Vec2<usize> {
        self.size()
    }

    fn brightness_at(&self, pos: Vec2<usize>) -> i64 {
        self.get_pixel_brightness(pos)
    }

    fn size(&self) -> Vec2<usize> {
        Vec2::new(self.width, self.height)
    }

    fn get_pixel_brightness(&self, _pos: Vec2<usize>) -> i64 {
        panic!("sampled a source whose configuration is invalid")
    }
}

fn openness(tiles: &[ElasticTriangleTile]) -> Vec<i64> {
    tiles.iter().map(|tile| tile.t()).collect()
}

#[test]
fn the_grid_has_one_cell_per_whole_block() {
    let source = Raster::uniform(20, 20, 500_000);
    let picture = generate(&source, stripes_ac(Vec2::new(8, 8))).unwrap();
    assert_eq!(picture.grid_size(), Vec2::new(2, 2));
    assert_eq!(picture.generators().len(), 4);
}

#[test]
fn the_grid_truncates_each_axis_by_itself() {
    let source = Raster::uniform(17, 9, 500_000);
    let picture = generate(&source, stripes_ac(Vec2::new(4, 5))).unwrap();
    assert_eq!(picture.grid_size(), Vec2::new(4, 1));
    assert_eq!(picture.generators().len(), 4);
}

#[test]
fn the_margin_is_never_sampled() {
    let mut source = Raster::uniform(20, 20, 0);
    for x in 0..20 {
        for y in 0..20 {
            if x >= 16 || y >= 16 {
                source.set(x, y, UNIT);
            }
        }
    }
    let picture = generate(&source, stripes_ac(Vec2::new(8, 8))).unwrap();
    for block in picture.generators() {
        assert_eq!(openness(block.tiles()), vec![0, 0, 0, 0]);
    }
    let mut lit = Raster::uniform(20, 20, 0);
    lit.set(15, 15, UNIT);
    let picture = generate(&lit, stripes_ac(Vec2::new(8, 8))).unwrap();
    // one white pixel of 64: mean 15625, still below a quarter
    assert_eq!(openness(picture.generators()[3].tiles()), vec![0, 0, 0, 0]);
}

#[test]
fn a_source_smaller_than_a_block_gives_an_empty_grid() {
    let source = Raster::uniform(7, 30, 500_000);
    let picture = generate(&source, stripes_ac(Vec2::new(8, 8))).unwrap();
    assert_eq!(picture.grid_size(), Vec2::new(0, 3));
    assert!(picture.generators().is_empty());
    assert_eq!(picture.render(1, Vec2::new(0, 0)), Some(vec![]));
}

#[test]
fn a_uniform_source_gives_identical_cells() {
    let source = Raster::uniform(24, 16, 400_000);
    let template = fan(Vec2::new(8, 8));
    let picture = generate(&source, template.clone()).unwrap();
    assert_eq!(picture.grid_size(), Vec2::new(3, 2));
    let expected = template.clone_with_brightness(400_000);
    for block in picture.generators() {
        assert_eq!(block.tiles(), expected.tiles());
        assert_eq!(openness(block.tiles()), vec![300_000; 4]);
    }
}

#[test]
fn mid_gray_end_to_end() {
    let source = Raster::uniform(16, 16, 500_000);
    let picture = generate(&source, stripes_ac(Vec2::new(8, 8))).unwrap();
    assert_eq!(picture.grid_size(), Vec2::new(2, 2));
    assert_eq!(picture.generator().generator_block_size(), Vec2::new(2, 2));
    assert_eq!(picture.generators().len(), 4);
    for block in picture.generators() {
        assert_eq!(openness(block.tiles()), vec![500_000; 4]);
    }
    let shapes = picture.render(10, Vec2::new(0, 0)).unwrap();
    assert_eq!(shapes.len(), 2 * 2 * (2 * 2));
    for shape in &shapes {
        match shape {
            Shape::Polygon(polygon) => assert_eq!(polygon.t, 500_000),
            Shape::Ribbons(_) => panic!("a wedge drew ribbons"),
        }
    }
}

#[test]
fn the_template_is_kept_as_it_was_given() {
    let source = Raster::uniform(16, 16, 900_000);
    let template = stripes_ac(Vec2::new(8, 8));
    let tiles = template.tiles().clone();
    let picture = generate(&source, template).unwrap();
    assert_eq!(picture.generator().tiles(), &tiles);
    assert_eq!(openness(picture.generator().tiles()), vec![500_000; 4]);
    assert_eq!(openness(picture.generators()[0].tiles()), vec![UNIT; 4]);
}

#[test]
fn each_block_has_its_own_mean() {
    // blocks of two by two pixels; block (gx, gy) is stored at gx * 2 + gy
    let mut source = Raster::uniform(4, 4, 0);
    for (x, y, level) in [
        (0, 0, 100_000),
        (0, 1, 200_000),
        (1, 0, 300_000),
        (1, 1, 400_001),
        (0, 2, 600_000),
        (0, 3, 600_000),
        (1, 2, 600_000),
        (1, 3, 600_000),
        (2, 0, UNIT),
        (2, 1, UNIT),
        (3, 0, UNIT),
        (3, 1, 0),
        (2, 2, 333_333),
        (2, 3, 333_333),
        (3, 2, 333_333),
        (3, 3, 333_334),
    ] {
        source.set(x, y, level);
    }
    let picture = generate(&source, stripes_ac(Vec2::new(2, 2))).unwrap();
    let cells = picture.generators();
    // 1000001 / 4 = 250000 rounded down: the ramp's lower end
    assert_eq!(openness(cells[0].tiles()), vec![0; 4]);
    // mean 600000: 2 * 600000 - 500000
    assert_eq!(openness(cells[1].tiles()), vec![700_000; 4]);
    // mean 750000: the ramp's upper end
    assert_eq!(openness(cells[2].tiles()), vec![UNIT; 4]);
    // 1333333 / 4 = 333333 rounded down: 2 * 333333 - 500000
    assert_eq!(openness(cells[3].tiles()), vec![166_666; 4]);
}

#[test]
fn samples_outside_the_range_are_clamped() {
    let mut source = Raster::uniform(2, 1, 0);
    source.set(0, 0, -3 * UNIT);
    source.set(1, 0, 5 * UNIT);
    // counted as 0 and UNIT: mean one half
    let picture = generate(&source, stripes_ac(Vec2::new(2, 1))).unwrap();
    assert_eq!(openness(picture.generators()[0].tiles()), vec![500_000; 4]);
    let extreme = Raster::uniform(3, 3, i64::MAX);
    let picture = generate(&extreme, stripes_ac(Vec2::new(3, 3))).unwrap();
    assert_eq!(openness(picture.generators()[0].tiles()), vec![UNIT; 4]);
    let negative = Raster::uniform(3, 3, i64::MIN);
    let picture = generate(&negative, stripes_ac(Vec2::new(3, 3))).unwrap();
    assert_eq!(openness(picture.generators()[0].tiles()), vec![0; 4]);
}

#[test]
fn an_empty_block_is_a_configuration_error() {
    let source = Vast { width: 16, height: 16 };
    assert_eq!(generate(&source, stripes_ac(Vec2::new(0, 8))).err(), Some(ConfigError::EmptyBlock));
    assert_eq!(generate(&source, stripes_ac(Vec2::new(8, 0))).err(), Some(ConfigError::EmptyBlock));
    assert_eq!(generate(&source, stripes_ac(Vec2::new(0, 0))).err(), Some(ConfigError::EmptyBlock));
}

#[test]
fn an_empty_footprint_is_a_configuration_error() {
    let source = Vast { width: 16, height: 16 };
    let no_columns: PatternGenerator<ElasticTriangleTile> =
        PatternGenerator::from_vec(vec![], Vec2::new(0, 2), Vec2::new(8, 8));
    assert_eq!(generate(&source, no_columns).err(), Some(ConfigError::EmptyFootprint));
    let no_rows: PatternGenerator<ElasticTriangleTile> =
        PatternGenerator::from_vec(vec![], Vec2::new(2, 0), Vec2::new(8, 8));
    assert_eq!(generate(&source, no_rows).err(), Some(ConfigError::EmptyFootprint));
    let neither: PatternGenerator<ElasticTriangleTile> =
        PatternGenerator::from_vec(vec![], Vec2::new(0, 0), Vec2::new(0, 8));
    assert_eq!(generate(&source, neither).err(), Some(ConfigError::EmptyBlock));
}

#[test]
fn a_block_too_large_to_sum_is_a_configuration_error() {
    let source = Vast { width: 16, height: 16 };
    let side = 4_294_968;
    assert!((side as u64) * (side as u64) > MAX_BLOCK_AREA);
    assert_eq!(
        generate(&source, stripes_ac(Vec2::new(side, side))).err(),
        Some(ConfigError::BlockTooLarge)
    );
    assert_eq!(
        generate(&source, stripes_ac(Vec2::new(usize::MAX, usize::MAX))).err(),
        Some(ConfigError::BlockTooLarge)
    );
    // the largest block that can be summed is no error; it only gives an empty grid
    let wide = generate(&source, stripes_ac(Vec2::new(MAX_BLOCK_AREA as usize, 1))).unwrap();
    assert_eq!(wide.grid_size(), Vec2::new(0, 16));
}

#[test]
fn a_grid_too_large_to_count_is_a_configuration_error() {
    let source = Vast { width: usize::MAX, height: 2 };
    assert_eq!(
        generate(&source, stripes_ac(Vec2::new(1, 1))).err(),
        Some(ConfigError::GridTooLarge)
    );
}

#[test]
fn arrangements_are_drawn_a_footprint_apart() {
    let source = Raster::uniform(6, 4, 500_000);
    let a = ElasticTriangleTile::type_a();
    // three tiles across, one down; blocks of two by two pixels
    let template = PatternGenerator::from_slice([[a, a, a]], Vec2::new(2, 2));
    let picture = generate(&source, template).unwrap();
    assert_eq!(picture.grid_size(), Vec2::new(3, 2));
    let origin = Vec2::new(-500, 700);
    let scale = 3;
    let shapes = picture.render(scale, origin).unwrap();
    assert_eq!(shapes.len(), 3 * 2 * 3);
    let step = scale as i64 * EDGE;
    let mut number = 0;
    for gx in 0..3i64 {
        for gy in 0..2i64 {
            let block_origin = Vec2::new(origin.x() + gx * 3 * step, origin.y() + gy * step);
            let block = &picture.generators()[(gx * 2 + gy) as usize];
            assert_eq!(shapes[number..number + 3], block.render(scale, block_origin).unwrap()[..]);
            for cx in 0..3i64 {
                let cell_origin = Vec2::new(block_origin.x() + cx * step, block_origin.y());
                assert_eq!(Some(shapes[number]), a.render(scale, cell_origin));
                number += 1;
            }
        }
    }
}

#[test]
fn every_level_shares_one_scale() {
    let source = Raster::uniform(16, 16, 0);
    let picture = generate(&source, stripes_ac(Vec2::new(8, 8))).unwrap();
    let shapes = picture.render(5, Vec2::new(0, 0)).unwrap();
    // block (1, 1) is the fourth; its cell (1, 1) is an A wedge, closed
    let last = match shapes[15] {
        Shape::Polygon(polygon) => polygon,
        Shape::Ribbons(_) => panic!("a wedge drew ribbons"),
    };
    let tile = 5 * EDGE;
    let corner = Vec2::new(3 * tile, 3 * tile);
    assert_eq!(last.kind, ElasticTileType::A);
    assert_eq!(
        last.vertices,
        [
            Vec2::new(corner.x() + tile, corner.y() + tile),
            Vec2::new(corner.x(), corner.y() + tile),
            corner,
            Vec2::new(corner.x() + 5 * 3 * UNIT, corner.y() + 5 * UNIT),
        ]
    );
}

#[test]
fn a_picture_that_does_not_fit_is_not_drawn() {
    let source = Raster::uniform(16, 16, 500_000);
    let picture = generate(&source, stripes_ac(Vec2::new(8, 8))).unwrap();
    let extent = 4 * EDGE;
    assert!(picture.render(1, Vec2::new(i64::MAX - extent, i64::MAX - extent)).is_some());
    assert_eq!(picture.render(1, Vec2::new(i64::MAX - extent + 1, 0)), None);
    assert_eq!(picture.render(1, Vec2::new(0, i64::MAX - extent + 1)), None);
    assert!(picture.render(0, Vec2::new(i64::MAX, i64::MAX)).is_some());
    assert!(picture.render(u32::MAX, Vec2::new(i64::MIN, i64::MIN)).is_some());
}

#[test]
fn circle_pictures_follow_brightness_too() {
    let source = Raster::uniform(8, 8, 500_000);
    let picture = generate(&source, circles(Vec2::new(8, 8))).unwrap();
    let shapes = picture.render(1, Vec2::new(0, 0)).unwrap();
    assert_eq!(shapes.len(), 4);
    let mut lit = truchet::tile::circle::ElasticCircleTile::default();
    lit.set_brightness(500_000);
    assert_eq!(Some(shapes[0]), lit.render(1, Vec2::new(0, 0)));
    assert_eq!(Some(shapes[3]), lit.render(1, Vec2::new(EDGE, EDGE)));
}

#[test]
fn a_random_template_is_redrawn_for_every_block() {
    let source = Raster::uniform(32, 32, 600_000);
    let picture = generate(&source, random(Vec2::new(2, 2), Vec2::new(2, 2))).unwrap();
    assert_eq!(picture.grid_size(), Vec2::new(16, 16));
    let cells = picture.generators();
    assert!(cells.iter().all(|cell| openness(cell.tiles()) == vec![700_000; 4]));
    let first: Vec<ElasticTileType> = cells[0].tiles().iter().map(|t| t.tile_type()).collect();
    assert!(cells.iter().any(|cell| {
        let kinds: Vec<ElasticTileType> = cell.tiles().iter().map(|t| t.tile_type()).collect();
        kinds != first
    }));
    assert_eq!(picture.render(1, Vec2::new(0, 0)).unwrap().len(), 16 * 16 * 4);
}
