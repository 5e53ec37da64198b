use truchet::shape::{Polygon, Shape, EDGE};
use truchet::tile::traits::{openness_for, RandomTile, Tile, UNIT};
use truchet::tile::triangle::{ElasticTileType, ElasticTriangleTile};
use truchet::tile::ElasticTile;
use truchet::vec2::Vec2;

fn polygon_of(shape: Option<Shape>) -> Polygon {
    match shape {
        Some(Shape::Polygon(polygon)) => polygon,
        other => panic!("expected a polygon, got {:?}", other),
    }
}

fn lit(kind: ElasticTileType, brightness: i64) -> ElasticTriangleTile {
    let mut tile = ElasticTriangleTile::new(UNIT / 2, kind);
    tile.set_brightness(brightness);
    tile
}

#[test]
fn units_are_millionths_and_quarter_millionths() {
    assert_eq!(UNIT, 1_000_000);
    assert_eq!(EDGE, 4 * UNIT);
}

#[test]
fn dark_brightness_closes_the_tile() {
    assert_eq!(lit(ElasticTileType::A, 0).t(), 0);
    assert_eq!(lit(ElasticTileType::A, 100_000).t(), 0);
    assert_eq!(lit(ElasticTileType::A, 249_999).t(), 0);
}

#[test]
fn bright_brightness_opens_the_tile() {
    assert_eq!(lit(ElasticTileType::B, 750_001).t(), UNIT);
    assert_eq!(lit(ElasticTileType::B, 900_000).t(), UNIT);
    assert_eq!(lit(ElasticTileType::B, UNIT).t(), UNIT);
}

#[test]
fn midtones_follow_the_ramp() {
    assert_eq!(lit(ElasticTileType::C, 250_000).t(), 0);
    assert_eq!(lit(ElasticTileType::C, 300_000).t(), 100_000);
    assert_eq!(lit(ElasticTileType::C, 500_000).t(), 500_000);
    assert_eq!(lit(ElasticTileType::C, 612_345).t(), 724_690);
    assert_eq!(lit(ElasticTileType::C, 750_000).t(), UNIT);
}

#[test]
fn brightness_outside_the_range_is_clamped() {
    assert_eq!(lit(ElasticTileType::D, -1).t(), 0);
    assert_eq!(lit(ElasticTileType::D, -5_000_000).t(), 0);
    assert_eq!(lit(ElasticTileType::D, i64::MIN).t(), 0);
    assert_eq!(lit(ElasticTileType::D, 2_000_000).t(), UNIT);
    assert_eq!(lit(ElasticTileType::D, i64::MAX).t(), UNIT);
}

#[test]
fn openness_never_falls_as_brightness_rises() {
    let mut last = openness_for(-200_000);
    let mut brightness = -200_000;
    while brightness <= 1_200_000 {
        let t = openness_for(brightness);
        assert!(t >= last);
        assert!((0..=UNIT).contains(&t));
        last = t;
        brightness += 1_111;
    }
}

#[test]
fn setting_brightness_keeps_the_identity() {
    for kind in [ElasticTileType::A, ElasticTileType::B, ElasticTileType::C, ElasticTileType::D] {
        assert_eq!(lit(kind, 420_000).tile_type(), kind);
    }
}

#[test]
fn setting_brightness_overwrites_what_was_set() {
    let mut tile = ElasticTriangleTile::type_a();
    tile.set_brightness(900_000);
    tile.set_brightness(300_000);
    assert_eq!(tile, lit(ElasticTileType::A, 300_000));
}

#[test]
fn fresh_tiles_are_half_open() {
    assert_eq!(ElasticTriangleTile::type_a().t(), 500_000);
    assert_eq!(ElasticTriangleTile::type_a().tile_type(), ElasticTileType::A);
    assert_eq!(ElasticTriangleTile::type_b().tile_type(), ElasticTileType::B);
    assert_eq!(ElasticTriangleTile::type_c().tile_type(), ElasticTileType::C);
    assert_eq!(ElasticTriangleTile::type_d().tile_type(), ElasticTileType::D);
    assert_eq!(ElasticTriangleTile::type_d().t(), 500_000);
}

#[test]
fn the_default_tile_is_a_fresh_a() {
    assert_eq!(ElasticTriangleTile::default(), ElasticTriangleTile::type_a());
    assert_eq!(ElasticTriangleTile::default_tile(), ElasticTriangleTile::type_a());
}

#[test]
fn the_short_name_is_the_same_tile() {
    let tile: ElasticTile = ElasticTile::type_b();
    assert_eq!(tile, ElasticTriangleTile::type_b());
}

#[test]
fn new_clamps_the_openness() {
    assert_eq!(ElasticTriangleTile::new(-3, ElasticTileType::A).t(), 0);
    assert_eq!(ElasticTriangleTile::new(UNIT + 1, ElasticTileType::A).t(), UNIT);
    assert_eq!(ElasticTriangleTile::new(123_456, ElasticTileType::A).t(), 123_456);
}

#[test]
fn identities_have_letters() {
    assert_eq!(ElasticTileType::A.to_string(), "A");
    assert_eq!(ElasticTileType::B.to_string(), "B");
    assert_eq!(ElasticTileType::C.to_string(), "C");
    assert_eq!(ElasticTileType::D.to_string(), "D");
}

#[test]
fn identities_are_numbered() {
    assert_eq!(ElasticTileType::from_index(0), ElasticTileType::A);
    assert_eq!(ElasticTileType::from_index(1), ElasticTileType::B);
    assert_eq!(ElasticTileType::from_index(2), ElasticTileType::C);
    assert_eq!(ElasticTileType::from_index(3), ElasticTileType::D);
    assert_eq!(ElasticTileType::from_index(77), ElasticTileType::D);
    assert_eq!(ElasticTriangleTile::from_index(2), ElasticTriangleTile::type_c());
}

#[test]
fn the_apex_slides_along_a_diagonal() {
    assert_eq!(ElasticTriangleTile::type_a().point(), Vec2::new(2_000_000, 2_000_000));
    assert_eq!(lit(ElasticTileType::A, 0).point(), Vec2::new(3_000_000, 1_000_000));
    assert_eq!(lit(ElasticTileType::B, 0).point(), Vec2::new(3_000_000, 3_000_000));
    assert_eq!(lit(ElasticTileType::C, 0).point(), Vec2::new(1_000_000, 3_000_000));
    assert_eq!(lit(ElasticTileType::D, 0).point(), Vec2::new(1_000_000, 1_000_000));
    assert_eq!(lit(ElasticTileType::A, 300_000).point(), Vec2::new(2_800_000, 1_200_000));
}

fn v(x: i64, y: i64) -> Vec2<i64> {
    Vec2::new(x, y)
}

#[test]
fn closed_wedges_have_their_canonical_vertices() {
    let e = EDGE;
    let u = UNIT;
    let origin = v(0, 0);
    let a = polygon_of(lit(ElasticTileType::A, 0).render(1, origin));
    assert_eq!(a.vertices, [v(e, e), v(0, e), v(0, 0), v(3 * u, u)]);
    let b = polygon_of(lit(ElasticTileType::B, 0).render(1, origin));
    assert_eq!(b.vertices, [v(0, e), v(0, 0), v(e, 0), v(3 * u, 3 * u)]);
    let c = polygon_of(lit(ElasticTileType::C, 0).render(1, origin));
    assert_eq!(c.vertices, [v(0, 0), v(e, 0), v(e, e), v(u, 3 * u)]);
    let d = polygon_of(lit(ElasticTileType::D, 0).render(1, origin));
    assert_eq!(d.vertices, [v(e, 0), v(e, e), v(0, e), v(u, u)]);
}

#[test]
fn open_wedges_have_their_canonical_vertices() {
    let e = EDGE;
    let u = UNIT;
    let origin = v(0, 0);
    let a = polygon_of(lit(ElasticTileType::A, UNIT).render(1, origin));
    assert_eq!(a.vertices, [v(e, e), v(0, e), v(0, 0), v(u, 3 * u)]);
    let b = polygon_of(lit(ElasticTileType::B, UNIT).render(1, origin));
    assert_eq!(b.vertices, [v(0, e), v(0, 0), v(e, 0), v(u, u)]);
    let c = polygon_of(lit(ElasticTileType::C, UNIT).render(1, origin));
    assert_eq!(c.vertices, [v(0, 0), v(e, 0), v(e, e), v(3 * u, u)]);
    let d = polygon_of(lit(ElasticTileType::D, UNIT).render(1, origin));
    assert_eq!(d.vertices, [v(e, 0), v(e, e), v(0, e), v(3 * u, 3 * u)]);
}

#[test]
fn extreme_wedges_do_not_depend_on_scale_or_origin() {
    let kinds = [ElasticTileType::A, ElasticTileType::B, ElasticTileType::C, ElasticTileType::D];
    for kind in kinds {
        for brightness in [0, UNIT] {
            let plain = polygon_of(lit(kind, brightness).render(1, v(0, 0)));
            for (scale, origin) in [(10u32, v(0, 0)), (3, v(-7, 1_000)), (250, v(12_345, -9))] {
                let drawn = polygon_of(lit(kind, brightness).render(scale, origin));
                for (moved, local) in drawn.vertices.iter().zip(plain.vertices.iter()) {
                    assert_eq!(moved.x() - origin.x(), local.x() * scale as i64);
                    assert_eq!(moved.y() - origin.y(), local.y() * scale as i64);
                    assert_eq!((moved.x() - origin.x()) / scale as i64, local.x());
                    assert_eq!((moved.y() - origin.y()) / scale as i64, local.y());
                }
            }
        }
    }
}

#[test]
fn a_half_open_wedge_is_a_triangle_to_the_centre() {
    let drawn = polygon_of(ElasticTriangleTile::type_a().render(10, v(0, 0)));
    assert_eq!(
        drawn.vertices,
        [v(40_000_000, 40_000_000), v(0, 40_000_000), v(0, 0), v(20_000_000, 20_000_000)]
    );
    assert_eq!(drawn.t, 500_000);
    assert_eq!(drawn.kind, ElasticTileType::A);
}

#[test]
fn rendering_scales_then_moves() {
    let drawn = polygon_of(lit(ElasticTileType::C, 300_000).render(3, v(100, -50)));
    assert_eq!(
        drawn.vertices,
        [v(100, -50), v(12_000_100, -50), v(12_000_100, 11_999_950), v(3_600_100, 8_399_950)]
    );
    assert_eq!(drawn.t, 100_000);
    assert_eq!(drawn.kind, ElasticTileType::C);
}

#[test]
fn scale_zero_draws_every_vertex_at_the_origin() {
    let drawn = polygon_of(ElasticTriangleTile::type_d().render(0, v(5, 6)));
    assert_eq!(drawn.vertices, [v(5, 6), v(5, 6), v(5, 6), v(5, 6)]);
}

#[test]
fn a_wedge_that_does_not_fit_is_not_drawn() {
    let tile = ElasticTriangleTile::type_a();
    assert_eq!(tile.render(1, v(i64::MAX - EDGE + 1, 0)), None);
    assert_eq!(tile.render(1, v(0, i64::MAX - EDGE + 1)), None);
    assert!(tile.render(1, v(i64::MAX - EDGE, i64::MAX - EDGE)).is_some());
    assert!(tile.render(u32::MAX, v(i64::MIN, i64::MIN)).is_some());
    assert_eq!(tile.render(u32::MAX, v(i64::MAX - 17_179_869_180_000_000 + 1, 0)), None);
}

#[test]
fn polygon_points_are_flattened_in_order() {
    let drawn = polygon_of(ElasticTriangleTile::type_b().render(1, v(1, 2)));
    assert_eq!(
        drawn.points(),
        vec![1, 4_000_002, 1, 2, 4_000_001, 2, 2_000_001, 2_000_002]
    );
}

#[test]
fn sampled_tiles_are_fresh() {
    for _ in 0..50 {
        let tile = ElasticTriangleTile::sample();
        assert_eq!(tile.t(), UNIT / 2);
    }
}

#[test]
fn a_thousand_samples_cover_all_identities_evenly() {
    let mut counts = [0i64; 4];
    for _ in 0..1000 {
        let slot = match ElasticTriangleTile::sample().tile_type() {
            ElasticTileType::A => 0,
            ElasticTileType::B => 1,
            ElasticTileType::C => 2,
            ElasticTileType::D => 3,
        };
        counts[slot] += 1;
    }
    assert_eq!(counts.iter().sum::<i64>(), 1000);
    let mut squares = 0i64;
    for count in counts {
        assert!(count > 0);
        squares += (count - 250) * (count - 250);
    }
    // chi-square with three degrees of freedom: squares / 250 below 30
    assert!(squares < 30 * 250, "counts {:?}", counts);
}
