//! Tiles: single parametric shapes driven by one brightness-derived scalar.

pub mod circle;
pub mod traits;
pub mod triangle;

pub use self::traits::Tile;
pub use self::triangle::ElasticTileType;

use vstd::prelude::*;

verus! {

/// The wedge tile under its short name.
pub type ElasticTile = self::triangle::ElasticTriangleTile;

} // verus!
