//! Truchet tilings of grayscale pictures, in exact fixed-point arithmetic.
//!
//! A brightness source is cut into rectangular blocks; each block's mean
//! brightness sets the shape parameter of every tile in one copy of a small
//! tile arrangement; the copies are laid out on a grid and rendered as a
//! sequence of positioned shapes.
//!
//! Brightness and openness are counted in millionths ([`tile::traits::UNIT`]
//! stands for 1). Coordinates are whole numbers of [`shape::EDGE`]-ths of the
//! unit in which the caller gives the scale.

pub mod generator;
pub mod image;
pub mod shape;
pub mod tile;
pub mod truchet_image;
pub mod vec2;
