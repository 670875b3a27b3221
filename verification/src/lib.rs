//! A collection of utilities for working with Riichi Mahjong player hands.
//!
//! This includes:
//! * a hand representation object,
//! * a parser that creates a hand from a human-readable string, such as
//!   `123m456p_7*77z`,
//! * a renderer that draws a hand to a raster image with the tile images of
//!   a tile set,
//! * the scoring engine that turns han, fu and honbas into payments.
pub use hand::{
    group_views, honor_name, numeral_name, tile_name, valid_tile, Hand, HandGroup, HandTile,
    InvalidTileError, Suite, Tile, TilePlacement, TileValue,
};

mod hand;

/// Hand parser that is able to convert string representation of a hand (e.g.
/// `123m456p_7*77z`) into [Hand] instance.
pub mod parser;

/// The scoring engine: from han, fu and honbas to the points that are paid.
pub mod points;

/// Module that renders [Hand] instance into raster images.
pub mod raster_renderer;

/// Decimal notation of integers, for the texts that the values of the
/// library are shown with.
pub mod text;

/// Functions that give the valid tiles.
pub mod tiles;
