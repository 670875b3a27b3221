use vstd::prelude::*;

pub use bitmap::{
    buffer_len, flipped_data, overlaid, rotated_data, sample, Image, ImageView, CHANNELS,
};
pub use layout::{
    group_end, group_height, group_offset, group_width, image_height, image_width, layout_fits,
    lemma_group_ends_grow, lemma_group_not_negative, lemma_group_within_height,
    lemma_tile_ends_grow, lemma_tile_within_height, placed_height, placed_width, stacked,
    tile_end, tile_offset, RenderGaps, TileSize,
};

pub use renderer::{
    all_tiles_valid, drawn_groups, drawn_tiles, lemma_group_error_stays,
    lemma_tile_error_stays, render_defined, rendered, size_of, tile_corner,
    tile_extent, HandRenderError, HandRenderResult, ImageType, RasterRenderer,
};
pub use tile_map::{
    lemma_key_of_tile, lemma_tile_key, suite_number, tile_key, tile_of_key, TileMap, TILE_KEYS,
};
pub use tile_set::{
    all_of_size, any_tile, creation_error, first_missing_tile, lemma_none_missing,
    turned, turned_background, SimpleTileSet, TileImageResult, TileImageRetrieveError, TileSet,
    TileSetCreationError, TwoPartTileSet,
};

mod bitmap;
mod layout;
mod renderer;
mod tile_map;
mod tile_set;

verus! {

} // verus!
