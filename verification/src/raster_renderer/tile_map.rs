use std::collections::HashMap;

use vstd::prelude::*;
use vstd::std_specs::hash::group_hash_axioms;

use crate::hand::{Suite, Tile, TileValue};
use crate::raster_renderer::bitmap::{Image, ImageView};

verus! {

broadcast use group_hash_axioms;

/// The number that a suite is counted as in the key of a tile.
pub open spec fn suite_number(suite: Suite) -> int {
    match suite {
        Suite::Manzu => 0,
        Suite::Pinzu => 1,
        Suite::Souzu => 2,
        Suite::Honor => 3,
        Suite::Any => 4,
    }
}

/// The key under which a map of tile images holds the image of a tile:
/// 256 times the number of the suite, plus the value. Two tiles have the
/// same key only if they are the same tile.
pub open spec fn tile_key(tile: Tile) -> u16 {
    (256 * suite_number(tile.suite) + tile.value.0) as u16
}

/// The tile that has the given key.
pub open spec fn tile_of_key(key: u16) -> Tile {
    Tile {
        suite: if key < 256 {
            Suite::Manzu
        } else if key < 512 {
            Suite::Pinzu
        } else if key < 768 {
            Suite::Souzu
        } else if key < 1024 {
            Suite::Honor
        } else {
            Suite::Any
        },
        value: TileValue((key % 256) as u8),
    }
}

/// The number of keys that tiles can have.
pub const TILE_KEYS: u16 = 1280;

/// Every tile is the tile of its key, and its key is below the number of
/// keys.
pub proof fn lemma_tile_key(tile: Tile)
    ensures
        tile_of_key(tile_key(tile)) == tile,
        tile_key(tile) < TILE_KEYS,
{
}

/// Every key below the number of keys is the key of its tile.
pub proof fn lemma_key_of_tile(key: u16)
    requires
        key < TILE_KEYS,
    ensures
        tile_key(tile_of_key(key)) == key,
{
}

/// The key of a tile.
fn key_of(tile: &Tile) -> (r: u16)
    ensures
        r == tile_key(*tile),
{
    let suite: u16 = match tile.suite {
        Suite::Manzu => 0,
        Suite::Pinzu => 1,
        Suite::Souzu => 2,
        Suite::Honor => 3,
        Suite::Any => 4,
    };
    256 * suite + tile.value.0 as u16
}

/// A map from tiles to their images.
#[derive(Debug)]
pub struct TileMap {
    images: HashMap<u16, Image>,
}

impl View for TileMap {
    type V = Map<Tile, ImageView>;

    closed spec fn view(&self) -> Map<Tile, ImageView> {
        Map::new(
            |tile: Tile| self.images@.contains_key(tile_key(tile)),
            |tile: Tile| self.images@[tile_key(tile)]@,
        )
    }
}

impl TileMap {
    /// Creates an empty map.
    pub fn new() -> (r: Self)
        ensures
            r@ == Map::<Tile, ImageView>::empty(),
    {
        let r = TileMap { images: HashMap::new() };
        assert(r@ =~= Map::<Tile, ImageView>::empty());
        r
    }

    /// Puts the image of a tile into the map, in place of the image that
    /// the map had for the tile, if it had one. Returns that image.
    pub fn insert(&mut self, tile: Tile, image: Image) -> (r: Option<Image>)
        ensures
            final(self)@ == old(self)@.insert(tile, image@),
            match r {
                Some(before) => old(self)@.contains_key(tile) && before@ == old(self)@[tile],
                None => !old(self)@.contains_key(tile),
            },
    {
        let r = self.images.insert(key_of(&tile), image);
        proof {
            assert forall|other: Tile| tile_key(other) == tile_key(tile) implies other == tile by {
                lemma_tile_key(other);
                lemma_tile_key(tile);
            }
            assert(final(self)@ =~= old(self)@.insert(tile, image@));
        }
        r
    }

    /// Whether the map has an image for the tile.
    pub fn contains_key(&self, tile: &Tile) -> (r: bool)
        ensures
            r == self@.contains_key(*tile),
    {
        let key = key_of(tile);
        self.images.contains_key(&key)
    }

    /// The image that the map has for the tile, if it has one.
    pub fn get(&self, tile: &Tile) -> (r: Option<&Image>)
        ensures
            match r {
                Some(image) => self@.contains_key(*tile) && image@ == self@[*tile],
                None => !self@.contains_key(*tile),
            },
    {
        let key = key_of(tile);
        self.images.get(&key)
    }

    /// The image of the tile with the given key, if the map has one.
    pub(crate) fn get_by_key(&self, key: u16) -> (r: Option<&Image>)
        requires
            key < TILE_KEYS,
        ensures
            match r {
                Some(image) => self@.contains_key(tile_of_key(key)) && image@
                    == self@[tile_of_key(key)],
                None => !self@.contains_key(tile_of_key(key)),
            },
    {
        proof {
            lemma_key_of_tile(key);
        }
        self.images.get(&key)
    }
}

} // verus!
