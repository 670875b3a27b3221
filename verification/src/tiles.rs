use vstd::prelude::*;

use crate::hand::{valid_tile, Suite, Tile, TileValue};

verus! {

// Manzu
/// Akadora man (red 5man) tile.
pub fn akadora_man() -> (r: Tile)
    ensures
        r == (Tile { suite: Suite::Manzu, value: TileValue(0) }),
{
    Tile { suite: Suite::Manzu, value: TileValue(0) }
}

/// Ii man (1man) tile.
pub fn ii_man() -> (r: Tile)
    ensures
        r == (Tile { suite: Suite::Manzu, value: TileValue(1) }),
{
    Tile { suite: Suite::Manzu, value: TileValue(1) }
}

/// Ryan man (2man) tile.
pub fn ryan_man() -> (r: Tile)
    ensures
        r == (Tile { suite: Suite::Manzu, value: TileValue(2) }),
{
    Tile { suite: Suite::Manzu, value: TileValue(2) }
}

/// San man (3man) tile.
pub fn san_man() -> (r: Tile)
    ensures
        r == (Tile { suite: Suite::Manzu, value: TileValue(3) }),
{
    Tile { suite: Suite::Manzu, value: TileValue(3) }
}

/// Suu man (4man) tile.
pub fn suu_man() -> (r: Tile)
    ensures
        r == (Tile { suite: Suite::Manzu, value: TileValue(4) }),
{
    Tile { suite: Suite::Manzu, value: TileValue(4) }
}

/// Uu man (5man) tile.
pub fn uu_man() -> (r: Tile)
    ensures
        r == (Tile { suite: Suite::Manzu, value: TileValue(5) }),
{
    Tile { suite: Suite::Manzu, value: TileValue(5) }
}

/// Rou man (6man) tile.
pub fn rou_man() -> (r: Tile)
    ensures
        r == (Tile { suite: Suite::Manzu, value: TileValue(6) }),
{
    Tile { suite: Suite::Manzu, value: TileValue(6) }
}

/// Chii man (7man) tile.
pub fn chii_man() -> (r: Tile)
    ensures
        r == (Tile { suite: Suite::Manzu, value: TileValue(7) }),
{
    Tile { suite: Suite::Manzu, value: TileValue(7) }
}

/// Paa man (8man) tile.
pub fn paa_man() -> (r: Tile)
    ensures
        r == (Tile { suite: Suite::Manzu, value: TileValue(8) }),
{
    Tile { suite: Suite::Manzu, value: TileValue(8) }
}

/// Kyuu man (9man) tile.
pub fn kyuu_man() -> (r: Tile)
    ensures
        r == (Tile { suite: Suite::Manzu, value: TileValue(9) }),
{
    Tile { suite: Suite::Manzu, value: TileValue(9) }
}

// Pinzu
/// Akadora pin (red 5pin) tile.
pub fn akadora_pin() -> (r: Tile)
    ensures
        r == (Tile { suite: Suite::Pinzu, value: TileValue(0) }),
{
    Tile { suite: Suite::Pinzu, value: TileValue(0) }
}

/// Ii pin (1pin) tile.
pub fn ii_pin() -> (r: Tile)
    ensures
        r == (Tile { suite: Suite::Pinzu, value: TileValue(1) }),
{
    Tile { suite: Suite::Pinzu, value: TileValue(1) }
}

/// Ryan pin (2pin) tile.
pub fn ryan_pin() -> (r: Tile)
    ensures
        r == (Tile { suite: Suite::Pinzu, value: TileValue(2) }),
{
    Tile { suite: Suite::Pinzu, value: TileValue(2) }
}

/// San pin (3pin) tile.
pub fn san_pin() -> (r: Tile)
    ensures
        r == (Tile { suite: Suite::Pinzu, value: TileValue(3) }),
{
    Tile { suite: Suite::Pinzu, value: TileValue(3) }
}

/// Suu pin (4pin) tile.
pub fn suu_pin() -> (r: Tile)
    ensures
        r == (Tile { suite: Suite::Pinzu, value: TileValue(4) }),
{
    Tile { suite: Suite::Pinzu, value: TileValue(4) }
}

/// Uu pin (5pin) tile.
pub fn uu_pin() -> (r: Tile)
    ensures
        r == (Tile { suite: Suite::Pinzu, value: TileValue(5) }),
{
    Tile { suite: Suite::Pinzu, value: TileValue(5) }
}

/// Rou pin (6pin) tile.
pub fn rou_pin() -> (r: Tile)
    ensures
        r == (Tile { suite: Suite::Pinzu, value: TileValue(6) }),
{
    Tile { suite: Suite::Pinzu, value: TileValue(6) }
}

/// Chii pin (7pin) tile.
pub fn chii_pin() -> (r: Tile)
    ensures
        r == (Tile { suite: Suite::Pinzu, value: TileValue(7) }),
{
    Tile { suite: Suite::Pinzu, value: TileValue(7) }
}

/// Paa pin (8pin) tile.
pub fn paa_pin() -> (r: Tile)
    ensures
        r == (Tile { suite: Suite::Pinzu, value: TileValue(8) }),
{
    Tile { suite: Suite::Pinzu, value: TileValue(8) }
}

/// Kyuu pin (9pin) tile.
pub fn kyuu_pin() -> (r: Tile)
    ensures
        r == (Tile { suite: Suite::Pinzu, value: TileValue(9) }),
{
    Tile { suite: Suite::Pinzu, value: TileValue(9) }
}

// Souzu
/// Akadora sou (red 5sou) tile.
pub fn akadora_sou() -> (r: Tile)
    ensures
        r == (Tile { suite: Suite::Souzu, value: TileValue(0) }),
{
    Tile { suite: Suite::Souzu, value: TileValue(0) }
}

/// Ii sou (1sou) tile.
pub fn ii_sou() -> (r: Tile)
    ensures
        r == (Tile { suite: Suite::Souzu, value: TileValue(1) }),
{
    Tile { suite: Suite::Souzu, value: TileValue(1) }
}

/// Ryan sou (2sou) tile.
pub fn ryan_sou() -> (r: Tile)
    ensures
        r == (Tile { suite: Suite::Souzu, value: TileValue(2) }),
{
    Tile { suite: Suite::Souzu, value: TileValue(2) }
}

/// San sou (3sou) tile.
pub fn san_sou() -> (r: Tile)
    ensures
        r == (Tile { suite: Suite::Souzu, value: TileValue(3) }),
{
    Tile { suite: Suite::Souzu, value: TileValue(3) }
}

/// Suu sou (4sou) tile.
pub fn suu_sou() -> (r: Tile)
    ensures
        r == (Tile { suite: Suite::Souzu, value: TileValue(4) }),
{
    Tile { suite: Suite::Souzu, value: TileValue(4) }
}

/// Uu sou (5sou) tile.
pub fn uu_sou() -> (r: Tile)
    ensures
        r == (Tile { suite: Suite::Souzu, value: TileValue(5) }),
{
    Tile { suite: Suite::Souzu, value: TileValue(5) }
}

/// Rou sou (6sou) tile.
pub fn rou_sou() -> (r: Tile)
    ensures
        r == (Tile { suite: Suite::Souzu, value: TileValue(6) }),
{
    Tile { suite: Suite::Souzu, value: TileValue(6) }
}

/// Chii sou (7sou) tile.
pub fn chii_sou() -> (r: Tile)
    ensures
        r == (Tile { suite: Suite::Souzu, value: TileValue(7) }),
{
    Tile { suite: Suite::Souzu, value: TileValue(7) }
}

/// Paa sou (8sou) tile.
pub fn paa_sou() -> (r: Tile)
    ensures
        r == (Tile { suite: Suite::Souzu, value: TileValue(8) }),
{
    Tile { suite: Suite::Souzu, value: TileValue(8) }
}

/// Kyuu sou (9sou) tile.
pub fn kyuu_sou() -> (r: Tile)
    ensures
        r == (Tile { suite: Suite::Souzu, value: TileValue(9) }),
{
    Tile { suite: Suite::Souzu, value: TileValue(9) }
}

// Honors
/// Ton (east) tile.
pub fn ton() -> (r: Tile)
    ensures
        r == (Tile { suite: Suite::Honor, value: TileValue(1) }),
{
    Tile { suite: Suite::Honor, value: TileValue(1) }
}

/// Nan (south) tile.
pub fn nan() -> (r: Tile)
    ensures
        r == (Tile { suite: Suite::Honor, value: TileValue(2) }),
{
    Tile { suite: Suite::Honor, value: TileValue(2) }
}

/// Shaa (west) tile.
pub fn shaa() -> (r: Tile)
    ensures
        r == (Tile { suite: Suite::Honor, value: TileValue(3) }),
{
    Tile { suite: Suite::Honor, value: TileValue(3) }
}

/// Pei (north) tile.
pub fn pei() -> (r: Tile)
    ensures
        r == (Tile { suite: Suite::Honor, value: TileValue(4) }),
{
    Tile { suite: Suite::Honor, value: TileValue(4) }
}

/// Haku (white dragon) tile.
pub fn haku() -> (r: Tile)
    ensures
        r == (Tile { suite: Suite::Honor, value: TileValue(5) }),
{
    Tile { suite: Suite::Honor, value: TileValue(5) }
}

/// Hatsu (green dragon) tile.
pub fn hatsu() -> (r: Tile)
    ensures
        r == (Tile { suite: Suite::Honor, value: TileValue(6) }),
{
    Tile { suite: Suite::Honor, value: TileValue(6) }
}

/// Chun (red dragon) tile.
pub fn chun() -> (r: Tile)
    ensures
        r == (Tile { suite: Suite::Honor, value: TileValue(7) }),
{
    Tile { suite: Suite::Honor, value: TileValue(7) }
}

// Any
/// Any tile.
pub fn any() -> (r: Tile)
    ensures
        r == (Tile { suite: Suite::Any, value: TileValue(0) }),
{
    Tile { suite: Suite::Any, value: TileValue(0) }
}

/// The place of a valid tile in the list of all tiles: the numbered suites
/// first, each from the red five up to nine, then the honors, then the
/// unknown tile.
pub open spec fn tile_index(tile: Tile) -> int {
    match tile.suite {
        Suite::Manzu => tile.value.0 as int,
        Suite::Pinzu => 10 + tile.value.0,
        Suite::Souzu => 20 + tile.value.0,
        Suite::Honor => 29 + tile.value.0,
        Suite::Any => 37,
    }
}

/// The tile that stands at place `index` of the list of all tiles.
pub open spec fn tile_at(index: int) -> Tile {
    if index < 10 {
        Tile { suite: Suite::Manzu, value: TileValue(index as u8) }
    } else if index < 20 {
        Tile { suite: Suite::Pinzu, value: TileValue((index - 10) as u8) }
    } else if index < 30 {
        Tile { suite: Suite::Souzu, value: TileValue((index - 20) as u8) }
    } else if index < 37 {
        Tile { suite: Suite::Honor, value: TileValue((index - 29) as u8) }
    } else {
        Tile { suite: Suite::Any, value: TileValue(0) }
    }
}

/// The number of valid tiles.
pub const TILE_COUNT: usize = 38;

/// The list of all valid tiles, as a sequence.
pub open spec fn all_tiles_seq() -> Seq<Tile> {
    Seq::new(TILE_COUNT as nat, |i: int| tile_at(i))
}

/// Every valid tile stands in the list of all tiles, at its own place, and
/// every tile in the list is valid.
pub proof fn lemma_all_tiles_complete(tile: Tile)
    ensures
        valid_tile(tile.suite, tile.value) <==> (0 <= tile_index(tile) < TILE_COUNT
            && all_tiles_seq()[tile_index(tile)] == tile),
        valid_tile(tile.suite, tile.value) <==> all_tiles_seq().contains(tile),
{
    if valid_tile(tile.suite, tile.value) {
        assert(all_tiles_seq()[tile_index(tile)] == tile);
    }
    if all_tiles_seq().contains(tile) {
        let i = choose|i: int| 0 <= i < all_tiles_seq().len() && all_tiles_seq()[i] == tile;
        assert(tile == tile_at(i));
    }
}

/// A list containing all valid tiles.
pub fn all_tiles() -> (r: Vec<Tile>)
    ensures
        r@ == all_tiles_seq(),
{
    let r = vec![
        akadora_man(),
        ii_man(),
        ryan_man(),
        san_man(),
        suu_man(),
        uu_man(),
        rou_man(),
        chii_man(),
        paa_man(),
        kyuu_man(),
        akadora_pin(),
        ii_pin(),
        ryan_pin(),
        san_pin(),
        suu_pin(),
        uu_pin(),
        rou_pin(),
        chii_pin(),
        paa_pin(),
        kyuu_pin(),
        akadora_sou(),
        ii_sou(),
        ryan_sou(),
        san_sou(),
        suu_sou(),
        uu_sou(),
        rou_sou(),
        chii_sou(),
        paa_sou(),
        kyuu_sou(),
        ton(),
        nan(),
        shaa(),
        pei(),
        haku(),
        hatsu(),
        chun(),
        any(),
    ];
    assert(r@ =~= all_tiles_seq());
    r
}

} // verus!
