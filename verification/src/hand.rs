use vstd::prelude::*;

use crate::text::{decimal, decimal_string};

verus! {

/// Tile suite, or Any (if used with an unknown tile).
#[derive(Copy, Clone, Debug, Ord, PartialOrd, Eq, PartialEq, Hash, Structural)]
pub enum Suite {
    /// Manzu (characters).
    Manzu,
    /// Pinzu (circles).
    Pinzu,
    /// Souzu (bamboos).
    Souzu,
    /// Honors (winds and dragons).
    Honor,
    /// Any tile (no suite).
    Any,
}

impl Suite {
    /// The name of the suite.
    pub open spec fn name(self) -> Seq<char> {
        match self {
            Suite::Manzu => "Manzu"@,
            Suite::Pinzu => "Pinzu"@,
            Suite::Souzu => "Souzu"@,
            Suite::Honor => "Honor"@,
            Suite::Any => "Any"@,
        }
    }

    /// Returns the name of the suite, which is the text it is shown with.
    pub fn to_string(&self) -> (r: String)
        ensures
            r@ == self.name(),
    {
        match self {
            Suite::Manzu => String::from_str("Manzu"),
            Suite::Pinzu => String::from_str("Pinzu"),
            Suite::Souzu => String::from_str("Souzu"),
            Suite::Honor => String::from_str("Honor"),
            Suite::Any => String::from_str("Any"),
        }
    }
}

/// A value of a tile:
/// * 1..9 for number tiles (manzu, pinzu, souzu), or 0 (which means red five),
/// * 1..7 for honor tiles (winds, then dragons),
/// * 0 for Any tile.
#[derive(Copy, Clone, Default, Debug, Ord, PartialOrd, Eq, PartialEq, Hash, Structural)]
pub struct TileValue(pub u8);

impl From<TileValue> for usize {
    fn from(value: TileValue) -> (r: Self) {
        value.0 as usize
    }
}

impl vstd::std_specs::convert::FromSpecImpl<TileValue> for usize {
    open spec fn obeys_from_spec() -> bool {
        true
    }

    open spec fn from_spec(value: TileValue) -> Self {
        value.0 as usize
    }
}

impl TileValue {
    /// Returns the value in decimal notation, which is the text it is shown
    /// with.
    pub fn to_string(&self) -> (r: String)
        ensures
            r@ == decimal(self.0 as int),
    {
        decimal_string(self.0 as i128)
    }
}

/// The name of a numbered tile's value: the red five for 0, then one to nine.
pub open spec fn numeral_name(value: TileValue) -> Seq<char> {
    match value.0 {
        0 => "Akadora"@,
        1 => "Ii"@,
        2 => "Ryan"@,
        3 => "San"@,
        4 => "Suu"@,
        5 => "Uu"@,
        6 => "Rou"@,
        7 => "Chii"@,
        8 => "Paa"@,
        _ => "Kyuu"@,
    }
}

/// The name of an honor tile: the four winds, then the three dragons.
pub open spec fn honor_name(value: TileValue) -> Seq<char> {
    match value.0 {
        1 => "Ton"@,
        2 => "Nan"@,
        3 => "Shaa"@,
        4 => "Pei"@,
        5 => "Haku"@,
        6 => "Hatsu"@,
        _ => "Chun"@,
    }
}

/// The human-readable name of a valid tile.
pub open spec fn tile_name(tile: Tile) -> Seq<char> {
    match tile.suite {
        Suite::Manzu => numeral_name(tile.value) + " man"@,
        Suite::Pinzu => numeral_name(tile.value) + " pin"@,
        Suite::Souzu => numeral_name(tile.value) + " sou"@,
        Suite::Honor => honor_name(tile.value),
        Suite::Any => "Any"@,
    }
}

/// The name of the value of a numbered tile.
fn numeral_text(value: TileValue) -> (r: &'static str)
    ensures
        r@ == numeral_name(value),
{
    match value.0 {
        0 => "Akadora",
        1 => "Ii",
        2 => "Ryan",
        3 => "San",
        4 => "Suu",
        5 => "Uu",
        6 => "Rou",
        7 => "Chii",
        8 => "Paa",
        _ => "Kyuu",
    }
}

/// The name of an honor tile.
fn honor_text(value: TileValue) -> (r: &'static str)
    ensures
        r@ == honor_name(value),
{
    match value.0 {
        1 => "Ton",
        2 => "Nan",
        3 => "Shaa",
        4 => "Pei",
        5 => "Haku",
        6 => "Hatsu",
        _ => "Chun",
    }
}

/// Tile representation (suite and value).
#[derive(Copy, Clone, Debug, Ord, PartialOrd, Eq, PartialEq, Hash, Structural)]
pub struct Tile {
    /// Suite of the tile.
    pub suite: Suite,
    /// Value of the tile.
    pub value: TileValue,
}

/// Error that denotes that a user tried to create an invalid tile.
#[derive(Debug, Copy, Clone)]
pub struct InvalidTileError {
    /// Requested tile suite.
    pub suite: Suite,
    /// Requested tile value.
    pub value: TileValue,
}

/// Whether `value` is one of the values that a tile of `suite` can have.
pub open spec fn valid_tile(suite: Suite, value: TileValue) -> bool {
    match suite {
        Suite::Manzu | Suite::Pinzu | Suite::Souzu => value.0 <= 9,
        Suite::Honor => 1 <= value.0 <= 7,
        Suite::Any => value.0 == 0,
    }
}

impl InvalidTileError {
    /// Returns a new [InvalidTileError] object.
    pub fn new(suite: Suite, value: TileValue) -> (r: Self)
        ensures
            r == (InvalidTileError { suite, value }),
    {
        Self { suite, value }
    }

    /// The message of the error.
    pub open spec fn message(self) -> Seq<char> {
        "invalid value: "@ + decimal(self.value.0 as int) + " for suite: "@ + self.suite.name()
    }

    /// Returns the message of the error, which names the value and the
    /// suite that were asked for.
    pub fn to_string(&self) -> (r: String)
        ensures
            r@ == self.message(),
    {
        let mut text = String::from_str("invalid value: ");
        text.append(self.value.to_string().as_str());
        text.append(" for suite: ");
        text.append(self.suite.to_string().as_str());
        text
    }
}

impl Tile {
    /// Creates a new tile with given suite and value.
    ///
    /// Returns an error if the provided suite-value pair is not valid.
    pub fn new(suite: Suite, value: TileValue) -> (r: Result<Tile, InvalidTileError>)
        ensures
            valid_tile(suite, value) ==> r == Ok::<Tile, InvalidTileError>(Tile { suite, value }),
            !valid_tile(suite, value) ==> r == Err::<Tile, InvalidTileError>(
                InvalidTileError { suite, value },
            ),
    {
        let tile = Self { suite, value };
        if tile.is_valid() {
            Ok(tile)
        } else {
            Err(InvalidTileError::new(suite, value))
        }
    }

    /// Whether the suite of the tile has a tile of its value.
    pub fn is_valid(&self) -> (r: bool)
        ensures
            r == valid_tile(self.suite, self.value),
    {
        match self.suite {
            Suite::Manzu | Suite::Pinzu | Suite::Souzu => self.value.0 <= 9,
            Suite::Honor => 1 <= self.value.0 && self.value.0 <= 7,
            Suite::Any => self.value.0 == 0,
        }
    }

    /// Returns human-readable name of the tile.
    pub fn name(&self) -> (r: String)
        requires
            valid_tile(self.suite, self.value),
        ensures
            r@ == tile_name(*self),
    {
        match self.suite {
            Suite::Manzu => String::from_str(numeral_text(self.value)).concat(" man"),
            Suite::Pinzu => String::from_str(numeral_text(self.value)).concat(" pin"),
            Suite::Souzu => String::from_str(numeral_text(self.value)).concat(" sou"),
            Suite::Honor => String::from_str(honor_text(self.value)),
            Suite::Any => String::from_str("Any"),
        }
    }

    /// Returns the name of the tile, which is the text it is shown with.
    pub fn to_string(&self) -> (r: String)
        requires
            valid_tile(self.suite, self.value),
        ensures
            r@ == tile_name(*self),
    {
        self.name()
    }
}

/// Representation of a tile placement:
/// * `Normal`, for closed groups and tiles in open groups that are not rotated,
/// * `Rotated` for the rotated tiles in open groups,
/// * `RotatedAndShifted` for shouminkans ("added kans").
#[derive(Copy, Clone, Debug, Ord, PartialOrd, Eq, PartialEq, Hash, Structural)]
pub enum TilePlacement {
    /// A tile that is not rotated.
    Normal,
    /// A tile that is rotated in an open group.
    Rotated,
    /// A rotated and shifted tile that is a part of a shouminkan.
    RotatedAndShifted,
}

impl TilePlacement {
    /// The placement that follows `self` in the cycle
    /// normal => rotated => rotated and shifted => normal.
    pub open spec fn successor(self) -> TilePlacement {
        match self {
            TilePlacement::Normal => TilePlacement::Rotated,
            TilePlacement::Rotated => TilePlacement::RotatedAndShifted,
            TilePlacement::RotatedAndShifted => TilePlacement::Normal,
        }
    }

    /// Returns next placement option in order, i.e. normal => rotated => rotated and shifted
    /// => normal.
    pub fn next(&self) -> (r: TilePlacement)
        ensures
            r == self.successor(),
    {
        match self {
            TilePlacement::Normal => TilePlacement::Rotated,
            TilePlacement::Rotated => TilePlacement::RotatedAndShifted,
            TilePlacement::RotatedAndShifted => TilePlacement::Normal,
        }
    }
}

/// Representation of a tile on a hand (tile and rotation).
#[derive(Copy, Clone, Debug, Ord, PartialOrd, Eq, PartialEq, Hash, Structural)]
pub struct HandTile {
    /// Specific tile.
    pub tile: Tile,
    /// Whether the tile is rotated or not.
    pub placement: TilePlacement,
}

impl HandTile {
    /// Returns new hand tile using given tile object and placement.
    pub fn new(tile: Tile, placement: TilePlacement) -> (r: Self)
        ensures
            r == (HandTile { tile, placement }),
    {
        Self { tile, placement }
    }

    /// The text that a hand tile with a valid tile is shown with: how it is
    /// turned, if it is, then the name of the tile.
    pub open spec fn text(self) -> Seq<char> {
        match self.placement {
            TilePlacement::Normal => tile_name(self.tile),
            TilePlacement::Rotated => "rotated "@ + tile_name(self.tile),
            TilePlacement::RotatedAndShifted => "rotated and shifted "@ + tile_name(self.tile),
        }
    }

    /// Returns the text that the hand tile is shown with.
    pub fn to_string(&self) -> (r: String)
        requires
            valid_tile(self.tile.suite, self.tile.value),
        ensures
            r@ == self.text(),
    {
        match self.placement {
            TilePlacement::Normal => self.tile.name(),
            TilePlacement::Rotated => String::from_str("rotated ").concat(
                self.tile.name().as_str(),
            ),
            TilePlacement::RotatedAndShifted => String::from_str("rotated and shifted ").concat(
                self.tile.name().as_str(),
            ),
        }
    }
}

/// A group consists of a list of hand tiles (tiles and their placements).
pub type HandGroup = Vec<HandTile>;

/// The groups of a hand as sequences of hand tiles.
pub open spec fn group_views(groups: Seq<HandGroup>) -> Seq<Seq<HandTile>> {
    groups.map_values(|group: HandGroup| group@)
}

/// Hand object representation.
///
/// A hand consists of a number of tile groups. Note that an empty group is valid.
#[derive(Clone, Debug, Eq, PartialEq, Hash)]
pub struct Hand {
    groups: Vec<HandGroup>,
}

impl View for Hand {
    type V = Seq<Seq<HandTile>>;

    /// The groups of the hand, in order, each with its hand tiles in order.
    closed spec fn view(&self) -> Seq<Seq<HandTile>> {
        group_views(self.groups@)
    }
}

impl Hand {
    /// Returns a new hand representation object using given groups.
    pub fn new(groups: Vec<HandGroup>) -> (r: Self)
        ensures
            r@ == group_views(groups@),
    {
        Self { groups }
    }

    /// Return groups stored in this hand.
    pub fn groups(&self) -> (r: &Vec<HandGroup>)
        ensures
            group_views(r@) == self@,
    {
        &self.groups
    }

    /// Returns the hand tile objects in this hand (ignoring groups).
    pub fn hand_tiles(&self) -> (r: Vec<HandTile>)
        ensures
            r@ == self@.flatten(),
    {
        let mut result: Vec<HandTile> = Vec::new();
        let mut i: usize = 0;
        while i < self.groups.len()
            invariant
                i <= self.groups.len(),
                result@ == self@.take(i as int).flatten(),
            decreases self.groups.len() - i,
        {
            let group = &self.groups[i];
            let ghost before = result@;
            let mut j: usize = 0;
            while j < group.len()
                invariant
                    j <= group.len(),
                    result@ == before + group@.take(j as int),
                decreases group.len() - j,
            {
                result.push(group[j]);
                assert(group@.take(j as int + 1) =~= group@.take(j as int).push(group@[j as int]));
                j += 1;
            }
            proof {
                assert(group@.take(j as int) =~= group@);
                assert(self@[i as int] == group@);
                assert(self@.take(i as int + 1) =~= self@.take(i as int).push(group@));
                self@.take(i as int).lemma_flatten_push(group@);
            }
            i += 1;
        }
        assert(self@.take(i as int) =~= self@);
        result
    }

    /// Returns the tiles in this hand (ignoring groups and tile placements).
    pub fn tiles(&self) -> (r: Vec<Tile>)
        ensures
            r@ == self@.flatten().map_values(|hand_tile: HandTile| hand_tile.tile),
    {
        let hand_tiles = self.hand_tiles();
        let mut result: Vec<Tile> = Vec::new();
        let mut i: usize = 0;
        while i < hand_tiles.len()
            invariant
                i <= hand_tiles.len(),
                result@ == hand_tiles@.take(i as int).map_values(
                    |hand_tile: HandTile| hand_tile.tile,
                ),
            decreases hand_tiles.len() - i,
        {
            result.push(hand_tiles[i].tile);
            assert(hand_tiles@.take(i as int + 1) =~= hand_tiles@.take(i as int).push(
                hand_tiles@[i as int],
            ));
            assert(result@ =~= hand_tiles@.take(i as int + 1).map_values(
                |hand_tile: HandTile| hand_tile.tile,
            ));
            i += 1;
        }
        assert(hand_tiles@.take(i as int) =~= hand_tiles@);
        result
    }
}

} // verus!
