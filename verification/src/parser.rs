use vstd::prelude::*;

use crate::hand::{
    group_views, valid_tile, Hand, HandGroup, HandTile, InvalidTileError, Suite, Tile,
    TilePlacement, TileValue,
};
use crate::text::{decimal, decimal_string};
use crate::tiles::{any, chun, haku, hatsu, nan, pei, shaa, ton};

verus! {

/// Type of an error occurred when parsing hand.
#[derive(Copy, Clone, Debug, Ord, PartialOrd, Eq, PartialEq, Hash, Structural)]
pub enum HandParseErrorType {
    /// Invalid character provided (e.g. `X`, or `@`).
    InvalidCharacter,
    /// Invalid tile value provided (e.g. `9z`).
    InvalidValue,
    /// Some tile values without any suite are left at the end of the string
    /// (e.g. `123m456`).
    UnfinishedSuite,
    /// Position modifier was used without any tile to modify (e.g. `**123m`).
    PositionModifierWithNoTile,
}

impl HandParseErrorType {
    /// The message of the error type.
    pub open spec fn message(self) -> Seq<char> {
        match self {
            HandParseErrorType::InvalidCharacter => "invalid character"@,
            HandParseErrorType::InvalidValue => "invalid tile value"@,
            HandParseErrorType::UnfinishedSuite => "tile suite not finished"@,
            HandParseErrorType::PositionModifierWithNoTile => {
                "position modifier does not have any tile to modify"@
            },
        }
    }

    /// The text of the message.
    fn message_text(&self) -> (r: &'static str)
        ensures
            r@ == self.message(),
    {
        match self {
            HandParseErrorType::InvalidCharacter => "invalid character",
            HandParseErrorType::InvalidValue => "invalid tile value",
            HandParseErrorType::UnfinishedSuite => "tile suite not finished",
            HandParseErrorType::PositionModifierWithNoTile => {
                "position modifier does not have any tile to modify"
            },
        }
    }

    /// Returns the message of the error type.
    pub fn to_string(&self) -> (r: String)
        ensures
            r@ == self.message(),
    {
        String::from_str(self.message_text())
    }

}

impl From<InvalidTileError> for HandParseErrorType {
    fn from(error: InvalidTileError) -> (r: Self) {
        HandParseErrorType::InvalidValue
    }
}

impl vstd::std_specs::convert::FromSpecImpl<InvalidTileError> for HandParseErrorType {
    open spec fn obeys_from_spec() -> bool {
        true
    }

    open spec fn from_spec(error: InvalidTileError) -> Self {
        HandParseErrorType::InvalidValue
    }
}

/// Represents an error that occurred when parsing a hand.
#[derive(Copy, Clone, Debug, Eq, PartialEq, Hash, Structural)]
pub struct HandParseError {
    /// Position (starting from character 0) where the error occurred.
    position: usize,
    /// Type of the error.
    error_type: HandParseErrorType,
}

impl HandParseError {
    /// The position (starting from character 0) where the error occurred.
    pub closed spec fn position(self) -> usize {
        self.position
    }

    /// The type of the error.
    pub closed spec fn error_type(self) -> HandParseErrorType {
        self.error_type
    }

    /// The error of the given type at the given position.
    pub closed spec fn at(position: usize, error_type: HandParseErrorType) -> Self {
        HandParseError { position, error_type }
    }

    /// An error is made of its position and its type.
    pub proof fn lemma_at(position: usize, error_type: HandParseErrorType)
        ensures
            Self::at(position, error_type).position() == position,
            Self::at(position, error_type).error_type() == error_type,
    {
    }

    /// Two errors at the same position and of the same type are the same.
    pub proof fn lemma_same(self, other: Self)
        ensures
            self == other <==> self.position() == other.position() && self.error_type()
                == other.error_type(),
    {
    }

    /// Creates a new [HandParseError] instance.
    #[verifier::when_used_as_spec(at)]
    pub fn new(position: usize, error_type: HandParseErrorType) -> (r: Self)
        ensures
            r == Self::at(position, error_type),
            r.position() == position,
            r.error_type() == error_type,
    {
        Self { position, error_type }
    }

    /// The message of the error.
    pub open spec fn message(self) -> Seq<char> {
        "error when parsing hand at position "@ + decimal(self.position() as int) + ": "@
            + self.error_type().message()
    }

    /// Returns the message of the error, which names the position and the
    /// type of the error.
    pub fn to_string(&self) -> (r: String)
        ensures
            r@ == self.message(),
    {
        let mut text = String::from_str("error when parsing hand at position ");
        text.append(decimal_string(self.position as i128).as_str());
        text.append(": ");
        text.append(self.error_type.message_text());
        text
    }
}

/// A tile that the parser has read and not yet put into a group: its
/// suite, where it is known already, its value and its placement.
pub type PendingTile = (Option<Suite>, TileValue, TilePlacement);

/// What the parser has read so far: the groups, the last of which is the
/// one being filled, and the tiles that have not been put into it yet.
pub struct ParserState {
    /// The groups, in order. There is always at least one.
    pub groups: Seq<Seq<HandTile>>,
    /// The tiles read after the last suite character or group separator.
    pub pending: Seq<PendingTile>,
}

/// The state before any character: one empty group and no pending tile.
pub open spec fn initial_state() -> ParserState {
    ParserState { groups: seq![Seq::<HandTile>::empty()], pending: Seq::empty() }
}

/// The tile value that a digit stands for.
pub open spec fn digit_value(c: char) -> Option<TileValue> {
    if '0' <= c <= '9' {
        Some(TileValue((c as int - '0' as int) as u8))
    } else {
        None
    }
}

/// The suite that a suite character stands for.
pub open spec fn suite_of(c: char) -> Option<Suite> {
    if c == 'm' {
        Some(Suite::Manzu)
    } else if c == 'p' {
        Some(Suite::Pinzu)
    } else if c == 's' {
        Some(Suite::Souzu)
    } else if c == 'z' {
        Some(Suite::Honor)
    } else {
        None
    }
}

/// The tile that a special symbol stands for: a wind, a dragon or the
/// unknown tile.
pub open spec fn special_tile(c: char) -> Option<Tile> {
    if c == 'E' {
        Some(Tile { suite: Suite::Honor, value: TileValue(1) })
    } else if c == 'S' {
        Some(Tile { suite: Suite::Honor, value: TileValue(2) })
    } else if c == 'W' {
        Some(Tile { suite: Suite::Honor, value: TileValue(3) })
    } else if c == 'N' {
        Some(Tile { suite: Suite::Honor, value: TileValue(4) })
    } else if c == 'w' {
        Some(Tile { suite: Suite::Honor, value: TileValue(5) })
    } else if c == 'g' {
        Some(Tile { suite: Suite::Honor, value: TileValue(6) })
    } else if c == 'r' {
        Some(Tile { suite: Suite::Honor, value: TileValue(7) })
    } else if c == '?' {
        Some(Tile { suite: Suite::Any, value: TileValue(0) })
    } else {
        None
    }
}

/// Whether the character turns the tile before it.
pub open spec fn is_position_modifier(c: char) -> bool {
    c == '*' || c == '\''
}

/// Whether the character ends a group.
pub open spec fn is_group_separator(c: char) -> bool {
    c == '_'
}

/// Why a pending tile cannot be put into a group, if it cannot: its suite
/// is not known, or the suite has no tile of its value.
pub open spec fn pending_error(pending: PendingTile) -> Option<HandParseErrorType> {
    match pending.0 {
        None => Some(HandParseErrorType::UnfinishedSuite),
        Some(suite) => if valid_tile(suite, pending.1) {
            None
        } else {
            Some(HandParseErrorType::InvalidValue)
        },
    }
}

/// The error of the first pending tile that cannot be put into a group,
/// if there is one.
pub open spec fn first_pending_error(pending: Seq<PendingTile>) -> Option<HandParseErrorType>
    decreases pending.len(),
{
    if pending.len() == 0 {
        None
    } else if pending_error(pending[0]) is Some {
        pending_error(pending[0])
    } else {
        first_pending_error(pending.drop_first())
    }
}

/// The hand tile that a pending tile with a known suite becomes.
pub open spec fn placed(pending: PendingTile) -> HandTile {
    HandTile { tile: Tile { suite: pending.0->0, value: pending.1 }, placement: pending.2 }
}

/// The groups with the hand tiles of `pending` added to the last group.
pub open spec fn with_tiles(groups: Seq<Seq<HandTile>>, pending: Seq<PendingTile>) -> Seq<
    Seq<HandTile>,
> {
    groups.update(
        groups.len() - 1,
        groups.last() + pending.map_values(|tile: PendingTile| placed(tile)),
    )
}

/// The state after the pending tiles were put into the last group, in the
/// order in which they were read, or the error of the first that cannot be.
pub open spec fn flushed(state: ParserState) -> Result<ParserState, HandParseErrorType> {
    match first_pending_error(state.pending) {
        Some(error) => Err(error),
        None => Ok(
            ParserState {
                groups: with_tiles(state.groups, state.pending),
                pending: Seq::empty(),
            },
        ),
    }
}

/// The pending tile with `suite` for its suite, unless it has one already.
pub open spec fn with_suite(pending: PendingTile, suite: Suite) -> PendingTile {
    (
        Some(
            match pending.0 {
                Some(known) => known,
                None => suite,
            },
        ),
        pending.1,
        pending.2,
    )
}

/// The state after one more character, or the error that the character
/// gives.
///
/// * A digit is a new pending tile of that value, not turned, of a suite
///   that is not known yet.
/// * A suite character gives its suite to the pending tiles that have none,
///   and the pending tiles are put into the last group.
/// * A special symbol is a new pending tile, not turned.
/// * A position modifier turns the last pending tile once more; without a
///   pending tile it is an error.
/// * A group separator puts the pending tiles into the last group and
///   starts a new, empty group.
/// * Any other character is an error.
pub open spec fn step(state: ParserState, c: char) -> Result<ParserState, HandParseErrorType> {
    if let Some(value) = digit_value(c) {
        Ok(
            ParserState {
                pending: state.pending.push((None, value, TilePlacement::Normal)),
                ..state
            },
        )
    } else if let Some(suite) = suite_of(c) {
        flushed(
            ParserState {
                pending: state.pending.map_values(|tile: PendingTile| with_suite(tile, suite)),
                ..state
            },
        )
    } else if let Some(tile) = special_tile(c) {
        Ok(
            ParserState {
                pending: state.pending.push((Some(tile.suite), tile.value, TilePlacement::Normal)),
                ..state
            },
        )
    } else if is_position_modifier(c) {
        if state.pending.len() == 0 {
            Err(HandParseErrorType::PositionModifierWithNoTile)
        } else {
            let last = state.pending.last();
            Ok(
                ParserState {
                    pending: state.pending.update(
                        state.pending.len() - 1,
                        (last.0, last.1, last.2.successor()),
                    ),
                    ..state
                },
            )
        }
    } else if is_group_separator(c) {
        match flushed(state) {
            Ok(next) => Ok(ParserState { groups: next.groups.push(Seq::empty()), ..next }),
            Err(error) => Err(error),
        }
    } else {
        Err(HandParseErrorType::InvalidCharacter)
    }
}

/// The state after the first `count` characters of `input`, or the first
/// error with the position of the character that gave it.
pub open spec fn state_after(input: Seq<char>, count: nat) -> Result<
    ParserState,
    (nat, HandParseErrorType),
>
    decreases count,
{
    if count == 0 {
        Ok(initial_state())
    } else {
        match state_after(input, (count - 1) as nat) {
            Err(error) => Err(error),
            Ok(state) => match step(state, input[count - 1]) {
                Ok(next) => Ok(next),
                Err(error_type) => Err(((count - 1) as nat, error_type)),
            },
        }
    }
}

/// The groups of the hand that `input` stands for, or the first error with
/// its position. Tiles that are still pending at the end are put into the
/// last group; an error of theirs has the position after the last
/// character.
pub open spec fn parsed_hand(input: Seq<char>) -> Result<
    Seq<Seq<HandTile>>,
    (nat, HandParseErrorType),
> {
    match state_after(input, input.len()) {
        Err(error) => Err(error),
        Ok(state) => match flushed(state) {
            Ok(end) => Ok(end.groups),
            Err(error_type) => Err((input.len(), error_type)),
        },
    }
}

/// Once a character has given an error, reading on changes nothing.
pub proof fn lemma_error_stays(input: Seq<char>, count: nat, later: nat)
    requires
        count <= later,
        state_after(input, count) is Err,
    ensures
        state_after(input, later) == state_after(input, count),
    decreases later,
{
    if count < later {
        lemma_error_stays(input, count, (later - 1) as nat);
    }
}

/// Putting the pending tiles into the last group keeps the number of
/// groups, and so does every character but the group separator, which adds
/// one group.
pub proof fn lemma_step_groups(state: ParserState, c: char)
    requires
        state.groups.len() > 0,
    ensures
        flushed(state) matches Ok(next) ==> next.groups.len() == state.groups.len(),
        step(state, c) matches Ok(next) ==> next.groups.len() == state.groups.len() + if c
            == '_' {
            1int
        } else {
            0int
        },
{
}

/// A hand that was read has one group more than the input has group
/// separators, so at least one.
pub proof fn lemma_groups_of_parsed_hand(input: Seq<char>)
    ensures
        parsed_hand(input) matches Ok(groups) ==> groups.len() == 1 + input.filter(
            |c: char| is_group_separator(c),
        ).len(),
{
    if parsed_hand(input) is Ok {
        lemma_groups_after(input, input.len());
        lemma_step_groups(state_after(input, input.len())->Ok_0, '_');
        assert(input.take(input.len() as int) =~= input);
    }
}

/// After the first `count` characters there is one group more than there
/// are group separators among them.
proof fn lemma_groups_after(input: Seq<char>, count: nat)
    requires
        count <= input.len(),
    ensures
        state_after(input, count) matches Ok(state) ==> state.groups.len() == 1 + input.take(
            count as int,
        ).filter(|c: char| is_group_separator(c)).len(),
    decreases count,
{
    let separator = |c: char| is_group_separator(c);
    if count == 0 {
        assert(input.take(0) =~= Seq::<char>::empty());
        assert(Seq::<char>::empty().filter(separator) =~= Seq::<char>::empty()) by {
            reveal(Seq::filter);
        }
    } else if state_after(input, count) is Ok {
        let before = (count - 1) as nat;
        lemma_groups_after(input, before);
        lemma_step_groups(state_after(input, before)->Ok_0, input[count - 1]);
        assert(input.take(count as int).drop_last() =~= input.take(before as int));
        assert(input.take(count as int).last() == input[count - 1]);
        reveal(Seq::filter);
    }
}

/// The position of an error is that of a character of the input, or the
/// one after the last character.
pub proof fn lemma_error_position(input: Seq<char>)
    ensures
        parsed_hand(input) matches Err(error) ==> error.0 <= input.len(),
{
    lemma_error_position_after(input, input.len());
}

/// An error among the first `count` characters has the position of one of
/// them.
proof fn lemma_error_position_after(input: Seq<char>, count: nat)
    ensures
        state_after(input, count) matches Err(error) ==> error.0 < count,
    decreases count,
{
    if count > 0 {
        lemma_error_position_after(input, (count - 1) as nat);
    }
}

/// The result of one step of the parser.
pub type HandParseResult = Result<(), HandParseErrorType>;

/// A parser that converts string representation of a hand to Hand objects
#[derive(Debug)]
pub struct HandParser {
    groups: Vec<HandGroup>,
    // data of the newly encountered tiles that we may not know the suite of yet
    new_tiles: Vec<PendingTile>,
}

impl View for HandParser {
    type V = ParserState;

    closed spec fn view(&self) -> ParserState {
        ParserState { groups: group_views(self.groups@), pending: self.new_tiles@ }
    }
}

impl HandParser {
    /// The parser always has a group to put tiles into.
    spec fn well_formed(&self) -> bool {
        self.groups.len() > 0
    }

    fn new() -> (r: Self)
        ensures
            r@ == initial_state(),
            r.well_formed(),
    {
        let mut groups: Vec<HandGroup> = Vec::new();
        groups.push(Vec::new());
        let r = Self { groups, new_tiles: Vec::new() };
        assert(r@.groups =~= initial_state().groups);
        r
    }

    fn add_tile(&mut self, tile: Tile, placement: TilePlacement) -> (r: HandParseResult)
        requires
            old(self).well_formed(),
        ensures
            r is Ok,
            final(self).well_formed(),
            final(self)@.pending == old(self)@.pending,
            final(self)@.groups == old(self)@.groups.update(
                old(self)@.groups.len() - 1,
                old(self)@.groups.last().push(HandTile { tile, placement }),
            ),
    {
        let last = self.groups.len() - 1;
        self.groups[last].push(HandTile::new(tile, placement));
        assert(final(self)@.groups =~= old(self)@.groups.update(
            old(self)@.groups.len() - 1,
            old(self)@.groups.last().push(HandTile { tile, placement }),
        ));
        Ok(())
    }

    fn add_temp_tile(&mut self, tile: Tile, placement: TilePlacement) -> (r: HandParseResult)
        ensures
            r is Ok,
            final(self).well_formed() == old(self).well_formed(),
            final(self)@ == (ParserState {
                pending: old(self)@.pending.push((Some(tile.suite), tile.value, placement)),
                ..old(self)@
            }),
    {
        self.new_tiles.push((Some(tile.suite), tile.value, placement));
        Ok(())
    }

    fn handle_value(&mut self, number: char) -> (r: HandParseResult)
        requires
            digit_value(number) is Some,
        ensures
            r is Ok,
            final(self).well_formed() == old(self).well_formed(),
            step(old(self)@, number) == Ok::<ParserState, HandParseErrorType>(final(self)@),
    {
        let value = TileValue(number as u8 - '0' as u8);
        let placement = TilePlacement::Normal;
        self.new_tiles.push((None, value, placement));
        Ok(())
    }

    fn handle_special_symbol(&mut self, honor: char) -> (r: HandParseResult)
        requires
            digit_value(honor) is None,
            suite_of(honor) is None,
            special_tile(honor) is Some,
        ensures
            r is Ok,
            final(self).well_formed() == old(self).well_formed(),
            step(old(self)@, honor) == Ok::<ParserState, HandParseErrorType>(final(self)@),
    {
        if honor == 'E' {
            self.add_temp_tile(ton(), TilePlacement::Normal)
        } else if honor == 'S' {
            self.add_temp_tile(nan(), TilePlacement::Normal)
        } else if honor == 'W' {
            self.add_temp_tile(shaa(), TilePlacement::Normal)
        } else if honor == 'N' {
            self.add_temp_tile(pei(), TilePlacement::Normal)
        } else if honor == 'w' {
            self.add_temp_tile(haku(), TilePlacement::Normal)
        } else if honor == 'g' {
            self.add_temp_tile(hatsu(), TilePlacement::Normal)
        } else if honor == 'r' {
            self.add_temp_tile(chun(), TilePlacement::Normal)
        } else {
            self.add_temp_tile(any(), TilePlacement::Normal)
        }
    }

    fn handle_position_modifier(&mut self) -> (r: HandParseResult)
        ensures
            final(self).well_formed() == old(self).well_formed(),
            match r {
                Ok(_) => step(old(self)@, '*') == Ok::<ParserState, HandParseErrorType>(
                    final(self)@,
                ),
                Err(error) => step(old(self)@, '*') == Err::<ParserState, HandParseErrorType>(
                    error,
                ),
            },
    {
        let count = self.new_tiles.len();
        if count > 0 {
            let tile = self.new_tiles[count - 1];
            self.new_tiles.set(count - 1, (tile.0, tile.1, tile.2.next()));
            Ok(())
        } else {
            Err(HandParseErrorType::PositionModifierWithNoTile)
        }
    }

    fn add_remaining_tiles(&mut self) -> (r: HandParseResult)
        requires
            old(self).well_formed(),
        ensures
            final(self).well_formed(),
            match r {
                Ok(_) => flushed(old(self)@) == Ok::<ParserState, HandParseErrorType>(
                    final(self)@,
                ),
                Err(error) => flushed(old(self)@) == Err::<ParserState, HandParseErrorType>(error),
            },
    {
        let ghost before = self@;
        let mut new_tiles: Vec<PendingTile> = Vec::new();
        std::mem::swap(&mut new_tiles, &mut self.new_tiles);
        let mut i: usize = 0;
        proof {
            assert(new_tiles@.skip(0) =~= new_tiles@);
            assert(self@.groups =~= with_tiles(before.groups, new_tiles@.take(0)));
        }
        while i < new_tiles.len()
            invariant
                i <= new_tiles.len(),
                self.well_formed(),
                before == old(self)@,
                new_tiles@ == before.pending,
                before.groups.len() > 0,
                self@.pending.len() == 0,
                first_pending_error(new_tiles@) == first_pending_error(new_tiles@.skip(i as int)),
                self@.groups == with_tiles(before.groups, new_tiles@.take(i as int)),
            decreases new_tiles.len() - i,
        {
            let (actual_suite, value, placement) = new_tiles[i];
            proof {
                let rest = new_tiles@.skip(i as int);
                assert(rest[0] == new_tiles@[i as int]);
                assert(rest.drop_first() =~= new_tiles@.skip(i as int + 1));
                assert(first_pending_error(rest) == if pending_error(rest[0]) is Some {
                    pending_error(rest[0])
                } else {
                    first_pending_error(rest.drop_first())
                });
            }
            let suite = match actual_suite {
                Some(suite) => suite,
                None => {
                    return Err(HandParseErrorType::UnfinishedSuite);
                },
            };
            let tile = match Tile::new(suite, value) {
                Ok(tile) => tile,
                Err(error) => {
                    return Err(HandParseErrorType::from(error));
                },
            };
            let ghost groups = self@.groups;
            let _ = self.add_tile(tile, placement);
            proof {
                let taken = new_tiles@.take(i as int);
                let more = new_tiles@.take(i as int + 1);
                assert(more =~= taken.push(new_tiles@[i as int]));
                assert(more.map_values(|tile: PendingTile| placed(tile)) =~= taken.map_values(
                    |tile: PendingTile| placed(tile),
                ).push(placed(new_tiles@[i as int])));
                assert(self@.groups =~= with_tiles(before.groups, more));
            }
            i += 1;
        }
        proof {
            assert(new_tiles@.take(i as int) =~= new_tiles@);
            assert(self@.pending =~= Seq::<PendingTile>::empty());
        }
        Ok(())
    }

    fn handle_suite(&mut self, suite_char: char) -> (r: HandParseResult)
        requires
            old(self).well_formed(),
            digit_value(suite_char) is None,
            suite_of(suite_char) is Some,
        ensures
            final(self).well_formed(),
            match r {
                Ok(_) => step(old(self)@, suite_char) == Ok::<ParserState, HandParseErrorType>(
                    final(self)@,
                ),
                Err(error) => step(old(self)@, suite_char) == Err::<
                    ParserState,
                    HandParseErrorType,
                >(error),
            },
    {
        let suite = if suite_char == 'm' {
            Suite::Manzu
        } else if suite_char == 'p' {
            Suite::Pinzu
        } else if suite_char == 's' {
            Suite::Souzu
        } else {
            Suite::Honor
        };
        let ghost before = self@;
        let mut i: usize = 0;
        while i < self.new_tiles.len()
            invariant
                i <= self.new_tiles.len(),
                self.well_formed(),
                self@.groups == before.groups,
                self@.pending.len() == before.pending.len(),
                forall|j: int|
                    0 <= j < i ==> self@.pending[j] == with_suite(before.pending[j], suite),
                forall|j: int|
                    i <= j < before.pending.len() ==> self@.pending[j] == before.pending[j],
            decreases self.new_tiles.len() - i,
        {
            let (tile_suite, value, placement) = self.new_tiles[i];
            let known = match tile_suite {
                Some(known) => known,
                None => suite,
            };
            self.new_tiles.set(i, (Some(known), value, placement));
            i += 1;
        }
        proof {
            assert(self@.pending =~= before.pending.map_values(
                |tile: PendingTile| with_suite(tile, suite),
            ));
        }
        self.add_remaining_tiles()
    }

    fn handle_group_separator(&mut self) -> (r: HandParseResult)
        requires
            old(self).well_formed(),
        ensures
            final(self).well_formed(),
            match r {
                Ok(_) => step(old(self)@, '_') == Ok::<ParserState, HandParseErrorType>(
                    final(self)@,
                ),
                Err(error) => step(old(self)@, '_') == Err::<ParserState, HandParseErrorType>(
                    error,
                ),
            },
    {
        match self.add_remaining_tiles() {
            Ok(_) => {},
            Err(error) => {
                return Err(error);
            },
        }
        let ghost flushed_groups = self@.groups;
        self.groups.push(Vec::new());
        proof {
            assert(self@.groups =~= flushed_groups.push(Seq::empty()));
        }
        Ok(())
    }

    fn parse_internal(self, hand: &str) -> (r: Result<Hand, HandParseError>)
        requires
            self@ == initial_state(),
            self.well_formed(),
        ensures
            match r {
                Ok(hand_read) => parsed_hand(hand@) == Ok::<
                    Seq<Seq<HandTile>>,
                    (nat, HandParseErrorType),
                >(hand_read@),
                Err(error) => parsed_hand(hand@) == Err::<
                    Seq<Seq<HandTile>>,
                    (nat, HandParseErrorType),
                >((error.position() as nat, error.error_type())),
            },
    {
        broadcast use vstd::string::group_string_axioms;

        let mut parser = self;
        let length = hand.unicode_len();
        let mut pos: usize = 0;
        for c in it: hand.chars()
            invariant
                it.seq() == hand@,
                length == hand@.len(),
                pos == it.index(),
                parser.well_formed(),
                state_after(hand@, pos as nat) == Ok::<ParserState, (nat, HandParseErrorType)>(
                    parser@,
                ),
        {
            let result = if c >= '0' && c <= '9' {
                parser.handle_value(c)
            } else if c == 'm' || c == 'p' || c == 's' || c == 'z' {
                parser.handle_suite(c)
            } else if c == 'E' || c == 'S' || c == 'W' || c == 'N' || c == 'w' || c == 'g' || c
                == 'r' || c == '?' {
                parser.handle_special_symbol(c)
            } else if c == '*' || c == '\'' {
                parser.handle_position_modifier()
            } else if c == '_' {
                parser.handle_group_separator()
            } else {
                Err(HandParseErrorType::InvalidCharacter)
            };
            if let Err(err) = result {
                proof {
                    assert(state_after(hand@, (pos + 1) as nat) == Err::<
                        ParserState,
                        (nat, HandParseErrorType),
                    >((pos as nat, err)));
                    lemma_error_stays(hand@, (pos + 1) as nat, hand@.len());
                }
                return Err(HandParseError::new(pos, err));
            }
            pos += 1;
        }
        if let Err(err) = parser.add_remaining_tiles() {
            return Err(HandParseError::new(length, err));
        }
        Ok(Hand::new(parser.groups))
    }

    /// Parses given hand representation and returns [Hand] instance, or error,
    /// if the hand string is invalid.
    ///
    /// # Format
    /// A hand can be made of following parts:
    /// * `1`, `2`, `3`, ..., `9` - tile values
    /// * `m`, `p`, `s`, `z` (manzu, pinzu, souzu, honor) - tile suites, used as
    ///   tile value prefixes
    /// * `E`, `S`, `W`, `N` - winds
    /// * `w`, `g`, `r` - dragons
    /// * `*` or `'` - tile value prefix that means that a tile is rotated.
    ///   Repeat twice to rotate and shift
    /// * `_` - tile group separator
    pub fn parse(hand: &str) -> (r: Result<Hand, HandParseError>)
        ensures
            match r {
                Ok(hand_read) => parsed_hand(hand@) == Ok::<
                    Seq<Seq<HandTile>>,
                    (nat, HandParseErrorType),
                >(hand_read@),
                Err(error) => parsed_hand(hand@) == Err::<
                    Seq<Seq<HandTile>>,
                    (nat, HandParseErrorType),
                >((error.position() as nat, error.error_type())),
            },
    {
        Self::new().parse_internal(hand)
    }
}

} // verus!
