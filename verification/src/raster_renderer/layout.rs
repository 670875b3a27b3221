use vstd::prelude::*;

use crate::hand::{HandTile, TilePlacement};

verus! {

/// The gaps that a hand is drawn with, in pixels.
#[derive(Copy, Clone, Debug, Eq, PartialEq, Hash, Structural)]
pub struct RenderGaps {
    /// Gap between tiles of a group.
    pub tile_gap: u32,
    /// Gap between groups.
    pub group_gap: u32,
}

impl RenderGaps {
    /// Creates the gaps from their pixel counts.
    pub fn new(tile_gap: u32, group_gap: u32) -> (r: Self)
        ensures
            r == (RenderGaps { tile_gap, group_gap }),
    {
        Self { tile_gap, group_gap }
    }
}

/// The size of the images of a tile set: the width and the height of a tile
/// that is not turned.
pub struct TileSize {
    /// The width of a tile that is not turned.
    pub width: int,
    /// The height of a tile that is not turned.
    pub height: int,
}

/// The width that a tile with the given placement takes: a tile that is not
/// turned is as wide as the images of the tile set, a turned one as wide as
/// they are high.
pub open spec fn placed_width(placement: TilePlacement, size: TileSize) -> int {
    match placement {
        TilePlacement::Normal => size.width,
        TilePlacement::Rotated => size.height,
        TilePlacement::RotatedAndShifted => size.height,
    }
}

/// The height that a tile with the given placement takes: a tile that is
/// not turned is as high as the images of the tile set, a turned one as high
/// as they are wide, and a turned and shifted one twice that, for it lies on
/// top of a turned tile.
pub open spec fn placed_height(placement: TilePlacement, size: TileSize) -> int {
    match placement {
        TilePlacement::Normal => size.height,
        TilePlacement::Rotated => size.width,
        TilePlacement::RotatedAndShifted => 2 * size.width,
    }
}

/// Whether tile `index` of the group lies on top of the tile before it: it
/// is turned and shifted, and the tile before it is turned.
pub open spec fn stacked(group: Seq<HandTile>, index: int) -> bool {
    0 < index < group.len() && group[index - 1].placement == TilePlacement::Rotated
        && group[index].placement == TilePlacement::RotatedAndShifted
}

/// The distance of tile `index` of a group from the left edge of the group.
/// The first tile is at the edge. A tile that lies on top of the tile before
/// it is as far as that tile; any other tile follows the one before it after
/// the gap.
pub open spec fn tile_offset(group: Seq<HandTile>, index: int, size: TileSize, tile_gap: int) -> int
    decreases index,
{
    if index <= 0 {
        0
    } else if stacked(group, index) {
        tile_offset(group, index - 1, size, tile_gap)
    } else {
        tile_offset(group, index - 1, size, tile_gap) + placed_width(
            group[index - 1].placement,
            size,
        ) + tile_gap
    }
}

/// The width of a group: where its last tile ends. An empty group has no
/// width.
pub open spec fn group_width(group: Seq<HandTile>, size: TileSize, tile_gap: int) -> int {
    if group.len() == 0 {
        0
    } else {
        tile_offset(group, group.len() - 1, size, tile_gap) + placed_width(
            group.last().placement,
            size,
        )
    }
}

/// The height of a group: that of its highest tile. An empty group has no
/// height.
pub open spec fn group_height(group: Seq<HandTile>, size: TileSize) -> int
    decreases group.len(),
{
    if group.len() == 0 {
        0
    } else {
        let rest = group_height(group.drop_last(), size);
        let last = placed_height(group.last().placement, size);
        if rest >= last {
            rest
        } else {
            last
        }
    }
}

/// The distance of group `index` of a hand from the left edge of the image:
/// each group follows the one before it after the gap between groups.
pub open spec fn group_offset(
    groups: Seq<Seq<HandTile>>,
    index: int,
    size: TileSize,
    gaps: RenderGaps,
) -> int
    decreases index,
{
    if index <= 0 {
        0
    } else {
        group_offset(groups, index - 1, size, gaps) + group_width(
            groups[index - 1],
            size,
            gaps.tile_gap as int,
        ) + gaps.group_gap
    }
}

/// The width of the image of a hand: where its last group ends. A hand
/// without groups has no width.
pub open spec fn image_width(groups: Seq<Seq<HandTile>>, size: TileSize, gaps: RenderGaps) -> int {
    if groups.len() == 0 {
        0
    } else {
        group_offset(groups, groups.len() - 1, size, gaps) + group_width(
            groups.last(),
            size,
            gaps.tile_gap as int,
        )
    }
}

/// The height of the image of a hand: that of its highest group.
pub open spec fn image_height(groups: Seq<Seq<HandTile>>, size: TileSize) -> int
    decreases groups.len(),
{
    if groups.len() == 0 {
        0
    } else {
        let rest = image_height(groups.drop_last(), size);
        let last = group_height(groups.last(), size);
        if rest >= last {
            rest
        } else {
            last
        }
    }
}

/// Where tile `index` of a group ends: its distance from the left edge of
/// the group plus its width.
pub open spec fn tile_end(group: Seq<HandTile>, index: int, size: TileSize, tile_gap: int) -> int {
    tile_offset(group, index, size, tile_gap) + placed_width(group[index].placement, size)
}

/// Where group `index` of a hand ends: its distance from the left edge of
/// the image plus its width.
pub open spec fn group_end(
    groups: Seq<Seq<HandTile>>,
    index: int,
    size: TileSize,
    gaps: RenderGaps,
) -> int {
    group_offset(groups, index, size, gaps) + group_width(
        groups[index],
        size,
        gaps.tile_gap as int,
    )
}

/// Whether the image of a hand can be laid out with numbers of 32 bits: its
/// width and its height are such numbers.
pub open spec fn layout_fits(groups: Seq<Seq<HandTile>>, size: TileSize, gaps: RenderGaps) -> bool {
    &&& 0 <= size.width
    &&& 0 <= size.height
    &&& image_width(groups, size, gaps) <= u32::MAX
    &&& image_height(groups, size) <= u32::MAX
}

/// No tile of a group starts before the edge of the group, and none ends
/// after a later tile does.
pub proof fn lemma_tile_ends_grow(
    group: Seq<HandTile>,
    index: int,
    later: int,
    size: TileSize,
    tile_gap: int,
)
    requires
        0 <= index <= later < group.len(),
        0 <= size.width,
        0 <= size.height,
        0 <= tile_gap,
    ensures
        0 <= tile_offset(group, index, size, tile_gap),
        tile_offset(group, index, size, tile_gap) <= tile_offset(group, later, size, tile_gap),
        tile_end(group, index, size, tile_gap) <= tile_end(group, later, size, tile_gap),
        tile_end(group, later, size, tile_gap) <= group_width(group, size, tile_gap),
    decreases group.len() - index,
{
    lemma_offset_not_negative(group, index, size, tile_gap);
    if index < later {
        lemma_tile_ends_grow(group, index + 1, later, size, tile_gap);
    }
    if later < group.len() - 1 {
        lemma_tile_ends_grow(group, later + 1, group.len() - 1, size, tile_gap);
    }
}

/// No tile of a group starts before the edge of the group.
proof fn lemma_offset_not_negative(group: Seq<HandTile>, index: int, size: TileSize, tile_gap: int)
    requires
        0 <= size.width,
        0 <= size.height,
        0 <= tile_gap,
    ensures
        0 <= tile_offset(group, index, size, tile_gap),
    decreases index,
{
    if index > 0 {
        lemma_offset_not_negative(group, index - 1, size, tile_gap);
    }
}

/// No tile of a group is higher than the group.
pub proof fn lemma_tile_within_height(group: Seq<HandTile>, index: int, size: TileSize)
    requires
        0 <= index < group.len(),
    ensures
        placed_height(group[index].placement, size) <= group_height(group, size),
    decreases group.len(),
{
    if index < group.len() - 1 {
        lemma_tile_within_height(group.drop_last(), index, size);
    }
}

/// A group is not less wide than nothing, nor less high.
pub proof fn lemma_group_not_negative(group: Seq<HandTile>, size: TileSize, tile_gap: int)
    requires
        0 <= size.width,
        0 <= size.height,
        0 <= tile_gap,
    ensures
        0 <= group_width(group, size, tile_gap),
        0 <= group_height(group, size),
    decreases group.len(),
{
    if group.len() > 0 {
        lemma_offset_not_negative(group, group.len() - 1, size, tile_gap);
        lemma_group_not_negative(group.drop_last(), size, tile_gap);
    }
}

/// No group of a hand starts before the edge of the image, and none ends
/// after a later group does, nor after the image.
pub proof fn lemma_group_ends_grow(
    groups: Seq<Seq<HandTile>>,
    index: int,
    later: int,
    size: TileSize,
    gaps: RenderGaps,
)
    requires
        0 <= index <= later < groups.len(),
        0 <= size.width,
        0 <= size.height,
    ensures
        0 <= group_offset(groups, index, size, gaps),
        group_offset(groups, index, size, gaps) <= group_offset(groups, later, size, gaps),
        group_end(groups, index, size, gaps) <= group_end(groups, later, size, gaps),
        group_end(groups, later, size, gaps) <= image_width(groups, size, gaps),
    decreases groups.len() - index,
{
    lemma_group_offset_not_negative(groups, index, size, gaps);
    lemma_group_not_negative(groups[index], size, gaps.tile_gap as int);
    if index < later {
        lemma_group_not_negative(groups[index + 1], size, gaps.tile_gap as int);
        lemma_group_ends_grow(groups, index + 1, later, size, gaps);
    }
    if later < groups.len() - 1 {
        lemma_group_not_negative(groups[later + 1], size, gaps.tile_gap as int);
        lemma_group_ends_grow(groups, later + 1, groups.len() - 1, size, gaps);
    }
}

/// No group of a hand starts before the edge of the image.
proof fn lemma_group_offset_not_negative(
    groups: Seq<Seq<HandTile>>,
    index: int,
    size: TileSize,
    gaps: RenderGaps,
)
    requires
        0 <= size.width,
        0 <= size.height,
    ensures
        0 <= group_offset(groups, index, size, gaps),
    decreases index,
{
    if index > 0 {
        lemma_group_offset_not_negative(groups, index - 1, size, gaps);
        lemma_group_not_negative(groups[index - 1], size, gaps.tile_gap as int);
    }
}

/// No group of a hand is higher than the image.
pub proof fn lemma_group_within_height(groups: Seq<Seq<HandTile>>, index: int, size: TileSize)
    requires
        0 <= index < groups.len(),
    ensures
        group_height(groups[index], size) <= image_height(groups, size),
    decreases groups.len(),
{
    if index < groups.len() - 1 {
        lemma_group_within_height(groups.drop_last(), index, size);
    }
}

} // verus!
