use vstd::prelude::*;

use crate::hand::{group_views, valid_tile, Hand, HandGroup, HandTile, TilePlacement};
use crate::raster_renderer::bitmap::{buffer_len, Image, ImageView};
use crate::raster_renderer::layout::{
    group_end, group_height, group_offset, group_width, image_height, image_width, layout_fits,
    lemma_group_ends_grow, lemma_group_not_negative, lemma_group_within_height,
    lemma_tile_ends_grow, lemma_tile_within_height, placed_height, placed_width, stacked,
    tile_end, tile_offset, RenderGaps, TileSize,
};
use crate::raster_renderer::tile_set::{TileImageRetrieveError, TileSet};

verus! {

/// An error that occurs when calling [RasterRenderer::render].
#[derive(Clone, Debug)]
pub enum HandRenderError {
    /// Error occurred when retrieving a tile image..
    TileImageRetrieveError(TileImageRetrieveError),
}

impl View for HandRenderError {
    type V = (HandTile, Seq<char>);

    /// The hand tile that has no image, and the reason.
    open spec fn view(&self) -> (HandTile, Seq<char>) {
        match self {
            HandRenderError::TileImageRetrieveError(error) => error@,
        }
    }
}

impl HandRenderError {
    /// The message of an error about a hand tile and with a reason: that of
    /// the error of the tile set, after a few words.
    pub open spec fn message(error: (HandTile, Seq<char>)) -> Seq<char> {
        "could not retrieve tile image: "@ + TileImageRetrieveError::message(error)
    }

    /// Returns the message of the error.
    pub fn to_string(&self) -> (r: String)
        requires
            valid_tile(self@.0.tile.suite, self@.0.tile.value),
        ensures
            r@ == Self::message(self@),
    {
        match self {
            HandRenderError::TileImageRetrieveError(inner_error) => String::from_str(
                "could not retrieve tile image: ",
            ).concat(inner_error.to_string().as_str()),
        }
    }
}

impl From<TileImageRetrieveError> for HandRenderError {
    fn from(error: TileImageRetrieveError) -> (r: Self) {
        HandRenderError::TileImageRetrieveError(error)
    }
}

impl vstd::std_specs::convert::FromSpecImpl<TileImageRetrieveError> for HandRenderError {
    open spec fn obeys_from_spec() -> bool {
        true
    }

    open spec fn from_spec(error: TileImageRetrieveError) -> Self {
        HandRenderError::TileImageRetrieveError(error)
    }
}

/// Alias for the return image type of [RasterRenderer::render].
pub type ImageType = Image;

/// Result of [RasterRenderer::render].
pub type HandRenderResult = Result<ImageType, HandRenderError>;

/// The size of the images of a tile set.
pub open spec fn size_of<T: TileSet>(tile_set: &T) -> TileSize {
    TileSize { width: tile_set.width() as int, height: tile_set.height() as int }
}

/// The corner of tile `tile` of group `group` in the image of a hand: its
/// column is that of the group plus that of the tile within the group, and
/// its row is such that the tile stands on the lower edge of the image.
pub open spec fn tile_corner(
    groups: Seq<Seq<HandTile>>,
    group: int,
    tile: int,
    size: TileSize,
    gaps: RenderGaps,
) -> (u32, u32) {
    (
        (group_offset(groups, group, size, gaps) + tile_offset(
            groups[group],
            tile,
            size,
            gaps.tile_gap as int,
        )) as u32,
        (image_height(groups, size) - placed_height(groups[group][tile].placement, size)) as u32,
    )
}

/// The width and height that a hand tile takes in the image.
pub open spec fn tile_extent(hand_tile: HandTile, size: TileSize) -> (u32, u32) {
    (
        placed_width(hand_tile.placement, size) as u32,
        placed_height(hand_tile.placement, size) as u32,
    )
}

/// The image after the first `count` tiles of group `group` were drawn into
/// it, each laid over the image at its corner and cut to its width and
/// height, or the error of the first tile that the tile set has no image
/// for.
pub open spec fn drawn_tiles<T: TileSet>(
    tile_set: &T,
    image: ImageView,
    groups: Seq<Seq<HandTile>>,
    group: int,
    count: int,
    gaps: RenderGaps,
) -> Result<ImageView, (HandTile, Seq<char>)>
    decreases count,
{
    if count <= 0 {
        Ok(image)
    } else {
        match drawn_tiles(tile_set, image, groups, group, count - 1, gaps) {
            Err(error) => Err(error),
            Ok(before) => match tile_set.image_of(groups[group][count - 1]) {
                Err(error) => Err(error),
                Ok(tile_image) => Ok(
                    before.with_overlay(
                        tile_image,
                        tile_corner(groups, group, count - 1, size_of(tile_set), gaps),
                        tile_extent(groups[group][count - 1], size_of(tile_set)),
                    ),
                ),
            },
        }
    }
}

/// The image after the first `count` groups were drawn into it, tile by
/// tile, or the error of the first tile that the tile set has no image for.
pub open spec fn drawn_groups<T: TileSet>(
    tile_set: &T,
    image: ImageView,
    groups: Seq<Seq<HandTile>>,
    count: int,
    gaps: RenderGaps,
) -> Result<ImageView, (HandTile, Seq<char>)>
    decreases count,
{
    if count <= 0 {
        Ok(image)
    } else {
        match drawn_groups(tile_set, image, groups, count - 1, gaps) {
            Err(error) => Err(error),
            Ok(before) => drawn_tiles(
                tile_set,
                before,
                groups,
                count - 1,
                groups[count - 1].len() as int,
                gaps,
            ),
        }
    }
}

/// The image of a hand: a transparent image of the width and height of the
/// hand, with every tile of every group drawn into it in order, or the
/// error of the first tile that the tile set has no image for.
pub open spec fn rendered<T: TileSet>(
    tile_set: &T,
    groups: Seq<Seq<HandTile>>,
    gaps: RenderGaps,
) -> Result<ImageView, (HandTile, Seq<char>)> {
    drawn_groups(
        tile_set,
        ImageView::blank(
            image_width(groups, size_of(tile_set), gaps) as u32,
            image_height(groups, size_of(tile_set)) as u32,
        ),
        groups,
        groups.len() as int,
        gaps,
    )
}

/// Once a tile of a group has no image, drawing on changes nothing.
pub proof fn lemma_tile_error_stays<T: TileSet>(
    tile_set: &T,
    image: ImageView,
    groups: Seq<Seq<HandTile>>,
    group: int,
    count: int,
    later: int,
    gaps: RenderGaps,
)
    requires
        count <= later,
        drawn_tiles(tile_set, image, groups, group, count, gaps) is Err,
    ensures
        drawn_tiles(tile_set, image, groups, group, later, gaps) == drawn_tiles(
            tile_set,
            image,
            groups,
            group,
            count,
            gaps,
        ),
    decreases later,
{
    if count < later {
        lemma_tile_error_stays(tile_set, image, groups, group, count, later - 1, gaps);
    }
}

/// Once a tile of a hand has no image, drawing on changes nothing.
pub proof fn lemma_group_error_stays<T: TileSet>(
    tile_set: &T,
    image: ImageView,
    groups: Seq<Seq<HandTile>>,
    count: int,
    later: int,
    gaps: RenderGaps,
)
    requires
        count <= later,
        drawn_groups(tile_set, image, groups, count, gaps) is Err,
    ensures
        drawn_groups(tile_set, image, groups, later, gaps) == drawn_groups(
            tile_set,
            image,
            groups,
            count,
            gaps,
        ),
    decreases later,
{
    if count < later {
        lemma_group_error_stays(tile_set, image, groups, count, later - 1, gaps);
    }
}

/// Whether every tile of the hand is a valid tile.
pub open spec fn all_tiles_valid(groups: Seq<Seq<HandTile>>) -> bool {
    forall|group: int, tile: int|
        0 <= group < groups.len() && 0 <= tile < groups[group].len() ==> valid_tile(
            (#[trigger] groups[group][tile]).tile.suite,
            groups[group][tile].tile.value,
        )
}

/// Whether the hand can be drawn with the tile set and the gaps: its tiles
/// are valid, its image can be laid out with numbers of 32 bits, and the
/// bytes of the image are no more than a vector can hold.
pub open spec fn render_defined<T: TileSet>(
    tile_set: &T,
    groups: Seq<Seq<HandTile>>,
    gaps: RenderGaps,
) -> bool {
    &&& all_tiles_valid(groups)
    &&& layout_fits(groups, size_of(tile_set), gaps)
    &&& buffer_len(
        image_width(groups, size_of(tile_set), gaps) as u32,
        image_height(groups, size_of(tile_set)) as u32,
    ) <= isize::MAX
}

/// Renders a [Hand] instance to a raster image.
#[derive(Debug)]
pub struct RasterRenderer<'a, T: TileSet> {
    tile_set: &'a T,
    gaps: RenderGaps,
}

impl<'a, T: TileSet> RasterRenderer<'a, T> {
    /// Renders given [Hand] instance using [TileSet] and the gaps.
    pub fn render(hand: &Hand, tile_set: &'a T, gaps: RenderGaps) -> (r: HandRenderResult)
        requires
            render_defined(tile_set, hand@, gaps),
        ensures
            match r {
                Ok(image) => rendered(tile_set, hand@, gaps) == Ok::<
                    ImageView,
                    (HandTile, Seq<char>),
                >(image@),
                Err(error) => rendered(tile_set, hand@, gaps) == Err::<
                    ImageView,
                    (HandTile, Seq<char>),
                >(error@),
            },
    {
        Self::new(tile_set, gaps).render_internal(hand)
    }

    fn new(tile_set: &'a T, gaps: RenderGaps) -> (r: Self)
        ensures
            r.tile_set == tile_set,
            r.gaps == gaps,
    {
        Self { tile_set, gaps }
    }

    fn calculate_tile_size(&self, tile: &HandTile) -> (r: (u32, u32))
        requires
            placed_height(tile.placement, size_of(self.tile_set)) <= u32::MAX,
        ensures
            r == tile_extent(*tile, size_of(self.tile_set)),
    {
        let width = self.tile_set.tile_width();
        let height = self.tile_set.tile_height();
        match tile.placement {
            TilePlacement::Normal => (width, height),
            TilePlacement::Rotated => (height, width),
            TilePlacement::RotatedAndShifted => (height, 2 * width),
        }
    }

    fn calculate_group_size(&self, group: &HandGroup) -> (r: (u32, u32))
        requires
            group_width(group@, size_of(self.tile_set), self.gaps.tile_gap as int) <= u32::MAX,
            group_height(group@, size_of(self.tile_set)) <= u32::MAX,
        ensures
            r.0 == group_width(group@, size_of(self.tile_set), self.gaps.tile_gap as int),
            r.1 == group_height(group@, size_of(self.tile_set)),
    {
        let ghost size = size_of(self.tile_set);
        let ghost gap = self.gaps.tile_gap as int;
        let mut width: u32 = 0;
        let mut height: u32 = 0;
        let mut last_placement = TilePlacement::Normal;
        let mut i: usize = 0;
        proof {
            assert(group@.take(0) =~= Seq::<HandTile>::empty());
        }
        while i < group.len()
            invariant
                i <= group.len(),
                size == size_of(self.tile_set),
                gap == self.gaps.tile_gap as int,
                group_width(group@, size, gap) <= u32::MAX,
                group_height(group@, size) <= u32::MAX,
                i == 0 ==> width == 0,
                i > 0 ==> width == tile_end(group@, i - 1, size, gap) && last_placement == group@[i
                    - 1].placement,
                height == group_height(group@.take(i as int), size),
            decreases group.len() - i,
        {
            let tile = &group[i];
            proof {
                lemma_tile_within_height(group@, i as int, size);
                lemma_tile_ends_grow(group@, i as int, i as int, size, gap);
                assert(group@.take(i as int + 1).drop_last() =~= group@.take(i as int));
            }
            let (tile_width, tile_height) = self.calculate_tile_size(tile);
            if i == 0 {
                width = tile_width;
            } else if last_placement == TilePlacement::Rotated && tile.placement
                == TilePlacement::RotatedAndShifted {
                assert(stacked(group@, i as int));
            } else {
                assert(!stacked(group@, i as int));
                width = width + tile_width + self.gaps.tile_gap;
            }
            if tile_height > height {
                height = tile_height;
            }
            last_placement = tile.placement;
            i += 1;
        }
        proof {
            assert(group@.take(i as int) =~= group@);
        }
        (width, height)
    }

    fn calculate_image_size(&self, hand: &Hand) -> (r: (u32, u32))
        requires
            layout_fits(hand@, size_of(self.tile_set), self.gaps),
        ensures
            r.0 == image_width(hand@, size_of(self.tile_set), self.gaps),
            r.1 == image_height(hand@, size_of(self.tile_set)),
    {
        let ghost size = size_of(self.tile_set);
        let groups = hand.groups();
        let mut width: u32 = 0;
        let mut height: u32 = 0;
        let mut i: usize = 0;
        proof {
            assert(hand@.take(0) =~= Seq::<Seq<HandTile>>::empty());
        }
        while i < groups.len()
            invariant
                i <= groups.len(),
                size == size_of(self.tile_set),
                group_views(groups@) == hand@,
                layout_fits(hand@, size, self.gaps),
                i == 0 ==> width == 0,
                i > 0 ==> width == group_end(hand@, i - 1, size, self.gaps),
                height == image_height(hand@.take(i as int), size),
            decreases groups.len() - i,
        {
            let group = &groups[i];
            proof {
                assert(group@ == hand@[i as int]);
                lemma_group_within_height(hand@, i as int, size);
                lemma_group_ends_grow(hand@, i as int, i as int, size, self.gaps);
                lemma_group_not_negative(group@, size, self.gaps.tile_gap as int);
                assert(hand@.take(i as int + 1).drop_last() =~= hand@.take(i as int));
            }
            let (wide, high) = self.calculate_group_size(group);
            if i == 0 {
                width = wide;
            } else {
                width = width + wide + self.gaps.group_gap;
            }
            if high > height {
                height = high;
            }
            i += 1;
        }
        proof {
            assert(hand@.take(i as int) =~= hand@);
        }
        (width, height)
    }

    fn render_tile(
        &self,
        tile: &HandTile,
        image: Image,
        corner: (u32, u32),
        extent: (u32, u32),
    ) -> (r: HandRenderResult)
        requires
            valid_tile(tile.tile.suite, tile.tile.value),
        ensures
            match r {
                Ok(drawn) => self.tile_set.image_of(*tile) matches Ok(tile_image) && drawn@
                    == image@.with_overlay(tile_image, corner, extent),
                Err(error) => self.tile_set.image_of(*tile) == Err::<
                    ImageView,
                    (HandTile, Seq<char>),
                >(error@),
            },
    {
        match self.tile_set.tile_image(tile) {
            Ok(tile_image) => Ok(image.overlay(&tile_image, corner, extent)),
            Err(error) => Err(HandRenderError::from(error)),
        }
    }

    fn render_group(&self, hand: &Hand, index: usize, image: Image, origin: (u32, u32)) -> (r:
        HandRenderResult)
        requires
            index < hand@.len(),
            all_tiles_valid(hand@),
            layout_fits(hand@, size_of(self.tile_set), self.gaps),
            origin.0 == group_offset(hand@, index as int, size_of(self.tile_set), self.gaps),
            origin.1 == image_height(hand@, size_of(self.tile_set)),
        ensures
            match r {
                Ok(drawn) => drawn_tiles(
                    self.tile_set,
                    image@,
                    hand@,
                    index as int,
                    hand@[index as int].len() as int,
                    self.gaps,
                ) == Ok::<ImageView, (HandTile, Seq<char>)>(drawn@),
                Err(error) => drawn_tiles(
                    self.tile_set,
                    image@,
                    hand@,
                    index as int,
                    hand@[index as int].len() as int,
                    self.gaps,
                ) == Err::<ImageView, (HandTile, Seq<char>)>(error@),
            },
    {
        let ghost size = size_of(self.tile_set);
        let ghost gap = self.gaps.tile_gap as int;
        let ghost before = image@;
        let group = &hand.groups()[index];
        let mut canvas = image;
        let mut start_x: u64 = 0;
        let mut last_placement = TilePlacement::Normal;
        let mut i: usize = 0;
        proof {
            lemma_group_ends_grow(hand@, index as int, index as int, size, self.gaps);
        }
        while i < group.len()
            invariant
                i <= group.len(),
                index < hand@.len(),
                group@ == hand@[index as int],
                size == size_of(self.tile_set),
                gap == self.gaps.tile_gap as int,
                all_tiles_valid(hand@),
                layout_fits(hand@, size, self.gaps),
                origin.0 == group_offset(hand@, index as int, size, self.gaps),
                origin.1 == image_height(hand@, size),
                group_end(hand@, index as int, size, self.gaps) <= u32::MAX,
                before == image@,
                i == 0 ==> start_x == 0 && last_placement == TilePlacement::Normal,
                i > 0 ==> start_x == tile_end(group@, i - 1, size, gap) + gap && last_placement
                    == group@[i - 1].placement,
                drawn_tiles(self.tile_set, before, hand@, index as int, i as int, self.gaps)
                    == Ok::<ImageView, (HandTile, Seq<char>)>(canvas@),
            decreases group.len() - i,
        {
            let tile = &group[i];
            proof {
                lemma_tile_within_height(group@, i as int, size);
                lemma_group_within_height(hand@, index as int, size);
                lemma_tile_ends_grow(group@, i as int, i as int, size, gap);
                if i > 0 {
                    lemma_tile_ends_grow(group@, i - 1, i as int, size, gap);
                }
                assert(valid_tile(hand@[index as int][i as int].tile.suite, tile.tile.value));
            }
            let (width, height) = self.calculate_tile_size(tile);
            if last_placement == TilePlacement::Rotated && tile.placement
                == TilePlacement::RotatedAndShifted {
                assert(stacked(group@, i as int));
                start_x = start_x - (width as u64 + self.gaps.tile_gap as u64);
            }
            assert(start_x == tile_offset(group@, i as int, size, gap));
            let corner = ((origin.0 as u64 + start_x) as u32, origin.1 - height);
            canvas = match self.render_tile(tile, canvas, corner, (width, height)) {
                Ok(drawn) => drawn,
                Err(error) => {
                    proof {
                        lemma_tile_error_stays(
                            self.tile_set,
                            before,
                            hand@,
                            index as int,
                            i as int + 1,
                            group@.len() as int,
                            self.gaps,
                        );
                    }
                    return Err(error);
                },
            };
            last_placement = tile.placement;
            start_x = start_x + width as u64 + self.gaps.tile_gap as u64;
            i += 1;
        }
        Ok(canvas)
    }

    fn render_hand(&self, hand: &Hand, image: Image) -> (r: HandRenderResult)
        requires
            all_tiles_valid(hand@),
            layout_fits(hand@, size_of(self.tile_set), self.gaps),
            image@.height == image_height(hand@, size_of(self.tile_set)),
        ensures
            match r {
                Ok(drawn) => drawn_groups(
                    self.tile_set,
                    image@,
                    hand@,
                    hand@.len() as int,
                    self.gaps,
                ) == Ok::<ImageView, (HandTile, Seq<char>)>(drawn@),
                Err(error) => drawn_groups(
                    self.tile_set,
                    image@,
                    hand@,
                    hand@.len() as int,
                    self.gaps,
                ) == Err::<ImageView, (HandTile, Seq<char>)>(error@),
            },
    {
        let ghost size = size_of(self.tile_set);
        let ghost before = image@;
        let groups = hand.groups();
        let bottom = image.height();
        let mut canvas = image;
        let mut start_x: u64 = 0;
        let mut i: usize = 0;
        while i < groups.len()
            invariant
                i <= groups.len(),
                size == size_of(self.tile_set),
                group_views(groups@) == hand@,
                all_tiles_valid(hand@),
                layout_fits(hand@, size, self.gaps),
                bottom == image_height(hand@, size),
                before == image@,
                i == 0 ==> start_x == 0,
                i > 0 ==> start_x == group_end(hand@, i - 1, size, self.gaps) + self.gaps.group_gap,
                drawn_groups(self.tile_set, before, hand@, i as int, self.gaps) == Ok::<
                    ImageView,
                    (HandTile, Seq<char>),
                >(canvas@),
            decreases groups.len() - i,
        {
            let group = &groups[i];
            proof {
                assert(group@ == hand@[i as int]);
                lemma_group_within_height(hand@, i as int, size);
                lemma_group_ends_grow(hand@, i as int, i as int, size, self.gaps);
                lemma_group_not_negative(group@, size, self.gaps.tile_gap as int);
            }
            let (width, height) = self.calculate_group_size(group);
            canvas = match self.render_group(hand, i, canvas, (start_x as u32, bottom)) {
                Ok(drawn) => drawn,
                Err(error) => {
                    proof {
                        lemma_group_error_stays(
                            self.tile_set,
                            before,
                            hand@,
                            i as int + 1,
                            hand@.len() as int,
                            self.gaps,
                        );
                    }
                    return Err(error);
                },
            };
            start_x = start_x + width as u64 + self.gaps.group_gap as u64;
            i += 1;
        }
        Ok(canvas)
    }

    /// The size of a group, unless its width or its height is no number of
    /// 32 bits.
    fn checked_group_size(&self, group: &HandGroup) -> (r: Option<(u32, u32)>)
        ensures
            match r {
                Some(size) => size.0 == group_width(
                    group@,
                    size_of(self.tile_set),
                    self.gaps.tile_gap as int,
                ) && size.1 == group_height(group@, size_of(self.tile_set)),
                None => group_width(group@, size_of(self.tile_set), self.gaps.tile_gap as int)
                    > u32::MAX || group_height(group@, size_of(self.tile_set)) > u32::MAX,
            },
    {
        let ghost size = size_of(self.tile_set);
        let ghost gap = self.gaps.tile_gap as int;
        let tile_width = self.tile_set.tile_width();
        let tile_height = self.tile_set.tile_height();
        let mut width: u64 = 0;
        let mut height: u64 = 0;
        let mut last_placement = TilePlacement::Normal;
        let mut i: usize = 0;
        proof {
            assert(group@.take(0) =~= Seq::<HandTile>::empty());
        }
        while i < group.len()
            invariant
                i <= group.len(),
                size == size_of(self.tile_set),
                gap == self.gaps.tile_gap as int,
                tile_width == size.width,
                tile_height == size.height,
                i == 0 ==> width == 0,
                i > 0 ==> width == tile_end(group@, i - 1, size, gap) && last_placement == group@[i
                    - 1].placement,
                width <= u32::MAX,
                height == group_height(group@.take(i as int), size),
                height <= u32::MAX,
            decreases group.len() - i,
        {
            let tile = &group[i];
            proof {
                lemma_tile_within_height(group@, i as int, size);
                lemma_tile_ends_grow(group@, i as int, i as int, size, gap);
                assert(group@.take(i as int + 1).drop_last() =~= group@.take(i as int));
            }
            let (wide, high): (u64, u64) = match tile.placement {
                TilePlacement::Normal => (tile_width as u64, tile_height as u64),
                TilePlacement::Rotated => (tile_height as u64, tile_width as u64),
                TilePlacement::RotatedAndShifted => (tile_height as u64, 2 * (tile_width as u64)),
            };
            if i == 0 {
                width = wide;
            } else if last_placement == TilePlacement::Rotated && tile.placement
                == TilePlacement::RotatedAndShifted {
                assert(stacked(group@, i as int));
            } else {
                assert(!stacked(group@, i as int));
                width = width + wide + self.gaps.tile_gap as u64;
            }
            if high > height {
                height = high;
            }
            if width > u32::MAX as u64 || height > u32::MAX as u64 {
                return None;
            }
            last_placement = tile.placement;
            i += 1;
        }
        proof {
            assert(group@.take(i as int) =~= group@);
        }
        Some((width as u32, height as u32))
    }

    /// The size of the image of a hand, unless its width or its height is no
    /// number of 32 bits.
    fn checked_image_size(&self, hand: &Hand) -> (r: Option<(u32, u32)>)
        ensures
            match r {
                Some(size) => layout_fits(hand@, size_of(self.tile_set), self.gaps) && size.0
                    == image_width(hand@, size_of(self.tile_set), self.gaps) && size.1
                    == image_height(hand@, size_of(self.tile_set)),
                None => !layout_fits(hand@, size_of(self.tile_set), self.gaps),
            },
    {
        let ghost size = size_of(self.tile_set);
        let groups = hand.groups();
        let mut width: u64 = 0;
        let mut height: u32 = 0;
        let mut i: usize = 0;
        proof {
            assert(hand@.take(0) =~= Seq::<Seq<HandTile>>::empty());
        }
        while i < groups.len()
            invariant
                i <= groups.len(),
                size == size_of(self.tile_set),
                group_views(groups@) == hand@,
                i == 0 ==> width == 0,
                i > 0 ==> width == group_end(hand@, i - 1, size, self.gaps),
                width <= u32::MAX,
                height == image_height(hand@.take(i as int), size),
            decreases groups.len() - i,
        {
            let group = &groups[i];
            proof {
                assert(group@ == hand@[i as int]);
                lemma_group_within_height(hand@, i as int, size);
                lemma_group_ends_grow(hand@, i as int, i as int, size, self.gaps);
                lemma_group_not_negative(group@, size, self.gaps.tile_gap as int);
                assert(hand@.take(i as int + 1).drop_last() =~= hand@.take(i as int));
            }
            let (wide, high) = match self.checked_group_size(group) {
                Some(group_size) => group_size,
                None => {
                    return None;
                },
            };
            if i == 0 {
                width = wide as u64;
            } else {
                width = width + wide as u64 + self.gaps.group_gap as u64;
            }
            if high > height {
                height = high;
            }
            if width > u32::MAX as u64 {
                return None;
            }
            i += 1;
        }
        proof {
            assert(hand@.take(i as int) =~= hand@);
        }
        Some((width as u32, height))
    }

    /// Whether every tile of the hand is a valid tile.
    fn has_valid_tiles(hand: &Hand) -> (r: bool)
        ensures
            r == all_tiles_valid(hand@),
    {
        let groups = hand.groups();
        let mut i: usize = 0;
        while i < groups.len()
            invariant
                i <= groups.len(),
                group_views(groups@) == hand@,
                forall|group: int, tile: int|
                    0 <= group < i && 0 <= tile < hand@[group].len() ==> valid_tile(
                        (#[trigger] hand@[group][tile]).tile.suite,
                        hand@[group][tile].tile.value,
                    ),
            decreases groups.len() - i,
        {
            let group = &groups[i];
            assert(group@ == hand@[i as int]);
            let mut j: usize = 0;
            while j < group.len()
                invariant
                    j <= group.len(),
                    i < hand@.len(),
                    group@ == hand@[i as int],
                    forall|tile: int|
                        0 <= tile < j ==> valid_tile(
                            (#[trigger] hand@[i as int][tile]).tile.suite,
                            hand@[i as int][tile].tile.value,
                        ),
                decreases group.len() - j,
            {
                if !group[j].tile.is_valid() {
                    assert(!valid_tile(
                        hand@[i as int][j as int].tile.suite,
                        hand@[i as int][j as int].tile.value,
                    ));
                    return false;
                }
                j += 1;
            }
            i += 1;
        }
        true
    }

    /// Renders given [Hand] instance using [TileSet] and the gaps, if the
    /// hand can be drawn with them.
    pub fn try_render(hand: &Hand, tile_set: &'a T, gaps: RenderGaps) -> (r: Option<
        HandRenderResult,
    >)
        ensures
            r is Some <==> render_defined(tile_set, hand@, gaps),
            match r {
                Some(Ok(image)) => rendered(tile_set, hand@, gaps) == Ok::<
                    ImageView,
                    (HandTile, Seq<char>),
                >(image@),
                Some(Err(error)) => rendered(tile_set, hand@, gaps) == Err::<
                    ImageView,
                    (HandTile, Seq<char>),
                >(error@),
                None => true,
            },
    {
        if !Self::has_valid_tiles(hand) {
            return None;
        }
        let renderer = Self::new(tile_set, gaps);
        let (width, height) = match renderer.checked_image_size(hand) {
            Some(size) => size,
            None => {
                return None;
            },
        };
        assert(0 <= width * height <= 0xFFFF_FFFF * 0xFFFF_FFFF) by (nonlinear_arith)
            requires
                0 <= width <= 0xFFFF_FFFF,
                0 <= height <= 0xFFFF_FFFF,
        ;
        let bytes: u128 = (width as u128 * height as u128) * 4;
        assert(bytes == buffer_len(width, height)) by (nonlinear_arith)
            requires
                bytes == (width * height) * 4,
        ;
        if bytes > isize::MAX as u128 {
            return None;
        }
        Some(renderer.render_internal(hand))
    }

    fn render_internal(&self, hand: &Hand) -> (r: HandRenderResult)
        requires
            render_defined(self.tile_set, hand@, self.gaps),
        ensures
            match r {
                Ok(image) => rendered(self.tile_set, hand@, self.gaps) == Ok::<
                    ImageView,
                    (HandTile, Seq<char>),
                >(image@),
                Err(error) => rendered(self.tile_set, hand@, self.gaps) == Err::<
                    ImageView,
                    (HandTile, Seq<char>),
                >(error@),
            },
    {
        let (width, height) = self.calculate_image_size(hand);
        let image = Image::new(width, height);
        self.render_hand(hand, image)
    }
}

} // verus!
