use vstd::prelude::*;

use crate::hand::{tile_name, valid_tile, HandTile, Suite, Tile, TilePlacement, TileValue};
use crate::raster_renderer::bitmap::{Image, ImageView};
use crate::raster_renderer::tile_map::{lemma_tile_key, tile_of_key, TileMap, TILE_KEYS};
use crate::tiles::{all_tiles, all_tiles_seq, any, lemma_all_tiles_complete, tile_at, TILE_COUNT};

verus! {

/// An error that occurs when calling [TileSet::tile_image].
#[derive(Clone, Debug)]
pub enum TileImageRetrieveError {
    /// This specific hand tile is not supported.
    TileNotSupported(HandTile, String),
}

impl View for TileImageRetrieveError {
    type V = (HandTile, Seq<char>);

    /// The hand tile that is not supported, and the reason.
    open spec fn view(&self) -> (HandTile, Seq<char>) {
        match self {
            TileImageRetrieveError::TileNotSupported(hand_tile, message) => (*hand_tile, message@),
        }
    }
}

impl TileImageRetrieveError {
    /// The message of an error about a hand tile and with a reason: it
    /// names the hand tile, which holds a valid tile, and gives the reason.
    pub open spec fn message(error: (HandTile, Seq<char>)) -> Seq<char> {
        "tile "@ + error.0.text() + " not supported: "@ + error.1
    }

    /// Returns the message of the error.
    pub fn to_string(&self) -> (r: String)
        requires
            valid_tile(self@.0.tile.suite, self@.0.tile.value),
        ensures
            r@ == Self::message(self@),
    {
        match self {
            TileImageRetrieveError::TileNotSupported(hand_tile, message) => {
                let mut text = String::from_str("tile ");
                text.append(hand_tile.to_string().as_str());
                text.append(" not supported: ");
                text.append(message.as_str());
                text
            },
        }
    }
}

/// Result of [TileSet::tile_image].
pub type TileImageResult = Result<Image, TileImageRetrieveError>;

/// An error that occurs when creating a [TwoPartTileSet] or a [SimpleTileSet].
#[derive(Copy, Clone, Debug)]
pub enum TileSetCreationError {
    /// There is a tile missing in the image foreground map.
    TileMissing(Tile),
    /// Images passed (both background and foregrounds) have different
    /// dimensions.
    ImagesDoNotHaveEqualDimensions,
}

impl TileSetCreationError {
    /// The message of the error. That of a missing tile names the tile,
    /// which is a valid one.
    pub open spec fn message(self) -> Seq<char> {
        match self {
            TileSetCreationError::TileMissing(tile) => "tile foreground missing: "@ + tile_name(
                tile,
            ),
            TileSetCreationError::ImagesDoNotHaveEqualDimensions => {
                "images (backgrounds and foregrounds) do not have equal dimensions"@
            },
        }
    }

    /// Returns the message of the error.
    pub fn to_string(&self) -> (r: String)
        requires
            self matches TileSetCreationError::TileMissing(tile) ==> valid_tile(
                tile.suite,
                tile.value,
            ),
        ensures
            r@ == self.message(),
    {
        match self {
            TileSetCreationError::TileMissing(tile) => String::from_str(
                "tile foreground missing: ",
            ).concat(tile.name().as_str()),
            TileSetCreationError::ImagesDoNotHaveEqualDimensions => String::from_str(
                "images (backgrounds and foregrounds) do not have equal dimensions",
            ),
        }
    }
}

/// Set of tile images that can be used to render a hand.
pub trait TileSet {
    /// The width of the images of tiles that are not turned.
    spec fn width(&self) -> u32;

    /// The height of the images of tiles that are not turned.
    spec fn height(&self) -> u32;

    /// The image that the set gives for a hand tile, or the hand tile and
    /// the reason for which it gives none.
    spec fn image_of(&self, hand_tile: HandTile) -> Result<ImageView, (HandTile, Seq<char>)>;

    /// Returns an image of given tile, taking into account the tile placement
    /// (rotation).
    ///
    /// The returned image should always have dimensions `W x H` for tiles that
    /// are not rotated, and `H x W` for the rotated versions (where W and H
    /// are the return values of `tile_width()` and `tile_height()`,
    /// respectively)
    fn tile_image(&self, hand_tile: &HandTile) -> (r: TileImageResult)
        requires
            valid_tile(hand_tile.tile.suite, hand_tile.tile.value),
        ensures
            match r {
                Ok(image) => self.image_of(*hand_tile) == Ok::<ImageView, (HandTile, Seq<char>)>(
                    image@,
                ),
                Err(error) => self.image_of(*hand_tile) == Err::<
                    ImageView,
                    (HandTile, Seq<char>),
                >(error@),
            },
    ;

    /// Returns tile width, in pixels. Must be the same for all images.
    fn tile_width(&self) -> (r: u32)
        ensures
            r == self.width(),
    ;

    /// Returns tile height, in pixels. Must be the same for all images.
    fn tile_height(&self) -> (r: u32)
        ensures
            r == self.height(),
    ;
}

impl<T: TileSet + ?Sized> TileSet for &T {
    open spec fn width(&self) -> u32 {
        (**self).width()
    }

    open spec fn height(&self) -> u32 {
        (**self).height()
    }

    open spec fn image_of(&self, hand_tile: HandTile) -> Result<ImageView, (HandTile, Seq<char>)> {
        (**self).image_of(hand_tile)
    }

    fn tile_image(&self, hand_tile: &HandTile) -> (r: TileImageResult) {
        T::tile_image(self, hand_tile)
    }

    fn tile_width(&self) -> (r: u32) {
        T::tile_width(self)
    }

    fn tile_height(&self) -> (r: u32) {
        T::tile_height(self)
    }
}

impl<T: TileSet + ?Sized> TileSet for Box<T> {
    open spec fn width(&self) -> u32 {
        (**self).width()
    }

    open spec fn height(&self) -> u32 {
        (**self).height()
    }

    open spec fn image_of(&self, hand_tile: HandTile) -> Result<ImageView, (HandTile, Seq<char>)> {
        (**self).image_of(hand_tile)
    }

    fn tile_image(&self, hand_tile: &HandTile) -> (r: TileImageResult) {
        T::tile_image(self, hand_tile)
    }

    fn tile_width(&self) -> (r: u32) {
        T::tile_width(self)
    }

    fn tile_height(&self) -> (r: u32) {
        T::tile_height(self)
    }
}

/// The first of all valid tiles, from place `from` of their list on, that
/// the map has no image for.
pub open spec fn first_missing_tile(images: Map<Tile, ImageView>, from: int) -> Option<Tile>
    decreases TILE_COUNT - from,
{
    if from >= TILE_COUNT {
        None
    } else if !images.contains_key(tile_at(from)) {
        Some(tile_at(from))
    } else {
        first_missing_tile(images, from + 1)
    }
}

/// Whether every image of the map has the given size.
pub open spec fn all_of_size(images: Map<Tile, ImageView>, width: u32, height: u32) -> bool {
    forall|tile: Tile| #[trigger]
        images.contains_key(tile) ==> images[tile].width == width && images[tile].height
            == height
}

/// The unknown tile, whose image gives a tile set its size.
pub open spec fn any_tile() -> Tile {
    Tile { suite: Suite::Any, value: TileValue(0) }
}

/// Why no tile set can be made of the images, if none can: the first of all
/// valid tiles that has no image is missing, or, where none is missing, an
/// image of the map or the front image is not of the size of the image of
/// the unknown tile.
pub open spec fn creation_error(
    images: Map<Tile, ImageView>,
    front: Option<ImageView>,
) -> Option<TileSetCreationError> {
    let width = images[any_tile()].width;
    let height = images[any_tile()].height;
    if let Some(tile) = first_missing_tile(images, 0) {
        Some(TileSetCreationError::TileMissing(tile))
    } else if !all_of_size(images, width, height) {
        Some(TileSetCreationError::ImagesDoNotHaveEqualDimensions)
    } else if front matches Some(image) && !(image.width == width && image.height == height) {
        Some(TileSetCreationError::ImagesDoNotHaveEqualDimensions)
    } else {
        None
    }
}

/// Where no tile is missing, the map has an image for every valid tile.
pub proof fn lemma_none_missing(images: Map<Tile, ImageView>, from: int, tile: Tile)
    requires
        0 <= from,
        first_missing_tile(images, from) is None,
        valid_tile(tile.suite, tile.value),
        from <= crate::tiles::tile_index(tile),
    ensures
        images.contains_key(tile),
    decreases TILE_COUNT - from,
{
    lemma_all_tiles_complete(tile);
    if from < crate::tiles::tile_index(tile) {
        lemma_none_missing(images, from + 1, tile);
    }
}

/// Checks that the map has an image for every valid tile, and that its
/// images and the front image, if there is one, all have the size of the
/// image of the unknown tile. Returns that size.
fn validate_images(front: Option<&Image>, tile_map: &TileMap) -> (r: Result<
    (u32, u32),
    TileSetCreationError,
>)
    ensures
        match r {
            Ok(size) => creation_error(
                tile_map@,
                match front {
                    Some(image) => Some(image@),
                    None => None,
                },
            ) is None && size.0 == tile_map@[any_tile()].width && size.1
                == tile_map@[any_tile()].height,
            Err(error) => creation_error(
                tile_map@,
                match front {
                    Some(image) => Some(image@),
                    None => None,
                },
            ) == Some(error),
        },
{
    let tiles = all_tiles();
    let mut i: usize = 0;
    while i < tiles.len()
        invariant
            i <= tiles.len(),
            tiles@ == all_tiles_seq(),
            first_missing_tile(tile_map@, 0) == first_missing_tile(tile_map@, i as int),
        decreases tiles.len() - i,
    {
        if !tile_map.contains_key(&tiles[i]) {
            return Err(TileSetCreationError::TileMissing(tiles[i]));
        }
        i += 1;
    }
    let unknown = any();
    proof {
        lemma_none_missing(tile_map@, 0, unknown);
    }
    let (tile_width, tile_height) = match tile_map.get(&unknown) {
        Some(image) => (image.width(), image.height()),
        None => (0, 0),
    };
    let mut key: u16 = 0;
    while key < TILE_KEYS
        invariant
            key <= TILE_KEYS,
            first_missing_tile(tile_map@, 0) is None,
            tile_width == tile_map@[any_tile()].width,
            tile_height == tile_map@[any_tile()].height,
            forall|smaller: u16|
                smaller < key && #[trigger] tile_map@.contains_key(tile_of_key(smaller))
                    ==> tile_map@[tile_of_key(smaller)].width == tile_width
                    && tile_map@[tile_of_key(smaller)].height == tile_height,
        decreases TILE_KEYS - key,
    {
        match tile_map.get_by_key(key) {
            Some(image) => {
                if !(image.width() == tile_width && image.height() == tile_height) {
                    assert(!all_of_size(tile_map@, tile_width, tile_height));
                    return Err(TileSetCreationError::ImagesDoNotHaveEqualDimensions);
                }
            },
            None => {},
        }
        key += 1;
    }
    proof {
        assert forall|tile: Tile| #[trigger]
            tile_map@.contains_key(tile) implies tile_map@[tile].width == tile_width
            && tile_map@[tile].height == tile_height by {
            lemma_tile_key(tile);
            let key = crate::raster_renderer::tile_map::tile_key(tile);
            assert(tile_map@.contains_key(tile_of_key(key)));
        }
    }
    match front {
        Some(image) => {
            if !(image.width() == tile_width && image.height() == tile_height) {
                return Err(TileSetCreationError::ImagesDoNotHaveEqualDimensions);
            }
        },
        None => {},
    }
    Ok((tile_width, tile_height))
}

/// An implementation of [TileSet] that expects a map of tile images.
///
/// This implementation does not support rotated tiles. This just returns the
/// tiles as is, returning an error if an unsupported tile is requested.
#[derive(Debug)]
pub struct SimpleTileSet {
    tile_map: TileMap,
    tile_width: u32,
    tile_height: u32,
}

impl SimpleTileSet {
    /// The set has an image for every valid tile.
    #[verifier::type_invariant]
    spec fn complete(self) -> bool {
        first_missing_tile(self.tile_map@, 0) is None
    }

    /// The images of the set.
    pub closed spec fn images(&self) -> Map<Tile, ImageView> {
        self.tile_map@
    }

    /// Creates a new [SimpleTileSet] instance using given map of tile images.
    pub fn new(tile_map: TileMap) -> (r: Result<Self, TileSetCreationError>)
        ensures
            match r {
                Ok(set) => creation_error(tile_map@, None) is None && set.images() == tile_map@
                    && set.width() == tile_map@[any_tile()].width && set.height()
                    == tile_map@[any_tile()].height,
                Err(error) => creation_error(tile_map@, None) == Some(error),
            },
    {
        match Self::validate_tile_map(&tile_map) {
            Ok((tile_width, tile_height)) => Ok(Self { tile_map, tile_width, tile_height }),
            Err(error) => Err(error),
        }
    }

    fn validate_tile_map(tile_map: &TileMap) -> (r: Result<(u32, u32), TileSetCreationError>)
        ensures
            match r {
                Ok(size) => creation_error(tile_map@, None) is None && size.0
                    == tile_map@[any_tile()].width && size.1 == tile_map@[any_tile()].height,
                Err(error) => creation_error(tile_map@, None) == Some(error),
            },
    {
        validate_images(None, tile_map)
    }
}

impl TileSet for SimpleTileSet {
    closed spec fn width(&self) -> u32 {
        self.tile_width
    }

    closed spec fn height(&self) -> u32 {
        self.tile_height
    }

    /// The image of the tile as the map has it, for a tile that is not
    /// turned; for a turned tile there is none.
    open spec fn image_of(&self, hand_tile: HandTile) -> Result<ImageView, (HandTile, Seq<char>)> {
        if hand_tile.placement == TilePlacement::Normal {
            Ok(self.images()[hand_tile.tile])
        } else {
            Err((hand_tile, "this tile set does not support rotated tiles"@))
        }
    }

    fn tile_image(&self, hand_tile: &HandTile) -> (r: TileImageResult) {
        if hand_tile.placement == TilePlacement::Normal {
            proof {
                use_type_invariant(self);
                lemma_none_missing(self.tile_map@, 0, hand_tile.tile);
            }
            match self.tile_map.get(&hand_tile.tile) {
                Some(image) => Ok(image.clone()),
                None => vstd::pervasive::unreached(),
            }
        } else {
            Err(
                TileImageRetrieveError::TileNotSupported(
                    *hand_tile,
                    String::from_str("this tile set does not support rotated tiles"),
                ),
            )
        }
    }

    fn tile_width(&self) -> (r: u32) {
        self.tile_width
    }

    fn tile_height(&self) -> (r: u32) {
        self.tile_height
    }
}

/// An implementation of [TileSet] that expects a map of tile foregrounds
/// and a single background image.
///
/// This implementation automatically combines background and foreground on the
/// fly. Also, it assumes "realistic" light for the rendered tiles (i.e. for
/// rotated tiles, it mirrors the background, so it always seems like the light
/// is coming from once source).
#[derive(Debug)]
pub struct TwoPartTileSet {
    front: Image,
    tile_map: TileMap,
    tile_width: u32,
    tile_height: u32,
}

/// The image as a tile with the given placement shows it: as it is for a
/// tile that is not turned, turned by 90 degrees clockwise for a turned one.
pub open spec fn turned(image: ImageView, placement: TilePlacement) -> ImageView {
    if placement == TilePlacement::Normal {
        image
    } else {
        image.rotated()
    }
}

/// The background as a tile with the given placement shows it: as it is for
/// a tile that is not turned; for a turned one turned by 90 degrees
/// clockwise and then mirrored, so that the light keeps its side.
pub open spec fn turned_background(image: ImageView, placement: TilePlacement) -> ImageView {
    if placement == TilePlacement::Normal {
        image
    } else {
        image.rotated().flipped()
    }
}

impl TwoPartTileSet {
    /// The set has a foreground for every valid tile.
    #[verifier::type_invariant]
    spec fn complete(self) -> bool {
        first_missing_tile(self.tile_map@, 0) is None
    }

    /// The foregrounds of the tiles, and the back of a tile for the unknown
    /// tile.
    pub closed spec fn images(&self) -> Map<Tile, ImageView> {
        self.tile_map@
    }

    /// The background of every tile but the unknown tile.
    pub closed spec fn front(&self) -> ImageView {
        self.front@
    }

    /// Creates a new [TwoPartTileSet] instance using given background image and
    /// a map of tile foregrounds.
    pub fn new(front: Image, tile_map: TileMap) -> (r: Result<Self, TileSetCreationError>)
        ensures
            match r {
                Ok(set) => creation_error(tile_map@, Some(front@)) is None && set.images()
                    == tile_map@ && set.front() == front@ && set.width()
                    == tile_map@[any_tile()].width && set.height() == tile_map@[any_tile()].height,
                Err(error) => creation_error(tile_map@, Some(front@)) == Some(error),
            },
    {
        match Self::validate_tile_map(&front, &tile_map) {
            Ok((tile_width, tile_height)) => Ok(Self { front, tile_map, tile_width, tile_height }),
            Err(error) => Err(error),
        }
    }

    fn validate_tile_map(front: &Image, tile_map: &TileMap) -> (r: Result<
        (u32, u32),
        TileSetCreationError,
    >)
        ensures
            match r {
                Ok(size) => creation_error(tile_map@, Some(front@)) is None && size.0
                    == tile_map@[any_tile()].width && size.1 == tile_map@[any_tile()].height,
                Err(error) => creation_error(tile_map@, Some(front@)) == Some(error),
            },
    {
        validate_images(Some(front), tile_map)
    }

    /// The foreground of a hand tile: nothing for the unknown tile, else
    /// the foreground of the tile, turned as the tile is.
    pub open spec fn foreground_of(&self, hand_tile: HandTile) -> ImageView {
        if hand_tile.tile == any_tile() {
            ImageView::blank(0, 0)
        } else {
            turned(self.images()[hand_tile.tile], hand_tile.placement)
        }
    }

    /// The background of a hand tile: the back of a tile for the unknown
    /// tile, else the front image, turned as the tile is.
    pub open spec fn background_of(&self, hand_tile: HandTile) -> ImageView {
        if hand_tile.tile == any_tile() {
            turned_background(self.images()[any_tile()], hand_tile.placement)
        } else {
            turned_background(self.front(), hand_tile.placement)
        }
    }

    fn hand_tile_foreground(&self, hand_tile: &HandTile) -> (r: Image)
        requires
            valid_tile(hand_tile.tile.suite, hand_tile.tile.value),
        ensures
            r@ == self.foreground_of(*hand_tile),
    {
        if hand_tile.tile == any() {
            return Image::new(0, 0);
        }
        proof {
            use_type_invariant(self);
            lemma_none_missing(self.tile_map@, 0, hand_tile.tile);
        }
        let buffer = match self.tile_map.get(&hand_tile.tile) {
            Some(image) => image,
            None => vstd::pervasive::unreached(),
        };
        if hand_tile.placement == TilePlacement::Normal {
            buffer.clone()
        } else {
            buffer.rotate90()
        }
    }

    fn hand_tile_background(&self, hand_tile: &HandTile) -> (r: Image)
        ensures
            r@ == self.background_of(*hand_tile),
    {
        let background = if hand_tile.tile == any() {
            proof {
                use_type_invariant(self);
                lemma_none_missing(self.tile_map@, 0, any_tile());
            }
            match self.tile_map.get(&any()) {
                Some(image) => image,
                None => vstd::pervasive::unreached(),
            }
        } else {
            &self.front
        };
        if hand_tile.placement == TilePlacement::Normal {
            background.clone()
        } else {
            background.rotate90().flip_horizontal()
        }
    }
}

impl TileSet for TwoPartTileSet {
    closed spec fn width(&self) -> u32 {
        self.tile_width
    }

    closed spec fn height(&self) -> u32 {
        self.tile_height
    }

    /// The background of the hand tile with its foreground laid over it,
    /// corner on corner.
    open spec fn image_of(&self, hand_tile: HandTile) -> Result<ImageView, (HandTile, Seq<char>)> {
        let background = self.background_of(hand_tile);
        Ok(
            background.with_overlay(
                self.foreground_of(hand_tile),
                (0, 0),
                (background.width, background.height),
            ),
        )
    }

    fn tile_image(&self, hand_tile: &HandTile) -> (r: TileImageResult) {
        let background = self.hand_tile_background(hand_tile);
        let foreground = self.hand_tile_foreground(hand_tile);
        let size = (background.width(), background.height());
        Ok(background.overlay(&foreground, (0, 0), size))
    }

    fn tile_width(&self) -> (r: u32) {
        self.tile_width
    }

    fn tile_height(&self) -> (r: u32) {
        self.tile_height
    }
}

} // verus!
