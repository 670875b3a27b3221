use vstd::prelude::*;

use image::{imageops, ImageBuffer, Rgba, RgbaImage};

verus! {

/// The number of bytes of a pixel: red, green, blue and alpha.
pub const CHANNELS: usize = 4;

/// What an image is made of: its size in pixels and the bytes of its
/// pixels, row by row from the top, each pixel as red, green, blue and alpha.
pub struct ImageView {
    /// The number of pixels in a row.
    pub width: u32,
    /// The number of rows.
    pub height: u32,
    /// The bytes of the pixels.
    pub data: Seq<u8>,
}

/// The number of bytes of an image of the given size.
pub open spec fn buffer_len(width: u32, height: u32) -> int {
    CHANNELS * width * height
}

/// The byte of channel `channel` of the pixel in column `x` and row `y`, in
/// the bytes of an image with rows of `width` pixels.
pub open spec fn sample(data: Seq<u8>, width: int, x: int, y: int, channel: int) -> u8 {
    data[CHANNELS * (y * width + x) + channel]
}

/// The bytes of an image turned by 90 degrees clockwise. The turned image
/// has rows of `height` pixels, and its pixel in column `x` and row `y` is
/// the pixel of the image in column `y` and in the row that is as far from
/// the bottom as `x` is from the left.
pub open spec fn rotated_data(data: Seq<u8>, width: u32, height: u32) -> Seq<u8> {
    Seq::new(
        data.len(),
        |i: int|
            {
                let pixel = i / CHANNELS as int;
                let x = pixel % height as int;
                let y = pixel / height as int;
                sample(data, width as int, y, height - 1 - x, i % CHANNELS as int)
            },
    )
}

/// The bytes of an image mirrored left to right: its pixel in column `x` is
/// the pixel of the image in the same row and in the column that is as far
/// from the right as `x` is from the left.
pub open spec fn flipped_data(data: Seq<u8>, width: u32, height: u32) -> Seq<u8> {
    Seq::new(
        data.len(),
        |i: int|
            {
                let pixel = i / CHANNELS as int;
                let x = pixel % width as int;
                let y = pixel / width as int;
                sample(data, width as int, width - 1 - x, y, i % CHANNELS as int)
            },
    )
}

/// The bytes of the image `bottom` after the image `top` was laid over it
/// with its corner at column `x` and row `y`, cut to `width` columns and
/// `height` rows and to the edges of `bottom`: what `imageops::overlay`
/// leaves in `bottom` when it lays `top` over the view that `imageops::crop`
/// gives of `bottom`. Where a pixel of `top` comes to lie, the pixel of
/// `bottom` is blended with it.
pub uninterp spec fn overlaid(
    bottom: Seq<u8>,
    bottom_width: u32,
    bottom_height: u32,
    top: Seq<u8>,
    top_width: u32,
    top_height: u32,
    x: u32,
    y: u32,
    width: u32,
    height: u32,
) -> Seq<u8>;

/// `ImageBuffer::new` for pixels of red, green, blue and alpha, then
/// `into_raw`: the bytes of an image of the given size, all of them zero.
#[verifier::external_body]
fn blank_buffer(width: u32, height: u32) -> (r: Vec<u8>)
    requires
        buffer_len(width, height) <= isize::MAX,
    ensures
        r@.len() == buffer_len(width, height),
        forall|i: int| 0 <= i < r@.len() ==> r@[i] == 0,
{
    RgbaImage::new(width, height).into_raw()
}

/// `imageops::rotate90` on the image that `ImageBuffer::from_raw` makes of
/// the bytes, then `into_raw`: the bytes of the image turned by 90 degrees
/// clockwise.
#[verifier::external_body]
fn rotated_buffer(data: &Vec<u8>, width: u32, height: u32) -> (r: Vec<u8>)
    requires
        data@.len() == buffer_len(width, height),
    ensures
        r@ == rotated_data(data@, width, height),
{
    let source = ImageBuffer::<Rgba<u8>, &[u8]>::from_raw(width, height, data.as_slice());
    imageops::rotate90(&source.expect("the bytes fill the image")).into_raw()
}

/// `imageops::flip_horizontal_in_place` on the image that
/// `ImageBuffer::from_raw` makes of the bytes, then `into_raw`: the bytes of
/// the image mirrored left to right.
#[verifier::external_body]
fn flipped_buffer(data: Vec<u8>, width: u32, height: u32) -> (r: Vec<u8>)
    requires
        data@.len() == buffer_len(width, height),
    ensures
        r@ == flipped_data(data@, width, height),
{
    let mut image = RgbaImage::from_raw(width, height, data).expect("the bytes fill the image");
    imageops::flip_horizontal_in_place(&mut image);
    image.into_raw()
}

/// `imageops::crop` at the given corner with the given size, then
/// `imageops::overlay` of the top image at the corner of that view, on the
/// images that `ImageBuffer::from_raw` makes of the bytes: the bytes of the
/// bottom image after that, as many as before.
#[verifier::external_body]
fn overlaid_buffer(
    bottom: Vec<u8>,
    bottom_size: (u32, u32),
    top: &Vec<u8>,
    top_size: (u32, u32),
    corner: (u32, u32),
    size: (u32, u32),
) -> (r: Vec<u8>)
    requires
        bottom@.len() == buffer_len(bottom_size.0, bottom_size.1),
        top@.len() == buffer_len(top_size.0, top_size.1),
    ensures
        r@ == overlaid(
            bottom@,
            bottom_size.0,
            bottom_size.1,
            top@,
            top_size.0,
            top_size.1,
            corner.0,
            corner.1,
            size.0,
            size.1,
        ),
        r@.len() == bottom@.len(),
{
    let mut image = RgbaImage::from_raw(bottom_size.0, bottom_size.1, bottom).expect("fits");
    let top = ImageBuffer::<Rgba<u8>, &[u8]>::from_raw(top_size.0, top_size.1, top.as_slice());
    let mut view = imageops::crop(&mut image, corner.0, corner.1, size.0, size.1);
    imageops::overlay(&mut *view, &top.expect("fits"), 0, 0);
    image.into_raw()
}

/// A raster image with pixels of red, green, blue and alpha, one byte each.
#[derive(Debug, PartialEq, Eq, Hash)]
pub struct Image {
    width: u32,
    height: u32,
    data: Vec<u8>,
}

impl View for Image {
    type V = ImageView;

    closed spec fn view(&self) -> ImageView {
        ImageView { width: self.width, height: self.height, data: self.data@ }
    }
}

impl Clone for Image {
    fn clone(&self) -> (r: Self)
        ensures
            r@ == self@,
    {
        proof {
            use_type_invariant(self);
        }
        let data = self.data.clone();
        assert(data@ =~= self.data@);
        Image { width: self.width, height: self.height, data }
    }
}

impl Image {
    /// An image holds four bytes for each of its pixels.
    #[verifier::type_invariant]
    spec fn filled(self) -> bool {
        self.data@.len() == buffer_len(self.width, self.height)
    }

    /// Creates an image of the given size with every byte zero, which is a
    /// fully transparent image.
    pub fn new(width: u32, height: u32) -> (r: Self)
        requires
            buffer_len(width, height) <= isize::MAX,
        ensures
            r@ == ImageView::blank(width, height),
    {
        let data = blank_buffer(width, height);
        assert(data@ =~= ImageView::blank(width, height).data);
        Image { width, height, data }
    }

    /// Creates an image of the given size from the bytes of its pixels, if
    /// they are as many as the size asks for.
    pub fn from_raw(width: u32, height: u32, data: Vec<u8>) -> (r: Option<Self>)
        ensures
            match r {
                Some(image) => data@.len() == buffer_len(width, height) && image@ == (ImageView {
                    width,
                    height,
                    data: data@,
                }),
                None => data@.len() != buffer_len(width, height),
            },
    {
        assert(0 <= width * height <= 0xFFFF_FFFF * 0xFFFF_FFFF) by (nonlinear_arith)
            requires
                0 <= width <= 0xFFFF_FFFF,
                0 <= height <= 0xFFFF_FFFF,
        ;
        let pixels: u128 = width as u128 * height as u128;
        let bytes: u128 = pixels * CHANNELS as u128;
        assert(bytes == buffer_len(width, height)) by (nonlinear_arith)
            requires
                bytes == (width * height) * CHANNELS,
        ;
        if bytes == data.len() as u128 {
            Some(Image { width, height, data })
        } else {
            None
        }
    }

    /// The width of this image.
    pub fn width(&self) -> (r: u32)
        ensures
            r == self@.width,
    {
        self.width
    }

    /// The height of this image.
    pub fn height(&self) -> (r: u32)
        ensures
            r == self@.height,
    {
        self.height
    }

    /// Returns the bytes of the pixels, which are as many as the size of the
    /// image asks for.
    pub fn as_raw(&self) -> (r: &Vec<u8>)
        ensures
            r@ == self@.data,
            r@.len() == buffer_len(self@.width, self@.height),
    {
        proof {
            use_type_invariant(self);
        }
        &self.data
    }

    /// Returns the bytes of the pixels.
    pub fn into_raw(self) -> (r: Vec<u8>)
        ensures
            r@ == self@.data,
    {
        self.data
    }

    /// Returns the image turned by 90 degrees clockwise.
    pub fn rotate90(&self) -> (r: Self)
        ensures
            r@ == self@.rotated(),
    {
        proof {
            use_type_invariant(self);
            assert(buffer_len(self.height, self.width) == buffer_len(self.width, self.height))
                by (nonlinear_arith);
        }
        Image {
            width: self.height,
            height: self.width,
            data: rotated_buffer(&self.data, self.width, self.height),
        }
    }

    /// Returns the image mirrored left to right.
    pub fn flip_horizontal(self) -> (r: Self)
        ensures
            r@ == self@.flipped(),
    {
        proof {
            use_type_invariant(&self);
        }
        let width = self.width;
        let height = self.height;
        Image { width, height, data: flipped_buffer(self.data, width, height) }
    }

    /// Returns the image with `top` laid over it: the corner of `top` goes
    /// to column `corner.0` and row `corner.1`, and `top` is cut to
    /// `size.0` columns and `size.1` rows and to the edges of the image.
    pub fn overlay(self, top: &Image, corner: (u32, u32), size: (u32, u32)) -> (r: Self)
        ensures
            r@ == self@.with_overlay(top@, corner, size),
    {
        proof {
            use_type_invariant(&self);
            use_type_invariant(top);
        }
        let width = self.width;
        let height = self.height;
        let data = overlaid_buffer(
            self.data,
            (width, height),
            &top.data,
            (top.width, top.height),
            corner,
            size,
        );
        Image { width, height, data }
    }
}

impl ImageView {
    /// The image turned by 90 degrees clockwise.
    pub open spec fn rotated(self) -> ImageView {
        ImageView {
            width: self.height,
            height: self.width,
            data: rotated_data(self.data, self.width, self.height),
        }
    }

    /// The image mirrored left to right.
    pub open spec fn flipped(self) -> ImageView {
        ImageView { data: flipped_data(self.data, self.width, self.height), ..self }
    }

    /// The image of the given size with every byte zero.
    pub open spec fn blank(width: u32, height: u32) -> ImageView {
        ImageView { width, height, data: Seq::new(buffer_len(width, height) as nat, |i: int| 0u8) }
    }

    /// The image with `top` laid over it: the corner of `top` goes to column
    /// `corner.0` and row `corner.1`, and `top` is cut to `size.0` columns
    /// and `size.1` rows and to the edges of the image.
    pub open spec fn with_overlay(
        self,
        top: ImageView,
        corner: (u32, u32),
        size: (u32, u32),
    ) -> ImageView {
        ImageView {
            data: overlaid(
                self.data,
                self.width,
                self.height,
                top.data,
                top.width,
                top.height,
                corner.0,
                corner.1,
                size.0,
                size.1,
            ),
            ..self
        }
    }
}

} // verus!
