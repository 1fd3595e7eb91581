use std::borrow::Cow;
use vstd::prelude::*;
use x11rb::errors::ParseError;
use x11rb::image::{BitsPerPixel, Image, ImageOrder, ScanlinePad};

use crate::pixels::{fits_x_image, IconBitmap, IconError};

verus! {

/// x11rb's `image::Image`, an image in a format the X server reads; opaque
/// here.
#[verifier::external_type_specification]
#[verifier::external_body]
pub struct ExXImage<'a>(Image<'a>);

/// x11rb's `errors::ParseError`, the error `Image::new` gives; opaque here.
#[verifier::external_type_specification]
#[verifier::external_body]
pub struct ExXParseError(ParseError);

/// An image in the format the dock sends its icons in, with what it holds:
/// its size, pixel format and bytes. Only `x_image_bgra32` makes one.
pub struct XImage {
    image: Image<'static>,
    width: Ghost<u16>,
    height: Ghost<u16>,
    depth: Ghost<u8>,
    bits_per_pixel: Ghost<u8>,
    scanline_pad: Ghost<u8>,
    msb_first: Ghost<bool>,
    data: Ghost<Seq<u8>>,
}

impl XImage {
    /// Width in pixels.
    pub closed spec fn width(&self) -> u16 {
        self.width@
    }

    /// Height in pixels.
    pub closed spec fn height(&self) -> u16 {
        self.height@
    }

    /// Colour depth in bits.
    pub closed spec fn depth(&self) -> u8 {
        self.depth@
    }

    /// Bits each pixel takes.
    pub closed spec fn bits_per_pixel(&self) -> u8 {
        self.bits_per_pixel@
    }

    /// Bits each scanline is padded to a multiple of.
    pub closed spec fn scanline_pad(&self) -> u8 {
        self.scanline_pad@
    }

    /// Whether bytes are ordered most significant first.
    pub closed spec fn msb_first(&self) -> bool {
        self.msb_first@
    }

    /// The image's bytes.
    pub closed spec fn data(&self) -> Seq<u8> {
        self.data@
    }

    /// The x11rb image, to send to the X server.
    pub fn image(&self) -> &Image<'static> {
        &self.image
    }
}

/// `x11rb::image::Image::new` for pixels of 32 bits (depth 24), scanlines
/// padded to a byte, most significant byte first, on an owned copy of all
/// of `data`. x11rb's source computes the stride as `width * 32` bits
/// rounded up to a multiple of 8, i.e. `4 * width` bytes, refuses the data
/// exactly when it holds fewer than `height * stride` bytes (that product is
/// computed in `usize`), and otherwise keeps width, height, format and the
/// bytes as given.
#[verifier::external_body]
fn x_image_bgra32(width: u16, height: u16, data: &[u8]) -> (r: Result<XImage, ParseError>)
    requires
        4 * width * height <= usize::MAX,
    ensures
        r is Ok <==> fits_x_image(width, height, data@.len()),
        r matches Ok(img) ==> {
            &&& img.width() == width
            &&& img.height() == height
            &&& img.depth() == 24
            &&& img.bits_per_pixel() == 32
            &&& img.scanline_pad() == 8
            &&& img.msb_first()
            &&& img.data() == data@
        },
{
    let image = Image::new(width, height, ScanlinePad::Pad8, 24, BitsPerPixel::B32, ImageOrder::MsbFirst, Cow::Owned(data.to_vec()))?;
    let (depth, bits_per_pixel, scanline_pad) = (Ghost(24), Ghost(32), Ghost(8));
    Ok(XImage { image, width: Ghost(width), height: Ghost(height), depth, bits_per_pixel, scanline_pad, msb_first: Ghost(true), data: Ghost(data@) })
}

/// The X image of a launcher's icon bitmap: 32-bit pixels of depth 24,
/// scanlines padded to a byte, most significant byte first, with the
/// bitmap's size and all of its bytes. It fails only when the bitmap holds
/// fewer bytes than its size asks for.
pub fn icon_x_image(bitmap: &IconBitmap) -> (r: Result<XImage, IconError>)
    requires
        4 * bitmap.width * bitmap.height <= usize::MAX,
    ensures
        r is Ok <==> fits_x_image(bitmap.width, bitmap.height, bitmap.data@.len()),
        r matches Err(e) ==> e == IconError::DataTooShort,
        r matches Ok(img) ==> {
            &&& img.width() == bitmap.width
            &&& img.height() == bitmap.height
            &&& img.depth() == 24
            &&& img.bits_per_pixel() == 32
            &&& img.scanline_pad() == 8
            &&& img.msb_first()
            &&& img.data() == bitmap.data@
        },
{
    match x_image_bgra32(bitmap.width, bitmap.height, bitmap.data.as_slice()) {
        Ok(image) => Ok(image),
        Err(_) => Err(IconError::DataTooShort),
    }
}

} // verus!
