use image::imageops::FilterType;
use image::{DynamicImage, ImageFormat};
use vstd::prelude::*;

use crate::pixels::{well_formed_source, IconSource};

verus! {

/// The image crate's `ImageFormat`; opaque here.
#[verifier::external_type_specification]
#[verifier::external_body]
pub struct ExImageFormat(ImageFormat);

/// The image crate's `DynamicImage`; opaque here.
#[verifier::external_type_specification]
#[verifier::external_body]
pub struct ExDynamicImage(DynamicImage);

/// The raster formats the image crate knows by a file extension.
pub enum RasterFormat {
    Avif,
    Jpeg,
    Png,
    Gif,
    WebP,
    Tiff,
    Tga,
    Dds,
    Bmp,
    Ico,
    Hdr,
    OpenExr,
    Pnm,
    Farbfeld,
    Qoi,
}

/// How an image was obtained: decoded from bytes in a format, or fitted
/// into a size from another image. The image crate's functions depend on
/// nothing else, so this fixes the image.
pub enum ImageOrigin {
    Decoded(Seq<u8>, RasterFormat),
    Fitted(Box<ImageOrigin>, u32, u32),
}

/// Width and height of the image that `image::load_from_memory_with_format`
/// decodes from `bytes` in `format`, or `None` when it refuses them.
pub uninterp spec fn decoded_size(bytes: Seq<u8>, format: RasterFormat) -> Option<(u32, u32)>;

/// Width and height that `DynamicImage::resize` gives an image of `width`
/// by `height` pixels fitted into `target_width` by `target_height`.
pub uninterp spec fn fitted_size(width: u32, height: u32, target_width: u32, target_height: u32) -> (u32, u32);

/// The bytes that `DynamicImage::into_rgba8` gives of the image obtained as
/// `origin` says: red, green, blue, alpha, row by row.
pub uninterp spec fn rgba_samples(origin: ImageOrigin) -> Seq<u8>;

/// A decoded raster image with its size in pixels and how it was obtained.
/// Only the image crate's wrappers below make one, from the image itself
/// and the arguments they were given.
pub struct DecodedImage {
    image: DynamicImage,
    width: u32,
    height: u32,
    origin: Ghost<ImageOrigin>,
}

impl DecodedImage {
    /// Width in pixels.
    pub closed spec fn pixel_width(&self) -> u32 {
        self.width
    }

    /// Height in pixels.
    pub closed spec fn pixel_height(&self) -> u32 {
        self.height
    }

    /// How the image was obtained.
    pub closed spec fn origin(&self) -> ImageOrigin {
        self.origin@
    }
}

/// `c` with an ASCII capital letter made small.
pub open spec fn ascii_lower(c: char) -> char {
    if 65 <= (c as int) <= 90 {
        ((c as int) + 32) as char
    } else {
        c
    }
}

/// `s` with its ASCII capital letters made small.
pub open spec fn ascii_lower_text(s: Seq<char>) -> Seq<char> {
    s.map_values(|c: char| ascii_lower(c))
}

/// The format a file extension names, as `ImageFormat::from_extension`
/// gives it: by the extension with its ASCII letters made small.
pub open spec fn raster_format(ext: Seq<char>) -> Option<RasterFormat> {
    let l = ascii_lower_text(ext);
    if l == seq!['a', 'v', 'i', 'f'] {
        Some(RasterFormat::Avif)
    } else if l == seq!['j', 'p', 'g'] || l == seq!['j', 'p', 'e', 'g'] {
        Some(RasterFormat::Jpeg)
    } else if l == seq!['p', 'n', 'g'] {
        Some(RasterFormat::Png)
    } else if l == seq!['g', 'i', 'f'] {
        Some(RasterFormat::Gif)
    } else if l == seq!['w', 'e', 'b', 'p'] {
        Some(RasterFormat::WebP)
    } else if l == seq!['t', 'i', 'f'] || l == seq!['t', 'i', 'f', 'f'] {
        Some(RasterFormat::Tiff)
    } else if l == seq!['t', 'g', 'a'] {
        Some(RasterFormat::Tga)
    } else if l == seq!['d', 'd', 's'] {
        Some(RasterFormat::Dds)
    } else if l == seq!['b', 'm', 'p'] {
        Some(RasterFormat::Bmp)
    } else if l == seq!['i', 'c', 'o'] {
        Some(RasterFormat::Ico)
    } else if l == seq!['h', 'd', 'r'] {
        Some(RasterFormat::Hdr)
    } else if l == seq!['e', 'x', 'r'] {
        Some(RasterFormat::OpenExr)
    } else if l == seq!['p', 'b', 'm'] || l == seq!['p', 'a', 'm'] || l == seq!['p', 'p', 'm'] || l
        == seq!['p', 'g', 'm'] {
        Some(RasterFormat::Pnm)
    } else if l == seq!['f', 'f'] || l == seq!['f', 'a', 'r', 'b', 'f', 'e', 'l', 'd'] {
        Some(RasterFormat::Farbfeld)
    } else if l == seq!['q', 'o', 'i'] {
        Some(RasterFormat::Qoi)
    } else {
        None
    }
}

/// A raster format of the image crate, with the one it is among the
/// formats it knows. Only `image_format` makes one.
pub struct KnownFormat {
    format: ImageFormat,
    kind: Ghost<RasterFormat>,
}

impl KnownFormat {
    /// Which format it is.
    pub closed spec fn kind(&self) -> RasterFormat {
        self.kind@
    }
}

/// `ImageFormat::from_extension`: the raster format a file extension
/// names. Its source lower-cases the extension's ASCII letters and maps
/// exactly the extensions `raster_format` lists to those formats.
#[verifier::external_body]
fn image_format(extension: &str) -> (r: Option<KnownFormat>)
    ensures
        r is Some <==> raster_format(extension@) is Some,
        r matches Some(f) ==> f.kind() == raster_format(extension@)->0,
{
    let format = ImageFormat::from_extension(extension)?;
    Some(KnownFormat { format, kind: Ghost(raster_format(extension@)->0) })
}

/// `image::load_from_memory_with_format`: the image `bytes` encode in
/// `format` (decoding depends on nothing else; its limits are the crate's
/// constant defaults), or `None` when the crate refuses them.
#[verifier::external_body]
fn decode_image(bytes: &[u8], format: &KnownFormat) -> (r: Option<DecodedImage>)
    ensures
        r is Some <==> decoded_size(bytes@, format.kind()) is Some,
        r matches Some(img) ==> {
            &&& (img.pixel_width(), img.pixel_height()) == decoded_size(bytes@, format.kind())->0
            &&& img.origin() == ImageOrigin::Decoded(bytes@, format.kind())
        },
{
    let origin = Ghost(ImageOrigin::Decoded(bytes@, format.kind@));
    let image = image::load_from_memory_with_format(bytes, format.format).ok()?;
    Some(DecodedImage { width: image.width(), height: image.height(), image, origin })
}

/// `DynamicImage::resize` with a Gaussian filter. Its source: an image
/// already of the target size is copied unchanged; otherwise the size is
/// the source's `resize_dimensions`, which keeps the aspect ratio as
/// floating point rounds it, fits within the target, reaches the target on
/// one side, and never makes a side smaller than one pixel.
#[verifier::external_body]
fn fit_image(img: &DecodedImage, width: u32, height: u32) -> (r: DecodedImage)
    ensures
        (r.pixel_width(), r.pixel_height()) == fitted_size(img.pixel_width(), img.pixel_height(), width, height),
        r.origin() == ImageOrigin::Fitted(Box::new(img.origin()), width, height),
        (width, height) == (img.pixel_width(), img.pixel_height()) ==> {
            &&& r.pixel_width() == width
            &&& r.pixel_height() == height
            &&& rgba_samples(r.origin()) == rgba_samples(img.origin())
        },
        width >= 1 && height >= 1 ==> 1 <= r.pixel_width() <= width && 1 <= r.pixel_height() <= height,
        width >= 1 && height >= 1 && img.pixel_width() >= 1 && img.pixel_height() >= 1 ==> (
        r.pixel_width() == width || r.pixel_height() == height),
{
    let origin = Ghost(ImageOrigin::Fitted(Box::new(img.origin@), width, height));
    let image = img.image.resize(width, height, FilterType::Gaussian);
    DecodedImage { width: image.width(), height: image.height(), image, origin }
}

/// `DynamicImage::into_rgba8`, then the bytes of the RGBA buffer. The
/// conversion keeps the size, and an image buffer always holds at least
/// `4 * width * height` bytes (its constructors check that or allocate
/// exactly that).
#[verifier::external_body]
fn into_rgba_bytes(img: DecodedImage) -> (r: (u32, u32, Vec<u8>))
    ensures
        r.0 == img.pixel_width(),
        r.1 == img.pixel_height(),
        r.2@ == rgba_samples(img.origin()),
        r.2@.len() >= 4 * r.0 * r.1,
{
    let DecodedImage { image, width, height, .. } = img;
    (width, height, image.into_rgba8().into_raw())
}

/// The raster icon that the file holding `bytes` gives, for a launcher of
/// `target_width` by `target_height` pixels, when its extension names
/// `format`: the decoded image fitted into that size, as RGBA bytes.
pub open spec fn raster_icon(bytes: Seq<u8>, format: RasterFormat, target_width: u16, target_height: u16) -> Option<
    (u32, u32, Seq<u8>),
> {
    match decoded_size(bytes, format) {
        None => None,
        Some(d) => {
            let s = fitted_size(d.0, d.1, target_width as u32, target_height as u32);
            Some(
                (
                    s.0,
                    s.1,
                    rgba_samples(
                        ImageOrigin::Fitted(
                            Box::new(ImageOrigin::Decoded(bytes, format)),
                            target_width as u32,
                            target_height as u32,
                        ),
                    ),
                ),
            )
        },
    }
}

/// The view of a loaded raster icon.
pub open spec fn raster_view(r: Option<IconSource>) -> Option<(u32, u32, Seq<u8>)> {
    match r {
        Some(IconSource::Raster { width, height, rgba }) => Some((width, height, rgba@)),
        _ => None,
    }
}

/// The raster icon that an image file's `bytes` hold, scaled to fit a
/// launcher of `width` by `height` pixels, as RGBA bytes (see
/// `raster_icon`). The file's `extension` picks the format: there is none
/// without an extension the image crate knows, or when the bytes do not
/// decode in that format.
pub fn load_scale_image(bytes: &[u8], extension: Option<&str>, width: u16, height: u16) -> (r: Option<IconSource>)
    ensures
        r matches Some(s) ==> s is Raster,
        raster_view(r) == match extension {
            None => None,
            Some(x) => match raster_format(x@) {
                None => None,
                Some(f) => raster_icon(bytes@, f, width, height),
            },
        },
        r matches Some(s) ==> well_formed_source(s, width, height),
        width >= 1 && height >= 1 ==> (r matches Some(IconSource::Raster { width: w, height: h, .. })
            ==> 1 <= w <= width && 1 <= h <= height),
{
    let ext = match extension {
        Some(x) => x,
        None => return None,
    };
    let format = match image_format(ext) {
        Some(f) => f,
        None => return None,
    };
    let decoded = match decode_image(bytes, &format) {
        Some(d) => d,
        None => return None,
    };
    let fitted = fit_image(&decoded, width as u32, height as u32);
    let (w, h, rgba) = into_rgba_bytes(fitted);
    Some(IconSource::Raster { width: w, height: h, rgba })
}

} // verus!
