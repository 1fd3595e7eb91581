use vstd::prelude::*;

verus! {

/// Byte `i` of `data` once each complete RGBA pixel is turned into the
/// byte order the X server expects (blue, green, red, alpha). A fully
/// transparent pixel becomes opaque grey (`a0 a0 a0 ff`); bytes of an
/// incomplete pixel at the end stay as they are.
pub open spec fn x11_byte(data: Seq<u8>, i: int) -> u8 {
    let p = i - i % 4;
    if p + 4 > data.len() {
        data[i]
    } else if data[p + 3] == 0 {
        if i % 4 == 3 { 0xffu8 } else { 0xa0u8 }
    } else if i % 4 == 0 {
        data[p + 2]
    } else if i % 4 == 1 {
        data[p + 1]
    } else if i % 4 == 2 {
        data[p]
    } else {
        data[p + 3]
    }
}

/// All of `data` turned into the X server's pixel byte order.
pub open spec fn x11_pixels(data: Seq<u8>) -> Seq<u8> {
    Seq::new(data.len(), |i: int| x11_byte(data, i))
}

/// Rewrites RGBA pixels in place into the order (blue, green, red, alpha)
/// the X server reads them in, painting fully transparent pixels opaque grey.
pub fn rgba_to_x11(data: &mut Vec<u8>)
    ensures
        final(data)@ == x11_pixels(old(data)@),
{
    let ghost orig = data@;
    let len = data.len();
    let mut i: usize = 0;
    while 4 <= len - i
        invariant
            len == data@.len() == orig.len(),
            i % 4 == 0,
            i <= len,
            forall|k: int| 0 <= k < i ==> #[trigger] data@[k] == x11_byte(orig, k),
            forall|k: int| i <= k < len ==> #[trigger] data@[k] == orig[k],
        decreases len - i,
    {
        let r = data[i];
        let g = data[i + 1];
        let b = data[i + 2];
        let a = data[i + 3];
        if a == 0 {
            data.set(i, 0xa0);
            data.set(i + 1, 0xa0);
            data.set(i + 2, 0xa0);
            data.set(i + 3, 0xff);
        } else {
            data.set(i, b);
            data.set(i + 1, g);
            data.set(i + 2, r);
            data.set(i + 3, a);
        }
        proof {
            assert forall|k: int| i <= k < i + 4 implies #[trigger] data@[k] == x11_byte(orig, k) by {
                assert(k - k % 4 == i);
            }
        }
        i = i + 4;
    }
    proof {
        assert forall|k: int| i <= k < len implies data@[k] == x11_byte(orig, k) by {
            assert(k - k % 4 + 4 > len);
        }
    }
    assert(data@ =~= x11_pixels(orig));
}

/// `n` zero bytes.
pub open spec fn zeros(n: nat) -> Seq<u8> {
    Seq::new(n, |i: int| 0u8)
}

/// A fully transparent black image of `width` by `height` pixels, four
/// bytes per pixel.
pub fn blank_image(width: u16, height: u16) -> (r: Vec<u8>)
    requires
        4 * width * height <= usize::MAX,
    ensures
        r@ == zeros((4 * width * height) as nat),
{
    let size: usize = 4usize * (width as usize) * (height as usize);
    let mut data: Vec<u8> = Vec::new();
    let mut i: usize = 0;
    while i < size
        invariant
            i <= size,
            data@ == zeros(i as nat),
        decreases size - i,
    {
        data.push(0);
        i = i + 1;
    }
    data
}

/// Where the pixels of a launcher's icon come from.
pub enum IconSource {
    /// A raster image already scaled to fit the launcher, as RGBA bytes.
    Raster { width: u32, height: u32, rgba: Vec<u8> },
    /// A vector image rendered at exactly the launcher's size. Its bytes are
    /// passed to the X server as they are: red, green, blue, alpha
    /// (premultiplied), not reordered as raster pixels are.
    Vector { rgba: Vec<u8> },
    /// Neither could be loaded.
    Missing,
}

/// Pixels ready to be sent to the X server: `width` by `height` pixels in
/// `data`, four bytes each.
pub struct IconBitmap {
    pub width: u16,
    pub height: u16,
    pub data: Vec<u8>,
}

/// Why no icon image could be made.
#[derive(Debug, PartialEq, Eq, Structural)]
pub enum IconError {
    /// The raster image is wider or higher than an X image can be.
    SizeTooLarge,
    /// There are fewer bytes than the image's size asks for.
    DataTooShort,
}

/// What `icon_bitmap` gives: width, height and bytes of the bitmap, or why
/// there is none.
pub open spec fn icon_bitmap_spec(source: IconSource, width: u16, height: u16) -> Result<
    (u16, u16, Seq<u8>),
    IconError,
> {
    match source {
        IconSource::Raster { width: w, height: h, rgba } => {
            if w > u16::MAX || h > u16::MAX {
                Err(IconError::SizeTooLarge)
            } else {
                Ok((w as u16, h as u16, x11_pixels(rgba@)))
            }
        },
        IconSource::Vector { rgba } => Ok((width, height, rgba@)),
        IconSource::Missing => Ok((width, height, zeros((4 * width * height) as nat))),
    }
}

/// The width, height and bytes of a bitmap.
pub open spec fn bitmap_view(b: IconBitmap) -> (u16, u16, Seq<u8>) {
    (b.width, b.height, b.data@)
}

/// The bitmap of a launcher's icon of `width` by `height` pixels: a raster
/// image keeps its own size and is turned into the X server's byte order
/// (it must fit in 16-bit dimensions); a rendered vector image is taken as
/// it is; with no image the icon is transparent black.
pub fn icon_bitmap(source: IconSource, width: u16, height: u16) -> (r: Result<IconBitmap, IconError>)
    requires
        source is Missing ==> 4 * width * height <= usize::MAX,
    ensures
        match r {
            Ok(b) => icon_bitmap_spec(source, width, height) == Ok::<(u16, u16, Seq<u8>), IconError>(bitmap_view(b)),
            Err(e) => icon_bitmap_spec(source, width, height) == Err::<(u16, u16, Seq<u8>), IconError>(e),
        },
{
    match source {
        IconSource::Raster { width: w, height: h, rgba } => {
            if w > 65535 || h > 65535 {
                Err(IconError::SizeTooLarge)
            } else {
                let mut data = rgba;
                rgba_to_x11(&mut data);
                Ok(IconBitmap { width: w as u16, height: h as u16, data })
            }
        },
        IconSource::Vector { rgba } => Ok(IconBitmap { width, height, data: rgba }),
        IconSource::Missing => Ok(IconBitmap { width, height, data: blank_image(width, height) }),
    }
}

/// Whether `len` bytes are enough for an X image of `width` by `height`
/// pixels of four bytes each.
pub open spec fn fits_x_image(width: u16, height: u16, len: nat) -> bool {
    len >= 4 * width * height
}

/// Whether every complete pixel of `data` is at least partly opaque.
pub open spec fn all_opaque(data: Seq<u8>) -> bool {
    forall|p: int| 0 <= p && 4 * p + 4 <= data.len() ==> #[trigger] data[4 * p + 3] != 0
}

/// Law: on pixels that are not fully transparent the conversion only swaps
/// red and blue, so doing it twice gives the pixels back.
pub proof fn lemma_x11_pixels_twice(data: Seq<u8>)
    requires
        all_opaque(data),
    ensures
        x11_pixels(x11_pixels(data)) == data,
{
    let once = x11_pixels(data);
    assert forall|i: int| 0 <= i < data.len() implies #[trigger] x11_pixels(once)[i] == data[i] by {
        let p = i - i % 4;
        if p + 4 <= data.len() {
            assert(data[4 * (p / 4) + 3] != 0);
            assert(4 * (p / 4) == p);
            assert(once[p + 3] == data[p + 3]);
            assert(once[p] == data[p + 2]);
            assert(once[p + 2] == data[p]);
            assert(once[p + 1] == data[p + 1]);
            assert((p + 3) - (p + 3) % 4 == p);
            assert((p + 2) - (p + 2) % 4 == p);
            assert((p + 1) - (p + 1) % 4 == p);
        }
    }
    assert(x11_pixels(once) =~= data);
}

/// Whether `source` has at least as many bytes as its size asks for, for an
/// icon of `width` by `height` pixels.
pub open spec fn well_formed_source(source: IconSource, width: u16, height: u16) -> bool {
    match source {
        IconSource::Raster { width: w, height: h, rgba } => rgba@.len() >= 4 * w * h,
        IconSource::Vector { rgba } => rgba@.len() >= 4 * width * height,
        IconSource::Missing => true,
    }
}

/// Law: a bitmap made from a well-formed source always holds enough bytes
/// for its X image, so making the image cannot fail.
pub proof fn lemma_bitmap_fits(source: IconSource, width: u16, height: u16)
    requires
        well_formed_source(source, width, height),
    ensures
        icon_bitmap_spec(source, width, height) matches Ok((w, h, data)) ==> fits_x_image(w, h, data.len()),
{
}

/// Law: each complete pixel is converted on its own: a fully transparent
/// one becomes opaque grey `a0 a0 a0 ff` whatever its colour, any other
/// has red and blue exchanged; bytes of an incomplete last pixel stay.
pub proof fn law_pixel_conversion(data: Seq<u8>)
    ensures
        x11_pixels(data).len() == data.len(),
        forall|p: int|
            #![trigger data[4 * p + 3]]
            0 <= p && 4 * p + 4 <= data.len() && data[4 * p + 3] == 0 ==> {
                let out = x11_pixels(data);
                &&& out[4 * p] == 0xa0
                &&& out[4 * p + 1] == 0xa0
                &&& out[4 * p + 2] == 0xa0
                &&& out[4 * p + 3] == 0xff
            },
        forall|p: int|
            #![trigger data[4 * p + 3]]
            0 <= p && 4 * p + 4 <= data.len() && data[4 * p + 3] != 0 ==> {
                let out = x11_pixels(data);
                &&& out[4 * p] == data[4 * p + 2]
                &&& out[4 * p + 1] == data[4 * p + 1]
                &&& out[4 * p + 2] == data[4 * p]
                &&& out[4 * p + 3] == data[4 * p + 3]
            },
        forall|i: int| 0 <= i < data.len() && i >= 4 * (data.len() / 4) ==> #[trigger] x11_pixels(data)[i] == data[i],
{
    let out = x11_pixels(data);
    assert forall|p: int|
        #![trigger data[4 * p + 3]]
        0 <= p && 4 * p + 4 <= data.len() implies {
        &&& data[4 * p + 3] == 0 ==> {
            &&& out[4 * p] == 0xa0
            &&& out[4 * p + 1] == 0xa0
            &&& out[4 * p + 2] == 0xa0
            &&& out[4 * p + 3] == 0xff
        }
        &&& data[4 * p + 3] != 0 ==> {
            &&& out[4 * p] == data[4 * p + 2]
            &&& out[4 * p + 1] == data[4 * p + 1]
            &&& out[4 * p + 2] == data[4 * p]
            &&& out[4 * p + 3] == data[4 * p + 3]
        }
    } by {
        assert((4 * p) % 4 == 0);
        assert((4 * p + 1) % 4 == 1);
        assert((4 * p + 2) % 4 == 2);
        assert((4 * p + 3) % 4 == 3);
    }
    assert forall|i: int| 0 <= i < data.len() && i >= 4 * (data.len() / 4) implies #[trigger] x11_pixels(data)[i]
        == data[i] by {
        assert(i - i % 4 + 4 > data.len());
    }
}

} // verus!
