use vstd::prelude::*;

verus! {

/// Side of the square window icon, in pixels.
pub const ICON_SIDE: u32 = 128;

/// Bytes of the window icon: `ICON_SIDE` × `ICON_SIDE` RGBA pixels.
pub const ICON_BYTES: usize = 128 * 128 * 4;

/// A decoded image: its size and its pixels as RGBA bytes, row by row.
pub struct DecodedImage {
    pub width: u32,
    pub height: u32,
    pub rgba: Vec<u8>,
}

/// What `image::load_from_memory` followed by `to_rgba8` gives for a file's
/// bytes: the width, the height and the RGBA bytes, or `None` where the
/// bytes are no image the crate decodes.
pub uninterp spec fn decoded_rgba8(bytes: Seq<u8>) -> Option<(u32, u32, Seq<u8>)>;

/// The resampling filters of `image::imageops::FilterType`.
#[derive(Debug, Clone, Copy, PartialEq, Eq, Structural)]
pub enum ResizeFilter {
    Nearest,
    Triangle,
    CatmullRom,
    Gaussian,
    Lanczos3,
}

/// Decodes an image file held in memory with `image::load_from_memory`
/// (the format guessed from the bytes) and converts it to 8-bit RGBA with
/// `DynamicImage::to_rgba8`. The contract names the result; of it, it
/// states that the pixel buffer holds four bytes for each pixel (the
/// decoders fill a buffer of exactly width × height pixels, and the RGBA
/// conversion keeps the size).
#[verifier::external_body]
fn decode_rgba8(bytes: &[u8]) -> (r: Option<DecodedImage>)
    ensures
        match r {
            Some(img) => {
                &&& decoded_rgba8(bytes@) == Some((img.width, img.height, img.rgba@))
                &&& img.rgba@.len() == 4 * img.width * img.height
            },
            None => decoded_rgba8(bytes@) is None,
        },
{
    match image::load_from_memory(bytes) {
        Ok(img) => {
            let rgba = img.to_rgba8();
            Some(DecodedImage { width: rgba.width(), height: rgba.height(), rgba: rgba.into_raw() })
        },
        Err(_) => None,
    }
}

/// Decodes an image file held in memory with `image::load_from_memory`,
/// scales it to `side` × `side` with `DynamicImage::resize_exact` and the
/// given filter, and converts it to 8-bit RGBA bytes with `to_rgba8`. It
/// fails exactly where the decoding fails, and gives four bytes for each of
/// the `side` × `side` pixels. What the pixels are is not stated: the
/// resampling computes with `f32` functions whose rounding std leaves open.
#[verifier::external_body]
fn decode_square_rgba8(bytes: &[u8], side: u32, filter: ResizeFilter) -> (r: Option<Vec<u8>>)
    requires
        side * side * 4 <= usize::MAX,
    ensures
        r is None <==> decoded_rgba8(bytes@) is None,
        r matches Some(px) ==> px@.len() == side * side * 4,
{
    let filter = match filter {
        ResizeFilter::Nearest => image::imageops::FilterType::Nearest,
        ResizeFilter::Triangle => image::imageops::FilterType::Triangle,
        ResizeFilter::CatmullRom => image::imageops::FilterType::CatmullRom,
        ResizeFilter::Gaussian => image::imageops::FilterType::Gaussian,
        ResizeFilter::Lanczos3 => image::imageops::FilterType::Lanczos3,
    };
    match image::load_from_memory(bytes) {
        Ok(img) => Some(img.resize_exact(side, side, filter).to_rgba8().into_raw()),
        Err(_) => None,
    }
}

/// An uploaded image file (a logo or the background) decoded to RGBA for
/// display; `None` where the bytes are no image.
pub fn decode_image(bytes: &[u8]) -> (r: Option<DecodedImage>)
    ensures
        match r {
            Some(img) => {
                &&& decoded_rgba8(bytes@) == Some((img.width, img.height, img.rgba@))
                &&& img.rgba@.len() == 4 * img.width * img.height
            },
            None => decoded_rgba8(bytes@) is None,
        },
{
    decode_rgba8(bytes)
}

/// The window icon's pixels: the decoded icon where there is one, else a
/// fully transparent black square.
pub fn icon_pixels_or_blank(decoded: Option<Vec<u8>>) -> (r: Vec<u8>)
    ensures
        r@ == match decoded {
            Some(px) => px@,
            None => Seq::new(ICON_BYTES as nat, |i: int| 0u8),
        },
{
    match decoded {
        Some(px) => px,
        None => {
            let mut px: Vec<u8> = Vec::new();
            let mut i: usize = 0;
            while i < ICON_BYTES
                invariant
                    i <= ICON_BYTES,
                    px@ == Seq::new(i as nat, |j: int| 0u8),
                decreases ICON_BYTES - i,
            {
                px.push(0);
                i = i + 1;
                proof {
                    assert(px@ =~= Seq::new(i as nat, |j: int| 0u8));
                }
            }
            px
        },
    }
}

/// The window icon: the icon file's image scaled to `ICON_SIDE` pixels
/// square with the Lanczos3 filter, or a blank square where the file is no
/// image. Either way it holds `ICON_BYTES` bytes.
pub fn window_icon_rgba(bytes: &[u8]) -> (r: Vec<u8>)
    ensures
        r@.len() == ICON_BYTES,
        decoded_rgba8(bytes@) is None ==> r@ == Seq::new(ICON_BYTES as nat, |i: int| 0u8),
{
    icon_pixels_or_blank(decode_square_rgba8(bytes, ICON_SIDE, ResizeFilter::Lanczos3))
}

} // verus!
