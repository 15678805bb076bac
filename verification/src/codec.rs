use vstd::prelude::*;
use crate::fault::Fault;

verus! {

/// The error type of the image codec; nothing is read from it.
#[verifier::external_type_specification]
#[verifier::external_body]
pub struct ExImageError(image::ImageError);

/// The longest side, in pixels, that the stored format can describe.
pub const MAX_SIDE: u32 = 65535;

/// The quality at which derivatives are encoded.
pub const QUALITY: u8 = 100;

/// An image held as plain values: three bytes (red, green, blue) per pixel,
/// row by row from the top.
#[derive(Debug, PartialEq, Eq)]
pub struct Raster {
    pub width: u32,
    pub height: u32,
    pub pixels: Vec<u8>,
}

impl Raster {
    /// The number of bytes that a raster of the given size holds.
    pub open spec fn byte_len(width: u32, height: u32) -> int {
        width as int * height as int * 3
    }

    /// The pixel buffer has exactly the length that the sides ask for.
    pub open spec fn wf(&self) -> bool {
        self.pixels@.len() == Self::byte_len(self.width, self.height)
    }

    /// Makes a raster from its parts, or nothing where the buffer does not
    /// have the length that the sides ask for.
    pub fn new(width: u32, height: u32, pixels: Vec<u8>) -> (r: Option<Raster>)
        ensures
            r is Some <==> pixels@.len() == Self::byte_len(width, height),
            r matches Some(p) ==> p.wf() && p.width == width && p.height == height && p.pixels@
                == pixels@,
    {
        assert(width as int * height as int <= 0xffff_ffff * 0xffff_ffff) by (nonlinear_arith)
            requires
                0 <= width <= 0xffff_ffff,
                0 <= height <= 0xffff_ffff,
        ;
        let area: u128 = (width as u128) * (height as u128);
        let need: u128 = area * 3;
        if pixels.len() as u128 == need {
            Some(Raster { width, height, pixels })
        } else {
            None
        }
    }
}

/// Whether an image of this size can be encoded: both sides at least one
/// pixel and at most `MAX_SIDE`.
pub open spec fn encodable(width: u32, height: u32) -> bool {
    0 < width <= MAX_SIDE && 0 < height <= MAX_SIDE
}

/// The JPEG encoding of an 8-bit RGB image at a quality, where the encoder
/// gives one.
pub uninterp spec fn jpeg_of(width: u32, height: u32, pixels: Seq<u8>, quality: u8) -> Option<
    Seq<u8>,
>;

/// The stored form of a raster: its JPEG encoding at `QUALITY`, or
/// `StorageError` where it has none.
pub open spec fn encoded_of(width: u32, height: u32, pixels: Seq<u8>) -> Result<Seq<u8>, Fault> {
    match jpeg_of(width, height, pixels, QUALITY) {
        Some(bytes) => Ok(bytes),
        None => Err(Fault::StorageError),
    }
}

/// `bytes` are the stored form of some image of exactly `width` by `height`.
pub open spec fn depicts(bytes: Seq<u8>, width: u32, height: u32) -> bool {
    exists|pixels: Seq<u8>|
        pixels.len() == Raster::byte_len(width, height) && #[trigger] encoded_of(
            width,
            height,
            pixels,
        ) == Ok::<Seq<u8>, Fault>(bytes)
}

/// The sides of the image that bytes decode to, where they decode to one.
pub uninterp spec fn image_sides(bytes: Seq<u8>) -> Option<(u32, u32)>;

/// What bringing a decoded image to the given size gives: `InvalidSize` for
/// a zero side, `StorageError` for a size that cannot be encoded, and else an
/// encoding, never empty, of an image of exactly the size asked for.
pub open spec fn resampling(width: u32, height: u32, outcome: Result<Seq<u8>, Fault>) -> bool {
    if width == 0 || height == 0 {
        outcome == Err::<Seq<u8>, Fault>(Fault::InvalidSize)
    } else if !encodable(width, height) {
        outcome == Err::<Seq<u8>, Fault>(Fault::StorageError)
    } else {
        outcome matches Ok(bytes) && bytes.len() > 0 && depicts(bytes, width, height)
    }
}

/// What producing a derivative of `original` at the given size gives:
/// `InvalidSize` for a zero side, whatever the original holds; `DecodeError`
/// exactly where the original is no image; and else what resampling gives.
pub open spec fn rendering(
    original: Seq<u8>,
    width: u32,
    height: u32,
    outcome: Result<Seq<u8>, Fault>,
) -> bool {
    if width == 0 || height == 0 {
        outcome == Err::<Seq<u8>, Fault>(Fault::InvalidSize)
    } else if image_sides(original) is None {
        outcome == Err::<Seq<u8>, Fault>(Fault::DecodeError)
    } else {
        resampling(width, height, outcome)
    }
}

/// The outcome of a rendering over plain sequences.
pub open spec fn outcome_view(r: Result<Vec<u8>, Fault>) -> Result<Seq<u8>, Fault> {
    match r {
        Ok(bytes) => Ok(bytes@),
        Err(e) => Err(e),
    }
}

/// Decodes an image with `image::load_from_memory` and copies it out as
/// 8-bit RGB (`DynamicImage::to_rgb8`). Whether the bytes decode, and to
/// which sides, depends on the bytes alone and is named; the pixel values are
/// the codec's own. A decoded image comes with a buffer of three bytes per
/// pixel.
#[verifier::external_body]
fn decode(bytes: &[u8]) -> (r: Result<Raster, image::ImageError>)
    ensures
        r is Ok <==> image_sides(bytes@) is Some,
        r matches Ok(p) ==> p.wf() && image_sides(bytes@) == Some((p.width, p.height)),
{
    image::load_from_memory(bytes).map(|img| {
        let rgb = img.to_rgb8();
        Raster { width: rgb.width(), height: rgb.height(), pixels: rgb.into_raw() }
    })
}

/// Resamples with `image::imageops::resize` and the Lanczos filter of window
/// 3, which ignores the aspect ratio: what comes back has exactly the sides
/// asked for. The pixel values are the codec's own. The buffer of a
/// well-formed raster always fits its sides, so an image always comes back.
#[verifier::external_body]
fn resample(src: &Raster, width: u32, height: u32) -> (r: Option<Raster>)
    requires
        src.wf(),
        encodable(width, height),
    ensures
        r is Some,
        r matches Some(p) ==> p.wf() && p.width == width && p.height == height,
{
    image::ImageBuffer::<image::Rgb<u8>, &[u8]>::from_raw(src.width, src.height, &src.pixels[..])
        .map(|img| {
            let out = image::imageops::resize(
                &img,
                width,
                height,
                image::imageops::FilterType::Lanczos3,
            );
            Raster { width: out.width(), height: out.height(), pixels: out.into_raw() }
        })
}

/// Encodes as JPEG with `image::codecs::jpeg::JpegEncoder::encode` at the
/// given quality. The outcome depends on the sides, the pixels and the
/// quality alone; it is named, not described. The encoder refuses exactly
/// the images with a side of zero or above 65535, and writing into memory
/// does not fail. An encoding starts with the format's marker, so it is
/// never empty.
#[verifier::external_body]
fn encode(img: &Raster, quality: u8) -> (r: Result<Vec<u8>, image::ImageError>)
    requires
        img.wf(),
    ensures
        r is Ok <==> jpeg_of(img.width, img.height, img.pixels@, quality) is Some,
        r is Ok <==> encodable(img.width, img.height),
        r matches Ok(b) ==> b@.len() > 0 && jpeg_of(img.width, img.height, img.pixels@, quality)
            == Some(b@),
{
    let mut out = Vec::new();
    let done = image::codecs::jpeg::JpegEncoder::new_with_quality(&mut out, quality).encode(
        &img.pixels,
        img.width,
        img.height,
        image::ExtendedColorType::Rgb8,
    );
    done.map(|_| out)
}

/// Resamples a decoded image to exactly `width` by `height`, whatever its
/// own proportions. Refused, with `StorageError`, for a size that cannot be
/// encoded: nothing is resampled that could not be stored.
pub fn resized(original: &Raster, width: u32, height: u32) -> (r: Result<Raster, Fault>)
    requires
        original.wf(),
    ensures
        (width == 0 || height == 0) ==> r == Err::<Raster, Fault>(Fault::InvalidSize),
        (width > 0 && height > 0 && !encodable(width, height)) ==> r == Err::<Raster, Fault>(
            Fault::StorageError,
        ),
        r is Ok <==> encodable(width, height),
        r matches Ok(p) ==> p.wf() && p.width == width && p.height == height,
        r matches Err(e) ==> e == (if width == 0 || height == 0 {
            Fault::InvalidSize
        } else {
            Fault::StorageError
        }),
{
    if width == 0 || height == 0 {
        return Err(Fault::InvalidSize);
    }
    if width > MAX_SIDE || height > MAX_SIDE {
        return Err(Fault::StorageError);
    }
    match resample(original, width, height) {
        Some(small) => Ok(small),
        None => Err(Fault::StorageError),
    }
}

/// Encodes an image in the stored format, at `QUALITY`.
pub fn encoded(img: &Raster) -> (r: Result<Vec<u8>, Fault>)
    requires
        img.wf(),
    ensures
        outcome_view(r) == encoded_of(img.width, img.height, img.pixels@),
        r is Ok <==> encodable(img.width, img.height),
        r matches Ok(b) ==> b@.len() > 0,
{
    match encode(img, QUALITY) {
        Ok(bytes) => Ok(bytes),
        Err(_) => Err(Fault::StorageError),
    }
}

/// Brings a decoded image to `width` by `height` and encodes it.
///
/// A size that cannot be encoded is refused before any pixel is touched.
pub fn thumbnail(original: &Raster, width: u32, height: u32) -> (r: Result<Vec<u8>, Fault>)
    requires
        original.wf(),
    ensures
        resampling(width, height, outcome_view(r)),
{
    match resized(original, width, height) {
        Err(e) => Err(e),
        Ok(small) => {
            let r = encoded(&small);
            proof {
                if r is Ok {
                    let bytes = r.unwrap()@;
                    assert(encoded_of(width, height, small.pixels@) == Ok::<Seq<u8>, Fault>(
                        bytes,
                    ));
                    assert(depicts(bytes, width, height));
                }
            }
            r
        },
    }
}

/// Produces the derivative of an original at `width` by `height`: decodes the
/// stored bytes, resamples them to exactly that size and encodes the result.
///
/// Fails with `InvalidSize` where a side is zero, before anything is decoded;
/// with `DecodeError` exactly where the bytes are not an image; with
/// `StorageError` where they are one and the size cannot be encoded. In every
/// other case it succeeds.
pub fn render(original: &[u8], width: u32, height: u32) -> (r: Result<Vec<u8>, Fault>)
    ensures
        rendering(original@, width, height, outcome_view(r)),
{
    if width == 0 || height == 0 {
        return Err(Fault::InvalidSize);
    }
    match decode(original) {
        Err(_) => Err(Fault::DecodeError),
        Ok(image) => thumbnail(&image, width, height),
    }
}

} // verus!
