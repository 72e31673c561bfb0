//! The image asset decoder. `decode` turns a complete encoded image file into
//! a `Image`: a normalized 8-bit RGBA pixel buffer plus a collision mask with
//! one bit per pixel, set exactly when the pixel's alpha byte is non-zero.
//!
//! Format selection sniffs the byte content; a caller-supplied format hint is
//! consulted only when sniffing is inconclusive (TGA, for one, has no magic
//! signature). Bytes of a format whose codec is disabled are rejected, never
//! partially decoded.

use vstd::prelude::*;
use crate::bitset::{bits, bitset_contains, bitset_len, bitset_set, bitset_with_capacity};
use crate::config::{CodecConfig, ImageFormat};

verus! {

/// An error that occurs when loading an image file.
#[derive(Clone, Debug, PartialEq, Eq)]
pub enum ImageLoaderError {
    /// The codec selected for the bytes reported malformed, truncated or
    /// otherwise undecodable content; the codec's diagnostic is kept as
    /// context.
    ImageError(String),
    /// No enabled codec recognizes the byte content, and no usable format
    /// hint was supplied.
    FormatUndetermined,
}

/// The format that signature sniffing determines for the given bytes, if any.
pub uninterp spec fn sniffed_format(bytes: Seq<u8>) -> Option<ImageFormat>;

/// Relies on `image::guess_format`: an educated guess from the magic bytes at
/// the start of the buffer, a pure function of the bytes; TGA is never
/// guessed, and formats this library has no codec for are treated as
/// unrecognized.
#[verifier::external_body]
fn guess_format(bytes: &[u8]) -> (r: Option<ImageFormat>)
    ensures
        r == sniffed_format(bytes@),
{
    match image::guess_format(bytes) {
        Ok(image::ImageFormat::Png) => Some(ImageFormat::Png),
        Ok(image::ImageFormat::Jpeg) => Some(ImageFormat::Jpeg),
        Ok(image::ImageFormat::Gif) => Some(ImageFormat::Gif),
        Ok(image::ImageFormat::Bmp) => Some(ImageFormat::Bmp),
        Ok(image::ImageFormat::Tiff) => Some(ImageFormat::Tiff),
        Ok(image::ImageFormat::WebP) => Some(ImageFormat::WebP),
        _ => None,
    }
}

/// What decoding the bytes as the given format yields: on success the width,
/// the height, and the pixel buffer normalized to 8-bit RGBA; on failure the
/// codec's diagnostic message. Decoding is a pure function of the bytes and
/// the format.
pub uninterp spec fn decoded_rgba(bytes: Seq<u8>, fmt: ImageFormat) -> Result<
    (u32, u32, Seq<u8>),
    Seq<char>,
>;

/// Relies on `image::load_from_memory_with_format` and
/// `image::DynamicImage::to_rgba8`: decodes the bytes as the given format and
/// expands any native channel layout to tightly packed 8-bit RGBA, so the
/// buffer holds exactly `width * height * 4` bytes; malformed input is
/// reported as an error, not a panic.
#[verifier::external_body]
fn decode_rgba(bytes: &[u8], fmt: ImageFormat) -> (r: Result<(u32, u32, Vec<u8>), String>)
    ensures
        match r {
            Ok(t) => decoded_rgba(bytes@, fmt) == Ok::<_, Seq<char>>((t.0, t.1, t.2@))
                && t.2@.len() == t.0 * t.1 * 4,
            Err(m) => decoded_rgba(bytes@, fmt) == Err::<(u32, u32, Seq<u8>), _>(m@),
        },
{
    let f = match fmt {
        ImageFormat::Png => image::ImageFormat::Png,
        ImageFormat::Jpeg => image::ImageFormat::Jpeg,
        ImageFormat::Gif => image::ImageFormat::Gif,
        ImageFormat::Bmp => image::ImageFormat::Bmp,
        ImageFormat::Tga => image::ImageFormat::Tga,
        ImageFormat::Tiff => image::ImageFormat::Tiff,
        ImageFormat::WebP => image::ImageFormat::WebP,
    };
    match image::load_from_memory_with_format(bytes, f) {
        Ok(d) => { let i = d.to_rgba8(); Ok((i.width(), i.height(), i.into_raw())) }
        Err(e) => Err(e.to_string()),
    }
}

/// A decoded image asset: a normalized RGBA pixel grid and its collision
/// mask. Pixels are row-major, four bytes each (red, green, blue, alpha);
/// mask bit `i` belongs to pixel `i` in the same order.
#[derive(Clone, Debug)]
pub struct Image {
    pub width: u32,
    pub height: u32,
    pub pixels: Vec<u8>,
    pub collision: fixedbitset::FixedBitSet,
}

impl Image {
    /// The invariant every constructed `Image` satisfies: the pixel buffer
    /// holds `width * height` four-byte RGBA pixels, the mask holds one bit
    /// per pixel, and bit `i` is set exactly when pixel `i`'s alpha byte is
    /// non-zero.
    pub open spec fn wf(self) -> bool {
        &&& self.pixels@.len() == self.width * self.height * 4
        &&& bits(self.collision).len() == self.width * self.height
        &&& forall|i: int|
            0 <= i < self.width * self.height ==> bits(self.collision)[i] == (self.pixels@[4 * i
                + 3] != 0)
    }

    /// Builds an image from a tightly packed RGBA buffer, deriving the
    /// collision mask from the alpha bytes.
    pub fn from_rgba(width: u32, height: u32, pixels: Vec<u8>) -> (r: Image)
        requires
            pixels@.len() == width * height * 4,
        ensures
            r.wf(),
            r.width == width,
            r.height == height,
            r.pixels == pixels,
    {
        let len: usize = pixels.len();
        let n: usize = len / 4;
        assert(n == width * height);
        assert(4 * n <= len);
        let mut collision = bitset_with_capacity(n);
        let mut i: usize = 0;
        while i < n
            invariant
                n == width * height,
                pixels@.len() == 4 * n,
                4 * n <= usize::MAX,
                bits(collision).len() == n,
                i <= n,
                forall|j: int| 0 <= j < i ==> bits(collision)[j] == (pixels@[4 * j + 3] != 0),
                forall|j: int| i <= j < n ==> bits(collision)[j] == false,
            decreases n - i,
        {
            let alpha = pixels[4 * i + 3];
            if alpha != 0 {
                bitset_set(&mut collision, i, true);
            }
            i += 1;
        }
        Image { width, height, pixels, collision }
    }

    /// The number of pixels the collision mask covers.
    pub fn collision_len(&self) -> (r: usize)
        ensures
            r == bits(self.collision).len(),
    {
        bitset_len(&self.collision)
    }

    /// Whether mask bit `i` is set; out-of-range indices read as clear.
    pub fn collision_bit(&self, i: usize) -> (r: bool)
        ensures
            r == (i < bits(self.collision).len() && bits(self.collision)[i as int]),
    {
        bitset_contains(&self.collision, i)
    }
}

/// The format `decode` settles on: the sniffed format when the signature is
/// recognized, otherwise the caller's hint.
pub open spec fn chosen_format(bytes: Seq<u8>, hint: Option<ImageFormat>) -> Option<ImageFormat> {
    match sniffed_format(bytes) {
        Some(f) => Some(f),
        None => hint,
    }
}

/// Everything `decode` promises of its result: which inputs fail with which
/// error, and, on success, exactly which image comes back.
pub open spec fn decode_post(
    bytes: Seq<u8>,
    hint: Option<ImageFormat>,
    config: CodecConfig,
    r: Result<Image, ImageLoaderError>,
) -> bool {
    match chosen_format(bytes, hint) {
        None => r == Err::<Image, ImageLoaderError>(ImageLoaderError::FormatUndetermined),
        Some(f) => if !config.spec_enabled(f) {
            r == Err::<Image, ImageLoaderError>(ImageLoaderError::FormatUndetermined)
        } else {
            match decoded_rgba(bytes, f) {
                Ok(t) => r matches Ok(img) && img.wf() && img.width == t.0 && img.height == t.1
                    && img.pixels@ == t.2,
                Err(m) => r matches Err(e) && e matches ImageLoaderError::ImageError(s) && s@ == m,
            }
        },
    }
}

/// Decodes a complete encoded image file into a normalized RGBA image with
/// its collision mask. The format is sniffed from the byte content, with
/// `hint` as fallback; bytes whose format is undetermined or disabled by
/// `config` are rejected with `FormatUndetermined`, and codec failures come
/// back as `ImageError` with the codec's diagnostic.
pub fn decode(bytes: &[u8], hint: Option<ImageFormat>, config: &CodecConfig) -> (r: Result<
    Image,
    ImageLoaderError,
>)
    ensures
        decode_post(bytes@, hint, *config, r),
{
    let fmt_opt = match guess_format(bytes) {
        Some(f) => Some(f),
        None => hint,
    };
    let fmt = match fmt_opt {
        Some(f) => f,
        None => {
            return Err(ImageLoaderError::FormatUndetermined);
        },
    };
    if !config.enabled(fmt) {
        return Err(ImageLoaderError::FormatUndetermined);
    }
    match decode_rgba(bytes, fmt) {
        Ok(t) => {
            let (w, h, px) = t;
            Ok(Image::from_rgba(w, h, px))
        },
        Err(m) => Err(ImageLoaderError::ImageError(m)),
    }
}

/// Decoding is deterministic: any two outcomes that `decode` can return for
/// the same bytes, hint and configuration agree — both succeed or both fail,
/// successes carry the same dimensions, the same pixel bytes and the same
/// mask bits, and failures agree on the error kind and its diagnostic text.
pub proof fn lemma_decode_deterministic(
    bytes: Seq<u8>,
    hint: Option<ImageFormat>,
    config: CodecConfig,
    r1: Result<Image, ImageLoaderError>,
    r2: Result<Image, ImageLoaderError>,
)
    requires
        decode_post(bytes, hint, config, r1),
        decode_post(bytes, hint, config, r2),
    ensures
        r1 is Ok <==> r2 is Ok,
        r1 is Ok ==> r1->Ok_0.width == r2->Ok_0.width,
        r1 is Ok ==> r1->Ok_0.height == r2->Ok_0.height,
        r1 is Ok ==> r1->Ok_0.pixels@ == r2->Ok_0.pixels@,
        r1 is Ok ==> bits(r1->Ok_0.collision) == bits(r2->Ok_0.collision),
        r1 is Err ==> (r1->Err_0 is FormatUndetermined <==> r2->Err_0 is FormatUndetermined),
        r1 is Err && r1->Err_0 is ImageError ==> r1->Err_0->ImageError_0@ == r2->Err_0->ImageError_0@,
{
    match chosen_format(bytes, hint) {
        None => {},
        Some(f) => {
            if config.spec_enabled(f) {
                match decoded_rgba(bytes, f) {
                    Ok(_) => {
                        let i1 = r1->Ok_0;
                        let i2 = r2->Ok_0;
                        assert(bits(i1.collision) =~= bits(i2.collision)) by {
                            assert(forall|j: int|
                                0 <= j < i1.width * i1.height ==> bits(i1.collision)[j] == bits(
                                    i2.collision,
                                )[j]);
                        }
                    },
                    Err(_) => {},
                }
            }
        },
    }
}

} // verus!
