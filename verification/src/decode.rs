//! Reading the staging buffer as an image.

use vstd::prelude::*;
use vstd::slice::slice_index_get;
use crate::error::GenerationError;

verus! {

/// A staging buffer seen as `width` by `height` pixels of four bytes each,
/// rows first, top row first. It borrows the buffer: nothing is copied.
#[derive(Clone, Copy, Debug)]
pub struct DecodedImage<'a> {
    width: u32,
    height: u32,
    data: &'a [u8],
}

/// What a decoded image is: its dimensions and its bytes.
pub struct Raster {
    pub width: u32,
    pub height: u32,
    pub bytes: Seq<u8>,
}

/// What decoding `staging` as a `width` by `height` image gives: the same
/// bytes under those dimensions when the buffer holds exactly four bytes for
/// every pixel, and a size mismatch otherwise.
pub open spec fn spec_decode(staging: Seq<u8>, width: u32, height: u32) -> Result<
    Raster,
    GenerationError,
> {
    if staging.len() == 4 * width * height {
        Ok(Raster { width, height, bytes: staging })
    } else {
        Err(GenerationError::SizeMismatchError)
    }
}

/// The raster of a decoding that succeeded.
pub open spec fn decoded(r: Result<DecodedImage<'_>, GenerationError>) -> Result<
    Raster,
    GenerationError,
> {
    match r {
        Ok(image) => Ok(image@),
        Err(e) => Err(e),
    }
}

/// Offset of the first byte of pixel (`x`, `y`) in an image `width` pixels
/// wide.
pub open spec fn pixel_offset(width: u32, x: u32, y: u32) -> int {
    4 * (y * width + x)
}

impl View for DecodedImage<'_> {
    type V = Raster;

    closed spec fn view(&self) -> Raster {
        Raster { width: self.width, height: self.height, bytes: self.data@ }
    }
}

impl<'a> DecodedImage<'a> {
    /// Every pixel has its four bytes, and there are no others.
    #[verifier::type_invariant]
    closed spec fn inv(&self) -> bool {
        self.data@.len() == 4 * self.width * self.height
    }

    /// Width in pixels.
    pub fn width(&self) -> (r: u32)
        ensures
            r == self@.width,
    {
        self.width
    }

    /// Height in pixels.
    pub fn height(&self) -> (r: u32)
        ensures
            r == self@.height,
    {
        self.height
    }

    /// The borrowed bytes: `4 * width * height` of them.
    pub fn as_bytes(&self) -> (r: &'a [u8])
        ensures
            r@ == self@.bytes,
            r@.len() == 4 * self@.width * self@.height,
    {
        proof {
            use_type_invariant(self);
        }
        self.data
    }

    /// Red, green, blue and alpha of the pixel in column `x` of row `y`, or
    /// `None` outside the image.
    pub fn pixel(&self, x: u32, y: u32) -> (r: Option<[u8; 4]>)
        ensures
            r is Some <==> x < self@.width && y < self@.height,
            r matches Some(p) ==> p@ == self@.bytes.subrange(
                pixel_offset(self@.width, x, y),
                pixel_offset(self@.width, x, y) + 4,
            ),
    {
        proof {
            use_type_invariant(self);
        }
        if x >= self.width || y >= self.height {
            return None;
        }
        let len: usize = self.data.len();
        proof {
            lemma_pixel_in_bounds(self.width, self.height, x, y);
        }
        let at: usize = 4 * ((y as usize) * (self.width as usize) + (x as usize));
        let p: [u8; 4] = [
            *slice_index_get(self.data, at),
            *slice_index_get(self.data, at + 1),
            *slice_index_get(self.data, at + 2),
            *slice_index_get(self.data, at + 3),
        ];
        assert(p@ =~= self.data@.subrange(at as int, at + 4));
        Some(p)
    }
}

/// The four bytes of a pixel inside the image lie inside its buffer.
pub proof fn lemma_pixel_in_bounds(width: u32, height: u32, x: u32, y: u32)
    requires
        x < width,
        y < height,
    ensures
        0 <= y * width <= y * width + x < width * height,
        0 <= pixel_offset(width, x, y),
        pixel_offset(width, x, y) + 4 <= 4 * width * height,
{
    assert(y * width + x < width * height && 0 <= y * width) by (nonlinear_arith)
        requires
            x < width,
            y < height,
            0 <= x,
            0 <= y,
    ;
    assert(4 * (width * height) == 4 * width * height) by (nonlinear_arith);
}

/// Calls `image::ImageBuffer::<image::Rgba<u8>, &[u8]>::from_raw`, which
/// accepts a buffer that holds at least four bytes for each of `width` times
/// `height` pixels and refuses any other, and hands back the buffer that the
/// accepted image holds. The crate counts the bytes with checked
/// multiplications in `usize`, first `4 * width`, then times `height`, and
/// refuses when either overflows.
#[verifier::external_body]
fn rgba8_from_raw<'a>(width: u32, height: u32, buf: &'a [u8]) -> (r: Option<&'a [u8]>)
    ensures
        match r {
            Some(data) => data@ == buf@ && 4 * width <= usize::MAX && 4 * width * height
                <= buf@.len(),
            None => 4 * width > usize::MAX || 4 * width * height > buf@.len(),
        },
{
    match image::ImageBuffer::<image::Rgba<u8>, &[u8]>::from_raw(width, height, buf) {
        Some(img) => Some(img.into_raw()),
        None => None,
    }
}

/// Interprets `staging` as an image of `width` by `height` pixels, four
/// bytes each. Fails with `SizeMismatchError` unless the buffer holds exactly
/// `4 * width * height` bytes. The bytes are borrowed, not copied, and none
/// is changed.
pub fn decode<'a>(staging: &'a [u8], width: u32, height: u32) -> (r: Result<
    DecodedImage<'a>,
    GenerationError,
>)
    ensures
        decoded(r) == spec_decode(staging@, width, height),
        match r {
            Ok(image) => staging@.len() == 4 * width * height && image@ == (Raster {
                width,
                height,
                bytes: staging@,
            }),
            Err(e) => staging@.len() != 4 * width * height && e
                == GenerationError::SizeMismatchError,
        },
{
    let len: usize = staging.len();
    match rgba8_from_raw(width, height, staging) {
        Some(data) => {
            let row: usize = 4 * (width as usize);
            assert(row * height <= data@.len()) by (nonlinear_arith)
                requires
                    row == 4 * width,
                    4 * width * height <= data@.len(),
            ;
            let needed: usize = row * (height as usize);
            assert(needed == 4 * width * height) by (nonlinear_arith)
                requires
                    needed == row * height,
                    row == 4 * width,
            ;
            // The buffer holds the image; it must hold nothing more.
            if len > needed {
                Err(GenerationError::SizeMismatchError)
            } else {
                Ok(DecodedImage { width, height, data })
            }
        },
        None => {
            // Refused: too short, or a row alone is past what this machine
            // can address. In the latter case an image without rows still
            // has no bytes, and an empty buffer holds it.
            if height == 0 && len == 0 {
                assert(4 * width * height == 0) by (nonlinear_arith)
                    requires
                        height == 0,
                ;
                Ok(DecodedImage { width, height, data: staging })
            } else {
                assert(staging@.len() != 4 * width * height) by (nonlinear_arith)
                    requires
                        4 * width > usize::MAX || 4 * width * height > staging@.len(),
                        staging@.len() <= usize::MAX,
                        !(height == 0 && staging@.len() == 0),
                        0 <= width,
                        0 <= height,
                ;
                Err(GenerationError::SizeMismatchError)
            }
        },
    }
}

/// A decoded image has exactly four bytes for each of its pixels.
pub proof fn lemma_decoded_length(staging: Seq<u8>, width: u32, height: u32)
    requires
        spec_decode(staging, width, height) is Ok,
    ensures
        spec_decode(staging, width, height)->Ok_0.bytes.len() == width * height * 4,
        spec_decode(staging, width, height)->Ok_0.width == width,
        spec_decode(staging, width, height)->Ok_0.height == height,
{
    assert(4 * width * height == width * height * 4) by (nonlinear_arith);
}

/// Decoding changes nothing: decoding the same buffer again gives the same
/// image, and so does decoding the bytes of the image it gave under that
/// image's own dimensions.
pub proof fn lemma_decode_is_idempotent(staging: Seq<u8>, width: u32, height: u32)
    ensures
        match spec_decode(staging, width, height) {
            Ok(image) => image.bytes == staging && spec_decode(
                image.bytes,
                image.width,
                image.height,
            ) == Ok::<Raster, GenerationError>(image),
            Err(e) => e == GenerationError::SizeMismatchError,
        },
{
}

/// What is decoded depends on the bytes and the dimensions alone: buffers
/// that hold the same bytes decode to the same image.
pub proof fn lemma_decode_is_deterministic(
    first: Seq<u8>,
    second: Seq<u8>,
    width: u32,
    height: u32,
)
    requires
        first.len() == second.len(),
        forall|i: int| 0 <= i < first.len() ==> first[i] == second[i],
    ensures
        spec_decode(first, width, height) == spec_decode(second, width, height),
{
    assert(first =~= second);
}

} // verus!
