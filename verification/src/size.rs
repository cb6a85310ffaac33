//! Image dimensions and the sizes that follow from them.

use vstd::prelude::*;

verus! {

/// Edge length, in invocations, of the square tile one workgroup covers.
pub const TILE_SIZE: u32 = 8;

/// Bytes of one pixel: red, green, blue and alpha, eight bits each.
pub const BYTES_PER_PIXEL: usize = 4;

/// Width and height of the image to generate, in pixels.
#[derive(Clone, Copy, Debug, PartialEq, Eq, Structural)]
pub struct ImageSizeInfo {
    pub width: u32,
    pub height: u32,
}

/// Number of tiles needed to cover `extent` pixels: `extent / TILE_SIZE`,
/// rounded up.
pub open spec fn tiles_to_cover(extent: u32) -> u32 {
    ((extent + TILE_SIZE - 1) / (TILE_SIZE as int)) as u32
}

impl ImageSizeInfo {
    /// Bytes of a `width` by `height` image at four bytes a pixel.
    pub open spec fn spec_byte_len(self) -> int {
        self.width * self.height * BYTES_PER_PIXEL
    }

    /// Both dimensions are at least one pixel.
    pub open spec fn spec_is_positive(&self) -> bool {
        self.width > 0 && self.height > 0
    }

    /// Both dimensions are whole multiples of the tile size, so the workgroup
    /// grid covers the image exactly.
    pub open spec fn spec_is_tile_aligned(&self) -> bool {
        self.width % TILE_SIZE == 0 && self.height % TILE_SIZE == 0
    }

    /// The workgroup grid that covers the image: one tile column per started
    /// `TILE_SIZE` pixels of width, one tile row per started `TILE_SIZE`
    /// pixels of height, one layer.
    pub open spec fn spec_dispatch_grid(self) -> Seq<u32> {
        seq![tiles_to_cover(self.width), tiles_to_cover(self.height), 1u32]
    }

    /// Whether the image has any pixels.
    #[verifier::when_used_as_spec(spec_is_positive)]
    pub fn is_positive(&self) -> (r: bool)
        ensures
            r == self.spec_is_positive(),
    {
        self.width > 0 && self.height > 0
    }

    /// Whether the workgroup grid ends exactly at the image's edges.
    #[verifier::when_used_as_spec(spec_is_tile_aligned)]
    pub fn is_tile_aligned(&self) -> (r: bool)
        ensures
            r == self.spec_is_tile_aligned(),
    {
        self.width % TILE_SIZE == 0 && self.height % TILE_SIZE == 0
    }

    /// Size in bytes of the device image and of the staging buffer, or `None`
    /// when that size cannot be addressed on this machine.
    pub fn byte_len(&self) -> (r: Option<usize>)
        ensures
            match r {
                Some(n) => n == self.spec_byte_len(),
                None => self.spec_byte_len() > usize::MAX,
            },
    {
        assert(self.width * self.height <= 0xffff_ffff * 0xffff_ffff) by (nonlinear_arith)
            requires
                self.width <= 0xffff_ffff,
                self.height <= 0xffff_ffff,
        ;
        let pixels: u64 = (self.width as u64) * (self.height as u64);
        let bytes: u128 = (pixels as u128) * 4;
        if bytes > usize::MAX as u128 {
            None
        } else {
            Some(bytes as usize)
        }
    }

    /// Workgroup counts to dispatch, as `[x, y, z]`. Where a dimension is no
    /// multiple of the tile size, the last tiles reach past the image, and
    /// the kernel has to leave those invocations without effect.
    pub fn dispatch_grid(&self) -> (r: [u32; 3])
        ensures
            r@ == self.spec_dispatch_grid(),
    {
        [tile_count(self.width), tile_count(self.height), 1]
    }
}

/// Computes `tiles_to_cover` without leaving `u32`.
pub fn tile_count(extent: u32) -> (r: u32)
    ensures
        r == tiles_to_cover(extent),
{
    let whole: u32 = extent / TILE_SIZE;
    if extent % TILE_SIZE == 0 {
        whole
    } else {
        whole + 1
    }
}

/// The tile count is the least one whose tiles reach past the last pixel,
/// and on an extent that is a multiple of the tile size the tiles end exactly
/// there.
pub proof fn lemma_tiles_cover(extent: u32)
    ensures
        tiles_to_cover(extent) * TILE_SIZE >= extent,
        tiles_to_cover(extent) * TILE_SIZE < extent + TILE_SIZE,
        extent % TILE_SIZE == 0 ==> tiles_to_cover(extent) * TILE_SIZE == extent,
        tiles_to_cover(extent) == 0 <==> extent == 0,
{
}

} // verus!
