use vstd::prelude::*;

verus! {

/// Whether the lattice cell `(iu, iv)` is an odd tile of a two-colour
/// checkerboard: the parity of `iu + iv`, taken over the integers.
pub open spec fn odd_cell(iu: int, iv: int) -> bool {
    (iu + iv) % 2 == 1
}

/// Parity of the checkerboard cell `(iu, iv)`; no overflow whatever the cell.
pub fn checker_odd(iu: i32, iv: i32) -> (r: bool)
    ensures
        r == odd_cell(iu as int, iv as int),
{
    let s: i64 = iu as i64 + iv as i64;
    assert((s & 1i64 == 1i64) == (s % 2 == 1)) by (bit_vector);
    s & 1i64 == 1i64
}

/// An RGBA8 bitmap read row by row, four bytes per texel.
pub struct CpuImage {
    pub w: i32,
    pub h: i32,
    pub rgba: Vec<u8>,
}

/// Byte offset of the texel `(x, y)` in a row-major RGBA8 image `w` texels wide.
pub open spec fn texel_offset(w: int, x: int, y: int) -> int {
    (y * w + x) * 4
}

impl CpuImage {
    /// Dimensions are not negative and the buffer holds exactly
    /// `w * h` texels.
    pub open spec fn wf(&self) -> bool {
        &&& self.w >= 0
        &&& self.h >= 0
        &&& self.rgba@.len() == self.w * self.h * 4
    }

    /// An image of `w` by `h` texels over `rgba`, or `None` where a dimension
    /// is negative or the buffer does not hold exactly `w * h` texels.
    pub fn from_rgba(w: i32, h: i32, rgba: Vec<u8>) -> (r: Option<CpuImage>)
        ensures
            r.is_some() == (w >= 0 && h >= 0 && rgba@.len() == w * h * 4),
            r.is_some() ==> (r.unwrap().w == w && r.unwrap().h == h && r.unwrap().rgba@
                == rgba@),
            r.is_some() ==> r.unwrap().wf(),
    {
        if w < 0 || h < 0 {
            return None;
        }
        let image = CpuImage { w, h, rgba };
        if image.has_valid_size() {
            Some(image)
        } else {
            None
        }
    }

    /// Whether the image is well formed: it says whether `texel` may be
    /// called on it.
    pub fn has_valid_size(&self) -> (r: bool)
        ensures
            r == self.wf(),
    {
        if self.w < 0 || self.h < 0 {
            return false;
        }
        let wu = self.w as u64;
        let hu = self.h as u64;
        assert(wu * hu * 4 < 0x1_0000_0000_0000_0000) by (nonlinear_arith)
            requires
                wu < 0x8000_0000,
                hu < 0x8000_0000,
        ;
        self.rgba.len() as u64 == wu * hu * 4
    }

    /// Red, green and blue bytes of the texel in column `x`, row `y`.
    pub fn texel(&self, x: i32, y: i32) -> (r: (u8, u8, u8))
        requires
            self.wf(),
            0 <= x < self.w,
            0 <= y < self.h,
        ensures
            r.0 == self.rgba@[texel_offset(self.w as int, x as int, y as int)],
            r.1 == self.rgba@[texel_offset(self.w as int, x as int, y as int) + 1],
            r.2 == self.rgba@[texel_offset(self.w as int, x as int, y as int) + 2],
    {
        let n = self.rgba.len();
        let w = self.w as usize;
        let xs = x as usize;
        let ys = y as usize;
        proof {
            let (wi, hi, xi, yi) = (self.w as int, self.h as int, x as int, y as int);
            assert((yi * wi + xi) * 4 + 3 < wi * hi * 4) by (nonlinear_arith)
                requires
                    0 <= xi < wi,
                    0 <= yi < hi,
            ;
            assert(w as int == wi && xs as int == xi && ys as int == yi);
            assert(yi * wi <= yi * wi + xi);
            assert(n == wi * hi * 4);
        }
        let i = (ys * w + xs) * 4;
        (self.rgba[i], self.rgba[i + 1], self.rgba[i + 2])
    }
}

/// The bitmaps of a frame, addressed by a small integer id. An id may have
/// no bitmap behind it; lookups then report its absence.
pub struct TextureAtlas {
    pub images: Vec<CpuImage>,
}

impl TextureAtlas {
    /// The bitmap with id `id`, or `None` where the atlas has none.
    pub fn get(&self, id: usize) -> (r: Option<&CpuImage>)
        ensures
            r.is_some() == (id < self.images@.len()),
            r.is_some() ==> *r.unwrap() == self.images@[id as int],
    {
        if id < self.images.len() {
            Some(&self.images[id])
        } else {
            None
        }
    }
}

} // verus!
