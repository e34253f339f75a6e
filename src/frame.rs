use vstd::prelude::*;

verus! {

/// Byte offset of pixel `(x, y)` in a row-major RGBA8 buffer `width` pixels
/// wide: four bytes per pixel, row 0 at the top.
pub open spec fn pixel_offset(width: int, x: int, y: int) -> int {
    (y * width + x) * 4
}

/// The bytes of a buffer after the pixel starting at byte `o` is set to
/// `(r, g, b)`, fully opaque.
pub open spec fn with_pixel(bytes: Seq<u8>, o: int, r: u8, g: u8, b: u8) -> Seq<u8> {
    bytes.update(o, r).update(o + 1, g).update(o + 2, b).update(o + 3, 255u8)
}

/// The output image of a frame: `width * height` RGBA8 pixels, row by row.
pub struct Frame {
    pub width: u32,
    pub height: u32,
    pub rgba: Vec<u8>,
}

impl Frame {
    pub open spec fn wf(&self) -> bool {
        self.rgba@.len() == self.width * self.height * 4
    }

    /// A black, fully transparent frame (every byte zero).
    pub fn new(width: u32, height: u32) -> (r: Frame)
        requires
            width * height * 4 <= usize::MAX,
        ensures
            r.wf(),
            r.width == width,
            r.height == height,
            forall|i: int| 0 <= i < r.rgba@.len() ==> r.rgba@[i] == 0,
    {
        let n = (width as usize) * (height as usize) * 4;
        let mut rgba: Vec<u8> = Vec::with_capacity(n);
        let mut i: usize = 0;
        while i < n
            invariant
                i <= n,
                rgba@.len() == i,
                forall|j: int| 0 <= j < i ==> rgba@[j] == 0,
            decreases n - i,
        {
            rgba.push(0u8);
            i = i + 1;
        }
        Frame { width, height, rgba }
    }

    /// Sets the pixel with row-major index `index` to `(r, g, b)` with alpha 255.
    pub fn set_pixel_at(&mut self, index: usize, r: u8, g: u8, b: u8)
        requires
            old(self).wf(),
            index < old(self).width * old(self).height,
        ensures
            final(self).wf(),
            final(self).width == old(self).width,
            final(self).height == old(self).height,
            final(self).rgba@ == with_pixel(old(self).rgba@, 4 * index, r, g, b),
    {
        let n = self.rgba.len();
        assert(index * 4 + 3 < n);
        let o = index * 4;
        self.rgba.set(o, r);
        self.rgba.set(o + 1, g);
        self.rgba.set(o + 2, b);
        self.rgba.set(o + 3, 255u8);
    }

    /// Sets pixel `(x, y)` to `(r, g, b)` with alpha 255.
    pub fn set_pixel(&mut self, x: u32, y: u32, r: u8, g: u8, b: u8)
        requires
            old(self).wf(),
            x < old(self).width,
            y < old(self).height,
        ensures
            final(self).wf(),
            final(self).width == old(self).width,
            final(self).height == old(self).height,
            final(self).rgba@ == with_pixel(
                old(self).rgba@,
                pixel_offset(old(self).width as int, x as int, y as int),
                r,
                g,
                b,
            ),
    {
        let n = self.rgba.len();
        proof {
            let (wi, hi, xi, yi) = (self.width as int, self.height as int, x as int, y as int);
            assert(yi * wi + xi < wi * hi) by (nonlinear_arith)
                requires
                    0 <= xi < wi,
                    0 <= yi < hi,
            ;
            assert(yi * wi <= yi * wi + xi);
            assert(wi * hi * 4 == n);
        }
        let index = (y as usize) * (self.width as usize) + (x as usize);
        self.set_pixel_at(index, r, g, b);
    }

    /// The pixel bytes, four per pixel, ready for upload.
    pub fn bytes(&self) -> (r: &[u8])
        ensures
            r@ == self.rgba@,
    {
        self.rgba.as_slice()
    }
}

} // verus!
