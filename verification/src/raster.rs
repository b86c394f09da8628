//! Packed 24-bit RGB pixel buffers: allocation, rectangle copy, crop.

use vstd::prelude::*;

verus! {

/// Position of one byte inside a packed RGB buffer of row width `w`:
/// channel `c` of the pixel at column `x` of row `y`.
pub open spec fn byte_index(w: int, x: int, y: int, c: int) -> int {
    3 * (y * w + x) + c
}

/// An owned packed RGB image: three bytes per pixel, rows top to bottom.
#[derive(Clone, Debug, PartialEq, Eq)]
pub struct RgbImage {
    pub width: u32,
    pub height: u32,
    pub data: Vec<u8>,
}

impl RgbImage {
    /// The buffer holds exactly its advertised pixels.
    pub open spec fn wf(&self) -> bool {
        self.data@.len() == 3 * (self.width as int) * (self.height as int)
    }

    /// Channel `c` of the pixel at `(x, y)`.
    pub open spec fn pixel_byte(&self, x: int, y: int, c: int) -> u8 {
        self.data@[byte_index(self.width as int, x, y, c)]
    }

    /// Every byte of the image is `v`.
    pub open spec fn all_bytes(&self, v: u8) -> bool {
        forall|n: int| 0 <= n < self.data@.len() ==> self.data@[n] == v
    }

    /// A black (all-zero) image of the given dimensions.
    pub fn new(width: u32, height: u32) -> (r: RgbImage)
        requires
            3 * (width as int) * (height as int) <= usize::MAX as int,
        ensures
            r.wf(),
            r.width == width,
            r.height == height,
            r.all_bytes(0),
    {
        proof {
            assert((width as int) * (height as int) >= 0 && 3 * ((width as int) * (height as int))
                == 3 * (width as int) * (height as int)) by (nonlinear_arith);
        }
        let area: usize = (width as usize) * (height as usize);
        let len: usize = 3 * area;
        let mut data: Vec<u8> = Vec::new();
        while data.len() < len
            invariant
                data@.len() <= len,
                forall|n: int| 0 <= n < data@.len() ==> data@[n] == 0u8,
            decreases len - data@.len(),
        {
            data.push(0u8);
        }
        RgbImage { width, height, data }
    }

    /// Overlays `src` onto this image with its top-left corner at
    /// `(x0, y0)`: an opaque copy, no blending.  Pixels outside the
    /// covered rectangle keep their value.
    pub fn overlay(&mut self, src: &RgbImage, x0: u32, y0: u32)
        requires
            old(self).wf(),
            src.wf(),
            x0 + src.width <= old(self).width,
            y0 + src.height <= old(self).height,
        ensures
            final(self).wf(),
            final(self).width == old(self).width,
            final(self).height == old(self).height,
            forall|x: int, y: int, c: int|
                x0 <= x < x0 + src.width && y0 <= y < y0 + src.height && 0 <= c < 3
                    ==> #[trigger] final(self).pixel_byte(x, y, c) == src.pixel_byte(
                    x - x0,
                    y - y0,
                    c,
                ),
            forall|x: int, y: int, c: int|
                0 <= x < old(self).width && 0 <= y < old(self).height && 0 <= c < 3 && !(x0 <= x
                    < x0 + src.width && y0 <= y < y0 + src.height)
                    ==> #[trigger] final(self).pixel_byte(x, y, c) == old(self).pixel_byte(x, y, c),
    {
        blit(self, src, 0, 0, x0, y0, src.width, src.height);
    }

    /// A copy of the leftmost `n` columns of this image.
    pub fn crop_columns(&self, n: u32) -> (r: RgbImage)
        requires
            self.wf(),
            n <= self.width,
        ensures
            r.wf(),
            r.width == n,
            r.height == self.height,
            forall|x: int, y: int, c: int|
                0 <= x < n && 0 <= y < self.height && 0 <= c < 3 ==> #[trigger] r.pixel_byte(
                    x,
                    y,
                    c,
                ) == self.pixel_byte(x, y, c),
    {
        let total: usize = self.data.len();
        proof {
            assert(self.data@.len() <= usize::MAX as int);
            lemma_grid_area_monotone(n as int, self.width as int, self.height as int);
        }
        let mut out = RgbImage::new(n, self.height);
        blit(&mut out, self, 0, 0, 0, 0, n, self.height);
        out
    }
}

/// The area of a narrower image never exceeds the area of a wider one of
/// the same height.
proof fn lemma_grid_area_monotone(n: int, w: int, h: int)
    requires
        0 <= n <= w,
        0 <= h,
    ensures
        3 * n * h <= 3 * w * h,
{
    assert(3 * n * h <= 3 * w * h) by (nonlinear_arith)
        requires
            0 <= n <= w,
            0 <= h,
    ;
}

/// A byte position within row `yr`'s copy window (`cw` pixels starting at
/// column `xb`) corresponds exactly to a pixel inside that window; and
/// inside the window the byte offset from the window start is `3 * (x -
/// xb) + c`.
proof fn lemma_byte_in_row_window(w: int, x: int, y: int, c: int, xb: int, cw: int, yr: int)
    requires
        0 <= c < 3,
        0 <= x < w,
        0 <= xb,
        xb + cw <= w,
        0 <= cw,
        0 <= y,
        0 <= yr,
    ensures
        (byte_index(w, xb, yr, 0) <= byte_index(w, x, y, c) < byte_index(w, xb, yr, 0) + 3 * cw)
            <==> (y == yr && xb <= x < xb + cw),
        y == yr ==> byte_index(w, x, y, c) == byte_index(w, xb, yr, 0) + 3 * (x - xb) + c,
{
    if y == yr {
        assert(byte_index(w, x, y, c) == byte_index(w, xb, yr, 0) + 3 * (x - xb) + c);
    } else if y < yr {
        assert(byte_index(w, x, y, c) < byte_index(w, xb, yr, 0)) by (nonlinear_arith)
            requires
                0 <= c < 3,
                0 <= x < w,
                0 <= xb,
                y < yr,
        ;
    } else {
        assert(byte_index(w, x, y, c) >= byte_index(w, xb, yr, 0) + 3 * cw) by (nonlinear_arith)
            requires
                0 <= c < 3,
                0 <= x < w,
                0 <= xb,
                xb + cw <= w,
                y > yr,
                0 <= yr,
        ;
    }
}

/// Every byte of a pixel inside an image lies inside its buffer.
pub(crate) proof fn lemma_byte_index_bound(w: int, h: int, x: int, y: int, c: int)
    requires
        0 <= x < w,
        0 <= y < h,
        0 <= c < 3,
    ensures
        0 <= byte_index(w, x, y, c) < 3 * w * h,
{
    assert(0 <= 3 * (y * w + x) + c < 3 * w * h) by (nonlinear_arith)
        requires
            0 <= x < w,
            0 <= y < h,
            0 <= c < 3,
    ;
}

/// A row window that ends at or before the row's right edge stays inside
/// the buffer.
proof fn lemma_row_window_bound(w: int, h: int, xb: int, cw: int, yr: int)
    requires
        0 <= xb,
        0 <= cw,
        xb + cw <= w,
        0 <= yr < h,
    ensures
        0 <= byte_index(w, xb, yr, 0),
        byte_index(w, xb, yr, 0) + 3 * cw <= 3 * w * h,
{
    assert(0 <= 3 * (yr * w + xb) && 3 * (yr * w + xb) + 3 * cw <= 3 * w * h) by (nonlinear_arith)
        requires
            0 <= xb,
            0 <= cw,
            xb + cw <= w,
            0 <= yr < h,
    ;
}

/// Copies `len` bytes of `src` starting at `src_off` into `dst` starting
/// at `dst_off`; all other bytes of `dst` keep their value.
fn copy_range(dst: &mut Vec<u8>, dst_off: usize, src: &Vec<u8>, src_off: usize, len: usize)
    requires
        dst_off + len <= old(dst)@.len(),
        src_off + len <= src@.len(),
    ensures
        final(dst)@.len() == old(dst)@.len(),
        forall|n: int|
            dst_off <= n < dst_off + len ==> #[trigger] final(dst)@[n] == src@[src_off + (n
                - dst_off)],
        forall|n: int|
            0 <= n < old(dst)@.len() && !(dst_off <= n < dst_off + len)
                ==> #[trigger] final(dst)@[n] == old(dst)@[n],
{
    let dst_len: usize = dst.len();
    let src_len: usize = src.len();
    let mut t: usize = 0;
    while t < len
        invariant
            t <= len,
            dst_off + len <= dst_len,
            src_off + len <= src_len,
            dst_len == dst@.len(),
            src_len == src@.len(),
            dst@.len() == old(dst)@.len(),
            forall|n: int|
                dst_off <= n < dst_off + t ==> #[trigger] dst@[n] == src@[src_off + (n - dst_off)],
            forall|n: int|
                0 <= n < dst@.len() && !(dst_off <= n < dst_off + t) ==> #[trigger] dst@[n] == old(
                    dst,
                )@[n],
        decreases len - t,
    {
        let b: u8 = src[src_off + t];
        dst[dst_off + t] = b;
        t = t + 1;
    }
}

/// Copies the `cw`-by-`ch` rectangle of `src` whose top-left corner is
/// `(sx, sy)` onto `dst` at `(dx, dy)`.  Every other pixel of `dst` keeps
/// its value.
fn blit(dst: &mut RgbImage, src: &RgbImage, sx: u32, sy: u32, dx: u32, dy: u32, cw: u32, ch: u32)
    requires
        old(dst).wf(),
        src.wf(),
        sx + cw <= src.width,
        sy + ch <= src.height,
        dx + cw <= old(dst).width,
        dy + ch <= old(dst).height,
    ensures
        final(dst).wf(),
        final(dst).width == old(dst).width,
        final(dst).height == old(dst).height,
        forall|x: int, y: int, c: int|
            dx <= x < dx + cw && dy <= y < dy + ch && 0 <= c < 3
                ==> #[trigger] final(dst).pixel_byte(x, y, c)
                == src.pixel_byte(sx + (x - dx), sy + (y - dy), c),
        forall|x: int, y: int, c: int|
            0 <= x < old(dst).width && 0 <= y < old(dst).height && 0 <= c < 3 && !(dx <= x < dx + cw
                && dy <= y < dy + ch) ==> #[trigger] final(dst).pixel_byte(x, y, c)
                == old(dst).pixel_byte(x, y, c),
{
    let dw: usize = dst.width as usize;
    let sw: usize = src.width as usize;
    let dst_len: usize = dst.data.len();
    let src_len: usize = src.data.len();
    let ghost dst0 = *dst;
    let mut j: u32 = 0;
    while j < ch
        invariant
            j <= ch,
            dst.wf(),
            src.wf(),
            dst.width == dst0.width,
            dst.height == dst0.height,
            dst.data@.len() == dst0.data@.len(),
            dw as int == dst.width as int,
            sw as int == src.width as int,
            dst_len == dst.data@.len(),
            src_len == src.data@.len(),
            sx + cw <= src.width,
            sy + ch <= src.height,
            dx + cw <= dst.width,
            dy + ch <= dst.height,
            forall|x: int, y: int, c: int|
                dx <= x < dx + cw && dy <= y < dy + j && 0 <= c < 3
                    ==> #[trigger] dst.pixel_byte(x, y, c)
                    == src.pixel_byte(sx + (x - dx), sy + (y - dy), c),
            forall|x: int, y: int, c: int|
                0 <= x < dst0.width && 0 <= y < dst0.height && 0 <= c < 3 && !(dx <= x < dx + cw
                    && dy <= y < dy + j) ==> #[trigger] dst.pixel_byte(x, y, c) == dst0.pixel_byte(
                    x,
                    y,
                    c,
                ),
        decreases ch - j,
    {
        proof {
            lemma_row_window_bound(
                dst.width as int,
                dst.height as int,
                dx as int,
                cw as int,
                dy as int + j as int,
            );
            lemma_row_window_bound(
                src.width as int,
                src.height as int,
                sx as int,
                cw as int,
                sy as int + j as int,
            );
        }
        proof {
            assert((dy as int + j as int) * (dw as int) >= 0 && (sy as int + j as int) * (sw as int)
                >= 0) by (nonlinear_arith)
                requires
                    dy as int + j as int >= 0,
                    sy as int + j as int >= 0,
                    dw as int >= 0,
                    sw as int >= 0,
            ;
        }
        let row_len: usize = 3 * (cw as usize);
        let dst_off: usize = 3 * ((dy as usize + j as usize) * dw + dx as usize);
        let src_off: usize = 3 * ((sy as usize + j as usize) * sw + sx as usize);
        let ghost pre = *dst;
        copy_range(&mut dst.data, dst_off, &src.data, src_off, row_len);
        proof {
            let dwi = dst.width as int;
            let swi = src.width as int;
            let dyr = dy as int + j as int;
            let syr = sy as int + j as int;
            // Pixels of the freshly copied row now match the source window.
            assert forall|x: int, c: int| dx <= x < dx + cw && 0 <= c < 3 implies dst.pixel_byte(
                x,
                dyr,
                c,
            ) == src.pixel_byte(sx + (x - dx), syr, c) by {
                lemma_byte_in_row_window(dwi, x, dyr, c, dx as int, cw as int, dyr);
                lemma_byte_in_row_window(swi, sx + (x - dx), syr, c, sx as int, cw as int, syr);
                assert(dst.data@[dst_off + (3 * (x - dx) + c)] == src.data@[src_off + (3 * (x - dx)
                    + c)]);
            }
            // Pixels outside the freshly copied row keep their bytes.
            assert forall|x: int, y: int, c: int|
                0 <= x < pre.width && 0 <= y < pre.height && 0 <= c < 3 && !(dx <= x < dx + cw && y
                    == dyr) implies dst.pixel_byte(x, y, c) == pre.pixel_byte(x, y, c) by {
                lemma_byte_index_bound(dwi, pre.height as int, x, y, c);
                lemma_byte_in_row_window(dwi, x, y, c, dx as int, cw as int, dyr);
            }
            // The two loop invariants, advanced by one row.
            assert forall|x: int, y: int, c: int|
                dx <= x < dx + cw && dy <= y < dy + (j + 1) && 0 <= c < 3 implies
                #[trigger] dst.pixel_byte(x, y, c) == src.pixel_byte(sx + (x - dx), sy + (y - dy), c)
                by {
                if y != dyr {
                    assert(pre.pixel_byte(x, y, c) == src.pixel_byte(sx + (x - dx), sy + (y - dy), c));
                    assert(dst.pixel_byte(x, y, c) == pre.pixel_byte(x, y, c));
                }
            }
            assert forall|x: int, y: int, c: int|
                0 <= x < dst0.width && 0 <= y < dst0.height && 0 <= c < 3 && !(dx <= x < dx + cw
                    && dy <= y < dy + (j + 1)) implies #[trigger] dst.pixel_byte(x, y, c)
                == dst0.pixel_byte(x, y, c) by {
                assert(dst.pixel_byte(x, y, c) == pre.pixel_byte(x, y, c));
                assert(pre.pixel_byte(x, y, c) == dst0.pixel_byte(x, y, c));
            }
        }
        j = j + 1;
    }
}

} // verus!
