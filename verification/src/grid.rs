//! The uniform in-memory pixel representation shared by both decode paths,
//! and the verified centered crop used by the crop-to-fill resize.

use vstd::prelude::*;

verus! {

/// Interleaved 8-bit RGBA pixel grid, row-major, no padding.
pub struct PixelGrid {
    pub width: u32,
    pub height: u32,
    pub data: Vec<u8>,
}

impl PixelGrid {
    /// Well-formedness: positive dimensions and a buffer of exactly
    /// `width * height * 4` bytes.
    pub open spec fn wf(self) -> bool {
        &&& self.width >= 1
        &&& self.height >= 1
        &&& self.data@.len() == self.width * self.height * 4
    }

    /// Construct a grid, validating the buffer-size invariant explicitly:
    /// a buffer whose length is not exactly `width * height * 4`, or a zero
    /// dimension, is rejected rather than truncated or read out of bounds.
    pub fn new(width: u32, height: u32, data: Vec<u8>) -> (r: Option<PixelGrid>)
        ensures
            match r {
                Some(g) => {
                    &&& g.width == width
                    &&& g.height == height
                    &&& g.data@ == data@
                    &&& g.wf()
                },
                None => width == 0 || height == 0 || data@.len() != width * height * 4,
            },
            (r is Some) <==> (width >= 1 && height >= 1 && data@.len() == width * height * 4),
    {
        if width == 0 || height == 0 {
            return None;
        }
        proof {
            assert((width as int) * (height as int) * 4 < 0x40000000000000000int) by (nonlinear_arith)
                requires 0 <= width < 0x100000000int, 0 <= height < 0x100000000int;
        }
        let expected: u128 = (width as u128) * (height as u128) * 4;
        if (data.len() as u128) != expected {
            return None;
        }
        Some(PixelGrid { width, height, data })
    }
}

/// The byte sequence of a `w * h` crop taken at offset `(x, y)` of a
/// row-major RGBA grid that is `src_w` pixels wide: output byte `i` lies in
/// crop row `i / (w * 4)` at byte offset `i % (w * 4)`, and comes from the
/// source byte at row `y + i / (w * 4)`, byte offset `x * 4 + i % (w * 4)`.
pub open spec fn crop_bytes(src_w: int, data: Seq<u8>, x: int, y: int, w: int, h: int) -> Seq<u8> {
    Seq::new(
        (h * w * 4) as nat,
        |i: int| data[((y + i / (w * 4)) * src_w + x) * 4 + i % (w * 4)],
    )
}

/// Extract the `w * h` sub-grid at offset `(x, y)`.
pub fn crop(g: &PixelGrid, x: u32, y: u32, w: u32, h: u32) -> (r: PixelGrid)
    requires
        g.wf(),
        w >= 1,
        h >= 1,
        x + w <= g.width,
        y + h <= g.height,
    ensures
        r.width == w,
        r.height == h,
        r.wf(),
        r.data@ == crop_bytes(g.width as int, g.data@, x as int, y as int, w as int, h as int),
{
    let sw: usize = g.width as usize;
    let sh: usize = g.height as usize;
    let total: usize = g.data.len();
    proof {
        assert(total == sw * sh * 4);
        assert(4 * (sh * sw) == sw * sh * 4) by (nonlinear_arith);
        assert(w * 4 <= total) by (nonlinear_arith)
            requires w <= sw, 1 <= sh, 0 <= w, 0 <= sw, total == sw * sh * 4;
    }
    let row_bytes: usize = (w as usize) * 4;
    let mut out: Vec<u8> = Vec::new();
    let ghost target: Seq<u8> = crop_bytes(
        g.width as int, g.data@, x as int, y as int, w as int, h as int,
    );
    let mut row: usize = 0;
    while row < h as usize
        invariant
            row <= h,
            sw == g.width,
            sh == g.height,
            total == g.data@.len(),
            row_bytes == w * 4,
            g.wf(),
            w >= 1,
            h >= 1,
            x + w <= g.width,
            y + h <= g.height,
            target == crop_bytes(g.width as int, g.data@, x as int, y as int, w as int, h as int),
            target.len() == h * w * 4,
            out@.len() == row * row_bytes,
            row * row_bytes <= target.len(),
            out@ == target.subrange(0, (row * row_bytes) as int),
        decreases h - row,
    {
        proof {
            assert(4 * ((y + row) * sw + x + w) <= total) by (nonlinear_arith)
                requires
                    y + row + 1 <= sh, x + w <= sw, 0 <= row, 0 <= y, 0 <= x,
                    1 <= w, 0 <= sw, 0 <= sh, total == sw * sh * 4;
        }
        let row_base: usize = ((y as usize + row) * sw + x as usize) * 4;
        proof {
            assert((row + 1) * row_bytes == row * row_bytes + row_bytes
                && (row + 1) * row_bytes <= h * row_bytes
                && h * row_bytes == h * w * 4) by (nonlinear_arith)
                requires row + 1 <= h, row_bytes == w * 4, 0 <= row, 0 <= row_bytes;
        }
        let mut c: usize = 0;
        while c < row_bytes
            invariant
                c <= row_bytes,
                row < h,
                sw == g.width,
                sh == g.height,
                total == g.data@.len(),
                row_bytes == w * 4,
                g.wf(),
                w >= 1,
                h >= 1,
                x + w <= g.width,
                y + h <= g.height,
                row_base == ((y + row) * sw + x) * 4,
                row_base + row_bytes <= total,
                target == crop_bytes(g.width as int, g.data@, x as int, y as int, w as int, h as int),
                target.len() == h * w * 4,
                row * row_bytes + row_bytes <= target.len(),
                out@.len() == row * row_bytes + c,
                out@ == target.subrange(0, (row * row_bytes + c) as int),
            decreases row_bytes - c,
        {
            let b: u8 = g.data[row_base + c];
            out.push(b);
            proof {
                let i: int = row * row_bytes + c;
                vstd::arithmetic::div_mod::lemma_fundamental_div_mod_converse(
                    i, w * 4, row as int, c as int,
                );
                assert(target[i] == g.data@[((y + i / (w * 4)) * sw + x) * 4 + i % (w * 4)]);
                assert(target[i] == g.data@[row_base + c]);
                assert(out@ =~= target.subrange(0, i + 1));
            }
            c = c + 1;
        }
        row = row + 1;
    }
    proof {
        assert(h * row_bytes == h * w * 4) by (nonlinear_arith)
            requires row_bytes == w * 4;
        assert(out@ =~= target);
    }
    let r = PixelGrid { width: w, height: h, data: out };
    proof {
        assert(r.data@.len() == w * h * 4) by (nonlinear_arith)
            requires r.data@.len() == h * (w * 4);
    }
    r
}

} // verus!
