use vstd::arithmetic::div_mod::lemma_fundamental_div_mod_converse;
use vstd::arithmetic::mul::lemma_mul_inequality;
use vstd::prelude::*;

verus! {

/// A decoded bitmap whose pixels are three bytes each, red, green, blue, in
/// rows from the top; each row starts `pitch` bytes after the one before it,
/// so a row may end in padding.
pub struct RgbSurface {
    pub width: u32,
    pub height: u32,
    pub pitch: u32,
    pub pixels: Vec<u8>,
}

/// The rows of a `w` x `h` image fit in `len` bytes spaced `pitch` apart.
pub open spec fn rows_fit(w: int, h: int, pitch: int, len: int) -> bool {
    3 * w <= pitch && (h == 0 || (h - 1) * pitch + 3 * w <= len)
}

/// The image's pixels with the row padding removed: byte `k` is byte `k % 3w`
/// of row `k / 3w`.
pub open spec fn packed_rgb(w: int, h: int, pitch: int, px: Seq<u8>) -> Seq<u8> {
    Seq::new((3 * w * h) as nat, |k: int| px[(k / (3 * w)) * pitch + k % (3 * w)])
}

impl RgbSurface {
    pub open spec fn fits(&self) -> bool {
        rows_fit(self.width as int, self.height as int, self.pitch as int, self.pixels@.len() as int)
    }

    pub open spec fn packed(&self) -> Seq<u8> {
        packed_rgb(self.width as int, self.height as int, self.pitch as int, self.pixels@)
    }
}

/// The surface's pixels as tightly packed RGB rows, `3 * width * height`
/// bytes; `None` where its rows do not fit its buffer.
pub fn pack_rgb(img: &RgbSurface) -> (r: Option<Vec<u8>>)
    ensures
        r is Some <==> img.fits(),
        r matches Some(v) ==> v@ == img.packed(),
{
    let row64: u64 = 3 * (img.width as u64);
    if row64 > img.pitch as u64 {
        return None;
    }
    if img.height == 0 {
        let out: Vec<u8> = Vec::new();
        assert(out@ =~= img.packed());
        return Some(out);
    }
    assert(((img.height - 1) as u128) * (img.pitch as u128) <= 0xffff_ffff_ffff_ffffu128) by (nonlinear_arith)
        requires img.height >= 1;
    let need: u128 = ((img.height - 1) as u128) * (img.pitch as u128) + (row64 as u128);
    if need > img.pixels.len() as u128 {
        return None;
    }
    let n: usize = img.pixels.len();
    let row: usize = row64 as usize;
    let pitch: usize = img.pitch as usize;
    let h: usize = img.height as usize;
    let ghost w = img.width as int;
    let ghost len = img.pixels@.len() as int;
    let mut out: Vec<u8> = Vec::new();
    let mut y: usize = 0;
    while y < h
        invariant
            row == 3 * w,
            row <= pitch,
            pitch == img.pitch,
            h == img.height,
            h >= 1,
            (h - 1) * pitch + row <= len,
            len == img.pixels@.len(),
            len == n,
            y <= h,
            out@.len() == y * row,
            forall|k: int|
                0 <= k < out@.len() ==> #[trigger] out@[k] == img.pixels@[(k / row as int) * pitch
                    + k % row as int],
        decreases h - y,
    {
        proof {
            lemma_mul_inequality(y as int, h - 1, pitch as int);
            assert(y * pitch + row <= len);
        }
        let base: usize = y * pitch;
        let mut x: usize = 0;
        while x < row
            invariant
                row == 3 * w,
                row <= pitch,
                pitch == img.pitch,
                h == img.height,
                y < h,
                base == y * pitch,
                base + row <= len,
                len == img.pixels@.len(),
                len == n,
                x <= row,
                out@.len() == y * row + x,
                forall|k: int|
                    0 <= k < out@.len() ==> #[trigger] out@[k] == img.pixels@[(k / row as int)
                        * pitch + k % row as int],
            decreases row - x,
        {
            proof {
                lemma_fundamental_div_mod_converse(
                    (y * row + x) as int,
                    row as int,
                    y as int,
                    x as int,
                );
            }
            out.push(img.pixels[base + x]);
            x = x + 1;
        }
        proof {
            assert((y + 1) * row == y * row + row) by (nonlinear_arith);
        }
        y = y + 1;
    }
    proof {
        assert(h * row == 3 * w * h) by (nonlinear_arith)
            requires row == 3 * w;
        assert(out@ =~= img.packed());
    }
    Some(out)
}

} // verus!
