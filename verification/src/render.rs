//! Palette decode: from a video-RAM snapshot to a pixel buffer.
//!
//! The renderer runs beside the emulation driver, takes an instantaneous
//! copy of video RAM together with the invert flag, and decodes the words
//! covering the visible display into 32-bit pixels.  Each 16-bit word packs
//! eight 2-bit pixels; the pixel index selects one of four fixed palette
//! entries, ordered darkest to lightest, and the index is complemented when
//! the invert flag is clear.  Within each row the visible words are decoded
//! in reverse order, matching the physical scan direction of the panel.

use vstd::prelude::*;

use crate::hd66753::{CGRAM_HEIGHT, EMU_CGRAM_LEN};

verus! {

/// Words per row of the padded video-RAM store (256 columns at 2 bits per
/// pixel, 16 bits per word).
pub const STORE_ROW_WORDS: usize = 32;

/// The fixed 4-entry palette, darkest to lightest.
pub open spec fn palette(i: int) -> u32
    recommends
        0 <= i < 4,
{
    if i == 0 {
        0x000000
    } else if i == 1 {
        0x686868
    } else if i == 2 {
        0xb8b8b9
    } else {
        0xffffff
    }
}

/// The 2-bit index of pixel `k` (leftmost first) within a video-RAM word.
pub open spec fn pixel_index(w: u16, k: int) -> u16
    recommends
        0 <= k < 8,
{
    (w >> (((7 - k) * 2) as u16)) & 3
}

/// The palette colour of pixel `k` of word `w`: the pixel's 2-bit index,
/// complemented when the invert flag is clear, looked up in the palette.
pub open spec fn decode_pixel(w: u16, k: int, invert: bool) -> u32
    recommends
        0 <= k < 8,
{
    if invert {
        palette(pixel_index(w, k) as int)
    } else {
        palette(3 - pixel_index(w, k) as int)
    }
}

/// The colour of pixel `(r, j*8 + k)` of the visible frame: row `r` of the
/// store holds the row's words, of which the `wpr` visible ones are decoded
/// in reverse order, so frame word `j` is store word `wpr - 1 - j`.
pub open spec fn frame_pixel(cgram: Seq<u16>, invert: bool, wpr: int, r: int, j: int, k: int) -> u32
    recommends
        cgram.len() == EMU_CGRAM_LEN,
        0 <= r,
        0 <= j < wpr <= 32,
        0 <= k < 8,
        r * 32 + (wpr - 1 - j) < EMU_CGRAM_LEN,
{
    decode_pixel(cgram[r * 32 + (wpr - 1 - j)], k, invert)
}

/// The fixed palette, executably.
pub fn palette_color(i: u16) -> (c: u32)
    requires
        i < 4,
    ensures
        c == palette(i as int),
{
    if i == 0 {
        0x000000
    } else if i == 1 {
        0x686868
    } else if i == 2 {
        0xb8b8b9
    } else {
        0xffffff
    }
}

/// Decode pixel `k` of word `w` under the given invert flag.
pub fn decode_pixel_color(w: u16, k: usize, invert: bool) -> (c: u32)
    requires
        k < 8,
    ensures
        c == decode_pixel(w, k as int, invert),
{
    let shift: u16 = (7 - k as u16) * 2;
    let idx: u16 = (w >> shift) & 3;
    proof {
        assert((w >> shift) & 3 < 4) by (bit_vector);
        assert(shift == ((7 - (k as int)) * 2) as u16);
    }
    if invert {
        palette_color(idx)
    } else {
        palette_color(3 - idx)
    }
}

/// Decode the visible part of a video-RAM snapshot into a pixel buffer.
///
/// `width` and `height` are the visible size in pixels; `width` must be a
/// whole number of 8-pixel words and fit inside the padded store.  The
/// buffer holds the rows top to bottom, each row's pixels left to right in
/// the reversed-word order of [`frame_pixel`].
pub fn render_frame(cgram: &Vec<u16>, invert: bool, width: usize, height: usize) -> (frame: Vec<
    u32,
>)
    requires
        cgram@.len() == EMU_CGRAM_LEN,
        width % 8 == 0,
        width / 8 <= STORE_ROW_WORDS,
        height <= CGRAM_HEIGHT,
    ensures
        frame@.len() == width * height,
        forall|r: int, j: int, k: int|
            0 <= r < height && 0 <= j < width / 8 && 0 <= k < 8 ==> frame@[r * width + j * 8 + k]
                == #[trigger] frame_pixel(cgram@, invert, (width / 8) as int, r, j, k),
{
    let wpr: usize = width / 8;
    let mut frame: Vec<u32> = Vec::new();
    let mut r: usize = 0;
    while r < height
        invariant
            cgram@.len() == EMU_CGRAM_LEN,
            width % 8 == 0,
            wpr == width / 8,
            wpr <= 32,
            height <= 132,
            r <= height,
            frame@.len() == r * width,
            forall|rr: int, jj: int, kk: int|
                0 <= rr < r && 0 <= jj < wpr && 0 <= kk < 8 ==> frame@[rr * width + jj * 8 + kk]
                    == #[trigger] frame_pixel(cgram@, invert, wpr as int, rr, jj, kk),
        decreases height - r,
    {
        let mut j: usize = 0;
        while j < wpr
            invariant
                cgram@.len() == EMU_CGRAM_LEN,
                width % 8 == 0,
                wpr == width / 8,
                wpr <= 32,
                height <= 132,
                r < height,
                j <= wpr,
                frame@.len() == r * width + j * 8,
                forall|rr: int, jj: int, kk: int|
                    0 <= rr < r && 0 <= jj < wpr && 0 <= kk < 8 ==> frame@[rr * width + jj * 8
                        + kk] == #[trigger] frame_pixel(cgram@, invert, wpr as int, rr, jj, kk),
                forall|jj: int, kk: int|
                    0 <= jj < j && 0 <= kk < 8 ==> frame@[r * width + jj * 8 + kk]
                        == #[trigger] frame_pixel(cgram@, invert, wpr as int, r as int, jj, kk),
            decreases wpr - j,
        {
            let w: u16 = cgram[r * STORE_ROW_WORDS + (wpr - 1 - j)];
            let mut k: usize = 0;
            while k < 8
                invariant
                    cgram@.len() == EMU_CGRAM_LEN,
                    width % 8 == 0,
                    wpr == width / 8,
                    wpr <= 32,
                    height <= 132,
                    r < height,
                    j < wpr,
                    k <= 8,
                    w == cgram@[r * 32 + (wpr - 1 - j)],
                    frame@.len() == r * width + j * 8 + k,
                    forall|rr: int, jj: int, kk: int|
                        0 <= rr < r && 0 <= jj < wpr && 0 <= kk < 8 ==> frame@[rr * width + jj * 8
                            + kk] == #[trigger] frame_pixel(cgram@, invert, wpr as int, rr, jj, kk),
                    forall|jj: int, kk: int|
                        0 <= jj < j && 0 <= kk < 8 ==> frame@[r * width + jj * 8 + kk]
                            == #[trigger] frame_pixel(cgram@, invert, wpr as int, r as int, jj, kk),
                    forall|kk: int|
                        0 <= kk < k ==> frame@[r * width + j * 8 + kk] == #[trigger] frame_pixel(
                            cgram@,
                            invert,
                            wpr as int,
                            r as int,
                            j as int,
                            kk,
                        ),
                decreases 8 - k,
            {
                let c = decode_pixel_color(w, k, invert);
                frame.push(c);
                proof {
                    assert(wpr * 8 == width) by (nonlinear_arith)
                        requires
                            wpr == width / 8,
                            width % 8 == 0,
                    ;
                    assert forall|rr: int, jj: int, kk: int|
                        0 <= rr < r && 0 <= jj < wpr && 0 <= kk < 8 implies frame@[rr * width + jj
                        * 8 + kk] == #[trigger] frame_pixel(
                        cgram@,
                        invert,
                        wpr as int,
                        rr,
                        jj,
                        kk,
                    ) by {
                        vstd::arithmetic::mul::lemma_mul_inequality(rr + 1, r as int, width as int);
                        assert((rr + 1) * width == rr * width + width) by (nonlinear_arith);
                    }
                }
                k = k + 1;
            }
            j = j + 1;
        }
        proof {
            assert((r + 1) * width == r * width + width) by (nonlinear_arith);
            assert(wpr * 8 == width) by (nonlinear_arith)
                requires
                    wpr == width / 8,
                    width % 8 == 0,
            ;
        }
        r = r + 1;
    }
    proof {
        assert(height * width == width * height) by (nonlinear_arith);
    }
    frame
}

/// A video-RAM word of all zero bits decodes, at every pixel position, to
/// the lightest palette entry when the invert flag is clear and to the
/// darkest when it is set: a cleared display shows the background colour
/// until inverted.
pub proof fn lemma_blank_word_decode(k: int, invert: bool)
    requires
        0 <= k < 8,
    ensures
        decode_pixel(0, k, invert) == if invert {
            palette(0)
        } else {
            palette(3)
        },
{
    let sh = ((7 - k) * 2) as u16;
    assert((0u16 >> sh) & 3 == 0) by (bit_vector);
}

/// A video-RAM word of all one bits decodes, at every pixel position, to
/// the darkest palette entry when the invert flag is clear and to the
/// lightest when it is set.
pub proof fn lemma_full_word_decode(k: int, invert: bool)
    requires
        0 <= k < 8,
    ensures
        decode_pixel(0xffff, k, invert) == if invert {
            palette(3)
        } else {
            palette(0)
        },
{
    let sh = ((7 - k) * 2) as u16;
    assert(sh <= 14 ==> (0xffffu16 >> sh) & 3 == 3) by (bit_vector);
}

} // verus!
