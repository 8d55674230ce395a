//! Rasterising the video region into pixels.
//!
//! The board stores the 224×256 monochrome screen one bit per pixel,
//! column-major and bottom-up: bit `p` of the video region lights the
//! pixel in column `p / 256`, counted `p % 256` up from the bottom row.
//! [`render_frame`] expands a video-region snapshot into a row-major
//! 32-bit framebuffer; the window that shows it stays with the caller.

use vstd::prelude::*;

verus! {

/// Screen width in pixels.
pub const WIDTH: usize = 224;

/// Screen height in pixels.
pub const HEIGHT: usize = 256;

/// Framebuffer color of one video-memory bit: black or white.
pub open spec fn spec_color(bit: bool) -> u32 {
    if bit {
        0xffff_ffffu32
    } else {
        0u32
    }
}

/// Whether display point `p` is lit: bit `p % 8` of video byte `p / 8`.
pub open spec fn point_lit(vram: Seq<u8>, p: int) -> bool {
    vram[p / 8] / (pow2_u8(p % 8)) % 2 == 1
}

/// The eight bit weights of a byte.
pub open spec fn pow2_u8(k: int) -> u8 {
    if k == 0 {
        1
    } else if k == 1 {
        2
    } else if k == 2 {
        4
    } else if k == 3 {
        8
    } else if k == 4 {
        16
    } else if k == 5 {
        32
    } else if k == 6 {
        64
    } else {
        128
    }
}

/// Row-major framebuffer index of display point `p`: the display is
/// rotated, column `p / 256`, `p % 256` rows up from the bottom.
pub open spec fn point_index(p: int) -> int {
    (255 - p % 256) * 224 + p / 256
}

/// Framebuffer color of one video byte's bit: white where lit.
pub fn get_color(bit: u8) -> (r: u32)
    ensures
        r == spec_color(bit != 0),
{
    if bit == 0 {
        0
    } else {
        u32::MAX
    }
}

/// Display points map to distinct framebuffer cells.
proof fn lemma_point_index_injective(p1: int, p2: int)
    by (nonlinear_arith)
    requires
        0 <= p1 < 57344,
        0 <= p2 < 57344,
        p1 != p2,
    ensures
        point_index(p1) != point_index(p2),
{
    assert(point_index(p1) % 224 == p1 / 256);
    assert(point_index(p2) % 224 == p2 / 256);
    assert(point_index(p1) / 224 == 255 - p1 % 256);
    assert(point_index(p2) / 224 == 255 - p2 % 256);
}

/// Every display point lands inside the framebuffer.
proof fn lemma_point_index_bounds(p: int)
    requires
        0 <= p < 57344,
    ensures
        0 <= point_index(p) < 57344,
{
}

/// Expand a video-region snapshot into the row-major framebuffer: every
/// display point shows white exactly where its video bit is set.
pub fn render_frame(vram: &Vec<u8>) -> (r: Vec<u32>)
    requires
        vram.len() == 0x1c00,
    ensures
        r.len() == 57344,
        forall|p: int| 0 <= p < 57344 ==> r[point_index(p)] == spec_color(point_lit(vram@, p)),
{
    let mut buffer: Vec<u32> = Vec::new();
    let mut j: usize = 0;
    while j < 57344
        invariant
            j <= 57344,
            buffer.len() == j,
        decreases 57344 - j,
    {
        buffer.push(0);
        j = j + 1;
    }
    let mut i: usize = 0;
    while i < 0x1c00
        invariant
            i <= 0x1c00,
            vram.len() == 0x1c00,
            buffer.len() == 57344,
            forall|p: int|
                0 <= p < i * 8 ==> buffer[point_index(p)] == spec_color(point_lit(vram@, p)),
        decreases 0x1c00 - i,
    {
        let mut byte = vram[i];
        let mut k: usize = 0;
        while k < 8
            invariant
                k <= 8,
                i < 0x1c00,
                vram.len() == 0x1c00,
                buffer.len() == 57344,
                k < 8 ==> byte == vram@[i as int] / pow2_u8(k as int),
                forall|p: int|
                    0 <= p < i * 8 + k ==> buffer[point_index(p)] == spec_color(
                        point_lit(vram@, p),
                    ),
            decreases 8 - k,
        {
            let p = i * 8 + k;
            let x = p / 256;
            let y = 255 - p % 256;
            let idx = y * 224 + x;
            proof {
                assert(idx == point_index(p as int));
                lemma_point_index_bounds(p as int);
                assert forall|q: int| 0 <= q < i * 8 + k implies point_index(q) != point_index(
                    p as int,
                ) by {
                    lemma_point_index_injective(q, p as int);
                }
            }
            let color = get_color(byte % 2);
            buffer[idx] = color;
            proof {
                assert(point_lit(vram@, p as int) == (byte % 2 == 1));
            }
            proof {
                if k < 7 {
                    vstd::arithmetic::div_mod::lemma_div_denominator(
                        vram@[i as int] as int,
                        pow2_u8(k as int) as int,
                        2,
                    );
                    assert(pow2_u8(k as int + 1) == 2 * pow2_u8(k as int));
                }
            }
            byte = byte / 2;
            k = k + 1;
        }
        i = i + 1;
    }
    buffer
}

} // verus!
