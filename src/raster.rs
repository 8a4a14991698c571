//! The layout of a rendered frame: pixels in row-major order, each stored
//! as four bytes red, green, blue, alpha.
use vstd::prelude::*;

use crate::color::{color_of, hue_color, Rgba};

verus! {

/// Byte `k` (0 to 3) of a colour in red, green, blue, alpha order.
pub open spec fn channel(c: Rgba, k: int) -> u8 {
    if k == 0 {
        c.r
    } else if k == 1 {
        c.g
    } else if k == 2 {
        c.b
    } else {
        c.a
    }
}

/// The bytes of a frame whose pixels, in row-major order, have the hues
/// `hues`.
pub open spec fn frame_bytes(hues: Seq<u32>) -> Seq<u8> {
    Seq::new(4 * hues.len(), |k: int| channel(color_of(hues[k / 4] as int), k % 4))
}

/// Number of pixels in a frame of `width` by `height`.
pub fn pixel_count(width: u16, height: u16) -> (r: usize)
    ensures
        r == width as int * height as int,
{
    assert(width as int * height as int <= 0xffff * 0xffff) by (nonlinear_arith)
        requires
            width as int <= 0xffff,
            height as int <= 0xffff,
    ;
    (width as u32 * height as u32) as usize
}

/// The column and row of pixel `index` in a frame `width` pixels wide.
pub fn pixel_position(index: usize, width: u16, height: u16) -> (r: (u32, u32))
    requires
        index < width as int * height as int,
    ensures
        r.0 < width,
        r.1 < height,
        r.0 as int == index as int % width as int,
        r.1 as int == index as int / width as int,
        r.1 as int * width as int + r.0 as int == index,
{
    assert((index as int / width as int) < height as int) by (nonlinear_arith)
        requires
            index < width as int * height as int,
            0 < width,
    ;
    assert((index as int / width as int) * width as int + index as int % width as int == index)
        by (nonlinear_arith)
        requires
            0 < width,
    ;
    let w = width as usize;
    ((index % w) as u32, (index / w) as u32)
}

/// The bytes of one frame, from the hue of each of its pixels in row-major
/// order. Each pixel is coloured from its own hue alone.
pub fn render_frame(hues: &Vec<u32>) -> (bytes: Vec<u8>)
    requires
        4 * hues@.len() <= usize::MAX,
    ensures
        bytes@ == frame_bytes(hues@),
{
    let n = hues.len();
    let mut bytes: Vec<u8> = Vec::with_capacity(4 * n);
    let mut i: usize = 0;
    while i < n
        invariant
            n == hues@.len(),
            i <= n,
            bytes@.len() == 4 * i,
            forall|k: int|
                0 <= k < 4 * i ==> #[trigger] bytes@[k] == channel(
                    color_of(hues@[k / 4] as int),
                    k % 4,
                ),
        decreases n - i,
    {
        let c = hue_color(hues[i]);
        bytes.push(c.r);
        bytes.push(c.g);
        bytes.push(c.b);
        bytes.push(c.a);
        assert forall|k: int| 0 <= k < 4 * i + 4 implies #[trigger] bytes@[k] == channel(
            color_of(hues@[k / 4] as int),
            k % 4,
        ) by {
            if k >= 4 * i {
                assert(k / 4 == i && k % 4 == k - 4 * i);
            }
        }
        i = i + 1;
    }
    assert(bytes@ =~= frame_bytes(hues@));
    bytes
}

/// Each byte of a frame depends on its own pixel's hue and nothing else, so
/// two renders whose hues agree on a pixel agree on that pixel's bytes, in
/// whatever order the pixels were computed.
pub proof fn lemma_pixels_independent(a: Seq<u32>, b: Seq<u32>, k: int)
    requires
        a.len() == b.len(),
        0 <= k < 4 * a.len(),
        a[k / 4] == b[k / 4],
    ensures
        frame_bytes(a).len() == frame_bytes(b).len(),
        frame_bytes(a)[k] == frame_bytes(b)[k],
{
}

/// Rendering is deterministic: the same hues give the same bytes.
pub proof fn lemma_render_deterministic(a: Seq<u32>, b: Seq<u32>)
    requires
        a.len() == b.len(),
        forall|i: int| 0 <= i < a.len() ==> a[i] == b[i],
    ensures
        frame_bytes(a) == frame_bytes(b),
{
    assert(a =~= b);
}

} // verus!
