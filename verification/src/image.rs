//! Procedural frame generation.
//!
//! A frame is a row-major RGBA byte buffer of length `width * height * 4`.
//! The red channel ramps left to right, the green channel ramps top to
//! bottom, the blue channel is one scalar shared by every pixel of a frame
//! (the caller derives it from the animation time), and the alpha channel is
//! fully opaque.

use vstd::prelude::*;

verus! {

/// Red channel of the pixel in column `x` of a frame `w` pixels wide.
pub open spec fn red_value(x: int, w: int) -> int {
    (x * 256 / w) % 256
}

/// Green channel of the pixel in row `y` of a frame `h` pixels tall.
pub open spec fn green_value(y: int, h: int) -> int {
    (y * 256 / h) % 256
}

/// Byte offset of the first channel of pixel `(x, y)` in a row-major
/// RGBA buffer `w` pixels wide.
pub open spec fn pixel_base(x: int, y: int, w: int) -> int {
    (y * w + x) * 4
}

/// The four channels of pixel `(x, y)` hold the procedural pattern with
/// blue scalar `blue`.
pub open spec fn pixel_ok(bytes: Seq<u8>, w: int, h: int, x: int, y: int, blue: u8) -> bool {
    let base = pixel_base(x, y, w);
    &&& bytes[base] as int == red_value(x, w)
    &&& bytes[base + 1] as int == green_value(y, h)
    &&& bytes[base + 2] == blue
    &&& bytes[base + 3] == 255u8
}

/// The whole buffer is one complete frame of the pattern.
pub open spec fn frame_ok(bytes: Seq<u8>, w: int, h: int, blue: u8) -> bool {
    &&& bytes.len() == w * h * 4
    &&& forall|x: int, y: int| 0 <= x < w && 0 <= y < h ==> pixel_ok(bytes, w, h, x, y, blue)
}

/// Allocate a zeroed frame buffer for a `width` by `height` frame.
pub fn new_frame_buffer(width: u32, height: u32) -> (buf: Vec<u8>)
    requires
        width as int * height as int * 4 <= usize::MAX as int,
    ensures
        buf@.len() == width as int * height as int * 4,
        forall|i: int| 0 <= i < buf@.len() ==> buf@[i] == 0u8,
{
    let len: usize = (width as usize) * (height as usize) * 4;
    let mut buf: Vec<u8> = Vec::new();
    let mut i: usize = 0;
    while i < len
        invariant
            i <= len,
            buf@.len() == i,
            forall|j: int| 0 <= j < i ==> buf@[j] == 0u8,
        decreases len - i,
    {
        buf.push(0);
        i = i + 1;
    }
    buf
}

/// The red and green channels do not depend on the animation time: two
/// complete frames of the same size agree on both at every pixel, whatever
/// blue scalar each frame was drawn with.
pub proof fn lemma_red_green_independent_of_time(
    first: Seq<u8>,
    second: Seq<u8>,
    w: int,
    h: int,
    blue_first: u8,
    blue_second: u8,
    x: int,
    y: int,
)
    requires
        frame_ok(first, w, h, blue_first),
        frame_ok(second, w, h, blue_second),
        0 <= x < w,
        0 <= y < h,
    ensures
        first[pixel_base(x, y, w)] == second[pixel_base(x, y, w)],
        first[pixel_base(x, y, w) + 1] == second[pixel_base(x, y, w) + 1],
{
    assert(pixel_ok(first, w, h, x, y, blue_first));
    assert(pixel_ok(second, w, h, x, y, blue_second));
}

/// Within one frame the blue channel is one shared scalar: any two pixels
/// agree on it, and it is the scalar the frame was drawn with.
pub proof fn lemma_blue_uniform(
    bytes: Seq<u8>,
    w: int,
    h: int,
    blue: u8,
    x1: int,
    y1: int,
    x2: int,
    y2: int,
)
    requires
        frame_ok(bytes, w, h, blue),
        0 <= x1 < w,
        0 <= y1 < h,
        0 <= x2 < w,
        0 <= y2 < h,
    ensures
        bytes[pixel_base(x1, y1, w) + 2] == bytes[pixel_base(x2, y2, w) + 2],
        bytes[pixel_base(x1, y1, w) + 2] == blue,
{
    assert(pixel_ok(bytes, w, h, x1, y1, blue));
    assert(pixel_ok(bytes, w, h, x2, y2, blue));
}

proof fn lemma_pixel_base_bounds(x: int, y: int, w: int, h: int)
    by (nonlinear_arith)
    requires
        0 <= x < w,
        0 <= y < h,
    ensures
        0 <= y * w + x,
        (y * w + x) * 4 + 4 <= w * h * 4,
{
}

proof fn lemma_channel_value(c: int, d: int)
    requires
        0 <= c < d,
    ensures
        0 <= c * 256 / d < 256,
        (c * 256 / d) % 256 == c * 256 / d,
{
    assert(c * 256 < d * 256) by (nonlinear_arith)
        requires c < d;
    vstd::arithmetic::div_mod::lemma_div_pos_is_pos(c * 256, d);
    vstd::arithmetic::div_mod::lemma_multiply_divide_lt(c * 256, d, 256);
    vstd::arithmetic::div_mod::lemma_small_mod((c * 256 / d) as nat, 256);
}

/// Overwrite the whole buffer with one frame of the pattern: red ramps with
/// the column, green ramps with the row, every pixel shares the one blue
/// scalar `blue`, and alpha is 255 everywhere. The buffer's length is
/// unchanged.
pub fn draw(buffer: &mut Vec<u8>, width: u32, height: u32, blue: u8)
    requires
        width > 0,
        height > 0,
        old(buffer)@.len() == width as int * height as int * 4,
    ensures
        final(buffer)@.len() == old(buffer)@.len(),
        frame_ok(final(buffer)@, width as int, height as int, blue),
{
    let ghost w = width as int;
    let ghost h = height as int;
    // The buffer already fits in memory, so the byte count is within usize.
    let total: usize = buffer.len();
    assert(total as int == w * h * 4 && w * h * 4 <= usize::MAX as int);
    let mut y: u32 = 0;
    while y < height
        invariant
            y <= height,
            width > 0,
            height > 0,
            buffer@.len() == w * h * 4,
            w * h * 4 <= usize::MAX as int,
            w == width as int,
            h == height as int,
            forall|xx: int, yy: int|
                0 <= xx < w && 0 <= yy < y ==> pixel_ok(buffer@, w, h, xx, yy, blue),
        decreases height - y,
    {
        let mut x: u32 = 0;
        while x < width
            invariant
                x <= width,
                y < height,
                width > 0,
                height > 0,
                buffer@.len() == w * h * 4,
                w * h * 4 <= usize::MAX as int,
                w == width as int,
                h == height as int,
                forall|xx: int, yy: int|
                    0 <= xx < w && 0 <= yy < y ==> pixel_ok(buffer@, w, h, xx, yy, blue),
                forall|xx: int| 0 <= xx < x ==> pixel_ok(buffer@, w, h, xx, y as int, blue),
            decreases width - x,
        {
            proof {
                lemma_pixel_base_bounds(x as int, y as int, w, h);
                lemma_channel_value(x as int, w);
                lemma_channel_value(y as int, h);
            }
            let ghost pre = buffer@;
            let ghost base_g = pixel_base(x as int, y as int, w);
            let base: usize = ((y as usize) * (width as usize) + (x as usize)) * 4;
            let red: u8 = ((x as u64) * 256 / (width as u64)) as u8;
            let green: u8 = ((y as u64) * 256 / (height as u64)) as u8;
            buffer[base] = red;
            buffer[base + 1] = green;
            buffer[base + 2] = blue;
            buffer[base + 3] = 255;
            proof {
                assert forall|xx: int, yy: int|
                    0 <= xx < w && 0 <= yy < y implies pixel_ok(buffer@, w, h, xx, yy, blue) by {
                    assert(pixel_ok(pre, w, h, xx, yy, blue));
                    lemma_pixel_base_bounds(xx, yy, w, h);
                    assert(pixel_base(xx, yy, w) + 3 < base_g) by (nonlinear_arith)
                        requires 0 <= xx < w, 0 <= yy < y, 0 <= (x as int),
                            base_g == ((y as int) * w + (x as int)) * 4;
                }
                assert forall|xx: int|
                    0 <= xx < x implies pixel_ok(buffer@, w, h, xx, y as int, blue) by {
                    assert(pixel_ok(pre, w, h, xx, y as int, blue));
                    lemma_pixel_base_bounds(xx, y as int, w, h);
                    assert(pixel_base(xx, y as int, w) + 3 < base_g);
                }
                assert(pixel_ok(buffer@, w, h, x as int, y as int, blue));
            }
            x = x + 1;
        }
        y = y + 1;
    }
}

} // verus!
