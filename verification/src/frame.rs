//! The rendered frame, modelled exactly.
//!
//! The demo clears the target to opaque blue and draws one red triangle.
//! Rasterization is modelled on an integer grid: coordinates are given in
//! half-pixel units (twice the pixel coordinates), so that the centre of
//! pixel `(x, y)` is the lattice point `(2x + 1, 2y + 1)`. A pixel is filled
//! exactly when its centre lies strictly inside the triangle. `frame_spec`
//! gives the whole byte buffer of a frame, four bytes per pixel in RGBA
//! order, row by row; `render_frame` produces it and `check_frame` decides
//! whether a buffer read back from the device equals it.

use vstd::prelude::*;
use vstd::arithmetic::div_mod::lemma_fundamental_div_mod_converse;
use crate::surface::Extent2d;
use crate::surface::ImageFormat;

verus! {

/// Largest magnitude a triangle coordinate may have, in half-pixel units.
pub const MAX_COORD: i32 = 1048576;

/// Largest magnitude of a sample point coordinate, in half-pixel units.
pub const MAX_SAMPLE: i64 = 16384;

/// Largest frame width or height, in pixels.
pub const MAX_DIM: u32 = 4096;

/// Width of the demo's target image, in pixels.
pub const FRAME_WIDTH: u32 = 1024;

/// Height of the demo's target image, in pixels.
pub const FRAME_HEIGHT: u32 = 1024;

/// One RGBA pixel, one byte per channel.
#[derive(Clone, Copy, Debug, PartialEq, Eq, Structural)]
pub struct Color {
    pub r: u8,
    pub g: u8,
    pub b: u8,
    pub a: u8,
}

/// The clear color: opaque blue.
pub open spec fn clear_color_spec() -> Color {
    Color { r: 0, g: 0, b: 255, a: 255 }
}

/// The triangle's color: opaque red.
pub open spec fn fill_color_spec() -> Color {
    Color { r: 255, g: 0, b: 0, a: 255 }
}

/// The clear color the render pass is given: opaque blue.
pub fn clear_color() -> (c: Color)
    ensures
        c == clear_color_spec(),
{
    Color { r: 0, g: 0, b: 255, a: 255 }
}

/// The color the fragment stage writes: opaque red.
pub fn fill_color() -> (c: Color)
    ensures
        c == fill_color_spec(),
{
    Color { r: 255, g: 0, b: 0, a: 255 }
}

/// A triangle with vertices on the half-pixel grid.
#[derive(Clone, Copy, Debug, PartialEq, Eq, Structural)]
pub struct Triangle {
    pub ax: i32,
    pub ay: i32,
    pub bx: i32,
    pub by: i32,
    pub cx: i32,
    pub cy: i32,
}

impl Triangle {
    /// All coordinates are small enough for exact edge arithmetic.
    pub open spec fn wf(self) -> bool {
        &&& -MAX_COORD <= self.ax <= MAX_COORD
        &&& -MAX_COORD <= self.ay <= MAX_COORD
        &&& -MAX_COORD <= self.bx <= MAX_COORD
        &&& -MAX_COORD <= self.by <= MAX_COORD
        &&& -MAX_COORD <= self.cx <= MAX_COORD
        &&& -MAX_COORD <= self.cy <= MAX_COORD
    }

    /// Run-time check of `wf`, for callers that build a triangle from
    /// unchecked values.
    pub fn is_wf(&self) -> (b: bool)
        ensures
            b == self.wf(),
    {
        -MAX_COORD <= self.ax && self.ax <= MAX_COORD && -MAX_COORD <= self.ay && self.ay
            <= MAX_COORD && -MAX_COORD <= self.bx && self.bx <= MAX_COORD && -MAX_COORD <= self.by
            && self.by <= MAX_COORD && -MAX_COORD <= self.cx && self.cx <= MAX_COORD && -MAX_COORD
            <= self.cy && self.cy <= MAX_COORD
    }
}

/// The demo's triangle: the vertices (-1/2, -1/2), (0, 1/2), (1/2, -1/4) of
/// normalized device coordinates, mapped to a 1024 by 1024 viewport and
/// written in half-pixel units.
pub open spec fn demo_triangle_spec() -> Triangle {
    Triangle { ax: 512, ay: 512, bx: 1024, by: 1536, cx: 1536, cy: 768 }
}

/// The triangle the demo draws.
pub fn demo_triangle() -> (t: Triangle)
    ensures
        t == demo_triangle_spec(),
        t.wf(),
{
    Triangle { ax: 512, ay: 512, bx: 1024, by: 1536, cx: 1536, cy: 768 }
}

/// The signed area measure of the edge from `(ax, ay)` to `(bx, by)` with
/// respect to the point `(px, py)`: positive on one side, negative on the
/// other, zero on the edge's line.
pub open spec fn edge_value(ax: int, ay: int, bx: int, by: int, px: int, py: int) -> int {
    (bx - ax) * (py - ay) - (by - ay) * (px - ax)
}

/// The point `(px, py)` lies strictly inside the triangle: all three edge
/// values have one strict sign, whichever way the vertices wind.
pub open spec fn in_triangle(t: Triangle, px: int, py: int) -> bool {
    let e0 = edge_value(t.ax as int, t.ay as int, t.bx as int, t.by as int, px, py);
    let e1 = edge_value(t.bx as int, t.by as int, t.cx as int, t.cy as int, px, py);
    let e2 = edge_value(t.cx as int, t.cy as int, t.ax as int, t.ay as int, px, py);
    (e0 > 0 && e1 > 0 && e2 > 0) || (e0 < 0 && e1 < 0 && e2 < 0)
}

/// The rasterizer fills pixel `(x, y)` exactly when the pixel's centre lies
/// strictly inside the triangle.
pub open spec fn pixel_covered(t: Triangle, x: int, y: int) -> bool {
    in_triangle(t, 2 * x + 1, 2 * y + 1)
}

/// The color of pixel `(x, y)`: the fill color inside the triangle, the
/// clear color everywhere else.
pub open spec fn pixel_color(t: Triangle, x: int, y: int) -> Color {
    if pixel_covered(t, x, y) {
        fill_color_spec()
    } else {
        clear_color_spec()
    }
}

/// Channel `ch` of a pixel's four bytes, in RGBA order.
pub open spec fn color_byte(c: Color, ch: int) -> u8 {
    if ch == 0 {
        c.r
    } else if ch == 1 {
        c.g
    } else if ch == 2 {
        c.b
    } else {
        c.a
    }
}

/// Byte `i` of a frame of the given width: four bytes per pixel, pixels in
/// row-major order.
pub open spec fn frame_byte(t: Triangle, width: int, i: int) -> u8 {
    let p = i / 4;
    let ch = i % 4;
    color_byte(pixel_color(t, p % width, p / width), ch)
}

/// The whole byte buffer of a frame: `width * height` pixels, four bytes
/// each.
pub open spec fn frame_spec(t: Triangle, width: int, height: int) -> Seq<u8>
    recommends
        width > 0,
        height >= 0,
{
    Seq::new((width * height * 4) as nat, |i: int| frame_byte(t, width, i))
}

/// Where pixel `(x, y)` of a frame of the given width starts in the buffer.
pub open spec fn pixel_offset(width: int, x: int, y: int) -> int {
    (y * width + x) * 4
}

/// Byte `ch` of pixel `(x, y)` in the frame is channel `ch` of that pixel's
/// color: the fill color inside the triangle, the clear color outside.
pub proof fn lemma_frame_byte_at(t: Triangle, width: int, x: int, y: int, ch: int)
    requires
        0 <= x < width,
        0 <= y,
        0 <= ch < 4,
    ensures
        frame_byte(t, width, pixel_offset(width, x, y) + ch) == color_byte(
            pixel_color(t, x, y),
            ch,
        ),
{
    let p = y * width + x;
    let i = p * 4 + ch;
    assert(p >= 0) by (nonlinear_arith)
        requires
            0 <= x,
            0 <= y,
            width > 0,
            p == y * width + x,
    ;
    lemma_fundamental_div_mod_converse(i, 4, p, ch);
    lemma_fundamental_div_mod_converse(p, width, y, x);
}

/// Compute one edge value exactly, in wide integers.
fn edge_exec(ax: i32, ay: i32, bx: i32, by: i32, px: i64, py: i64) -> (r: i64)
    requires
        -MAX_COORD <= ax <= MAX_COORD,
        -MAX_COORD <= ay <= MAX_COORD,
        -MAX_COORD <= bx <= MAX_COORD,
        -MAX_COORD <= by <= MAX_COORD,
        -MAX_SAMPLE <= px <= MAX_SAMPLE,
        -MAX_SAMPLE <= py <= MAX_SAMPLE,
    ensures
        r == edge_value(ax as int, ay as int, bx as int, by as int, px as int, py as int),
{
    let dx1: i64 = (bx as i64) - (ax as i64);
    let dy1: i64 = (by as i64) - (ay as i64);
    let dx2: i64 = px - (ax as i64);
    let dy2: i64 = py - (ay as i64);
    proof {
        assert(-0x40000000000 <= dx1 * dy2 <= 0x40000000000) by (nonlinear_arith)
            requires
                -0x200000 <= dx1 <= 0x200000,
                -0x200000 <= dy2 <= 0x200000,
        ;
        assert(-0x40000000000 <= dy1 * dx2 <= 0x40000000000) by (nonlinear_arith)
            requires
                -0x200000 <= dy1 <= 0x200000,
                -0x200000 <= dx2 <= 0x200000,
        ;
    }
    dx1 * dy2 - dy1 * dx2
}

/// The color the frame must hold at pixel `(x, y)`: the fill color when the
/// pixel's centre lies inside the triangle, the clear color otherwise.
pub fn expected_pixel(t: &Triangle, x: u32, y: u32) -> (c: Color)
    requires
        t.wf(),
        x < MAX_DIM,
        y < MAX_DIM,
    ensures
        c == pixel_color(*t, x as int, y as int),
{
    let px: i64 = 2 * (x as i64) + 1;
    let py: i64 = 2 * (y as i64) + 1;
    let e0 = edge_exec(t.ax, t.ay, t.bx, t.by, px, py);
    let e1 = edge_exec(t.bx, t.by, t.cx, t.cy, px, py);
    let e2 = edge_exec(t.cx, t.cy, t.ax, t.ay, px, py);
    if (e0 > 0 && e1 > 0 && e2 > 0) || (e0 < 0 && e1 < 0 && e2 < 0) {
        fill_color()
    } else {
        clear_color()
    }
}

/// Produce the frame's byte buffer: `width * height` RGBA pixels, row by
/// row, the clear color everywhere outside the triangle and the fill color
/// at every pixel whose centre lies inside it.
pub fn render_frame(t: &Triangle, width: u32, height: u32) -> (buf: Vec<u8>)
    requires
        t.wf(),
        0 < width <= MAX_DIM,
        height <= MAX_DIM,
    ensures
        buf@ == frame_spec(*t, width as int, height as int),
{
    let mut buf: Vec<u8> = Vec::new();
    let mut y: u32 = 0;
    while y < height
        invariant
            t.wf(),
            0 < width <= MAX_DIM,
            height <= MAX_DIM,
            y <= height,
            buf@.len() == y * width * 4,
            forall|i: int| 0 <= i < buf@.len() ==> buf@[i] == frame_byte(*t, width as int, i),
        decreases height - y,
    {
        let mut x: u32 = 0;
        while x < width
            invariant
                t.wf(),
                0 < width <= MAX_DIM,
                height <= MAX_DIM,
                y < height,
                x <= width,
                buf@.len() == (y * width + x) * 4,
                forall|i: int| 0 <= i < buf@.len() ==> buf@[i] == frame_byte(*t, width as int, i),
            decreases width - x,
        {
            let c = expected_pixel(t, x, y);
            proof {
                lemma_frame_byte_at(*t, width as int, x as int, y as int, 0);
                lemma_frame_byte_at(*t, width as int, x as int, y as int, 1);
                lemma_frame_byte_at(*t, width as int, x as int, y as int, 2);
                lemma_frame_byte_at(*t, width as int, x as int, y as int, 3);
            }
            buf.push(c.r);
            buf.push(c.g);
            buf.push(c.b);
            buf.push(c.a);
            x = x + 1;
        }
        proof {
            assert((y as int + 1) * (width as int) == y as int * width as int + width as int)
                by (nonlinear_arith);
        }
        y = y + 1;
    }
    proof {
        assert(height as int * width as int * 4 == width as int * height as int * 4)
            by (nonlinear_arith);
        assert(buf@ =~= frame_spec(*t, width as int, height as int));
    }
    buf
}

/// Decide whether a buffer read back from the device is exactly the frame:
/// the right length, and every pixel the color the model gives it.
pub fn check_frame(buf: &Vec<u8>, t: &Triangle, width: u32, height: u32) -> (ok: bool)
    requires
        t.wf(),
        0 < width <= MAX_DIM,
        height <= MAX_DIM,
    ensures
        ok <==> buf@ == frame_spec(*t, width as int, height as int),
{
    proof {
        assert(width as int * height as int <= 0x1000000) by (nonlinear_arith)
            requires
                0 < width <= 4096,
                height <= 4096,
        ;
    }
    let expected_len: usize = (width as usize) * (height as usize) * 4;
    if buf.len() != expected_len {
        return false;
    }
    let ghost fs = frame_spec(*t, width as int, height as int);
    let mut idx: usize = 0;
    let mut y: u32 = 0;
    while y < height
        invariant
            t.wf(),
            0 < width <= MAX_DIM,
            height <= MAX_DIM,
            y <= height,
            idx == y * width * 4,
            fs == frame_spec(*t, width as int, height as int),
            buf@.len() == fs.len(),
            fs.len() == width as int * height as int * 4,
            forall|i: int| 0 <= i < idx ==> buf@[i] == fs[i],
        decreases height - y,
    {
        let mut x: u32 = 0;
        while x < width
            invariant
                t.wf(),
                0 < width <= MAX_DIM,
                height <= MAX_DIM,
                y < height,
                x <= width,
                idx == (y * width + x) * 4,
                fs == frame_spec(*t, width as int, height as int),
                buf@.len() == fs.len(),
                fs.len() == width as int * height as int * 4,
                forall|i: int| 0 <= i < idx ==> buf@[i] == fs[i],
            decreases width - x,
        {
            proof {
                assert(y as int * width as int + x as int + 1 <= height as int * width as int
                    && height as int * width as int <= 0x1000000) by (nonlinear_arith)
                    requires
                        0 <= y < height as int,
                        0 <= x < width as int,
                        width <= 4096,
                        height <= 4096,
                ;
                assert(height as int * width as int * 4 == width as int * height as int * 4)
                    by (nonlinear_arith);
                lemma_frame_byte_at(*t, width as int, x as int, y as int, 0);
                lemma_frame_byte_at(*t, width as int, x as int, y as int, 1);
                lemma_frame_byte_at(*t, width as int, x as int, y as int, 2);
                lemma_frame_byte_at(*t, width as int, x as int, y as int, 3);
            }
            let c = expected_pixel(t, x, y);
            if buf[idx] != c.r || buf[idx + 1] != c.g || buf[idx + 2] != c.b || buf[idx + 3]
                != c.a {
                return false;
            }
            idx = idx + 4;
            x = x + 1;
        }
        proof {
            assert((y as int + 1) * (width as int) == y as int * width as int + width as int)
                by (nonlinear_arith);
        }
        y = y + 1;
    }
    proof {
        assert(height as int * width as int * 4 == width as int * height as int * 4)
            by (nonlinear_arith);
        assert(buf@ =~= fs);
    }
    true
}

/// The offscreen render target the demo creates: a fixed two-dimensional
/// RGBA image.
#[derive(Clone, Copy, Debug, PartialEq, Eq, Structural)]
pub struct OffscreenTarget {
    pub extent: Extent2d,
    pub format: ImageFormat,
}

/// The offscreen target's parameters: 1024 by 1024 pixels, RGBA, one byte
/// per channel.
pub fn offscreen_target() -> (target: OffscreenTarget)
    ensures
        target == (OffscreenTarget {
            extent: Extent2d { width: FRAME_WIDTH, height: FRAME_HEIGHT },
            format: ImageFormat::R8G8B8A8Unorm,
        }),
{
    OffscreenTarget {
        extent: Extent2d { width: FRAME_WIDTH, height: FRAME_HEIGHT },
        format: ImageFormat::R8G8B8A8Unorm,
    }
}

} // verus!
