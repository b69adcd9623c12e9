//! The frame buffer: width/height/stride metadata around a row-major,
//! 4-bytes-per-pixel byte region, plus the placeholder gradient payload.

use vstd::arithmetic::div_mod::{lemma_add_mod_noop, lemma_mul_mod_noop_general};
use vstd::prelude::*;

use crate::memory::allocate;

verus! {

/// Every pixel occupies four bytes: blue, green, red, alpha.
pub const BYTES_PER_PIXEL: i32 = 4;

/// Why surface creation was refused.  Non-positive dimensions are rejected
/// before any allocation is attempted.
#[derive(Clone, Copy, Debug, PartialEq, Eq, Structural)]
pub enum CreationError {
    NonPositiveWidth,
    NonPositiveHeight,
}

impl CreationError {
    /// The human-readable description of the failure.
    pub fn message(&self) -> (r: &'static str)
        ensures
            *self is NonPositiveWidth ==> r@ == "bitmap width must be positive"@,
            *self is NonPositiveHeight ==> r@ == "bitmap height must be positive"@,
    {
        match self {
            CreationError::NonPositiveWidth => "bitmap width must be positive",
            CreationError::NonPositiveHeight => "bitmap height must be positive",
        }
    }
}

/// The writable pixel surface presented to the window each frame.
///
/// `height` is stored as a positive magnitude; `top_down` records the row
/// order the presentation primitive must be told about (the design always
/// creates top-down surfaces).
#[derive(Debug)]
pub struct OffscreenBuffer {
    pub width: i32,
    pub height: i32,
    pub top_down: bool,
    pub memory: Vec<u8>,
}

/// Byte offset of channel `c` of the pixel at column `x`, row `y`, in a
/// row-major surface of the given width.
pub open spec fn byte_index(width: int, x: int, y: int, c: int) -> int {
    y * (width * 4) + x * 4 + c
}

/// The value the gradient payload stores for channel `c` of pixel `(x, y)`
/// under frame offsets `xo`, `yo`: blue = (x + xo) mod 256,
/// green = (y + yo) mod 256, red = (x*x + y*y + xo + yo) mod 256, alpha = 0.
pub open spec fn gradient_byte(x: int, y: int, c: int, xo: int, yo: int) -> u8 {
    if c == 0 {
        ((x + xo) % 256) as u8
    } else if c == 1 {
        ((y + yo) % 256) as u8
    } else if c == 2 {
        ((x * x + y * y + xo + yo) % 256) as u8
    } else {
        0u8
    }
}

impl OffscreenBuffer {
    /// The surface invariant: positive dimensions, total byte size within
    /// `i32` range, and backing memory of exactly `width * height * 4` bytes.
    pub open spec fn wf(self) -> bool {
        &&& 0 < self.width
        &&& 0 < self.height
        &&& self.width * self.height * 4 <= i32::MAX
        &&& self.memory@.len() == self.width * self.height * 4
    }

    /// Channel `c` of the pixel at `(x, y)` as stored in the backing memory.
    pub open spec fn pixel_byte(self, x: int, y: int, c: int) -> u8 {
        self.memory@[byte_index(self.width as int, x, y, c)]
    }

    /// The whole surface holds the gradient payload for offsets `(xo, yo)`.
    pub open spec fn gradient_rendered(self, xo: u8, yo: u8) -> bool {
        forall|x: int, y: int, c: int|
            0 <= x < self.width && 0 <= y < self.height && 0 <= c < 4 ==> #[trigger] self
                .pixel_byte(x, y, c) == gradient_byte(x, y, c, xo as int, yo as int)
    }

    /// Creates the surface.  Dimensions must be strictly positive; zero or
    /// negative values are rejected before any allocation attempt.  On
    /// success the backing memory is zero-initialized and holds exactly
    /// `width * height * 4` bytes.
    pub fn new(width: i32, height: i32) -> (r: Result<OffscreenBuffer, CreationError>)
        requires
            width > 0 && height > 0 ==> width * height * 4 <= i32::MAX,
        ensures
            width <= 0 ==> r == Err::<OffscreenBuffer, CreationError>(
                CreationError::NonPositiveWidth,
            ),
            width > 0 && height <= 0 ==> r == Err::<OffscreenBuffer, CreationError>(
                CreationError::NonPositiveHeight,
            ),
            width > 0 && height > 0 ==> {
                &&& r matches Ok(b)
                &&& b.wf()
                &&& b.width == width
                &&& b.height == height
                &&& b.top_down
                &&& b.memory@.len() == width * height * 4
                &&& forall|i: int| 0 <= i < b.memory@.len() ==> b.memory@[i] == 0u8
            },
    {
        if width <= 0 {
            return Err(CreationError::NonPositiveWidth);
        }
        if height <= 0 {
            return Err(CreationError::NonPositiveHeight);
        }
        assert(0 < width * height && width * height <= width * height * 4) by (nonlinear_arith)
            requires
                width > 0,
                height > 0,
        ;
        let size: i32 = width * height * BYTES_PER_PIXEL;
        let memory = allocate(size as usize);
        Ok(OffscreenBuffer { width, height, top_down: true, memory })
    }

    /// Width in pixels.
    pub fn width(&self) -> (r: i32)
        ensures
            r == self.width,
    {
        self.width
    }

    /// Height in pixels, always reported as a positive magnitude.
    pub fn height(&self) -> (r: i32)
        ensures
            r == self.height,
    {
        self.height
    }

    /// Whether rows are stored top-down, for the presentation primitive.
    pub fn is_top_down(&self) -> (r: bool)
        ensures
            r == self.top_down,
    {
        self.top_down
    }

    /// Byte distance between the starts of consecutive rows.
    pub fn pitch(&self) -> (r: usize)
        requires
            self.wf(),
        ensures
            r == self.width * 4,
    {
        assert(self.width * 4 <= i32::MAX) by (nonlinear_arith)
            requires
                0 < self.width,
                0 < self.height,
                self.width * self.height * 4 <= i32::MAX,
        ;
        (self.width * BYTES_PER_PIXEL) as usize
    }

    /// Immutable view of the backing memory, for presentation.
    pub fn bytes(&self) -> (r: &Vec<u8>)
        ensures
            r@ == self.memory@,
    {
        &self.memory
    }

    /// One byte of the backing memory.
    pub fn byte_at(&self, i: usize) -> (r: u8)
        requires
            i < self.memory@.len(),
        ensures
            r == self.memory@[i as int],
    {
        self.memory[i]
    }
}

/// Reducing the coordinates modulo 256 before squaring does not change the
/// red channel: ((x%256)^2 + (y%256)^2 + xo + yo) mod 256 equals
/// (x^2 + y^2 + xo + yo) mod 256.
proof fn lemma_red_reduction(x: int, y: int, xo: int, yo: int)
    requires
        0 <= x,
        0 <= y,
        0 <= xo,
        0 <= yo,
    ensures
        ((x % 256) * (x % 256) + (y % 256) * (y % 256) + xo + yo) % 256 == (x * x + y * y + xo
            + yo) % 256,
{
    let u = (x % 256) * (x % 256);
    let v = (y % 256) * (y % 256);
    let a = x * x;
    let b = y * y;
    let c = xo + yo;
    lemma_mul_mod_noop_general(x, x, 256);
    lemma_mul_mod_noop_general(y, y, 256);
    assert(u % 256 == a % 256);
    assert(v % 256 == b % 256);
    lemma_add_mod_noop(v, c, 256);
    lemma_add_mod_noop(b, c, 256);
    assert((v + c) % 256 == (b + c) % 256);
    lemma_add_mod_noop(u, v + c, 256);
    lemma_add_mod_noop(a, b + c, 256);
    assert((u + (v + c)) % 256 == (a + (b + c)) % 256);
}

/// Bytes strictly before the write position of pixel `(x, y)` belong to
/// pixels that come earlier in row-major order.
proof fn lemma_index_before(width: int, x: int, y: int, xx: int, yy: int, cc: int)
    by (nonlinear_arith)
    requires
        0 < width,
        0 <= x,
        0 <= y,
        0 <= xx < width,
        0 <= yy,
        0 <= cc < 4,
        yy < y || (yy == y && xx < x),
    ensures
        0 <= byte_index(width, xx, yy, cc),
        byte_index(width, xx, yy, cc) < y * (width * 4) + x * 4,
{
}

/// Writes one frame of the gradient payload into the surface, with the given
/// frame offsets.  Only the pixel bytes change; the metadata is untouched.
pub fn render_weird_gradient(buffer: &mut OffscreenBuffer, x_offset: u8, y_offset: u8)
    requires
        old(buffer).wf(),
    ensures
        final(buffer).wf(),
        final(buffer).width == old(buffer).width,
        final(buffer).height == old(buffer).height,
        final(buffer).top_down == old(buffer).top_down,
        final(buffer).memory@.len() == old(buffer).memory@.len(),
        final(buffer).gradient_rendered(x_offset, y_offset),
{
    let ghost b0 = *buffer;
    let width: usize = buffer.width() as usize;
    let height: usize = buffer.height() as usize;
    let pitch: usize = buffer.pitch();
    let xo: usize = x_offset as usize;
    let yo: usize = y_offset as usize;

    let mut y: usize = 0;
    while y < height
        invariant
            buffer.width == b0.width,
            buffer.height == b0.height,
            buffer.top_down == b0.top_down,
            buffer.memory@.len() == b0.memory@.len(),
            b0.wf(),
            width == b0.width,
            height == b0.height,
            pitch == width * 4,
            xo == x_offset,
            yo == y_offset,
            y <= height,
            forall|px: int, py: int, pc: int|
                0 <= px < width && 0 <= py < y && 0 <= pc < 4 ==> #[trigger] buffer.pixel_byte(
                    px,
                    py,
                    pc,
                ) == gradient_byte(px, py, pc, xo as int, yo as int),
        decreases height - y,
    {
        assert(y * (width * 4) + width * 4 <= height * (width * 4)) by (nonlinear_arith)
            requires
                y < height,
                0 < width,
        ;
        assert(height * (width * 4) == b0.width * b0.height * 4) by (nonlinear_arith)
            requires
                width == b0.width,
                height == b0.height,
        ;
        let mut x: usize = 0;
        let mut idx: usize = y * pitch;
        while x < width
            invariant
                buffer.width == b0.width,
                buffer.height == b0.height,
                buffer.top_down == b0.top_down,
                buffer.memory@.len() == b0.memory@.len(),
                b0.wf(),
                width == b0.width,
                height == b0.height,
                pitch == width * 4,
                xo == x_offset,
                yo == y_offset,
                y < height,
                x <= width,
                idx == y * (width * 4) + x * 4,
                y * (width * 4) + width * 4 <= buffer.memory@.len(),
                forall|px: int, py: int, pc: int|
                    0 <= px < width && 0 <= py < height && 0 <= pc < 4 && (py < y || (py == y && px
                        < x)) ==> #[trigger] buffer.pixel_byte(px, py, pc) == gradient_byte(
                        px,
                        py,
                        pc,
                        xo as int,
                        yo as int,
                    ),
        decreases width - x,
        {
            assert(idx + 4 <= y * (width * 4) + width * 4) by (nonlinear_arith)
                requires
                    idx == y * (width * 4) + x * 4,
                    x < width,
            ;
            let ghost entry = *buffer;
            let blue: u8 = ((x + xo) % 256) as u8;
            let green: u8 = ((y + yo) % 256) as u8;
            let xb: usize = x % 256;
            let yb: usize = y % 256;
            assert(xb * xb <= 65025 && yb * yb <= 65025) by (nonlinear_arith)
                requires
                    xb < 256,
                    yb < 256,
            ;
            let red: u8 = ((xb * xb + yb * yb + xo + yo) % 256) as u8;
            buffer.memory.set(idx, blue);
            buffer.memory.set(idx + 1, green);
            buffer.memory.set(idx + 2, red);
            buffer.memory.set(idx + 3, 0u8);
            proof {
                lemma_red_reduction(x as int, y as int, xo as int, yo as int);
                assert forall|px: int, py: int, pc: int|
                    0 <= px < width && 0 <= py < height && 0 <= pc < 4 && (py < y || (py == y && px
                        < x + 1)) implies #[trigger] buffer.pixel_byte(px, py, pc) == gradient_byte(
                    px,
                    py,
                    pc,
                    xo as int,
                    yo as int,
                ) by {
                    let bi = byte_index(width as int, px, py, pc);
                    if py < y || (py == y && px < x) {
                        lemma_index_before(width as int, x as int, y as int, px, py, pc);
                        assert(bi < idx);
                        assert(buffer.memory@[bi] == entry.memory@[bi]);
                        assert(entry.pixel_byte(px, py, pc) == gradient_byte(
                            px,
                            py,
                            pc,
                            xo as int,
                            yo as int,
                        ));
                    } else {
                        assert(py == y && px == x);
                        assert(bi == idx + pc);
                        if pc == 0 {
                            assert(buffer.memory@[bi] == blue);
                        } else if pc == 1 {
                            assert(buffer.memory@[bi] == green);
                        } else if pc == 2 {
                            assert(buffer.memory@[bi] == red);
                        } else {
                            assert(buffer.memory@[bi] == 0u8);
                        }
                    }
                }
            }
            x = x + 1;
            idx = idx + 4;
        }
        y = y + 1;
    }
}

} // verus!
