use vstd::prelude::*;
use crate::color::{Color, DisplayRotation};
use crate::epd::{blank_image, BUFFER_LEN, DEFAULT_BACKGROUND_COLOR, HEIGHT, WIDTH};

verus! {

/// A full-size, bit-packed framebuffer for the panel, with a rotation of the
/// logical drawing space. Byte `i` holds eight pixels of one row, the
/// leftmost in its highest bit; a set bit is white.
pub struct Display3in71 {
    buffer: Vec<u8>,
    rotation: DisplayRotation,
}

/// Bytes in one row of the buffer.
pub const ROW_BYTES: u32 = WIDTH / 8;

/// Whether a logical point lies off the panel under rotation `r`.
pub open spec fn outside(x: int, y: int, r: DisplayRotation) -> bool {
    x < 0 || y < 0 || match r {
        DisplayRotation::Rotate0 | DisplayRotation::Rotate180 => x >= WIDTH || y >= HEIGHT,
        DisplayRotation::Rotate90 | DisplayRotation::Rotate270 => y >= WIDTH || x >= HEIGHT,
    }
}

/// The physical column and row of a logical point under rotation `r`.
pub open spec fn physical(x: int, y: int, r: DisplayRotation) -> (int, int) {
    match r {
        DisplayRotation::Rotate0 => (x, y),
        DisplayRotation::Rotate90 => (WIDTH - 1 - y, x),
        DisplayRotation::Rotate180 => (WIDTH - 1 - x, HEIGHT - 1 - y),
        DisplayRotation::Rotate270 => (y, HEIGHT - 1 - x),
    }
}

/// The byte that holds a logical point.
pub open spec fn pixel_index(x: int, y: int, r: DisplayRotation) -> int {
    let (px, py) = physical(x, y, r);
    px / 8 + ROW_BYTES * py
}

/// The bit of its byte that holds a logical point.
pub open spec fn pixel_mask(x: int, y: int, r: DisplayRotation) -> u8 {
    let (px, py) = physical(x, y, r);
    (0x80u8 >> ((px % 8) as u8)) as u8
}

/// A byte with the bits of `mask` painted in color `c`.
pub open spec fn painted(b: u8, mask: u8, c: Color) -> u8 {
    match c {
        Color::Black => b & !mask,
        Color::White => b | mask,
    }
}

/// The buffer after painting one logical point; a point off the panel
/// leaves it as it is.
pub open spec fn drawn(buf: Seq<u8>, x: int, y: int, r: DisplayRotation, c: Color) -> Seq<u8> {
    if outside(x, y, r) {
        buf
    } else {
        let i = pixel_index(x, y, r);
        buf.update(i, painted(buf[i], pixel_mask(x, y, r), c))
    }
}

impl Display3in71 {
    /// The buffer's bytes.
    pub closed spec fn spec_buffer(&self) -> Seq<u8> {
        self.buffer@
    }

    /// The current rotation.
    pub closed spec fn spec_rotation(&self) -> DisplayRotation {
        self.rotation
    }

    /// The buffer holds exactly one full plane.
    pub open spec fn wf(&self) -> bool {
        self.spec_buffer().len() == BUFFER_LEN
    }

    /// A framebuffer filled with the default background, not rotated.
    pub fn new() -> (r: Display3in71)
        ensures
            r.wf(),
            r.spec_buffer() == blank_image(),
            r.spec_rotation() == DisplayRotation::Rotate0,
    {
        let fill = DEFAULT_BACKGROUND_COLOR.get_byte_value();
        let mut buffer: Vec<u8> = Vec::with_capacity(BUFFER_LEN as usize);
        let mut i: u32 = 0;
        while i < BUFFER_LEN
            invariant
                i <= BUFFER_LEN,
                fill == DEFAULT_BACKGROUND_COLOR.spec_byte_value(),
                buffer@ == blank_image().subrange(0, i as int),
            decreases BUFFER_LEN - i,
        {
            buffer.push(fill);
            i += 1;
            assert(buffer@ =~= blank_image().subrange(0, i as int));
        }
        assert(buffer@ =~= blank_image());
        Display3in71 { buffer, rotation: DisplayRotation::default_rotation() }
    }

    /// Paints one logical point in color `c`, through the current rotation.
    /// A point off the panel is ignored.
    pub fn draw_pixel(&mut self, x: i32, y: i32, c: Color)
        requires
            old(self).wf(),
        ensures
            final(self).wf(),
            final(self).spec_rotation() == old(self).spec_rotation(),
            final(self).spec_buffer() == drawn(
                old(self).spec_buffer(),
                x as int,
                y as int,
                old(self).spec_rotation(),
                c,
            ),
    {
        if x < 0 || y < 0 {
            return;
        }
        let ux = x as u32;
        let uy = y as u32;
        let (px, py) = match self.rotation {
            DisplayRotation::Rotate0 => {
                if ux >= WIDTH || uy >= HEIGHT {
                    return;
                }
                (ux, uy)
            },
            DisplayRotation::Rotate90 => {
                if uy >= WIDTH || ux >= HEIGHT {
                    return;
                }
                (WIDTH - 1 - uy, ux)
            },
            DisplayRotation::Rotate180 => {
                if ux >= WIDTH || uy >= HEIGHT {
                    return;
                }
                (WIDTH - 1 - ux, HEIGHT - 1 - uy)
            },
            DisplayRotation::Rotate270 => {
                if uy >= WIDTH || ux >= HEIGHT {
                    return;
                }
                (uy, HEIGHT - 1 - ux)
            },
        };
        assert(px < WIDTH && py < HEIGHT);
        assert(ROW_BYTES * py <= ROW_BYTES * (HEIGHT - 1)) by (nonlinear_arith)
            requires
                py < HEIGHT,
        ;
        let index = (px / 8 + ROW_BYTES * py) as usize;
        let mask: u8 = 0x80u8 >> ((px % 8) as u8);
        let old_byte = self.buffer[index];
        let new_byte = match c {
            Color::Black => old_byte & !mask,
            Color::White => old_byte | mask,
        };
        self.buffer.set(index, new_byte);
    }

    /// The buffer's bytes.
    pub fn buffer(&self) -> (r: &[u8])
        ensures
            r@ == self.spec_buffer(),
    {
        self.buffer.as_slice()
    }

    /// The buffer's bytes, for writing in place.
    pub fn get_mut_buffer(&mut self) -> (r: &mut [u8])
        ensures
            r@ == old(self).spec_buffer(),
            final(self).spec_buffer() == final(r)@,
            final(self).spec_rotation() == old(self).spec_rotation(),
    {
        self.buffer.as_mut_slice()
    }

    /// Sets the rotation of the logical drawing space; the buffer is kept.
    pub fn set_rotation(&mut self, rotation: DisplayRotation)
        ensures
            final(self).spec_rotation() == rotation,
            final(self).spec_buffer() == old(self).spec_buffer(),
    {
        self.rotation = rotation;
    }

    /// The current rotation.
    pub fn rotation(&self) -> (r: DisplayRotation)
        ensures
            r == self.spec_rotation(),
    {
        self.rotation
    }

    /// Width and height of the panel in pixels, whatever the rotation.
    pub fn size(&self) -> (r: (u32, u32))
        ensures
            r == (WIDTH, HEIGHT),
    {
        (WIDTH, HEIGHT)
    }
}

impl Default for Display3in71 {
    /// A framebuffer filled with the default background, not rotated.
    fn default() -> (r: Display3in71)
        ensures
            r.wf(),
            r.spec_buffer() == blank_image(),
            r.spec_rotation() == DisplayRotation::Rotate0,
    {
        Display3in71::new()
    }
}

/// A new framebuffer is exactly one full plane, every byte of it in the
/// background color; `set_rotation` keeps those bytes, so this holds
/// under every rotation.
pub proof fn lemma_blank_image()
    ensures
        blank_image().len() == WIDTH * HEIGHT / 8,
        blank_image().len() == 12480,
        forall|i: int| 0 <= i < blank_image().len() ==> blank_image()[i] == 0xffu8,
{
}

/// A byte with exactly one bit set.
pub open spec fn single_bit(m: u8) -> bool {
    m == 1 || m == 2 || m == 4 || m == 8 || m == 16 || m == 32 || m == 64 || m == 128
}

/// Painting one point on the panel black in a new framebuffer changes one
/// bit of one byte, and every other byte keeps the background.
pub proof fn lemma_single_pixel(x: int, y: int, r: DisplayRotation)
    requires
        !outside(x, y, r),
    ensures
        ({
            let i = pixel_index(x, y, r);
            let after = drawn(blank_image(), x, y, r, Color::Black);
            &&& 0 <= i < BUFFER_LEN
            &&& after.len() == BUFFER_LEN
            &&& forall|j: int| 0 <= j < BUFFER_LEN && j != i ==> after[j] == blank_image()[j]
            &&& single_bit(pixel_mask(x, y, r))
            &&& after[i] ^ blank_image()[i] == pixel_mask(x, y, r)
        }),
{
    let (px, py) = physical(x, y, r);
    assert(0 <= px < WIDTH && 0 <= py < HEIGHT);
    assert(0 <= px / 8 < ROW_BYTES);
    assert(ROW_BYTES * py <= ROW_BYTES * (HEIGHT - 1)) by (nonlinear_arith)
        requires
            py < HEIGHT,
    ;
    let k = (px % 8) as u8;
    assert(k < 8);
    let m = (0x80u8 >> k) as u8;
    assert(k < 8 ==> single_bit((0x80u8 >> k) as u8)) by (bit_vector);
    assert(((0xffu8 & !m) ^ 0xffu8) == m) by (bit_vector);
}

/// The logical point that lands on the first bit of the buffer, under each
/// rotation: the corner that the rotation carries onto the panel's top left.
pub proof fn lemma_first_bit_corners()
    ensures
        !outside(0, 0, DisplayRotation::Rotate0),
        !outside(0, WIDTH - 1, DisplayRotation::Rotate90),
        !outside(WIDTH - 1, HEIGHT - 1, DisplayRotation::Rotate180),
        !outside(HEIGHT - 1, 0, DisplayRotation::Rotate270),
        pixel_index(0, 0, DisplayRotation::Rotate0) == 0,
        pixel_index(0, WIDTH - 1, DisplayRotation::Rotate90) == 0,
        pixel_index(WIDTH - 1, HEIGHT - 1, DisplayRotation::Rotate180) == 0,
        pixel_index(HEIGHT - 1, 0, DisplayRotation::Rotate270) == 0,
        pixel_mask(0, 0, DisplayRotation::Rotate0) == 0x80,
        pixel_mask(0, WIDTH - 1, DisplayRotation::Rotate90) == 0x80,
        pixel_mask(WIDTH - 1, HEIGHT - 1, DisplayRotation::Rotate180) == 0x80,
        pixel_mask(HEIGHT - 1, 0, DisplayRotation::Rotate270) == 0x80,
{
    assert((0x80u8 >> 0u8) == 0x80u8) by (bit_vector);
}

} // verus!
