//! The packed framebuffer: 128 x 128 pixels of four bits each, two pixels
//! to a byte, rows of 64 bytes.

use vstd::prelude::*;

verus! {

/// Pixels in a row of the panel.
pub const PANEL_WIDTH: u32 = 128;

/// Rows of the panel.
pub const PANEL_HEIGHT: u32 = 128;

/// Bytes in a row of the framebuffer.
pub const ROW_BYTES: usize = 64;

/// Bytes in the framebuffer.
pub const FRAME_BYTES: usize = 8192;

/// Bytes of display data carried by one data write.
pub const CHUNK_BYTES: usize = 8;

/// Whether `(x, y)` names a pixel of the panel.
pub open spec fn in_panel(x: int, y: int) -> bool {
    0 <= x < 128 && 0 <= y < 128
}

/// Position in the framebuffer of the byte that holds pixel `(x, y)`.
pub open spec fn byte_index(x: int, y: int) -> int {
    x / 2 + y * 64
}

/// The upper four bits of a byte: the pixel at the even column of a pair.
pub open spec fn high_nibble(byte: u8) -> int {
    byte as int / 16
}

/// The lower four bits of a byte: the pixel at the odd column of a pair.
pub open spec fn low_nibble(byte: u8) -> int {
    byte as int % 16
}

/// The byte made of the two given nibbles.
pub open spec fn pack(high: int, low: int) -> u8 {
    (16 * high + low) as u8
}

/// The frame with every pixel black.
pub open spec fn blank_frame() -> Seq<u8> {
    Seq::new(FRAME_BYTES as nat, |i: int| 0u8)
}

/// The gray value that `frame` holds for pixel `(x, y)`.
pub open spec fn pixel_at(frame: Seq<u8>, x: int, y: int) -> int
    recommends
        in_panel(x, y),
        frame.len() == FRAME_BYTES,
{
    let byte = frame[byte_index(x, y)];
    if x % 2 == 0 {
        high_nibble(byte)
    } else {
        low_nibble(byte)
    }
}

/// The frame after gray value `gray` is written at `(x, y)`. A position
/// outside the panel is clipped: the frame stays as it is. Inside the
/// panel one nibble of one byte takes the value; its sibling stays.
pub open spec fn put_pixel(frame: Seq<u8>, x: int, y: int, gray: u8) -> Seq<u8>
    recommends
        frame.len() == FRAME_BYTES,
        gray <= 15,
{
    if in_panel(x, y) {
        let i = byte_index(x, y);
        if x % 2 == 0 {
            frame.update(i, pack(gray as int, low_nibble(frame[i])))
        } else {
            frame.update(i, pack(high_nibble(frame[i]), gray as int))
        }
    } else {
        frame
    }
}

/// One pixel to draw: a position, which may lie outside the panel, and a
/// gray value of four bits.
#[derive(Clone, Copy, Debug, PartialEq, Eq)]
pub struct Pixel {
    pub x: i32,
    pub y: i32,
    pub luma: u8,
}

/// The frame after the pixels of `pixels` are written one after the other,
/// the first of them first.
pub open spec fn draw_all(frame: Seq<u8>, pixels: Seq<Pixel>) -> Seq<u8>
    decreases pixels.len(),
{
    if pixels.len() == 0 {
        frame
    } else {
        let last = pixels.last();
        put_pixel(draw_all(frame, pixels.drop_last()), last.x as int, last.y as int, last.luma)
    }
}

/// The pixel store of the panel. Its view is the sequence of its bytes,
/// row after row.
pub struct Framebuffer {
    bytes: [u8; 8192],
}

impl View for Framebuffer {
    type V = Seq<u8>;

    closed spec fn view(&self) -> Seq<u8> {
        self.bytes@
    }
}

impl Framebuffer {
    /// A framebuffer with every pixel black.
    pub fn new() -> (fb: Framebuffer)
        ensures
            fb@ == blank_frame(),
    {
        Framebuffer { bytes: [0u8; 8192] }
    }

    /// The framebuffer always holds `FRAME_BYTES` bytes.
    pub proof fn lemma_len(&self)
        ensures
            self@.len() == FRAME_BYTES,
    {
    }

    /// The byte at position `index`.
    pub fn byte(&self, index: usize) -> (b: u8)
        requires
            index < FRAME_BYTES,
        ensures
            b == self@[index as int],
    {
        self.bytes[index]
    }

    /// The eight bytes that start at position `index`.
    pub fn chunk(&self, index: usize) -> (c: [u8; 8])
        requires
            index + CHUNK_BYTES <= FRAME_BYTES,
        ensures
            c@ == self@.subrange(index as int, index + CHUNK_BYTES),
    {
        [
            self.bytes[index],
            self.bytes[index + 1],
            self.bytes[index + 2],
            self.bytes[index + 3],
            self.bytes[index + 4],
            self.bytes[index + 5],
            self.bytes[index + 6],
            self.bytes[index + 7],
        ]
    }

    /// Writes gray value `gray` at `(x, y)`. Positions outside the panel
    /// are clipped.
    pub fn write_pixel(&mut self, x: i32, y: i32, gray: u8)
        requires
            gray <= 15,
        ensures
            final(self)@ == put_pixel(old(self)@, x as int, y as int, gray),
    {
        if 0 <= x && x <= 127 && 0 <= y && y <= 127 {
            let index: usize = (x / 2 + y * 64) as usize;
            let byte: u8 = self.bytes[index];
            if x % 2 == 0 {
                assert((byte & 0x0F) | (gray << 4) == 16 * gray + byte % 16) by (bit_vector)
                    requires
                        gray <= 15,
                ;
                self.bytes[index] = (byte & 0x0F) | (gray << 4);
            } else {
                assert((byte & 0xF0) | gray == 16 * (byte / 16) + gray) by (bit_vector)
                    requires
                        gray <= 15,
                ;
                self.bytes[index] = (byte & 0xF0) | gray;
            }
        }
    }
}

/// Writing at an even column sets the high nibble of the byte at
/// `byte_index(x, y)` to the gray value and keeps its low nibble. Writing
/// at an odd column sets the low nibble and keeps the high one. Every other
/// byte of the frame stays as it was.
pub proof fn lemma_put_pixel_nibbles(frame: Seq<u8>, x: int, y: int, gray: u8)
    requires
        frame.len() == FRAME_BYTES,
        in_panel(x, y),
        gray <= 15,
    ensures
        0 <= byte_index(x, y) < FRAME_BYTES,
        put_pixel(frame, x, y, gray).len() == frame.len(),
        x % 2 == 0 ==> {
            &&& high_nibble(put_pixel(frame, x, y, gray)[byte_index(x, y)]) == gray
            &&& low_nibble(put_pixel(frame, x, y, gray)[byte_index(x, y)]) == low_nibble(
                frame[byte_index(x, y)],
            )
        },
        x % 2 == 1 ==> {
            &&& low_nibble(put_pixel(frame, x, y, gray)[byte_index(x, y)]) == gray
            &&& high_nibble(put_pixel(frame, x, y, gray)[byte_index(x, y)]) == high_nibble(
                frame[byte_index(x, y)],
            )
        },
        forall|j: int|
            0 <= j < frame.len() && j != byte_index(x, y) ==> put_pixel(frame, x, y, gray)[j]
                == frame[j],
{
}

/// Reading back any pixel of the panel after a write gives the written
/// value at the written position and the earlier value everywhere else.
pub proof fn lemma_put_pixel_reads(frame: Seq<u8>, x: int, y: int, gray: u8, u: int, v: int)
    requires
        frame.len() == FRAME_BYTES,
        in_panel(x, y),
        in_panel(u, v),
        gray <= 15,
    ensures
        pixel_at(put_pixel(frame, x, y, gray), u, v) == if u == x && v == y {
            gray as int
        } else {
            pixel_at(frame, u, v)
        },
{
    lemma_put_pixel_nibbles(frame, x, y, gray);
}

/// Writing the same value at the same position a second time changes
/// nothing.
pub proof fn lemma_put_pixel_idempotent(frame: Seq<u8>, x: int, y: int, gray: u8)
    requires
        frame.len() == FRAME_BYTES,
        gray <= 15,
    ensures
        put_pixel(put_pixel(frame, x, y, gray), x, y, gray) == put_pixel(frame, x, y, gray),
{
    if in_panel(x, y) {
        lemma_put_pixel_nibbles(frame, x, y, gray);
        assert(put_pixel(put_pixel(frame, x, y, gray), x, y, gray) =~= put_pixel(
            frame,
            x,
            y,
            gray,
        ));
    }
}

/// A write at a position outside the panel leaves the whole frame as it
/// was.
pub proof fn lemma_put_pixel_clipped(frame: Seq<u8>, x: int, y: int, gray: u8)
    requires
        x < 0 || x > 127 || y < 0 || y > 127,
    ensures
        put_pixel(frame, x, y, gray) == frame,
{
}

} // verus!
