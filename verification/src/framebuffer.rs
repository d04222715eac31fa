//! A one-bit-per-pixel frame buffer with rotation-aware addressing.
//!
//! Pixels are packed eight to a byte, rows first, most significant bit first.
//! Every row starts on a byte boundary. A cleared bit is a black pixel, a set
//! bit a white one.

use vstd::prelude::*;

use crate::color::{Color, Rotation};
use crate::error::Error;

verus! {

/// Bytes needed to hold `width * height` pixels at eight pixels per byte.
pub open spec fn byte_count(width: nat, height: nat) -> nat {
    (width * height + 7) / 8
}

/// Bytes from the start of one row to the start of the next.
pub open spec fn row_bytes(width: nat) -> nat {
    (width + 7) / 8
}

/// Where the logical pixel `(x, y)` lands in a bitmap of `width` by `height`
/// pixels under `rotation`.
pub open spec fn rotate(rotation: Rotation, width: int, height: int, x: int, y: int) -> (int, int) {
    match rotation {
        Rotation::Rotate0 => (x, y),
        Rotation::Rotate90 => (height - 1 - y, x),
        Rotation::Rotate180 => (width - 1 - x, height - 1 - y),
        Rotation::Rotate270 => (y, width - 1 - x),
    }
}

/// The bit of a byte that holds the pixel at `offset` within it.
pub open spec fn bit_mask(offset: u8) -> u8 {
    0x80u8 >> offset
}

/// `byte` with the pixel at `offset` painted in `color`.
pub open spec fn with_bit(byte: u8, offset: u8, color: Color) -> u8 {
    match color {
        Color::White => byte | bit_mask(offset),
        Color::Black => byte & !bit_mask(offset),
    }
}

/// The colour of the pixel at `offset` within `byte`.
pub open spec fn bit_color(byte: u8, offset: u8) -> Color {
    if byte & bit_mask(offset) != 0 {
        Color::White
    } else {
        Color::Black
    }
}

/// Mathematical model of a frame buffer.
pub struct Bitmap {
    pub width: nat,
    pub height: nat,
    pub rotation: Rotation,
    pub bytes: Seq<u8>,
}

impl Bitmap {
    /// The storage has exactly the length the dimensions call for.
    pub open spec fn wf(self) -> bool {
        self.bytes.len() == byte_count(self.width, self.height)
    }

    /// Position in the bitmap of the logical pixel `(x, y)`.
    pub open spec fn target(self, x: int, y: int) -> (int, int) {
        rotate(self.rotation, self.width as int, self.height as int, x, y)
    }

    /// Byte index and bit offset of the logical pixel `(x, y)`, or `None`
    /// where the pixel falls outside the bitmap or outside the storage.
    pub open spec fn slot(self, x: int, y: int) -> Option<(int, u8)> {
        let (tx, ty) = self.target(x, y);
        let index = ty * row_bytes(self.width) + tx / 8;
        if 0 <= tx < self.width && 0 <= ty < self.height && index < self.bytes.len() {
            Some((index, (tx % 8) as u8))
        } else {
            None
        }
    }

    /// Colour of the logical pixel `(x, y)`, where it has a slot.
    pub open spec fn pixel(self, x: int, y: int) -> Option<Color> {
        match self.slot(x, y) {
            Some((index, offset)) => Some(bit_color(self.bytes[index], offset)),
            None => None,
        }
    }

    /// The bitmap after painting the logical pixel `(x, y)`; unchanged where
    /// the pixel has no slot.
    pub open spec fn with_pixel(self, x: int, y: int, color: Color) -> Bitmap {
        match self.slot(x, y) {
            Some((index, offset)) => Bitmap {
                bytes: self.bytes.update(index, with_bit(self.bytes[index], offset, color)),
                ..self
            },
            None => self,
        }
    }

    /// The bitmap with every pixel painted in `color`.
    pub open spec fn cleared(self, color: Color) -> Bitmap {
        Bitmap { bytes: Seq::new(self.bytes.len(), |i: int| color.byte_value()), ..self }
    }

    /// The bitmap seen under another rotation.
    pub open spec fn rotated(self, rotation: Rotation) -> Bitmap {
        Bitmap { rotation, ..self }
    }

    /// A pixel that was written reads back in the colour it was written
    /// with, under any rotation; writing a pixel that has no slot changes
    /// nothing.
    pub proof fn lemma_write_then_read(self, x: int, y: int, color: Color)
        requires
            self.wf(),
        ensures
            self.with_pixel(x, y, color).wf(),
            self.slot(x, y) is Some ==> self.with_pixel(x, y, color).pixel(x, y) == Some(color),
            self.slot(x, y) is None ==> self.with_pixel(x, y, color) == self,
    {
        if let Some((index, offset)) = self.slot(x, y) {
            let byte = self.bytes[index];
            lemma_bit_reads_back(byte, offset, color);
        }
    }

    /// Writing one pixel leaves every other pixel as it was.
    pub proof fn lemma_write_keeps_others(self, x: int, y: int, color: Color, ox: int, oy: int)
        requires
            self.wf(),
            self.slot(ox, oy) != self.slot(x, y),
        ensures
            self.with_pixel(x, y, color).pixel(ox, oy) == self.pixel(ox, oy),
    {
        if let Some((index, offset)) = self.slot(x, y) {
            if let Some((other_index, other_offset)) = self.slot(ox, oy) {
                if other_index == index {
                    lemma_bit_keeps_others(self.bytes[index], offset, color, other_offset);
                }
            }
        }
    }

    /// Clearing overwrites: whatever was cleared before, the result is that
    /// of a single fill with the last colour.
    pub proof fn lemma_clear_overwrites(self, first: Color, last: Color)
        ensures
            self.cleared(first).cleared(last) == self.cleared(last),
            self.cleared(last).bytes.len() == self.bytes.len(),
            forall|i: int|
                0 <= i < self.bytes.len() ==> #[trigger] self.cleared(first).cleared(last).bytes[i]
                    == last.byte_value(),
    {
        assert(self.cleared(first).cleared(last).bytes =~= self.cleared(last).bytes);
    }

    /// Neither painting, clearing nor rotating changes the length of the
    /// storage, which stays the byte count of the dimensions.
    pub proof fn lemma_length_is_fixed(self, x: int, y: int, color: Color, rotation: Rotation)
        requires
            self.wf(),
        ensures
            self.with_pixel(x, y, color).bytes.len() == byte_count(self.width, self.height),
            self.cleared(color).bytes.len() == byte_count(self.width, self.height),
            self.rotated(rotation).bytes.len() == byte_count(self.width, self.height),
            self.rotated(rotation).wf(),
    {
    }

    /// Where the width is a whole number of bytes, every pixel of the bitmap
    /// has a slot.
    pub proof fn lemma_aligned_rows_hold_every_pixel(self, x: int, y: int)
        requires
            self.wf(),
            self.width % 8 == 0,
            0 <= self.target(x, y).0 < self.width,
            0 <= self.target(x, y).1 < self.height,
        ensures
            self.slot(x, y) is Some,
    {
        let (tx, ty) = self.target(x, y);
        let stride = row_bytes(self.width) as int;
        let w = self.width as int;
        let h = self.height as int;
        assert(stride * 8 == w);
        assert(ty * stride + stride <= h * stride) by (nonlinear_arith)
            requires
                0 <= ty < h,
                0 <= stride,
        ;
        assert(w * h == (h * stride) * 8) by (nonlinear_arith)
            requires
                stride * 8 == w,
        ;
    }
}

/// Painting a bit and reading it back gives the colour painted.
pub proof fn lemma_bit_reads_back(byte: u8, offset: u8, color: Color)
    requires
        offset < 8,
    ensures
        bit_color(with_bit(byte, offset, color), offset) == color,
{
    assert(((byte | (0x80u8 >> offset)) & (0x80u8 >> offset)) != 0) by (bit_vector)
        requires
            offset < 8,
    ;
    assert(((byte & !(0x80u8 >> offset)) & (0x80u8 >> offset)) == 0) by (bit_vector)
        requires
            offset < 8,
    ;
}

/// Painting one bit of a byte leaves the other seven as they were.
pub proof fn lemma_bit_keeps_others(byte: u8, offset: u8, color: Color, other: u8)
    requires
        offset < 8,
        other < 8,
        other != offset,
    ensures
        bit_color(with_bit(byte, offset, color), other) == bit_color(byte, other),
{
    assert(((byte | (0x80u8 >> offset)) & (0x80u8 >> other)) == (byte & (0x80u8 >> other)))
        by (bit_vector)
        requires
            offset < 8,
            other < 8,
            other != offset,
    ;
    assert(((byte & !(0x80u8 >> offset)) & (0x80u8 >> other)) == (byte & (0x80u8 >> other)))
        by (bit_vector)
        requires
            offset < 8,
            other < 8,
            other != offset,
    ;
}

/// A rectangular one-bit bitmap over storage that the caller supplies.
pub struct FrameBuffer {
    width: u32,
    height: u32,
    rotation: Rotation,
    bytes: Vec<u8>,
}

impl View for FrameBuffer {
    type V = Bitmap;

    closed spec fn view(&self) -> Bitmap {
        Bitmap {
            width: self.width as nat,
            height: self.height as nat,
            rotation: self.rotation,
            bytes: self.bytes@,
        }
    }
}

impl FrameBuffer {
    #[verifier::type_invariant]
    spec fn well_formed(self) -> bool {
        self.bytes@.len() == byte_count(self.width as nat, self.height as nat)
    }

    /// Wraps `storage` as a bitmap of `width` by `height` pixels, unrotated.
    /// The storage must have exactly `byte_count(width, height)` bytes; its
    /// contents are kept.
    pub fn new(width: u32, height: u32, storage: Vec<u8>) -> (made: Result<FrameBuffer, Error>)
        ensures
            storage@.len() == byte_count(width as nat, height as nat) ==> made is Ok
                && made->Ok_0@ == (Bitmap {
                width: width as nat,
                height: height as nat,
                rotation: Rotation::Rotate0,
                bytes: storage@,
            }),
            storage@.len() != byte_count(width as nat, height as nat) ==> made == Err::<
                FrameBuffer,
                Error,
            >(Error::SizeMismatch),
    {
        assert(width * height <= 0xffff_ffff * 0xffff_ffff) by (nonlinear_arith)
            requires
                0 <= width <= 0xffff_ffff,
                0 <= height <= 0xffff_ffff,
        ;
        let needed: u64 = (width as u64 * height as u64 + 7) / 8;
        if storage.len() as u64 != needed {
            return Err(Error::SizeMismatch);
        }
        Ok(FrameBuffer { width, height, rotation: Rotation::Rotate0, bytes: storage })
    }

    /// Width of the bitmap in pixels, before rotation.
    pub fn width(&self) -> (width: u32)
        ensures
            width == self@.width,
    {
        self.width
    }

    /// Height of the bitmap in pixels, before rotation.
    pub fn height(&self) -> (height: u32)
        ensures
            height == self@.height,
    {
        self.height
    }

    /// The rotation that pixel addressing currently goes through.
    pub fn rotation(&self) -> (rotation: Rotation)
        ensures
            rotation == self@.rotation,
    {
        self.rotation
    }

    /// Changes the rotation for pixels addressed from now on. The stored
    /// bytes are not touched.
    pub fn set_rotation(&mut self, rotation: Rotation)
        ensures
            final(self)@ == old(self)@.rotated(rotation),
            final(self)@.bytes.len() == byte_count(final(self)@.width, final(self)@.height),
    {
        proof {
            use_type_invariant(&*self);
        }
        self.rotation = rotation;
    }

    /// Paints every pixel in `color`.
    pub fn clear(&mut self, color: Color)
        ensures
            final(self)@ == old(self)@.cleared(color),
            final(self)@.bytes.len() == byte_count(final(self)@.width, final(self)@.height),
    {
        proof {
            use_type_invariant(&*self);
        }
        let fill = color.get_byte_value();
        let len = self.bytes.len();
        let mut i: usize = 0;
        while i < len
            invariant
                i <= len,
                len == self.bytes@.len(),
                len == old(self).bytes@.len(),
                len == byte_count(self.width as nat, self.height as nat),
                self.width == old(self).width,
                self.height == old(self).height,
                self.rotation == old(self).rotation,
                fill == color.byte_value(),
                forall|k: int| 0 <= k < i ==> self.bytes@[k] == fill,
            decreases len - i,
        {
            self.bytes[i] = fill;
            i += 1;
        }
        assert(self.bytes@ =~= old(self)@.cleared(color).bytes);
    }

    /// Byte index and bit offset of the logical pixel `(x, y)`.
    fn locate(&self, x: u32, y: u32) -> (found: Option<(usize, u8)>)
        ensures
            found is Some <==> self@.slot(x as int, y as int) is Some,
            found matches Some((index, offset)) ==> self@.slot(x as int, y as int) == Some(
                (index as int, offset),
            ) && index < self.bytes@.len() && offset < 8,
    {
        proof {
            use_type_invariant(self);
        }
        let (tx, ty): (u32, u32) = match self.rotation {
            Rotation::Rotate0 => (x, y),
            Rotation::Rotate90 => {
                if y >= self.height {
                    return None;
                }
                (self.height - 1 - y, x)
            },
            Rotation::Rotate180 => {
                if x >= self.width || y >= self.height {
                    return None;
                }
                (self.width - 1 - x, self.height - 1 - y)
            },
            Rotation::Rotate270 => {
                if x >= self.width {
                    return None;
                }
                (y, self.width - 1 - x)
            },
        };
        if tx >= self.width || ty >= self.height {
            return None;
        }
        let stride: u64 = (self.width as u64 + 7) / 8;
        assert(ty * stride <= 0xffff_ffff * 0x2000_0000) by (nonlinear_arith)
            requires
                0 <= ty <= 0xffff_ffff,
                0 <= stride <= 0x2000_0000,
        ;
        let index: u64 = ty as u64 * stride + (tx / 8) as u64;
        if index >= self.bytes.len() as u64 {
            return None;
        }
        Some((index as usize, (tx % 8) as u8))
    }

    /// Paints the logical pixel `(x, y)`. A pixel that falls outside the
    /// bitmap under the current rotation is silently ignored.
    pub fn set_pixel(&mut self, x: u32, y: u32, color: Color)
        ensures
            final(self)@ == old(self)@.with_pixel(x as int, y as int, color),
            final(self)@.bytes.len() == byte_count(final(self)@.width, final(self)@.height),
    {
        proof {
            use_type_invariant(&*self);
        }
        match self.locate(x, y) {
            Some((index, offset)) => {
                let mask: u8 = 0x80u8 >> offset;
                let byte = self.bytes[index];
                let painted = match color {
                    Color::White => byte | mask,
                    Color::Black => byte & !mask,
                };
                self.bytes[index] = painted;
            },
            None => {},
        }
    }

    /// Colour of the logical pixel `(x, y)`, or `None` where the pixel falls
    /// outside the bitmap under the current rotation.
    pub fn get_pixel(&self, x: u32, y: u32) -> (color: Option<Color>)
        ensures
            color == self@.pixel(x as int, y as int),
    {
        match self.locate(x, y) {
            Some((index, offset)) => {
                let mask: u8 = 0x80u8 >> offset;
                if self.bytes[index] & mask != 0 {
                    Some(Color::White)
                } else {
                    Some(Color::Black)
                }
            },
            None => None,
        }
    }

    /// The packed bytes, as they go to the panel.
    pub fn as_bytes(&self) -> (bytes: &[u8])
        ensures
            bytes@ == self@.bytes,
            bytes@.len() == byte_count(self@.width, self@.height),
    {
        proof {
            use_type_invariant(self);
        }
        self.bytes.as_slice()
    }

    /// Gives the storage back to the caller.
    pub fn into_storage(self) -> (storage: Vec<u8>)
        ensures
            storage@ == self@.bytes,
            storage@.len() == byte_count(self@.width, self@.height),
    {
        proof {
            use_type_invariant(&self);
        }
        self.bytes
    }
}

} // verus!
