//! Plain geometry and colour values and their native layouts.

use vstd::prelude::*;
use vstd::std_specs::convert::FromSpecImpl;

verus! {

/// An axis-aligned rectangle: an origin and an extent.
///
/// No field is clamped; the extent may be zero or negative.
#[derive(Debug, Clone, Copy, PartialEq, Eq, Structural)]
pub struct Rect {
    pub x: i32,
    pub y: i32,
    pub width: i32,
    pub height: i32,
}

/// A rectangle as the backend reads it: the near and the far corner.
#[derive(Debug, Clone, Copy, PartialEq, Eq, Structural)]
pub struct NativeRect {
    pub left: i32,
    pub top: i32,
    pub right: i32,
    pub bottom: i32,
}

impl Rect {
    /// The horizontal coordinate of the far edge.
    pub open spec fn right(self) -> int {
        self.x + self.width
    }

    /// The vertical coordinate of the far edge.
    pub open spec fn bottom(self) -> int {
        self.y + self.height
    }

    /// Whether both far edges are coordinates the native layout can hold.
    pub open spec fn has_native_form(self) -> bool {
        &&& i32::MIN <= self.right() <= i32::MAX
        &&& i32::MIN <= self.bottom() <= i32::MAX
    }

    /// Make a new rect from the given x, y, width and height.
    #[inline]
    pub fn new_xywh(x: i32, y: i32, width: i32, height: i32) -> (rect: Self)
        ensures
            rect.x == x,
            rect.y == y,
            rect.width == width,
            rect.height == height,
    {
        Rect { x, y, width, height }
    }

    /// The native form of this rectangle, or `None` when a far edge lies
    /// outside the range of a native coordinate.
    #[inline]
    pub fn to_native(self) -> (native: Option<NativeRect>)
        ensures
            native is Some <==> self.has_native_form(),
            native matches Some(n) ==> {
                &&& n.left == self.x
                &&& n.top == self.y
                &&& n.right == self.x + self.width
                &&& n.bottom == self.y + self.height
            },
    {
        match (self.x.checked_add(self.width), self.y.checked_add(self.height)) {
            (Some(right), Some(bottom)) => Some(
                NativeRect { left: self.x, top: self.y, right, bottom },
            ),
            _ => None,
        }
    }
}

/// An RGB colour, one byte per channel.
#[derive(Debug, Clone, Copy, PartialEq, Eq, Hash, Structural)]
pub struct Color {
    pub r: u8,
    pub g: u8,
    pub b: u8,
}

impl Color {
    /// The packed native form: red is the lowest byte, then green, then
    /// blue; the highest byte is zero.
    pub open spec fn packed(self) -> int {
        self.r + 0x100 * self.g + 0x1_0000 * self.b
    }

    /// The colour a packed value stands for. Its highest byte is ignored.
    pub open spec fn unpacked(raw: int) -> Color {
        Color {
            r: (raw % 0x100) as u8,
            g: (raw / 0x100 % 0x100) as u8,
            b: (raw / 0x1_0000 % 0x100) as u8,
        }
    }

    /// Make a new color from the given r, g and b values.
    #[inline]
    pub fn new_rgb(r: u8, g: u8, b: u8) -> (color: Self)
        ensures
            color.r == r,
            color.g == g,
            color.b == b,
    {
        Color { r, g, b }
    }

    /// Pack the colour into its native form.
    pub fn to_native(self) -> (raw: u32)
        ensures
            raw == self.packed(),
    {
        let r: u32 = self.r as u32;
        let g: u32 = self.g as u32;
        let b: u32 = self.b as u32;
        assert(r | (g << 8) | (b << 16) == r + 0x100 * g + 0x1_0000 * b) by (bit_vector)
            requires
                r < 0x100,
                g < 0x100,
                b < 0x100,
        ;
        r | (g << 8) | (b << 16)
    }

    /// Read a colour out of a packed native value.
    pub fn from_native(raw: u32) -> (color: Self)
        ensures
            color == Color::unpacked(raw as int),
    {
        assert(raw & 0xff == raw % 0x100) by (bit_vector);
        assert((raw >> 8) & 0xff == raw / 0x100 % 0x100) by (bit_vector);
        assert((raw >> 16) & 0xff == raw / 0x1_0000 % 0x100) by (bit_vector);
        Color {
            r: (raw & 0xff) as u8,
            g: ((raw >> 8) & 0xff) as u8,
            b: ((raw >> 16) & 0xff) as u8,
        }
    }

    /// Packing a colour and unpacking the result gives the colour back.
    pub proof fn lemma_pack_unpack(color: Color)
        ensures
            0 <= color.packed() < 0x100_0000,
            Color::unpacked(color.packed()) == color,
    {
        let (r, g, b) = (color.r, color.g, color.b);
        assert((r + 0x100 * g + 0x1_0000 * b) % 0x100 == r) by (bit_vector);
        assert((r + 0x100 * g + 0x1_0000 * b) / 0x100 % 0x100 == g) by (bit_vector);
        assert((r + 0x100 * g + 0x1_0000 * b) / 0x1_0000 % 0x100 == b) by (bit_vector);
    }

    /// Unpacking a value and packing the colour again keeps the three low
    /// bytes and clears the highest.
    pub proof fn lemma_unpack_pack(raw: u32)
        ensures
            Color::unpacked(raw as int).packed() == raw % 0x100_0000,
    {
        assert(raw % 0x100 + 0x100 * (raw / 0x100 % 0x100) + 0x1_0000 * (raw / 0x1_0000 % 0x100)
            == raw % 0x100_0000) by (bit_vector);
    }
}

impl From<u32> for Color {
    /// Read a colour out of a packed native value.
    fn from(raw: u32) -> (color: Color) {
        Color::from_native(raw)
    }
}

impl FromSpecImpl<u32> for Color {
    open spec fn obeys_from_spec() -> bool {
        true
    }

    open spec fn from_spec(raw: u32) -> Color {
        Color::unpacked(raw as int)
    }
}

impl From<Color> for u32 {
    /// Pack the colour into its native form.
    fn from(color: Color) -> (raw: u32) {
        color.to_native()
    }
}

impl FromSpecImpl<Color> for u32 {
    open spec fn obeys_from_spec() -> bool {
        true
    }

    open spec fn from_spec(color: Color) -> u32 {
        color.packed() as u32
    }
}

/// The code of the raster operation that copies the source unchanged.
pub const SRCCOPY: u32 = 0x00CC_0020;

/// A set of raster-operation bits, the pixel-combination rule of a copy.
///
/// It is a bit set and not an enumeration: the backend knows many more
/// codes than are named here, and [`RasterOperation::from_bits_retain`]
/// carries any of them.
#[derive(Debug, Clone, Copy, PartialEq, Eq, Hash, Structural)]
pub struct RasterOperation {
    bits: u32,
}

impl RasterOperation {
    /// The bits of this set, as the backend takes them.
    pub closed spec fn view(self) -> u32 {
        self.bits
    }

    /// Copy from the source device context: the one named bit pattern.
    #[inline]
    pub fn src_copy() -> (set: Self)
        ensures
            set@ == SRCCOPY,
    {
        RasterOperation { bits: SRCCOPY }
    }

    /// The set with no bit.
    #[inline]
    pub fn empty() -> (set: Self)
        ensures
            set@ == 0,
    {
        RasterOperation { bits: 0 }
    }

    /// The set of every named bit.
    #[inline]
    pub fn all() -> (set: Self)
        ensures
            set@ == SRCCOPY,
    {
        RasterOperation { bits: SRCCOPY }
    }

    /// The raw value of the bits currently stored.
    #[inline]
    pub fn bits(&self) -> (bits: u32)
        ensures
            bits == self@,
    {
        self.bits
    }

    /// The set with exactly the given bits, unless one of them has no name.
    #[inline]
    pub fn from_bits(bits: u32) -> (set: Option<Self>)
        ensures
            set is Some <==> bits & !SRCCOPY == 0,
            set matches Some(s) ==> s@ == bits,
    {
        if bits & !SRCCOPY == 0 {
            Some(RasterOperation { bits })
        } else {
            None
        }
    }

    /// The set of those of the given bits that have a name.
    #[inline]
    pub fn from_bits_truncate(bits: u32) -> (set: Self)
        ensures
            set@ == bits & SRCCOPY,
    {
        RasterOperation { bits: bits & SRCCOPY }
    }

    /// The set with exactly the given bits, named or not.
    #[inline]
    pub fn from_bits_retain(bits: u32) -> (set: Self)
        ensures
            set@ == bits,
    {
        RasterOperation { bits }
    }

    /// Whether no bit is stored.
    #[inline]
    pub fn is_empty(&self) -> (empty: bool)
        ensures
            empty <==> self@ == 0,
    {
        self.bits == 0
    }

    /// Whether every bit of `other` is stored in `self`.
    #[inline]
    pub fn contains(&self, other: Self) -> (inside: bool)
        ensures
            inside <==> self@ & other@ == other@,
    {
        self.bits & other.bits == other.bits
    }

    /// The bits stored in `self` or in `other`.
    #[inline]
    pub fn union(self, other: Self) -> (set: Self)
        ensures
            set@ == self@ | other@,
    {
        RasterOperation { bits: self.bits | other.bits }
    }
}

impl From<RasterOperation> for u32 {
    /// The bits of the set, as the backend takes them.
    fn from(rop: RasterOperation) -> (bits: u32) {
        rop.bits()
    }
}

impl FromSpecImpl<RasterOperation> for u32 {
    open spec fn obeys_from_spec() -> bool {
        true
    }

    open spec fn from_spec(rop: RasterOperation) -> u32 {
        rop@
    }
}

} // verus!
