//! Lengths, points, sizes and boxes.
//!
//! Display lengths are fixed-point: a [`Pixels`] value counts 64ths of a display
//! pixel, so that halves and quarters of a pixel are exact and every computation
//! on lengths is integer arithmetic.

use vstd::prelude::*;

verus! {

/// How many units of [`Pixels`] make one whole display pixel.
pub const UNITS_PER_PIXEL: i64 = 64;

/// The largest magnitude, in units, of a coordinate or extent that layout hands out:
/// 2^30 units, which is 2^24 whole pixels.
pub const LAYOUT_LIMIT: i64 = 0x4000_0000;

/// A length or coordinate on the display, in 64ths of a pixel.
#[derive(Clone, Copy, Debug, PartialEq, Eq, Hash)]
pub struct Pixels(pub i64);

/// A count of pixels of the device or of an image.
#[derive(Clone, Copy, Debug, PartialEq, Eq, Hash)]
pub struct DevicePixels(pub i32);

/// A position.
#[derive(Clone, Copy, Debug, PartialEq, Eq, Hash)]
pub struct Point<T> {
    pub x: T,
    pub y: T,
}

/// A width and a height.
#[derive(Clone, Copy, Debug, PartialEq, Eq, Hash)]
pub struct Size<T> {
    pub width: T,
    pub height: T,
}

/// A box: where it starts and how far it extends.
#[derive(Clone, Copy, Debug, PartialEq, Eq, Hash)]
pub struct Bounds<T> {
    pub origin: Point<T>,
    pub size: Size<T>,
}

impl View for Pixels {
    type V = int;

    /// The length in units.
    open spec fn view(&self) -> int {
        self.0 as int
    }
}

impl DevicePixels {
    /// The count read as an unsigned 32-bit number: a negative count wraps round.
    pub open spec fn unsigned(self) -> int {
        if self.0 >= 0 {
            self.0 as int
        } else {
            self.0 + 0x1_0000_0000
        }
    }

    /// The count as an unsigned number.
    pub fn to_u32(self) -> (r: u32)
        ensures
            r == self.unsigned(),
    {
        if self.0 >= 0 {
            self.0 as u32
        } else {
            let wrapped: i64 = self.0 as i64 + 0x1_0000_0000;
            wrapped as u32
        }
    }
}

impl Size<DevicePixels> {
    /// Whether the size holds no pixel: its width or its height is zero.
    pub open spec fn spec_is_zero(self) -> bool {
        self.width.0 == 0 || self.height.0 == 0
    }

    /// Whether the size holds no pixel.
    pub fn is_zero(&self) -> (r: bool)
        ensures
            r == self.spec_is_zero(),
    {
        self.width.0 == 0 || self.height.0 == 0
    }
}

impl Bounds<Pixels> {
    /// Whether `inner` lies within this box: no side of it is beyond the same
    /// side of the box.
    pub open spec fn encloses(self, inner: Bounds<Pixels>) -> bool {
        &&& self.origin.x@ <= inner.origin.x@
        &&& self.origin.y@ <= inner.origin.y@
        &&& inner.origin.x@ + inner.size.width@ <= self.origin.x@ + self.size.width@
        &&& inner.origin.y@ + inner.size.height@ <= self.origin.y@ + self.size.height@
    }

    /// A box that layout can have produced: its extents are not negative, and no
    /// coordinate or extent exceeds [`LAYOUT_LIMIT`] in magnitude.
    pub open spec fn within_layout(self) -> bool {
        &&& -LAYOUT_LIMIT <= self.origin.x@ <= LAYOUT_LIMIT
        &&& -LAYOUT_LIMIT <= self.origin.y@ <= LAYOUT_LIMIT
        &&& 0 <= self.size.width@ <= LAYOUT_LIMIT
        &&& 0 <= self.size.height@ <= LAYOUT_LIMIT
    }
}

/// The length of `whole` display pixels.
pub fn px(whole: i32) -> (r: Pixels)
    ensures
        r@ == whole * UNITS_PER_PIXEL,
{
    Pixels(whole as i64 * UNITS_PER_PIXEL)
}

/// The point at `x`, `y`.
pub fn point<T>(x: T, y: T) -> (r: Point<T>)
    ensures
        r.x == x,
        r.y == y,
{
    Point { x, y }
}

/// The size `width` by `height`.
pub fn size<T>(width: T, height: T) -> (r: Size<T>)
    ensures
        r.width == width,
        r.height == height,
{
    Size { width, height }
}

} // verus!
