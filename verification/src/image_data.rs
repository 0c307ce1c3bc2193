//! Decoded images: 8-bit RGBA pixels, row after row.

use vstd::prelude::*;
use crate::geometry::{DevicePixels, Size};

verus! {

/// A decoded image.
#[derive(Debug)]
pub struct ImageData {
    width: u32,
    height: u32,
    pixels: Vec<u8>,
}

/// What an [`ImageData`] holds: its sides in pixels and its samples, four for
/// each pixel in the order red, green, blue, alpha.
pub struct Raster {
    pub width: nat,
    pub height: nat,
    pub pixels: Seq<u8>,
}

/// The raster of `width` by `height` pixels that a buffer of samples starts with,
/// or nothing where the buffer is too short for it.
pub open spec fn raster_of(width: u32, height: u32, samples: Seq<u8>) -> Option<Raster> {
    if 4 * width * height <= samples.len() {
        Some(
            Raster {
                width: width as nat,
                height: height as nat,
                pixels: samples.take(4 * width * height),
            },
        )
    } else {
        None
    }
}

impl View for ImageData {
    type V = Raster;

    closed spec fn view(&self) -> Raster {
        Raster { width: self.width as nat, height: self.height as nat, pixels: self.pixels@ }
    }
}

impl ImageData {
    /// Every image has four samples for each of its pixels.
    #[verifier::type_invariant]
    closed spec fn well_formed(self) -> bool {
        self.pixels@.len() == 4 * self.width * self.height
    }

    /// The image of `width` by `height` pixels at the start of `samples`; what
    /// follows the last pixel is dropped. Nothing where the samples are too few.
    pub fn from_rgba8(width: u32, height: u32, samples: Vec<u8>) -> (image: Option<Self>)
        ensures
            match image {
                Some(image) => Some(image@) == raster_of(width, height, samples@),
                None => raster_of(width, height, samples@) is None,
            },
    {
        let mut pixels = samples;
        assert(0 <= width * height <= 0xFFFF_FFFF * 0xFFFF_FFFF) by (nonlinear_arith)
            requires
                0 <= width <= 0xFFFF_FFFF,
                0 <= height <= 0xFFFF_FFFF,
        ;
        let area: u128 = (width as u128) * (height as u128);
        let needed: u128 = 4 * area;
        assert(needed == 4 * width * height) by (nonlinear_arith)
            requires
                needed == 4 * (width * height),
        ;
        if needed <= pixels.len() as u128 {
            pixels.truncate(needed as usize);
            Some(ImageData { width, height, pixels })
        } else {
            None
        }
    }

    /// The width in pixels.
    pub fn width(&self) -> (width: u32)
        ensures
            width == self@.width,
    {
        self.width
    }

    /// The height in pixels.
    pub fn height(&self) -> (height: u32)
        ensures
            height == self@.height,
    {
        self.height
    }

    /// The samples: four for each pixel.
    pub fn as_bytes(&self) -> (bytes: &[u8])
        ensures
            bytes@ == self@.pixels,
            bytes@.len() == 4 * self@.width * self@.height,
    {
        proof {
            use_type_invariant(self);
        }
        self.pixels.as_slice()
    }

    /// The size as a count of device pixels on each side. A side beyond the signed
    /// range reads back as itself through [`DevicePixels::unsigned`].
    pub fn size(&self) -> (size: Size<DevicePixels>)
        ensures
            size.width.unsigned() == self@.width,
            size.height.unsigned() == self@.height,
    {
        Size { width: device_pixels(self.width), height: device_pixels(self.height) }
    }
}

/// The count `side` as [`DevicePixels`], wrapping round beyond the signed range.
pub fn device_pixels(side: u32) -> (r: DevicePixels)
    ensures
        r.unsigned() == side,
{
    if side <= 0x7FFF_FFFF {
        DevicePixels(side as i32)
    } else {
        let wrapped: i64 = side as i64 - 0x1_0000_0000;
        DevicePixels(wrapped as i32)
    }
}

} // verus!
