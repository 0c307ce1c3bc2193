//! Fitting an image of a given natural size into a layout box.

use vstd::prelude::*;
use crate::geometry::{Bounds, DevicePixels, Pixels, Point, Size, LAYOUT_LIMIT, UNITS_PER_PIXEL};

verus! {

/// How to fit the image into the bounds of the element.
#[derive(Clone, Copy, Debug, PartialEq, Eq)]
pub enum ObjectFit {
    /// The image will be stretched to fill the bounds of the element.
    Fill,
    /// The image will be scaled to fit within the bounds of the element.
    Contain,
    /// The image will be scaled to cover the bounds of the element.
    Cover,
    /// The image will keep its natural size.
    Natural,
}

/// Whether a box `box_w` by `box_h` is wider, for its height, than an image
/// `image_w` by `image_h`: the comparison of the two aspect ratios, multiplied out.
pub open spec fn box_is_wider(box_w: int, box_h: int, image_w: int, image_h: int) -> bool {
    box_w * image_h > image_w * box_h
}

/// `side` scaled by `to / from`, rounded down. An image without extent along
/// `from` has nothing to scale, and the result is zero.
pub open spec fn scaled(side: int, to: int, from: int) -> int {
    if from == 0 {
        0
    } else {
        side * to / from
    }
}

/// Where a stretch of length `inner` starts when it is centred in one of length
/// `outer`: half of what is left over, rounded down.
pub open spec fn centering(outer: int, inner: int) -> int {
    (outer - inner) / 2
}

impl ObjectFit {
    /// The width and height, in units of [`Pixels`], that an image of `image_w` by
    /// `image_h` pixels takes in a box of `box_w` by `box_h` units.
    pub open spec fn fitted_size(self, box_w: int, box_h: int, image_w: int, image_h: int) -> (
        int,
        int,
    ) {
        match self {
            ObjectFit::Fill => (box_w, box_h),
            ObjectFit::Contain => if box_is_wider(box_w, box_h, image_w, image_h) {
                (scaled(image_w, box_h, image_h), box_h)
            } else {
                (box_w, scaled(image_h, box_w, image_w))
            },
            ObjectFit::Cover => if box_is_wider(box_w, box_h, image_w, image_h) {
                (box_w, scaled(image_h, box_w, image_w))
            } else {
                (scaled(image_w, box_h, image_h), box_h)
            },
            ObjectFit::Natural => (image_w * UNITS_PER_PIXEL, image_h * UNITS_PER_PIXEL),
        }
    }

    /// How far from the box's origin the fitted image starts, along each axis.
    /// `Fill` and `Natural` start at the origin; `Contain` and `Cover` are centred.
    pub open spec fn fitted_offset(self, box_w: int, box_h: int, image_w: int, image_h: int) -> (
        int,
        int,
    ) {
        match self {
            ObjectFit::Fill | ObjectFit::Natural => (0, 0),
            ObjectFit::Contain | ObjectFit::Cover => {
                let (w, h) = self.fitted_size(box_w, box_h, image_w, image_h);
                (centering(box_w, w), centering(box_h, h))
            },
        }
    }

    /// What `get_bounds` returns, as a relation between its arguments and its result.
    pub open spec fn fits(
        self,
        bounds: Bounds<Pixels>,
        image_size: Size<DevicePixels>,
        fitted: Bounds<Pixels>,
    ) -> bool {
        let image_w = image_size.width.unsigned();
        let image_h = image_size.height.unsigned();
        let (w, h) = self.fitted_size(bounds.size.width@, bounds.size.height@, image_w, image_h);
        let (dx, dy) = self.fitted_offset(
            bounds.size.width@,
            bounds.size.height@,
            image_w,
            image_h,
        );
        &&& fitted.size.width@ == w
        &&& fitted.size.height@ == h
        &&& fitted.origin.x@ == bounds.origin.x@ + dx
        &&& fitted.origin.y@ == bounds.origin.y@ + dy
    }

    /// Whether fitting scales the image to the box, as `Contain` and `Cover` do.
    pub open spec fn scales(self) -> bool {
        self == ObjectFit::Contain || self == ObjectFit::Cover
    }

    /// Get the bounds of the image within the given bounds. Where the image is
    /// scaled to the box, the box has to be one that layout can have produced,
    /// so that the scaled sides can be held.
    pub fn get_bounds(&self, bounds: Bounds<Pixels>, image_size: Size<DevicePixels>) -> (fitted:
        Bounds<Pixels>)
        requires
            self.scales() ==> bounds.within_layout(),
        ensures
            self.fits(bounds, image_size, fitted),
    {
        let image_w: i64 = image_size.width.to_u32() as i64;
        let image_h: i64 = image_size.height.to_u32() as i64;
        let box_w: i64 = bounds.size.width.0;
        let box_h: i64 = bounds.size.height.0;
        match self {
            ObjectFit::Fill => bounds,
            ObjectFit::Contain => {
                let new_size = if wider(box_w, box_h, image_w, image_h) {
                    Size { width: Pixels(scale(image_w, box_h, image_h)), height: Pixels(box_h) }
                } else {
                    Size { width: Pixels(box_w), height: Pixels(scale(image_h, box_w, image_w)) }
                };
                centred(bounds, new_size)
            },
            ObjectFit::Cover => {
                let new_size = if wider(box_w, box_h, image_w, image_h) {
                    Size { width: Pixels(box_w), height: Pixels(scale(image_h, box_w, image_w)) }
                } else {
                    Size { width: Pixels(scale(image_w, box_h, image_h)), height: Pixels(box_h) }
                };
                centred(bounds, new_size)
            },
            ObjectFit::Natural => Bounds {
                origin: bounds.origin,
                size: Size {
                    width: Pixels(image_w * UNITS_PER_PIXEL),
                    height: Pixels(image_h * UNITS_PER_PIXEL),
                },
            },
        }
    }
}

fn wider(box_w: i64, box_h: i64, image_w: i64, image_h: i64) -> (r: bool)
    requires
        0 <= box_w <= LAYOUT_LIMIT,
        0 <= box_h <= LAYOUT_LIMIT,
        0 <= image_w <= 0xFFFF_FFFF,
        0 <= image_h <= 0xFFFF_FFFF,
    ensures
        r == box_is_wider(box_w as int, box_h as int, image_w as int, image_h as int),
{
    proof {
        lemma_product_bound(box_w as int, image_h as int);
        lemma_product_bound(box_h as int, image_w as int);
    }
    box_w * image_h > image_w * box_h
}

/// The defining property of [`scaled`]: for an image side `from` that is not zero,
/// the result is the one whole number `s` with `s * from <= side * to < (s + 1) * from`.
/// So the scaled image keeps the image's aspect ratio to within one unit.
pub proof fn lemma_scaled_keeps_ratio(side: int, to: int, from: int)
    requires
        0 < from,
    ensures
        scaled(side, to, from) * from <= side * to < (scaled(side, to, from) + 1) * from,
{
    let p = side * to;
    let s = scaled(side, to, from);
    vstd::arithmetic::div_mod::lemma_fundamental_div_mod(p, from);
    vstd::arithmetic::div_mod::lemma_mod_bound(p, from);
    assert(s * from == from * (p / from)) by (nonlinear_arith)
        requires
            s == p / from,
    ;
    assert((s + 1) * from == s * from + from) by (nonlinear_arith);
}

/// A centred stretch leaves the same margin on both sides, or one unit more behind
/// it than before it.
pub proof fn lemma_centering_is_balanced(outer: int, inner: int)
    ensures
        0 <= (outer - inner) - 2 * centering(outer, inner) <= 1,
{
}

/// `Contain` keeps the image inside the box and touches it along one axis at
/// least: neither side of the result is longer than the box's, and one is equal.
pub proof fn lemma_contain_stays_inside(box_w: int, box_h: int, image_w: int, image_h: int)
    requires
        0 <= box_w,
        0 <= box_h,
        0 <= image_w,
        0 <= image_h,
    ensures
        ({
            let (w, h) = ObjectFit::Contain.fitted_size(box_w, box_h, image_w, image_h);
            &&& 0 <= w <= box_w
            &&& 0 <= h <= box_h
            &&& w == box_w || h == box_h
        }),
{
    if box_is_wider(box_w, box_h, image_w, image_h) {
        lemma_wider_means_extent(box_w, image_h, image_w, box_h);
        lemma_scaled_at_most(image_w, box_h, image_h, box_w);
    } else {
        if image_w != 0 {
            assert(image_h * box_w == box_w * image_h) by (nonlinear_arith);
            assert(box_h * image_w == image_w * box_h) by (nonlinear_arith);
            lemma_scaled_at_most(image_h, box_w, image_w, box_h);
        }
    }
}

/// `Cover` leaves no part of the box bare, for an image that has an extent:
/// neither side of the result is shorter than the box's, and one is equal.
pub proof fn lemma_cover_fills_box(box_w: int, box_h: int, image_w: int, image_h: int)
    requires
        0 <= box_w,
        0 <= box_h,
        0 < image_w,
        0 < image_h,
    ensures
        ({
            let (w, h) = ObjectFit::Cover.fitted_size(box_w, box_h, image_w, image_h);
            &&& box_w <= w
            &&& box_h <= h
            &&& w == box_w || h == box_h
        }),
{
    if box_is_wider(box_w, box_h, image_w, image_h) {
        assert(image_h * box_w == box_w * image_h) by (nonlinear_arith);
        assert(box_h * image_w == image_w * box_h) by (nonlinear_arith);
        lemma_scaled_at_least(image_h, box_w, image_w, box_h);
    } else {
        lemma_scaled_at_least(image_w, box_h, image_h, box_w);
    }
}

/// Where the box and the image have the same aspect ratio, `Contain` and `Cover`
/// agree: both return the box itself. Which way a tie between the ratios falls
/// therefore makes no difference.
pub proof fn lemma_same_ratio_returns_box(box_w: int, box_h: int, image_w: int, image_h: int)
    requires
        0 <= box_w,
        0 <= box_h,
        0 < image_w,
        0 < image_h,
        box_w * image_h == image_w * box_h,
    ensures
        ObjectFit::Contain.fitted_size(box_w, box_h, image_w, image_h) == (box_w, box_h),
        ObjectFit::Cover.fitted_size(box_w, box_h, image_w, image_h) == (box_w, box_h),
        ObjectFit::Contain.fitted_offset(box_w, box_h, image_w, image_h) == (0int, 0int),
        ObjectFit::Cover.fitted_offset(box_w, box_h, image_w, image_h) == (0int, 0int),
{
    lemma_scaled_at_most(image_w, box_h, image_h, box_w);
    lemma_scaled_at_least(image_w, box_h, image_h, box_w);
    assert(image_h * box_w == box_w * image_h) by (nonlinear_arith);
    assert(box_h * image_w == image_w * box_h) by (nonlinear_arith);
    lemma_scaled_at_most(image_h, box_w, image_w, box_h);
    lemma_scaled_at_least(image_h, box_w, image_w, box_h);
}

/// What `Contain` returns lies within the box.
pub proof fn lemma_contained_lies_within(
    bounds: Bounds<Pixels>,
    image_size: Size<DevicePixels>,
    fitted: Bounds<Pixels>,
)
    requires
        0 <= bounds.size.width@,
        0 <= bounds.size.height@,
        ObjectFit::Contain.fits(bounds, image_size, fitted),
    ensures
        bounds.encloses(fitted),
        0 <= fitted.size.width@,
        0 <= fitted.size.height@,
{
    lemma_contain_stays_inside(
        bounds.size.width@,
        bounds.size.height@,
        image_size.width.unsigned(),
        image_size.height.unsigned(),
    );
}

/// What `Cover` returns for an image that has an extent leaves no part of the
/// box bare: the box lies within it.
pub proof fn lemma_covering_encloses_box(
    bounds: Bounds<Pixels>,
    image_size: Size<DevicePixels>,
    fitted: Bounds<Pixels>,
)
    requires
        0 <= bounds.size.width@,
        0 <= bounds.size.height@,
        image_size.width.0 != 0,
        image_size.height.0 != 0,
        ObjectFit::Cover.fits(bounds, image_size, fitted),
    ensures
        fitted.encloses(bounds),
{
    lemma_cover_fills_box(
        bounds.size.width@,
        bounds.size.height@,
        image_size.width.unsigned(),
        image_size.height.unsigned(),
    );
}

/// `Fill` returns the box, whatever the image; `Natural` starts at the box's
/// origin and has the size of the image, whatever the box.
pub proof fn lemma_fill_and_natural(
    bounds: Bounds<Pixels>,
    image_size: Size<DevicePixels>,
    fitted: Bounds<Pixels>,
)
    ensures
        ObjectFit::Fill.fits(bounds, image_size, fitted) ==> fitted.origin.x@ == bounds.origin.x@
            && fitted.origin.y@ == bounds.origin.y@ && fitted.size.width@ == bounds.size.width@
            && fitted.size.height@ == bounds.size.height@,
        ObjectFit::Natural.fits(bounds, image_size, fitted) ==> fitted.origin.x@
            == bounds.origin.x@ && fitted.origin.y@ == bounds.origin.y@ && fitted.size.width@
            == image_size.width.unsigned() * UNITS_PER_PIXEL && fitted.size.height@
            == image_size.height.unsigned() * UNITS_PER_PIXEL,
{
}

proof fn lemma_wider_means_extent(box_w: int, image_h: int, image_w: int, box_h: int)
    requires
        0 <= box_w,
        0 <= box_h,
        0 <= image_w,
        0 <= image_h,
        box_w * image_h > image_w * box_h,
    ensures
        0 < image_h,
        0 < box_w,
{
    assert(0 <= image_w * box_h) by (nonlinear_arith)
        requires
            0 <= image_w,
            0 <= box_h,
    ;
    if image_h == 0 {
        assert(box_w * image_h == 0) by (nonlinear_arith)
            requires
                image_h == 0,
        ;
    }
    if box_w == 0 {
        assert(box_w * image_h == 0) by (nonlinear_arith)
            requires
                box_w == 0,
        ;
    }
}

proof fn lemma_scaled_at_most(side: int, to: int, from: int, limit: int)
    requires
        0 <= side,
        0 <= to,
        0 < from,
        0 <= limit,
        side * to <= limit * from,
    ensures
        0 <= scaled(side, to, from) <= limit,
{
    let p = side * to;
    assert(0 <= p) by (nonlinear_arith)
        requires
            p == side * to,
            0 <= side,
            0 <= to,
    ;
    vstd::arithmetic::div_mod::lemma_div_is_ordered(0, p, from);
    vstd::arithmetic::div_mod::lemma_div_is_ordered(p, limit * from, from);
    vstd::arithmetic::div_mod::lemma_div_by_multiple(limit, from);
}

proof fn lemma_scaled_at_least(side: int, to: int, from: int, limit: int)
    requires
        0 < from,
        0 <= limit,
        side * to >= limit * from,
    ensures
        scaled(side, to, from) >= limit,
{
    vstd::arithmetic::div_mod::lemma_div_is_ordered(limit * from, side * to, from);
    vstd::arithmetic::div_mod::lemma_div_by_multiple(limit, from);
}

/// The largest value of [`scaled`] on an image side and a layout extent.
pub const SCALED_LIMIT: i64 = 0x3FFF_FFFF_C000_0000;

proof fn lemma_product_bound(extent: int, side: int)
    requires
        0 <= extent <= LAYOUT_LIMIT,
        0 <= side <= 0xFFFF_FFFF,
    ensures
        0 <= extent * side <= SCALED_LIMIT,
        0 <= side * extent <= SCALED_LIMIT,
{
    assert(0 <= extent * side <= LAYOUT_LIMIT * 0xFFFF_FFFF) by (nonlinear_arith)
        requires
            0 <= extent <= LAYOUT_LIMIT,
            0 <= side <= 0xFFFF_FFFF,
    ;
    assert(extent * side == side * extent) by (nonlinear_arith);
}

fn scale(side: i64, to: i64, from: i64) -> (r: i64)
    requires
        0 <= side <= 0xFFFF_FFFF,
        0 <= from <= 0xFFFF_FFFF,
        0 <= to <= LAYOUT_LIMIT,
    ensures
        r == scaled(side as int, to as int, from as int),
        0 <= r <= SCALED_LIMIT,
{
    if from == 0 {
        0
    } else {
        proof {
            lemma_product_bound(to as int, side as int);
            let p = side as int * to as int;
            assert(0 <= p / (from as int) <= p) by (nonlinear_arith)
                requires
                    0 <= p,
                    1 <= from,
            ;
        }
        side * to / from
    }
}

fn centre(outer: i64, inner: i64) -> (r: i64)
    requires
        0 <= outer <= LAYOUT_LIMIT,
        0 <= inner <= SCALED_LIMIT,
    ensures
        r == centering(outer as int, inner as int),
        -SCALED_LIMIT <= r <= LAYOUT_LIMIT,
{
    let left: i64 = outer - inner;
    if left >= 0 {
        left / 2
    } else {
        -((1 - left) / 2)
    }
}

fn centred(bounds: Bounds<Pixels>, new_size: Size<Pixels>) -> (r: Bounds<Pixels>)
    requires
        bounds.within_layout(),
        0 <= new_size.width@ <= SCALED_LIMIT,
        0 <= new_size.height@ <= SCALED_LIMIT,
    ensures
        r.size == new_size,
        r.origin.x@ == bounds.origin.x@ + centering(bounds.size.width@, new_size.width@),
        r.origin.y@ == bounds.origin.y@ + centering(bounds.size.height@, new_size.height@),
{
    Bounds {
        origin: Point {
            x: Pixels(bounds.origin.x.0 + centre(bounds.size.width.0, new_size.width.0)),
            y: Pixels(bounds.origin.y.0 + centre(bounds.size.height.0, new_size.height.0)),
        },
        size: new_size,
    }
}

} // verus!
