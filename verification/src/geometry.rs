//! Sizes and exact scale arithmetic.
//!
//! Device geometry is integral (pixels). Layout geometry is device geometry
//! divided by the device pixel ratio; to keep that division exact, layout
//! lengths are non-negative rationals and the ratio is a positive rational.

use vstd::prelude::*;

verus! {

/// Width and height of the drawing surface, in device pixels.
#[derive(Clone, Copy, Debug, PartialEq, Eq, Structural)]
pub struct DeviceSize {
    pub width: u32,
    pub height: u32,
}

impl DeviceSize {
    pub fn new(width: u32, height: u32) -> (s: DeviceSize)
        ensures
            s == (DeviceSize { width, height }),
    {
        DeviceSize { width, height }
    }
}

/// Axis-aligned rectangle in device pixels.
#[derive(Clone, Copy, Debug, PartialEq, Eq, Structural)]
pub struct DeviceRect {
    pub origin_x: u32,
    pub origin_y: u32,
    pub size: DeviceSize,
}

impl DeviceRect {
    /// The rectangle that covers a whole surface of the given size.
    pub open spec fn spec_full(size: DeviceSize) -> DeviceRect {
        DeviceRect { origin_x: 0, origin_y: 0, size }
    }

    pub fn full(size: DeviceSize) -> (r: DeviceRect)
        ensures
            r == DeviceRect::spec_full(size),
    {
        DeviceRect { origin_x: 0, origin_y: 0, size }
    }
}

/// A non-negative rational number, written `num / den`.
#[derive(Clone, Copy, Debug, PartialEq, Eq, Structural)]
pub struct Frac {
    pub num: u64,
    pub den: u64,
}

impl Frac {
    pub open spec fn wf(self) -> bool {
        self.den >= 1
    }

    /// The rational equals the integer `v`.
    pub open spec fn spec_is_int(self, v: u64) -> bool {
        self.num == v * self.den
    }

    pub fn is_int(self, v: u64) -> (r: bool)
        ensures
            r == self.spec_is_int(v),
    {
        proof {
            let a = v as int;
            let b = self.den as int;
            assert(a * b <= 0xFFFF_FFFF_FFFF_FFFF * 0xFFFF_FFFF_FFFF_FFFF) by (nonlinear_arith)
                requires
                    0 <= a <= 0xFFFF_FFFF_FFFF_FFFF,
                    0 <= b <= 0xFFFF_FFFF_FFFF_FFFF,
            ;
        }
        (self.num as u128) == (v as u128) * (self.den as u128)
    }

    /// Half of the rational, by doubling the denominator.
    pub open spec fn spec_half(self) -> Frac {
        Frac { num: self.num, den: (self.den * 2) as u64 }
    }

    pub fn half(self) -> (r: Frac)
        requires
            self.den <= 0x8000_0000_0000_0000u64 / 2,
        ensures
            r == self.spec_half(),
            r.den == self.den * 2,
    {
        Frac { num: self.num, den: self.den * 2 }
    }

    pub open spec fn spec_zero() -> Frac {
        Frac { num: 0, den: 1 }
    }

    pub fn zero() -> (r: Frac)
        ensures
            r == Frac::spec_zero(),
            r.wf(),
    {
        Frac { num: 0, den: 1 }
    }
}

/// Scale factor from logical (layout) pixels to device pixels, as a
/// positive rational `num / den`.
#[derive(Clone, Copy, Debug, PartialEq, Eq, Structural)]
pub struct PixelRatio {
    pub num: u32,
    pub den: u32,
}

impl PixelRatio {
    pub open spec fn wf(self) -> bool {
        self.num >= 1 && self.den >= 1
    }

    pub fn new(num: u32, den: u32) -> (r: PixelRatio)
        requires
            num >= 1,
            den >= 1,
        ensures
            r == (PixelRatio { num, den }),
            r.wf(),
    {
        PixelRatio { num, den }
    }
}

/// Width and height in logical (layout) pixels.
#[derive(Clone, Copy, Debug, PartialEq, Eq, Structural)]
pub struct LayoutSize {
    pub width: Frac,
    pub height: Frac,
}

impl LayoutSize {
    pub open spec fn wf(self) -> bool {
        &&& self.width.wf()
        &&& self.height.wf()
        &&& self.width.den <= 0xFFFF_FFFFu64
        &&& self.height.den <= 0xFFFF_FFFFu64
    }
}

/// A rectangle in layout pixels.
#[derive(Clone, Copy, Debug, PartialEq, Eq, Structural)]
pub struct LayoutRect {
    pub origin_x: Frac,
    pub origin_y: Frac,
    pub size: LayoutSize,
}

impl LayoutRect {
    /// The rectangle from the origin with the given size.
    pub open spec fn spec_from_origin(size: LayoutSize) -> LayoutRect {
        LayoutRect { origin_x: Frac::spec_zero(), origin_y: Frac::spec_zero(), size }
    }

    pub fn from_origin(size: LayoutSize) -> (r: LayoutRect)
        ensures
            r == LayoutRect::spec_from_origin(size),
    {
        LayoutRect { origin_x: Frac::zero(), origin_y: Frac::zero(), size }
    }
}

/// The layout size that a framebuffer size yields under a pixel ratio:
/// each device dimension divided, exactly, by the ratio.
pub open spec fn spec_layout_of(fb: DeviceSize, ratio: PixelRatio) -> LayoutSize {
    LayoutSize {
        width: Frac { num: (fb.width * ratio.den) as u64, den: ratio.num as u64 },
        height: Frac { num: (fb.height * ratio.den) as u64, den: ratio.num as u64 },
    }
}

pub fn layout_of(fb: DeviceSize, ratio: PixelRatio) -> (ls: LayoutSize)
    requires
        ratio.wf(),
    ensures
        ls == spec_layout_of(fb, ratio),
        ls.wf(),
{
    proof {
        lemma_layout_products_fit(fb, ratio);
    }
    LayoutSize {
        width: Frac { num: (fb.width as u64) * (ratio.den as u64), den: ratio.num as u64 },
        height: Frac { num: (fb.height as u64) * (ratio.den as u64), den: ratio.num as u64 },
    }
}

/// The product of two device-pixel quantities fits in 64 bits.
proof fn lemma_layout_products_fit(fb: DeviceSize, ratio: PixelRatio)
    ensures
        fb.width * ratio.den < 0x1_0000_0000_0000_0000,
        fb.height * ratio.den < 0x1_0000_0000_0000_0000,
{
    let w = fb.width as int;
    let h = fb.height as int;
    let d = ratio.den as int;
    assert(w * d <= 0xFFFF_FFFF * 0xFFFF_FFFF) by (nonlinear_arith)
        requires
            0 <= w <= 0xFFFF_FFFF,
            0 <= d <= 0xFFFF_FFFF,
    ;
    assert(h * d <= 0xFFFF_FFFF * 0xFFFF_FFFF) by (nonlinear_arith)
        requires
            0 <= h <= 0xFFFF_FFFF,
            0 <= d <= 0xFFFF_FFFF,
    ;
}

/// Multiplying the rational `f` by the ratio gives exactly the integer `v`:
/// `(f.num / f.den) * (ratio.num / ratio.den) == v`, cross-multiplied.
pub open spec fn spec_times_ratio_is_int(f: Frac, ratio: PixelRatio, v: u32) -> bool {
    f.num * ratio.num == v * f.den * ratio.den
}

/// The computed layout size is the exact quotient: scaling either layout
/// dimension back up by the pixel ratio returns the framebuffer dimension.
pub proof fn lemma_layout_exact(fb: DeviceSize, ratio: PixelRatio)
    requires
        ratio.wf(),
    ensures
        spec_times_ratio_is_int(spec_layout_of(fb, ratio).width, ratio, fb.width),
        spec_times_ratio_is_int(spec_layout_of(fb, ratio).height, ratio, fb.height),
{
    lemma_layout_products_fit(fb, ratio);
    let w = fb.width as int;
    let h = fb.height as int;
    let rn = ratio.num as int;
    let rd = ratio.den as int;
    assert((w * rd) * rn == (w * rn) * rd) by (nonlinear_arith);
    assert((h * rd) * rn == (h * rn) * rd) by (nonlinear_arith);
}

} // verus!
