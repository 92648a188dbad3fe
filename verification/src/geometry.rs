//! Rectangle geometry for the capture pipeline.
//!
//! A selection is dragged between two arbitrary corner points; the derived
//! [`Dimensions`] value is always re-computed from the corners by taking
//! their minimum and maximum, so its width and height are magnitudes and a
//! zero-area rectangle is a valid "no selection yet" value.

use vstd::prelude::*;
use vstd::arithmetic::power2::pow2;
use vstd::arithmetic::power2::lemma_pow2_adds;
use vstd::arithmetic::power2::lemma_pow2_pos;
use vstd::arithmetic::power2::lemma2_to64;
use vstd::bits::lemma_u32_shl_is_mul;
use vstd::bits::lemma_u32_shr_is_div;
use vstd::std_specs::bits::u32_leading_zeros;

verus! {

/// Axis-aligned rectangle in desktop pixel space: a top-left origin and
/// non-negative extents.
#[derive(Clone, Copy, Debug, PartialEq, Eq, Structural)]
pub struct Dimensions {
    pub width: u32,
    pub height: u32,
    pub x: i32,
    pub y: i32,
}

/// Axis-aligned rectangle given by its edges, in desktop pixel space.
#[derive(Clone, Copy, Debug, PartialEq, Eq, Structural)]
pub struct PixelRect {
    pub left: i32,
    pub top: i32,
    pub right: i32,
    pub bottom: i32,
}

/// The smaller of two corner coordinates.
pub open spec fn corner_min(a: int, b: int) -> int {
    if a <= b {
        a
    } else {
        b
    }
}

/// The larger of two corner coordinates.
pub open spec fn corner_max(a: int, b: int) -> int {
    if a <= b {
        b
    } else {
        a
    }
}

/// The distance between two corner coordinates.
pub open spec fn corner_span(a: int, b: int) -> int {
    corner_max(a, b) - corner_min(a, b)
}

/// The rectangle spanned by two corner points, as (x, y, width, height):
/// origin at the componentwise minimum, extents the componentwise spans.
pub open spec fn corners_dimensions(c1: (i32, i32), c2: (i32, i32)) -> (int, int, int, int) {
    (
        corner_min(c1.0 as int, c2.0 as int),
        corner_min(c1.1 as int, c2.1 as int),
        corner_span(c1.0 as int, c2.0 as int),
        corner_span(c1.1 as int, c2.1 as int),
    )
}

impl Dimensions {
    /// The tuple view (x, y, width, height) used by the corner spec functions.
    pub open spec fn view(&self) -> (int, int, int, int) {
        (self.x as int, self.y as int, self.width as int, self.height as int)
    }

    /// The rectangle's edges stay within the signed 32-bit coordinate space.
    pub open spec fn fits(&self) -> bool {
        &&& self.x + self.width <= i32::MAX
        &&& self.y + self.height <= i32::MAX
    }

    /// Whether the rectangle covers at least one pixel.
    pub fn has_area(&self) -> (r: bool)
        ensures
            r == (self.width > 0 && self.height > 0),
    {
        self.width != 0 && self.height != 0
    }

    /// The same rectangle given by its edges.
    pub fn to_rect(&self) -> (r: PixelRect)
        requires
            self.fits(),
        ensures
            r.left == self.x,
            r.top == self.y,
            r.right == self.x + self.width,
            r.bottom == self.y + self.height,
    {
        let right_wide: i64 = self.x as i64 + self.width as i64;
        let bottom_wide: i64 = self.y as i64 + self.height as i64;
        assert(i32::MIN <= right_wide <= i32::MAX);
        assert(i32::MIN <= bottom_wide <= i32::MAX);
        PixelRect { left: self.x, top: self.y, right: right_wide as i32, bottom: bottom_wide as i32 }
    }
}

/// The axis-aligned rectangle spanned by two arbitrary corner points.
/// The origin is the componentwise minimum of the corners, so the result
/// does not depend on the order in which the corners are given.
pub fn dimensions_from_corners(c1: (i32, i32), c2: (i32, i32)) -> (r: Dimensions)
    ensures
        r.view() == corners_dimensions(c1, c2),
        r.fits(),
{
    let x: i32 = if c1.0 <= c2.0 {
        c1.0
    } else {
        c2.0
    };
    let y: i32 = if c1.1 <= c2.1 {
        c1.1
    } else {
        c2.1
    };
    let width_wide: i64 = if c1.0 <= c2.0 {
        c2.0 as i64 - c1.0 as i64
    } else {
        c1.0 as i64 - c2.0 as i64
    };
    let height_wide: i64 = if c1.1 <= c2.1 {
        c2.1 as i64 - c1.1 as i64
    } else {
        c1.1 as i64 - c2.1 as i64
    };
    assert(0 <= width_wide <= u32::MAX);
    assert(0 <= height_wide <= u32::MAX);
    Dimensions { width: width_wide as u32, height: height_wide as u32, x, y }
}

/// The derived rectangle never has negative extents, and swapping the two
/// corners leaves it unchanged.
pub proof fn lemma_corners_order_independent(c1: (i32, i32), c2: (i32, i32))
    ensures
        corners_dimensions(c1, c2) == corners_dimensions(c2, c1),
        corners_dimensions(c1, c2).2 >= 0,
        corners_dimensions(c1, c2).3 >= 0,
{
}

/// A degenerate pair of corners (both corners equal) spans a zero-area
/// rectangle positioned at that corner.
pub proof fn lemma_corners_degenerate(c: (i32, i32))
    ensures
        corners_dimensions(c, c) == (c.0 as int, c.1 as int, 0int, 0int),
{
}

/// A selection rectangle normalised to the full desktop extent: the
/// per-frame parameter handed to the overlay pixel shader. Each edge is
/// the exact rational `edge / screen extent`, kept as numerator and
/// denominator; the shell forms the float quotients at the GPU boundary,
/// so no precision is lost before that point.
#[derive(Clone, Copy, Debug, PartialEq, Eq, Structural)]
pub struct NormalisedRect {
    pub left_num: i32,
    pub top_num: i32,
    pub right_num: i32,
    pub bottom_num: i32,
    pub screen_width: u32,
    pub screen_height: u32,
}

/// The normalised form of `rect` relative to a screen of extent
/// `(width, height)`.
pub open spec fn normalised(rect: PixelRect, width: u32, height: u32) -> NormalisedRect {
    NormalisedRect {
        left_num: rect.left,
        top_num: rect.top,
        right_num: rect.right,
        bottom_num: rect.bottom,
        screen_width: width,
        screen_height: height,
    }
}

/// The rectangle a normalised parameter denotes, scaled back to pixels:
/// each edge numerator times its denominator over itself, which for the
/// exact rational representation is the numerator unchanged.
pub open spec fn rescaled(n: NormalisedRect) -> PixelRect {
    PixelRect { left: n.left_num, top: n.top_num, right: n.right_num, bottom: n.bottom_num }
}

impl NormalisedRect {
    /// The denominators denote a real screen.
    pub open spec fn wf(&self) -> bool {
        self.screen_width > 0 && self.screen_height > 0
    }

    /// Every edge value lies in the unit interval: `0 <= num/den <= 1`.
    pub open spec fn in_unit_interval(&self) -> bool {
        &&& 0 <= self.left_num <= self.screen_width
        &&& 0 <= self.right_num <= self.screen_width
        &&& 0 <= self.top_num <= self.screen_height
        &&& 0 <= self.bottom_num <= self.screen_height
    }

    /// Normalise a rectangle to a screen of extent `(width, height)`.
    pub fn new(rect: PixelRect, width: u32, height: u32) -> (r: NormalisedRect)
        requires
            width > 0,
            height > 0,
        ensures
            r == normalised(rect, width, height),
            r.wf(),
    {
        NormalisedRect {
            left_num: rect.left,
            top_num: rect.top,
            right_num: rect.right,
            bottom_num: rect.bottom,
            screen_width: width,
            screen_height: height,
        }
    }

    /// Scale the normalised parameter back to a pixel rectangle.
    pub fn rescale(&self) -> (r: PixelRect)
        ensures
            r == rescaled(*self),
    {
        PixelRect {
            left: self.left_num,
            top: self.top_num,
            right: self.right_num,
            bottom: self.bottom_num,
        }
    }
}

impl Default for NormalisedRect {
    /// The all-zero parameter drawn when no selection is active.
    fn default() -> (r: NormalisedRect)
        ensures
            r == (NormalisedRect {
                left_num: 0,
                top_num: 0,
                right_num: 0,
                bottom_num: 0,
                screen_width: 1,
                screen_height: 1,
            }),
            r.wf(),
    {
        NormalisedRect {
            left_num: 0,
            top_num: 0,
            right_num: 0,
            bottom_num: 0,
            screen_width: 1,
            screen_height: 1,
        }
    }
}

/// For a rectangle lying fully inside a screen of extent
/// `(width, height)`, every normalised edge lies in the unit interval,
/// and scaling back by the same extent reproduces the rectangle exactly.
pub proof fn lemma_normalised_round_trip(rect: PixelRect, width: u32, height: u32)
    requires
        width > 0,
        height > 0,
        0 <= rect.left <= rect.right <= width,
        0 <= rect.top <= rect.bottom <= height,
    ensures
        normalised(rect, width, height).in_unit_interval(),
        rescaled(normalised(rect, width, height)) == rect,
{
}

impl PixelRect {
    /// The rectangle described as an origin with extents. The edge
    /// differences must be representable, so the left edge may not lie
    /// right of the right edge (nor top below bottom).
    pub fn dimensions(&self) -> (r: Dimensions)
        requires
            self.left <= self.right,
            self.top <= self.bottom,
        ensures
            r.x == self.left,
            r.y == self.top,
            r.width == self.right - self.left,
            r.height == self.bottom - self.top,
            r.fits(),
    {
        let width_wide: i64 = self.right as i64 - self.left as i64;
        let height_wide: i64 = self.bottom as i64 - self.top as i64;
        assert(0 <= width_wide <= u32::MAX);
        assert(0 <= height_wide <= u32::MAX);
        Dimensions {
            width: width_wide as u32,
            height: height_wide as u32,
            x: self.left,
            y: self.top,
        }
    }
}

/// Whether `n` is a power of two.
pub open spec fn is_power_of_two(n: int) -> bool
    decreases n,
{
    if n <= 0 {
        false
    } else if n == 1 {
        true
    } else {
        n % 2 == 0 && is_power_of_two(n / 2)
    }
}

/// Every `pow2(k)` is a power of two in the sense of [`is_power_of_two`].
proof fn lemma_pow2_is_power_of_two(k: nat)
    ensures
        is_power_of_two(pow2(k) as int),
    decreases k,
{
    if k == 0 {
        assert(pow2(0) == 1) by {
            lemma2_to64();
        }
    } else {
        lemma_pow2_is_power_of_two((k - 1) as nat);
        lemma_pow2_adds((k - 1) as nat, 1);
        assert(pow2(1) == 2) by {
            lemma2_to64();
        }
        lemma_pow2_pos((k - 1) as nat);
    }
}

/// Relate a right shift of a `u32` to the power-of-two bounds it
/// witnesses: a non-zero shifted value puts `j` at or above `2^t`, a zero
/// one puts it below.
proof fn lemma_shr_pow2_bounds(j: u32, t: u32)
    requires
        t < 32,
    ensures
        (j >> t) != 0 ==> j >= pow2(t as nat),
        (j >> t) == 0 ==> j < pow2(t as nat),
{
    lemma_u32_shr_is_div(j, t);
    lemma_pow2_pos(t as nat);
    let p = pow2(t as nat) as int;
    vstd::arithmetic::div_mod::lemma_fundamental_div_mod(j as int, p);
    vstd::arithmetic::div_mod::lemma_mod_bound(j as int, p);
    if (j >> t) != 0 {
        assert(j as int / p >= 1);
        assert(p * (j as int / p) >= p) by (nonlinear_arith)
            requires
                p > 0,
                j as int / p >= 1,
        ;
    } else {
        assert(j as nat / pow2(t as nat) == 0);
        assert(j as int / p == 0);
        assert(j as int == p * (j as int / p) + (j as int) % p);
        assert(p * (j as int / p) == 0) by (nonlinear_arith)
            requires
                j as int / p == 0,
        ;
        assert((j as int) % p < p);
    }
}

/// The smallest power of two that is at least `x`, computed from the
/// position of the highest set bit of `x - 1`. The argument may not
/// exceed `2^31`, the largest power of two a `u32` can hold.
pub fn greater_p2(x: u32) -> (r: u32)
    requires
        1 <= x <= 0x8000_0000,
    ensures
        x <= r < 2 * x,
        is_power_of_two(r as int),
{
    let shift = 32 - (x - 1).leading_zeros();
    proof {
        let j = (x - 1) as u32;
        let lz = u32_leading_zeros(j);
        if j == 0 {
            assert(lz == 32);
            assert(1u32 << 0 == 1) by (bit_vector);
            assert(pow2(0) == 1) by {
                lemma2_to64();
            }
            lemma_pow2_is_power_of_two(0);
        } else {
            assert(lz < 32);
            // The top bit of j is clear (j < 2^31), so at least one
            // leading zero.
            if lz == 0 {
                assert((j >> 31u32) & 1u32 != 0);
                assert(j >> 31u32 != 0) by (bit_vector)
                    requires
                        (j >> 31u32) & 1u32 != 0,
                ;
                lemma_shr_pow2_bounds(j, 31);
                assert(pow2(31) == 0x8000_0000) by {
                    lemma2_to64();
                }
                assert(false);
            }
            let s = (32 - lz) as u32;
            assert(1 <= s <= 31);
            // Bit s-1 of j is set, so 2^(s-1) <= j.
            assert((j >> ((s - 1) as u32)) & 1u32 != 0);
            assert(j >> ((s - 1) as u32) != 0) by (bit_vector)
                requires
                    (j >> ((s - 1) as u32)) & 1u32 != 0,
            ;
            lemma_shr_pow2_bounds(j, (s - 1) as u32);
            assert(j >= pow2((s - 1) as nat));
            // The bits from s up are clear, so j < 2^s.
            assert(j >> s == 0);
            lemma_shr_pow2_bounds(j, s);
            assert(j < pow2(s as nat));
            // 2^s = 2 * 2^(s-1), which pins 2^s between x and 2x.
            lemma_pow2_adds((s - 1) as nat, 1);
            assert(pow2(1) == 2) by {
                lemma2_to64();
            }
            assert(pow2(s as nat) == 2 * pow2((s - 1) as nat));
            if s < 31 {
                vstd::arithmetic::power2::lemma_pow2_strictly_increases(s as nat, 31);
            }
            assert(pow2(31) == 0x8000_0000) by {
                lemma2_to64();
            }
            assert(pow2(s as nat) <= 0x8000_0000);
            lemma_u32_shl_is_mul(1, s);
            assert(1u32 << s == pow2(s as nat));
            lemma_pow2_is_power_of_two(s as nat);
        }
    }
    1u32 << shift
}

} // verus!
