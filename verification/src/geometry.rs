//! Geometry of the embedded surface, derived from the host window's metrics.
//!
//! The surface lies below the chrome: at `(0, C)`, `W / S` wide and
//! `H / S - C` high, in logical units, for a window of `W` by `H` physical
//! pixels, a scale factor `S` and a chrome offset `C`. The scale factor is a
//! fraction and the bounds are fractions over one denominator, so that no
//! division rounds.

use vstd::prelude::*;

verus! {

/// A device scale factor: `num / den` physical pixels per logical unit.
#[derive(Clone, Copy, Debug, PartialEq, Eq)]
pub struct Scale {
    pub num: u32,
    pub den: u32,
}

impl Scale {
    /// Whether this is a positive number.
    pub open spec fn spec_is_valid(&self) -> bool {
        self.num > 0 && self.den > 0
    }

    /// Whether this is a positive number.
    #[verifier::when_used_as_spec(spec_is_valid)]
    pub fn is_valid(&self) -> (valid: bool)
        ensures
            valid == self.spec_is_valid(),
    {
        self.num > 0 && self.den > 0
    }
}

/// A rectangle in logical units: each of `x`, `y`, `width` and `height` is a
/// numerator over the denominator `unit`.
#[derive(Clone, Copy, Debug, PartialEq, Eq)]
pub struct Bounds {
    pub x: i128,
    pub y: i128,
    pub width: i128,
    pub height: i128,
    pub unit: u32,
}

impl Bounds {
    /// Whether the coordinate with the numerator `coordinate` is the
    /// fraction `p / q`.
    pub open spec fn is_ratio(self, coordinate: int, p: int, q: int) -> bool {
        coordinate * q == p * self.unit
    }
}

/// What the host window reports, together with the height reserved for the
/// chrome, the latter in logical units.
#[derive(Clone, Copy, Debug, PartialEq, Eq)]
pub struct HostWindowMetrics {
    pub width: u32,
    pub height: u32,
    pub scale: Scale,
    pub chrome_offset: u32,
}

impl HostWindowMetrics {
    /// Whether the window is not ready to hold a surface: a dimension is
    /// zero, or the scale factor is no positive number.
    pub open spec fn spec_is_degenerate(&self) -> bool {
        self.width == 0 || self.height == 0 || !self.scale.is_valid()
    }

    /// Whether the window is not ready to hold a surface: a dimension is
    /// zero, or the scale factor is no positive number.
    #[verifier::when_used_as_spec(spec_is_degenerate)]
    pub fn is_degenerate(&self) -> (degenerate: bool)
        ensures
            degenerate == self.spec_is_degenerate(),
    {
        self.width == 0 || self.height == 0 || !self.scale.is_valid()
    }

    /// The surface's bounds, over the denominator `scale.num`.
    pub open spec fn surface_bounds(&self) -> Bounds {
        Bounds {
            x: 0,
            y: (self.chrome_offset * self.scale.num) as i128,
            width: (self.width * self.scale.den) as i128,
            height: (self.height * self.scale.den - self.chrome_offset * self.scale.num) as i128,
            unit: self.scale.num,
        }
    }

    /// The surface's bounds, where the scale factor is a positive number.
    pub fn bounds(&self) -> (bounds: Option<Bounds>)
        ensures
            bounds == if self.scale.is_valid() {
                Some(self.surface_bounds())
            } else {
                None
            },
    {
        if !self.scale.is_valid() {
            return None;
        }
        let num: i128 = self.scale.num as i128;
        let den: i128 = self.scale.den as i128;
        let width: i128 = self.width as i128;
        let height: i128 = self.height as i128;
        let chrome: i128 = self.chrome_offset as i128;
        proof {
            lemma_product_fits(self.chrome_offset, self.scale.num);
            lemma_product_fits(self.width, self.scale.den);
            lemma_product_fits(self.height, self.scale.den);
        }
        Some(
            Bounds {
                x: 0,
                y: chrome * num,
                width: width * den,
                height: height * den - chrome * num,
                unit: self.scale.num,
            },
        )
    }
}

/// The product of two `u32` values is far within the range of `i128`.
proof fn lemma_product_fits(a: u32, b: u32)
    ensures
        0 <= a * b <= 0xFFFF_FFFF * 0xFFFF_FFFF,
{
    assert(0 <= a * b <= 0xFFFF_FFFF * 0xFFFF_FFFF) by (nonlinear_arith)
        requires
            0 <= a <= 0xFFFF_FFFF,
            0 <= b <= 0xFFFF_FFFF,
    ;
}

/// The coordinates of the surface's bounds as integers: no product leaves
/// the range of the fields.
pub proof fn lemma_surface_bounds_exact(m: HostWindowMetrics)
    ensures
        m.surface_bounds().x == 0,
        m.surface_bounds().y == m.chrome_offset * m.scale.num,
        m.surface_bounds().width == m.width * m.scale.den,
        m.surface_bounds().height == m.height * m.scale.den - m.chrome_offset * m.scale.num,
        m.surface_bounds().unit == m.scale.num,
{
    lemma_product_fits(m.chrome_offset, m.scale.num);
    lemma_product_fits(m.width, m.scale.den);
    lemma_product_fits(m.height, m.scale.den);
}

/// For a scale factor `S = num / den` that is a positive number, the
/// surface is at `(0, C)`, and is `W / S` wide and `H / S - C` high, where
/// `W / S` is `W * den / num` and `H / S - C` is `(H * den - C * num) / num`.
pub proof fn lemma_surface_bounds_formula(m: HostWindowMetrics)
    requires
        m.scale.is_valid(),
    ensures
        ({
            let b = m.surface_bounds();
            &&& b.unit > 0
            &&& b.is_ratio(b.x as int, 0, 1)
            &&& b.is_ratio(b.y as int, m.chrome_offset as int, 1)
            &&& b.is_ratio(b.width as int, m.width * m.scale.den, m.scale.num as int)
            &&& b.is_ratio(
                b.height as int,
                m.height * m.scale.den - m.chrome_offset * m.scale.num,
                m.scale.num as int,
            )
        }),
{
    lemma_surface_bounds_exact(m);
}

} // verus!
