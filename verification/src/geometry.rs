//! Mapping from pixel positions to dot geometry.
//!
//! Output-space quantities are multiples of half a unit, so they are held
//! exactly: a whole part and a flag for one further half.

use vstd::prelude::*;

verus! {

/// A non-negative output-space quantity, exact to half a unit.
#[derive(Clone, Copy, Debug, PartialEq, Eq, Structural)]
pub struct Length {
    pub whole: u64,
    pub half: bool,
}

impl Length {
    /// The quantity counted in halves of a unit.
    pub open spec fn halves(self) -> int {
        2 * self.whole + if self.half {
            1int
        } else {
            0int
        }
    }
}

/// Centre and radius of one dot.
#[derive(Clone, Copy, Debug, PartialEq, Eq, Structural)]
pub struct DotGeometry {
    pub center_x: Length,
    pub center_y: Length,
    pub radius: Length,
}

/// The length that measures `halves` halves of a unit.
pub open spec fn length_of_halves(halves: int) -> Length {
    Length { whole: (halves / 2) as u64, half: halves % 2 == 1 }
}

/// The dot of the pixel in column `x`, row `y`: its centre lies at
/// `x * dot_size + dot_size / 2` and `y * dot_size + dot_size / 2`, its
/// radius is `dot_size / 2`, all three taken as exact quotients.
pub open spec fn dot_at(x: int, y: int, dot_size: int) -> DotGeometry {
    DotGeometry {
        center_x: length_of_halves(2 * (x * dot_size) + dot_size),
        center_y: length_of_halves(2 * (y * dot_size) + dot_size),
        radius: length_of_halves(dot_size),
    }
}

/// For 32-bit positions and dot sizes the dot of a pixel is exact: counted in
/// halves, the centre is `dot_size * (2 * position + 1)` on each axis and the
/// radius is `dot_size`.
pub proof fn lemma_dot_at_is_exact(x: u32, y: u32, dot_size: u32)
    ensures
        dot_at(x as int, y as int, dot_size as int).center_x.halves() == dot_size * (2 * x + 1),
        dot_at(x as int, y as int, dot_size as int).center_y.halves() == dot_size * (2 * y + 1),
        dot_at(x as int, y as int, dot_size as int).radius.halves() == dot_size,
{
    lemma_scaled_position_fits(x, dot_size);
    lemma_scaled_position_fits(y, dot_size);
    assert(dot_size * (2 * x + 1) == 2 * (x * dot_size) + dot_size) by (nonlinear_arith);
    assert(dot_size * (2 * y + 1) == 2 * (y * dot_size) + dot_size) by (nonlinear_arith);
}

/// A 32-bit position scaled by a 32-bit dot size, plus half a dot, fits 64 bits.
pub proof fn lemma_scaled_position_fits(position: u32, dot_size: u32)
    ensures
        0 <= position * dot_size,
        position * dot_size + dot_size / 2 <= u64::MAX,
        (2 * (position * dot_size) + dot_size) / 2 == position * dot_size + dot_size / 2,
{
    assert(0 <= position * dot_size <= 0xffff_ffff * 0xffff_ffff) by (nonlinear_arith)
        requires
            0 <= position <= 0xffff_ffff,
            0 <= dot_size <= 0xffff_ffff,
    ;
}

/// Half of `dot_size`, exactly.
pub fn half_of(dot_size: u32) -> (length: Length)
    ensures
        length == length_of_halves(dot_size as int),
        length.halves() == dot_size,
{
    Length { whole: (dot_size / 2) as u64, half: dot_size % 2 == 1 }
}

/// `position * dot_size + dot_size / 2`, exactly.
pub fn center_along_axis(position: u32, dot_size: u32) -> (length: Length)
    ensures
        length == length_of_halves(2 * (position * dot_size) + dot_size),
        length.halves() == dot_size * (2 * position + 1),
{
    proof {
        lemma_scaled_position_fits(position, dot_size);
        assert(dot_size * (2 * position + 1) == 2 * (position * dot_size) + dot_size)
            by (nonlinear_arith);
    }
    let scaled: u64 = (position as u64) * (dot_size as u64);
    Length { whole: scaled + (dot_size / 2) as u64, half: dot_size % 2 == 1 }
}

/// Maps the pixel in column `x`, row `y` to its dot.
pub fn map_pixel(x: u32, y: u32, dot_size: u32) -> (dot: DotGeometry)
    ensures
        dot == dot_at(x as int, y as int, dot_size as int),
        dot.center_x.halves() == dot_size * (2 * x + 1),
        dot.center_y.halves() == dot_size * (2 * y + 1),
        dot.radius.halves() == dot_size,
{
    DotGeometry {
        center_x: center_along_axis(x, dot_size),
        center_y: center_along_axis(y, dot_size),
        radius: half_of(dot_size),
    }
}

} // verus!
