//! The scaling of axis samples between the SDL2 and the vJoy domains.

use vstd::arithmetic::div_mod::{
    lemma_div_is_ordered, lemma_fundamental_div_mod, lemma_fundamental_div_mod_converse,
    lemma_mod_bound,
};
use vstd::prelude::*;

use crate::ffi::rusty_structure::VJDError;
use crate::vjoy_base::driver::VJGeneral;
use crate::vjoy_extra::SDL2Helper;

verus! {

/// A closed interval of axis values, from `min` to `max`.
#[derive(Debug, Copy, Clone, PartialEq, Eq, Structural, Hash)]
pub struct AxisRange {
    pub min: i32,
    pub max: i32,
}

impl AxisRange {
    /// Whether the range can be scaled from or to: its maximum lies above its minimum.
    pub open spec fn is_proper(self) -> bool {
        self.min < self.max
    }

    /// Whether `value` lies in the range.
    pub open spec fn contains(self, value: int) -> bool {
        self.min <= value <= self.max
    }

    /// The distance from the minimum to the maximum.
    pub open spec fn width(self) -> int {
        self.max - self.min
    }
}

/// The integer nearest to `numerator / denominator`, for a numerator that is
/// not negative and a positive denominator. A quotient halfway between two
/// integers goes to the upper one, away from zero.
pub open spec fn rounded_quotient(numerator: int, denominator: int) -> int {
    (2 * numerator + denominator) / (2 * denominator)
}

/// The place of `value` in `target` that corresponds to its place in `source`:
/// `(value - source.min) * target.width() / source.width()`, rounded to the
/// nearest integer, counted from `target.min`.
pub open spec fn spec_scale(value: int, source: AxisRange, target: AxisRange) -> int {
    rounded_quotient((value - source.min) * target.width(), source.width()) + target.min
}

proof fn lemma_product_bounds(offset: int, width: int, factor: int)
    by (nonlinear_arith)
    requires
        0 <= offset <= width,
        0 <= factor,
    ensures
        0 <= offset * factor <= width * factor,
{
}

proof fn lemma_product_ordered(low: int, high: int, factor: int)
    by (nonlinear_arith)
    requires
        low <= high,
        0 <= factor,
    ensures
        low * factor <= high * factor,
{
}

proof fn lemma_quotient_below(quotient: int, denominator: int, bound: int)
    by (nonlinear_arith)
    requires
        0 < denominator,
        quotient * (2 * denominator) < (bound + 1) * (2 * denominator),
    ensures
        quotient <= bound,
{
}

/// The rounded quotient is the nearest integer: twice its distance from the
/// exact quotient, taken in units of the denominator, is at most the
/// denominator, and a tie goes up.
pub proof fn lemma_rounded_quotient_is_nearest(numerator: int, denominator: int)
    requires
        0 < denominator,
    ensures
        -denominator <= 2 * (numerator - rounded_quotient(numerator, denominator) * denominator)
            < denominator,
{
    let x = 2 * numerator + denominator;
    let d = 2 * denominator;
    lemma_fundamental_div_mod(x, d);
    lemma_mod_bound(x, d);
    assert(d * (x / d) == 2 * ((x / d) * denominator)) by (nonlinear_arith)
        requires
            d == 2 * denominator,
    ;
}

/// The rounded quotient of a numerator in `0..=denominator * bound` lies in `0..=bound`.
pub proof fn lemma_rounded_quotient_bounds(numerator: int, denominator: int, bound: int)
    requires
        0 < denominator,
        0 <= numerator <= denominator * bound,
    ensures
        0 <= rounded_quotient(numerator, denominator) <= bound,
{
    let q = rounded_quotient(numerator, denominator);
    lemma_rounded_quotient_is_nearest(numerator, denominator);
    assert(q >= 0) by (nonlinear_arith)
        requires
            0 < denominator,
            0 <= numerator,
            2 * (numerator - q * denominator) < denominator,
    ;
    assert(q * (2 * denominator) < (bound + 1) * (2 * denominator)) by (nonlinear_arith)
        requires
            0 < denominator,
            numerator <= denominator * bound,
            -denominator <= 2 * (numerator - q * denominator),
    ;
    lemma_quotient_below(q, denominator, bound);
}

/// Scaling stays in the target range: a value of the source range is scaled
/// to a value of the target range.
pub proof fn lemma_scale_within_target(value: int, source: AxisRange, target: AxisRange)
    requires
        source.is_proper(),
        target.is_proper(),
        source.contains(value),
    ensures
        target.contains(spec_scale(value, source, target)),
{
    lemma_product_bounds(value - source.min, source.width(), target.width());
    lemma_rounded_quotient_bounds(
        (value - source.min) * target.width(),
        source.width(),
        target.width(),
    );
}

/// Scaling is exact at both ends: the minimum of the source goes to the
/// minimum of the target, and the maximum to the maximum.
pub proof fn lemma_scale_endpoints(source: AxisRange, target: AxisRange)
    requires
        source.is_proper(),
        target.is_proper(),
    ensures
        spec_scale(source.min as int, source, target) == target.min,
        spec_scale(source.max as int, source, target) == target.max,
{
    let d = source.width();
    let w = target.width();
    assert(0 * w == 0);
    lemma_rounded_quotient_is_nearest(0, d);
    let q0 = rounded_quotient(0, d);
    assert(q0 == 0) by (nonlinear_arith)
        requires
            0 < d,
            -d <= 2 * (0 - q0 * d) < d,
    ;
    lemma_rounded_quotient_is_nearest(d * w, d);
    let q1 = rounded_quotient(d * w, d);
    assert(q1 == w) by (nonlinear_arith)
        requires
            0 < d,
            -d <= 2 * (d * w - q1 * d) < d,
    ;
}

/// Scaling never decreases: of two values of the source range, the larger
/// is scaled to a result that is at least that of the smaller.
pub proof fn lemma_scale_monotonic(low: int, high: int, source: AxisRange, target: AxisRange)
    requires
        source.is_proper(),
        target.is_proper(),
        source.contains(low),
        source.contains(high),
        low <= high,
    ensures
        spec_scale(low, source, target) <= spec_scale(high, source, target),
{
    let d = source.width();
    let w = target.width();
    lemma_product_ordered(low - source.min, high - source.min, w);
    lemma_div_is_ordered(
        2 * ((low - source.min) * w) + d,
        2 * ((high - source.min) * w) + d,
        2 * d,
    );
}

/// Scales `value` from `source` to `target`.
///
/// Fails with `DegenerateRange` exactly when one of the two ranges has no
/// maximum above its minimum. `value` is a sample of `source`.
pub fn scale(value: i32, source: AxisRange, target: AxisRange) -> (r: Result<i32, VJDError>)
    requires
        source.is_proper() ==> source.contains(value as int),
    ensures
        r is Ok <==> source.is_proper() && target.is_proper(),
        r matches Ok(scaled) ==> scaled == spec_scale(value as int, source, target),
        r matches Err(e) ==> e == VJDError::DegenerateRange,
{
    if source.max <= source.min || target.max <= target.min {
        return Err(VJDError::DegenerateRange);
    }
    let offset: i128 = value as i128 - source.min as i128;
    let source_width: i128 = source.max as i128 - source.min as i128;
    let target_width: i128 = target.max as i128 - target.min as i128;
    proof {
        lemma_product_bounds(offset as int, source_width as int, target_width as int);
        assert(source_width * target_width <= 0x1_0000_0000 * 0x1_0000_0000) by (nonlinear_arith)
            requires
                0 < source_width <= 0x1_0000_0000,
                0 < target_width <= 0x1_0000_0000,
        ;
        lemma_rounded_quotient_bounds(
            (offset * target_width) as int,
            source_width as int,
            target_width as int,
        );
    }
    let numerator: i128 = offset * target_width;
    let rounded: i128 = (2 * numerator + source_width) / (2 * source_width);
    Ok((rounded + target.min as i128) as i32)
}

impl AxisRange {
    /// The domain of an SDL2 axis.
    pub open spec fn spec_sdl2() -> AxisRange {
        AxisRange { min: SDL2Helper::MIN_AXIS_VALUE, max: SDL2Helper::MAX_AXIS_VALUE }
    }

    /// The domain of a vJoy axis.
    pub open spec fn spec_vjoy() -> AxisRange {
        AxisRange { min: VJGeneral::MIN_AXIS_VALUE, max: VJGeneral::MAX_AXIS_VALUE }
    }

    /// The domain of an SDL2 axis.
    pub fn sdl2() -> (r: AxisRange)
        ensures
            r == Self::spec_sdl2(),
    {
        AxisRange { min: SDL2Helper::MIN_AXIS_VALUE, max: SDL2Helper::MAX_AXIS_VALUE }
    }

    /// The domain of a vJoy axis.
    pub fn vjoy() -> (r: AxisRange)
        ensures
            r == Self::spec_vjoy(),
    {
        AxisRange { min: VJGeneral::MIN_AXIS_VALUE, max: VJGeneral::MAX_AXIS_VALUE }
    }
}

/// A scaled value before it is rounded: `numerator / denominator + offset`.
#[derive(Debug, Copy, Clone, PartialEq, Eq, Structural, Hash)]
pub struct AxisFraction {
    pub numerator: i128,
    pub denominator: i64,
    pub offset: i32,
}

/// The place of `value` in `target` that corresponds to its place in
/// `source`, as an exact fraction: the distance of `value` from the minimum
/// of the source times the width of the target, over the width of the
/// source, counted from the minimum of the target. Nothing is divided here,
/// so nothing is asked of the two ranges.
pub fn precise_scaling(value: i16, source: AxisRange, target: AxisRange) -> (r: AxisFraction)
    ensures
        r.numerator == (value - source.min) * target.width(),
        r.denominator == source.width(),
        r.offset == target.min,
{
    let offset: i128 = value as i128 - source.min as i128;
    let target_width: i128 = target.max as i128 - target.min as i128;
    proof {
        assert(-0x1_0000_0000 * 0x1_0000_0000 <= offset * target_width <= 0x1_0000_0000
            * 0x1_0000_0000) by (nonlinear_arith)
            requires
                -0x1_0000_0000 <= offset <= 0x1_0000_0000,
                -0x1_0000_0000 <= target_width <= 0x1_0000_0000,
        ;
    }
    AxisFraction {
        numerator: offset * target_width,
        denominator: source.max as i64 - source.min as i64,
        offset: target.min,
    }
}

/// The highest vJoy axis value that SDL2 reads back one step too low.
pub const SDL2_LOW_READ_MAX: i32 = 28671;

impl SDL2Helper {
    /// Describes the maximum value of a SDL2 axis.
    pub const MAX_AXIS_VALUE: i32 = 32767;

    /// Describes the neutral value of a SDL2 axis.
    pub const NEUTRAL_AXIS_VALUE: i32 = 0;

    /// Describes the minimum value of a SDL2 axis.
    pub const MIN_AXIS_VALUE: i32 = -32768;

    /// Scales a SDL2 axis value to fit into a vJoy axis. The scaled value is
    /// rounded: every two neighbouring SDL2 values share one vJoy value.
    pub fn axis_scale_sdl2_to_vjoy_unchecked(value: i16) -> (r: i32)
        ensures
            r == spec_scale(value as int, AxisRange::spec_sdl2(), AxisRange::spec_vjoy()),
            r == (value + 32768) / 2,
    {
        proof {
            lemma_sdl2_to_vjoy_halves(value as int);
        }
        scale(value as i32, AxisRange::sdl2(), AxisRange::vjoy()).unwrap()
    }

    /// Scales a vJoy axis value to fit into a SDL2 axis. The scaled value is
    /// not rounded: it is `value * 65535 / 32767 - 32768`, as a fraction.
    pub fn axis_scale_vjoy_to_sdl2_precise_unchecked(value: i16) -> (r: AxisFraction)
        ensures
            r.numerator == value * 65535,
            r.denominator == 32767,
            r.offset == -32768,
    {
        precise_scaling(value, AxisRange::vjoy(), AxisRange::sdl2())
    }

    /// The SDL2 value that stands for what SDL2 read of a vJoy axis set to
    /// `vjoy_value`. SDL2 reads the vJoy values 0 to 28671 one step too low,
    /// so there the value is `sdl2_read + 1`; elsewhere it is `sdl2_read`.
    pub open spec fn spec_corrected_read(vjoy_value: int, sdl2_read: int) -> int {
        if 0 <= vjoy_value <= SDL2_LOW_READ_MAX {
            sdl2_read + 1
        } else {
            sdl2_read
        }
    }

    /// Whether SDL2 registered a vJoy axis value: whether `sdl2_read`, which
    /// SDL2 read of an axis set to `vjoy_value`, scales back to `vjoy_value`
    /// once it is corrected by `spec_corrected_read`. A corrected value
    /// beyond the SDL2 range scales to nothing.
    pub fn axis_registered(vjoy_value: i32, sdl2_read: i16) -> (r: bool)
        ensures
            r == (AxisRange::spec_sdl2().contains(
                Self::spec_corrected_read(vjoy_value as int, sdl2_read as int),
            ) && spec_scale(
                Self::spec_corrected_read(vjoy_value as int, sdl2_read as int),
                AxisRange::spec_sdl2(),
                AxisRange::spec_vjoy(),
            ) == vjoy_value),
    {
        let corrected: i16 = if 0 <= vjoy_value && vjoy_value <= SDL2_LOW_READ_MAX {
            if sdl2_read == i16::MAX {
                return false;
            }
            sdl2_read + 1
        } else {
            sdl2_read
        };
        Self::axis_scale_sdl2_to_vjoy_unchecked(corrected) == vjoy_value
    }
}

/// From SDL2 to vJoy, scaling halves the distance from the SDL2 minimum,
/// dropping the odd half.
pub proof fn lemma_sdl2_to_vjoy_halves(value: int)
    requires
        AxisRange::spec_sdl2().contains(value),
    ensures
        spec_scale(value, AxisRange::spec_sdl2(), AxisRange::spec_vjoy()) == (value + 32768) / 2,
{
    let distance = value + 32768;
    let half = distance / 2;
    let doubled = 2 * (distance * 32767) + 65535;
    lemma_fundamental_div_mod_converse(doubled, 131070, half, doubled - half * 131070);
}

} // verus!
