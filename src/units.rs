//! Sizes, positions and the scale factor between logical and physical pixels, in fixed point.
//!
//! Logical lengths are counted in thousandths of a device-independent pixel, physical positions in
//! thousandths of a pixel, physical sizes in whole pixels, and the scale factor in billionths.
//! A conversion rounds to the nearest unit, halves away from zero, and saturates at the bounds
//! of its result type.

use vstd::prelude::*;

verus! {

/// The scale factor 1.0, in billionths.
pub const SCALE_ONE: u64 = 1_000_000_000;

/// Two scale factors closer than this many billionths count as equal.
pub const SCALE_EPSILON: u64 = 1_000;

/// Thousandths of a unit per unit.
pub const MILLI: u64 = 1_000;

/// The ratio of physical to logical pixels, in billionths: 1.5 is `ScaleFactor { nanos: 1_500_000_000 }`.
#[derive(Debug, Clone, Copy, PartialEq, Eq, Hash, Structural)]
pub struct ScaleFactor {
    pub nanos: u64,
}

impl ScaleFactor {
    /// A scale factor is usable when it is positive.
    pub open spec fn is_valid(self) -> bool {
        self.nanos > 0
    }

    /// The scale factor 1.0.
    pub fn one() -> (r: ScaleFactor)
        ensures
            r.nanos == SCALE_ONE,
    {
        ScaleFactor { nanos: SCALE_ONE }
    }
}

/// Whether two scale factors differ by at least the tolerance.
pub open spec fn scales_differ(a: ScaleFactor, b: ScaleFactor) -> bool {
    a.nanos >= b.nanos + SCALE_EPSILON || b.nanos >= a.nanos + SCALE_EPSILON
}

/// Returns whether two scale factors differ by at least the tolerance.
pub fn scale_changed(old: ScaleFactor, new: ScaleFactor) -> (r: bool)
    ensures
        r == scales_differ(old, new),
{
    if new.nanos >= old.nanos {
        new.nanos - old.nanos >= SCALE_EPSILON
    } else {
        old.nanos - new.nanos >= SCALE_EPSILON
    }
}

/// A size in thousandths of a device-independent pixel.
#[derive(Debug, Clone, Copy, PartialEq, Eq, Hash, Default, Structural)]
pub struct LogicalSize {
    pub width: u64,
    pub height: u64,
}

/// A size in pixels.
#[derive(Debug, Clone, Copy, PartialEq, Eq, Hash, Default, Structural)]
pub struct PhysicalSize {
    pub width: u32,
    pub height: u32,
}

/// A position in thousandths of a device-independent pixel.
#[derive(Debug, Clone, Copy, PartialEq, Eq, Hash, Default, Structural)]
pub struct LogicalPosition {
    pub x: i64,
    pub y: i64,
}

/// A position in thousandths of a pixel.
#[derive(Debug, Clone, Copy, PartialEq, Eq, Hash, Default, Structural)]
pub struct PhysicalPosition {
    pub x: i64,
    pub y: i64,
}

/// `n / d` rounded to the nearest integer, halves up.
pub open spec fn round_div(n: nat, d: nat) -> nat
    recommends
        d > 0,
{
    (n / d + if 2 * (n % d) >= d { 1nat } else { 0nat }) as nat
}

/// `v` held within the range of `u32`.
pub open spec fn clamp_u32(v: nat) -> u32 {
    if v > u32::MAX { u32::MAX } else { v as u32 }
}

/// `v` held within the range of `i64`.
pub open spec fn clamp_i64(v: int) -> i64 {
    if v > i64::MAX { i64::MAX } else if v < i64::MIN { i64::MIN } else { v as i64 }
}

/// A logical length in pixels at a scale factor.
pub open spec fn length_to_physical(length: u64, scale: ScaleFactor) -> u32 {
    clamp_u32(round_div(length as nat * scale.nanos as nat, (MILLI * SCALE_ONE) as nat))
}

/// A logical size in pixels at a scale factor.
pub open spec fn size_to_physical(size: LogicalSize, scale: ScaleFactor) -> PhysicalSize {
    PhysicalSize {
        width: length_to_physical(size.width, scale),
        height: length_to_physical(size.height, scale),
    }
}

/// A pixel length taken to logical units at one scale factor and back to pixels at another.
pub open spec fn length_rescaled(length: u32, from: ScaleFactor, to: ScaleFactor) -> u32 {
    clamp_u32(round_div(length as nat * to.nanos as nat, from.nanos as nat))
}

/// A pixel size taken to logical units at one scale factor and back to pixels at another.
pub open spec fn size_rescaled(size: PhysicalSize, from: ScaleFactor, to: ScaleFactor) -> PhysicalSize {
    PhysicalSize {
        width: length_rescaled(size.width, from, to),
        height: length_rescaled(size.height, from, to),
    }
}

/// A logical coordinate in physical thousandths at a scale factor, rounded halves away from zero.
pub open spec fn coordinate_to_physical(c: i64, scale: ScaleFactor) -> i64 {
    if c >= 0 {
        clamp_i64(round_div(c as nat * scale.nanos as nat, SCALE_ONE as nat) as int)
    } else {
        clamp_i64(-(round_div((-c) as nat * scale.nanos as nat, SCALE_ONE as nat) as int))
    }
}

/// A logical position in physical thousandths at a scale factor.
pub open spec fn position_to_physical(p: LogicalPosition, scale: ScaleFactor) -> PhysicalPosition {
    PhysicalPosition {
        x: coordinate_to_physical(p.x, scale),
        y: coordinate_to_physical(p.y, scale),
    }
}

/// Divides and rounds to the nearest integer, halves up.
fn div_round(n: u128, d: u128) -> (r: u128)
    requires
        d > 0,
        d <= 0x8000_0000_0000_0000_0000_0000_0000_0000u128,
    ensures
        r == round_div(n as nat, d as nat),
{
    let q = n / d;
    let rem = n % d;
    if 2 * rem >= d {
        assert(q + 1 <= u128::MAX) by (nonlinear_arith)
            requires
                q == n / d,
                rem == n % d,
                2 * rem >= d,
                d > 0,
                n <= u128::MAX,
        ;
        q + 1
    } else {
        q
    }
}

fn saturate_u32(v: u128) -> (r: u32)
    ensures
        r == clamp_u32(v as nat),
{
    if v > u32::MAX as u128 { u32::MAX } else { v as u32 }
}

/// Converts a logical length to pixels at a scale factor.
pub fn to_physical_length(length: u64, scale: ScaleFactor) -> (r: u32)
    ensures
        r == length_to_physical(length, scale),
{
    let a = length as u128;
    let b = scale.nanos as u128;
    assert(a * b <= 0xffff_ffff_ffff_ffffu128 * 0xffff_ffff_ffff_ffffu128) by (nonlinear_arith)
        requires
            a <= 0xffff_ffff_ffff_ffffu128,
            b <= 0xffff_ffff_ffff_ffffu128,
    ;
    saturate_u32(div_round(a * b, 1_000_000_000_000u128))
}

/// Converts a logical size to pixels at a scale factor.
pub fn to_physical_size(size: LogicalSize, scale: ScaleFactor) -> (r: PhysicalSize)
    ensures
        r == size_to_physical(size, scale),
{
    PhysicalSize {
        width: to_physical_length(size.width, scale),
        height: to_physical_length(size.height, scale),
    }
}

/// Converts a pixel length at one scale factor to pixels at another.
pub fn rescale_length(length: u32, from: ScaleFactor, to: ScaleFactor) -> (r: u32)
    requires
        from.is_valid(),
    ensures
        r == length_rescaled(length, from, to),
{
    let a = length as u128;
    let b = to.nanos as u128;
    assert(a * b <= 0xffff_ffff_ffff_ffffu128 * 0xffff_ffff_ffff_ffffu128) by (nonlinear_arith)
        requires
            a <= 0xffff_ffff_ffff_ffffu128,
            b <= 0xffff_ffff_ffff_ffffu128,
    ;
    saturate_u32(div_round(a * b, from.nanos as u128))
}

/// Converts a pixel size at one scale factor to pixels at another.
pub fn rescale_size(size: PhysicalSize, from: ScaleFactor, to: ScaleFactor) -> (r: PhysicalSize)
    requires
        from.is_valid(),
    ensures
        r == size_rescaled(size, from, to),
{
    PhysicalSize {
        width: rescale_length(size.width, from, to),
        height: rescale_length(size.height, from, to),
    }
}

/// Converts a logical coordinate to physical thousandths at a scale factor.
pub fn to_physical_coordinate(c: i64, scale: ScaleFactor) -> (r: i64)
    ensures
        r == coordinate_to_physical(c, scale),
{
    let magnitude: u128 = if c >= 0 { c as u128 } else { (-(c as i128)) as u128 };
    let b = scale.nanos as u128;
    assert(magnitude * b <= 0x8000_0000_0000_0000u128 * 0xffff_ffff_ffff_ffffu128)
        by (nonlinear_arith)
        requires
            magnitude <= 0x8000_0000_0000_0000u128,
            b <= 0xffff_ffff_ffff_ffffu128,
    ;
    let m = div_round(magnitude * b, SCALE_ONE as u128);
    if c >= 0 {
        if m > i64::MAX as u128 { i64::MAX } else { m as i64 }
    } else {
        if m > 0x8000_0000_0000_0000u128 { i64::MIN } else { (-(m as i128)) as i64 }
    }
}

/// Converts a logical position to physical thousandths at a scale factor.
pub fn to_physical_position(p: LogicalPosition, scale: ScaleFactor) -> (r: PhysicalPosition)
    ensures
        r == position_to_physical(p, scale),
{
    PhysicalPosition {
        x: to_physical_coordinate(p.x, scale),
        y: to_physical_coordinate(p.y, scale),
    }
}

} // verus!
