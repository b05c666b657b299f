//! Volumes as the bit patterns of single-precision floating-point numbers.
//!
//! A volume lies between silence and full strength. Numbers that are not
//! negative are ordered as their bit patterns are, so the bounds can be kept
//! without floating-point arithmetic.

use vstd::prelude::*;

verus! {

/// The pattern of `0.0`.
pub const SILENT: u32 = 0;

/// The pattern of `1.0`.
pub const FULL: u32 = 0x3f80_0000;

/// The pattern of `-0.0`, the least one with the sign bit set.
pub const MINUS_ZERO: u32 = 0x8000_0000;

/// The pattern of positive infinity: what lies above it, up to the sign bit, is
/// no number.
pub const INFINITE: u32 = 0x7f80_0000;

/// The pattern of `0.7`, the volume of a fresh installation.
pub const DEFAULT_VOLUME: u32 = 0x3f33_3333;

/// Whether the pattern stands for no number at all.
pub open spec fn is_nan(bits: u32) -> bool {
    INFINITE < bits < MINUS_ZERO || bits > MINUS_ZERO + INFINITE
}

/// Whether the pattern stands for a finite number.
pub open spec fn is_finite(bits: u32) -> bool {
    bits < INFINITE || MINUS_ZERO <= bits < MINUS_ZERO + INFINITE
}

/// The number brought between `0.0` and `1.0`. What is no number stays, and so
/// does `-0.0`, which is not less than `0.0`.
pub open spec fn clamped(bits: u32) -> u32 {
    if is_nan(bits) {
        bits
    } else if bits > MINUS_ZERO {
        SILENT
    } else if FULL < bits < MINUS_ZERO {
        FULL
    } else {
        bits
    }
}

/// Brings a volume between silence and full strength.
pub fn clamp_unit(bits: u32) -> (r: u32)
    ensures
        r == clamped(bits),
{
    if (INFINITE < bits && bits < MINUS_ZERO) || bits > MINUS_ZERO + INFINITE {
        bits
    } else if bits > MINUS_ZERO {
        SILENT
    } else if FULL < bits && bits < MINUS_ZERO {
        FULL
    } else {
        bits
    }
}

/// The volume that a setting asks for: clamped where it is a finite number, else
/// the default.
pub open spec fn sane(bits: u32) -> u32 {
    if is_finite(bits) {
        clamped(bits)
    } else {
        DEFAULT_VOLUME
    }
}

/// The volume that a setting asks for.
pub fn sane_volume(bits: u32) -> (r: u32)
    ensures
        r == sane(bits),
{
    if bits < INFINITE || (MINUS_ZERO <= bits && bits < MINUS_ZERO + INFINITE) {
        clamp_unit(bits)
    } else {
        DEFAULT_VOLUME
    }
}

/// A sane volume lies between silence and full strength, and is left alone when
/// it is made sane again.
pub proof fn sane_volumes_are_in_bounds(bits: u32)
    ensures
        sane(bits) <= FULL || sane(bits) == MINUS_ZERO,
        sane(sane(bits)) == sane(bits),
{
}

/// A volume within its bounds stays as it is, a larger one becomes full, and a negative one
/// silent; what is no number becomes the usual volume.
pub proof fn volumes_are_kept_within_bounds(bits: u32)
    ensures
        bits <= 0x3f80_0000 ==> clamped(bits) == bits && sane(bits) == bits,
        0x3f80_0000 < bits <= 0x7f80_0000 ==> clamped(bits) == 0x3f80_0000,
        0x8000_0000 < bits <= 0xff80_0000 ==> clamped(bits) == 0,
        0x3f80_0000 < bits < 0x7f80_0000 ==> sane(bits) == 0x3f80_0000,
        0x7f80_0000 <= bits < 0x8000_0000 ==> sane(bits) == DEFAULT_VOLUME,
{
}

} // verus!
