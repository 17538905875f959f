//! Operating-mode derivation and conversion of raw acceleration samples
//! into physical units.
//!
//! The operating mode follows from two bits spread over two registers:
//! the low-power select of Ctrl Reg 1 and the high-resolution enable of
//! Ctrl Reg 4. Raw samples are right-aligned by a mode-dependent shift
//! and scaled by a multiplier picked from a fixed table keyed by mode and
//! full-scale range, yielding milli-g counts.

use crate::ctrl_reg_4_value::FullScaleSelection;
use vstd::prelude::*;

verus! {

/// The operating mode of the device.
#[derive(Copy, Clone, Debug, PartialEq, Eq, Structural)]
pub enum Mode {
    /// High-resolution mode (12-bit data output)
    HighResolution,
    /// Normal mode (10-bit data output)
    Normal,
    /// Low-power mode (8-bit data output)
    LowPower,
}

/// The mode denoted by the low-power and high-resolution register bits;
/// both bits set is an illegal device state with no defined mode.
pub open spec fn spec_mode_from_register_flags(
    low_power_enabled: bool,
    high_resolution_enabled: bool,
) -> Option<Mode> {
    match (low_power_enabled, high_resolution_enabled) {
        (true, false) => Some(Mode::LowPower),
        (false, false) => Some(Mode::Normal),
        (false, true) => Some(Mode::HighResolution),
        (true, true) => None,
    }
}

/// Derives the operating mode from the low-power select bit of Ctrl Reg 1
/// and the high-resolution enable bit of Ctrl Reg 4. The combination with
/// both bits set is rejected, never coerced to a default mode.
pub fn mode_from_register_flags(low_power_enabled: bool, high_resolution_enabled: bool) -> (r:
    Option<Mode>)
    ensures
        r == spec_mode_from_register_flags(low_power_enabled, high_resolution_enabled),
        r matches Some(_) <==> !(low_power_enabled && high_resolution_enabled),
{
    match (low_power_enabled, high_resolution_enabled) {
        (true, false) => Some(Mode::LowPower),
        (false, false) => Some(Mode::Normal),
        (false, true) => Some(Mode::HighResolution),
        (true, true) => None,
    }
}

/// How far a raw 16-bit sample is right-shifted in each mode: the device
/// left-aligns 12, 10 or 8 significant bits and pads the rest with zeros.
pub open spec fn spec_sample_shift(mode: Mode) -> u8 {
    match mode {
        Mode::HighResolution => 4,
        Mode::Normal => 6,
        Mode::LowPower => 8,
    }
}

/// Executable counterpart of [`spec_sample_shift`].
pub fn sample_shift(mode: Mode) -> (r: u8)
    ensures
        r == spec_sample_shift(mode),
{
    match mode {
        Mode::HighResolution => 4,
        Mode::Normal => 6,
        Mode::LowPower => 8,
    }
}

/// The power of two a raw sample is divided by in each mode; dividing by
/// it is the arithmetic right shift by [`spec_sample_shift`].
pub open spec fn spec_shift_divisor(mode: Mode) -> int {
    match mode {
        Mode::HighResolution => 16,
        Mode::Normal => 64,
        Mode::LowPower => 256,
    }
}

/// Milli-g per least significant bit of a shifted sample, for every pair
/// of operating mode and full-scale range.
pub open spec fn spec_scale_multiplier(mode: Mode, range: FullScaleSelection) -> u8 {
    match (mode, range) {
        (Mode::HighResolution, FullScaleSelection::Gravity2G) => 1,
        (Mode::HighResolution, FullScaleSelection::Gravity4G) => 1,
        (Mode::HighResolution, FullScaleSelection::Gravity8G) => 4,
        (Mode::HighResolution, FullScaleSelection::Gravity16G) => 12,
        (Mode::Normal, FullScaleSelection::Gravity2G) => 4,
        (Mode::Normal, FullScaleSelection::Gravity4G) => 8,
        (Mode::Normal, FullScaleSelection::Gravity8G) => 16,
        (Mode::Normal, FullScaleSelection::Gravity16G) => 48,
        (Mode::LowPower, FullScaleSelection::Gravity2G) => 16,
        (Mode::LowPower, FullScaleSelection::Gravity4G) => 32,
        (Mode::LowPower, FullScaleSelection::Gravity8G) => 64,
        (Mode::LowPower, FullScaleSelection::Gravity16G) => 192,
    }
}

/// Executable counterpart of [`spec_scale_multiplier`]: defined for all
/// twelve pairs of mode and range.
pub fn scale_multiplier(mode: Mode, range: FullScaleSelection) -> (r: u8)
    ensures
        r == spec_scale_multiplier(mode, range),
{
    match (mode, range) {
        (Mode::HighResolution, FullScaleSelection::Gravity2G) => 1,
        (Mode::HighResolution, FullScaleSelection::Gravity4G) => 1,
        (Mode::HighResolution, FullScaleSelection::Gravity8G) => 4,
        (Mode::HighResolution, FullScaleSelection::Gravity16G) => 12,
        (Mode::Normal, FullScaleSelection::Gravity2G) => 4,
        (Mode::Normal, FullScaleSelection::Gravity4G) => 8,
        (Mode::Normal, FullScaleSelection::Gravity8G) => 16,
        (Mode::Normal, FullScaleSelection::Gravity16G) => 48,
        (Mode::LowPower, FullScaleSelection::Gravity2G) => 16,
        (Mode::LowPower, FullScaleSelection::Gravity4G) => 32,
        (Mode::LowPower, FullScaleSelection::Gravity8G) => 64,
        (Mode::LowPower, FullScaleSelection::Gravity16G) => 192,
    }
}

/// The signed 16-bit sample assembled little-endian from two register
/// bytes, as a mathematical integer.
pub open spec fn spec_accel_value(low: u8, high: u8) -> int {
    if high < 128 {
        high * 256 + low
    } else {
        high * 256 + low - 65536
    }
}

/// Assembles a raw axis sample from its low and high register bytes,
/// little-endian, two's complement.
pub fn accel_value_from_bytes(low: u8, high: u8) -> (r: i16)
    ensures
        r as int == spec_accel_value(low, high),
{
    let unsigned: u16 = (high as u16) * 256 + (low as u16);
    if unsigned < 32768 {
        unsigned as i16
    } else {
        ((unsigned as i32) - 65536) as i16
    }
}

/// The normalized value of one axis: the raw sample, stripped of its
/// mode-dependent padding bits by a flooring division, times the milli-g
/// multiplier of the mode/range pair.
pub open spec fn spec_normalized_axis(raw: int, mode: Mode, range: FullScaleSelection) -> int {
    (raw / spec_shift_divisor(mode)) * spec_scale_multiplier(mode, range)
}

/// Converts one raw axis sample into milli-g counts for the given mode
/// and full-scale range.
pub fn normalize_axis(raw: i16, mode: Mode, range: FullScaleSelection) -> (r: i32)
    ensures
        r == spec_normalized_axis(raw as int, mode, range),
{
    let divisor: u32 = match mode {
        Mode::HighResolution => 16,
        Mode::Normal => 64,
        Mode::LowPower => 256,
    };
    let quotient: i32 = if raw >= 0 {
        proof {
            lemma_div_bounds(raw as int, divisor as int);
        }
        ((raw as u32) / divisor) as i32
    } else {
        let magnitude: u32 = (-(raw as i32)) as u32;
        proof {
            lemma_floor_div_negative(-(raw as int), divisor as int);
            lemma_div_bounds(magnitude + divisor - 1, divisor as int);
        }
        -(((magnitude + (divisor - 1)) / divisor) as i32)
    };
    let multiplier: i32 = scale_multiplier(mode, range) as i32;
    proof {
        assert(-33023 <= quotient <= 32767 && 0 <= multiplier <= 192);
        assert((-33023 <= quotient <= 32767 && 0 <= multiplier <= 192) ==> (-6340416 <= quotient
            * multiplier <= 6291264)) by (nonlinear_arith);
    }
    quotient * multiplier
}

/// The flooring quotient of a nonnegative value lies between zero and the
/// value itself.
proof fn lemma_div_bounds(n: int, d: int)
    requires
        n >= 0,
        d >= 1,
    ensures
        0 <= n / d <= n,
{
    assert(0 <= n / d <= n) by (nonlinear_arith)
        requires
            n >= 0,
            d >= 1,
    ;
}

/// For a positive magnitude `n` and divisor `d`, the flooring quotient of
/// `-n` is the negated rounding-up quotient of `n`.
proof fn lemma_floor_div_negative(n: int, d: int)
    requires
        n >= 1,
        d >= 1,
    ensures
        (-n) / d == -((n + d - 1) / d),
    decreases n,
{
    if n <= d {
        assert((-n) / d == -1 && (n + d - 1) / d == 1) by (nonlinear_arith)
            requires
                1 <= n <= d,
        ;
    } else {
        lemma_floor_div_negative(n - d, d);
        assert((-n) / d == (-(n - d)) / d - 1 && (n + d - 1) / d == ((n - d) + d - 1) / d + 1)
            by (nonlinear_arith)
            requires
                n > d >= 1,
        ;
    }
}

/// Raw acceleration samples for the three axes, in device counts.
#[derive(Copy, Clone, Debug, PartialEq, Eq, Structural)]
pub struct RawAcceleration {
    pub x: i16,
    pub y: i16,
    pub z: i16,
}

/// Normalized acceleration for the three axes, in milli-g counts.
#[derive(Copy, Clone, Debug, PartialEq, Eq, Structural)]
pub struct NormalizedAcceleration {
    pub x: i32,
    pub y: i32,
    pub z: i32,
}

/// Converts the three raw axis samples into milli-g counts for the given
/// mode and full-scale range.
pub fn normalize_acceleration(raw: RawAcceleration, mode: Mode, range: FullScaleSelection) -> (r:
    NormalizedAcceleration)
    ensures
        r.x == spec_normalized_axis(raw.x as int, mode, range),
        r.y == spec_normalized_axis(raw.y as int, mode, range),
        r.z == spec_normalized_axis(raw.z as int, mode, range),
{
    NormalizedAcceleration {
        x: normalize_axis(raw.x, mode, range),
        y: normalize_axis(raw.y, mode, range),
        z: normalize_axis(raw.z, mode, range),
    }
}

} // verus!
