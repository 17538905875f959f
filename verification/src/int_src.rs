//! Decoder for the read-only interrupt source register: per-axis low/high
//! event flags and the interrupt-active flag. Bit 7 is unused.

use crate::spec_bit_is_set;
use vstd::prelude::*;

verus! {

pub const XL_BIT_OFFSET: u8 = 0;

pub const XH_BIT_OFFSET: u8 = 1;

pub const YL_BIT_OFFSET: u8 = 2;

pub const YH_BIT_OFFSET: u8 = 3;

pub const ZL_BIT_OFFSET: u8 = 4;

pub const ZH_BIT_OFFSET: u8 = 5;

pub const IA_BIT_OFFSET: u8 = 6;

/// Decoded value of an interrupt source register.
#[derive(Copy, Clone, Debug, PartialEq, Eq, Structural)]
pub struct IntSrc {
    pub interrupt_active: bool,
    pub z_high: bool,
    pub z_low: bool,
    pub y_high: bool,
    pub y_low: bool,
    pub x_high: bool,
    pub x_low: bool,
}

impl Default for IntSrc {
    fn default() -> (r: Self)
        ensures
            r == (IntSrc {
                interrupt_active: false,
                z_high: false,
                z_low: false,
                y_high: false,
                y_low: false,
                x_high: false,
                x_low: false,
            }),
    {
        IntSrc {
            interrupt_active: false,
            z_high: false,
            z_low: false,
            y_high: false,
            y_low: false,
            x_high: false,
            x_low: false,
        }
    }
}

impl IntSrc {
    /// The decoded form of a raw byte: one event flag per bit.
    pub open spec fn spec_from_raw_value(value: u8) -> Self {
        IntSrc {
            interrupt_active: spec_bit_is_set(value, IA_BIT_OFFSET),
            z_high: spec_bit_is_set(value, ZH_BIT_OFFSET),
            z_low: spec_bit_is_set(value, ZL_BIT_OFFSET),
            y_high: spec_bit_is_set(value, YH_BIT_OFFSET),
            y_low: spec_bit_is_set(value, YL_BIT_OFFSET),
            x_high: spec_bit_is_set(value, XH_BIT_OFFSET),
            x_low: spec_bit_is_set(value, XL_BIT_OFFSET),
        }
    }

    pub fn is_interrupt_active(&self) -> (r: bool)
        ensures
            r == self.interrupt_active,
    {
        self.interrupt_active
    }

    pub fn is_z_high(&self) -> (r: bool)
        ensures
            r == self.z_high,
    {
        self.z_high
    }

    pub fn is_z_low(&self) -> (r: bool)
        ensures
            r == self.z_low,
    {
        self.z_low
    }

    pub fn is_y_high(&self) -> (r: bool)
        ensures
            r == self.y_high,
    {
        self.y_high
    }

    pub fn is_y_low(&self) -> (r: bool)
        ensures
            r == self.y_low,
    {
        self.y_low
    }

    pub fn is_x_high(&self) -> (r: bool)
        ensures
            r == self.x_high,
    {
        self.x_high
    }

    pub fn is_x_low(&self) -> (r: bool)
        ensures
            r == self.x_low,
    {
        self.x_low
    }

    /// Decodes a raw register byte.
    pub fn from_raw_value(value: u8) -> (r: Self)
        ensures
            r == Self::spec_from_raw_value(value),
    {
        IntSrc {
            interrupt_active: (value >> IA_BIT_OFFSET) & 1 == 1,
            z_high: (value >> ZH_BIT_OFFSET) & 1 == 1,
            z_low: (value >> ZL_BIT_OFFSET) & 1 == 1,
            y_high: (value >> YH_BIT_OFFSET) & 1 == 1,
            y_low: (value >> YL_BIT_OFFSET) & 1 == 1,
            x_high: (value >> XH_BIT_OFFSET) & 1 == 1,
            x_low: (value >> XL_BIT_OFFSET) & 1 == 1,
        }
    }
}

} // verus!
