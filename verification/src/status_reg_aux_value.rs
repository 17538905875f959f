//! Decoder for the read-only auxiliary status register: new-data and
//! overrun flags for the three auxiliary ADC channels.

use crate::spec_bit_is_set;
use vstd::prelude::*;

verus! {

pub const NEW_DATA_ON_1_AXIS_BIT_OFFSET: u8 = 0;

pub const NEW_DATA_ON_2_AXIS_BIT_OFFSET: u8 = 1;

pub const NEW_DATA_ON_3_AXIS_BIT_OFFSET: u8 = 2;

pub const NEW_DATA_ON_3_2_1_AXIS_BIT_OFFSET: u8 = 3;

pub const OVERRUN_ON_1_AXIS_BIT_OFFSET: u8 = 4;

pub const OVERRUN_ON_2_AXIS_BIT_OFFSET: u8 = 5;

pub const OVERRUN_ON_3_AXIS_BIT_OFFSET: u8 = 6;

pub const OVERRUN_ON_3_2_1_AXIS_BIT_OFFSET: u8 = 7;

/// Decoded value of the auxiliary status register.
#[derive(Copy, Clone, Debug, PartialEq, Eq, Structural)]
pub struct StatusRegAuxValue {
    pub new_data_on1axis: bool,
    pub new_data_on2axis: bool,
    pub new_data_on3axis: bool,
    pub new_data_on3_2_1axis: bool,
    pub overrun_on1axis: bool,
    pub overrun_on2axis: bool,
    pub overrun_on3axis: bool,
    pub overrun_on3_2_1axis: bool,
    pub overrun_or_new_data: bool,
}

impl Default for StatusRegAuxValue {
    fn default() -> (r: Self)
        ensures
            r == (StatusRegAuxValue {
                new_data_on1axis: false,
                new_data_on2axis: false,
                new_data_on3axis: false,
                new_data_on3_2_1axis: false,
                overrun_on1axis: false,
                overrun_on2axis: false,
                overrun_on3axis: false,
                overrun_on3_2_1axis: false,
                overrun_or_new_data: false,
            }),
    {
        StatusRegAuxValue {
            new_data_on1axis: false,
            new_data_on2axis: false,
            new_data_on3axis: false,
            new_data_on3_2_1axis: false,
            overrun_on1axis: false,
            overrun_on2axis: false,
            overrun_on3axis: false,
            overrun_on3_2_1axis: false,
            overrun_or_new_data: false,
        }
    }
}

impl StatusRegAuxValue {
    /// The decoded form of a raw byte: one flag per bit, plus a summary
    /// flag that is set when any bit of the byte is.
    pub open spec fn spec_from_raw_value(value: u8) -> Self {
        StatusRegAuxValue {
            new_data_on1axis: spec_bit_is_set(value, NEW_DATA_ON_1_AXIS_BIT_OFFSET),
            new_data_on2axis: spec_bit_is_set(value, NEW_DATA_ON_2_AXIS_BIT_OFFSET),
            new_data_on3axis: spec_bit_is_set(value, NEW_DATA_ON_3_AXIS_BIT_OFFSET),
            new_data_on3_2_1axis: spec_bit_is_set(value, NEW_DATA_ON_3_2_1_AXIS_BIT_OFFSET),
            overrun_on1axis: spec_bit_is_set(value, OVERRUN_ON_1_AXIS_BIT_OFFSET),
            overrun_on2axis: spec_bit_is_set(value, OVERRUN_ON_2_AXIS_BIT_OFFSET),
            overrun_on3axis: spec_bit_is_set(value, OVERRUN_ON_3_AXIS_BIT_OFFSET),
            overrun_on3_2_1axis: spec_bit_is_set(value, OVERRUN_ON_3_2_1_AXIS_BIT_OFFSET),
            overrun_or_new_data: value > 0,
        }
    }

    pub fn has_overrun_or_new_data(&self) -> (r: bool)
        ensures
            r == self.overrun_or_new_data,
    {
        self.overrun_or_new_data
    }

    pub fn has_new_data_on1axis(&self) -> (r: bool)
        ensures
            r == self.new_data_on1axis,
    {
        self.new_data_on1axis
    }

    pub fn has_new_data_on2axis(&self) -> (r: bool)
        ensures
            r == self.new_data_on2axis,
    {
        self.new_data_on2axis
    }

    pub fn has_new_data_on3axis(&self) -> (r: bool)
        ensures
            r == self.new_data_on3axis,
    {
        self.new_data_on3axis
    }

    pub fn has_new_data_on3_2_1axis(&self) -> (r: bool)
        ensures
            r == self.new_data_on3_2_1axis,
    {
        self.new_data_on3_2_1axis
    }

    pub fn has_overrun_on1axis(&self) -> (r: bool)
        ensures
            r == self.overrun_on1axis,
    {
        self.overrun_on1axis
    }

    pub fn has_overrun_on2axis(&self) -> (r: bool)
        ensures
            r == self.overrun_on2axis,
    {
        self.overrun_on2axis
    }

    pub fn has_overrun_on3axis(&self) -> (r: bool)
        ensures
            r == self.overrun_on3axis,
    {
        self.overrun_on3axis
    }

    pub fn has_overrun_on3_2_1axis(&self) -> (r: bool)
        ensures
            r == self.overrun_on3_2_1axis,
    {
        self.overrun_on3_2_1axis
    }

    /// Decodes a raw register byte.
    pub fn from_raw_value(value: u8) -> (r: Self)
        ensures
            r == Self::spec_from_raw_value(value),
    {
        StatusRegAuxValue {
            new_data_on1axis: crate::check_if_bit_is_set(value, NEW_DATA_ON_1_AXIS_BIT_OFFSET),
            new_data_on2axis: crate::check_if_bit_is_set(value, NEW_DATA_ON_2_AXIS_BIT_OFFSET),
            new_data_on3axis: crate::check_if_bit_is_set(value, NEW_DATA_ON_3_AXIS_BIT_OFFSET),
            new_data_on3_2_1axis: crate::check_if_bit_is_set(
                value,
                NEW_DATA_ON_3_2_1_AXIS_BIT_OFFSET,
            ),
            overrun_on1axis: crate::check_if_bit_is_set(value, OVERRUN_ON_1_AXIS_BIT_OFFSET),
            overrun_on2axis: crate::check_if_bit_is_set(value, OVERRUN_ON_2_AXIS_BIT_OFFSET),
            overrun_on3axis: crate::check_if_bit_is_set(value, OVERRUN_ON_3_AXIS_BIT_OFFSET),
            overrun_on3_2_1axis: crate::check_if_bit_is_set(value, OVERRUN_ON_3_2_1_AXIS_BIT_OFFSET),
            overrun_or_new_data: value > 0,
        }
    }
}

} // verus!
