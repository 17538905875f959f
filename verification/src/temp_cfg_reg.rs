//! An alternative decoded view of the temperature/ADC configuration
//! register, with a dedicated enable enumeration per field.

use vstd::prelude::*;

verus! {

pub const TEMP_EN_BIT_OFFSET: u8 = 6;

pub const ADC_EN_BIT_OFFSET: u8 = 7;

/// Temperature sensor enable, bit 6.
#[derive(Copy, Clone, Debug, PartialEq, Eq, Structural)]
pub enum TempEn {
    TemperatureDisabled,
    TemperatureEnabled,
}

impl Default for TempEn {
    fn default() -> (r: Self)
        ensures
            r == TempEn::TemperatureDisabled,
    {
        TempEn::TemperatureDisabled
    }
}

impl TempEn {
    /// Wire value of the flag.
    pub open spec fn spec_bit(self) -> u8 {
        match self {
            TempEn::TemperatureDisabled => 0,
            TempEn::TemperatureEnabled => 1,
        }
    }
}

/// ADC enable, bit 7.
#[derive(Copy, Clone, Debug, PartialEq, Eq, Structural)]
pub enum AdcEn {
    AdcDisabled,
    AdcEnabled,
}

impl Default for AdcEn {
    fn default() -> (r: Self)
        ensures
            r == AdcEn::AdcDisabled,
    {
        AdcEn::AdcDisabled
    }
}

impl AdcEn {
    /// Wire value of the flag.
    pub open spec fn spec_bit(self) -> u8 {
        match self {
            AdcEn::AdcDisabled => 0,
            AdcEn::AdcEnabled => 1,
        }
    }
}

/// Decoded value of the temperature/ADC configuration register.
#[derive(Copy, Clone, Debug, PartialEq, Eq, Structural)]
pub struct TempCfgReg {
    pub temp: TempEn,
    pub adc: AdcEn,
}

impl Default for TempCfgReg {
    fn default() -> (r: Self)
        ensures
            r.temp == TempEn::TemperatureDisabled,
            r.adc == AdcEn::AdcDisabled,
    {
        TempCfgReg { temp: TempEn::TemperatureDisabled, adc: AdcEn::AdcDisabled }
    }
}

impl TempCfgReg {
    /// The raw byte that encodes this value.
    pub open spec fn spec_raw_value(self) -> u8 {
        (self.adc.spec_bit() << ADC_EN_BIT_OFFSET) | (self.temp.spec_bit() << TEMP_EN_BIT_OFFSET)
    }

    /// The decoded form of a raw byte; the low six bits are ignored.
    pub open spec fn spec_from_raw_value(value: u8) -> Self {
        TempCfgReg {
            temp: if value >> TEMP_EN_BIT_OFFSET & 1 == 1 {
                TempEn::TemperatureEnabled
            } else {
                TempEn::TemperatureDisabled
            },
            adc: if value >> ADC_EN_BIT_OFFSET & 1 == 1 {
                AdcEn::AdcEnabled
            } else {
                AdcEn::AdcDisabled
            },
        }
    }

    /// Decodes a raw register byte.
    pub fn from_raw_value(value: u8) -> (r: Self)
        ensures
            r == Self::spec_from_raw_value(value),
    {
        let temp = if value >> TEMP_EN_BIT_OFFSET & 1 == 1 {
            TempEn::TemperatureEnabled
        } else {
            TempEn::TemperatureDisabled
        };
        let adc = if value >> ADC_EN_BIT_OFFSET & 1 == 1 {
            AdcEn::AdcEnabled
        } else {
            AdcEn::AdcDisabled
        };
        TempCfgReg { temp, adc }
    }

    /// Encodes this value as the raw register byte.
    pub fn get_raw_value(&self) -> (r: u8)
        ensures
            r == self.spec_raw_value(),
    {
        let adc: u8 = match self.adc {
            AdcEn::AdcDisabled => 0,
            AdcEn::AdcEnabled => 1,
        };
        let temp: u8 = match self.temp {
            TempEn::TemperatureDisabled => 0,
            TempEn::TemperatureEnabled => 1,
        };
        (adc << ADC_EN_BIT_OFFSET) | (temp << TEMP_EN_BIT_OFFSET)
    }
}

/// Decoding an encoded configuration gives the value back.
pub proof fn lemma_temp_cfg_reg_round_trip(v: TempCfgReg)
    ensures
        TempCfgReg::spec_from_raw_value(v.spec_raw_value()) == v,
{
    let a = v.adc.spec_bit();
    let t = v.temp.spec_bit();
    let e = v.spec_raw_value();
    assert(a <= 1 && t <= 1);
    assert((a <= 1 && t <= 1 && e == (a << 7) | (t << 6)) ==> (e >> 7 & 1 == a && e >> 6 & 1 == t))
        by (bit_vector);
}

/// Each bit of the encoded byte is owned by exactly one field and the low
/// six bits are never set, so changing one field never changes another
/// field's bits.
pub proof fn lemma_temp_cfg_reg_bit_isolation(v: TempCfgReg)
    ensures
        crate::spec_bit_is_set(v.spec_raw_value(), 7) == (v.adc == AdcEn::AdcEnabled),
        crate::spec_bit_is_set(v.spec_raw_value(), 6) == (v.temp == TempEn::TemperatureEnabled),
        v.spec_raw_value() & 0b0011_1111 == 0,
{
    let a = v.adc.spec_bit();
    let t = v.temp.spec_bit();
    let e = v.spec_raw_value();
    assert(a <= 1 && t <= 1);
    assert((a <= 1 && t <= 1 && e == (a << 7) | (t << 6)) ==> (((e >> 7) & 1 == 1) == (a == 1) && ((
    e >> 6) & 1 == 1) == (t == 1) && e & 0b0011_1111 == 0)) by (bit_vector);
}

} // verus!
