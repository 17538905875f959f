//! Codec for the temperature/ADC configuration register: the temperature
//! sensor enable in bit 6 and the ADC enable in bit 7.

use crate::enabled_enum::OnOff;
use crate::spec_bit_is_set;
use vstd::prelude::*;

verus! {

pub const TEMP_EN_BIT_OFFSET: u8 = 6;

pub const ADC_EN_BIT_OFFSET: u8 = 7;

/// Decoded value of the temperature/ADC configuration register.
#[derive(Copy, Clone, Debug, PartialEq, Eq, Structural)]
pub struct TempCfgRegValue {
    pub temp: OnOff,
    pub adc: OnOff,
}

impl Default for TempCfgRegValue {
    fn default() -> (r: Self)
        ensures
            r.temp == OnOff::Disabled,
            r.adc == OnOff::Disabled,
    {
        TempCfgRegValue { temp: OnOff::Disabled, adc: OnOff::Disabled }
    }
}

impl TempCfgRegValue {
    /// The raw byte that encodes this value.
    pub open spec fn spec_raw_value(self) -> u8 {
        (self.adc.spec_bit() << ADC_EN_BIT_OFFSET) | (self.temp.spec_bit() << TEMP_EN_BIT_OFFSET)
    }

    /// The decoded form of a raw byte; the low six bits are ignored.
    pub open spec fn spec_from_raw_value(value: u8) -> Self {
        TempCfgRegValue {
            temp: if value >> TEMP_EN_BIT_OFFSET & 1 == 1 {
                OnOff::Enabled
            } else {
                OnOff::Disabled
            },
            adc: if value >> ADC_EN_BIT_OFFSET & 1 == 1 {
                OnOff::Enabled
            } else {
                OnOff::Disabled
            },
        }
    }

    pub fn set_temp(&mut self, temp: OnOff)
        ensures
            *final(self) == (TempCfgRegValue { temp, ..*old(self) }),
    {
        self.temp = temp;
    }

    pub fn set_adc(&mut self, adc: OnOff)
        ensures
            *final(self) == (TempCfgRegValue { adc, ..*old(self) }),
    {
        self.adc = adc;
    }

    pub fn temp(&self) -> (r: OnOff)
        ensures
            r == self.temp,
    {
        self.temp
    }

    pub fn adc(&self) -> (r: OnOff)
        ensures
            r == self.adc,
    {
        self.adc
    }

    /// Decodes a raw register byte.
    pub fn from_raw_value(value: u8) -> (r: Self)
        ensures
            r == Self::spec_from_raw_value(value),
    {
        let temp = if value >> TEMP_EN_BIT_OFFSET & 1 == 1 {
            OnOff::Enabled
        } else {
            OnOff::Disabled
        };
        let adc = if value >> ADC_EN_BIT_OFFSET & 1 == 1 {
            OnOff::Enabled
        } else {
            OnOff::Disabled
        };
        TempCfgRegValue { temp, adc }
    }

    /// Encodes this value as the raw register byte.
    pub fn get_raw_value(&self) -> (r: u8)
        ensures
            r == self.spec_raw_value(),
    {
        (self.adc.bit() << ADC_EN_BIT_OFFSET) | (self.temp.bit() << TEMP_EN_BIT_OFFSET)
    }
}

/// Decoding an encoded temperature/ADC configuration gives the value back.
pub proof fn lemma_temp_cfg_reg_value_round_trip(v: TempCfgRegValue)
    ensures
        TempCfgRegValue::spec_from_raw_value(v.spec_raw_value()) == v,
{
    let a = v.adc.spec_bit();
    let t = v.temp.spec_bit();
    let e = v.spec_raw_value();
    assert(a <= 1 && t <= 1);
    assert((a <= 1 && t <= 1 && e == (a << 7) | (t << 6)) ==> (e >> 7 & 1 == a && e >> 6 & 1 == t))
        by (bit_vector);
}

/// Each bit of the encoded byte is owned by exactly one field and the low
/// six bits are never set, so changing one field never changes another
/// field's bits.
pub proof fn lemma_temp_cfg_reg_value_bit_isolation(v: TempCfgRegValue)
    ensures
        spec_bit_is_set(v.spec_raw_value(), 7) == (v.adc == OnOff::Enabled),
        spec_bit_is_set(v.spec_raw_value(), 6) == (v.temp == OnOff::Enabled),
        v.spec_raw_value() & 0b0011_1111 == 0,
{
    let a = v.adc.spec_bit();
    let t = v.temp.spec_bit();
    let e = v.spec_raw_value();
    assert(a <= 1 && t <= 1);
    assert((a <= 1 && t <= 1 && e == (a << 7) | (t << 6)) ==> (((e >> 7) & 1 == 1) == (a == 1) && ((
    e >> 6) & 1 == 1) == (t == 1) && e & 0b0011_1111 == 0)) by (bit_vector);
}

} // verus!
