//! Codec for Ctrl Reg 0: bit 7 selects the SDO/SA0 pull-up, bits 0..7 carry
//! a fixed reserved pattern.

use crate::enabled_enum;
use crate::enabled_enum::OnOff;
use crate::spec_bit_is_set;
use vstd::prelude::*;

verus! {

/// Reserved pattern that the low seven bits of Ctrl Reg 0 must always hold.
pub const CTRL_REG_0_DEFAULT_VALUE_LOWER_7_BIT: u8 = 0b001_0000;

/// Bit position of the pull-up-connected flag.
pub const PULL_UP_CONFIG_BIT_OFFSET: u8 = 7;

/// Decoded value of Ctrl Reg 0.
#[derive(Copy, Clone, Debug, PartialEq, Eq, Structural)]
pub struct CtrlReg0Value {
    pub pull_up_connected_sdo_sa_0_pin: OnOff,
}

impl Default for CtrlReg0Value {
    fn default() -> (r: Self)
        ensures
            r.pull_up_connected_sdo_sa_0_pin == OnOff::Disabled,
    {
        CtrlReg0Value { pull_up_connected_sdo_sa_0_pin: OnOff::Disabled }
    }
}

impl CtrlReg0Value {
    /// The raw byte that encodes this value: the pull-up flag in bit 7,
    /// the reserved pattern in the low bits.
    pub open spec fn spec_raw_value(self) -> u8 {
        (self.pull_up_connected_sdo_sa_0_pin.spec_bit() << PULL_UP_CONFIG_BIT_OFFSET)
            | CTRL_REG_0_DEFAULT_VALUE_LOWER_7_BIT
    }

    /// The decoded form of a raw byte: only bit 7 is significant.
    pub open spec fn spec_from_raw_value(value: u8) -> Self {
        CtrlReg0Value {
            pull_up_connected_sdo_sa_0_pin: enabled_enum::spec_state_from_bit_value(
                value >> PULL_UP_CONFIG_BIT_OFFSET,
            ),
        }
    }

    pub fn set_pull_up_connected_sdo_sa_0_pin(
        &mut self,
        pull_up_connected_sdo_sa_0_pin: OnOff,
    )
        ensures
            final(self).pull_up_connected_sdo_sa_0_pin == pull_up_connected_sdo_sa_0_pin,
    {
        self.pull_up_connected_sdo_sa_0_pin = pull_up_connected_sdo_sa_0_pin;
    }

    pub fn pull_up_connected_sdo_sa_0_pin(&self) -> (r: OnOff)
        ensures
            r == self.pull_up_connected_sdo_sa_0_pin,
    {
        self.pull_up_connected_sdo_sa_0_pin
    }

    /// Encodes this value as the raw register byte.
    pub fn get_raw_value(&self) -> (r: u8)
        ensures
            r == self.spec_raw_value(),
    {
        (self.pull_up_connected_sdo_sa_0_pin.bit() << PULL_UP_CONFIG_BIT_OFFSET)
            | CTRL_REG_0_DEFAULT_VALUE_LOWER_7_BIT
    }

    /// Decodes a raw register byte.
    pub fn from_raw_value(value: u8) -> (r: Self)
        ensures
            r == Self::spec_from_raw_value(value),
    {
        CtrlReg0Value {
            pull_up_connected_sdo_sa_0_pin: enabled_enum::get_state_from_bit_value(
                value >> PULL_UP_CONFIG_BIT_OFFSET,
            ),
        }
    }
}

/// Decoding an encoded Ctrl Reg 0 value gives the value back.
pub proof fn lemma_ctrl_reg_0_round_trip(v: CtrlReg0Value)
    ensures
        CtrlReg0Value::spec_from_raw_value(v.spec_raw_value()) == v,
{
    let b = v.pull_up_connected_sdo_sa_0_pin.spec_bit();
    assert(b <= 1);
    assert(b <= 1 ==> (((b << 7) | 0b001_0000u8) >> 7) & 1 == b) by (bit_vector);
}

/// Each bit of the encoded byte is owned by exactly one field: bit 7 follows
/// the pull-up flag and the low seven bits hold the reserved pattern, so
/// changing the flag never touches any other bit.
pub proof fn lemma_ctrl_reg_0_bit_isolation(v: CtrlReg0Value)
    ensures
        spec_bit_is_set(v.spec_raw_value(), 7) == (v.pull_up_connected_sdo_sa_0_pin
            == OnOff::Enabled),
        v.spec_raw_value() & 0b0111_1111 == CTRL_REG_0_DEFAULT_VALUE_LOWER_7_BIT,
{
    let b = v.pull_up_connected_sdo_sa_0_pin.spec_bit();
    assert(b <= 1);
    assert(b <= 1 ==> ((((b << 7) | 0b001_0000u8) >> 7) & 1 == b && ((b << 7) | 0b001_0000u8)
        & 0b0111_1111 == 0b001_0000u8)) by (bit_vector);
}

} // verus!
