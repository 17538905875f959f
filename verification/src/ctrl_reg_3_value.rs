//! Codec for Ctrl Reg 3: the interrupt-line-1 routing enables. Bit 0 is
//! unused and always encodes as zero.

use crate::enabled_enum;
use crate::enabled_enum::OnOff;
use crate::spec_bit_is_set;
use vstd::prelude::*;

verus! {

pub const OVERRUN_BIT_OFFSET: u8 = 1;

pub const WTM_BIT_OFFSET: u8 = 2;

pub const DA_321_BIT_OFFSET: u8 = 3;

pub const ZYX_DA_BIT_OFFSET: u8 = 4;

pub const IA_2_BIT_OFFSET: u8 = 5;

pub const IA_1_BIT_OFFSET: u8 = 6;

pub const CLICK_BIT_OFFSET: u8 = 7;

/// Decoded value of Ctrl Reg 3.
#[derive(Copy, Clone, Debug, PartialEq, Eq, Structural)]
pub struct CtrlReg3Value {
    pub interrupt_1_click: OnOff,
    pub interrupt_1_ia1: OnOff,
    pub interrupt_1_ia2: OnOff,
    pub interrupt_1_zyx_da: OnOff,
    pub interrupt_1_321_da: OnOff,
    pub interrupt_1_fifo_watermark: OnOff,
    pub interrupt_1_fifo_overrun: OnOff,
}

impl Default for CtrlReg3Value {
    fn default() -> (r: Self)
        ensures
            r.interrupt_1_click == OnOff::Disabled,
            r.interrupt_1_ia1 == OnOff::Disabled,
            r.interrupt_1_ia2 == OnOff::Disabled,
            r.interrupt_1_zyx_da == OnOff::Disabled,
            r.interrupt_1_321_da == OnOff::Disabled,
            r.interrupt_1_fifo_watermark == OnOff::Disabled,
            r.interrupt_1_fifo_overrun == OnOff::Disabled,
    {
        CtrlReg3Value {
            interrupt_1_click: OnOff::Disabled,
            interrupt_1_ia1: OnOff::Disabled,
            interrupt_1_ia2: OnOff::Disabled,
            interrupt_1_zyx_da: OnOff::Disabled,
            interrupt_1_321_da: OnOff::Disabled,
            interrupt_1_fifo_watermark: OnOff::Disabled,
            interrupt_1_fifo_overrun: OnOff::Disabled,
        }
    }
}

impl CtrlReg3Value {
    /// The raw byte that encodes this value.
    pub open spec fn spec_raw_value(self) -> u8 {
        (self.interrupt_1_click.spec_bit() << CLICK_BIT_OFFSET) | (self.interrupt_1_ia1.spec_bit()
            << IA_1_BIT_OFFSET) | (self.interrupt_1_ia2.spec_bit() << IA_2_BIT_OFFSET) | (
        self.interrupt_1_zyx_da.spec_bit() << ZYX_DA_BIT_OFFSET) | (
        self.interrupt_1_321_da.spec_bit() << DA_321_BIT_OFFSET) | (
        self.interrupt_1_fifo_watermark.spec_bit() << WTM_BIT_OFFSET) | (
        self.interrupt_1_fifo_overrun.spec_bit() << OVERRUN_BIT_OFFSET)
    }

    /// The decoded form of a raw byte; bit 0 is ignored.
    pub open spec fn spec_from_raw_value(value: u8) -> Self {
        CtrlReg3Value {
            interrupt_1_click: enabled_enum::spec_state_from_bit_value(value >> CLICK_BIT_OFFSET),
            interrupt_1_ia1: enabled_enum::spec_state_from_bit_value(value >> IA_1_BIT_OFFSET),
            interrupt_1_ia2: enabled_enum::spec_state_from_bit_value(value >> IA_2_BIT_OFFSET),
            interrupt_1_zyx_da: enabled_enum::spec_state_from_bit_value(value >> ZYX_DA_BIT_OFFSET),
            interrupt_1_321_da: enabled_enum::spec_state_from_bit_value(value >> DA_321_BIT_OFFSET),
            interrupt_1_fifo_watermark: enabled_enum::spec_state_from_bit_value(
                value >> WTM_BIT_OFFSET,
            ),
            interrupt_1_fifo_overrun: enabled_enum::spec_state_from_bit_value(
                value >> OVERRUN_BIT_OFFSET,
            ),
        }
    }

    pub fn set_interrupt_1_click(&mut self, interrupt_1_click: OnOff)
        ensures
            *final(self) == (CtrlReg3Value { interrupt_1_click, ..*old(self) }),
    {
        self.interrupt_1_click = interrupt_1_click;
    }

    pub fn set_interrupt_1_ia1(&mut self, interrupt_1_ia1: OnOff)
        ensures
            *final(self) == (CtrlReg3Value { interrupt_1_ia1, ..*old(self) }),
    {
        self.interrupt_1_ia1 = interrupt_1_ia1;
    }

    pub fn set_interrupt_1_ia2(&mut self, interrupt_1_ia2: OnOff)
        ensures
            *final(self) == (CtrlReg3Value { interrupt_1_ia2, ..*old(self) }),
    {
        self.interrupt_1_ia2 = interrupt_1_ia2;
    }

    pub fn set_interrupt_1_zyx_da(&mut self, interrupt_1_zyx_da: OnOff)
        ensures
            *final(self) == (CtrlReg3Value { interrupt_1_zyx_da, ..*old(self) }),
    {
        self.interrupt_1_zyx_da = interrupt_1_zyx_da;
    }

    pub fn set_interrupt_1_321_da(&mut self, interrupt_1_321_da: OnOff)
        ensures
            *final(self) == (CtrlReg3Value { interrupt_1_321_da, ..*old(self) }),
    {
        self.interrupt_1_321_da = interrupt_1_321_da;
    }

    pub fn set_interrupt_1_fifo_watermark(&mut self, interrupt_1_fifo_watermark: OnOff)
        ensures
            *final(self) == (CtrlReg3Value { interrupt_1_fifo_watermark, ..*old(self) }),
    {
        self.interrupt_1_fifo_watermark = interrupt_1_fifo_watermark;
    }

    pub fn set_interrupt_1_fifo_overrun(&mut self, interrupt_1_fifo_overrun: OnOff)
        ensures
            *final(self) == (CtrlReg3Value { interrupt_1_fifo_overrun, ..*old(self) }),
    {
        self.interrupt_1_fifo_overrun = interrupt_1_fifo_overrun;
    }

    pub fn interrupt_1_click(&self) -> (r: OnOff)
        ensures
            r == self.interrupt_1_click,
    {
        self.interrupt_1_click
    }

    pub fn interrupt_1_ia1(&self) -> (r: OnOff)
        ensures
            r == self.interrupt_1_ia1,
    {
        self.interrupt_1_ia1
    }

    pub fn interrupt_1_ia2(&self) -> (r: OnOff)
        ensures
            r == self.interrupt_1_ia2,
    {
        self.interrupt_1_ia2
    }

    pub fn interrupt_1_zyx_da(&self) -> (r: OnOff)
        ensures
            r == self.interrupt_1_zyx_da,
    {
        self.interrupt_1_zyx_da
    }

    pub fn interrupt_1_321_da(&self) -> (r: OnOff)
        ensures
            r == self.interrupt_1_321_da,
    {
        self.interrupt_1_321_da
    }

    pub fn interrupt_1_fifo_watermark(&self) -> (r: OnOff)
        ensures
            r == self.interrupt_1_fifo_watermark,
    {
        self.interrupt_1_fifo_watermark
    }

    pub fn interrupt_1_fifo_overrun(&self) -> (r: OnOff)
        ensures
            r == self.interrupt_1_fifo_overrun,
    {
        self.interrupt_1_fifo_overrun
    }

    /// Decodes a raw register byte.
    pub fn from_raw_value(value: u8) -> (r: Self)
        ensures
            r == Self::spec_from_raw_value(value),
    {
        CtrlReg3Value {
            interrupt_1_click: enabled_enum::get_state_from_bit_value(value >> CLICK_BIT_OFFSET),
            interrupt_1_ia1: enabled_enum::get_state_from_bit_value(value >> IA_1_BIT_OFFSET),
            interrupt_1_ia2: enabled_enum::get_state_from_bit_value(value >> IA_2_BIT_OFFSET),
            interrupt_1_zyx_da: enabled_enum::get_state_from_bit_value(value >> ZYX_DA_BIT_OFFSET),
            interrupt_1_321_da: enabled_enum::get_state_from_bit_value(value >> DA_321_BIT_OFFSET),
            interrupt_1_fifo_watermark: enabled_enum::get_state_from_bit_value(
                value >> WTM_BIT_OFFSET,
            ),
            interrupt_1_fifo_overrun: enabled_enum::get_state_from_bit_value(
                value >> OVERRUN_BIT_OFFSET,
            ),
        }
    }

    /// Encodes this value as the raw register byte.
    pub fn get_raw_value(&self) -> (r: u8)
        ensures
            r == self.spec_raw_value(),
    {
        (self.interrupt_1_click.bit() << CLICK_BIT_OFFSET) | (self.interrupt_1_ia1.bit()
            << IA_1_BIT_OFFSET) | (self.interrupt_1_ia2.bit() << IA_2_BIT_OFFSET) | (
        self.interrupt_1_zyx_da.bit() << ZYX_DA_BIT_OFFSET) | (self.interrupt_1_321_da.bit()
            << DA_321_BIT_OFFSET) | (self.interrupt_1_fifo_watermark.bit() << WTM_BIT_OFFSET) | (
        self.interrupt_1_fifo_overrun.bit() << OVERRUN_BIT_OFFSET)
    }
}

/// Decoding an encoded Ctrl Reg 3 value gives the value back.
pub proof fn lemma_ctrl_reg_3_round_trip(v: CtrlReg3Value)
    ensures
        CtrlReg3Value::spec_from_raw_value(v.spec_raw_value()) == v,
{
    let b7 = v.interrupt_1_click.spec_bit();
    let b6 = v.interrupt_1_ia1.spec_bit();
    let b5 = v.interrupt_1_ia2.spec_bit();
    let b4 = v.interrupt_1_zyx_da.spec_bit();
    let b3 = v.interrupt_1_321_da.spec_bit();
    let b2 = v.interrupt_1_fifo_watermark.spec_bit();
    let b1 = v.interrupt_1_fifo_overrun.spec_bit();
    let e = v.spec_raw_value();
    assert(b7 <= 1 && b6 <= 1 && b5 <= 1 && b4 <= 1 && b3 <= 1 && b2 <= 1 && b1 <= 1);
    assert((b7 <= 1 && b6 <= 1 && b5 <= 1 && b4 <= 1 && b3 <= 1 && b2 <= 1 && b1 <= 1 && e == (b7
        << 7) | (b6 << 6) | (b5 << 5) | (b4 << 4) | (b3 << 3) | (b2 << 2) | (b1 << 1)) ==> (e >> 7
        & 1 == b7 && e >> 6 & 1 == b6 && e >> 5 & 1 == b5 && e >> 4 & 1 == b4 && e >> 3 & 1 == b3
        && e >> 2 & 1 == b2 && e >> 1 & 1 == b1)) by (bit_vector);
}

/// Each bit of the encoded byte is owned by exactly one field and bit 0 is
/// never set, so changing one field never changes another field's bits.
pub proof fn lemma_ctrl_reg_3_bit_isolation(v: CtrlReg3Value)
    ensures
        spec_bit_is_set(v.spec_raw_value(), 7) == (v.interrupt_1_click == OnOff::Enabled),
        spec_bit_is_set(v.spec_raw_value(), 6) == (v.interrupt_1_ia1 == OnOff::Enabled),
        spec_bit_is_set(v.spec_raw_value(), 5) == (v.interrupt_1_ia2 == OnOff::Enabled),
        spec_bit_is_set(v.spec_raw_value(), 4) == (v.interrupt_1_zyx_da == OnOff::Enabled),
        spec_bit_is_set(v.spec_raw_value(), 3) == (v.interrupt_1_321_da == OnOff::Enabled),
        spec_bit_is_set(v.spec_raw_value(), 2) == (v.interrupt_1_fifo_watermark == OnOff::Enabled),
        spec_bit_is_set(v.spec_raw_value(), 1) == (v.interrupt_1_fifo_overrun == OnOff::Enabled),
        !spec_bit_is_set(v.spec_raw_value(), 0),
{
    let b7 = v.interrupt_1_click.spec_bit();
    let b6 = v.interrupt_1_ia1.spec_bit();
    let b5 = v.interrupt_1_ia2.spec_bit();
    let b4 = v.interrupt_1_zyx_da.spec_bit();
    let b3 = v.interrupt_1_321_da.spec_bit();
    let b2 = v.interrupt_1_fifo_watermark.spec_bit();
    let b1 = v.interrupt_1_fifo_overrun.spec_bit();
    let e = v.spec_raw_value();
    assert(b7 <= 1 && b6 <= 1 && b5 <= 1 && b4 <= 1 && b3 <= 1 && b2 <= 1 && b1 <= 1);
    assert((b7 <= 1 && b6 <= 1 && b5 <= 1 && b4 <= 1 && b3 <= 1 && b2 <= 1 && b1 <= 1 && e == (b7
        << 7) | (b6 << 6) | (b5 << 5) | (b4 << 4) | (b3 << 3) | (b2 << 2) | (b1 << 1)) ==> (((e
        >> 7) & 1 == 1) == (b7 == 1) && ((e >> 6) & 1 == 1) == (b6 == 1) && ((e >> 5) & 1 == 1) == (
    b5 == 1) && ((e >> 4) & 1 == 1) == (b4 == 1) && ((e >> 3) & 1 == 1) == (b3 == 1) && ((e >> 2)
        & 1 == 1) == (b2 == 1) && ((e >> 1) & 1 == 1) == (b1 == 1) && ((e >> 0) & 1 == 1) == false))
        by (bit_vector);
}

} // verus!
