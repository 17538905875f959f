//! Codec for Ctrl Reg 5: reboot/FIFO enables and the 4D-detection and
//! interrupt-latch configuration of the two interrupt lines.
//!
//! Earlier revisions of this driver encoded the 4D-detection-on-line-2
//! flag at the latch-on-line-2 offset, so that flag did not survive an
//! encode/decode trip. This codec places every field at the offset the
//! decoder reads, so the register value round-trips bit-exactly.

use crate::enabled_enum;
use crate::enabled_enum::OnOff;
use crate::spec_bit_is_set;
use vstd::prelude::*;

verus! {

pub const D4D_INT2_BIT_OFFSET: u8 = 0;

pub const LIR_INT2_BIT_OFFSET: u8 = 1;

pub const D4D_INT1_BIT_OFFSET: u8 = 2;

pub const LIR_INT1_BIT_OFFSET: u8 = 3;

pub const FIFO_EN_BIT_OFFSET: u8 = 6;

pub const BOOT_BIT_OFFSET: u8 = 7;

/// Boot mode, bit 7: normal operation or a reboot of the memory content.
#[derive(Copy, Clone, Debug, PartialEq, Eq, Structural)]
pub enum BootMode {
    NormalMode,
    RebootMemoryContent,
}

impl Default for BootMode {
    fn default() -> (r: Self)
        ensures
            r == BootMode::NormalMode,
    {
        BootMode::NormalMode
    }
}

impl BootMode {
    /// Wire value of the flag.
    pub open spec fn spec_bit(self) -> u8 {
        match self {
            BootMode::NormalMode => 0,
            BootMode::RebootMemoryContent => 1,
        }
    }
}

/// Decoded value of Ctrl Reg 5. Bits 4 and 5 are unused and always encode
/// as zero.
#[derive(Copy, Clone, Debug, PartialEq, Eq, Structural)]
pub struct CtrlReg5Value {
    pub boot: BootMode,
    pub fifo: OnOff,
    pub latch_int_on_int_1_src: OnOff,
    pub d4_detection_on_int_1: OnOff,
    pub latch_int_on_int_2_src: OnOff,
    pub d4_detection_on_int_2: OnOff,
}

impl Default for CtrlReg5Value {
    fn default() -> (r: Self)
        ensures
            r.boot == BootMode::NormalMode,
            r.fifo == OnOff::Disabled,
            r.latch_int_on_int_1_src == OnOff::Disabled,
            r.d4_detection_on_int_1 == OnOff::Disabled,
            r.latch_int_on_int_2_src == OnOff::Disabled,
            r.d4_detection_on_int_2 == OnOff::Disabled,
    {
        CtrlReg5Value {
            boot: BootMode::NormalMode,
            fifo: OnOff::Disabled,
            latch_int_on_int_1_src: OnOff::Disabled,
            d4_detection_on_int_1: OnOff::Disabled,
            latch_int_on_int_2_src: OnOff::Disabled,
            d4_detection_on_int_2: OnOff::Disabled,
        }
    }
}

impl CtrlReg5Value {
    /// The raw byte that encodes this value.
    pub open spec fn spec_raw_value(self) -> u8 {
        (self.boot.spec_bit() << BOOT_BIT_OFFSET) | (self.fifo.spec_bit() << FIFO_EN_BIT_OFFSET) | (
        self.latch_int_on_int_1_src.spec_bit() << LIR_INT1_BIT_OFFSET) | (
        self.d4_detection_on_int_1.spec_bit() << D4D_INT1_BIT_OFFSET) | (
        self.latch_int_on_int_2_src.spec_bit() << LIR_INT2_BIT_OFFSET) | (
        self.d4_detection_on_int_2.spec_bit() << D4D_INT2_BIT_OFFSET)
    }

    /// The decoded form of a raw byte; bits 4 and 5 are ignored.
    pub open spec fn spec_from_raw_value(value: u8) -> Self {
        CtrlReg5Value {
            boot: if (value >> BOOT_BIT_OFFSET) == 0 {
                BootMode::NormalMode
            } else {
                BootMode::RebootMemoryContent
            },
            fifo: enabled_enum::spec_state_from_bit_value(value >> FIFO_EN_BIT_OFFSET),
            latch_int_on_int_1_src: enabled_enum::spec_state_from_bit_value(
                value >> LIR_INT1_BIT_OFFSET,
            ),
            d4_detection_on_int_1: enabled_enum::spec_state_from_bit_value(
                value >> D4D_INT1_BIT_OFFSET,
            ),
            latch_int_on_int_2_src: enabled_enum::spec_state_from_bit_value(
                value >> LIR_INT2_BIT_OFFSET,
            ),
            d4_detection_on_int_2: enabled_enum::spec_state_from_bit_value(
                value >> D4D_INT2_BIT_OFFSET,
            ),
        }
    }

    pub fn set_boot(&mut self, boot: BootMode)
        ensures
            *final(self) == (CtrlReg5Value { boot, ..*old(self) }),
    {
        self.boot = boot;
    }

    pub fn set_fifo(&mut self, fifo: OnOff)
        ensures
            *final(self) == (CtrlReg5Value { fifo, ..*old(self) }),
    {
        self.fifo = fifo;
    }

    pub fn set_latch_int_on_int_1_src(&mut self, latch_int_on_int_1_src: OnOff)
        ensures
            *final(self) == (CtrlReg5Value { latch_int_on_int_1_src, ..*old(self) }),
    {
        self.latch_int_on_int_1_src = latch_int_on_int_1_src;
    }

    pub fn set_d4_detection_on_int_1(&mut self, d4_detection_on_int_1: OnOff)
        ensures
            *final(self) == (CtrlReg5Value { d4_detection_on_int_1, ..*old(self) }),
    {
        self.d4_detection_on_int_1 = d4_detection_on_int_1;
    }

    pub fn set_latch_int_on_int_2_src(&mut self, latch_int_on_int_2_src: OnOff)
        ensures
            *final(self) == (CtrlReg5Value { latch_int_on_int_2_src, ..*old(self) }),
    {
        self.latch_int_on_int_2_src = latch_int_on_int_2_src;
    }

    pub fn set_d4_detection_on_int_2(&mut self, d4_detection_on_int_2: OnOff)
        ensures
            *final(self) == (CtrlReg5Value { d4_detection_on_int_2, ..*old(self) }),
    {
        self.d4_detection_on_int_2 = d4_detection_on_int_2;
    }

    pub fn boot(&self) -> (r: BootMode)
        ensures
            r == self.boot,
    {
        self.boot
    }

    pub fn fifo(&self) -> (r: OnOff)
        ensures
            r == self.fifo,
    {
        self.fifo
    }

    pub fn latch_int_on_int_1_src(&self) -> (r: OnOff)
        ensures
            r == self.latch_int_on_int_1_src,
    {
        self.latch_int_on_int_1_src
    }

    pub fn d4_detection_on_int_1(&self) -> (r: OnOff)
        ensures
            r == self.d4_detection_on_int_1,
    {
        self.d4_detection_on_int_1
    }

    pub fn latch_int_on_int_2_src(&self) -> (r: OnOff)
        ensures
            r == self.latch_int_on_int_2_src,
    {
        self.latch_int_on_int_2_src
    }

    pub fn d4_detection_on_int_2(&self) -> (r: OnOff)
        ensures
            r == self.d4_detection_on_int_2,
    {
        self.d4_detection_on_int_2
    }

    /// Encodes this value as the raw register byte.
    pub fn get_raw_value(&self) -> (r: u8)
        ensures
            r == self.spec_raw_value(),
    {
        let boot: u8 = match self.boot {
            BootMode::NormalMode => 0,
            BootMode::RebootMemoryContent => 1,
        };
        (boot << BOOT_BIT_OFFSET) | (self.fifo.bit() << FIFO_EN_BIT_OFFSET) | (
        self.latch_int_on_int_1_src.bit() << LIR_INT1_BIT_OFFSET) | (
        self.d4_detection_on_int_1.bit() << D4D_INT1_BIT_OFFSET) | (
        self.latch_int_on_int_2_src.bit() << LIR_INT2_BIT_OFFSET) | (
        self.d4_detection_on_int_2.bit() << D4D_INT2_BIT_OFFSET)
    }

    /// Decodes a raw register byte.
    pub fn from_raw_value(value: u8) -> (r: Self)
        ensures
            r == Self::spec_from_raw_value(value),
    {
        CtrlReg5Value {
            boot: if (value >> BOOT_BIT_OFFSET) == 0 {
                BootMode::NormalMode
            } else {
                BootMode::RebootMemoryContent
            },
            fifo: enabled_enum::get_state_from_bit_value(value >> FIFO_EN_BIT_OFFSET),
            latch_int_on_int_1_src: enabled_enum::get_state_from_bit_value(
                value >> LIR_INT1_BIT_OFFSET,
            ),
            d4_detection_on_int_1: enabled_enum::get_state_from_bit_value(
                value >> D4D_INT1_BIT_OFFSET,
            ),
            latch_int_on_int_2_src: enabled_enum::get_state_from_bit_value(
                value >> LIR_INT2_BIT_OFFSET,
            ),
            d4_detection_on_int_2: enabled_enum::get_state_from_bit_value(
                value >> D4D_INT2_BIT_OFFSET,
            ),
        }
    }
}

/// Decoding an encoded Ctrl Reg 5 value gives the value back, for every
/// field including 4D detection on interrupt line 2.
pub proof fn lemma_ctrl_reg_5_round_trip(v: CtrlReg5Value)
    ensures
        CtrlReg5Value::spec_from_raw_value(v.spec_raw_value()) == v,
{
    let b7 = v.boot.spec_bit();
    let b6 = v.fifo.spec_bit();
    let b3 = v.latch_int_on_int_1_src.spec_bit();
    let b2 = v.d4_detection_on_int_1.spec_bit();
    let b1 = v.latch_int_on_int_2_src.spec_bit();
    let b0 = v.d4_detection_on_int_2.spec_bit();
    let e = v.spec_raw_value();
    assert(b7 <= 1 && b6 <= 1 && b3 <= 1 && b2 <= 1 && b1 <= 1 && b0 <= 1);
    assert((b7 <= 1 && b6 <= 1 && b3 <= 1 && b2 <= 1 && b1 <= 1 && b0 <= 1 && e == (b7 << 7) | (b6
        << 6) | (b3 << 3) | (b2 << 2) | (b1 << 1) | (b0 << 0)) ==> (e >> 7 == b7 && e >> 6 & 1
        == b6 && e >> 3 & 1 == b3 && e >> 2 & 1 == b2 && e >> 1 & 1 == b1 && e >> 0 & 1 == b0))
        by (bit_vector);
}

/// Each bit of the encoded byte is owned by exactly one field and bits 4
/// and 5 are never set, so changing one field never changes another
/// field's bits.
pub proof fn lemma_ctrl_reg_5_bit_isolation(v: CtrlReg5Value)
    ensures
        spec_bit_is_set(v.spec_raw_value(), 7) == (v.boot == BootMode::RebootMemoryContent),
        spec_bit_is_set(v.spec_raw_value(), 6) == (v.fifo == OnOff::Enabled),
        !spec_bit_is_set(v.spec_raw_value(), 5),
        !spec_bit_is_set(v.spec_raw_value(), 4),
        spec_bit_is_set(v.spec_raw_value(), 3) == (v.latch_int_on_int_1_src == OnOff::Enabled),
        spec_bit_is_set(v.spec_raw_value(), 2) == (v.d4_detection_on_int_1 == OnOff::Enabled),
        spec_bit_is_set(v.spec_raw_value(), 1) == (v.latch_int_on_int_2_src == OnOff::Enabled),
        spec_bit_is_set(v.spec_raw_value(), 0) == (v.d4_detection_on_int_2 == OnOff::Enabled),
{
    let b7 = v.boot.spec_bit();
    let b6 = v.fifo.spec_bit();
    let b3 = v.latch_int_on_int_1_src.spec_bit();
    let b2 = v.d4_detection_on_int_1.spec_bit();
    let b1 = v.latch_int_on_int_2_src.spec_bit();
    let b0 = v.d4_detection_on_int_2.spec_bit();
    let e = v.spec_raw_value();
    assert(b7 <= 1 && b6 <= 1 && b3 <= 1 && b2 <= 1 && b1 <= 1 && b0 <= 1);
    assert((b7 <= 1 && b6 <= 1 && b3 <= 1 && b2 <= 1 && b1 <= 1 && b0 <= 1 && e == (b7 << 7) | (b6
        << 6) | (b3 << 3) | (b2 << 2) | (b1 << 1) | (b0 << 0)) ==> (((e >> 7) & 1 == 1) == (b7
        == 1) && ((e >> 6) & 1 == 1) == (b6 == 1) && ((e >> 5) & 1 == 1) == false && ((e >> 4) & 1
        == 1) == false && ((e >> 3) & 1 == 1) == (b3 == 1) && ((e >> 2) & 1 == 1) == (b2 == 1) && (
    (e >> 1) & 1 == 1) == (b1 == 1) && ((e >> 0) & 1 == 1) == (b0 == 1))) by (bit_vector);
}

} // verus!
