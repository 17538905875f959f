//! Codec for Ctrl Reg 4: SPI wire mode, self-test selection, the
//! high-resolution output enable, full-scale selection, output endianness
//! and the block-data-update mode.

use crate::DecodeError;
use crate::enabled_enum::OnOff;
use crate::spec_bit_is_set;
use vstd::prelude::*;

verus! {

pub const SELF_TEST_BIT_OFFSET: u8 = 1;

pub const HIGH_RESOLUTION_OUTPUT_MODE_BIT_OFFSET: u8 = 3;

pub const FULL_SCALE_SELECTION_OUTPUT_MODE_BIT_OFFSET: u8 = 4;

pub const BLE_SETTING_BIT_OFFSET: u8 = 6;

pub const BDU_SETTING_BIT_OFFSET: u8 = 7;

/// SPI wire mode, bit 0.
#[derive(Copy, Clone, Debug, PartialEq, Eq, Structural)]
pub enum SpiModeSelection {
    FourWireInterface,
    ThreeWireInterface,
}

impl Default for SpiModeSelection {
    fn default() -> (r: Self)
        ensures
            r == SpiModeSelection::FourWireInterface,
    {
        SpiModeSelection::FourWireInterface
    }
}

impl SpiModeSelection {
    /// Wire value of the flag.
    pub open spec fn spec_bit(self) -> u8 {
        match self {
            SpiModeSelection::FourWireInterface => 0,
            SpiModeSelection::ThreeWireInterface => 1,
        }
    }
}

/// Self-test selection, bits 1..3; the field value 3 has no defined
/// variant.
#[derive(Copy, Clone, Debug, PartialEq, Eq, Structural)]
pub enum SelfTest {
    NormalMode,
    SelfTest0,
    SelfTest1,
}

impl Default for SelfTest {
    fn default() -> (r: Self)
        ensures
            r == SelfTest::NormalMode,
    {
        SelfTest::NormalMode
    }
}

impl SelfTest {
    /// Wire value of the field, 0 through 2.
    pub open spec fn spec_bits(self) -> u8 {
        match self {
            SelfTest::NormalMode => 0,
            SelfTest::SelfTest0 => 1,
            SelfTest::SelfTest1 => 2,
        }
    }

    /// The variant denoted by a wire value; the value 3 has no defined
    /// variant.
    pub open spec fn spec_from_bits(bits: u8) -> Option<SelfTest> {
        if bits == 0 {
            Some(SelfTest::NormalMode)
        } else if bits == 1 {
            Some(SelfTest::SelfTest0)
        } else if bits == 2 {
            Some(SelfTest::SelfTest1)
        } else {
            None
        }
    }

    /// Executable counterpart of [`SelfTest::spec_bits`].
    pub fn bits(self) -> (r: u8)
        ensures
            r == self.spec_bits(),
    {
        match self {
            SelfTest::NormalMode => 0,
            SelfTest::SelfTest0 => 1,
            SelfTest::SelfTest1 => 2,
        }
    }

    /// Executable counterpart of [`SelfTest::spec_from_bits`].
    pub fn from_bits(bits: u8) -> (r: Option<SelfTest>)
        ensures
            r == Self::spec_from_bits(bits),
            r matches Some(_) <==> bits <= 2,
    {
        match bits {
            0 => Some(SelfTest::NormalMode),
            1 => Some(SelfTest::SelfTest0),
            2 => Some(SelfTest::SelfTest1),
            _ => None,
        }
    }
}

/// Full-scale selection, bits 4..6.
#[derive(Copy, Clone, Debug, PartialEq, Eq, Structural)]
pub enum FullScaleSelection {
    Gravity2G,
    Gravity4G,
    Gravity8G,
    Gravity16G,
}

impl Default for FullScaleSelection {
    fn default() -> (r: Self)
        ensures
            r == FullScaleSelection::Gravity2G,
    {
        FullScaleSelection::Gravity2G
    }
}

impl FullScaleSelection {
    /// Wire value of the field, 0 through 3.
    pub open spec fn spec_bits(self) -> u8 {
        match self {
            FullScaleSelection::Gravity2G => 0,
            FullScaleSelection::Gravity4G => 1,
            FullScaleSelection::Gravity8G => 2,
            FullScaleSelection::Gravity16G => 3,
        }
    }

    /// The variant denoted by a two-bit wire value.
    pub open spec fn spec_from_bits(bits: u8) -> Self
        recommends
            bits <= 3,
    {
        if bits == 0 {
            FullScaleSelection::Gravity2G
        } else if bits == 1 {
            FullScaleSelection::Gravity4G
        } else if bits == 2 {
            FullScaleSelection::Gravity8G
        } else {
            FullScaleSelection::Gravity16G
        }
    }

    /// Executable counterpart of [`FullScaleSelection::spec_bits`].
    pub fn bits(self) -> (r: u8)
        ensures
            r == self.spec_bits(),
    {
        match self {
            FullScaleSelection::Gravity2G => 0,
            FullScaleSelection::Gravity4G => 1,
            FullScaleSelection::Gravity8G => 2,
            FullScaleSelection::Gravity16G => 3,
        }
    }

    /// Executable counterpart of [`FullScaleSelection::spec_from_bits`].
    pub fn from_bits(bits: u8) -> (r: Self)
        requires
            bits <= 3,
        ensures
            r == Self::spec_from_bits(bits),
    {
        if bits == 0 {
            FullScaleSelection::Gravity2G
        } else if bits == 1 {
            FullScaleSelection::Gravity4G
        } else if bits == 2 {
            FullScaleSelection::Gravity8G
        } else {
            FullScaleSelection::Gravity16G
        }
    }
}

/// Byte order of the two-byte output values, bit 6.
#[derive(Copy, Clone, Debug, PartialEq, Eq, Structural)]
pub enum Endianness {
    LSBLowerAddress,
    MSBLowerAddress,
}

impl Default for Endianness {
    fn default() -> (r: Self)
        ensures
            r == Endianness::LSBLowerAddress,
    {
        Endianness::LSBLowerAddress
    }
}

impl Endianness {
    /// Wire value of the flag.
    pub open spec fn spec_bit(self) -> u8 {
        match self {
            Endianness::LSBLowerAddress => 0,
            Endianness::MSBLowerAddress => 1,
        }
    }
}

/// Block-data-update mode, bit 7: continuous update versus holding the
/// output registers until both bytes were read.
#[derive(Copy, Clone, Debug, PartialEq, Eq, Structural)]
pub enum BlockDataUpdate {
    ContinuousUpdate,
    NotUpdated,
}

impl Default for BlockDataUpdate {
    fn default() -> (r: Self)
        ensures
            r == BlockDataUpdate::ContinuousUpdate,
    {
        BlockDataUpdate::ContinuousUpdate
    }
}

impl BlockDataUpdate {
    /// Wire value of the flag.
    pub open spec fn spec_bit(self) -> u8 {
        match self {
            BlockDataUpdate::ContinuousUpdate => 0,
            BlockDataUpdate::NotUpdated => 1,
        }
    }
}

/// Decoded value of Ctrl Reg 4.
#[derive(Copy, Clone, Debug, PartialEq, Eq, Structural)]
pub struct CtrlReg4Value {
    pub sim: SpiModeSelection,
    pub st: SelfTest,
    pub hr: OnOff,
    pub fs: FullScaleSelection,
    pub ble: Endianness,
    pub bdu: BlockDataUpdate,
}

impl Default for CtrlReg4Value {
    fn default() -> (r: Self)
        ensures
            r.sim == SpiModeSelection::FourWireInterface,
            r.st == SelfTest::NormalMode,
            r.hr == OnOff::Disabled,
            r.fs == FullScaleSelection::Gravity2G,
            r.ble == Endianness::LSBLowerAddress,
            r.bdu == BlockDataUpdate::ContinuousUpdate,
    {
        CtrlReg4Value {
            sim: SpiModeSelection::FourWireInterface,
            st: SelfTest::NormalMode,
            hr: OnOff::Disabled,
            fs: FullScaleSelection::Gravity2G,
            ble: Endianness::LSBLowerAddress,
            bdu: BlockDataUpdate::ContinuousUpdate,
        }
    }
}

impl CtrlReg4Value {
    /// The raw byte that encodes this value.
    pub open spec fn spec_raw_value(self) -> u8 {
        (self.bdu.spec_bit() << BDU_SETTING_BIT_OFFSET) | (self.ble.spec_bit()
            << BLE_SETTING_BIT_OFFSET) | (self.fs.spec_bits()
            << FULL_SCALE_SELECTION_OUTPUT_MODE_BIT_OFFSET) | (self.hr.spec_bit()
            << HIGH_RESOLUTION_OUTPUT_MODE_BIT_OFFSET) | (self.st.spec_bits()
            << SELF_TEST_BIT_OFFSET) | self.sim.spec_bit()
    }

    /// The decoded form of a raw byte. Decoding fails exactly when the
    /// self-test field holds the undefined value 3.
    pub open spec fn spec_from_raw_value(value: u8) -> Result<Self, DecodeError> {
        match SelfTest::spec_from_bits((value & 0b110) >> SELF_TEST_BIT_OFFSET) {
            Some(st) => Ok(
                CtrlReg4Value {
                    sim: if value & 1 == 1 {
                        SpiModeSelection::ThreeWireInterface
                    } else {
                        SpiModeSelection::FourWireInterface
                    },
                    st,
                    hr: if (value >> HIGH_RESOLUTION_OUTPUT_MODE_BIT_OFFSET) & 1 == 1 {
                        OnOff::Enabled
                    } else {
                        OnOff::Disabled
                    },
                    fs: FullScaleSelection::spec_from_bits(
                        (value & 0b0011_0000) >> FULL_SCALE_SELECTION_OUTPUT_MODE_BIT_OFFSET,
                    ),
                    ble: if value >> BLE_SETTING_BIT_OFFSET & 1 == 1 {
                        Endianness::MSBLowerAddress
                    } else {
                        Endianness::LSBLowerAddress
                    },
                    bdu: if value >> BDU_SETTING_BIT_OFFSET & 1 == 1 {
                        BlockDataUpdate::NotUpdated
                    } else {
                        BlockDataUpdate::ContinuousUpdate
                    },
                },
            ),
            None => Err(DecodeError::SelfTestOutOfRange),
        }
    }

    pub fn set_sim(&mut self, sim: SpiModeSelection)
        ensures
            *final(self) == (CtrlReg4Value { sim, ..*old(self) }),
    {
        self.sim = sim;
    }

    pub fn set_st(&mut self, st: SelfTest)
        ensures
            *final(self) == (CtrlReg4Value { st, ..*old(self) }),
    {
        self.st = st;
    }

    pub fn set_hr(&mut self, hr: OnOff)
        ensures
            *final(self) == (CtrlReg4Value { hr, ..*old(self) }),
    {
        self.hr = hr;
    }

    pub fn set_fs(&mut self, fs: FullScaleSelection)
        ensures
            *final(self) == (CtrlReg4Value { fs, ..*old(self) }),
    {
        self.fs = fs;
    }

    pub fn set_ble(&mut self, ble: Endianness)
        ensures
            *final(self) == (CtrlReg4Value { ble, ..*old(self) }),
    {
        self.ble = ble;
    }

    pub fn set_bdu(&mut self, bdu: BlockDataUpdate)
        ensures
            *final(self) == (CtrlReg4Value { bdu, ..*old(self) }),
    {
        self.bdu = bdu;
    }

    pub fn sim(&self) -> (r: SpiModeSelection)
        ensures
            r == self.sim,
    {
        self.sim
    }

    pub fn st(&self) -> (r: SelfTest)
        ensures
            r == self.st,
    {
        self.st
    }

    pub fn hr(&self) -> (r: OnOff)
        ensures
            r == self.hr,
    {
        self.hr
    }

    pub fn fs(&self) -> (r: FullScaleSelection)
        ensures
            r == self.fs,
    {
        self.fs
    }

    pub fn ble(&self) -> (r: Endianness)
        ensures
            r == self.ble,
    {
        self.ble
    }

    pub fn bdu(&self) -> (r: BlockDataUpdate)
        ensures
            r == self.bdu,
    {
        self.bdu
    }

    /// Encodes this value as the raw register byte.
    pub fn get_raw_value(&self) -> (r: u8)
        ensures
            r == self.spec_raw_value(),
    {
        let bdu: u8 = match self.bdu {
            BlockDataUpdate::ContinuousUpdate => 0,
            BlockDataUpdate::NotUpdated => 1,
        };
        let ble: u8 = match self.ble {
            Endianness::LSBLowerAddress => 0,
            Endianness::MSBLowerAddress => 1,
        };
        let fs: u8 = self.fs.bits();
        let hr: u8 = self.hr.bit();
        let st: u8 = self.st.bits();
        let sim: u8 = match self.sim {
            SpiModeSelection::FourWireInterface => 0,
            SpiModeSelection::ThreeWireInterface => 1,
        };
        (bdu << BDU_SETTING_BIT_OFFSET) | (ble << BLE_SETTING_BIT_OFFSET) | (fs
            << FULL_SCALE_SELECTION_OUTPUT_MODE_BIT_OFFSET) | (hr
            << HIGH_RESOLUTION_OUTPUT_MODE_BIT_OFFSET) | (st << SELF_TEST_BIT_OFFSET) | sim
    }

    /// Decodes a raw register byte; reports an error when the self-test
    /// field holds the undefined value 3.
    pub fn from_raw_value(value: u8) -> (r: Result<Self, DecodeError>)
        ensures
            r == Self::spec_from_raw_value(value),
            r matches Ok(_) <==> (value & 0b110) >> SELF_TEST_BIT_OFFSET <= 2,
    {
        let sim = if value & 1 == 1 {
            SpiModeSelection::ThreeWireInterface
        } else {
            SpiModeSelection::FourWireInterface
        };
        let hr = if (value >> HIGH_RESOLUTION_OUTPUT_MODE_BIT_OFFSET) & 1 == 1 {
            OnOff::Enabled
        } else {
            OnOff::Disabled
        };
        proof {
            assert((value & 0b0011_0000) >> 4u8 <= 3) by (bit_vector);
        }
        let fs = FullScaleSelection::from_bits(
            (value & 0b0011_0000) >> FULL_SCALE_SELECTION_OUTPUT_MODE_BIT_OFFSET,
        );
        let ble = if value >> BLE_SETTING_BIT_OFFSET & 1 == 1 {
            Endianness::MSBLowerAddress
        } else {
            Endianness::LSBLowerAddress
        };
        let bdu = if value >> BDU_SETTING_BIT_OFFSET & 1 == 1 {
            BlockDataUpdate::NotUpdated
        } else {
            BlockDataUpdate::ContinuousUpdate
        };
        match SelfTest::from_bits((value & 0b110) >> SELF_TEST_BIT_OFFSET) {
            Some(st) => Ok(CtrlReg4Value { sim, st, hr, fs, ble, bdu }),
            None => Err(DecodeError::SelfTestOutOfRange),
        }
    }
}

/// Decoding an encoded Ctrl Reg 4 value always succeeds, since the encoder
/// never writes the undefined self-test value, and gives the value back.
pub proof fn lemma_ctrl_reg_4_round_trip(v: CtrlReg4Value)
    ensures
        CtrlReg4Value::spec_from_raw_value(v.spec_raw_value()) == Ok::<CtrlReg4Value, DecodeError>(
            v,
        ),
{
    let u = v.bdu.spec_bit();
    let l = v.ble.spec_bit();
    let f = v.fs.spec_bits();
    let h = v.hr.spec_bit();
    let s = v.st.spec_bits();
    let m = v.sim.spec_bit();
    let e = v.spec_raw_value();
    assert(u <= 1 && l <= 1 && f <= 3 && h <= 1 && s <= 2 && m <= 1);
    assert((u <= 1 && l <= 1 && f <= 3 && h <= 1 && s <= 2 && m <= 1 && e == (u << 7) | (l << 6) | (
    f << 4) | (h << 3) | (s << 1) | m) ==> (e & 1 == m && (e & 0b110) >> 1 == s && e >> 3 & 1 == h
        && (e & 0b0011_0000) >> 4 == f && e >> 6 & 1 == l && e >> 7 & 1 == u)) by (bit_vector);
}

/// Each bit of the encoded byte is owned by exactly one field, so changing
/// one field never changes another field's bits.
pub proof fn lemma_ctrl_reg_4_bit_isolation(v: CtrlReg4Value)
    ensures
        spec_bit_is_set(v.spec_raw_value(), 0) == (v.sim == SpiModeSelection::ThreeWireInterface),
        (v.spec_raw_value() & 0b110) >> 1 == v.st.spec_bits(),
        spec_bit_is_set(v.spec_raw_value(), 3) == (v.hr == OnOff::Enabled),
        (v.spec_raw_value() & 0b0011_0000) >> 4 == v.fs.spec_bits(),
        spec_bit_is_set(v.spec_raw_value(), 6) == (v.ble == Endianness::MSBLowerAddress),
        spec_bit_is_set(v.spec_raw_value(), 7) == (v.bdu == BlockDataUpdate::NotUpdated),
{
    let u = v.bdu.spec_bit();
    let l = v.ble.spec_bit();
    let f = v.fs.spec_bits();
    let h = v.hr.spec_bit();
    let s = v.st.spec_bits();
    let m = v.sim.spec_bit();
    let e = v.spec_raw_value();
    assert(u <= 1 && l <= 1 && f <= 3 && h <= 1 && s <= 2 && m <= 1);
    assert((u <= 1 && l <= 1 && f <= 3 && h <= 1 && s <= 2 && m <= 1 && e == (u << 7) | (l << 6) | (
    f << 4) | (h << 3) | (s << 1) | m) ==> (((e >> 0) & 1 == 1) == (m == 1) && (e & 0b110) >> 1
        == s && ((e >> 3) & 1 == 1) == (h == 1) && (e & 0b0011_0000) >> 4 == f && ((e >> 6) & 1
        == 1) == (l == 1) && ((e >> 7) & 1 == 1) == (u == 1))) by (bit_vector);
}

} // verus!
