//! Codec for Ctrl Reg 1: per-axis enables, the power-mode select bit and
//! the output-data-rate field.

use crate::DecodeError;
use crate::spec_bit_is_set;
use vstd::prelude::*;

verus! {

pub const Y_EN_BIT_OFFSET: u8 = 1;

pub const Z_EN_BIT_OFFSET: u8 = 2;

pub const L_P_EN_BIT_OFFSET: u8 = 3;

pub const DATA_RATE_SELECTION_BIT_OFFSET: u8 = 4;

/// X-axis enable, bit 0.
#[derive(Copy, Clone, Debug, PartialEq, Eq, Structural)]
pub enum XEn {
    XAxisDisabled,
    XAxisEnabled,
}

impl Default for XEn {
    fn default() -> (r: Self)
        ensures
            r == XEn::XAxisEnabled,
    {
        XEn::XAxisEnabled
    }
}

impl XEn {
    /// Wire value of the flag: 0 when disabled, 1 when enabled.
    pub open spec fn spec_bit(self) -> u8 {
        match self {
            XEn::XAxisDisabled => 0,
            XEn::XAxisEnabled => 1,
        }
    }
}

/// Y-axis enable, bit 1.
#[derive(Copy, Clone, Debug, PartialEq, Eq, Structural)]
pub enum YEn {
    YAxisDisabled,
    YAxisEnabled,
}

impl Default for YEn {
    fn default() -> (r: Self)
        ensures
            r == YEn::YAxisEnabled,
    {
        YEn::YAxisEnabled
    }
}

impl YEn {
    /// Wire value of the flag: 0 when disabled, 1 when enabled.
    pub open spec fn spec_bit(self) -> u8 {
        match self {
            YEn::YAxisDisabled => 0,
            YEn::YAxisEnabled => 1,
        }
    }
}

/// Z-axis enable, bit 2.
#[derive(Copy, Clone, Debug, PartialEq, Eq, Structural)]
pub enum ZEn {
    ZAxisDisabled,
    ZAxisEnabled,
}

impl Default for ZEn {
    fn default() -> (r: Self)
        ensures
            r == ZEn::ZAxisEnabled,
    {
        ZEn::ZAxisEnabled
    }
}

impl ZEn {
    /// Wire value of the flag: 0 when disabled, 1 when enabled.
    pub open spec fn spec_bit(self) -> u8 {
        match self {
            ZEn::ZAxisDisabled => 0,
            ZEn::ZAxisEnabled => 1,
        }
    }
}

/// Low-power versus high-resolution/normal select, bit 3.
#[derive(Copy, Clone, Debug, PartialEq, Eq, Structural)]
pub enum LPEn {
    LowPowerEnabled,
    HighResolutionNormalMode,
}

impl Default for LPEn {
    fn default() -> (r: Self)
        ensures
            r == LPEn::LowPowerEnabled,
    {
        LPEn::LowPowerEnabled
    }
}

impl LPEn {
    /// Value placed in bit 3 by the encoder. Note that the decoder reads
    /// the opposite polarity; see [`lemma_ctrl_reg_1_round_trip`].
    pub open spec fn spec_bit(self) -> u8 {
        match self {
            LPEn::LowPowerEnabled => 0,
            LPEn::HighResolutionNormalMode => 1,
        }
    }
}

/// Output-data-rate selection, bits 4..8.
#[derive(Copy, Clone, Debug, PartialEq, Eq, Structural)]
pub enum ODR {
    PowerDownMode,
    Hz1,
    Hz10,
    Hz25,
    Hz50,
    Hz100,
    Hz200,
    Hz400,
    LowPowerMode1Point6kHz,
    HrNormal1Pont344kHzLowPower5Point376kHz,
}

impl Default for ODR {
    fn default() -> (r: Self)
        ensures
            r == ODR::PowerDownMode,
    {
        ODR::PowerDownMode
    }
}

impl ODR {
    /// Wire value of the field, 0 through 9.
    pub open spec fn spec_bits(self) -> u8 {
        match self {
            ODR::PowerDownMode => 0,
            ODR::Hz1 => 1,
            ODR::Hz10 => 2,
            ODR::Hz25 => 3,
            ODR::Hz50 => 4,
            ODR::Hz100 => 5,
            ODR::Hz200 => 6,
            ODR::Hz400 => 7,
            ODR::LowPowerMode1Point6kHz => 8,
            ODR::HrNormal1Pont344kHzLowPower5Point376kHz => 9,
        }
    }

    /// The variant denoted by a wire value; field values above 9 have no
    /// defined variant.
    pub open spec fn spec_from_bits(bits: u8) -> Option<ODR> {
        if bits == 0 {
            Some(ODR::PowerDownMode)
        } else if bits == 1 {
            Some(ODR::Hz1)
        } else if bits == 2 {
            Some(ODR::Hz10)
        } else if bits == 3 {
            Some(ODR::Hz25)
        } else if bits == 4 {
            Some(ODR::Hz50)
        } else if bits == 5 {
            Some(ODR::Hz100)
        } else if bits == 6 {
            Some(ODR::Hz200)
        } else if bits == 7 {
            Some(ODR::Hz400)
        } else if bits == 8 {
            Some(ODR::LowPowerMode1Point6kHz)
        } else if bits == 9 {
            Some(ODR::HrNormal1Pont344kHzLowPower5Point376kHz)
        } else {
            None
        }
    }

    /// Executable counterpart of [`ODR::spec_bits`].
    pub fn bits(self) -> (r: u8)
        ensures
            r == self.spec_bits(),
    {
        match self {
            ODR::PowerDownMode => 0,
            ODR::Hz1 => 1,
            ODR::Hz10 => 2,
            ODR::Hz25 => 3,
            ODR::Hz50 => 4,
            ODR::Hz100 => 5,
            ODR::Hz200 => 6,
            ODR::Hz400 => 7,
            ODR::LowPowerMode1Point6kHz => 8,
            ODR::HrNormal1Pont344kHzLowPower5Point376kHz => 9,
        }
    }

    /// Executable counterpart of [`ODR::spec_from_bits`].
    pub fn from_bits(bits: u8) -> (r: Option<ODR>)
        ensures
            r == Self::spec_from_bits(bits),
            r matches Some(_) <==> bits <= 9,
    {
        match bits {
            0 => Some(ODR::PowerDownMode),
            1 => Some(ODR::Hz1),
            2 => Some(ODR::Hz10),
            3 => Some(ODR::Hz25),
            4 => Some(ODR::Hz50),
            5 => Some(ODR::Hz100),
            6 => Some(ODR::Hz200),
            7 => Some(ODR::Hz400),
            8 => Some(ODR::LowPowerMode1Point6kHz),
            9 => Some(ODR::HrNormal1Pont344kHzLowPower5Point376kHz),
            _ => None,
        }
    }
}

/// Decoded value of Ctrl Reg 1.
#[derive(Copy, Clone, Debug, PartialEq, Eq, Structural)]
pub struct CtrlReg1Value {
    pub x_en: XEn,
    pub y_en: YEn,
    pub z_en: ZEn,
    pub l_p_en: LPEn,
    pub output_data_rate: ODR,
}

impl Default for CtrlReg1Value {
    fn default() -> (r: Self)
        ensures
            r.x_en == XEn::XAxisEnabled,
            r.y_en == YEn::YAxisEnabled,
            r.z_en == ZEn::ZAxisEnabled,
            r.l_p_en == LPEn::LowPowerEnabled,
            r.output_data_rate == ODR::PowerDownMode,
    {
        CtrlReg1Value {
            x_en: XEn::XAxisEnabled,
            y_en: YEn::YAxisEnabled,
            z_en: ZEn::ZAxisEnabled,
            l_p_en: LPEn::LowPowerEnabled,
            output_data_rate: ODR::PowerDownMode,
        }
    }
}

impl CtrlReg1Value {
    /// The raw byte that encodes this value.
    pub open spec fn spec_raw_value(self) -> u8 {
        (self.output_data_rate.spec_bits() << DATA_RATE_SELECTION_BIT_OFFSET) | (
        self.l_p_en.spec_bit() << L_P_EN_BIT_OFFSET) | (self.z_en.spec_bit()
            << Z_EN_BIT_OFFSET) | (self.y_en.spec_bit() << Y_EN_BIT_OFFSET)
            | self.x_en.spec_bit()
    }

    /// The decoded form of a raw byte. Decoding fails exactly when the
    /// output-data-rate field holds an undefined value.
    pub open spec fn spec_from_raw_value(value: u8) -> Result<Self, DecodeError> {
        match ODR::spec_from_bits(value >> DATA_RATE_SELECTION_BIT_OFFSET) {
            Some(output_data_rate) => Ok(
                CtrlReg1Value {
                    x_en: if value & 1 == 1 {
                        XEn::XAxisEnabled
                    } else {
                        XEn::XAxisDisabled
                    },
                    y_en: if value >> Y_EN_BIT_OFFSET & 1 == 1 {
                        YEn::YAxisEnabled
                    } else {
                        YEn::YAxisDisabled
                    },
                    z_en: if value >> Z_EN_BIT_OFFSET & 1 == 1 {
                        ZEn::ZAxisEnabled
                    } else {
                        ZEn::ZAxisDisabled
                    },
                    l_p_en: if value >> L_P_EN_BIT_OFFSET & 1 == 1 {
                        LPEn::LowPowerEnabled
                    } else {
                        LPEn::HighResolutionNormalMode
                    },
                    output_data_rate,
                },
            ),
            None => Err(DecodeError::OutputDataRateOutOfRange),
        }
    }

    pub fn set_output_data_rate(&mut self, output_data_rate: ODR)
        ensures
            *final(self) == (CtrlReg1Value { output_data_rate, ..*old(self) }),
    {
        self.output_data_rate = output_data_rate;
    }

    pub fn set_l_p_en(&mut self, l_p_en: LPEn)
        ensures
            *final(self) == (CtrlReg1Value { l_p_en, ..*old(self) }),
    {
        self.l_p_en = l_p_en;
    }

    pub fn x_en(&self) -> (r: XEn)
        ensures
            r == self.x_en,
    {
        self.x_en
    }

    pub fn y_en(&self) -> (r: YEn)
        ensures
            r == self.y_en,
    {
        self.y_en
    }

    pub fn z_en(&self) -> (r: ZEn)
        ensures
            r == self.z_en,
    {
        self.z_en
    }

    pub fn l_p_en(&self) -> (r: LPEn)
        ensures
            r == self.l_p_en,
    {
        self.l_p_en
    }

    pub fn output_data_rate(&self) -> (r: ODR)
        ensures
            r == self.output_data_rate,
    {
        self.output_data_rate
    }

    /// Encodes this value as the raw register byte.
    pub fn get_raw_value(&self) -> (r: u8)
        ensures
            r == self.spec_raw_value(),
    {
        let odr: u8 = self.output_data_rate.bits();
        let l_p_en: u8 = match self.l_p_en {
            LPEn::LowPowerEnabled => 0,
            LPEn::HighResolutionNormalMode => 1,
        };
        let z_en: u8 = match self.z_en {
            ZEn::ZAxisDisabled => 0,
            ZEn::ZAxisEnabled => 1,
        };
        let y_en: u8 = match self.y_en {
            YEn::YAxisDisabled => 0,
            YEn::YAxisEnabled => 1,
        };
        let x_en: u8 = match self.x_en {
            XEn::XAxisDisabled => 0,
            XEn::XAxisEnabled => 1,
        };
        (odr << DATA_RATE_SELECTION_BIT_OFFSET) | (l_p_en << L_P_EN_BIT_OFFSET) | (z_en
            << Z_EN_BIT_OFFSET) | (y_en << Y_EN_BIT_OFFSET) | x_en
    }

    /// Decodes a raw register byte; reports an error when the
    /// output-data-rate field holds an undefined value.
    pub fn from_raw_value(value: u8) -> (r: Result<Self, DecodeError>)
        ensures
            r == Self::spec_from_raw_value(value),
            r matches Ok(_) <==> value >> DATA_RATE_SELECTION_BIT_OFFSET <= 9,
    {
        let x_en = if value & 1 == 1 {
            XEn::XAxisEnabled
        } else {
            XEn::XAxisDisabled
        };
        let y_en = if value >> Y_EN_BIT_OFFSET & 1 == 1 {
            YEn::YAxisEnabled
        } else {
            YEn::YAxisDisabled
        };
        let z_en = if value >> Z_EN_BIT_OFFSET & 1 == 1 {
            ZEn::ZAxisEnabled
        } else {
            ZEn::ZAxisDisabled
        };
        let l_p_en = if value >> L_P_EN_BIT_OFFSET & 1 == 1 {
            LPEn::LowPowerEnabled
        } else {
            LPEn::HighResolutionNormalMode
        };
        match ODR::from_bits(value >> DATA_RATE_SELECTION_BIT_OFFSET) {
            Some(output_data_rate) => Ok(
                CtrlReg1Value { x_en, y_en, z_en, l_p_en, output_data_rate },
            ),
            None => Err(DecodeError::OutputDataRateOutOfRange),
        }
    }
}

/// Decoding an encoded Ctrl Reg 1 value always succeeds and gives back the
/// axis enables and the data rate unchanged. The power-mode select bit is
/// the one field that does not survive the trip: the encoder writes bit 3
/// with the polarity opposite to the one the decoder reads, a quirk kept
/// for wire compatibility, so the decoded field comes back flipped.
pub proof fn lemma_ctrl_reg_1_round_trip(v: CtrlReg1Value)
    ensures
        CtrlReg1Value::spec_from_raw_value(v.spec_raw_value()) matches Ok(w) && w.x_en == v.x_en
            && w.y_en == v.y_en && w.z_en == v.z_en && w.output_data_rate == v.output_data_rate
            && w.l_p_en == (if v.l_p_en == LPEn::LowPowerEnabled {
            LPEn::HighResolutionNormalMode
        } else {
            LPEn::LowPowerEnabled
        }),
{
    let o = v.output_data_rate.spec_bits();
    let l = v.l_p_en.spec_bit();
    let z = v.z_en.spec_bit();
    let y = v.y_en.spec_bit();
    let x = v.x_en.spec_bit();
    let e = v.spec_raw_value();
    assert(o <= 9 && l <= 1 && z <= 1 && y <= 1 && x <= 1);
    assert((o <= 9 && l <= 1 && z <= 1 && y <= 1 && x <= 1 && e == (o << 4) | (l << 3) | (z << 2)
        | (y << 1) | x) ==> (e & 1 == x && e >> 1 & 1 == y && e >> 2 & 1 == z && e >> 3 & 1 == l
        && e >> 4 == o)) by (bit_vector);
}

/// Each bit of the encoded byte is owned by exactly one field, so changing
/// one field never changes another field's bits.
pub proof fn lemma_ctrl_reg_1_bit_isolation(v: CtrlReg1Value)
    ensures
        spec_bit_is_set(v.spec_raw_value(), 0) == (v.x_en == XEn::XAxisEnabled),
        spec_bit_is_set(v.spec_raw_value(), 1) == (v.y_en == YEn::YAxisEnabled),
        spec_bit_is_set(v.spec_raw_value(), 2) == (v.z_en == ZEn::ZAxisEnabled),
        spec_bit_is_set(v.spec_raw_value(), 3) == (v.l_p_en == LPEn::HighResolutionNormalMode),
        v.spec_raw_value() >> 4 == v.output_data_rate.spec_bits(),
{
    let o = v.output_data_rate.spec_bits();
    let l = v.l_p_en.spec_bit();
    let z = v.z_en.spec_bit();
    let y = v.y_en.spec_bit();
    let x = v.x_en.spec_bit();
    let e = v.spec_raw_value();
    assert(o <= 9 && l <= 1 && z <= 1 && y <= 1 && x <= 1);
    assert((o <= 9 && l <= 1 && z <= 1 && y <= 1 && x <= 1 && e == (o << 4) | (l << 3) | (z << 2)
        | (y << 1) | x) ==> (((e >> 0) & 1 == 1) == (x == 1) && ((e >> 1) & 1 == 1) == (y == 1) && (
    (e >> 2) & 1 == 1) == (z == 1) && ((e >> 3) & 1 == 1) == (l == 1) && e >> 4 == o))
        by (bit_vector);
}

} // verus!
