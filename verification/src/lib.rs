//! Register-level driver logic for a 3-axis MEMS accelerometer on a SPI bus.
//!
//! The heart of the crate is a set of bit-exact codecs between raw 8-bit
//! register values and typed in-memory representations, together with a
//! device facade that caches a desired configuration and pushes it through
//! an abstract transport. The wire convention is the 0x80 read-flag one: a
//! read sets the high bit of the address byte, a write sends the bare
//! address.

pub mod ctrl_reg_0_value;
pub mod ctrl_reg_1_value;
pub mod ctrl_reg_2_value;
pub mod ctrl_reg_3_value;
pub mod ctrl_reg_4_value;
pub mod ctrl_reg_5_value;
pub mod enabled_enum;
pub mod int_cfg;
pub mod int_duration_value;
pub mod int_src;
pub mod int_ths_value;
pub mod mode;
pub mod status_reg_aux_value;
pub mod temp_cfg_reg;
pub mod temp_cfg_reg_value;

use crate::ctrl_reg_0_value::CtrlReg0Value;
use crate::ctrl_reg_1_value::CtrlReg1Value;
use crate::ctrl_reg_1_value::LPEn;
use crate::ctrl_reg_1_value::ODR;
use crate::ctrl_reg_2_value::CtrlReg2Value;
use crate::ctrl_reg_3_value::CtrlReg3Value;
use crate::ctrl_reg_4_value::CtrlReg4Value;
use crate::ctrl_reg_5_value::CtrlReg5Value;
use crate::enabled_enum::OnOff;
use crate::int_cfg::IntCfg;
use crate::int_duration_value::IntDuration;
use crate::int_src::IntSrc;
use crate::int_ths_value::IntThs;
use crate::mode::Mode;
use crate::mode::NormalizedAcceleration;
use crate::mode::RawAcceleration;
use crate::status_reg_aux_value::StatusRegAuxValue;
use crate::temp_cfg_reg_value::TempCfgRegValue;
use vstd::prelude::*;

verus! {

/// Flag OR-ed onto a register address to request a read transaction.
pub const SPI_READ_BIT: u8 = 0x80;

/// Why a raw register byte could not be decoded, or why two decoded
/// register values describe an impossible device state.
///
/// A byte that fails to decode can only come from corrupted hardware state
/// or a register-map mismatch, so it is reported rather than coerced to a
/// default.
#[derive(Copy, Clone, Debug, PartialEq, Eq, Structural)]
pub enum DecodeError {
    /// The output-data-rate field held a value with no defined variant.
    OutputDataRateOutOfRange,
    /// The self-test field held a value with no defined variant.
    SelfTestOutOfRange,
    /// The low-power and high-resolution bits were both set.
    IllegalModeCombination,
}

/// True when the given bit of `value` is set.
pub fn check_if_bit_is_set(value: u8, bit_position: u8) -> (r: bool)
    requires
        bit_position < 8,
    ensures
        r == spec_bit_is_set(value, bit_position),
{
    ((value >> bit_position) & 0b1) == 0b1
}

/// Bit `bit_position` of `value`, as a boolean.
pub open spec fn spec_bit_is_set(value: u8, bit_position: u8) -> bool {
    (value >> bit_position) & 0b1 == 0b1
}

/// The addressable registers of the device.
#[derive(Copy, Clone, Debug, PartialEq, Eq, Structural)]
pub enum RegisterAddresses {
    StatusRegAux,
    OutAdc1L,
    OutAdc1H,
    OutAdc2L,
    OutAdc2H,
    OutAdc3L,
    OutAdc3H,
    WhoAmI,
    CtrlReg0,
    TempCfgReg,
    CtrlReg1,
    CtrlReg2,
    CtrlReg3,
    CtrlReg4,
    CtrlReg5,
    CtrlReg6,
    Reference,
    StatusReg,
    OutXL,
    OutXH,
    OutYL,
    OutYH,
    OutZL,
    OutZH,
    FifoCtrlReg,
    FifSrcReg,
    Int1Cfg,
    Int1Src,
    Int1Threshold,
    Int1Duration,
    Int2Cfg,
    Int2Src,
    Int2Threshold,
    Int2Duration,
    ClickCfg,
    ClickSrc,
    ClickThreshold,
    TimeLimit,
    TimeLatency,
    TimeWindow,
    ActivationThreshold,
    ActivationDuration,
}

impl RegisterAddresses {
    /// The bus address of the register.
    pub open spec fn spec_address(self) -> u8 {
        match self {
            RegisterAddresses::StatusRegAux => 0x07,
            RegisterAddresses::OutAdc1L => 0x08,
            RegisterAddresses::OutAdc1H => 0x09,
            RegisterAddresses::OutAdc2L => 0x0A,
            RegisterAddresses::OutAdc2H => 0x0B,
            RegisterAddresses::OutAdc3L => 0x0C,
            RegisterAddresses::OutAdc3H => 0x0D,
            RegisterAddresses::WhoAmI => 0x0F,
            RegisterAddresses::CtrlReg0 => 0x1E,
            RegisterAddresses::TempCfgReg => 0x1F,
            RegisterAddresses::CtrlReg1 => 0x20,
            RegisterAddresses::CtrlReg2 => 0x21,
            RegisterAddresses::CtrlReg3 => 0x22,
            RegisterAddresses::CtrlReg4 => 0x23,
            RegisterAddresses::CtrlReg5 => 0x24,
            RegisterAddresses::CtrlReg6 => 0x25,
            RegisterAddresses::Reference => 0x26,
            RegisterAddresses::StatusReg => 0x27,
            RegisterAddresses::OutXL => 0x28,
            RegisterAddresses::OutXH => 0x29,
            RegisterAddresses::OutYL => 0x2A,
            RegisterAddresses::OutYH => 0x2B,
            RegisterAddresses::OutZL => 0x2C,
            RegisterAddresses::OutZH => 0x2D,
            RegisterAddresses::FifoCtrlReg => 0x2E,
            RegisterAddresses::FifSrcReg => 0x2F,
            RegisterAddresses::Int1Cfg => 0x30,
            RegisterAddresses::Int1Src => 0x31,
            RegisterAddresses::Int1Threshold => 0x32,
            RegisterAddresses::Int1Duration => 0x33,
            RegisterAddresses::Int2Cfg => 0x34,
            RegisterAddresses::Int2Src => 0x35,
            RegisterAddresses::Int2Threshold => 0x36,
            RegisterAddresses::Int2Duration => 0x37,
            RegisterAddresses::ClickCfg => 0x38,
            RegisterAddresses::ClickSrc => 0x39,
            RegisterAddresses::ClickThreshold => 0x3A,
            RegisterAddresses::TimeLimit => 0x3B,
            RegisterAddresses::TimeLatency => 0x3C,
            RegisterAddresses::TimeWindow => 0x3D,
            RegisterAddresses::ActivationThreshold => 0x3E,
            RegisterAddresses::ActivationDuration => 0x3F,
        }
    }

    /// Executable counterpart of [`RegisterAddresses::spec_address`].
    pub fn address(self) -> (a: u8)
        ensures
            a == self.spec_address(),
    {
        match self {
            RegisterAddresses::StatusRegAux => 0x07,
            RegisterAddresses::OutAdc1L => 0x08,
            RegisterAddresses::OutAdc1H => 0x09,
            RegisterAddresses::OutAdc2L => 0x0A,
            RegisterAddresses::OutAdc2H => 0x0B,
            RegisterAddresses::OutAdc3L => 0x0C,
            RegisterAddresses::OutAdc3H => 0x0D,
            RegisterAddresses::WhoAmI => 0x0F,
            RegisterAddresses::CtrlReg0 => 0x1E,
            RegisterAddresses::TempCfgReg => 0x1F,
            RegisterAddresses::CtrlReg1 => 0x20,
            RegisterAddresses::CtrlReg2 => 0x21,
            RegisterAddresses::CtrlReg3 => 0x22,
            RegisterAddresses::CtrlReg4 => 0x23,
            RegisterAddresses::CtrlReg5 => 0x24,
            RegisterAddresses::CtrlReg6 => 0x25,
            RegisterAddresses::Reference => 0x26,
            RegisterAddresses::StatusReg => 0x27,
            RegisterAddresses::OutXL => 0x28,
            RegisterAddresses::OutXH => 0x29,
            RegisterAddresses::OutYL => 0x2A,
            RegisterAddresses::OutYH => 0x2B,
            RegisterAddresses::OutZL => 0x2C,
            RegisterAddresses::OutZH => 0x2D,
            RegisterAddresses::FifoCtrlReg => 0x2E,
            RegisterAddresses::FifSrcReg => 0x2F,
            RegisterAddresses::Int1Cfg => 0x30,
            RegisterAddresses::Int1Src => 0x31,
            RegisterAddresses::Int1Threshold => 0x32,
            RegisterAddresses::Int1Duration => 0x33,
            RegisterAddresses::Int2Cfg => 0x34,
            RegisterAddresses::Int2Src => 0x35,
            RegisterAddresses::Int2Threshold => 0x36,
            RegisterAddresses::Int2Duration => 0x37,
            RegisterAddresses::ClickCfg => 0x38,
            RegisterAddresses::ClickSrc => 0x39,
            RegisterAddresses::ClickThreshold => 0x3A,
            RegisterAddresses::TimeLimit => 0x3B,
            RegisterAddresses::TimeLatency => 0x3C,
            RegisterAddresses::TimeWindow => 0x3D,
            RegisterAddresses::ActivationThreshold => 0x3E,
            RegisterAddresses::ActivationDuration => 0x3F,
        }
    }
}

/// Whether writes to the register at `address` must be rejected: true for
/// the auxiliary status and ADC output block, the main status register and
/// the six acceleration output bytes, the FIFO source register, both
/// interrupt source registers and the click source register. The
/// read-direction flag in bit 7 is stripped before classifying, so the
/// answer is the same with or without it. Addresses outside the register
/// map classify as writable; what the device does with them is the
/// transport's affair.
pub open spec fn spec_is_read_only(address: u8) -> bool {
    let stripped = address % 128;
    (0x07 <= stripped && stripped <= 0x0D) || (0x27 <= stripped && stripped <= 0x2D) || stripped
        == 0x2F || stripped == 0x31 || stripped == 0x35 || stripped == 0x39
}

/// Executable counterpart of [`spec_is_read_only`].
pub fn is_read_only(address: u8) -> (r: bool)
    ensures
        r == spec_is_read_only(address),
{
    let stripped: u8 = address % 128;
    (0x07 <= stripped && stripped <= 0x0D) || (0x27 <= stripped && stripped <= 0x2D) || stripped
        == 0x2F || stripped == 0x31 || stripped == 0x35 || stripped == 0x39
}

/// Setting the read-direction flag on an address never changes its
/// read-only classification.
pub proof fn lemma_read_only_ignores_direction_bit(address: u8)
    ensures
        spec_is_read_only(address | SPI_READ_BIT) == spec_is_read_only(address),
{
    assert((address | 0x80u8) % 128 == address % 128) by (bit_vector);
}

/// The classifier marks exactly the hardware-read-only registers: the
/// auxiliary status register, the six auxiliary ADC output bytes, the
/// main status register, the six acceleration output bytes, the FIFO
/// source register, both interrupt source registers and the click source
/// register.
pub proof fn lemma_read_only_classification(register: RegisterAddresses)
    ensures
        spec_is_read_only(register.spec_address()) <==> (register is StatusRegAux
            || register is OutAdc1L || register is OutAdc1H || register is OutAdc2L
            || register is OutAdc2H || register is OutAdc3L || register is OutAdc3H
            || register is StatusReg || register is OutXL || register is OutXH
            || register is OutYL || register is OutYH || register is OutZL || register is OutZH
            || register is FifSrcReg || register is Int1Src || register is Int2Src
            || register is ClickSrc),
{
}

/// What can go wrong while talking to the device.
#[derive(Debug)]
pub enum Error<CsE, SpiE> {
    /// The chip-select pin could not be driven.
    ChipSelectError(CsE),
    /// The bus transfer itself failed.
    SpiError(SpiE),
    /// A write was attempted to a register that the device only lets one
    /// read.
    AttemptToWriteToReadOnlyRegister,
    /// A byte read from the device does not decode to any defined register
    /// value, or two decoded values describe an impossible device state.
    UndecodableRegisterValue(DecodeError),
}

/// Tilt angle to the Z axis, in degrees, and the absolute deviation of
/// the measured magnitude from the nominal 1000 milli-g of gravity.
#[derive(Copy, Clone, Debug, PartialEq, Eq, Structural)]
pub struct AngleAnd1GOffset {
    pub angle: u16,
    pub offset: u16,
}

impl AngleAnd1GOffset {
    pub fn new(angle: u16, offset: u16) -> (r: Self)
        ensures
            r.angle == angle,
            r.offset == offset,
    {
        AngleAnd1GOffset { angle, offset }
    }

    pub fn angle(&self) -> (r: u16)
        ensures
            r == self.angle,
    {
        self.angle
    }

    pub fn offset(&self) -> (r: u16)
        ensures
            r == self.offset,
    {
        self.offset
    }
}

/// The chip-select line of the bus: driving it low selects the device,
/// driving it high releases it. Implemented outside this crate, typically
/// over a GPIO output pin; either operation may fail with an opaque
/// error, and nothing is assumed about either outcome.
pub trait ChipSelectPin {
    type Error;

    fn set_low(&mut self) -> Result<(), Self::Error>;

    fn set_high(&mut self) -> Result<(), Self::Error>;
}

/// The synchronous bus transport. Implemented outside this crate over a
/// SPI peripheral; either operation may fail with an opaque error, and
/// nothing is assumed about the bytes a transfer returns.
pub trait SpiBus {
    type Error;

    /// Sends the two given bytes while reading two bytes back, full
    /// duplex.
    fn transfer_two(&mut self, out0: u8, out1: u8) -> Result<(u8, u8), Self::Error>;

    /// Sends the two given bytes.
    fn write_two(&mut self, out0: u8, out1: u8) -> Result<(), Self::Error>;
}

/// The device facade: one cached decoded value per settable register,
/// held as the desired configuration to be pushed to hardware. Setters
/// only mutate this in-memory state; pushing and reading back happen
/// through the explicit bus operations.
#[derive(Copy, Clone, Debug, PartialEq, Eq, Structural)]
pub struct Lis3dh {
    pub ctrl_reg0: CtrlReg0Value,
    pub temp_cfg_reg: TempCfgRegValue,
    pub ctrl_reg1: CtrlReg1Value,
    pub ctrl_reg2: CtrlReg2Value,
    pub ctrl_reg3: CtrlReg3Value,
    pub ctrl_reg4: CtrlReg4Value,
    pub ctrl_reg5: CtrlReg5Value,
    pub int1_ths: IntThs,
    pub int1_duration: IntDuration,
    pub int1_cfg: IntCfg,
}

impl Lis3dh {
    /// The power-on-reset configuration that a fresh facade caches.
    pub open spec fn spec_reset() -> Lis3dh {
        Lis3dh {
            ctrl_reg0: CtrlReg0Value { pull_up_connected_sdo_sa_0_pin: OnOff::Disabled },
            temp_cfg_reg: TempCfgRegValue { temp: OnOff::Disabled, adc: OnOff::Disabled },
            ctrl_reg1: CtrlReg1Value {
                x_en: crate::ctrl_reg_1_value::XEn::XAxisEnabled,
                y_en: crate::ctrl_reg_1_value::YEn::YAxisEnabled,
                z_en: crate::ctrl_reg_1_value::ZEn::ZAxisEnabled,
                l_p_en: LPEn::LowPowerEnabled,
                output_data_rate: ODR::PowerDownMode,
            },
            ctrl_reg2: CtrlReg2Value {
                hp_ia1: crate::ctrl_reg_2_value::HighPassFilter::FilterBypassed,
                hp_ia2: crate::ctrl_reg_2_value::HighPassFilter::FilterBypassed,
                hp_click: crate::ctrl_reg_2_value::HighPassFilter::FilterBypassed,
                fds: crate::ctrl_reg_2_value::FilteredDataSelection::InternalFilterBypassed,
                hpcf: crate::ctrl_reg_2_value::HighPassFilterCutOffFrequencySelection::OneFiftieth,
                hpm: crate::ctrl_reg_2_value::HighPassFilterModeSelection::NormalResetByReadingReference,
            },
            ctrl_reg3: CtrlReg3Value {
                interrupt_1_click: OnOff::Disabled,
                interrupt_1_ia1: OnOff::Disabled,
                interrupt_1_ia2: OnOff::Disabled,
                interrupt_1_zyx_da: OnOff::Disabled,
                interrupt_1_321_da: OnOff::Disabled,
                interrupt_1_fifo_watermark: OnOff::Disabled,
                interrupt_1_fifo_overrun: OnOff::Disabled,
            },
            ctrl_reg4: CtrlReg4Value {
                sim: crate::ctrl_reg_4_value::SpiModeSelection::FourWireInterface,
                st: crate::ctrl_reg_4_value::SelfTest::NormalMode,
                hr: OnOff::Disabled,
                fs: crate::ctrl_reg_4_value::FullScaleSelection::Gravity2G,
                ble: crate::ctrl_reg_4_value::Endianness::LSBLowerAddress,
                bdu: crate::ctrl_reg_4_value::BlockDataUpdate::ContinuousUpdate,
            },
            ctrl_reg5: CtrlReg5Value {
                boot: crate::ctrl_reg_5_value::BootMode::NormalMode,
                fifo: OnOff::Disabled,
                latch_int_on_int_1_src: OnOff::Disabled,
                d4_detection_on_int_1: OnOff::Disabled,
                latch_int_on_int_2_src: OnOff::Disabled,
                d4_detection_on_int_2: OnOff::Disabled,
            },
            int1_ths: IntThs { threshold: 0 },
            int1_duration: IntDuration { duration: 0 },
            int1_cfg: IntCfg {
                aoi: OnOff::Disabled,
                six_d: OnOff::Disabled,
                zhie: OnOff::Disabled,
                zlie: OnOff::Disabled,
                yhie: OnOff::Disabled,
                ylie: OnOff::Disabled,
                xhie: OnOff::Disabled,
                xlie: OnOff::Disabled,
            },
        }
    }
}

impl Default for Lis3dh {
    /// The power-on-reset configuration.
    fn default() -> (r: Self)
        ensures
            r == Lis3dh::spec_reset(),
    {
        Lis3dh {
            ctrl_reg0: CtrlReg0Value::default(),
            temp_cfg_reg: TempCfgRegValue::default(),
            ctrl_reg1: CtrlReg1Value::default(),
            ctrl_reg2: CtrlReg2Value::default(),
            ctrl_reg3: CtrlReg3Value::default(),
            ctrl_reg4: CtrlReg4Value::default(),
            ctrl_reg5: CtrlReg5Value::default(),
            int1_ths: IntThs::default(),
            int1_duration: IntDuration::default(),
            int1_cfg: IntCfg::default(),
        }
    }
}

impl Lis3dh {
    pub fn ctrl_reg0_setting(&self) -> (r: CtrlReg0Value)
        ensures
            r == self.ctrl_reg0,
    {
        self.ctrl_reg0
    }

    pub fn temp_cfg_reg_setting(&self) -> (r: TempCfgRegValue)
        ensures
            r == self.temp_cfg_reg,
    {
        self.temp_cfg_reg
    }

    pub fn ctrl_reg1_setting(&self) -> (r: CtrlReg1Value)
        ensures
            r == self.ctrl_reg1,
    {
        self.ctrl_reg1
    }

    pub fn ctrl_reg2_setting(&self) -> (r: CtrlReg2Value)
        ensures
            r == self.ctrl_reg2,
    {
        self.ctrl_reg2
    }

    pub fn ctrl_reg3_setting(&self) -> (r: CtrlReg3Value)
        ensures
            r == self.ctrl_reg3,
    {
        self.ctrl_reg3
    }

    pub fn ctrl_reg4_setting(&self) -> (r: CtrlReg4Value)
        ensures
            r == self.ctrl_reg4,
    {
        self.ctrl_reg4
    }

    pub fn ctrl_reg5_setting(&self) -> (r: CtrlReg5Value)
        ensures
            r == self.ctrl_reg5,
    {
        self.ctrl_reg5
    }

    pub fn int_1_ths_setting(&self) -> (r: IntThs)
        ensures
            r == self.int1_ths,
    {
        self.int1_ths
    }

    pub fn int_1_duration_setting(&self) -> (r: IntDuration)
        ensures
            r == self.int1_duration,
    {
        self.int1_duration
    }

    pub fn int_1_cfg_setting(&self) -> (r: IntCfg)
        ensures
            r == self.int1_cfg,
    {
        self.int1_cfg
    }

    pub fn set_ctrl_reg0_setting(&mut self, ctrl_reg0: CtrlReg0Value)
        ensures
            *final(self) == (Lis3dh { ctrl_reg0, ..*old(self) }),
    {
        self.ctrl_reg0 = ctrl_reg0;
    }

    pub fn set_temp_cfg_reg_setting(&mut self, temp_cfg_reg: TempCfgRegValue)
        ensures
            *final(self) == (Lis3dh { temp_cfg_reg, ..*old(self) }),
    {
        self.temp_cfg_reg = temp_cfg_reg;
    }

    pub fn set_ctrl_reg1_setting(&mut self, ctrl_reg1: CtrlReg1Value)
        ensures
            *final(self) == (Lis3dh { ctrl_reg1, ..*old(self) }),
    {
        self.ctrl_reg1 = ctrl_reg1;
    }

    pub fn set_ctrl_reg2_setting(&mut self, ctrl_reg2: CtrlReg2Value)
        ensures
            *final(self) == (Lis3dh { ctrl_reg2, ..*old(self) }),
    {
        self.ctrl_reg2 = ctrl_reg2;
    }

    pub fn set_ctrl_reg3_setting(&mut self, ctrl_reg3: CtrlReg3Value)
        ensures
            *final(self) == (Lis3dh { ctrl_reg3, ..*old(self) }),
    {
        self.ctrl_reg3 = ctrl_reg3;
    }

    pub fn set_ctrl_reg4_setting(&mut self, ctrl_reg4: CtrlReg4Value)
        ensures
            *final(self) == (Lis3dh { ctrl_reg4, ..*old(self) }),
    {
        self.ctrl_reg4 = ctrl_reg4;
    }

    pub fn set_ctrl_reg5_setting(&mut self, ctrl_reg5: CtrlReg5Value)
        ensures
            *final(self) == (Lis3dh { ctrl_reg5, ..*old(self) }),
    {
        self.ctrl_reg5 = ctrl_reg5;
    }

    pub fn set_int1_ths_setting(&mut self, int1_ths: IntThs)
        ensures
            *final(self) == (Lis3dh { int1_ths, ..*old(self) }),
    {
        self.int1_ths = int1_ths;
    }

    pub fn set_int1_duration_setting(&mut self, int1_duration: IntDuration)
        ensures
            *final(self) == (Lis3dh { int1_duration, ..*old(self) }),
    {
        self.int1_duration = int1_duration;
    }

    pub fn set_int1_cfg_setting(&mut self, int1_cfg: IntCfg)
        ensures
            *final(self) == (Lis3dh { int1_cfg, ..*old(self) }),
    {
        self.int1_cfg = int1_cfg;
    }

    pub fn set_output_data_rate(&mut self, output_data_rate: ODR)
        ensures
            *final(self) == (Lis3dh {
                ctrl_reg1: CtrlReg1Value { output_data_rate, ..old(self).ctrl_reg1 },
                ..*old(self)
            }),
    {
        self.ctrl_reg1.set_output_data_rate(output_data_rate);
    }

    pub fn set_l_p_en(&mut self, l_p_en: LPEn)
        ensures
            *final(self) == (Lis3dh {
                ctrl_reg1: CtrlReg1Value { l_p_en, ..old(self).ctrl_reg1 },
                ..*old(self)
            }),
    {
        self.ctrl_reg1.set_l_p_en(l_p_en);
    }

    /// Encodes every cached register value and writes it to the device,
    /// in a fixed order with the interrupt registers last. Stops at the
    /// first transport failure. Every address written is a settable one,
    /// so the read-only rejection, though checked on every write, can
    /// never be the outcome.
    pub fn write_all_settings<CS: ChipSelectPin, SPI: SpiBus>(
        &mut self,
        cs: &mut CS,
        spi: &mut SPI,
    ) -> (r: Result<(), Error<CS::Error, SPI::Error>>)
        ensures
            *final(self) == *old(self),
            !(r matches Err(Error::AttemptToWriteToReadOnlyRegister)),
            !(r matches Err(Error::UndecodableRegisterValue(_))),
    {
        let raw0 = self.ctrl_reg0.get_raw_value();
        match self.write_to_spi(cs, spi, RegisterAddresses::CtrlReg0.address(), raw0) {
            Ok(_) => {},
            Err(e) => {
                return Err(e);
            },
        }
        let raw1 = self.ctrl_reg1.get_raw_value();
        match self.write_to_spi(cs, spi, RegisterAddresses::CtrlReg1.address(), raw1) {
            Ok(_) => {},
            Err(e) => {
                return Err(e);
            },
        }
        let raw2 = self.ctrl_reg2.get_raw_value();
        match self.write_to_spi(cs, spi, RegisterAddresses::CtrlReg2.address(), raw2) {
            Ok(_) => {},
            Err(e) => {
                return Err(e);
            },
        }
        let raw3 = self.ctrl_reg3.get_raw_value();
        match self.write_to_spi(cs, spi, RegisterAddresses::CtrlReg3.address(), raw3) {
            Ok(_) => {},
            Err(e) => {
                return Err(e);
            },
        }
        let raw4 = self.ctrl_reg4.get_raw_value();
        match self.write_to_spi(cs, spi, RegisterAddresses::CtrlReg4.address(), raw4) {
            Ok(_) => {},
            Err(e) => {
                return Err(e);
            },
        }
        let raw5 = self.ctrl_reg5.get_raw_value();
        match self.write_to_spi(cs, spi, RegisterAddresses::CtrlReg5.address(), raw5) {
            Ok(_) => {},
            Err(e) => {
                return Err(e);
            },
        }
        let raw_temp = self.temp_cfg_reg.get_raw_value();
        match self.write_to_spi(cs, spi, RegisterAddresses::TempCfgReg.address(), raw_temp) {
            Ok(_) => {},
            Err(e) => {
                return Err(e);
            },
        }
        let raw_ths = self.int1_ths.get_raw_value();
        match self.write_to_spi(cs, spi, RegisterAddresses::Int1Threshold.address(), raw_ths) {
            Ok(_) => {},
            Err(e) => {
                return Err(e);
            },
        }
        let raw_duration = self.int1_duration.get_raw_value();
        match self.write_to_spi(cs, spi, RegisterAddresses::Int1Duration.address(), raw_duration) {
            Ok(_) => {},
            Err(e) => {
                return Err(e);
            },
        }
        let raw_cfg = self.int1_cfg.get_raw_value();
        self.write_to_spi(cs, spi, RegisterAddresses::Int1Cfg.address(), raw_cfg)
    }

    /// Re-reads every settable register from the device and compares it,
    /// field for field, against the cached desired configuration. Returns
    /// whether everything matched; mismatches are reported, never
    /// repaired.
    pub fn check_if_settings_are_written_correctly<CS: ChipSelectPin, SPI: SpiBus>(
        &mut self,
        cs: &mut CS,
        spi: &mut SPI,
    ) -> (r: Result<bool, Error<CS::Error, SPI::Error>>)
        ensures
            *final(self) == *old(self),
            !(r matches Err(Error::AttemptToWriteToReadOnlyRegister)),
    {
        let reg0 = match self.get_ctrl_reg_0_value(cs, spi) {
            Ok(v) => v,
            Err(e) => {
                return Err(e);
            },
        };
        let reg1 = match self.get_ctrl_reg_1_value(cs, spi) {
            Ok(v) => v,
            Err(e) => {
                return Err(e);
            },
        };
        let reg2 = match self.get_ctrl_reg_2_value(cs, spi) {
            Ok(v) => v,
            Err(e) => {
                return Err(e);
            },
        };
        let reg3 = match self.get_ctrl_reg_3_value(cs, spi) {
            Ok(v) => v,
            Err(e) => {
                return Err(e);
            },
        };
        let reg4 = match self.get_ctrl_reg_4_value(cs, spi) {
            Ok(v) => v,
            Err(e) => {
                return Err(e);
            },
        };
        let reg5 = match self.get_ctrl_reg_5_value(cs, spi) {
            Ok(v) => v,
            Err(e) => {
                return Err(e);
            },
        };
        let temp_cfg = match self.get_temp_cfg_reg(cs, spi) {
            Ok(v) => v,
            Err(e) => {
                return Err(e);
            },
        };
        let int1_ths = match self.get_int_1_ths_values(cs, spi) {
            Ok(v) => v,
            Err(e) => {
                return Err(e);
            },
        };
        let int1_duration = match self.get_int_1_duration_values(cs, spi) {
            Ok(v) => v,
            Err(e) => {
                return Err(e);
            },
        };
        let int1_cfg = match self.get_int_1_cfg_values(cs, spi) {
            Ok(v) => v,
            Err(e) => {
                return Err(e);
            },
        };
        Ok(
            self.ctrl_reg0 == reg0 && self.ctrl_reg1 == reg1 && self.ctrl_reg2 == reg2
                && self.ctrl_reg3 == reg3 && self.ctrl_reg4 == reg4 && self.ctrl_reg5 == reg5
                && self.temp_cfg_reg == temp_cfg && self.int1_ths == int1_ths
                && self.int1_duration == int1_duration && self.int1_cfg == int1_cfg,
        )
    }

    /// Writes the cached interrupt configuration to the device again; the
    /// interrupt configuration register is settable, so the read-only
    /// rejection can never be the outcome.
    pub fn rewrite_int1_settings<CS: ChipSelectPin, SPI: SpiBus>(
        &mut self,
        cs: &mut CS,
        spi: &mut SPI,
    ) -> (r: Result<(), Error<CS::Error, SPI::Error>>)
        ensures
            *final(self) == *old(self),
            !(r matches Err(Error::AttemptToWriteToReadOnlyRegister)),
            !(r matches Err(Error::UndecodableRegisterValue(_))),
    {
        let raw_cfg = self.int1_cfg.get_raw_value();
        self.write_to_spi(cs, spi, RegisterAddresses::Int1Cfg.address(), raw_cfg)
    }

    /// Reads and decodes Ctrl Reg 5.
    pub fn get_ctrl_reg_5_value<CS: ChipSelectPin, SPI: SpiBus>(
        &mut self,
        cs: &mut CS,
        spi: &mut SPI,
    ) -> (r: Result<CtrlReg5Value, Error<CS::Error, SPI::Error>>)
        ensures
            *final(self) == *old(self),
            !(r matches Err(Error::AttemptToWriteToReadOnlyRegister)),
            !(r matches Err(Error::UndecodableRegisterValue(_))),
    {
        let value = match self.read_single_byte_from_spi(
            cs,
            spi,
            RegisterAddresses::CtrlReg5.address(),
        ) {
            Ok(v) => v,
            Err(e) => {
                return Err(e);
            },
        };
        Ok(CtrlReg5Value::from_raw_value(value))
    }

    /// Reads and decodes Ctrl Reg 4; a byte whose self-test field holds
    /// the undefined value is reported as undecodable.
    pub fn get_ctrl_reg_4_value<CS: ChipSelectPin, SPI: SpiBus>(
        &mut self,
        cs: &mut CS,
        spi: &mut SPI,
    ) -> (r: Result<CtrlReg4Value, Error<CS::Error, SPI::Error>>)
        ensures
            *final(self) == *old(self),
            !(r matches Err(Error::AttemptToWriteToReadOnlyRegister)),
            r matches Err(Error::UndecodableRegisterValue(d)) ==> d
                == DecodeError::SelfTestOutOfRange,
    {
        let value = match self.read_single_byte_from_spi(
            cs,
            spi,
            RegisterAddresses::CtrlReg4.address(),
        ) {
            Ok(v) => v,
            Err(e) => {
                return Err(e);
            },
        };
        match CtrlReg4Value::from_raw_value(value) {
            Ok(v) => Ok(v),
            Err(d) => Err(Error::UndecodableRegisterValue(d)),
        }
    }

    /// Reads and decodes Ctrl Reg 3.
    pub fn get_ctrl_reg_3_value<CS: ChipSelectPin, SPI: SpiBus>(
        &mut self,
        cs: &mut CS,
        spi: &mut SPI,
    ) -> (r: Result<CtrlReg3Value, Error<CS::Error, SPI::Error>>)
        ensures
            *final(self) == *old(self),
            !(r matches Err(Error::AttemptToWriteToReadOnlyRegister)),
            !(r matches Err(Error::UndecodableRegisterValue(_))),
    {
        let value = match self.read_single_byte_from_spi(
            cs,
            spi,
            RegisterAddresses::CtrlReg3.address(),
        ) {
            Ok(v) => v,
            Err(e) => {
                return Err(e);
            },
        };
        Ok(CtrlReg3Value::from_raw_value(value))
    }

    /// Reads and decodes Ctrl Reg 2.
    pub fn get_ctrl_reg_2_value<CS: ChipSelectPin, SPI: SpiBus>(
        &mut self,
        cs: &mut CS,
        spi: &mut SPI,
    ) -> (r: Result<CtrlReg2Value, Error<CS::Error, SPI::Error>>)
        ensures
            *final(self) == *old(self),
            !(r matches Err(Error::AttemptToWriteToReadOnlyRegister)),
            !(r matches Err(Error::UndecodableRegisterValue(_))),
    {
        let value = match self.read_single_byte_from_spi(
            cs,
            spi,
            RegisterAddresses::CtrlReg2.address(),
        ) {
            Ok(v) => v,
            Err(e) => {
                return Err(e);
            },
        };
        Ok(CtrlReg2Value::from_raw_value(value))
    }

    /// Reads and decodes the temperature/ADC configuration register.
    pub fn get_temp_cfg_reg<CS: ChipSelectPin, SPI: SpiBus>(
        &mut self,
        cs: &mut CS,
        spi: &mut SPI,
    ) -> (r: Result<TempCfgRegValue, Error<CS::Error, SPI::Error>>)
        ensures
            *final(self) == *old(self),
            !(r matches Err(Error::AttemptToWriteToReadOnlyRegister)),
            !(r matches Err(Error::UndecodableRegisterValue(_))),
    {
        let value = match self.read_single_byte_from_spi(
            cs,
            spi,
            RegisterAddresses::TempCfgReg.address(),
        ) {
            Ok(v) => v,
            Err(e) => {
                return Err(e);
            },
        };
        Ok(TempCfgRegValue::from_raw_value(value))
    }

    /// Reads and decodes Ctrl Reg 0.
    pub fn get_ctrl_reg_0_value<CS: ChipSelectPin, SPI: SpiBus>(
        &mut self,
        cs: &mut CS,
        spi: &mut SPI,
    ) -> (r: Result<CtrlReg0Value, Error<CS::Error, SPI::Error>>)
        ensures
            *final(self) == *old(self),
            !(r matches Err(Error::AttemptToWriteToReadOnlyRegister)),
            !(r matches Err(Error::UndecodableRegisterValue(_))),
    {
        let value = match self.read_single_byte_from_spi(
            cs,
            spi,
            RegisterAddresses::CtrlReg0.address(),
        ) {
            Ok(v) => v,
            Err(e) => {
                return Err(e);
            },
        };
        Ok(CtrlReg0Value::from_raw_value(value))
    }

    /// Reads and decodes Ctrl Reg 1; a byte whose output-data-rate field
    /// holds an undefined value is reported as undecodable.
    pub fn get_ctrl_reg_1_value<CS: ChipSelectPin, SPI: SpiBus>(
        &mut self,
        cs: &mut CS,
        spi: &mut SPI,
    ) -> (r: Result<CtrlReg1Value, Error<CS::Error, SPI::Error>>)
        ensures
            *final(self) == *old(self),
            !(r matches Err(Error::AttemptToWriteToReadOnlyRegister)),
            r matches Err(Error::UndecodableRegisterValue(d)) ==> d
                == DecodeError::OutputDataRateOutOfRange,
    {
        let value = match self.read_single_byte_from_spi(
            cs,
            spi,
            RegisterAddresses::CtrlReg1.address(),
        ) {
            Ok(v) => v,
            Err(e) => {
                return Err(e);
            },
        };
        match CtrlReg1Value::from_raw_value(value) {
            Ok(v) => Ok(v),
            Err(d) => Err(Error::UndecodableRegisterValue(d)),
        }
    }

    /// Reads and decodes the auxiliary status register.
    pub fn get_status_reg_aux_values<CS: ChipSelectPin, SPI: SpiBus>(
        &mut self,
        cs: &mut CS,
        spi: &mut SPI,
    ) -> (r: Result<StatusRegAuxValue, Error<CS::Error, SPI::Error>>)
        ensures
            *final(self) == *old(self),
            !(r matches Err(Error::AttemptToWriteToReadOnlyRegister)),
            !(r matches Err(Error::UndecodableRegisterValue(_))),
    {
        let value = match self.read_single_byte_from_spi(
            cs,
            spi,
            RegisterAddresses::StatusRegAux.address(),
        ) {
            Ok(v) => v,
            Err(e) => {
                return Err(e);
            },
        };
        Ok(StatusRegAuxValue::from_raw_value(value))
    }

    /// Reads and decodes the interrupt threshold register; the decoded
    /// magnitude always fits in seven bits.
    pub fn get_int_1_ths_values<CS: ChipSelectPin, SPI: SpiBus>(
        &mut self,
        cs: &mut CS,
        spi: &mut SPI,
    ) -> (r: Result<IntThs, Error<CS::Error, SPI::Error>>)
        ensures
            *final(self) == *old(self),
            !(r matches Err(Error::AttemptToWriteToReadOnlyRegister)),
            !(r matches Err(Error::UndecodableRegisterValue(_))),
            r matches Ok(v) ==> v.spec_valid(),
    {
        let value = match self.read_single_byte_from_spi(
            cs,
            spi,
            RegisterAddresses::Int1Threshold.address(),
        ) {
            Ok(v) => v,
            Err(e) => {
                return Err(e);
            },
        };
        Ok(IntThs::from_raw_value(value))
    }

    /// Reads and decodes the interrupt duration register; the decoded
    /// magnitude always fits in seven bits.
    pub fn get_int_1_duration_values<CS: ChipSelectPin, SPI: SpiBus>(
        &mut self,
        cs: &mut CS,
        spi: &mut SPI,
    ) -> (r: Result<IntDuration, Error<CS::Error, SPI::Error>>)
        ensures
            *final(self) == *old(self),
            !(r matches Err(Error::AttemptToWriteToReadOnlyRegister)),
            !(r matches Err(Error::UndecodableRegisterValue(_))),
            r matches Ok(v) ==> v.spec_valid(),
    {
        let value = match self.read_single_byte_from_spi(
            cs,
            spi,
            RegisterAddresses::Int1Duration.address(),
        ) {
            Ok(v) => v,
            Err(e) => {
                return Err(e);
            },
        };
        Ok(IntDuration::from_raw_value(value))
    }

    /// Reads and decodes the interrupt configuration register.
    pub fn get_int_1_cfg_values<CS: ChipSelectPin, SPI: SpiBus>(
        &mut self,
        cs: &mut CS,
        spi: &mut SPI,
    ) -> (r: Result<IntCfg, Error<CS::Error, SPI::Error>>)
        ensures
            *final(self) == *old(self),
            !(r matches Err(Error::AttemptToWriteToReadOnlyRegister)),
            !(r matches Err(Error::UndecodableRegisterValue(_))),
    {
        let value = match self.read_single_byte_from_spi(
            cs,
            spi,
            RegisterAddresses::Int1Cfg.address(),
        ) {
            Ok(v) => v,
            Err(e) => {
                return Err(e);
            },
        };
        Ok(IntCfg::from_raw_value(value))
    }

    /// Reads and decodes the interrupt source register of interrupt line
    /// 1.
    pub fn get_int_1_src_values<CS: ChipSelectPin, SPI: SpiBus>(
        &mut self,
        cs: &mut CS,
        spi: &mut SPI,
    ) -> (r: Result<IntSrc, Error<CS::Error, SPI::Error>>)
        ensures
            *final(self) == *old(self),
            !(r matches Err(Error::AttemptToWriteToReadOnlyRegister)),
            !(r matches Err(Error::UndecodableRegisterValue(_))),
    {
        let value = match self.read_single_byte_from_spi(
            cs,
            spi,
            RegisterAddresses::Int1Src.address(),
        ) {
            Ok(v) => v,
            Err(e) => {
                return Err(e);
            },
        };
        Ok(IntSrc::from_raw_value(value))
    }

    /// Reads the first auxiliary ADC channel.
    pub fn get_adc1_value<CS: ChipSelectPin, SPI: SpiBus>(
        &mut self,
        cs: &mut CS,
        spi: &mut SPI,
    ) -> (r: Result<u16, Error<CS::Error, SPI::Error>>)
        ensures
            *final(self) == *old(self),
            !(r matches Err(Error::AttemptToWriteToReadOnlyRegister)),
            !(r matches Err(Error::UndecodableRegisterValue(_))),
    {
        self.get_adc_value(
            cs,
            spi,
            RegisterAddresses::OutAdc1L.address(),
            RegisterAddresses::OutAdc1H.address(),
        )
    }

    /// Reads the second auxiliary ADC channel.
    pub fn get_adc2_value<CS: ChipSelectPin, SPI: SpiBus>(
        &mut self,
        cs: &mut CS,
        spi: &mut SPI,
    ) -> (r: Result<u16, Error<CS::Error, SPI::Error>>)
        ensures
            *final(self) == *old(self),
            !(r matches Err(Error::AttemptToWriteToReadOnlyRegister)),
            !(r matches Err(Error::UndecodableRegisterValue(_))),
    {
        self.get_adc_value(
            cs,
            spi,
            RegisterAddresses::OutAdc2L.address(),
            RegisterAddresses::OutAdc2H.address(),
        )
    }

    /// Reads the third auxiliary ADC channel.
    pub fn get_adc3_value<CS: ChipSelectPin, SPI: SpiBus>(
        &mut self,
        cs: &mut CS,
        spi: &mut SPI,
    ) -> (r: Result<u16, Error<CS::Error, SPI::Error>>)
        ensures
            *final(self) == *old(self),
            !(r matches Err(Error::AttemptToWriteToReadOnlyRegister)),
            !(r matches Err(Error::UndecodableRegisterValue(_))),
    {
        self.get_adc_value(
            cs,
            spi,
            RegisterAddresses::OutAdc3L.address(),
            RegisterAddresses::OutAdc3H.address(),
        )
    }

    /// Reads one ADC channel from its low and high byte registers.
    fn get_adc_value<CS: ChipSelectPin, SPI: SpiBus>(
        &mut self,
        cs: &mut CS,
        spi: &mut SPI,
        low_byte_address: u8,
        high_byte_address: u8,
    ) -> (r: Result<u16, Error<CS::Error, SPI::Error>>)
        ensures
            *final(self) == *old(self),
            !(r matches Err(Error::AttemptToWriteToReadOnlyRegister)),
            !(r matches Err(Error::UndecodableRegisterValue(_))),
    {
        let low_byte = match self.read_single_byte_from_spi(cs, spi, low_byte_address) {
            Ok(v) => v,
            Err(e) => {
                return Err(e);
            },
        };
        let high_byte = match self.read_single_byte_from_spi(cs, spi, high_byte_address) {
            Ok(v) => v,
            Err(e) => {
                return Err(e);
            },
        };
        Ok(adc_value_from_bytes(low_byte, high_byte))
    }

    /// Reads the raw byte of any register.
    pub fn get_register_raw_value<CS: ChipSelectPin, SPI: SpiBus>(
        &mut self,
        address: RegisterAddresses,
        cs: &mut CS,
        spi: &mut SPI,
    ) -> (r: Result<u8, Error<CS::Error, SPI::Error>>)
        ensures
            *final(self) == *old(self),
            !(r matches Err(Error::AttemptToWriteToReadOnlyRegister)),
            !(r matches Err(Error::UndecodableRegisterValue(_))),
    {
        self.read_single_byte_from_spi(cs, spi, address.address())
    }

    /// Reads the identity register; comparing the byte against the known
    /// chip identifier is the caller's affair.
    pub fn get_who_am_i<CS: ChipSelectPin, SPI: SpiBus>(
        &mut self,
        cs: &mut CS,
        spi: &mut SPI,
    ) -> (r: Result<u8, Error<CS::Error, SPI::Error>>)
        ensures
            *final(self) == *old(self),
            !(r matches Err(Error::AttemptToWriteToReadOnlyRegister)),
            !(r matches Err(Error::UndecodableRegisterValue(_))),
    {
        self.read_single_byte_from_spi(cs, spi, RegisterAddresses::WhoAmI.address())
    }

    /// Reads the three raw acceleration samples and converts them into
    /// milli-g counts for the mode and range the device reports.
    pub fn get_accel_norm<CS: ChipSelectPin, SPI: SpiBus>(
        &mut self,
        cs: &mut CS,
        spi: &mut SPI,
    ) -> (r: Result<NormalizedAcceleration, Error<CS::Error, SPI::Error>>)
        ensures
            *final(self) == *old(self),
            !(r matches Err(Error::AttemptToWriteToReadOnlyRegister)),
    {
        let device_mode = match self.get_mode(cs, spi) {
            Ok(m) => m,
            Err(e) => {
                return Err(e);
            },
        };
        let reg4 = match self.get_ctrl_reg_4_value(cs, spi) {
            Ok(v) => v,
            Err(e) => {
                return Err(e);
            },
        };
        let range = reg4.fs();
        let acc_raw = match self.get_accel_raw(cs, spi) {
            Ok(v) => v,
            Err(e) => {
                return Err(e);
            },
        };
        Ok(mode::normalize_acceleration(acc_raw, device_mode, range))
    }

    /// Derives the operating mode from the two mode bits read from the
    /// device; both bits set is an illegal device state and is reported,
    /// never coerced to a default mode.
    fn get_mode<CS: ChipSelectPin, SPI: SpiBus>(
        &mut self,
        cs: &mut CS,
        spi: &mut SPI,
    ) -> (r: Result<Mode, Error<CS::Error, SPI::Error>>)
        ensures
            *final(self) == *old(self),
            !(r matches Err(Error::AttemptToWriteToReadOnlyRegister)),
    {
        let reg1 = match self.get_ctrl_reg_1_value(cs, spi) {
            Ok(v) => v,
            Err(e) => {
                return Err(e);
            },
        };
        let low_power_set = reg1.l_p_en() == LPEn::LowPowerEnabled;
        let reg4 = match self.get_ctrl_reg_4_value(cs, spi) {
            Ok(v) => v,
            Err(e) => {
                return Err(e);
            },
        };
        let high_resolution_output_set = reg4.hr() == OnOff::Enabled;
        match mode::mode_from_register_flags(low_power_set, high_resolution_output_set) {
            Some(m) => Ok(m),
            None => Err(Error::UndecodableRegisterValue(DecodeError::IllegalModeCombination)),
        }
    }

    /// Reads the six acceleration output bytes and assembles the three
    /// raw little-endian samples, X then Y then Z, low byte before high.
    fn get_accel_raw<CS: ChipSelectPin, SPI: SpiBus>(
        &mut self,
        cs: &mut CS,
        spi: &mut SPI,
    ) -> (r: Result<RawAcceleration, Error<CS::Error, SPI::Error>>)
        ensures
            *final(self) == *old(self),
            !(r matches Err(Error::AttemptToWriteToReadOnlyRegister)),
            !(r matches Err(Error::UndecodableRegisterValue(_))),
    {
        let x_lo = match self.read_single_byte_from_spi(cs, spi, RegisterAddresses::OutXL.address()) {
            Ok(v) => v,
            Err(e) => {
                return Err(e);
            },
        };
        let x_hi = match self.read_single_byte_from_spi(cs, spi, RegisterAddresses::OutXH.address()) {
            Ok(v) => v,
            Err(e) => {
                return Err(e);
            },
        };
        let y_lo = match self.read_single_byte_from_spi(cs, spi, RegisterAddresses::OutYL.address()) {
            Ok(v) => v,
            Err(e) => {
                return Err(e);
            },
        };
        let y_hi = match self.read_single_byte_from_spi(cs, spi, RegisterAddresses::OutYH.address()) {
            Ok(v) => v,
            Err(e) => {
                return Err(e);
            },
        };
        let z_lo = match self.read_single_byte_from_spi(cs, spi, RegisterAddresses::OutZL.address()) {
            Ok(v) => v,
            Err(e) => {
                return Err(e);
            },
        };
        let z_hi = match self.read_single_byte_from_spi(cs, spi, RegisterAddresses::OutZH.address()) {
            Ok(v) => v,
            Err(e) => {
                return Err(e);
            },
        };
        Ok(
            RawAcceleration {
                x: mode::accel_value_from_bytes(x_lo, x_hi),
                y: mode::accel_value_from_bytes(y_lo, y_hi),
                z: mode::accel_value_from_bytes(z_lo, z_hi),
            },
        )
    }

    /// Performs one read transaction: the address with the read flag set,
    /// then a filler byte while the device answers. The chip select is
    /// released on the failure path as well as on success; the first
    /// failure is the one reported.
    fn read_single_byte_from_spi<CS: ChipSelectPin, SPI: SpiBus>(
        &mut self,
        cs: &mut CS,
        spi: &mut SPI,
        address_to_read: u8,
    ) -> (r: Result<u8, Error<CS::Error, SPI::Error>>)
        ensures
            *final(self) == *old(self),
            !(r matches Err(Error::AttemptToWriteToReadOnlyRegister)),
            !(r matches Err(Error::UndecodableRegisterValue(_))),
    {
        match cs.set_low() {
            Ok(_) => {},
            Err(e) => {
                return Err(Error::ChipSelectError(e));
            },
        }
        let transfer_result = spi.transfer_two(address_to_read | SPI_READ_BIT, 0xFF);
        let release_result = cs.set_high();
        match transfer_result {
            Ok(reply) => match release_result {
                Ok(_) => Ok(reply.1),
                Err(e) => Err(Error::ChipSelectError(e)),
            },
            Err(e) => Err(Error::SpiError(e)),
        }
    }

    /// Performs one write transaction after the defensive read-only
    /// check, which rejects exactly the read-only addresses before any
    /// bus access. The chip select is released on the failure path as
    /// well as on success; the first failure is the one reported.
    fn write_to_spi<CS: ChipSelectPin, SPI: SpiBus>(
        &mut self,
        cs: &mut CS,
        spi: &mut SPI,
        address: u8,
        value: u8,
    ) -> (r: Result<(), Error<CS::Error, SPI::Error>>)
        ensures
            *final(self) == *old(self),
            (r matches Err(Error::AttemptToWriteToReadOnlyRegister)) <==> spec_is_read_only(
                address,
            ),
            !(r matches Err(Error::UndecodableRegisterValue(_))),
    {
        if is_read_only(address) {
            return Err(Error::AttemptToWriteToReadOnlyRegister);
        }
        match cs.set_low() {
            Ok(_) => {},
            Err(e) => {
                return Err(Error::ChipSelectError(e));
            },
        }
        let write_result = spi.write_two(address, value);
        let release_result = cs.set_high();
        match write_result {
            Ok(_) => match release_result {
                Ok(_) => Ok(()),
                Err(e) => Err(Error::ChipSelectError(e)),
            },
            Err(e) => Err(Error::SpiError(e)),
        }
    }
}

/// The unsigned 16-bit ADC reading assembled from its two register bytes,
/// high byte in the upper half.
pub fn adc_value_from_bytes(low_byte: u8, high_byte: u8) -> (r: u16)
    ensures
        r == high_byte * 256 + low_byte,
{
    (high_byte as u16) * 256 + (low_byte as u16)
}

} // verus!
