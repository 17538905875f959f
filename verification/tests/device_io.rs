use lis3dh::ChipSelectPin;
use lis3dh::DecodeError;
use lis3dh::Error;
use lis3dh::Lis3dh;
use lis3dh::SpiBus;
use lis3dh::RegisterAddresses;
use lis3dh::ctrl_reg_1_value::LPEn;
use lis3dh::ctrl_reg_1_value::ODR;
use lis3dh::enabled_enum::OnOff;
use lis3dh::mode::NormalizedAcceleration;

struct Pin {
    fail_low: bool,
    fail_high: bool,
}

impl Pin {
    fn good() -> Pin {
        Pin { fail_low: false, fail_high: false }
    }
}

impl ChipSelectPin for Pin {
    type Error = u8;

    fn set_low(&mut self) -> Result<(), u8> {
        if self.fail_low { Err(1) } else { Ok(()) }
    }

    fn set_high(&mut self) -> Result<(), u8> {
        if self.fail_high { Err(1) } else { Ok(()) }
    }
}

struct Bus {
    reply_for: fn(u8) -> u8,
    fail: bool,
    writes: Vec<(u8, u8)>,
    transfers: Vec<(u8, u8)>,
}

impl Bus {
    fn with_replies(reply_for: fn(u8) -> u8) -> Bus {
        Bus { reply_for, fail: false, writes: Vec::new(), transfers: Vec::new() }
    }
}

impl SpiBus for Bus {
    type Error = u8;

    fn transfer_two(&mut self, out0: u8, out1: u8) -> Result<(u8, u8), u8> {
        if self.fail {
            return Err(2);
        }
        self.transfers.push((out0, out1));
        Ok((0, (self.reply_for)(out0 & 0x7F)))
    }

    fn write_two(&mut self, out0: u8, out1: u8) -> Result<(), u8> {
        if self.fail {
            return Err(2);
        }
        self.writes.push((out0, out1));
        Ok(())
    }
}

fn all_zero(_address: u8) -> u8 {
    0
}

fn defaults_as_written(address: u8) -> u8 {
    match address {
        0x1E => 0b0001_0000,
        0x20 => 0b0000_0111,
        _ => 0,
    }
}

#[test]
fn write_all_settings_pushes_every_register_in_order() {
    let mut device = Lis3dh::default();
    let mut pin = Pin::good();
    let mut bus = Bus::with_replies(all_zero);
    device.write_all_settings(&mut pin, &mut bus).unwrap();
    assert_eq!(
        bus.writes,
        vec![
            (0x1E, 0b0001_0000),
            (0x20, 0b0000_0111),
            (0x21, 0),
            (0x22, 0),
            (0x23, 0),
            (0x24, 0),
            (0x1F, 0),
            (0x32, 0),
            (0x33, 0),
            (0x30, 0),
        ]
    );
}

#[test]
fn a_read_transaction_sets_the_read_flag_and_sends_a_filler_byte() {
    let mut device = Lis3dh::default();
    let mut pin = Pin::good();
    let mut bus = Bus::with_replies(all_zero);
    device.get_who_am_i(&mut pin, &mut bus).unwrap();
    assert_eq!(bus.transfers, vec![(0x0F | 0x80, 0xFF)]);
}

#[test]
fn who_am_i_returns_the_device_reply() {
    fn identity_reply(address: u8) -> u8 {
        if address == 0x0F { 0x33 } else { 0 }
    }
    let mut device = Lis3dh::default();
    let mut pin = Pin::good();
    let mut bus = Bus::with_replies(identity_reply);
    assert_eq!(device.get_who_am_i(&mut pin, &mut bus).unwrap(), 0x33);
}

#[test]
fn a_chip_select_failure_is_reported_as_such() {
    let mut device = Lis3dh::default();
    let mut pin = Pin { fail_low: true, fail_high: false };
    let mut bus = Bus::with_replies(all_zero);
    let result = device.write_all_settings(&mut pin, &mut bus);
    assert!(matches!(result, Err(Error::ChipSelectError(1))));
}

#[test]
fn a_bus_failure_is_reported_as_such() {
    let mut device = Lis3dh::default();
    let mut pin = Pin::good();
    let mut bus = Bus::with_replies(all_zero);
    bus.fail = true;
    let result = device.write_all_settings(&mut pin, &mut bus);
    assert!(matches!(result, Err(Error::SpiError(2))));
}

#[test]
fn the_chip_select_is_released_even_when_the_transfer_fails() {
    // A failing release after a failing transfer must still surface the
    // transfer error first.
    let mut device = Lis3dh::default();
    let mut pin = Pin { fail_low: false, fail_high: true };
    let mut bus = Bus::with_replies(all_zero);
    bus.fail = true;
    let result = device.get_who_am_i(&mut pin, &mut bus);
    assert!(matches!(result, Err(Error::SpiError(2))));
}

#[test]
fn an_undecodable_data_rate_reply_is_reported() {
    fn undecodable_reg1(address: u8) -> u8 {
        if address == 0x20 { 0b1010_0000 } else { 0 }
    }
    let mut device = Lis3dh::default();
    let mut pin = Pin::good();
    let mut bus = Bus::with_replies(undecodable_reg1);
    let result = device.get_ctrl_reg_1_value(&mut pin, &mut bus);
    assert!(matches!(
        result,
        Err(Error::UndecodableRegisterValue(DecodeError::OutputDataRateOutOfRange))
    ));
}

#[test]
fn an_illegal_mode_combination_is_reported() {
    fn both_mode_bits_set(address: u8) -> u8 {
        match address {
            0x20 => 0b0000_1111,
            0x23 => 0b0000_1000,
            _ => 0,
        }
    }
    let mut device = Lis3dh::default();
    let mut pin = Pin::good();
    let mut bus = Bus::with_replies(both_mode_bits_set);
    let result = device.get_accel_norm(&mut pin, &mut bus);
    assert!(matches!(
        result,
        Err(Error::UndecodableRegisterValue(DecodeError::IllegalModeCombination))
    ));
}

#[test]
fn acceleration_is_normalized_with_the_mode_and_range_of_the_device() {
    fn normal_mode_with_one_x_sample(address: u8) -> u8 {
        match address {
            0x20 => 0b0000_0111,
            0x29 => 0x10,
            _ => 0,
        }
    }
    let mut device = Lis3dh::default();
    let mut pin = Pin::good();
    let mut bus = Bus::with_replies(normal_mode_with_one_x_sample);
    let norm = device.get_accel_norm(&mut pin, &mut bus).unwrap();
    assert_eq!(norm, NormalizedAcceleration { x: 256, y: 0, z: 0 });
}

#[test]
fn settings_check_reports_a_match() {
    let mut device = Lis3dh::default();
    device.set_l_p_en(LPEn::HighResolutionNormalMode);
    let mut pin = Pin::good();
    let mut bus = Bus::with_replies(defaults_as_written);
    assert_eq!(device.check_if_settings_are_written_correctly(&mut pin, &mut bus).unwrap(), true);
}

#[test]
fn settings_check_reports_a_mismatch() {
    fn one_register_differs(address: u8) -> u8 {
        if address == 0x21 { 0b0000_0001 } else { defaults_as_written(address) }
    }
    let mut device = Lis3dh::default();
    device.set_l_p_en(LPEn::HighResolutionNormalMode);
    let mut pin = Pin::good();
    let mut bus = Bus::with_replies(one_register_differs);
    assert_eq!(device.check_if_settings_are_written_correctly(&mut pin, &mut bus).unwrap(), false);
}

#[test]
fn rewriting_the_interrupt_settings_writes_only_that_register() {
    let mut device = Lis3dh::default();
    let mut pin = Pin::good();
    let mut bus = Bus::with_replies(all_zero);
    device.rewrite_int1_settings(&mut pin, &mut bus).unwrap();
    assert_eq!(bus.writes, vec![(0x30, 0)]);
}

#[test]
fn changed_settings_are_what_gets_written() {
    let mut device = Lis3dh::default();
    let mut temp_cfg = device.temp_cfg_reg_setting();
    temp_cfg.set_temp(OnOff::Enabled);
    temp_cfg.set_adc(OnOff::Enabled);
    device.set_temp_cfg_reg_setting(temp_cfg);
    device.set_output_data_rate(ODR::Hz100);
    let mut int1_ths = device.int_1_ths_setting();
    int1_ths.set_threshold(0x2A).unwrap();
    device.set_int1_ths_setting(int1_ths);

    let mut pin = Pin::good();
    let mut bus = Bus::with_replies(all_zero);
    device.write_all_settings(&mut pin, &mut bus).unwrap();
    assert!(bus.writes.contains(&(0x1F, 0b1100_0000)));
    assert!(bus.writes.contains(&(0x20, 0b0101_0111)));
    assert!(bus.writes.contains(&(0x32, 0x2A)));
}

#[test]
fn raw_register_reads_hand_the_byte_through() {
    fn reference_reply(address: u8) -> u8 {
        if address == 0x26 { 0xAB } else { 0 }
    }
    let mut device = Lis3dh::default();
    let mut pin = Pin::good();
    let mut bus = Bus::with_replies(reference_reply);
    let byte = device
        .get_register_raw_value(RegisterAddresses::Reference, &mut pin, &mut bus)
        .unwrap();
    assert_eq!(byte, 0xAB);
}

#[test]
fn interrupt_source_reads_decode_the_event_flags() {
    fn int1_src_reply(address: u8) -> u8 {
        if address == 0x31 { 0b0101_0100 } else { 0 }
    }
    let mut device = Lis3dh::default();
    let mut pin = Pin::good();
    let mut bus = Bus::with_replies(int1_src_reply);
    let int_src = device.get_int_1_src_values(&mut pin, &mut bus).unwrap();
    assert!(int_src.is_interrupt_active());
    assert!(int_src.is_y_low());
    assert!(int_src.is_z_low());
    assert!(!int_src.is_x_low());
}

#[test]
fn auxiliary_status_reads_decode_the_flags() {
    fn status_aux_reply(address: u8) -> u8 {
        if address == 0x07 { 0b0010_0001 } else { 0 }
    }
    let mut device = Lis3dh::default();
    let mut pin = Pin::good();
    let mut bus = Bus::with_replies(status_aux_reply);
    let status = device.get_status_reg_aux_values(&mut pin, &mut bus).unwrap();
    assert!(status.has_overrun_or_new_data());
    assert!(status.has_new_data_on1axis());
    assert!(status.has_overrun_on2axis());
    assert!(!status.has_overrun_on3axis());
}

#[test]
fn adc_channels_assemble_little_endian_from_two_reads() {
    fn adc_bytes(address: u8) -> u8 {
        match address {
            0x08 => 0x34,
            0x09 => 0x12,
            _ => 0,
        }
    }
    let mut device = Lis3dh::default();
    let mut pin = Pin::good();
    let mut bus = Bus::with_replies(adc_bytes);
    assert_eq!(device.get_adc1_value(&mut pin, &mut bus).unwrap(), 0x1234);
}
