use lis3dh::DecodeError;
use lis3dh::adc_value_from_bytes;
use lis3dh::ctrl_reg_0_value::CtrlReg0Value;
use lis3dh::ctrl_reg_1_value::CtrlReg1Value;
use lis3dh::ctrl_reg_1_value::LPEn;
use lis3dh::ctrl_reg_2_value::CtrlReg2Value;
use lis3dh::ctrl_reg_2_value::HighPassFilter;
use lis3dh::ctrl_reg_3_value::CtrlReg3Value;
use lis3dh::ctrl_reg_4_value::CtrlReg4Value;
use lis3dh::ctrl_reg_4_value::FullScaleSelection;
use lis3dh::ctrl_reg_5_value::CtrlReg5Value;
use lis3dh::enabled_enum::OnOff;
use lis3dh::int_cfg::IntCfg;
use lis3dh::int_duration_value::IntDuration;
use lis3dh::int_ths_value::IntThs;
use lis3dh::mode::Mode;
use lis3dh::mode::accel_value_from_bytes;
use lis3dh::mode::mode_from_register_flags;
use lis3dh::mode::normalize_axis;
use lis3dh::mode::sample_shift;
use lis3dh::mode::scale_multiplier;
use lis3dh::temp_cfg_reg::TempCfgReg;
use lis3dh::temp_cfg_reg_value::TempCfgRegValue;

#[test]
fn ctrl_reg_0_round_trips_for_both_flag_values() {
    for raw in [0b0001_0000_u8, 0b1001_0000] {
        let value = CtrlReg0Value::from_raw_value(raw);
        assert_eq!(CtrlReg0Value::from_raw_value(value.get_raw_value()), value);
        assert_eq!(value.get_raw_value(), raw);
    }
}

#[test]
fn ctrl_reg_1_round_trips_on_all_fields_but_the_power_mode_select() {
    for raw in 0..=0xFF_u8 {
        let Ok(value) = CtrlReg1Value::from_raw_value(raw) else {
            continue;
        };
        let again = CtrlReg1Value::from_raw_value(value.get_raw_value()).unwrap();
        assert_eq!(again.x_en, value.x_en);
        assert_eq!(again.y_en, value.y_en);
        assert_eq!(again.z_en, value.z_en);
        assert_eq!(again.output_data_rate, value.output_data_rate);
        // The encoder keeps the legacy polarity of bit 3, so the decoded
        // power-mode select comes back flipped.
        assert_ne!(again.l_p_en, value.l_p_en);
    }
}

#[test]
fn ctrl_reg_2_round_trips_for_every_decodable_byte() {
    for raw in 0..=0xFF_u8 {
        let value = CtrlReg2Value::from_raw_value(raw);
        assert_eq!(CtrlReg2Value::from_raw_value(value.get_raw_value()), value);
        assert_eq!(value.get_raw_value(), raw);
    }
}

#[test]
fn ctrl_reg_3_round_trips_for_every_decodable_byte() {
    for raw in 0..=0xFF_u8 {
        let value = CtrlReg3Value::from_raw_value(raw);
        assert_eq!(CtrlReg3Value::from_raw_value(value.get_raw_value()), value);
    }
}

#[test]
fn ctrl_reg_4_round_trips_for_every_decodable_byte() {
    for raw in 0..=0xFF_u8 {
        let Ok(value) = CtrlReg4Value::from_raw_value(raw) else {
            continue;
        };
        assert_eq!(CtrlReg4Value::from_raw_value(value.get_raw_value()), Ok(value));
        assert_eq!(value.get_raw_value(), raw);
    }
}

#[test]
fn ctrl_reg_5_round_trips_for_every_decodable_byte() {
    for raw in 0..=0xFF_u8 {
        let value = CtrlReg5Value::from_raw_value(raw);
        assert_eq!(CtrlReg5Value::from_raw_value(value.get_raw_value()), value);
    }
}

#[test]
fn d4_detection_on_int_2_survives_the_round_trip() {
    let mut value = CtrlReg5Value::default();
    value.set_d4_detection_on_int_2(OnOff::Enabled);
    assert_eq!(value.get_raw_value(), 0b0000_0001);
    assert_eq!(CtrlReg5Value::from_raw_value(value.get_raw_value()), value);
}

#[test]
fn int_cfg_round_trips_for_every_byte() {
    for raw in 0..=0xFF_u8 {
        let value = IntCfg::from_raw_value(raw);
        assert_eq!(IntCfg::from_raw_value(value.get_raw_value()), value);
        assert_eq!(value.get_raw_value(), raw);
    }
}

#[test]
fn temp_cfg_round_trips_for_every_byte() {
    for raw in 0..=0xFF_u8 {
        let value = TempCfgRegValue::from_raw_value(raw);
        assert_eq!(TempCfgRegValue::from_raw_value(value.get_raw_value()), value);
        let other_view = TempCfgReg::from_raw_value(raw);
        assert_eq!(TempCfgReg::from_raw_value(other_view.get_raw_value()), other_view);
    }
}

#[test]
fn every_seven_bit_threshold_round_trips() {
    for magnitude in 0..=127_u8 {
        let mut threshold = IntThs::default();
        threshold.set_threshold(magnitude).unwrap();
        assert_eq!(threshold.get_raw_value(), magnitude);
        assert_eq!(IntThs::from_raw_value(threshold.get_raw_value()), threshold);

        let mut duration = IntDuration::default();
        duration.set_duration(magnitude).unwrap();
        assert_eq!(duration.get_raw_value(), magnitude);
        assert_eq!(IntDuration::from_raw_value(duration.get_raw_value()), duration);
    }
}

#[test]
fn every_value_with_the_high_bit_set_is_rejected() {
    for magnitude in 128..=255_u8 {
        let mut threshold = IntThs::default();
        threshold.set_threshold(64).unwrap();
        assert!(threshold.set_threshold(magnitude).is_err());
        assert_eq!(threshold.threshold(), 64);

        let mut duration = IntDuration::default();
        duration.set_duration(64).unwrap();
        assert!(duration.set_duration(magnitude).is_err());
        assert_eq!(duration.duration(), 64);
    }
}

#[test]
fn largest_seven_bit_value_is_accepted_and_round_trips() {
    let mut threshold = IntThs::default();
    assert!(threshold.set_threshold(0b0111_1111).is_ok());
    assert_eq!(threshold.get_raw_value(), 127);
    assert_eq!(IntThs::from_raw_value(127).threshold(), 127);
}

#[test]
fn toggling_one_ctrl_reg_2_field_changes_only_its_bits() {
    for raw in 0..=0xFF_u8 {
        let value = CtrlReg2Value::from_raw_value(raw);
        let mut toggled = value;
        toggled.hp_click = match value.hp_click {
            HighPassFilter::FilterBypassed => HighPassFilter::FilterEnabled,
            HighPassFilter::FilterEnabled => HighPassFilter::FilterBypassed,
        };
        assert_eq!(value.get_raw_value() ^ toggled.get_raw_value(), 0b100);
    }
}

#[test]
fn toggling_one_int_cfg_field_changes_only_its_bits() {
    for raw in 0..=0xFF_u8 {
        let value = IntCfg::from_raw_value(raw);
        let mut toggled = value;
        toggled.aoi = match value.aoi {
            OnOff::Disabled => OnOff::Enabled,
            OnOff::Enabled => OnOff::Disabled,
        };
        assert_eq!(value.get_raw_value() ^ toggled.get_raw_value(), 0b1000_0000);
    }
}

#[test]
fn toggling_the_full_scale_field_changes_only_its_bits() {
    let mut value = CtrlReg4Value::default();
    let base = value.get_raw_value();
    value.set_fs(FullScaleSelection::Gravity16G);
    let changed = value.get_raw_value();
    assert_eq!(base ^ changed, 0b0011_0000);
}

#[test]
fn the_scale_table_is_defined_for_all_twelve_pairs() {
    let expected = [
        (Mode::HighResolution, FullScaleSelection::Gravity2G, 1),
        (Mode::HighResolution, FullScaleSelection::Gravity4G, 1),
        (Mode::HighResolution, FullScaleSelection::Gravity8G, 4),
        (Mode::HighResolution, FullScaleSelection::Gravity16G, 12),
        (Mode::Normal, FullScaleSelection::Gravity2G, 4),
        (Mode::Normal, FullScaleSelection::Gravity4G, 8),
        (Mode::Normal, FullScaleSelection::Gravity8G, 16),
        (Mode::Normal, FullScaleSelection::Gravity16G, 48),
        (Mode::LowPower, FullScaleSelection::Gravity2G, 16),
        (Mode::LowPower, FullScaleSelection::Gravity4G, 32),
        (Mode::LowPower, FullScaleSelection::Gravity8G, 64),
        (Mode::LowPower, FullScaleSelection::Gravity16G, 192),
    ];
    for (mode, range, multiplier) in expected {
        assert_eq!(scale_multiplier(mode, range), multiplier);
    }
    assert_eq!(sample_shift(Mode::HighResolution), 4);
    assert_eq!(sample_shift(Mode::Normal), 6);
    assert_eq!(sample_shift(Mode::LowPower), 8);
}

#[test]
fn the_illegal_mode_combination_is_rejected() {
    assert_eq!(mode_from_register_flags(true, false), Some(Mode::LowPower));
    assert_eq!(mode_from_register_flags(false, false), Some(Mode::Normal));
    assert_eq!(mode_from_register_flags(false, true), Some(Mode::HighResolution));
    assert_eq!(mode_from_register_flags(true, true), None);
}

#[test]
fn a_normal_mode_sample_scales_as_the_table_says() {
    let raw = accel_value_from_bytes(0x00, 0x10);
    assert_eq!(raw, 4096);
    assert_eq!(sample_shift(Mode::Normal), 6);
    assert_eq!(scale_multiplier(Mode::Normal, FullScaleSelection::Gravity2G), 4);
    assert_eq!(normalize_axis(raw, Mode::Normal, FullScaleSelection::Gravity2G), 256);
}

#[test]
fn negative_samples_shift_arithmetically() {
    assert_eq!(accel_value_from_bytes(0x00, 0xF0), -4096);
    assert_eq!(normalize_axis(-4096, Mode::Normal, FullScaleSelection::Gravity2G), -256);
    assert_eq!(normalize_axis(-1, Mode::HighResolution, FullScaleSelection::Gravity2G), -1);
    assert_eq!(normalize_axis(-17, Mode::HighResolution, FullScaleSelection::Gravity2G), -2);
    assert_eq!(normalize_axis(i16::MIN, Mode::LowPower, FullScaleSelection::Gravity16G), -24576);
    assert_eq!(normalize_axis(i16::MAX, Mode::LowPower, FullScaleSelection::Gravity16G), 24384);
}

#[test]
fn an_undefined_output_data_rate_is_a_decode_error() {
    for field in 10..=15_u8 {
        assert_eq!(
            CtrlReg1Value::from_raw_value(field << 4),
            Err(DecodeError::OutputDataRateOutOfRange)
        );
    }
}

#[test]
fn an_undefined_self_test_value_is_a_decode_error() {
    assert_eq!(CtrlReg4Value::from_raw_value(0b0000_0110), Err(DecodeError::SelfTestOutOfRange));
}

#[test]
fn adc_values_assemble_little_endian() {
    assert_eq!(adc_value_from_bytes(0x34, 0x12), 0x1234);
    assert_eq!(adc_value_from_bytes(0xFF, 0xFF), 0xFFFF);
    assert_eq!(adc_value_from_bytes(0x00, 0x00), 0);
}
