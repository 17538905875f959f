use lis3dh::ctrl_reg_0_value::CtrlReg0Value;
use lis3dh::ctrl_reg_1_value::CtrlReg1Value;
use lis3dh::ctrl_reg_1_value::LPEn;
use lis3dh::ctrl_reg_1_value::ODR;
use lis3dh::ctrl_reg_1_value::XEn;
use lis3dh::ctrl_reg_1_value::YEn;
use lis3dh::ctrl_reg_1_value::ZEn;
use lis3dh::ctrl_reg_2_value::CtrlReg2Value;
use lis3dh::ctrl_reg_2_value::FilteredDataSelection;
use lis3dh::ctrl_reg_2_value::HighPassFilter;
use lis3dh::ctrl_reg_2_value::HighPassFilterCutOffFrequencySelection;
use lis3dh::ctrl_reg_2_value::HighPassFilterModeSelection;
use lis3dh::ctrl_reg_3_value::CtrlReg3Value;
use lis3dh::ctrl_reg_4_value::CtrlReg4Value;
use lis3dh::ctrl_reg_4_value::Endianness;
use lis3dh::ctrl_reg_4_value::FullScaleSelection;
use lis3dh::ctrl_reg_4_value::SelfTest;
use lis3dh::ctrl_reg_4_value::SpiModeSelection;
use lis3dh::ctrl_reg_5_value::BootMode;
use lis3dh::ctrl_reg_5_value::CtrlReg5Value;
use lis3dh::enabled_enum::OnOff;
use lis3dh::int_cfg::IntCfg;
use lis3dh::int_duration_value::IntDuration;
use lis3dh::int_src::IntSrc;
use lis3dh::int_ths_value::IntThs;
use lis3dh::status_reg_aux_value::StatusRegAuxValue;

#[test]
fn ctrl_reg_0_value_conversion_from_raw_value_works() {
    let ctrl_reg_0_raw = 0b1001_0000;
    let ctrl_reg_0 = CtrlReg0Value::from_raw_value(ctrl_reg_0_raw);
    assert_eq!(ctrl_reg_0.pull_up_connected_sdo_sa_0_pin(), OnOff::Enabled);
}

#[test]
fn ctrl_reg_0_value_conversion_to_raw_value_works() {
    let mut ctrl_reg_0 = CtrlReg0Value::default();
    ctrl_reg_0.set_pull_up_connected_sdo_sa_0_pin(OnOff::Enabled);
    assert_eq!(ctrl_reg_0.get_raw_value(), 0b1001_0000);
}

#[test]
fn ctrl_reg_1_value_conversion_from_raw_value_works() {
    let raw_value = 0b10_0101_u8;
    let ctrl_reg_1 = CtrlReg1Value::from_raw_value(raw_value).unwrap();
    assert_eq!(ctrl_reg_1.x_en, XEn::XAxisEnabled);
    assert_eq!(ctrl_reg_1.y_en, YEn::YAxisDisabled);
    assert_eq!(ctrl_reg_1.z_en, ZEn::ZAxisEnabled);
    assert_eq!(ctrl_reg_1.l_p_en, LPEn::HighResolutionNormalMode);
    assert_eq!(ctrl_reg_1.output_data_rate, ODR::Hz10);
}

#[test]
fn ctrl_reg_1_value_conversion_to_raw_value_works() {
    let mut ctrl_reg_value = CtrlReg1Value::default();
    ctrl_reg_value.output_data_rate = ODR::Hz50;
    assert_eq!(ctrl_reg_value.get_raw_value(), 0b100_0111);
}

#[test]
fn ctrl_reg_2_value_conversion_from_raw_value_works() {
    let raw_value = 0b0110_0101_u8;
    let ctrl_reg_2 = CtrlReg2Value::from_raw_value(raw_value);
    assert_eq!(ctrl_reg_2.hp_ia1, HighPassFilter::FilterEnabled);
    assert_eq!(ctrl_reg_2.hp_ia2, HighPassFilter::FilterBypassed);
    assert_eq!(ctrl_reg_2.hp_click, HighPassFilter::FilterEnabled);
    assert_eq!(ctrl_reg_2.fds, FilteredDataSelection::InternalFilterBypassed);
    assert_eq!(
        ctrl_reg_2.hpcf,
        HighPassFilterCutOffFrequencySelection::ATwHundredthOrOneTwoHundredAndFiftieth
    );
    assert_eq!(
        ctrl_reg_2.hpm,
        HighPassFilterModeSelection::ReferenceSignalForFiltering
    );
}

#[test]
fn ctrl_reg_2_value_conversion_to_raw_value_works() {
    let mut ctrl_reg_value = CtrlReg2Value::default();
    assert_eq!(ctrl_reg_value.get_raw_value(), 0_u8);

    ctrl_reg_value.hp_ia1 = HighPassFilter::FilterEnabled;
    ctrl_reg_value.hp_ia2 = HighPassFilter::FilterEnabled;
    ctrl_reg_value.hp_click = HighPassFilter::FilterEnabled;
    ctrl_reg_value.fds = FilteredDataSelection::InternalFilterSentToFifo;
    ctrl_reg_value.hpcf = HighPassFilterCutOffFrequencySelection::ATwHundredthOrOneTwoHundredAndFiftieth;
    ctrl_reg_value.hpm = HighPassFilterModeSelection::ReferenceSignalForFiltering;
    assert_eq!(ctrl_reg_value.get_raw_value(), 0b0110_1111);
}

#[test]
fn ctrl_reg_3_value_conversion_from_raw_value_works() {
    let raw_value = 0b1010_0101_u8;
    let ctrl_reg_3 = CtrlReg3Value::from_raw_value(raw_value);
    assert_eq!(ctrl_reg_3.interrupt_1_click, OnOff::Enabled);
    assert_eq!(ctrl_reg_3.interrupt_1_ia1, OnOff::Disabled);
    assert_eq!(ctrl_reg_3.interrupt_1_ia2, OnOff::Enabled);
    assert_eq!(ctrl_reg_3.interrupt_1_zyx_da, OnOff::Disabled);
    assert_eq!(ctrl_reg_3.interrupt_1_321_da, OnOff::Disabled);
    assert_eq!(ctrl_reg_3.interrupt_1_fifo_watermark, OnOff::Enabled);
    assert_eq!(ctrl_reg_3.interrupt_1_fifo_overrun, OnOff::Disabled);
}

#[test]
fn ctrl_reg_3_value_conversion_to_raw_value_works() {
    let mut ctrl_reg_3_value = CtrlReg3Value::default();
    ctrl_reg_3_value.interrupt_1_ia1 = OnOff::Enabled;
    ctrl_reg_3_value.interrupt_1_ia2 = OnOff::Enabled;
    ctrl_reg_3_value.interrupt_1_zyx_da = OnOff::Enabled;
    ctrl_reg_3_value.interrupt_1_fifo_watermark = OnOff::Enabled;
    assert_eq!(ctrl_reg_3_value.get_raw_value(), 0b0111_0100);
}

#[test]
fn ctrl_reg_4_value_conversion_from_raw_value_works() {
    let raw_value = 0b0101_0100_u8;
    let ctrl_reg_4 = CtrlReg4Value::from_raw_value(raw_value).unwrap();
    assert_eq!(ctrl_reg_4.st, SelfTest::SelfTest1)
}

#[test]
fn ctrl_reg_4_value_conversion_to_raw_value_works() {
    let mut ctrl_reg_value = CtrlReg4Value::default();

    ctrl_reg_value.sim = SpiModeSelection::ThreeWireInterface;
    ctrl_reg_value.st = SelfTest::SelfTest1;
    ctrl_reg_value.hr = OnOff::Enabled;
    ctrl_reg_value.fs = FullScaleSelection::Gravity8G;
    ctrl_reg_value.ble = Endianness::MSBLowerAddress;
    assert_eq!(ctrl_reg_value.get_raw_value(), 0b0110_1101);
}

#[test]
fn ctrl_reg_5_value_conversion_from_raw_value_works() {
    let ctrl_reg_5_value_raw = 0b1000_0101_u8;
    let ctrl_reg_5_value = CtrlReg5Value::from_raw_value(ctrl_reg_5_value_raw);
    assert_eq!(
        ctrl_reg_5_value,
        CtrlReg5Value {
            boot: BootMode::RebootMemoryContent,
            fifo: OnOff::Disabled,
            latch_int_on_int_1_src: OnOff::Disabled,
            d4_detection_on_int_1: OnOff::Enabled,
            latch_int_on_int_2_src: OnOff::Disabled,
            d4_detection_on_int_2: OnOff::Enabled,
        }
    );
}

#[test]
fn ctrl_reg_5_value_conversion_to_raw_value_works() {
    let ctrl_reg_5_value = CtrlReg5Value {
        boot: BootMode::RebootMemoryContent,
        fifo: OnOff::Disabled,
        latch_int_on_int_1_src: OnOff::Disabled,
        d4_detection_on_int_1: OnOff::Enabled,
        latch_int_on_int_2_src: OnOff::Disabled,
        d4_detection_on_int_2: OnOff::Disabled,
    };
    assert_eq!(ctrl_reg_5_value.get_raw_value(), 0b1000_0100);
}

#[test]
fn int_cfg_conversion_from_raw_value_works() {
    let int_cfg_raw = 0b1010_0101_u8;
    let int_cfg = IntCfg::from_raw_value(int_cfg_raw);
    assert_eq!(int_cfg.aoi, OnOff::Enabled);
    assert_eq!(int_cfg.six_d, OnOff::Disabled);
    assert_eq!(int_cfg.zhie, OnOff::Enabled);
    assert_eq!(int_cfg.zlie, OnOff::Disabled);
    assert_eq!(int_cfg.yhie, OnOff::Disabled);
    assert_eq!(int_cfg.ylie, OnOff::Enabled);
    assert_eq!(int_cfg.xhie, OnOff::Disabled);
    assert_eq!(int_cfg.xlie, OnOff::Enabled);
}

#[test]
fn int_cfg_conversion_to_raw_value_works() {
    let mut int_cfg = IntCfg::default();
    int_cfg.six_d = OnOff::Enabled;
    int_cfg.zhie = OnOff::Enabled;
    int_cfg.zlie = OnOff::Enabled;
    int_cfg.ylie = OnOff::Enabled;
    assert_eq!(int_cfg.get_raw_value(), 0b0111_0100);
}

#[test]
fn int_duration_value_conversion_from_raw_value_works() {
    let raw_value = 0b101_0100_u8;
    let int_duration = IntDuration::from_raw_value(raw_value);
    assert_eq!(int_duration.duration, raw_value)
}

#[test]
fn int_duration_value_conversion_to_raw_value_works() {
    let mut int_duration = IntDuration::default();
    int_duration.set_duration(0b101_1010).unwrap();
    assert_eq!(int_duration.get_raw_value(), 0b101_1010);
}

#[test]
fn setting_duration_fails_if_bit_8_is_set() {
    let mut int_duration = IntDuration::default();
    assert!(int_duration.set_duration(0b1101_1010).is_err());
}

#[test]
fn int_src_conversion_from_raw_value_works() {
    let raw_value = 0b0101_0100_u8;
    let int_src = IntSrc::from_raw_value(raw_value);
    assert!(int_src.is_y_low());
    assert!(int_src.is_z_low());
    assert!(int_src.is_interrupt_active());
}

#[test]
fn int_ths_value_conversion_from_raw_value_works() {
    let raw_value = 0b101_0100_u8;
    let int_ths = IntThs::from_raw_value(raw_value);
    assert_eq!(int_ths.threshold(), raw_value)
}

#[test]
fn int_ths_value_conversion_to_raw_value_works() {
    let mut int_ths = IntThs::default();
    int_ths.set_threshold(0b101_1010).unwrap();
    assert_eq!(int_ths.get_raw_value(), 0b101_1010);
}

#[test]
fn setting_threshold_fails_if_bit_8_is_set() {
    let mut intths = IntThs::default();
    assert!(intths.set_threshold(0b1101_1010).is_err());
}

#[test]
fn status_reg_aux_value_conversion_from_raw_value_works() {
    let raw_value_with_2_axis_overrun_and_1_new_data_available = 0b100001_u8;
    let status_reg_aux_values =
        StatusRegAuxValue::from_raw_value(raw_value_with_2_axis_overrun_and_1_new_data_available);
    assert!(status_reg_aux_values.overrun_or_new_data);
    assert!(status_reg_aux_values.new_data_on1axis);
    assert!(status_reg_aux_values.overrun_on2axis);
    assert!(!status_reg_aux_values.overrun_on3_2_1axis);
}
