use lis3dh::RegisterAddresses;
use lis3dh::SPI_READ_BIT;
use lis3dh::is_read_only;

#[test]
fn register_address_enum_has_expected_u8_representation() {
    assert_eq!(RegisterAddresses::ActivationDuration.address(), 0x3F);
}

#[test]
fn checking_if_a_register_is_read_only_works() {
    assert!(is_read_only(RegisterAddresses::FifSrcReg.address()));
    assert!(!is_read_only(RegisterAddresses::CtrlReg1.address()));
}

#[test]
fn register_addresses_match_the_register_map() {
    assert_eq!(RegisterAddresses::StatusRegAux.address(), 0x07);
    assert_eq!(RegisterAddresses::OutAdc3H.address(), 0x0D);
    assert_eq!(RegisterAddresses::WhoAmI.address(), 0x0F);
    assert_eq!(RegisterAddresses::CtrlReg0.address(), 0x1E);
    assert_eq!(RegisterAddresses::TempCfgReg.address(), 0x1F);
    assert_eq!(RegisterAddresses::CtrlReg1.address(), 0x20);
    assert_eq!(RegisterAddresses::CtrlReg5.address(), 0x24);
    assert_eq!(RegisterAddresses::StatusReg.address(), 0x27);
    assert_eq!(RegisterAddresses::OutXL.address(), 0x28);
    assert_eq!(RegisterAddresses::OutZH.address(), 0x2D);
    assert_eq!(RegisterAddresses::FifSrcReg.address(), 0x2F);
    assert_eq!(RegisterAddresses::Int1Cfg.address(), 0x30);
    assert_eq!(RegisterAddresses::Int1Src.address(), 0x31);
    assert_eq!(RegisterAddresses::Int2Src.address(), 0x35);
    assert_eq!(RegisterAddresses::ClickSrc.address(), 0x39);
}

#[test]
fn every_register_of_the_read_only_set_classifies_read_only() {
    let read_only = [
        RegisterAddresses::StatusRegAux,
        RegisterAddresses::OutAdc1L,
        RegisterAddresses::OutAdc1H,
        RegisterAddresses::OutAdc2L,
        RegisterAddresses::OutAdc2H,
        RegisterAddresses::OutAdc3L,
        RegisterAddresses::OutAdc3H,
        RegisterAddresses::StatusReg,
        RegisterAddresses::OutXL,
        RegisterAddresses::OutXH,
        RegisterAddresses::OutYL,
        RegisterAddresses::OutYH,
        RegisterAddresses::OutZL,
        RegisterAddresses::OutZH,
        RegisterAddresses::FifSrcReg,
        RegisterAddresses::Int1Src,
        RegisterAddresses::Int2Src,
        RegisterAddresses::ClickSrc,
    ];
    for register in read_only {
        assert!(is_read_only(register.address()));
    }
}

#[test]
fn every_configuration_register_classifies_writable() {
    let writable = [
        RegisterAddresses::WhoAmI,
        RegisterAddresses::CtrlReg0,
        RegisterAddresses::TempCfgReg,
        RegisterAddresses::CtrlReg1,
        RegisterAddresses::CtrlReg2,
        RegisterAddresses::CtrlReg3,
        RegisterAddresses::CtrlReg4,
        RegisterAddresses::CtrlReg5,
        RegisterAddresses::CtrlReg6,
        RegisterAddresses::Reference,
        RegisterAddresses::FifoCtrlReg,
        RegisterAddresses::Int1Cfg,
        RegisterAddresses::Int1Threshold,
        RegisterAddresses::Int1Duration,
        RegisterAddresses::Int2Cfg,
        RegisterAddresses::Int2Threshold,
        RegisterAddresses::Int2Duration,
        RegisterAddresses::ClickCfg,
        RegisterAddresses::ClickThreshold,
        RegisterAddresses::TimeLimit,
        RegisterAddresses::TimeLatency,
        RegisterAddresses::TimeWindow,
        RegisterAddresses::ActivationThreshold,
        RegisterAddresses::ActivationDuration,
    ];
    for register in writable {
        assert!(!is_read_only(register.address()));
    }
}

#[test]
fn read_only_classification_ignores_the_direction_bit() {
    for address in 0..=0xFF_u8 {
        assert_eq!(is_read_only(address | SPI_READ_BIT), is_read_only(address & 0x7F));
    }
}
