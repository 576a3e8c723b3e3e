use tmc5160::registers::{Address, RampMode, Registers};

#[test]
fn addresses_match_the_chip_map() {
    assert_eq!(Registers::GCONF.addr(), 0x00);
    assert_eq!(Registers::GSTAT.addr(), 0x01);
    assert_eq!(Registers::IHOLD_IRUN.addr(), 0x10);
    assert_eq!(Registers::RAMPMODE.addr(), 0x20);
    assert_eq!(Registers::XACTUAL.addr(), 0x21);
    assert_eq!(Registers::VACTUAL.addr(), 0x22);
    assert_eq!(Registers::VSTART.addr(), 0x23);
    assert_eq!(Registers::A1.addr(), 0x24);
    assert_eq!(Registers::AMAX.addr(), 0x26);
    assert_eq!(Registers::VMAX.addr(), 0x27);
    assert_eq!(Registers::DMAX.addr(), 0x28);
    assert_eq!(Registers::D1.addr(), 0x2A);
    assert_eq!(Registers::XTARGET.addr(), 0x2D);
    assert_eq!(Registers::SW_MODE.addr(), 0x34);
    assert_eq!(Registers::RAMP_STAT.addr(), 0x35);
    assert_eq!(Registers::ENCMODE.addr(), 0x38);
    assert_eq!(Registers::CHOPCONF.addr(), 0x6C);
    assert_eq!(Registers::COOLCONF.addr(), 0x6D);
    assert_eq!(Registers::DRV_STATUS.addr(), 0x6F);
    assert_eq!(Registers::PWMCONF.addr(), 0x70);
    assert_eq!(Registers::LOST_STEPS.addr(), 0x73);
}

#[test]
fn addresses_stay_within_seven_bits_and_distinct() {
    let all = [
        Registers::GCONF,
        Registers::GSTAT,
        Registers::IFCNT,
        Registers::SLAVECONF,
        Registers::IOIN,
        Registers::X_COMPARE,
        Registers::OTP_PROG,
        Registers::OTP_READ,
        Registers::FACTORY_CONF,
        Registers::SHORT_CONF,
        Registers::DRV_CONF,
        Registers::GLOBALSCALER,
        Registers::OFFSET_READ,
        Registers::IHOLD_IRUN,
        Registers::TPOWERDOWN,
        Registers::TSTEP,
        Registers::TPWMTHRS,
        Registers::TCOOLTHRS,
        Registers::THIGH,
        Registers::RAMPMODE,
        Registers::XACTUAL,
        Registers::VACTUAL,
        Registers::VSTART,
        Registers::A1,
        Registers::V1,
        Registers::AMAX,
        Registers::VMAX,
        Registers::DMAX,
        Registers::D1,
        Registers::VSTOP,
        Registers::TZEROWAIT,
        Registers::XTARGET,
        Registers::VDCMIN,
        Registers::SW_MODE,
        Registers::RAMP_STAT,
        Registers::XLATCH,
        Registers::ENCMODE,
        Registers::X_ENC,
        Registers::ENC_CONST,
        Registers::ENC_STATUS,
        Registers::ENC_LATCH,
        Registers::ENC_DEVIATION,
        Registers::MSLUT_0_7,
        Registers::MSLUTSEL,
        Registers::MSLUTSTART,
        Registers::MSCNT,
        Registers::MSCURACT,
        Registers::CHOPCONF,
        Registers::COOLCONF,
        Registers::DCCTRL,
        Registers::DRV_STATUS,
        Registers::PWMCONF,
        Registers::PWM_SCALE,
        Registers::PWM_AUTO,
        Registers::LOST_STEPS,
    ];
    let mut seen: Vec<u8> = Vec::new();
    for r in all.iter() {
        let a = r.addr();
        assert!(a <= 0x7F);
        assert_eq!(a & 0x7F, a);
        // framed command bytes of distinct registers never collide
        assert!(!seen.contains(&a));
        for b in seen.iter() {
            assert_ne!(a | 0x80, b | 0x80);
            assert_ne!(a & 0x7F, b & 0x7F);
        }
        seen.push(a);
    }
    assert_eq!(seen.len(), 55);
}

#[test]
fn rampmode_values() {
    assert_eq!(RampMode::PositioningMode.value(), 0);
    assert_eq!(RampMode::VelocityModePos.value(), 1);
    assert_eq!(RampMode::VelocityModeNeg.value(), 2);
    assert_eq!(RampMode::HoldMode.value(), 3);
}
