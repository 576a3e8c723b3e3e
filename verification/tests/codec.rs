use tmc5160::registers::{
    ChopConf, CoolConf, DrvConf, DrvStatus, EncMode, GConf, GStat, IHoldIRun, IoIn, MsLutSel, NodeConf, OffsetRead, OtpProg, OtpRead, PwmConf, RampStat, ShortConf, SwMode, SpiStatus,
};

#[test]
fn g_conf_fieldset_round_trip() {
    let v = GConf {
        recalibrate: false,
        faststandstill: true,
        en_pwm_mode: false,
        multistep_filt: false,
        shaft: true,
        diag0_error: false,
        diag0_otp: false,
        diag0_stall: false,
        diag1_stall: false,
        diag1_index: false,
        diag1_onstate: true,
        diag1_steps_skipped: true,
        diag0_int_pushpull: false,
        diag1_poscomp_pushpull: true,
        small_hysteresis: true,
        stop_enable: false,
        direct_mode: false,
    };
    assert_eq!(GConf::decode(v.encode()), v);
}

#[test]
fn g_conf_raw_round_trip() {
    assert_eq!(GConf::decode(0x00000000).encode(), 0x00000000);
    assert_eq!(GConf::decode(0x0001FFFF).encode(), 0x0001FFFF);
    assert_eq!(GConf::decode(0x00012059).encode(), 0x00012059);
    assert_eq!(
        GConf::decode(0xFFFFFFFF).encode(),
        0x0001FFFF,
    );
}

#[test]
fn g_stat_fieldset_round_trip() {
    let v = GStat {
        reset: false,
        drv_err: true,
        uv_cp: false,
    };
    assert_eq!(GStat::decode(v.encode()), v);
}

#[test]
fn g_stat_raw_round_trip() {
    assert_eq!(GStat::decode(0x00000000).encode(), 0x00000000);
    assert_eq!(GStat::decode(0x00000007).encode(), 0x00000007);
    assert_eq!(GStat::decode(0x00000001).encode(), 0x00000001);
    assert_eq!(
        GStat::decode(0xFFFFFFFF).encode(),
        0x00000007,
    );
}

#[test]
fn node_conf_fieldset_round_trip() {
    let v = NodeConf {
        nodeaddr: 167,
        senddelay: 3,
    };
    assert_eq!(NodeConf::decode(v.encode()), v);
}

#[test]
fn node_conf_raw_round_trip() {
    assert_eq!(NodeConf::decode(0x00000000).encode(), 0x00000000);
    assert_eq!(NodeConf::decode(0x00000FFF).encode(), 0x00000FFF);
    assert_eq!(NodeConf::decode(0x0000086B).encode(), 0x0000086B);
    assert_eq!(
        NodeConf::decode(0xFFFFFFFF).encode(),
        0x00000FFF,
    );
}

#[test]
fn io_in_fieldset_round_trip() {
    let v = IoIn {
        refl_step: false,
        refr_dir: false,
        encb_dcen_cfg4: true,
        enca_dcen_cfg5: true,
        drv_enn: false,
        enc_n_dco_cfg6: false,
        sd_mode: false,
        swcomp_in: true,
        version: 91,
    };
    assert_eq!(IoIn::decode(v.encode()), v);
}

#[test]
fn io_in_raw_round_trip() {
    assert_eq!(IoIn::decode(0x00000000).encode(), 0x00000000);
    assert_eq!(IoIn::decode(0x0000FFFF).encode(), 0x0000FFFF);
    assert_eq!(IoIn::decode(0x0000C03B).encode(), 0x0000C03B);
    assert_eq!(
        IoIn::decode(0xFFFFFFFF).encode(),
        0x0000FFFF,
    );
}

#[test]
fn otp_prog_fieldset_round_trip() {
    let v = OtpProg {
        otpbit: 4,
        otpbyte: 1,
        otpmagic: 108,
    };
    assert_eq!(OtpProg::decode(v.encode()), v);
}

#[test]
fn otp_prog_raw_round_trip() {
    assert_eq!(OtpProg::decode(0x00000000).encode(), 0x00000000);
    assert_eq!(OtpProg::decode(0x0000FF1F).encode(), 0x0000FF1F);
    assert_eq!(OtpProg::decode(0x00008F03).encode(), 0x00008F03);
    assert_eq!(
        OtpProg::decode(0xFFFFFFFF).encode(),
        0x0000FF1F,
    );
}

#[test]
fn otp_read_fieldset_round_trip() {
    let v = OtpRead {
        otp_fclktrim: 22,
        otp_s2_level: true,
        otp_bbm: true,
        otp_tbl: true,
    };
    assert_eq!(OtpRead::decode(v.encode()), v);
}

#[test]
fn otp_read_raw_round_trip() {
    assert_eq!(OtpRead::decode(0x00000000).encode(), 0x00000000);
    assert_eq!(OtpRead::decode(0x000000FF).encode(), 0x000000FF);
    assert_eq!(OtpRead::decode(0x00000062).encode(), 0x00000062);
    assert_eq!(
        OtpRead::decode(0xFFFFFFFF).encode(),
        0x000000FF,
    );
}

#[test]
fn short_conf_fieldset_round_trip() {
    let v = ShortConf {
        s2vs_level: 8,
        s2g_level: 8,
        shortfilter: 3,
        shortdelay: true,
    };
    assert_eq!(ShortConf::decode(v.encode()), v);
}

#[test]
fn short_conf_raw_round_trip() {
    assert_eq!(ShortConf::decode(0x00000000).encode(), 0x00000000);
    assert_eq!(ShortConf::decode(0x00070F0F).encode(), 0x00070F0F);
    assert_eq!(ShortConf::decode(0x00000C08).encode(), 0x00000C08);
    assert_eq!(
        ShortConf::decode(0xFFFFFFFF).encode(),
        0x00070F0F,
    );
}

#[test]
fn drv_conf_fieldset_round_trip() {
    let v = DrvConf {
        bbm_time: 11,
        bbm_clks: 0,
        ots_select: 3,
        drv_strength: 1,
        filt_isense: 1,
    };
    assert_eq!(DrvConf::decode(v.encode()), v);
}

#[test]
fn drv_conf_raw_round_trip() {
    assert_eq!(DrvConf::decode(0x00000000).encode(), 0x00000000);
    assert_eq!(DrvConf::decode(0x003F0F0F).encode(), 0x003F0F0F);
    assert_eq!(DrvConf::decode(0x00180B0E).encode(), 0x00180B0E);
    assert_eq!(
        DrvConf::decode(0xFFFFFFFF).encode(),
        0x003F0F0F,
    );
}

#[test]
fn offset_read_fieldset_round_trip() {
    let v = OffsetRead {
        phase_a: 108,
        phase_b: 76,
    };
    assert_eq!(OffsetRead::decode(v.encode()), v);
}

#[test]
fn offset_read_raw_round_trip() {
    assert_eq!(OffsetRead::decode(0x00000000).encode(), 0x00000000);
    assert_eq!(OffsetRead::decode(0x0000FFFF).encode(), 0x0000FFFF);
    assert_eq!(OffsetRead::decode(0x0000EF30).encode(), 0x0000EF30);
    assert_eq!(
        OffsetRead::decode(0xFFFFFFFF).encode(),
        0x0000FFFF,
    );
}

#[test]
fn i_hold_i_run_fieldset_round_trip() {
    let v = IHoldIRun {
        i_hold: 31,
        i_run: 14,
        i_hold_delay: 2,
    };
    assert_eq!(IHoldIRun::decode(v.encode()), v);
}

#[test]
fn i_hold_i_run_raw_round_trip() {
    assert_eq!(IHoldIRun::decode(0x00000000).encode(), 0x00000000);
    assert_eq!(IHoldIRun::decode(0x000F1F1F).encode(), 0x000F1F1F);
    assert_eq!(IHoldIRun::decode(0x00011B03).encode(), 0x00011B03);
    assert_eq!(
        IHoldIRun::decode(0xFFFFFFFF).encode(),
        0x000F1F1F,
    );
}

#[test]
fn sw_mode_fieldset_round_trip() {
    let v = SwMode {
        stop_l_enable: false,
        stop_r_enable: true,
        pol_stop_l: false,
        pol_stop_r: false,
        swap_lr: false,
        latch_l_active: true,
        latch_l_inactive: false,
        latch_r_active: true,
        latch_r_inactive: false,
        en_latch_encoder: false,
        sg_stop: true,
        en_softstop: false,
    };
    assert_eq!(SwMode::decode(v.encode()), v);
}

#[test]
fn sw_mode_raw_round_trip() {
    assert_eq!(SwMode::decode(0x00000000).encode(), 0x00000000);
    assert_eq!(SwMode::decode(0x00000FFF).encode(), 0x00000FFF);
    assert_eq!(SwMode::decode(0x00000D44).encode(), 0x00000D44);
    assert_eq!(
        SwMode::decode(0xFFFFFFFF).encode(),
        0x00000FFF,
    );
}

#[test]
fn ramp_stat_fieldset_round_trip() {
    let v = RampStat {
        status_stop_l: true,
        status_stop_r: true,
        status_latch_l: true,
        status_latch_r: false,
        event_stop_l: false,
        event_stop_r: false,
        event_stop_sg: true,
        event_pos_reached: true,
        velocity_reached: false,
        position_reached: true,
        vzero: false,
        t_zerowait_active: true,
        second_move: true,
        status_sg: false,
    };
    assert_eq!(RampStat::decode(v.encode()), v);
}

#[test]
fn ramp_stat_raw_round_trip() {
    assert_eq!(RampStat::decode(0x00000000).encode(), 0x00000000);
    assert_eq!(RampStat::decode(0x00003FFF).encode(), 0x00003FFF);
    assert_eq!(RampStat::decode(0x00003A4D).encode(), 0x00003A4D);
    assert_eq!(
        RampStat::decode(0xFFFFFFFF).encode(),
        0x00003FFF,
    );
}

#[test]
fn enc_mode_fieldset_round_trip() {
    let v = EncMode {
        pol_a: false,
        pol_b: true,
        pol_n: false,
        ignore_ab: false,
        clr_cont: false,
        clr_once: true,
        pos_edge: false,
        neg_edge: true,
        clr_enc_x: false,
        latch_x_act: true,
        enc_sel_decimal: false,
    };
    assert_eq!(EncMode::decode(v.encode()), v);
}

#[test]
fn enc_mode_raw_round_trip() {
    assert_eq!(EncMode::decode(0x00000000).encode(), 0x00000000);
    assert_eq!(EncMode::decode(0x000007FF).encode(), 0x000007FF);
    assert_eq!(EncMode::decode(0x000004AF).encode(), 0x000004AF);
    assert_eq!(
        EncMode::decode(0xFFFFFFFF).encode(),
        0x000007FF,
    );
}

#[test]
fn ms_lut_sel_fieldset_round_trip() {
    let v = MsLutSel {
        w0: 1,
        w1: 2,
        w2: 3,
        w3: 0,
        x1: 206,
        x2: 228,
        x3: 107,
    };
    assert_eq!(MsLutSel::decode(v.encode()), v);
}

#[test]
fn ms_lut_sel_raw_round_trip() {
    assert_eq!(MsLutSel::decode(0x00000000).encode(), 0x00000000);
    assert_eq!(MsLutSel::decode(0xFFFFFFFF).encode(), 0xFFFFFFFF);
    assert_eq!(MsLutSel::decode(0x43B1C1B6).encode(), 0x43B1C1B6);
    assert_eq!(
        MsLutSel::decode(0xFFFFFFFF).encode(),
        0xFFFFFFFF,
    );
}

#[test]
fn chop_conf_fieldset_round_trip() {
    let v = ChopConf {
        toff: 10,
        hstr: 6,
        hend: 13,
        fd3: true,
        disfdcc: true,
        chm: false,
        tbl: 3,
        vhighfs: true,
        vhighchm: true,
        tpfd: 5,
        mres: 5,
        intpol: false,
        dedge: true,
        diss2g: true,
        diss2vs: false,
    };
    assert_eq!(ChopConf::decode(v.encode()), v);
}

#[test]
fn chop_conf_raw_round_trip() {
    assert_eq!(ChopConf::decode(0x00000000).encode(), 0x00000000);
    assert_eq!(ChopConf::decode(0xFFFDDFFF).encode(), 0xFFFDDFFF);
    assert_eq!(ChopConf::decode(0x8A79564D).encode(), 0x8A79564D);
    assert_eq!(
        ChopConf::decode(0xFFFFFFFF).encode(),
        0xFFFDDFFF,
    );
}

#[test]
fn cool_conf_fieldset_round_trip() {
    let v = CoolConf {
        semin: 11,
        seup: 1,
        semax: 7,
        sedn: 1,
        seimin: true,
        sgt: 54,
        sfilt: true,
    };
    assert_eq!(CoolConf::decode(v.encode()), v);
}

#[test]
fn cool_conf_raw_round_trip() {
    assert_eq!(CoolConf::decode(0x00000000).encode(), 0x00000000);
    assert_eq!(CoolConf::decode(0x00BFEF6F).encode(), 0x00BFEF6F);
    assert_eq!(CoolConf::decode(0x00B14762).encode(), 0x00B14762);
    assert_eq!(
        CoolConf::decode(0xFFFFFFFF).encode(),
        0x00BFEF6F,
    );
}

#[test]
fn pwm_conf_fieldset_round_trip() {
    let v = PwmConf {
        pwm_ofs: 178,
        pwm_grad: 158,
        pwm_freq: 2,
        pwm_autoscale: false,
        pwm_autograd: false,
        free_wheel: 3,
        pwm_reg: 12,
        pwm_lim: 6,
    };
    assert_eq!(PwmConf::decode(v.encode()), v);
}

#[test]
fn pwm_conf_raw_round_trip() {
    assert_eq!(PwmConf::decode(0x00000000).encode(), 0x00000000);
    assert_eq!(PwmConf::decode(0xFF3FFFFF).encode(), 0xFF3FFFFF);
    assert_eq!(PwmConf::decode(0xAD2F554A).encode(), 0xAD2F554A);
    assert_eq!(
        PwmConf::decode(0xFFFFFFFF).encode(),
        0xFF3FFFFF,
    );
}

#[test]
fn drv_status_fieldset_round_trip() {
    let v = DrvStatus {
        sg_result: 607,
        s2vsa: true,
        s2vsb: true,
        stealth: false,
        fsactive: false,
        cs_actual: 1,
        stallguard: false,
        ot: true,
        otpw: false,
        s2ga: false,
        s2gb: true,
        ola: true,
        olb: true,
        standstill: true,
    };
    assert_eq!(DrvStatus::decode(v.encode()), v);
}

#[test]
fn drv_status_raw_round_trip() {
    assert_eq!(DrvStatus::decode(0x00000000).encode(), 0x00000000);
    assert_eq!(DrvStatus::decode(0xFF1FF3FF).encode(), 0xFF1FF3FF);
    assert_eq!(DrvStatus::decode(0x2E1FA1D0).encode(), 0x2E1FA1D0);
    assert_eq!(
        DrvStatus::decode(0xFFFFFFFF).encode(),
        0xFF1FF3FF,
    );
}

#[test]
fn spi_status_round_trip() {
    for raw in [0x00u8, 0xFF, 0x5A, 0x81, 0x42] {
        assert_eq!(SpiStatus::decode(raw).encode(), raw);
    }
    let s = SpiStatus {
        status_stop_r: true,
        status_stop_l: false,
        position_reached: true,
        velocity_reached: false,
        standstill: true,
        sg2: false,
        driver_error: true,
        reset_flag: false,
    };
    assert_eq!(SpiStatus::decode(s.encode()), s);
}

#[test]
fn spi_status_decode_bit_pattern() {
    // bit 7 is stop-right, bit 0 is the reset flag
    let s = SpiStatus::decode(0b10000001);
    assert!(s.status_stop_r);
    assert!(!s.status_stop_l);
    assert!(!s.position_reached);
    assert!(!s.velocity_reached);
    assert!(!s.standstill);
    assert!(!s.sg2);
    assert!(!s.driver_error);
    assert!(s.reset_flag);
}

#[test]
fn chop_conf_power_on_default() {
    let c: ChopConf = Default::default();
    assert_eq!(c.encode(), 0x10410150);
    assert_eq!(c.toff, 0x0);
    assert_eq!(c.hstr, 0x5);
    assert_eq!(c.mres, 0x0);
}

#[test]
fn pwm_conf_power_on_default() {
    let c: PwmConf = Default::default();
    assert_eq!(c.encode(), 0xC40C001E);
    assert_eq!(c.pwm_ofs, 30);
    assert_eq!(c.pwm_grad, 0);
    assert!(c.pwm_autoscale);
    assert!(c.pwm_autograd);
    assert_eq!(c.pwm_reg, 4);
    assert_eq!(c.pwm_lim, 12);
}

#[test]
fn drv_status_flag_positions() {
    // standstill sits at the top bit, the stall measurement in the low bits
    let d = DrvStatus::decode(0x80000000);
    assert!(d.standstill);
    assert_eq!(d.sg_result, 0);
    let d = DrvStatus::decode(0x000003FF);
    assert!(!d.standstill);
    assert_eq!(d.sg_result, 1023);
    let d = DrvStatus::decode(0x001F0000);
    assert_eq!(d.cs_actual, 31);
}
