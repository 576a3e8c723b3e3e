use tmc5160::registers::{RampMode, Registers};
use tmc5160::transport::{BusRecord, ScriptedStep, ScriptedTransport};
use tmc5160::{Error, Tmc5160};

fn reply(bytes: Vec<u8>) -> ScriptedStep {
    ScriptedStep { fail: false, reply: bytes }
}

fn failing() -> ScriptedStep {
    ScriptedStep { fail: true, reply: Vec::new() }
}

fn command_bytes(events: &[BusRecord]) -> Vec<u8> {
    events
        .iter()
        .filter_map(|e| match e {
            BusRecord::Xfer { tx, .. } if tx.len() == 1 => Some(tx[0]),
            _ => None,
        })
        .collect()
}

#[test]
fn read_register_returns_second_reply() {
    // the chip answers the first read with the previously latched value A;
    // the operation must return the second reply B
    let script = vec![
        reply(vec![0x00]),
        reply(vec![0xAA, 0xBB, 0xCC, 0xDD]),
        reply(vec![0x07]),
        reply(vec![0x11, 0x22, 0x33, 0x44]),
    ];
    let mut d = Tmc5160::new(ScriptedTransport::new(script, false));
    let p = d.read_register(Registers::GCONF).unwrap();
    assert_eq!(p.data, 0x11223344);
    assert_ne!(p.data, 0xAABBCCDD);
    // the cached status byte comes from the second transaction
    assert_eq!(d.status.encode(), 0x07);
    // two complete frames were exchanged, both addressed with bit 7 clear
    assert_eq!(command_bytes(&d.bus.events), vec![0x00, 0x00]);
    assert_eq!(d.bus.events.len(), 8);
    assert!(matches!(d.bus.events[0], BusRecord::Cs { low: true }));
    assert!(matches!(d.bus.events[3], BusRecord::Cs { low: false }));
}

#[test]
fn write_register_framing() {
    let script = vec![reply(vec![0x81]), reply(vec![0, 0, 0, 0])];
    let mut d = Tmc5160::new(ScriptedTransport::new(script, false));
    let p = d.write_register(Registers::VMAX, 0x01020304).unwrap();
    // the status byte of a write reflects the state from before the write
    assert_eq!(p.status.encode(), 0x81);
    assert_eq!(d.status, p.status);
    let evs = &d.bus.events;
    assert_eq!(evs.len(), 4);
    assert!(matches!(evs[0], BusRecord::Cs { low: true }));
    match &evs[1] {
        BusRecord::Xfer { tx, .. } => assert_eq!(tx, &vec![0x27 | 0x80]),
        _ => panic!("expected the command byte exchange"),
    }
    match &evs[2] {
        BusRecord::Xfer { tx, .. } => assert_eq!(tx, &vec![0x01, 0x02, 0x03, 0x04]),
        _ => panic!("expected the payload exchange"),
    }
    assert!(matches!(evs[3], BusRecord::Cs { low: false }));
}

#[test]
fn set_acceleration_stops_at_first_failed_write() {
    // four writes of two exchanges each; the command byte of the third
    // write fails
    let script = vec![
        reply(vec![0x00]),
        reply(vec![0, 0, 0, 0]),
        reply(vec![0x00]),
        reply(vec![0, 0, 0, 0]),
        failing(),
    ];
    let mut d = Tmc5160::new(ScriptedTransport::new(script, false));
    let err = d.set_acceleration(1000).unwrap_err();
    assert!(matches!(err, Error::Spi(())));
    let evs = &d.bus.events;
    // exactly two complete writes went out: AMAX and DMAX
    assert_eq!(command_bytes(evs), vec![0x26 | 0x80, 0x28 | 0x80]);
    // the failed attempt targeted A1
    assert!(evs.iter().any(|e| matches!(
        e,
        BusRecord::XferFail { tx } if tx == &vec![0x24 | 0x80]
    )));
    // no attempt was made for D1
    assert!(!evs.iter().any(|e| match e {
        BusRecord::Xfer { tx, .. } => tx[0] == (0x2A | 0x80),
        BusRecord::XferFail { tx } => tx[0] == (0x2A | 0x80),
        _ => false,
    }));
}

#[test]
fn set_acceleration_writes_all_four_ramp_registers() {
    let mut d = Tmc5160::new(ScriptedTransport::new(Vec::new(), false));
    d.set_acceleration(1000).unwrap();
    assert_eq!(
        command_bytes(&d.bus.events),
        vec![0x26 | 0x80, 0x28 | 0x80, 0x24 | 0x80, 0x2A | 0x80],
    );
    let expected =
        (1000u128 * 512 * 256 * 16_777_216 * 256 / (12_000_000u128 * 12_000_000)) as u32;
    // every ramp register receives the same converted payload
    let payloads: Vec<Vec<u8>> = d
        .bus
        .events
        .iter()
        .filter_map(|e| match e {
            BusRecord::Xfer { tx, .. } if tx.len() == 4 => Some(tx.clone()),
            _ => None,
        })
        .collect();
    assert_eq!(payloads.len(), 4);
    for p in payloads {
        assert_eq!(p, expected.to_be_bytes().to_vec());
    }
}

#[test]
fn stop_disables_before_any_register_write() {
    let mut d = Tmc5160::new(ScriptedTransport::new(Vec::new(), true));
    d.stop().unwrap();
    let evs = &d.bus.events;
    assert_eq!(evs.len(), 9);
    // the disable comes first: the output is driven high (not inverted)
    assert!(matches!(evs[0], BusRecord::Enable { high: true }));
    // then zero is written to VSTART, then to VMAX
    assert!(matches!(evs[1], BusRecord::Cs { low: true }));
    match &evs[2] {
        BusRecord::Xfer { tx, .. } => assert_eq!(tx, &vec![0x23 | 0x80]),
        _ => panic!("expected the VSTART command byte"),
    }
    match &evs[3] {
        BusRecord::Xfer { tx, .. } => assert_eq!(tx, &vec![0, 0, 0, 0]),
        _ => panic!("expected the VSTART payload"),
    }
    assert!(matches!(evs[4], BusRecord::Cs { low: false }));
    match &evs[6] {
        BusRecord::Xfer { tx, .. } => assert_eq!(tx, &vec![0x27 | 0x80]),
        _ => panic!("expected the VMAX command byte"),
    }
}

#[test]
fn stop_without_enable_output_only_writes() {
    let mut d = Tmc5160::new(ScriptedTransport::new(Vec::new(), false));
    d.stop().unwrap();
    assert_eq!(d.bus.events.len(), 8);
    assert!(matches!(d.bus.events[0], BusRecord::Cs { low: true }));
}

#[test]
fn stop_with_inverted_enable_drives_low() {
    let d0 = Tmc5160::new(ScriptedTransport::new(Vec::new(), true));
    let mut d = d0.en_inverted(true);
    d.stop().unwrap();
    assert!(matches!(d.bus.events[0], BusRecord::Enable { high: false }));
}

#[test]
fn enable_and_disable_drive_the_output() {
    let mut d = Tmc5160::new(ScriptedTransport::new(Vec::new(), true));
    d.enable().unwrap();
    d.disable().unwrap();
    assert!(matches!(d.bus.events[0], BusRecord::Enable { high: false }));
    assert!(matches!(d.bus.events[1], BusRecord::Enable { high: true }));
}

#[test]
fn enable_without_output_is_a_successful_no_op() {
    let mut d = Tmc5160::new(ScriptedTransport::new(Vec::new(), false));
    d.enable().unwrap();
    d.disable().unwrap();
    assert!(d.bus.events.is_empty());
}

#[test]
fn enable_pin_failure_is_a_pin_error() {
    let mut t = ScriptedTransport::new(Vec::new(), true);
    t.fail_enable = true;
    let mut d = Tmc5160::new(t);
    assert!(matches!(d.enable(), Err(Error::PinError)));
    assert!(matches!(d.stop(), Err(Error::PinError)));
    assert!(d.bus.events.is_empty());
}

#[test]
fn chip_select_failure_is_a_pin_error() {
    let mut t = ScriptedTransport::new(Vec::new(), false);
    t.fail_cs = true;
    let mut d = Tmc5160::new(t);
    assert!(matches!(d.read_register(Registers::GCONF), Err(Error::PinError)));
    assert!(d.bus.events.is_empty());
}

#[test]
fn bus_failure_is_a_spi_error_and_deasserts() {
    let script = vec![failing()];
    let mut d = Tmc5160::new(ScriptedTransport::new(script, false));
    assert!(matches!(d.read_register(Registers::GCONF), Err(Error::Spi(()))));
    // the select was asserted, the exchange failed, the deassert was still
    // attempted
    let evs = &d.bus.events;
    assert_eq!(evs.len(), 3);
    assert!(matches!(evs[0], BusRecord::Cs { low: true }));
    assert!(matches!(&evs[1], BusRecord::XferFail { .. }));
    assert!(matches!(evs[2], BusRecord::Cs { low: false }));
}

#[test]
fn failed_read_leaves_cached_status_alone() {
    let script = vec![
        reply(vec![0x55]),
        reply(vec![1, 2, 3, 4]),
        failing(),
    ];
    let mut d = Tmc5160::new(ScriptedTransport::new(script, false));
    let before = d.status;
    assert!(d.read_register(Registers::GCONF).is_err());
    assert_eq!(d.status, before);
}

#[test]
fn set_home_writes_zero_to_both_position_registers() {
    let mut d = Tmc5160::new(ScriptedTransport::new(Vec::new(), false));
    d.set_home().unwrap();
    assert_eq!(command_bytes(&d.bus.events), vec![0x21 | 0x80, 0x2D | 0x80]);
    for e in d.bus.events.iter() {
        if let BusRecord::Xfer { tx, .. } = e {
            if tx.len() == 4 {
                assert_eq!(tx, &vec![0, 0, 0, 0]);
            }
        }
    }
}

#[test]
fn move_to_enables_then_writes_scaled_target() {
    let mut d = Tmc5160::new(ScriptedTransport::new(Vec::new(), true));
    d.move_to(2).unwrap();
    let evs = &d.bus.events;
    // enable first (driven low: not inverted), then the XTARGET write
    assert!(matches!(evs[0], BusRecord::Enable { high: false }));
    match &evs[2] {
        BusRecord::Xfer { tx, .. } => assert_eq!(tx, &vec![0x2D | 0x80]),
        _ => panic!("expected the XTARGET command byte"),
    }
    match &evs[3] {
        BusRecord::Xfer { tx, .. } => assert_eq!(tx, &512u32.to_be_bytes().to_vec()),
        _ => panic!("expected the XTARGET payload"),
    }
}

#[test]
fn move_to_negative_target_wraps_two_complement() {
    let mut d = Tmc5160::new(ScriptedTransport::new(Vec::new(), false));
    d.move_to(-1).unwrap();
    match &d.bus.events[2] {
        BusRecord::Xfer { tx, .. } => {
            assert_eq!(tx, &0xFFFFFF00u32.to_be_bytes().to_vec());
        }
        _ => panic!("expected the XTARGET payload"),
    }
}

#[test]
fn clear_g_stat_writes_the_clear_pattern() {
    let mut d = Tmc5160::new(ScriptedTransport::new(Vec::new(), false));
    d.clear_g_stat().unwrap();
    assert_eq!(command_bytes(&d.bus.events), vec![0x01 | 0x80]);
    match &d.bus.events[2] {
        BusRecord::Xfer { tx, .. } => assert_eq!(tx, &vec![0, 0, 0, 0b111]),
        _ => panic!("expected the GSTAT payload"),
    }
}

#[test]
fn update_g_conf_writes_the_cached_fields() {
    let mut d = Tmc5160::new(ScriptedTransport::new(Vec::new(), false));
    d.g_conf.recalibrate = true;
    d.g_conf.faststandstill = true;
    d.g_conf.en_pwm_mode = true;
    d.update_g_conf().unwrap();
    assert_eq!(command_bytes(&d.bus.events), vec![0x00 | 0x80]);
    match &d.bus.events[2] {
        BusRecord::Xfer { tx, .. } => assert_eq!(tx, &vec![0, 0, 0, 0b111]),
        _ => panic!("expected the GCONF payload"),
    }
}

#[test]
fn update_chop_conf_writes_the_default_exactly() {
    let mut d = Tmc5160::new(ScriptedTransport::new(Vec::new(), false));
    d.chop_conf = Default::default();
    d.update_chop_conf().unwrap();
    match &d.bus.events[2] {
        BusRecord::Xfer { tx, .. } => {
            assert_eq!(tx, &0x10410150u32.to_be_bytes().to_vec());
        }
        _ => panic!("expected the CHOPCONF payload"),
    }
}

#[test]
fn set_rampmode_writes_the_mode_value() {
    let mut d = Tmc5160::new(ScriptedTransport::new(Vec::new(), false));
    d.set_rampmode(RampMode::VelocityModeNeg).unwrap();
    assert_eq!(command_bytes(&d.bus.events), vec![0x20 | 0x80]);
    match &d.bus.events[2] {
        BusRecord::Xfer { tx, .. } => assert_eq!(tx, &vec![0, 0, 0, 2]),
        _ => panic!("expected the RAMPMODE payload"),
    }
}
