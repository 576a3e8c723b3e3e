use tmc5160::transport::{BusRecord, ScriptedStep, ScriptedTransport};
use tmc5160::{vactual_signed, Tmc5160};

fn reply(bytes: Vec<u8>) -> ScriptedStep {
    ScriptedStep { fail: false, reply: bytes }
}

#[test]
fn set_velocity_matches_the_manual_conversion() {
    // 1000 Hz with the default 12 MHz clock and 256 microsteps:
    // 1000 / (12_000_000 / 16_777_216) * 256, truncated toward zero
    let expected = (1000u128 * 16_777_216 * 256 / 12_000_000) as u32;
    assert_eq!(expected, 357_913);
    let mut d = Tmc5160::new(ScriptedTransport::new(Vec::new(), false));
    assert_eq!(d.speed_from_hz(1000), expected);
    d.set_velocity(1000).unwrap();
    assert_eq!(d.v_max, 1000);
    match &d.bus.events[1] {
        BusRecord::Xfer { tx, .. } => assert_eq!(tx, &vec![0x27 | 0x80]),
        _ => panic!("expected the VMAX command byte"),
    }
    match &d.bus.events[2] {
        BusRecord::Xfer { tx, .. } => assert_eq!(tx, &expected.to_be_bytes().to_vec()),
        _ => panic!("expected the VMAX payload"),
    }
}

#[test]
fn set_velocity_caches_the_commanded_maximum_even_on_failure() {
    let script = vec![ScriptedStep { fail: true, reply: Vec::new() }];
    let mut d = Tmc5160::new(ScriptedTransport::new(script, false));
    assert!(d.set_velocity(5000).is_err());
    assert_eq!(d.v_max, 5000);
    assert_eq!(d.get_velocity_max(), 5000 / 400);
}

#[test]
fn speed_conversion_scales_with_clock_and_steps() {
    let d = Tmc5160::new(ScriptedTransport::new(Vec::new(), false))
        .clock(16_777_216)
        .step_count(1);
    // with a 2^24 Hz clock the unit is exactly one Hz per count
    assert_eq!(d.speed_from_hz(1000), 1000);
    // the conversion clamps at the register width
    let d = Tmc5160::new(ScriptedTransport::new(Vec::new(), false)).clock(1);
    assert_eq!(d.speed_from_hz(0xFFFFFFFF), 0xFFFFFFFF);
}

#[test]
fn accel_conversion_matches_the_manual_formula() {
    let expected =
        (1000u128 * 512 * 256 * 16_777_216 * 256 / (12_000_000u128 * 12_000_000)) as u32;
    let d = Tmc5160::new(ScriptedTransport::new(Vec::new(), false));
    assert_eq!(d.accel_from_hz(1000), expected);
    assert_eq!(d.accel_from_hz(0), 0);
}

#[test]
fn velocity_decode_sign() {
    // a raw reading of one is a small positive velocity
    assert_eq!(vactual_signed(0x00000001), 1);
    assert!(vactual_signed(0x00000001) > 0);
    // bit 23 set means a negative two's complement reading
    assert_eq!(vactual_signed(0x00FFFFFF), -1);
    assert!(vactual_signed(0x00FFFFFF) < 0);
    assert_eq!(vactual_signed(0x00800000), -0x800000);
    assert_eq!(vactual_signed(0x007FFFFF), 0x7FFFFF);
    // bits above the packed 24 are ignored
    assert_eq!(vactual_signed(0xFF000001), 1);
}

#[test]
fn get_velocity_divides_by_the_step_count() {
    // a reading of -256 at 256 microsteps per step is -1
    let script = vec![
        reply(vec![0x00]),
        reply(vec![0, 0, 0, 0]),
        reply(vec![0x00]),
        reply(vec![0x00, 0xFF, 0xFF, 0x00]),
    ];
    let mut d = Tmc5160::new(ScriptedTransport::new(script, false));
    assert_eq!(d.get_velocity().unwrap(), -1);

    let script = vec![
        reply(vec![0x00]),
        reply(vec![0, 0, 0, 0]),
        reply(vec![0x00]),
        reply(vec![0x00, 0x00, 0x02, 0x00]),
    ];
    let mut d = Tmc5160::new(ScriptedTransport::new(script, false));
    assert_eq!(d.get_velocity().unwrap(), 2);
}

#[test]
fn get_position_scales_down() {
    // 102400 microsteps at 256 per step and the fixed constant 400 is 1
    let script = vec![
        reply(vec![0x00]),
        reply(vec![0, 0, 0, 0]),
        reply(vec![0x00]),
        reply(102_400u32.to_be_bytes().to_vec()),
    ];
    let mut d = Tmc5160::new(ScriptedTransport::new(script, false));
    assert_eq!(d.get_position().unwrap(), 1);
}

#[test]
fn get_target_reads_two_complement() {
    let script = vec![
        reply(vec![0x00]),
        reply(vec![0, 0, 0, 0]),
        reply(vec![0x00]),
        reply(vec![0xFF, 0xFF, 0xFF, 0xFF]),
    ];
    let mut d = Tmc5160::new(ScriptedTransport::new(script, false));
    assert_eq!(d.get_target().unwrap(), -1);

    let script = vec![
        reply(vec![0x00]),
        reply(vec![0, 0, 0, 0]),
        reply(vec![0x00]),
        reply(vec![0x00, 0x00, 0x01, 0x00]),
    ];
    let mut d = Tmc5160::new(ScriptedTransport::new(script, false));
    assert_eq!(d.get_target().unwrap(), 256);
}

#[test]
fn set_position_writes_the_scaled_position() {
    let mut d = Tmc5160::new(ScriptedTransport::new(Vec::new(), false));
    d.set_position(3).unwrap();
    match &d.bus.events[1] {
        BusRecord::Xfer { tx, .. } => assert_eq!(tx, &vec![0x21 | 0x80]),
        _ => panic!("expected the XACTUAL command byte"),
    }
    match &d.bus.events[2] {
        BusRecord::Xfer { tx, .. } => assert_eq!(tx, &768u32.to_be_bytes().to_vec()),
        _ => panic!("expected the XACTUAL payload"),
    }
}

#[test]
fn is_moving_negates_the_standstill_flag() {
    // DRV_STATUS with the standstill bit (bit 31) set: not moving
    let script = vec![
        reply(vec![0x00]),
        reply(vec![0, 0, 0, 0]),
        reply(vec![0x00]),
        reply(vec![0x80, 0, 0, 0]),
    ];
    let mut d = Tmc5160::new(ScriptedTransport::new(script, false));
    assert_eq!(d.is_moving().unwrap(), false);

    let script = vec![
        reply(vec![0x00]),
        reply(vec![0, 0, 0, 0]),
        reply(vec![0x00]),
        reply(vec![0x00, 0, 0, 0]),
    ];
    let mut d = Tmc5160::new(ScriptedTransport::new(script, false));
    assert_eq!(d.is_moving().unwrap(), true);
}

#[test]
fn limit_flags_come_from_the_ramp_status() {
    // RAMP_STAT bit 0 is the left stop, bit 1 the right stop
    let script = vec![
        reply(vec![0x00]),
        reply(vec![0, 0, 0, 0]),
        reply(vec![0x00]),
        reply(vec![0, 0, 0, 0x02]),
    ];
    let mut d = Tmc5160::new(ScriptedTransport::new(script, false));
    assert_eq!(d.is_at_limit_r().unwrap(), true);

    let script = vec![
        reply(vec![0x00]),
        reply(vec![0, 0, 0, 0]),
        reply(vec![0x00]),
        reply(vec![0, 0, 0, 0x01]),
    ];
    let mut d = Tmc5160::new(ScriptedTransport::new(script, false));
    assert_eq!(d.is_at_limit_l().unwrap(), true);
    assert!(d.status.reset_flag == false);
}

#[test]
fn typed_reads_decode_the_payload() {
    let script = vec![
        reply(vec![0x00]),
        reply(vec![0, 0, 0, 0]),
        reply(vec![0x09]),
        reply(vec![0, 0, 0, 0b101]),
    ];
    let mut d = Tmc5160::new(ScriptedTransport::new(script, false));
    let g = d.read_gstat().unwrap();
    assert!(g.reset);
    assert!(!g.drv_err);
    assert!(g.uv_cp);
    // the read updates the cached status byte
    assert_eq!(d.status.encode(), 0x09);
}

#[test]
fn read_register_targets_the_requested_address() {
    let mut d = Tmc5160::new(ScriptedTransport::new(Vec::new(), false));
    d.read_tstep().unwrap();
    let cmds: Vec<u8> = d
        .bus
        .events
        .iter()
        .filter_map(|e| match e {
            BusRecord::Xfer { tx, .. } if tx.len() == 1 => Some(tx[0]),
            _ => None,
        })
        .collect();
    assert_eq!(cmds, vec![0x12, 0x12]);
}
