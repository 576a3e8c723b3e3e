//! Register catalog: the enumeration of register addresses and the bit-field
//! codecs of the structured registers.
//!
//! Every address is 7 bits wide; bit 7 of the command byte is reserved for the
//! read/write direction and is never set by the catalog itself. Each structured
//! register type decodes from and encodes to its 32-bit register value (the
//! status byte from an 8-bit value); both directions are lossless over the
//! defined bits, and reserved bits are zero on encode and ignored on decode.

use vstd::prelude::*;

verus! {

/// Conversion from a register identifier to its 7-bit bus address.
pub trait Address: Sized {
    /// The address as a mathematical value; always at most `0x7F`.
    spec fn addr_spec(self) -> u8;

    /// Return the register's 7-bit bus address.
    fn addr(self) -> (a: u8)
        ensures
            a == self.addr_spec(),
            a <= 0x7F,
    ;
}

/// Register addresses of the chip.
#[derive(Debug, Copy, Clone, PartialEq, Eq, Structural)]
#[allow(non_camel_case_types)]
pub enum Registers {
    /// Global configuration flags
    GCONF,
    /// Global status flags
    GSTAT,
    /// UART transmission counter
    IFCNT,
    /// UART slave configuration
    SLAVECONF,
    /// Read input / write output pins
    IOIN,
    /// Position comparison register
    X_COMPARE,
    /// OTP programming register
    OTP_PROG,
    /// OTP read register
    OTP_READ,
    /// Factory configuration (clock trim)
    FACTORY_CONF,
    /// Short detector configuration
    SHORT_CONF,
    /// Driver configuration
    DRV_CONF,
    /// Global scaling of motor current
    GLOBALSCALER,
    /// Offset calibration results
    OFFSET_READ,
    /// Driver current control
    IHOLD_IRUN,
    /// Delay before power down
    TPOWERDOWN,
    /// Actual time between microsteps
    TSTEP,
    /// Upper velocity for stealth chop voltage PWM mode
    TPWMTHRS,
    /// Lower threshold velocity for switching on smart energy features
    TCOOLTHRS,
    /// Velocity threshold for switching chopper mode and fullstepping
    THIGH,
    /// Driving mode (velocity, positioning, hold)
    RAMPMODE,
    /// Actual motor position
    XACTUAL,
    /// Actual motor velocity from the ramp generator
    VACTUAL,
    /// Motor start velocity
    VSTART,
    /// First acceleration between VSTART and V1
    A1,
    /// First acceleration/deceleration phase target velocity
    V1,
    /// Second acceleration between V1 and VMAX
    AMAX,
    /// Target velocity in velocity mode
    VMAX,
    /// Deceleration between VMAX and V1
    DMAX,
    /// Deceleration between V1 and VSTOP
    D1,
    /// Motor stop velocity
    VSTOP,
    /// Waiting time after ramping down to zero velocity
    TZEROWAIT,
    /// Target position for ramp mode
    XTARGET,
    /// Velocity threshold for enabling automatic commutation
    VDCMIN,
    /// Switch mode configuration
    SW_MODE,
    /// Ramp status and switch event status
    RAMP_STAT,
    /// Ramp generator latch position upon a switch event
    XLATCH,
    /// Encoder configuration and use of the N channel
    ENCMODE,
    /// Actual encoder position
    X_ENC,
    /// Accumulation constant
    ENC_CONST,
    /// Encoder status information
    ENC_STATUS,
    /// Encoder position latched on an N event
    ENC_LATCH,
    /// Maximum deviation between encoder counter and XACTUAL
    ENC_DEVIATION,
    /// Microstep table entries
    MSLUT_0_7,
    /// Look up table segmentation definition
    MSLUTSEL,
    /// Absolute current at microstep table entries 0 and 256
    MSLUTSTART,
    /// Actual position in the microstep table
    MSCNT,
    /// Actual microstep current
    MSCURACT,
    /// Chopper and driver configuration
    CHOPCONF,
    /// Smart current control and stall detection configuration
    COOLCONF,
    /// Automatic commutation configuration
    DCCTRL,
    /// Stall detection and driver error flags
    DRV_STATUS,
    /// Voltage PWM mode chopper configuration
    PWMCONF,
    /// Results of the PWM amplitude regulator
    PWM_SCALE,
    /// Automatically determined PWM configuration values
    PWM_AUTO,
    /// Number of input steps skipped
    LOST_STEPS,
}

impl Registers {
    /// The chip-defined 7-bit address of each register.
    pub open spec fn address(self) -> u8 {
        match self {
            Registers::GCONF => 0x00,
            Registers::GSTAT => 0x01,
            Registers::IFCNT => 0x02,
            Registers::SLAVECONF => 0x03,
            Registers::IOIN => 0x04,
            Registers::X_COMPARE => 0x05,
            Registers::OTP_PROG => 0x06,
            Registers::OTP_READ => 0x07,
            Registers::FACTORY_CONF => 0x08,
            Registers::SHORT_CONF => 0x09,
            Registers::DRV_CONF => 0x0A,
            Registers::GLOBALSCALER => 0x0B,
            Registers::OFFSET_READ => 0x0C,
            Registers::IHOLD_IRUN => 0x10,
            Registers::TPOWERDOWN => 0x11,
            Registers::TSTEP => 0x12,
            Registers::TPWMTHRS => 0x13,
            Registers::TCOOLTHRS => 0x14,
            Registers::THIGH => 0x15,
            Registers::RAMPMODE => 0x20,
            Registers::XACTUAL => 0x21,
            Registers::VACTUAL => 0x22,
            Registers::VSTART => 0x23,
            Registers::A1 => 0x24,
            Registers::V1 => 0x25,
            Registers::AMAX => 0x26,
            Registers::VMAX => 0x27,
            Registers::DMAX => 0x28,
            Registers::D1 => 0x2A,
            Registers::VSTOP => 0x2B,
            Registers::TZEROWAIT => 0x2C,
            Registers::XTARGET => 0x2D,
            Registers::VDCMIN => 0x33,
            Registers::SW_MODE => 0x34,
            Registers::RAMP_STAT => 0x35,
            Registers::XLATCH => 0x36,
            Registers::ENCMODE => 0x38,
            Registers::X_ENC => 0x39,
            Registers::ENC_CONST => 0x3A,
            Registers::ENC_STATUS => 0x3B,
            Registers::ENC_LATCH => 0x3C,
            Registers::ENC_DEVIATION => 0x3D,
            Registers::MSLUT_0_7 => 0x60,
            Registers::MSLUTSEL => 0x68,
            Registers::MSLUTSTART => 0x69,
            Registers::MSCNT => 0x6A,
            Registers::MSCURACT => 0x6B,
            Registers::CHOPCONF => 0x6C,
            Registers::COOLCONF => 0x6D,
            Registers::DCCTRL => 0x6E,
            Registers::DRV_STATUS => 0x6F,
            Registers::PWMCONF => 0x70,
            Registers::PWM_SCALE => 0x71,
            Registers::PWM_AUTO => 0x72,
            Registers::LOST_STEPS => 0x73,
        }
    }
}

impl Address for Registers {
    open spec fn addr_spec(self) -> u8 {
        self.address()
    }

    fn addr(self) -> (a: u8) {
        match self {
            Registers::GCONF => 0x00,
            Registers::GSTAT => 0x01,
            Registers::IFCNT => 0x02,
            Registers::SLAVECONF => 0x03,
            Registers::IOIN => 0x04,
            Registers::X_COMPARE => 0x05,
            Registers::OTP_PROG => 0x06,
            Registers::OTP_READ => 0x07,
            Registers::FACTORY_CONF => 0x08,
            Registers::SHORT_CONF => 0x09,
            Registers::DRV_CONF => 0x0A,
            Registers::GLOBALSCALER => 0x0B,
            Registers::OFFSET_READ => 0x0C,
            Registers::IHOLD_IRUN => 0x10,
            Registers::TPOWERDOWN => 0x11,
            Registers::TSTEP => 0x12,
            Registers::TPWMTHRS => 0x13,
            Registers::TCOOLTHRS => 0x14,
            Registers::THIGH => 0x15,
            Registers::RAMPMODE => 0x20,
            Registers::XACTUAL => 0x21,
            Registers::VACTUAL => 0x22,
            Registers::VSTART => 0x23,
            Registers::A1 => 0x24,
            Registers::V1 => 0x25,
            Registers::AMAX => 0x26,
            Registers::VMAX => 0x27,
            Registers::DMAX => 0x28,
            Registers::D1 => 0x2A,
            Registers::VSTOP => 0x2B,
            Registers::TZEROWAIT => 0x2C,
            Registers::XTARGET => 0x2D,
            Registers::VDCMIN => 0x33,
            Registers::SW_MODE => 0x34,
            Registers::RAMP_STAT => 0x35,
            Registers::XLATCH => 0x36,
            Registers::ENCMODE => 0x38,
            Registers::X_ENC => 0x39,
            Registers::ENC_CONST => 0x3A,
            Registers::ENC_STATUS => 0x3B,
            Registers::ENC_LATCH => 0x3C,
            Registers::ENC_DEVIATION => 0x3D,
            Registers::MSLUT_0_7 => 0x60,
            Registers::MSLUTSEL => 0x68,
            Registers::MSLUTSTART => 0x69,
            Registers::MSCNT => 0x6A,
            Registers::MSCURACT => 0x6B,
            Registers::CHOPCONF => 0x6C,
            Registers::COOLCONF => 0x6D,
            Registers::DCCTRL => 0x6E,
            Registers::DRV_STATUS => 0x6F,
            Registers::PWMCONF => 0x70,
            Registers::PWM_SCALE => 0x71,
            Registers::PWM_AUTO => 0x72,
            Registers::LOST_STEPS => 0x73,
        }
    }
}

/// Every register address fits in 7 bits, so the direction bit (bit 7) of a
/// command byte is never set by the catalog itself, and distinct registers
/// keep distinct addresses under both the read framing (`a & 0x7F`) and the
/// write framing (`a | 0x80`).
pub proof fn lemma_addresses_distinct(r1: Registers, r2: Registers)
    ensures
        r1.address() <= 0x7F,
        r1.address() & 0x7F == r1.address(),
        r1 != r2 ==> r1.address() != r2.address(),
        r1 != r2 ==> (r1.address() | 0x80) != (r2.address() | 0x80),
        r1 != r2 ==> (r1.address() & 0x7F) != (r2.address() & 0x7F),
{
    let a1 = r1.address();
    let a2 = r2.address();
    assert(a1 <= 0x7F);
    assert(a1 & 0x7F == a1) by (bit_vector)
        requires a1 <= 0x7F;
    if r1 != r2 {
        assert(a1 != a2);
        assert((a1 | 0x80) != (a2 | 0x80) && (a1 & 0x7F) != (a2 & 0x7F)) by (bit_vector)
            requires a1 <= 0x7F && a2 <= 0x7F && a1 != a2;
    }
}

/// Status byte returned alongside every bus transaction.
///
/// Eight single-bit flags, from bit 7 down to bit 0: stop-right, stop-left,
/// position-reached, velocity-reached, standstill, stall-guard, driver-error,
/// reset-flag.
#[derive(Debug, Copy, Clone, PartialEq, Eq, Structural)]
pub struct SpiStatus {
    /// Right stop switch was hit (bit 7)
    pub status_stop_r: bool,
    /// Left stop switch was hit (bit 6)
    pub status_stop_l: bool,
    /// Target position reached (bit 5)
    pub position_reached: bool,
    /// Target velocity reached (bit 4)
    pub velocity_reached: bool,
    /// Motor stands still (bit 3)
    pub standstill: bool,
    /// Stall guard flag (bit 2)
    pub sg2: bool,
    /// Driver error (bit 1)
    pub driver_error: bool,
    /// A reset has occurred (bit 0)
    pub reset_flag: bool,
}

impl SpiStatus {
    /// The all-clear status value.
    pub open spec fn zeroed() -> SpiStatus {
        SpiStatus {
            status_stop_r: false,
            status_stop_l: false,
            position_reached: false,
            velocity_reached: false,
            standstill: false,
            sg2: false,
            driver_error: false,
            reset_flag: false,
        }
    }

    /// Decomposition of a raw status byte into its flags.
    pub open spec fn decode_spec(x: u8) -> SpiStatus {
        SpiStatus {
            status_stop_r: x & 0x80 != 0,
            status_stop_l: x & 0x40 != 0,
            position_reached: x & 0x20 != 0,
            velocity_reached: x & 0x10 != 0,
            standstill: x & 0x08 != 0,
            sg2: x & 0x04 != 0,
            driver_error: x & 0x02 != 0,
            reset_flag: x & 0x01 != 0,
        }
    }

    /// The raw status byte that carries these flags.
    pub open spec fn encode_spec(self) -> u8 {
        (if self.status_stop_r { 0x80u8 } else { 0u8 })
            | (if self.status_stop_l { 0x40u8 } else { 0u8 })
            | (if self.position_reached { 0x20u8 } else { 0u8 })
            | (if self.velocity_reached { 0x10u8 } else { 0u8 })
            | (if self.standstill { 0x08u8 } else { 0u8 })
            | (if self.sg2 { 0x04u8 } else { 0u8 })
            | (if self.driver_error { 0x02u8 } else { 0u8 })
            | (if self.reset_flag { 0x01u8 } else { 0u8 })
    }

    /// An all-clear status.
    pub fn new() -> (r: SpiStatus)
        ensures
            r == SpiStatus::zeroed(),
    {
        SpiStatus {
            status_stop_r: false,
            status_stop_l: false,
            position_reached: false,
            velocity_reached: false,
            standstill: false,
            sg2: false,
            driver_error: false,
            reset_flag: false,
        }
    }

    /// Decode a raw status byte.
    pub fn decode(x: u8) -> (r: SpiStatus)
        ensures
            r == SpiStatus::decode_spec(x),
    {
        SpiStatus {
            status_stop_r: x & 0x80 != 0,
            status_stop_l: x & 0x40 != 0,
            position_reached: x & 0x20 != 0,
            velocity_reached: x & 0x10 != 0,
            standstill: x & 0x08 != 0,
            sg2: x & 0x04 != 0,
            driver_error: x & 0x02 != 0,
            reset_flag: x & 0x01 != 0,
        }
    }

    /// Re-encode the flags into a raw status byte.
    pub fn encode(self) -> (r: u8)
        ensures
            r == self.encode_spec(),
    {
        (if self.status_stop_r { 0x80u8 } else { 0u8 })
            | (if self.status_stop_l { 0x40u8 } else { 0u8 })
            | (if self.position_reached { 0x20u8 } else { 0u8 })
            | (if self.velocity_reached { 0x10u8 } else { 0u8 })
            | (if self.standstill { 0x08u8 } else { 0u8 })
            | (if self.sg2 { 0x04u8 } else { 0u8 })
            | (if self.driver_error { 0x02u8 } else { 0u8 })
            | (if self.reset_flag { 0x01u8 } else { 0u8 })
    }

    /// Decoding a status byte and re-encoding the flags reproduces the byte:
    /// every bit of the status byte carries a defined flag.
    pub proof fn lemma_decode_then_encode(x: u8)
        ensures
            SpiStatus::decode_spec(x).encode_spec() == x,
    {
        assert((if x & 0x80 != 0 { 0x80u8 } else { 0u8 })
            | (if x & 0x40 != 0 { 0x40u8 } else { 0u8 })
            | (if x & 0x20 != 0 { 0x20u8 } else { 0u8 })
            | (if x & 0x10 != 0 { 0x10u8 } else { 0u8 })
            | (if x & 0x08 != 0 { 0x08u8 } else { 0u8 })
            | (if x & 0x04 != 0 { 0x04u8 } else { 0u8 })
            | (if x & 0x02 != 0 { 0x02u8 } else { 0u8 })
            | (if x & 0x01 != 0 { 0x01u8 } else { 0u8 }) == x) by (bit_vector);
    }

    /// Encoding a set of flags and decoding the byte yields the flags again.
    pub proof fn lemma_encode_then_decode(s: SpiStatus)
        ensures
            SpiStatus::decode_spec(s.encode_spec()) == s,
    {
        let b7 = s.status_stop_r;
        let b6 = s.status_stop_l;
        let b5 = s.position_reached;
        let b4 = s.velocity_reached;
        let b3 = s.standstill;
        let b2 = s.sg2;
        let b1 = s.driver_error;
        let b0 = s.reset_flag;
        let e = s.encode_spec();
        assert((e & 0x80 != 0) == b7 && (e & 0x40 != 0) == b6 && (e & 0x20 != 0) == b5
            && (e & 0x10 != 0) == b4 && (e & 0x08 != 0) == b3 && (e & 0x04 != 0) == b2
            && (e & 0x02 != 0) == b1 && (e & 0x01 != 0) == b0) by (bit_vector)
            requires
                e == (if b7 { 0x80u8 } else { 0u8 }) | (if b6 { 0x40u8 } else { 0u8 })
                    | (if b5 { 0x20u8 } else { 0u8 }) | (if b4 { 0x10u8 } else { 0u8 })
                    | (if b3 { 0x08u8 } else { 0u8 }) | (if b2 { 0x04u8 } else { 0u8 })
                    | (if b1 { 0x02u8 } else { 0u8 }) | (if b0 { 0x01u8 } else { 0u8 }),
        ;
        assert(SpiStatus::decode_spec(e) == s);
    }
}

/// Global configuration flags (GCONF).
#[derive(Debug, Copy, Clone, PartialEq, Eq, Structural)]
pub struct GConf {
    /// Zero the motor current calibration (bit 0)
    pub recalibrate: bool,
    /// Short standstill detection timeout (bit 1)
    pub faststandstill: bool,
    /// Enable the voltage PWM chopper mode (bit 2)
    pub en_pwm_mode: bool,
    /// Filter external step pulses (bit 3)
    pub multistep_filt: bool,
    /// Invert the motor direction (bit 4)
    pub shaft: bool,
    /// Diagnostic output 0 on driver error (bit 5)
    pub diag0_error: bool,
    /// Diagnostic output 0 on over temperature (bit 6)
    pub diag0_otp: bool,
    /// Diagnostic output 0 on stall (bit 7)
    pub diag0_stall: bool,
    /// Diagnostic output 1 on stall (bit 8)
    pub diag1_stall: bool,
    /// Diagnostic output 1 on index position (bit 9)
    pub diag1_index: bool,
    /// Diagnostic output 1 while the chopper is on (bit 10)
    pub diag1_onstate: bool,
    /// Diagnostic output 1 on skipped steps (bit 11)
    pub diag1_steps_skipped: bool,
    /// Diagnostic output 0 is push pull (bit 12)
    pub diag0_int_pushpull: bool,
    /// Diagnostic output 1 is push pull (bit 13)
    pub diag1_poscomp_pushpull: bool,
    /// Smaller step frequency hysteresis (bit 14)
    pub small_hysteresis: bool,
    /// Emergency stop input enabled (bit 15)
    pub stop_enable: bool,
    /// Direct coil current control (bit 16)
    pub direct_mode: bool,
}

impl GConf {
    /// The register bits that carry a defined field.
    pub open spec fn mask() -> u32 {
        0x1FFFF
    }

    /// The value with every field clear.
    pub open spec fn zeroed() -> GConf {
        GConf {
            recalibrate: false,
            faststandstill: false,
            en_pwm_mode: false,
            multistep_filt: false,
            shaft: false,
            diag0_error: false,
            diag0_otp: false,
            diag0_stall: false,
            diag1_stall: false,
            diag1_index: false,
            diag1_onstate: false,
            diag1_steps_skipped: false,
            diag0_int_pushpull: false,
            diag1_poscomp_pushpull: false,
            small_hysteresis: false,
            stop_enable: false,
            direct_mode: false,
        }
    }

    /// Every multi-bit field is within its bit width.
    pub open spec fn wf(self) -> bool {
        true
    }

    /// Decomposition of a raw register value into its fields.
    pub open spec fn decode_spec(x: u32) -> GConf {
        GConf {
            recalibrate: x & 0x1 != 0,
            faststandstill: x & 0x2 != 0,
            en_pwm_mode: x & 0x4 != 0,
            multistep_filt: x & 0x8 != 0,
            shaft: x & 0x10 != 0,
            diag0_error: x & 0x20 != 0,
            diag0_otp: x & 0x40 != 0,
            diag0_stall: x & 0x80 != 0,
            diag1_stall: x & 0x100 != 0,
            diag1_index: x & 0x200 != 0,
            diag1_onstate: x & 0x400 != 0,
            diag1_steps_skipped: x & 0x800 != 0,
            diag0_int_pushpull: x & 0x1000 != 0,
            diag1_poscomp_pushpull: x & 0x2000 != 0,
            small_hysteresis: x & 0x4000 != 0,
            stop_enable: x & 0x8000 != 0,
            direct_mode: x & 0x10000 != 0,
        }
    }

    /// The raw register value that carries these fields.
    pub open spec fn encode_spec(self) -> u32 {
        (if self.recalibrate { 0x1u32 } else { 0u32 })
            | (if self.faststandstill { 0x2u32 } else { 0u32 })
            | (if self.en_pwm_mode { 0x4u32 } else { 0u32 })
            | (if self.multistep_filt { 0x8u32 } else { 0u32 })
            | (if self.shaft { 0x10u32 } else { 0u32 })
            | (if self.diag0_error { 0x20u32 } else { 0u32 })
            | (if self.diag0_otp { 0x40u32 } else { 0u32 })
            | (if self.diag0_stall { 0x80u32 } else { 0u32 })
            | (if self.diag1_stall { 0x100u32 } else { 0u32 })
            | (if self.diag1_index { 0x200u32 } else { 0u32 })
            | (if self.diag1_onstate { 0x400u32 } else { 0u32 })
            | (if self.diag1_steps_skipped { 0x800u32 } else { 0u32 })
            | (if self.diag0_int_pushpull { 0x1000u32 } else { 0u32 })
            | (if self.diag1_poscomp_pushpull { 0x2000u32 } else { 0u32 })
            | (if self.small_hysteresis { 0x4000u32 } else { 0u32 })
            | (if self.stop_enable { 0x8000u32 } else { 0u32 })
            | (if self.direct_mode { 0x10000u32 } else { 0u32 })
    }

    /// A value with every field clear.
    pub fn new() -> (r: GConf)
        ensures
            r == GConf::zeroed(),
    {
        GConf {
            recalibrate: false,
            faststandstill: false,
            en_pwm_mode: false,
            multistep_filt: false,
            shaft: false,
            diag0_error: false,
            diag0_otp: false,
            diag0_stall: false,
            diag1_stall: false,
            diag1_index: false,
            diag1_onstate: false,
            diag1_steps_skipped: false,
            diag0_int_pushpull: false,
            diag1_poscomp_pushpull: false,
            small_hysteresis: false,
            stop_enable: false,
            direct_mode: false,
        }
    }

    /// Decode a raw register value.
    pub fn decode(x: u32) -> (r: GConf)
        ensures
            r == GConf::decode_spec(x),
    {
        GConf {
            recalibrate: x & 0x1 != 0,
            faststandstill: x & 0x2 != 0,
            en_pwm_mode: x & 0x4 != 0,
            multistep_filt: x & 0x8 != 0,
            shaft: x & 0x10 != 0,
            diag0_error: x & 0x20 != 0,
            diag0_otp: x & 0x40 != 0,
            diag0_stall: x & 0x80 != 0,
            diag1_stall: x & 0x100 != 0,
            diag1_index: x & 0x200 != 0,
            diag1_onstate: x & 0x400 != 0,
            diag1_steps_skipped: x & 0x800 != 0,
            diag0_int_pushpull: x & 0x1000 != 0,
            diag1_poscomp_pushpull: x & 0x2000 != 0,
            small_hysteresis: x & 0x4000 != 0,
            stop_enable: x & 0x8000 != 0,
            direct_mode: x & 0x10000 != 0,
        }
    }

    /// Re-encode the fields into a raw register value.
    pub fn encode(self) -> (r: u32)
        ensures
            r == self.encode_spec(),
    {
        (if self.recalibrate { 0x1u32 } else { 0u32 })
            | (if self.faststandstill { 0x2u32 } else { 0u32 })
            | (if self.en_pwm_mode { 0x4u32 } else { 0u32 })
            | (if self.multistep_filt { 0x8u32 } else { 0u32 })
            | (if self.shaft { 0x10u32 } else { 0u32 })
            | (if self.diag0_error { 0x20u32 } else { 0u32 })
            | (if self.diag0_otp { 0x40u32 } else { 0u32 })
            | (if self.diag0_stall { 0x80u32 } else { 0u32 })
            | (if self.diag1_stall { 0x100u32 } else { 0u32 })
            | (if self.diag1_index { 0x200u32 } else { 0u32 })
            | (if self.diag1_onstate { 0x400u32 } else { 0u32 })
            | (if self.diag1_steps_skipped { 0x800u32 } else { 0u32 })
            | (if self.diag0_int_pushpull { 0x1000u32 } else { 0u32 })
            | (if self.diag1_poscomp_pushpull { 0x2000u32 } else { 0u32 })
            | (if self.small_hysteresis { 0x4000u32 } else { 0u32 })
            | (if self.stop_enable { 0x8000u32 } else { 0u32 })
            | (if self.direct_mode { 0x10000u32 } else { 0u32 })
    }

    /// Decoded fields are within their bit widths, and re-encoding them
    /// reproduces every raw value whose reserved bits are zero.
    pub proof fn lemma_decode_then_encode(x: u32)
        ensures
            GConf::decode_spec(x).wf(),
            x & GConf::mask() == x ==> GConf::decode_spec(x).encode_spec() == x,
    {
        assert((x & 0x1FFFF == x ==> (if x & 0x1 != 0 { 0x1u32 } else { 0u32 })
            | (if x & 0x2 != 0 { 0x2u32 } else { 0u32 })
            | (if x & 0x4 != 0 { 0x4u32 } else { 0u32 })
            | (if x & 0x8 != 0 { 0x8u32 } else { 0u32 })
            | (if x & 0x10 != 0 { 0x10u32 } else { 0u32 })
            | (if x & 0x20 != 0 { 0x20u32 } else { 0u32 })
            | (if x & 0x40 != 0 { 0x40u32 } else { 0u32 })
            | (if x & 0x80 != 0 { 0x80u32 } else { 0u32 })
            | (if x & 0x100 != 0 { 0x100u32 } else { 0u32 })
            | (if x & 0x200 != 0 { 0x200u32 } else { 0u32 })
            | (if x & 0x400 != 0 { 0x400u32 } else { 0u32 })
            | (if x & 0x800 != 0 { 0x800u32 } else { 0u32 })
            | (if x & 0x1000 != 0 { 0x1000u32 } else { 0u32 })
            | (if x & 0x2000 != 0 { 0x2000u32 } else { 0u32 })
            | (if x & 0x4000 != 0 { 0x4000u32 } else { 0u32 })
            | (if x & 0x8000 != 0 { 0x8000u32 } else { 0u32 })
            | (if x & 0x10000 != 0 { 0x10000u32 } else { 0u32 }) == x)) by (bit_vector);
    }

    /// Encoding well formed fields sets no reserved bit, and decoding the
    /// raw value yields the fields again.
    #[verifier::rlimit(100)]
    pub proof fn lemma_encode_then_decode(s: GConf)
        requires
            s.wf(),
        ensures
            GConf::decode_spec(s.encode_spec()) == s,
            s.encode_spec() & GConf::mask() == s.encode_spec(),
    {
        let recalibrate = s.recalibrate;
        let faststandstill = s.faststandstill;
        let en_pwm_mode = s.en_pwm_mode;
        let multistep_filt = s.multistep_filt;
        let shaft = s.shaft;
        let diag0_error = s.diag0_error;
        let diag0_otp = s.diag0_otp;
        let diag0_stall = s.diag0_stall;
        let diag1_stall = s.diag1_stall;
        let diag1_index = s.diag1_index;
        let diag1_onstate = s.diag1_onstate;
        let diag1_steps_skipped = s.diag1_steps_skipped;
        let diag0_int_pushpull = s.diag0_int_pushpull;
        let diag1_poscomp_pushpull = s.diag1_poscomp_pushpull;
        let small_hysteresis = s.small_hysteresis;
        let stop_enable = s.stop_enable;
        let direct_mode = s.direct_mode;
        let e = s.encode_spec();
        assert((e & 0x1 != 0) == recalibrate
            && (e & 0x2 != 0) == faststandstill
            && (e & 0x4 != 0) == en_pwm_mode
            && (e & 0x8 != 0) == multistep_filt
            && (e & 0x10 != 0) == shaft
            && (e & 0x20 != 0) == diag0_error
            && (e & 0x40 != 0) == diag0_otp
            && (e & 0x80 != 0) == diag0_stall
            && (e & 0x100 != 0) == diag1_stall) by (bit_vector)
            requires
                e == (if recalibrate { 0x1u32 } else { 0u32 })
                    | (if faststandstill { 0x2u32 } else { 0u32 })
                    | (if en_pwm_mode { 0x4u32 } else { 0u32 })
                    | (if multistep_filt { 0x8u32 } else { 0u32 })
                    | (if shaft { 0x10u32 } else { 0u32 })
                    | (if diag0_error { 0x20u32 } else { 0u32 })
                    | (if diag0_otp { 0x40u32 } else { 0u32 })
                    | (if diag0_stall { 0x80u32 } else { 0u32 })
                    | (if diag1_stall { 0x100u32 } else { 0u32 })
                    | (if diag1_index { 0x200u32 } else { 0u32 })
                    | (if diag1_onstate { 0x400u32 } else { 0u32 })
                    | (if diag1_steps_skipped { 0x800u32 } else { 0u32 })
                    | (if diag0_int_pushpull { 0x1000u32 } else { 0u32 })
                    | (if diag1_poscomp_pushpull { 0x2000u32 } else { 0u32 })
                    | (if small_hysteresis { 0x4000u32 } else { 0u32 })
                    | (if stop_enable { 0x8000u32 } else { 0u32 })
                    | (if direct_mode { 0x10000u32 } else { 0u32 }),
        ;
        assert((e & 0x200 != 0) == diag1_index
            && (e & 0x400 != 0) == diag1_onstate
            && (e & 0x800 != 0) == diag1_steps_skipped
            && (e & 0x1000 != 0) == diag0_int_pushpull
            && (e & 0x2000 != 0) == diag1_poscomp_pushpull
            && (e & 0x4000 != 0) == small_hysteresis
            && (e & 0x8000 != 0) == stop_enable
            && (e & 0x10000 != 0) == direct_mode
            && e & 0x1FFFF == e) by (bit_vector)
            requires
                e == (if recalibrate { 0x1u32 } else { 0u32 })
                    | (if faststandstill { 0x2u32 } else { 0u32 })
                    | (if en_pwm_mode { 0x4u32 } else { 0u32 })
                    | (if multistep_filt { 0x8u32 } else { 0u32 })
                    | (if shaft { 0x10u32 } else { 0u32 })
                    | (if diag0_error { 0x20u32 } else { 0u32 })
                    | (if diag0_otp { 0x40u32 } else { 0u32 })
                    | (if diag0_stall { 0x80u32 } else { 0u32 })
                    | (if diag1_stall { 0x100u32 } else { 0u32 })
                    | (if diag1_index { 0x200u32 } else { 0u32 })
                    | (if diag1_onstate { 0x400u32 } else { 0u32 })
                    | (if diag1_steps_skipped { 0x800u32 } else { 0u32 })
                    | (if diag0_int_pushpull { 0x1000u32 } else { 0u32 })
                    | (if diag1_poscomp_pushpull { 0x2000u32 } else { 0u32 })
                    | (if small_hysteresis { 0x4000u32 } else { 0u32 })
                    | (if stop_enable { 0x8000u32 } else { 0u32 })
                    | (if direct_mode { 0x10000u32 } else { 0u32 }),
        ;
        assert(GConf::decode_spec(e) == s);
    }
}

/// Global status flags (GSTAT).
#[derive(Debug, Copy, Clone, PartialEq, Eq, Structural)]
pub struct GStat {
    /// A reset has occurred since the flag was cleared (bit 0)
    pub reset: bool,
    /// The driver shut down on an error (bit 1)
    pub drv_err: bool,
    /// Undervoltage on the charge pump (bit 2)
    pub uv_cp: bool,
}

impl GStat {
    /// The register bits that carry a defined field.
    pub open spec fn mask() -> u32 {
        0x7
    }

    /// The value with every field clear.
    pub open spec fn zeroed() -> GStat {
        GStat {
            reset: false,
            drv_err: false,
            uv_cp: false,
        }
    }

    /// Every multi-bit field is within its bit width.
    pub open spec fn wf(self) -> bool {
        true
    }

    /// Decomposition of a raw register value into its fields.
    pub open spec fn decode_spec(x: u32) -> GStat {
        GStat {
            reset: x & 0x1 != 0,
            drv_err: x & 0x2 != 0,
            uv_cp: x & 0x4 != 0,
        }
    }

    /// The raw register value that carries these fields.
    pub open spec fn encode_spec(self) -> u32 {
        (if self.reset { 0x1u32 } else { 0u32 })
            | (if self.drv_err { 0x2u32 } else { 0u32 })
            | (if self.uv_cp { 0x4u32 } else { 0u32 })
    }

    /// A value with every field clear.
    pub fn new() -> (r: GStat)
        ensures
            r == GStat::zeroed(),
    {
        GStat {
            reset: false,
            drv_err: false,
            uv_cp: false,
        }
    }

    /// Decode a raw register value.
    pub fn decode(x: u32) -> (r: GStat)
        ensures
            r == GStat::decode_spec(x),
    {
        GStat {
            reset: x & 0x1 != 0,
            drv_err: x & 0x2 != 0,
            uv_cp: x & 0x4 != 0,
        }
    }

    /// Re-encode the fields into a raw register value.
    pub fn encode(self) -> (r: u32)
        ensures
            r == self.encode_spec(),
    {
        (if self.reset { 0x1u32 } else { 0u32 })
            | (if self.drv_err { 0x2u32 } else { 0u32 })
            | (if self.uv_cp { 0x4u32 } else { 0u32 })
    }

    /// Decoded fields are within their bit widths, and re-encoding them
    /// reproduces every raw value whose reserved bits are zero.
    pub proof fn lemma_decode_then_encode(x: u32)
        ensures
            GStat::decode_spec(x).wf(),
            x & GStat::mask() == x ==> GStat::decode_spec(x).encode_spec() == x,
    {
        assert((x & 0x7 == x ==> (if x & 0x1 != 0 { 0x1u32 } else { 0u32 })
            | (if x & 0x2 != 0 { 0x2u32 } else { 0u32 })
            | (if x & 0x4 != 0 { 0x4u32 } else { 0u32 }) == x)) by (bit_vector);
    }

    /// Encoding well formed fields sets no reserved bit, and decoding the
    /// raw value yields the fields again.
    pub proof fn lemma_encode_then_decode(s: GStat)
        requires
            s.wf(),
        ensures
            GStat::decode_spec(s.encode_spec()) == s,
            s.encode_spec() & GStat::mask() == s.encode_spec(),
    {
        let reset = s.reset;
        let drv_err = s.drv_err;
        let uv_cp = s.uv_cp;
        let e = s.encode_spec();
        assert((e & 0x1 != 0) == reset
            && (e & 0x2 != 0) == drv_err
            && (e & 0x4 != 0) == uv_cp
            && e & 0x7 == e) by (bit_vector)
            requires
                e == (if reset { 0x1u32 } else { 0u32 })
                    | (if drv_err { 0x2u32 } else { 0u32 })
                    | (if uv_cp { 0x4u32 } else { 0u32 }),
        ;
        assert(GStat::decode_spec(e) == s);
    }
}

/// Bus slave configuration (SLAVECONF).
#[derive(Debug, Copy, Clone, PartialEq, Eq, Structural)]
pub struct NodeConf {
    /// Slave address (bits 7:0)
    pub nodeaddr: u8,
    /// Reply send delay (bits 11:8)
    pub senddelay: u8,
}

impl NodeConf {
    /// The register bits that carry a defined field.
    pub open spec fn mask() -> u32 {
        0xFFF
    }

    /// The value with every field clear.
    pub open spec fn zeroed() -> NodeConf {
        NodeConf {
            nodeaddr: 0,
            senddelay: 0,
        }
    }

    /// Every multi-bit field is within its bit width.
    pub open spec fn wf(self) -> bool {
        self.senddelay < 16
    }

    /// Decomposition of a raw register value into its fields.
    pub open spec fn decode_spec(x: u32) -> NodeConf {
        NodeConf {
            nodeaddr: (x & 0xFF) as u8,
            senddelay: ((x >> 8) & 0xF) as u8,
        }
    }

    /// The raw register value that carries these fields.
    pub open spec fn encode_spec(self) -> u32 {
        (self.nodeaddr as u32)
            | ((self.senddelay as u32) << 8)
    }

    /// A value with every field clear.
    pub fn new() -> (r: NodeConf)
        ensures
            r == NodeConf::zeroed(),
    {
        NodeConf {
            nodeaddr: 0,
            senddelay: 0,
        }
    }

    /// Decode a raw register value.
    pub fn decode(x: u32) -> (r: NodeConf)
        ensures
            r == NodeConf::decode_spec(x),
    {
        NodeConf {
            nodeaddr: (x & 0xFF) as u8,
            senddelay: ((x >> 8) & 0xF) as u8,
        }
    }

    /// Re-encode the fields into a raw register value.
    pub fn encode(self) -> (r: u32)
        ensures
            r == self.encode_spec(),
    {
        (self.nodeaddr as u32)
            | ((self.senddelay as u32) << 8)
    }

    /// Decoded fields are within their bit widths, and re-encoding them
    /// reproduces every raw value whose reserved bits are zero.
    pub proof fn lemma_decode_then_encode(x: u32)
        ensures
            NodeConf::decode_spec(x).wf(),
            x & NodeConf::mask() == x ==> NodeConf::decode_spec(x).encode_spec() == x,
    {
        assert((((x >> 8) & 0xF) as u8) < 16
            && (x & 0xFFF == x ==> (((x & 0xFF) as u8) as u32)
            | (((((x >> 8) & 0xF) as u8) as u32) << 8) == x)) by (bit_vector);
    }

    /// Encoding well formed fields sets no reserved bit, and decoding the
    /// raw value yields the fields again.
    pub proof fn lemma_encode_then_decode(s: NodeConf)
        requires
            s.wf(),
        ensures
            NodeConf::decode_spec(s.encode_spec()) == s,
            s.encode_spec() & NodeConf::mask() == s.encode_spec(),
    {
        let nodeaddr = s.nodeaddr;
        let senddelay = s.senddelay;
        let e = s.encode_spec();
        assert(((e & 0xFF) as u8) == nodeaddr
            && (((e >> 8) & 0xF) as u8) == senddelay
            && e & 0xFFF == e) by (bit_vector)
            requires
                senddelay < 16,
                e == (nodeaddr as u32)
                    | ((senddelay as u32) << 8),
        ;
        assert(NodeConf::decode_spec(e) == s);
    }
}

/// State of the input pins (IOIN).
#[derive(Debug, Copy, Clone, PartialEq, Eq, Structural)]
pub struct IoIn {
    /// Level of the step input (bit 0)
    pub refl_step: bool,
    /// Level of the direction input (bit 1)
    pub refr_dir: bool,
    /// Level of the encoder B input (bit 2)
    pub encb_dcen_cfg4: bool,
    /// Level of the encoder A input (bit 3)
    pub enca_dcen_cfg5: bool,
    /// Level of the driver enable input (bit 4)
    pub drv_enn: bool,
    /// Level of the encoder N input (bit 5)
    pub enc_n_dco_cfg6: bool,
    /// Step/direction mode pin (bit 6)
    pub sd_mode: bool,
    /// Comparator output (bit 7)
    pub swcomp_in: bool,
    /// Chip version (bits 15:8)
    pub version: u8,
}

impl IoIn {
    /// The register bits that carry a defined field.
    pub open spec fn mask() -> u32 {
        0xFFFF
    }

    /// The value with every field clear.
    pub open spec fn zeroed() -> IoIn {
        IoIn {
            refl_step: false,
            refr_dir: false,
            encb_dcen_cfg4: false,
            enca_dcen_cfg5: false,
            drv_enn: false,
            enc_n_dco_cfg6: false,
            sd_mode: false,
            swcomp_in: false,
            version: 0,
        }
    }

    /// Every multi-bit field is within its bit width.
    pub open spec fn wf(self) -> bool {
        true
    }

    /// Decomposition of a raw register value into its fields.
    pub open spec fn decode_spec(x: u32) -> IoIn {
        IoIn {
            refl_step: x & 0x1 != 0,
            refr_dir: x & 0x2 != 0,
            encb_dcen_cfg4: x & 0x4 != 0,
            enca_dcen_cfg5: x & 0x8 != 0,
            drv_enn: x & 0x10 != 0,
            enc_n_dco_cfg6: x & 0x20 != 0,
            sd_mode: x & 0x40 != 0,
            swcomp_in: x & 0x80 != 0,
            version: ((x >> 8) & 0xFF) as u8,
        }
    }

    /// The raw register value that carries these fields.
    pub open spec fn encode_spec(self) -> u32 {
        (if self.refl_step { 0x1u32 } else { 0u32 })
            | (if self.refr_dir { 0x2u32 } else { 0u32 })
            | (if self.encb_dcen_cfg4 { 0x4u32 } else { 0u32 })
            | (if self.enca_dcen_cfg5 { 0x8u32 } else { 0u32 })
            | (if self.drv_enn { 0x10u32 } else { 0u32 })
            | (if self.enc_n_dco_cfg6 { 0x20u32 } else { 0u32 })
            | (if self.sd_mode { 0x40u32 } else { 0u32 })
            | (if self.swcomp_in { 0x80u32 } else { 0u32 })
            | ((self.version as u32) << 8)
    }

    /// A value with every field clear.
    pub fn new() -> (r: IoIn)
        ensures
            r == IoIn::zeroed(),
    {
        IoIn {
            refl_step: false,
            refr_dir: false,
            encb_dcen_cfg4: false,
            enca_dcen_cfg5: false,
            drv_enn: false,
            enc_n_dco_cfg6: false,
            sd_mode: false,
            swcomp_in: false,
            version: 0,
        }
    }

    /// Decode a raw register value.
    pub fn decode(x: u32) -> (r: IoIn)
        ensures
            r == IoIn::decode_spec(x),
    {
        IoIn {
            refl_step: x & 0x1 != 0,
            refr_dir: x & 0x2 != 0,
            encb_dcen_cfg4: x & 0x4 != 0,
            enca_dcen_cfg5: x & 0x8 != 0,
            drv_enn: x & 0x10 != 0,
            enc_n_dco_cfg6: x & 0x20 != 0,
            sd_mode: x & 0x40 != 0,
            swcomp_in: x & 0x80 != 0,
            version: ((x >> 8) & 0xFF) as u8,
        }
    }

    /// Re-encode the fields into a raw register value.
    pub fn encode(self) -> (r: u32)
        ensures
            r == self.encode_spec(),
    {
        (if self.refl_step { 0x1u32 } else { 0u32 })
            | (if self.refr_dir { 0x2u32 } else { 0u32 })
            | (if self.encb_dcen_cfg4 { 0x4u32 } else { 0u32 })
            | (if self.enca_dcen_cfg5 { 0x8u32 } else { 0u32 })
            | (if self.drv_enn { 0x10u32 } else { 0u32 })
            | (if self.enc_n_dco_cfg6 { 0x20u32 } else { 0u32 })
            | (if self.sd_mode { 0x40u32 } else { 0u32 })
            | (if self.swcomp_in { 0x80u32 } else { 0u32 })
            | ((self.version as u32) << 8)
    }

    /// Decoded fields are within their bit widths, and re-encoding them
    /// reproduces every raw value whose reserved bits are zero.
    pub proof fn lemma_decode_then_encode(x: u32)
        ensures
            IoIn::decode_spec(x).wf(),
            x & IoIn::mask() == x ==> IoIn::decode_spec(x).encode_spec() == x,
    {
        assert((x & 0xFFFF == x ==> (if x & 0x1 != 0 { 0x1u32 } else { 0u32 })
            | (if x & 0x2 != 0 { 0x2u32 } else { 0u32 })
            | (if x & 0x4 != 0 { 0x4u32 } else { 0u32 })
            | (if x & 0x8 != 0 { 0x8u32 } else { 0u32 })
            | (if x & 0x10 != 0 { 0x10u32 } else { 0u32 })
            | (if x & 0x20 != 0 { 0x20u32 } else { 0u32 })
            | (if x & 0x40 != 0 { 0x40u32 } else { 0u32 })
            | (if x & 0x80 != 0 { 0x80u32 } else { 0u32 })
            | (((((x >> 8) & 0xFF) as u8) as u32) << 8) == x)) by (bit_vector);
    }

    /// Encoding well formed fields sets no reserved bit, and decoding the
    /// raw value yields the fields again.
    pub proof fn lemma_encode_then_decode(s: IoIn)
        requires
            s.wf(),
        ensures
            IoIn::decode_spec(s.encode_spec()) == s,
            s.encode_spec() & IoIn::mask() == s.encode_spec(),
    {
        let refl_step = s.refl_step;
        let refr_dir = s.refr_dir;
        let encb_dcen_cfg4 = s.encb_dcen_cfg4;
        let enca_dcen_cfg5 = s.enca_dcen_cfg5;
        let drv_enn = s.drv_enn;
        let enc_n_dco_cfg6 = s.enc_n_dco_cfg6;
        let sd_mode = s.sd_mode;
        let swcomp_in = s.swcomp_in;
        let version = s.version;
        let e = s.encode_spec();
        assert((e & 0x1 != 0) == refl_step
            && (e & 0x2 != 0) == refr_dir
            && (e & 0x4 != 0) == encb_dcen_cfg4
            && (e & 0x8 != 0) == enca_dcen_cfg5
            && (e & 0x10 != 0) == drv_enn
            && (e & 0x20 != 0) == enc_n_dco_cfg6
            && (e & 0x40 != 0) == sd_mode
            && (e & 0x80 != 0) == swcomp_in
            && (((e >> 8) & 0xFF) as u8) == version
            && e & 0xFFFF == e) by (bit_vector)
            requires
                e == (if refl_step { 0x1u32 } else { 0u32 })
                    | (if refr_dir { 0x2u32 } else { 0u32 })
                    | (if encb_dcen_cfg4 { 0x4u32 } else { 0u32 })
                    | (if enca_dcen_cfg5 { 0x8u32 } else { 0u32 })
                    | (if drv_enn { 0x10u32 } else { 0u32 })
                    | (if enc_n_dco_cfg6 { 0x20u32 } else { 0u32 })
                    | (if sd_mode { 0x40u32 } else { 0u32 })
                    | (if swcomp_in { 0x80u32 } else { 0u32 })
                    | ((version as u32) << 8),
        ;
        assert(IoIn::decode_spec(e) == s);
    }
}

/// One-time-programming command register (OTP_PROG).
#[derive(Debug, Copy, Clone, PartialEq, Eq, Structural)]
pub struct OtpProg {
    /// Bit to program (bits 2:0)
    pub otpbit: u8,
    /// Byte to program (bits 4:3)
    pub otpbyte: u8,
    /// Programming key (bits 15:8)
    pub otpmagic: u8,
}

impl OtpProg {
    /// The register bits that carry a defined field.
    pub open spec fn mask() -> u32 {
        0xFF1F
    }

    /// The value with every field clear.
    pub open spec fn zeroed() -> OtpProg {
        OtpProg {
            otpbit: 0,
            otpbyte: 0,
            otpmagic: 0,
        }
    }

    /// Every multi-bit field is within its bit width.
    pub open spec fn wf(self) -> bool {
        self.otpbit < 8
            && self.otpbyte < 4
    }

    /// Decomposition of a raw register value into its fields.
    pub open spec fn decode_spec(x: u32) -> OtpProg {
        OtpProg {
            otpbit: (x & 0x7) as u8,
            otpbyte: ((x >> 3) & 0x3) as u8,
            otpmagic: ((x >> 8) & 0xFF) as u8,
        }
    }

    /// The raw register value that carries these fields.
    pub open spec fn encode_spec(self) -> u32 {
        (self.otpbit as u32)
            | ((self.otpbyte as u32) << 3)
            | ((self.otpmagic as u32) << 8)
    }

    /// A value with every field clear.
    pub fn new() -> (r: OtpProg)
        ensures
            r == OtpProg::zeroed(),
    {
        OtpProg {
            otpbit: 0,
            otpbyte: 0,
            otpmagic: 0,
        }
    }

    /// Decode a raw register value.
    pub fn decode(x: u32) -> (r: OtpProg)
        ensures
            r == OtpProg::decode_spec(x),
    {
        OtpProg {
            otpbit: (x & 0x7) as u8,
            otpbyte: ((x >> 3) & 0x3) as u8,
            otpmagic: ((x >> 8) & 0xFF) as u8,
        }
    }

    /// Re-encode the fields into a raw register value.
    pub fn encode(self) -> (r: u32)
        ensures
            r == self.encode_spec(),
    {
        (self.otpbit as u32)
            | ((self.otpbyte as u32) << 3)
            | ((self.otpmagic as u32) << 8)
    }

    /// Decoded fields are within their bit widths, and re-encoding them
    /// reproduces every raw value whose reserved bits are zero.
    pub proof fn lemma_decode_then_encode(x: u32)
        ensures
            OtpProg::decode_spec(x).wf(),
            x & OtpProg::mask() == x ==> OtpProg::decode_spec(x).encode_spec() == x,
    {
        assert(((x & 0x7) as u8) < 8
            && (((x >> 3) & 0x3) as u8) < 4
            && (x & 0xFF1F == x ==> (((x & 0x7) as u8) as u32)
            | (((((x >> 3) & 0x3) as u8) as u32) << 3)
            | (((((x >> 8) & 0xFF) as u8) as u32) << 8) == x)) by (bit_vector);
    }

    /// Encoding well formed fields sets no reserved bit, and decoding the
    /// raw value yields the fields again.
    pub proof fn lemma_encode_then_decode(s: OtpProg)
        requires
            s.wf(),
        ensures
            OtpProg::decode_spec(s.encode_spec()) == s,
            s.encode_spec() & OtpProg::mask() == s.encode_spec(),
    {
        let otpbit = s.otpbit;
        let otpbyte = s.otpbyte;
        let otpmagic = s.otpmagic;
        let e = s.encode_spec();
        assert(((e & 0x7) as u8) == otpbit
            && (((e >> 3) & 0x3) as u8) == otpbyte
            && (((e >> 8) & 0xFF) as u8) == otpmagic
            && e & 0xFF1F == e) by (bit_vector)
            requires
                otpbit < 8,
                otpbyte < 4,
                e == (otpbit as u32)
                    | ((otpbyte as u32) << 3)
                    | ((otpmagic as u32) << 8),
        ;
        assert(OtpProg::decode_spec(e) == s);
    }
}

/// One-time-programming memory readout (OTP_READ).
#[derive(Debug, Copy, Clone, PartialEq, Eq, Structural)]
pub struct OtpRead {
    /// Clock trim value (bits 4:0)
    pub otp_fclktrim: u8,
    /// Short detector level default (bit 5)
    pub otp_s2_level: bool,
    /// Break-before-make default (bit 6)
    pub otp_bbm: bool,
    /// Blank time default (bit 7)
    pub otp_tbl: bool,
}

impl OtpRead {
    /// The register bits that carry a defined field.
    pub open spec fn mask() -> u32 {
        0xFF
    }

    /// The value with every field clear.
    pub open spec fn zeroed() -> OtpRead {
        OtpRead {
            otp_fclktrim: 0,
            otp_s2_level: false,
            otp_bbm: false,
            otp_tbl: false,
        }
    }

    /// Every multi-bit field is within its bit width.
    pub open spec fn wf(self) -> bool {
        self.otp_fclktrim < 32
    }

    /// Decomposition of a raw register value into its fields.
    pub open spec fn decode_spec(x: u32) -> OtpRead {
        OtpRead {
            otp_fclktrim: (x & 0x1F) as u8,
            otp_s2_level: x & 0x20 != 0,
            otp_bbm: x & 0x40 != 0,
            otp_tbl: x & 0x80 != 0,
        }
    }

    /// The raw register value that carries these fields.
    pub open spec fn encode_spec(self) -> u32 {
        (self.otp_fclktrim as u32)
            | (if self.otp_s2_level { 0x20u32 } else { 0u32 })
            | (if self.otp_bbm { 0x40u32 } else { 0u32 })
            | (if self.otp_tbl { 0x80u32 } else { 0u32 })
    }

    /// A value with every field clear.
    pub fn new() -> (r: OtpRead)
        ensures
            r == OtpRead::zeroed(),
    {
        OtpRead {
            otp_fclktrim: 0,
            otp_s2_level: false,
            otp_bbm: false,
            otp_tbl: false,
        }
    }

    /// Decode a raw register value.
    pub fn decode(x: u32) -> (r: OtpRead)
        ensures
            r == OtpRead::decode_spec(x),
    {
        OtpRead {
            otp_fclktrim: (x & 0x1F) as u8,
            otp_s2_level: x & 0x20 != 0,
            otp_bbm: x & 0x40 != 0,
            otp_tbl: x & 0x80 != 0,
        }
    }

    /// Re-encode the fields into a raw register value.
    pub fn encode(self) -> (r: u32)
        ensures
            r == self.encode_spec(),
    {
        (self.otp_fclktrim as u32)
            | (if self.otp_s2_level { 0x20u32 } else { 0u32 })
            | (if self.otp_bbm { 0x40u32 } else { 0u32 })
            | (if self.otp_tbl { 0x80u32 } else { 0u32 })
    }

    /// Decoded fields are within their bit widths, and re-encoding them
    /// reproduces every raw value whose reserved bits are zero.
    pub proof fn lemma_decode_then_encode(x: u32)
        ensures
            OtpRead::decode_spec(x).wf(),
            x & OtpRead::mask() == x ==> OtpRead::decode_spec(x).encode_spec() == x,
    {
        assert(((x & 0x1F) as u8) < 32
            && (x & 0xFF == x ==> (((x & 0x1F) as u8) as u32)
            | (if x & 0x20 != 0 { 0x20u32 } else { 0u32 })
            | (if x & 0x40 != 0 { 0x40u32 } else { 0u32 })
            | (if x & 0x80 != 0 { 0x80u32 } else { 0u32 }) == x)) by (bit_vector);
    }

    /// Encoding well formed fields sets no reserved bit, and decoding the
    /// raw value yields the fields again.
    pub proof fn lemma_encode_then_decode(s: OtpRead)
        requires
            s.wf(),
        ensures
            OtpRead::decode_spec(s.encode_spec()) == s,
            s.encode_spec() & OtpRead::mask() == s.encode_spec(),
    {
        let otp_fclktrim = s.otp_fclktrim;
        let otp_s2_level = s.otp_s2_level;
        let otp_bbm = s.otp_bbm;
        let otp_tbl = s.otp_tbl;
        let e = s.encode_spec();
        assert(((e & 0x1F) as u8) == otp_fclktrim
            && (e & 0x20 != 0) == otp_s2_level
            && (e & 0x40 != 0) == otp_bbm
            && (e & 0x80 != 0) == otp_tbl
            && e & 0xFF == e) by (bit_vector)
            requires
                otp_fclktrim < 32,
                e == (otp_fclktrim as u32)
                    | (if otp_s2_level { 0x20u32 } else { 0u32 })
                    | (if otp_bbm { 0x40u32 } else { 0u32 })
                    | (if otp_tbl { 0x80u32 } else { 0u32 }),
        ;
        assert(OtpRead::decode_spec(e) == s);
    }
}

/// Short detector configuration (SHORT_CONF).
#[derive(Debug, Copy, Clone, PartialEq, Eq, Structural)]
pub struct ShortConf {
    /// Short to supply sensitivity (bits 3:0)
    pub s2vs_level: u8,
    /// Short to ground sensitivity (bits 11:8)
    pub s2g_level: u8,
    /// Spike filter bandwidth (bits 17:16)
    pub shortfilter: u8,
    /// Short detection delay (bit 18)
    pub shortdelay: bool,
}

impl ShortConf {
    /// The register bits that carry a defined field.
    pub open spec fn mask() -> u32 {
        0x70F0F
    }

    /// The value with every field clear.
    pub open spec fn zeroed() -> ShortConf {
        ShortConf {
            s2vs_level: 0,
            s2g_level: 0,
            shortfilter: 0,
            shortdelay: false,
        }
    }

    /// Every multi-bit field is within its bit width.
    pub open spec fn wf(self) -> bool {
        self.s2vs_level < 16
            && self.s2g_level < 16
            && self.shortfilter < 4
    }

    /// Decomposition of a raw register value into its fields.
    pub open spec fn decode_spec(x: u32) -> ShortConf {
        ShortConf {
            s2vs_level: (x & 0xF) as u8,
            s2g_level: ((x >> 8) & 0xF) as u8,
            shortfilter: ((x >> 16) & 0x3) as u8,
            shortdelay: x & 0x40000 != 0,
        }
    }

    /// The raw register value that carries these fields.
    pub open spec fn encode_spec(self) -> u32 {
        (self.s2vs_level as u32)
            | ((self.s2g_level as u32) << 8)
            | ((self.shortfilter as u32) << 16)
            | (if self.shortdelay { 0x40000u32 } else { 0u32 })
    }

    /// A value with every field clear.
    pub fn new() -> (r: ShortConf)
        ensures
            r == ShortConf::zeroed(),
    {
        ShortConf {
            s2vs_level: 0,
            s2g_level: 0,
            shortfilter: 0,
            shortdelay: false,
        }
    }

    /// Decode a raw register value.
    pub fn decode(x: u32) -> (r: ShortConf)
        ensures
            r == ShortConf::decode_spec(x),
    {
        ShortConf {
            s2vs_level: (x & 0xF) as u8,
            s2g_level: ((x >> 8) & 0xF) as u8,
            shortfilter: ((x >> 16) & 0x3) as u8,
            shortdelay: x & 0x40000 != 0,
        }
    }

    /// Re-encode the fields into a raw register value.
    pub fn encode(self) -> (r: u32)
        ensures
            r == self.encode_spec(),
    {
        (self.s2vs_level as u32)
            | ((self.s2g_level as u32) << 8)
            | ((self.shortfilter as u32) << 16)
            | (if self.shortdelay { 0x40000u32 } else { 0u32 })
    }

    /// Decoded fields are within their bit widths, and re-encoding them
    /// reproduces every raw value whose reserved bits are zero.
    pub proof fn lemma_decode_then_encode(x: u32)
        ensures
            ShortConf::decode_spec(x).wf(),
            x & ShortConf::mask() == x ==> ShortConf::decode_spec(x).encode_spec() == x,
    {
        assert(((x & 0xF) as u8) < 16
            && (((x >> 8) & 0xF) as u8) < 16
            && (((x >> 16) & 0x3) as u8) < 4
            && (x & 0x70F0F == x ==> (((x & 0xF) as u8) as u32)
            | (((((x >> 8) & 0xF) as u8) as u32) << 8)
            | (((((x >> 16) & 0x3) as u8) as u32) << 16)
            | (if x & 0x40000 != 0 { 0x40000u32 } else { 0u32 }) == x)) by (bit_vector);
    }

    /// Encoding well formed fields sets no reserved bit, and decoding the
    /// raw value yields the fields again.
    pub proof fn lemma_encode_then_decode(s: ShortConf)
        requires
            s.wf(),
        ensures
            ShortConf::decode_spec(s.encode_spec()) == s,
            s.encode_spec() & ShortConf::mask() == s.encode_spec(),
    {
        let s2vs_level = s.s2vs_level;
        let s2g_level = s.s2g_level;
        let shortfilter = s.shortfilter;
        let shortdelay = s.shortdelay;
        let e = s.encode_spec();
        assert(((e & 0xF) as u8) == s2vs_level
            && (((e >> 8) & 0xF) as u8) == s2g_level
            && (((e >> 16) & 0x3) as u8) == shortfilter
            && (e & 0x40000 != 0) == shortdelay
            && e & 0x70F0F == e) by (bit_vector)
            requires
                s2vs_level < 16,
                s2g_level < 16,
                shortfilter < 4,
                e == (s2vs_level as u32)
                    | ((s2g_level as u32) << 8)
                    | ((shortfilter as u32) << 16)
                    | (if shortdelay { 0x40000u32 } else { 0u32 }),
        ;
        assert(ShortConf::decode_spec(e) == s);
    }
}

/// Gate driver configuration (DRV_CONF).
#[derive(Debug, Copy, Clone, PartialEq, Eq, Structural)]
pub struct DrvConf {
    /// Break-before-make duration in nanoseconds (bits 3:0)
    pub bbm_time: u8,
    /// Break-before-make duration in clock cycles (bits 11:8)
    pub bbm_clks: u8,
    /// Over temperature shutdown level (bits 17:16)
    pub ots_select: u8,
    /// Gate driver current (bits 19:18)
    pub drv_strength: u8,
    /// Sense amplifier filter time constant (bits 21:20)
    pub filt_isense: u8,
}

impl DrvConf {
    /// The register bits that carry a defined field.
    pub open spec fn mask() -> u32 {
        0x3F0F0F
    }

    /// The value with every field clear.
    pub open spec fn zeroed() -> DrvConf {
        DrvConf {
            bbm_time: 0,
            bbm_clks: 0,
            ots_select: 0,
            drv_strength: 0,
            filt_isense: 0,
        }
    }

    /// Every multi-bit field is within its bit width.
    pub open spec fn wf(self) -> bool {
        self.bbm_time < 16
            && self.bbm_clks < 16
            && self.ots_select < 4
            && self.drv_strength < 4
            && self.filt_isense < 4
    }

    /// Decomposition of a raw register value into its fields.
    pub open spec fn decode_spec(x: u32) -> DrvConf {
        DrvConf {
            bbm_time: (x & 0xF) as u8,
            bbm_clks: ((x >> 8) & 0xF) as u8,
            ots_select: ((x >> 16) & 0x3) as u8,
            drv_strength: ((x >> 18) & 0x3) as u8,
            filt_isense: ((x >> 20) & 0x3) as u8,
        }
    }

    /// The raw register value that carries these fields.
    pub open spec fn encode_spec(self) -> u32 {
        (self.bbm_time as u32)
            | ((self.bbm_clks as u32) << 8)
            | ((self.ots_select as u32) << 16)
            | ((self.drv_strength as u32) << 18)
            | ((self.filt_isense as u32) << 20)
    }

    /// A value with every field clear.
    pub fn new() -> (r: DrvConf)
        ensures
            r == DrvConf::zeroed(),
    {
        DrvConf {
            bbm_time: 0,
            bbm_clks: 0,
            ots_select: 0,
            drv_strength: 0,
            filt_isense: 0,
        }
    }

    /// Decode a raw register value.
    pub fn decode(x: u32) -> (r: DrvConf)
        ensures
            r == DrvConf::decode_spec(x),
    {
        DrvConf {
            bbm_time: (x & 0xF) as u8,
            bbm_clks: ((x >> 8) & 0xF) as u8,
            ots_select: ((x >> 16) & 0x3) as u8,
            drv_strength: ((x >> 18) & 0x3) as u8,
            filt_isense: ((x >> 20) & 0x3) as u8,
        }
    }

    /// Re-encode the fields into a raw register value.
    pub fn encode(self) -> (r: u32)
        ensures
            r == self.encode_spec(),
    {
        (self.bbm_time as u32)
            | ((self.bbm_clks as u32) << 8)
            | ((self.ots_select as u32) << 16)
            | ((self.drv_strength as u32) << 18)
            | ((self.filt_isense as u32) << 20)
    }

    /// Decoded fields are within their bit widths, and re-encoding them
    /// reproduces every raw value whose reserved bits are zero.
    pub proof fn lemma_decode_then_encode(x: u32)
        ensures
            DrvConf::decode_spec(x).wf(),
            x & DrvConf::mask() == x ==> DrvConf::decode_spec(x).encode_spec() == x,
    {
        assert(((x & 0xF) as u8) < 16
            && (((x >> 8) & 0xF) as u8) < 16
            && (((x >> 16) & 0x3) as u8) < 4
            && (((x >> 18) & 0x3) as u8) < 4
            && (((x >> 20) & 0x3) as u8) < 4
            && (x & 0x3F0F0F == x ==> (((x & 0xF) as u8) as u32)
            | (((((x >> 8) & 0xF) as u8) as u32) << 8)
            | (((((x >> 16) & 0x3) as u8) as u32) << 16)
            | (((((x >> 18) & 0x3) as u8) as u32) << 18)
            | (((((x >> 20) & 0x3) as u8) as u32) << 20) == x)) by (bit_vector);
    }

    /// Encoding well formed fields sets no reserved bit, and decoding the
    /// raw value yields the fields again.
    pub proof fn lemma_encode_then_decode(s: DrvConf)
        requires
            s.wf(),
        ensures
            DrvConf::decode_spec(s.encode_spec()) == s,
            s.encode_spec() & DrvConf::mask() == s.encode_spec(),
    {
        let bbm_time = s.bbm_time;
        let bbm_clks = s.bbm_clks;
        let ots_select = s.ots_select;
        let drv_strength = s.drv_strength;
        let filt_isense = s.filt_isense;
        let e = s.encode_spec();
        assert(((e & 0xF) as u8) == bbm_time
            && (((e >> 8) & 0xF) as u8) == bbm_clks
            && (((e >> 16) & 0x3) as u8) == ots_select
            && (((e >> 18) & 0x3) as u8) == drv_strength
            && (((e >> 20) & 0x3) as u8) == filt_isense
            && e & 0x3F0F0F == e) by (bit_vector)
            requires
                bbm_time < 16,
                bbm_clks < 16,
                ots_select < 4,
                drv_strength < 4,
                filt_isense < 4,
                e == (bbm_time as u32)
                    | ((bbm_clks as u32) << 8)
                    | ((ots_select as u32) << 16)
                    | ((drv_strength as u32) << 18)
                    | ((filt_isense as u32) << 20),
        ;
        assert(DrvConf::decode_spec(e) == s);
    }
}

/// Offset calibration results (OFFSET_READ).
#[derive(Debug, Copy, Clone, PartialEq, Eq, Structural)]
pub struct OffsetRead {
    /// Offset of phase A (bits 7:0)
    pub phase_a: u8,
    /// Offset of phase B (bits 15:8)
    pub phase_b: u8,
}

impl OffsetRead {
    /// The register bits that carry a defined field.
    pub open spec fn mask() -> u32 {
        0xFFFF
    }

    /// The value with every field clear.
    pub open spec fn zeroed() -> OffsetRead {
        OffsetRead {
            phase_a: 0,
            phase_b: 0,
        }
    }

    /// Every multi-bit field is within its bit width.
    pub open spec fn wf(self) -> bool {
        true
    }

    /// Decomposition of a raw register value into its fields.
    pub open spec fn decode_spec(x: u32) -> OffsetRead {
        OffsetRead {
            phase_a: (x & 0xFF) as u8,
            phase_b: ((x >> 8) & 0xFF) as u8,
        }
    }

    /// The raw register value that carries these fields.
    pub open spec fn encode_spec(self) -> u32 {
        (self.phase_a as u32)
            | ((self.phase_b as u32) << 8)
    }

    /// A value with every field clear.
    pub fn new() -> (r: OffsetRead)
        ensures
            r == OffsetRead::zeroed(),
    {
        OffsetRead {
            phase_a: 0,
            phase_b: 0,
        }
    }

    /// Decode a raw register value.
    pub fn decode(x: u32) -> (r: OffsetRead)
        ensures
            r == OffsetRead::decode_spec(x),
    {
        OffsetRead {
            phase_a: (x & 0xFF) as u8,
            phase_b: ((x >> 8) & 0xFF) as u8,
        }
    }

    /// Re-encode the fields into a raw register value.
    pub fn encode(self) -> (r: u32)
        ensures
            r == self.encode_spec(),
    {
        (self.phase_a as u32)
            | ((self.phase_b as u32) << 8)
    }

    /// Decoded fields are within their bit widths, and re-encoding them
    /// reproduces every raw value whose reserved bits are zero.
    pub proof fn lemma_decode_then_encode(x: u32)
        ensures
            OffsetRead::decode_spec(x).wf(),
            x & OffsetRead::mask() == x ==> OffsetRead::decode_spec(x).encode_spec() == x,
    {
        assert((x & 0xFFFF == x ==> (((x & 0xFF) as u8) as u32)
            | (((((x >> 8) & 0xFF) as u8) as u32) << 8) == x)) by (bit_vector);
    }

    /// Encoding well formed fields sets no reserved bit, and decoding the
    /// raw value yields the fields again.
    pub proof fn lemma_encode_then_decode(s: OffsetRead)
        requires
            s.wf(),
        ensures
            OffsetRead::decode_spec(s.encode_spec()) == s,
            s.encode_spec() & OffsetRead::mask() == s.encode_spec(),
    {
        let phase_a = s.phase_a;
        let phase_b = s.phase_b;
        let e = s.encode_spec();
        assert(((e & 0xFF) as u8) == phase_a
            && (((e >> 8) & 0xFF) as u8) == phase_b
            && e & 0xFFFF == e) by (bit_vector)
            requires
                e == (phase_a as u32)
                    | ((phase_b as u32) << 8),
        ;
        assert(OffsetRead::decode_spec(e) == s);
    }
}

/// Motor current control (IHOLD_IRUN).
#[derive(Debug, Copy, Clone, PartialEq, Eq, Structural)]
pub struct IHoldIRun {
    /// Standstill current (bits 4:0)
    pub i_hold: u8,
    /// Run current (bits 12:8)
    pub i_run: u8,
    /// Delay before power down (bits 19:16)
    pub i_hold_delay: u8,
}

impl IHoldIRun {
    /// The register bits that carry a defined field.
    pub open spec fn mask() -> u32 {
        0xF1F1F
    }

    /// The value with every field clear.
    pub open spec fn zeroed() -> IHoldIRun {
        IHoldIRun {
            i_hold: 0,
            i_run: 0,
            i_hold_delay: 0,
        }
    }

    /// Every multi-bit field is within its bit width.
    pub open spec fn wf(self) -> bool {
        self.i_hold < 32
            && self.i_run < 32
            && self.i_hold_delay < 16
    }

    /// Decomposition of a raw register value into its fields.
    pub open spec fn decode_spec(x: u32) -> IHoldIRun {
        IHoldIRun {
            i_hold: (x & 0x1F) as u8,
            i_run: ((x >> 8) & 0x1F) as u8,
            i_hold_delay: ((x >> 16) & 0xF) as u8,
        }
    }

    /// The raw register value that carries these fields.
    pub open spec fn encode_spec(self) -> u32 {
        (self.i_hold as u32)
            | ((self.i_run as u32) << 8)
            | ((self.i_hold_delay as u32) << 16)
    }

    /// A value with every field clear.
    pub fn new() -> (r: IHoldIRun)
        ensures
            r == IHoldIRun::zeroed(),
    {
        IHoldIRun {
            i_hold: 0,
            i_run: 0,
            i_hold_delay: 0,
        }
    }

    /// Decode a raw register value.
    pub fn decode(x: u32) -> (r: IHoldIRun)
        ensures
            r == IHoldIRun::decode_spec(x),
    {
        IHoldIRun {
            i_hold: (x & 0x1F) as u8,
            i_run: ((x >> 8) & 0x1F) as u8,
            i_hold_delay: ((x >> 16) & 0xF) as u8,
        }
    }

    /// Re-encode the fields into a raw register value.
    pub fn encode(self) -> (r: u32)
        ensures
            r == self.encode_spec(),
    {
        (self.i_hold as u32)
            | ((self.i_run as u32) << 8)
            | ((self.i_hold_delay as u32) << 16)
    }

    /// Decoded fields are within their bit widths, and re-encoding them
    /// reproduces every raw value whose reserved bits are zero.
    pub proof fn lemma_decode_then_encode(x: u32)
        ensures
            IHoldIRun::decode_spec(x).wf(),
            x & IHoldIRun::mask() == x ==> IHoldIRun::decode_spec(x).encode_spec() == x,
    {
        assert(((x & 0x1F) as u8) < 32
            && (((x >> 8) & 0x1F) as u8) < 32
            && (((x >> 16) & 0xF) as u8) < 16
            && (x & 0xF1F1F == x ==> (((x & 0x1F) as u8) as u32)
            | (((((x >> 8) & 0x1F) as u8) as u32) << 8)
            | (((((x >> 16) & 0xF) as u8) as u32) << 16) == x)) by (bit_vector);
    }

    /// Encoding well formed fields sets no reserved bit, and decoding the
    /// raw value yields the fields again.
    pub proof fn lemma_encode_then_decode(s: IHoldIRun)
        requires
            s.wf(),
        ensures
            IHoldIRun::decode_spec(s.encode_spec()) == s,
            s.encode_spec() & IHoldIRun::mask() == s.encode_spec(),
    {
        let i_hold = s.i_hold;
        let i_run = s.i_run;
        let i_hold_delay = s.i_hold_delay;
        let e = s.encode_spec();
        assert(((e & 0x1F) as u8) == i_hold
            && (((e >> 8) & 0x1F) as u8) == i_run
            && (((e >> 16) & 0xF) as u8) == i_hold_delay
            && e & 0xF1F1F == e) by (bit_vector)
            requires
                i_hold < 32,
                i_run < 32,
                i_hold_delay < 16,
                e == (i_hold as u32)
                    | ((i_run as u32) << 8)
                    | ((i_hold_delay as u32) << 16),
        ;
        assert(IHoldIRun::decode_spec(e) == s);
    }
}

/// Reference switch and stall stop configuration (SW_MODE).
#[derive(Debug, Copy, Clone, PartialEq, Eq, Structural)]
pub struct SwMode {
    /// Enable the left stop switch (bit 0)
    pub stop_l_enable: bool,
    /// Enable the right stop switch (bit 1)
    pub stop_r_enable: bool,
    /// Left stop switch is active low (bit 2)
    pub pol_stop_l: bool,
    /// Right stop switch is active low (bit 3)
    pub pol_stop_r: bool,
    /// Swap the stop switch inputs (bit 4)
    pub swap_lr: bool,
    /// Latch position on active left switch (bit 5)
    pub latch_l_active: bool,
    /// Latch position on inactive left switch (bit 6)
    pub latch_l_inactive: bool,
    /// Latch position on active right switch (bit 7)
    pub latch_r_active: bool,
    /// Latch position on inactive right switch (bit 8)
    pub latch_r_inactive: bool,
    /// Latch the encoder position too (bit 9)
    pub en_latch_encoder: bool,
    /// Stop on stall (bit 10)
    pub sg_stop: bool,
    /// Ramp down instead of a hard stop (bit 11)
    pub en_softstop: bool,
}

impl SwMode {
    /// The register bits that carry a defined field.
    pub open spec fn mask() -> u32 {
        0xFFF
    }

    /// The value with every field clear.
    pub open spec fn zeroed() -> SwMode {
        SwMode {
            stop_l_enable: false,
            stop_r_enable: false,
            pol_stop_l: false,
            pol_stop_r: false,
            swap_lr: false,
            latch_l_active: false,
            latch_l_inactive: false,
            latch_r_active: false,
            latch_r_inactive: false,
            en_latch_encoder: false,
            sg_stop: false,
            en_softstop: false,
        }
    }

    /// Every multi-bit field is within its bit width.
    pub open spec fn wf(self) -> bool {
        true
    }

    /// Decomposition of a raw register value into its fields.
    pub open spec fn decode_spec(x: u32) -> SwMode {
        SwMode {
            stop_l_enable: x & 0x1 != 0,
            stop_r_enable: x & 0x2 != 0,
            pol_stop_l: x & 0x4 != 0,
            pol_stop_r: x & 0x8 != 0,
            swap_lr: x & 0x10 != 0,
            latch_l_active: x & 0x20 != 0,
            latch_l_inactive: x & 0x40 != 0,
            latch_r_active: x & 0x80 != 0,
            latch_r_inactive: x & 0x100 != 0,
            en_latch_encoder: x & 0x200 != 0,
            sg_stop: x & 0x400 != 0,
            en_softstop: x & 0x800 != 0,
        }
    }

    /// The raw register value that carries these fields.
    pub open spec fn encode_spec(self) -> u32 {
        (if self.stop_l_enable { 0x1u32 } else { 0u32 })
            | (if self.stop_r_enable { 0x2u32 } else { 0u32 })
            | (if self.pol_stop_l { 0x4u32 } else { 0u32 })
            | (if self.pol_stop_r { 0x8u32 } else { 0u32 })
            | (if self.swap_lr { 0x10u32 } else { 0u32 })
            | (if self.latch_l_active { 0x20u32 } else { 0u32 })
            | (if self.latch_l_inactive { 0x40u32 } else { 0u32 })
            | (if self.latch_r_active { 0x80u32 } else { 0u32 })
            | (if self.latch_r_inactive { 0x100u32 } else { 0u32 })
            | (if self.en_latch_encoder { 0x200u32 } else { 0u32 })
            | (if self.sg_stop { 0x400u32 } else { 0u32 })
            | (if self.en_softstop { 0x800u32 } else { 0u32 })
    }

    /// A value with every field clear.
    pub fn new() -> (r: SwMode)
        ensures
            r == SwMode::zeroed(),
    {
        SwMode {
            stop_l_enable: false,
            stop_r_enable: false,
            pol_stop_l: false,
            pol_stop_r: false,
            swap_lr: false,
            latch_l_active: false,
            latch_l_inactive: false,
            latch_r_active: false,
            latch_r_inactive: false,
            en_latch_encoder: false,
            sg_stop: false,
            en_softstop: false,
        }
    }

    /// Decode a raw register value.
    pub fn decode(x: u32) -> (r: SwMode)
        ensures
            r == SwMode::decode_spec(x),
    {
        SwMode {
            stop_l_enable: x & 0x1 != 0,
            stop_r_enable: x & 0x2 != 0,
            pol_stop_l: x & 0x4 != 0,
            pol_stop_r: x & 0x8 != 0,
            swap_lr: x & 0x10 != 0,
            latch_l_active: x & 0x20 != 0,
            latch_l_inactive: x & 0x40 != 0,
            latch_r_active: x & 0x80 != 0,
            latch_r_inactive: x & 0x100 != 0,
            en_latch_encoder: x & 0x200 != 0,
            sg_stop: x & 0x400 != 0,
            en_softstop: x & 0x800 != 0,
        }
    }

    /// Re-encode the fields into a raw register value.
    pub fn encode(self) -> (r: u32)
        ensures
            r == self.encode_spec(),
    {
        (if self.stop_l_enable { 0x1u32 } else { 0u32 })
            | (if self.stop_r_enable { 0x2u32 } else { 0u32 })
            | (if self.pol_stop_l { 0x4u32 } else { 0u32 })
            | (if self.pol_stop_r { 0x8u32 } else { 0u32 })
            | (if self.swap_lr { 0x10u32 } else { 0u32 })
            | (if self.latch_l_active { 0x20u32 } else { 0u32 })
            | (if self.latch_l_inactive { 0x40u32 } else { 0u32 })
            | (if self.latch_r_active { 0x80u32 } else { 0u32 })
            | (if self.latch_r_inactive { 0x100u32 } else { 0u32 })
            | (if self.en_latch_encoder { 0x200u32 } else { 0u32 })
            | (if self.sg_stop { 0x400u32 } else { 0u32 })
            | (if self.en_softstop { 0x800u32 } else { 0u32 })
    }

    /// Decoded fields are within their bit widths, and re-encoding them
    /// reproduces every raw value whose reserved bits are zero.
    pub proof fn lemma_decode_then_encode(x: u32)
        ensures
            SwMode::decode_spec(x).wf(),
            x & SwMode::mask() == x ==> SwMode::decode_spec(x).encode_spec() == x,
    {
        assert((x & 0xFFF == x ==> (if x & 0x1 != 0 { 0x1u32 } else { 0u32 })
            | (if x & 0x2 != 0 { 0x2u32 } else { 0u32 })
            | (if x & 0x4 != 0 { 0x4u32 } else { 0u32 })
            | (if x & 0x8 != 0 { 0x8u32 } else { 0u32 })
            | (if x & 0x10 != 0 { 0x10u32 } else { 0u32 })
            | (if x & 0x20 != 0 { 0x20u32 } else { 0u32 })
            | (if x & 0x40 != 0 { 0x40u32 } else { 0u32 })
            | (if x & 0x80 != 0 { 0x80u32 } else { 0u32 })
            | (if x & 0x100 != 0 { 0x100u32 } else { 0u32 })
            | (if x & 0x200 != 0 { 0x200u32 } else { 0u32 })
            | (if x & 0x400 != 0 { 0x400u32 } else { 0u32 })
            | (if x & 0x800 != 0 { 0x800u32 } else { 0u32 }) == x)) by (bit_vector);
    }

    /// Encoding well formed fields sets no reserved bit, and decoding the
    /// raw value yields the fields again.
    pub proof fn lemma_encode_then_decode(s: SwMode)
        requires
            s.wf(),
        ensures
            SwMode::decode_spec(s.encode_spec()) == s,
            s.encode_spec() & SwMode::mask() == s.encode_spec(),
    {
        let stop_l_enable = s.stop_l_enable;
        let stop_r_enable = s.stop_r_enable;
        let pol_stop_l = s.pol_stop_l;
        let pol_stop_r = s.pol_stop_r;
        let swap_lr = s.swap_lr;
        let latch_l_active = s.latch_l_active;
        let latch_l_inactive = s.latch_l_inactive;
        let latch_r_active = s.latch_r_active;
        let latch_r_inactive = s.latch_r_inactive;
        let en_latch_encoder = s.en_latch_encoder;
        let sg_stop = s.sg_stop;
        let en_softstop = s.en_softstop;
        let e = s.encode_spec();
        assert((e & 0x1 != 0) == stop_l_enable
            && (e & 0x2 != 0) == stop_r_enable
            && (e & 0x4 != 0) == pol_stop_l
            && (e & 0x8 != 0) == pol_stop_r
            && (e & 0x10 != 0) == swap_lr
            && (e & 0x20 != 0) == latch_l_active
            && (e & 0x40 != 0) == latch_l_inactive
            && (e & 0x80 != 0) == latch_r_active
            && (e & 0x100 != 0) == latch_r_inactive
            && (e & 0x200 != 0) == en_latch_encoder
            && (e & 0x400 != 0) == sg_stop
            && (e & 0x800 != 0) == en_softstop
            && e & 0xFFF == e) by (bit_vector)
            requires
                e == (if stop_l_enable { 0x1u32 } else { 0u32 })
                    | (if stop_r_enable { 0x2u32 } else { 0u32 })
                    | (if pol_stop_l { 0x4u32 } else { 0u32 })
                    | (if pol_stop_r { 0x8u32 } else { 0u32 })
                    | (if swap_lr { 0x10u32 } else { 0u32 })
                    | (if latch_l_active { 0x20u32 } else { 0u32 })
                    | (if latch_l_inactive { 0x40u32 } else { 0u32 })
                    | (if latch_r_active { 0x80u32 } else { 0u32 })
                    | (if latch_r_inactive { 0x100u32 } else { 0u32 })
                    | (if en_latch_encoder { 0x200u32 } else { 0u32 })
                    | (if sg_stop { 0x400u32 } else { 0u32 })
                    | (if en_softstop { 0x800u32 } else { 0u32 }),
        ;
        assert(SwMode::decode_spec(e) == s);
    }
}

/// Ramp generator and switch event status (RAMP_STAT).
#[derive(Debug, Copy, Clone, PartialEq, Eq, Structural)]
pub struct RampStat {
    /// Left stop switch is active (bit 0)
    pub status_stop_l: bool,
    /// Right stop switch is active (bit 1)
    pub status_stop_r: bool,
    /// A left switch latch event occurred (bit 2)
    pub status_latch_l: bool,
    /// A right switch latch event occurred (bit 3)
    pub status_latch_r: bool,
    /// An active left stop occurred (bit 4)
    pub event_stop_l: bool,
    /// An active right stop occurred (bit 5)
    pub event_stop_r: bool,
    /// A stall stop occurred (bit 6)
    pub event_stop_sg: bool,
    /// The target position was reached (bit 7)
    pub event_pos_reached: bool,
    /// The target velocity is reached (bit 8)
    pub velocity_reached: bool,
    /// The target position is reached (bit 9)
    pub position_reached: bool,
    /// The actual velocity is zero (bit 10)
    pub vzero: bool,
    /// The zero wait time is running (bit 11)
    pub t_zerowait_active: bool,
    /// A reversal was needed to reach the target (bit 12)
    pub second_move: bool,
    /// A stall is signalled (bit 13)
    pub status_sg: bool,
}

impl RampStat {
    /// The register bits that carry a defined field.
    pub open spec fn mask() -> u32 {
        0x3FFF
    }

    /// The value with every field clear.
    pub open spec fn zeroed() -> RampStat {
        RampStat {
            status_stop_l: false,
            status_stop_r: false,
            status_latch_l: false,
            status_latch_r: false,
            event_stop_l: false,
            event_stop_r: false,
            event_stop_sg: false,
            event_pos_reached: false,
            velocity_reached: false,
            position_reached: false,
            vzero: false,
            t_zerowait_active: false,
            second_move: false,
            status_sg: false,
        }
    }

    /// Every multi-bit field is within its bit width.
    pub open spec fn wf(self) -> bool {
        true
    }

    /// Decomposition of a raw register value into its fields.
    pub open spec fn decode_spec(x: u32) -> RampStat {
        RampStat {
            status_stop_l: x & 0x1 != 0,
            status_stop_r: x & 0x2 != 0,
            status_latch_l: x & 0x4 != 0,
            status_latch_r: x & 0x8 != 0,
            event_stop_l: x & 0x10 != 0,
            event_stop_r: x & 0x20 != 0,
            event_stop_sg: x & 0x40 != 0,
            event_pos_reached: x & 0x80 != 0,
            velocity_reached: x & 0x100 != 0,
            position_reached: x & 0x200 != 0,
            vzero: x & 0x400 != 0,
            t_zerowait_active: x & 0x800 != 0,
            second_move: x & 0x1000 != 0,
            status_sg: x & 0x2000 != 0,
        }
    }

    /// The raw register value that carries these fields.
    pub open spec fn encode_spec(self) -> u32 {
        (if self.status_stop_l { 0x1u32 } else { 0u32 })
            | (if self.status_stop_r { 0x2u32 } else { 0u32 })
            | (if self.status_latch_l { 0x4u32 } else { 0u32 })
            | (if self.status_latch_r { 0x8u32 } else { 0u32 })
            | (if self.event_stop_l { 0x10u32 } else { 0u32 })
            | (if self.event_stop_r { 0x20u32 } else { 0u32 })
            | (if self.event_stop_sg { 0x40u32 } else { 0u32 })
            | (if self.event_pos_reached { 0x80u32 } else { 0u32 })
            | (if self.velocity_reached { 0x100u32 } else { 0u32 })
            | (if self.position_reached { 0x200u32 } else { 0u32 })
            | (if self.vzero { 0x400u32 } else { 0u32 })
            | (if self.t_zerowait_active { 0x800u32 } else { 0u32 })
            | (if self.second_move { 0x1000u32 } else { 0u32 })
            | (if self.status_sg { 0x2000u32 } else { 0u32 })
    }

    /// A value with every field clear.
    pub fn new() -> (r: RampStat)
        ensures
            r == RampStat::zeroed(),
    {
        RampStat {
            status_stop_l: false,
            status_stop_r: false,
            status_latch_l: false,
            status_latch_r: false,
            event_stop_l: false,
            event_stop_r: false,
            event_stop_sg: false,
            event_pos_reached: false,
            velocity_reached: false,
            position_reached: false,
            vzero: false,
            t_zerowait_active: false,
            second_move: false,
            status_sg: false,
        }
    }

    /// Decode a raw register value.
    pub fn decode(x: u32) -> (r: RampStat)
        ensures
            r == RampStat::decode_spec(x),
    {
        RampStat {
            status_stop_l: x & 0x1 != 0,
            status_stop_r: x & 0x2 != 0,
            status_latch_l: x & 0x4 != 0,
            status_latch_r: x & 0x8 != 0,
            event_stop_l: x & 0x10 != 0,
            event_stop_r: x & 0x20 != 0,
            event_stop_sg: x & 0x40 != 0,
            event_pos_reached: x & 0x80 != 0,
            velocity_reached: x & 0x100 != 0,
            position_reached: x & 0x200 != 0,
            vzero: x & 0x400 != 0,
            t_zerowait_active: x & 0x800 != 0,
            second_move: x & 0x1000 != 0,
            status_sg: x & 0x2000 != 0,
        }
    }

    /// Re-encode the fields into a raw register value.
    pub fn encode(self) -> (r: u32)
        ensures
            r == self.encode_spec(),
    {
        (if self.status_stop_l { 0x1u32 } else { 0u32 })
            | (if self.status_stop_r { 0x2u32 } else { 0u32 })
            | (if self.status_latch_l { 0x4u32 } else { 0u32 })
            | (if self.status_latch_r { 0x8u32 } else { 0u32 })
            | (if self.event_stop_l { 0x10u32 } else { 0u32 })
            | (if self.event_stop_r { 0x20u32 } else { 0u32 })
            | (if self.event_stop_sg { 0x40u32 } else { 0u32 })
            | (if self.event_pos_reached { 0x80u32 } else { 0u32 })
            | (if self.velocity_reached { 0x100u32 } else { 0u32 })
            | (if self.position_reached { 0x200u32 } else { 0u32 })
            | (if self.vzero { 0x400u32 } else { 0u32 })
            | (if self.t_zerowait_active { 0x800u32 } else { 0u32 })
            | (if self.second_move { 0x1000u32 } else { 0u32 })
            | (if self.status_sg { 0x2000u32 } else { 0u32 })
    }

    /// Decoded fields are within their bit widths, and re-encoding them
    /// reproduces every raw value whose reserved bits are zero.
    pub proof fn lemma_decode_then_encode(x: u32)
        ensures
            RampStat::decode_spec(x).wf(),
            x & RampStat::mask() == x ==> RampStat::decode_spec(x).encode_spec() == x,
    {
        assert((x & 0x3FFF == x ==> (if x & 0x1 != 0 { 0x1u32 } else { 0u32 })
            | (if x & 0x2 != 0 { 0x2u32 } else { 0u32 })
            | (if x & 0x4 != 0 { 0x4u32 } else { 0u32 })
            | (if x & 0x8 != 0 { 0x8u32 } else { 0u32 })
            | (if x & 0x10 != 0 { 0x10u32 } else { 0u32 })
            | (if x & 0x20 != 0 { 0x20u32 } else { 0u32 })
            | (if x & 0x40 != 0 { 0x40u32 } else { 0u32 })
            | (if x & 0x80 != 0 { 0x80u32 } else { 0u32 })
            | (if x & 0x100 != 0 { 0x100u32 } else { 0u32 })
            | (if x & 0x200 != 0 { 0x200u32 } else { 0u32 })
            | (if x & 0x400 != 0 { 0x400u32 } else { 0u32 })
            | (if x & 0x800 != 0 { 0x800u32 } else { 0u32 })
            | (if x & 0x1000 != 0 { 0x1000u32 } else { 0u32 })
            | (if x & 0x2000 != 0 { 0x2000u32 } else { 0u32 }) == x)) by (bit_vector);
    }

    /// Encoding well formed fields sets no reserved bit, and decoding the
    /// raw value yields the fields again.
    #[verifier::rlimit(50)]
    pub proof fn lemma_encode_then_decode(s: RampStat)
        requires
            s.wf(),
        ensures
            RampStat::decode_spec(s.encode_spec()) == s,
            s.encode_spec() & RampStat::mask() == s.encode_spec(),
    {
        let status_stop_l = s.status_stop_l;
        let status_stop_r = s.status_stop_r;
        let status_latch_l = s.status_latch_l;
        let status_latch_r = s.status_latch_r;
        let event_stop_l = s.event_stop_l;
        let event_stop_r = s.event_stop_r;
        let event_stop_sg = s.event_stop_sg;
        let event_pos_reached = s.event_pos_reached;
        let velocity_reached = s.velocity_reached;
        let position_reached = s.position_reached;
        let vzero = s.vzero;
        let t_zerowait_active = s.t_zerowait_active;
        let second_move = s.second_move;
        let status_sg = s.status_sg;
        let e = s.encode_spec();
        assert((e & 0x1 != 0) == status_stop_l
            && (e & 0x2 != 0) == status_stop_r
            && (e & 0x4 != 0) == status_latch_l
            && (e & 0x8 != 0) == status_latch_r
            && (e & 0x10 != 0) == event_stop_l
            && (e & 0x20 != 0) == event_stop_r
            && (e & 0x40 != 0) == event_stop_sg
            && (e & 0x80 != 0) == event_pos_reached
            && (e & 0x100 != 0) == velocity_reached
            && (e & 0x200 != 0) == position_reached
            && (e & 0x400 != 0) == vzero
            && (e & 0x800 != 0) == t_zerowait_active
            && (e & 0x1000 != 0) == second_move
            && (e & 0x2000 != 0) == status_sg
            && e & 0x3FFF == e) by (bit_vector)
            requires
                e == (if status_stop_l { 0x1u32 } else { 0u32 })
                    | (if status_stop_r { 0x2u32 } else { 0u32 })
                    | (if status_latch_l { 0x4u32 } else { 0u32 })
                    | (if status_latch_r { 0x8u32 } else { 0u32 })
                    | (if event_stop_l { 0x10u32 } else { 0u32 })
                    | (if event_stop_r { 0x20u32 } else { 0u32 })
                    | (if event_stop_sg { 0x40u32 } else { 0u32 })
                    | (if event_pos_reached { 0x80u32 } else { 0u32 })
                    | (if velocity_reached { 0x100u32 } else { 0u32 })
                    | (if position_reached { 0x200u32 } else { 0u32 })
                    | (if vzero { 0x400u32 } else { 0u32 })
                    | (if t_zerowait_active { 0x800u32 } else { 0u32 })
                    | (if second_move { 0x1000u32 } else { 0u32 })
                    | (if status_sg { 0x2000u32 } else { 0u32 }),
        ;
        assert(RampStat::decode_spec(e) == s);
    }
}

/// Encoder configuration (ENCMODE).
#[derive(Debug, Copy, Clone, PartialEq, Eq, Structural)]
pub struct EncMode {
    /// Polarity of the A channel (bit 0)
    pub pol_a: bool,
    /// Polarity of the B channel (bit 1)
    pub pol_b: bool,
    /// Polarity of the N channel (bit 2)
    pub pol_n: bool,
    /// Latch on the N event alone (bit 3)
    pub ignore_ab: bool,
    /// Clear the encoder on every N event (bit 4)
    pub clr_cont: bool,
    /// Clear the encoder on the next N event only (bit 5)
    pub clr_once: bool,
    /// N event on the positive edge (bit 6)
    pub pos_edge: bool,
    /// N event on the negative edge (bit 7)
    pub neg_edge: bool,
    /// Clear the position on an N event (bit 8)
    pub clr_enc_x: bool,
    /// Latch the actual position instead (bit 9)
    pub latch_x_act: bool,
    /// Decimal instead of binary constant (bit 10)
    pub enc_sel_decimal: bool,
}

impl EncMode {
    /// The register bits that carry a defined field.
    pub open spec fn mask() -> u32 {
        0x7FF
    }

    /// The value with every field clear.
    pub open spec fn zeroed() -> EncMode {
        EncMode {
            pol_a: false,
            pol_b: false,
            pol_n: false,
            ignore_ab: false,
            clr_cont: false,
            clr_once: false,
            pos_edge: false,
            neg_edge: false,
            clr_enc_x: false,
            latch_x_act: false,
            enc_sel_decimal: false,
        }
    }

    /// Every multi-bit field is within its bit width.
    pub open spec fn wf(self) -> bool {
        true
    }

    /// Decomposition of a raw register value into its fields.
    pub open spec fn decode_spec(x: u32) -> EncMode {
        EncMode {
            pol_a: x & 0x1 != 0,
            pol_b: x & 0x2 != 0,
            pol_n: x & 0x4 != 0,
            ignore_ab: x & 0x8 != 0,
            clr_cont: x & 0x10 != 0,
            clr_once: x & 0x20 != 0,
            pos_edge: x & 0x40 != 0,
            neg_edge: x & 0x80 != 0,
            clr_enc_x: x & 0x100 != 0,
            latch_x_act: x & 0x200 != 0,
            enc_sel_decimal: x & 0x400 != 0,
        }
    }

    /// The raw register value that carries these fields.
    pub open spec fn encode_spec(self) -> u32 {
        (if self.pol_a { 0x1u32 } else { 0u32 })
            | (if self.pol_b { 0x2u32 } else { 0u32 })
            | (if self.pol_n { 0x4u32 } else { 0u32 })
            | (if self.ignore_ab { 0x8u32 } else { 0u32 })
            | (if self.clr_cont { 0x10u32 } else { 0u32 })
            | (if self.clr_once { 0x20u32 } else { 0u32 })
            | (if self.pos_edge { 0x40u32 } else { 0u32 })
            | (if self.neg_edge { 0x80u32 } else { 0u32 })
            | (if self.clr_enc_x { 0x100u32 } else { 0u32 })
            | (if self.latch_x_act { 0x200u32 } else { 0u32 })
            | (if self.enc_sel_decimal { 0x400u32 } else { 0u32 })
    }

    /// A value with every field clear.
    pub fn new() -> (r: EncMode)
        ensures
            r == EncMode::zeroed(),
    {
        EncMode {
            pol_a: false,
            pol_b: false,
            pol_n: false,
            ignore_ab: false,
            clr_cont: false,
            clr_once: false,
            pos_edge: false,
            neg_edge: false,
            clr_enc_x: false,
            latch_x_act: false,
            enc_sel_decimal: false,
        }
    }

    /// Decode a raw register value.
    pub fn decode(x: u32) -> (r: EncMode)
        ensures
            r == EncMode::decode_spec(x),
    {
        EncMode {
            pol_a: x & 0x1 != 0,
            pol_b: x & 0x2 != 0,
            pol_n: x & 0x4 != 0,
            ignore_ab: x & 0x8 != 0,
            clr_cont: x & 0x10 != 0,
            clr_once: x & 0x20 != 0,
            pos_edge: x & 0x40 != 0,
            neg_edge: x & 0x80 != 0,
            clr_enc_x: x & 0x100 != 0,
            latch_x_act: x & 0x200 != 0,
            enc_sel_decimal: x & 0x400 != 0,
        }
    }

    /// Re-encode the fields into a raw register value.
    pub fn encode(self) -> (r: u32)
        ensures
            r == self.encode_spec(),
    {
        (if self.pol_a { 0x1u32 } else { 0u32 })
            | (if self.pol_b { 0x2u32 } else { 0u32 })
            | (if self.pol_n { 0x4u32 } else { 0u32 })
            | (if self.ignore_ab { 0x8u32 } else { 0u32 })
            | (if self.clr_cont { 0x10u32 } else { 0u32 })
            | (if self.clr_once { 0x20u32 } else { 0u32 })
            | (if self.pos_edge { 0x40u32 } else { 0u32 })
            | (if self.neg_edge { 0x80u32 } else { 0u32 })
            | (if self.clr_enc_x { 0x100u32 } else { 0u32 })
            | (if self.latch_x_act { 0x200u32 } else { 0u32 })
            | (if self.enc_sel_decimal { 0x400u32 } else { 0u32 })
    }

    /// Decoded fields are within their bit widths, and re-encoding them
    /// reproduces every raw value whose reserved bits are zero.
    pub proof fn lemma_decode_then_encode(x: u32)
        ensures
            EncMode::decode_spec(x).wf(),
            x & EncMode::mask() == x ==> EncMode::decode_spec(x).encode_spec() == x,
    {
        assert((x & 0x7FF == x ==> (if x & 0x1 != 0 { 0x1u32 } else { 0u32 })
            | (if x & 0x2 != 0 { 0x2u32 } else { 0u32 })
            | (if x & 0x4 != 0 { 0x4u32 } else { 0u32 })
            | (if x & 0x8 != 0 { 0x8u32 } else { 0u32 })
            | (if x & 0x10 != 0 { 0x10u32 } else { 0u32 })
            | (if x & 0x20 != 0 { 0x20u32 } else { 0u32 })
            | (if x & 0x40 != 0 { 0x40u32 } else { 0u32 })
            | (if x & 0x80 != 0 { 0x80u32 } else { 0u32 })
            | (if x & 0x100 != 0 { 0x100u32 } else { 0u32 })
            | (if x & 0x200 != 0 { 0x200u32 } else { 0u32 })
            | (if x & 0x400 != 0 { 0x400u32 } else { 0u32 }) == x)) by (bit_vector);
    }

    /// Encoding well formed fields sets no reserved bit, and decoding the
    /// raw value yields the fields again.
    pub proof fn lemma_encode_then_decode(s: EncMode)
        requires
            s.wf(),
        ensures
            EncMode::decode_spec(s.encode_spec()) == s,
            s.encode_spec() & EncMode::mask() == s.encode_spec(),
    {
        let pol_a = s.pol_a;
        let pol_b = s.pol_b;
        let pol_n = s.pol_n;
        let ignore_ab = s.ignore_ab;
        let clr_cont = s.clr_cont;
        let clr_once = s.clr_once;
        let pos_edge = s.pos_edge;
        let neg_edge = s.neg_edge;
        let clr_enc_x = s.clr_enc_x;
        let latch_x_act = s.latch_x_act;
        let enc_sel_decimal = s.enc_sel_decimal;
        let e = s.encode_spec();
        assert((e & 0x1 != 0) == pol_a
            && (e & 0x2 != 0) == pol_b
            && (e & 0x4 != 0) == pol_n
            && (e & 0x8 != 0) == ignore_ab
            && (e & 0x10 != 0) == clr_cont
            && (e & 0x20 != 0) == clr_once
            && (e & 0x40 != 0) == pos_edge
            && (e & 0x80 != 0) == neg_edge
            && (e & 0x100 != 0) == clr_enc_x
            && (e & 0x200 != 0) == latch_x_act
            && (e & 0x400 != 0) == enc_sel_decimal
            && e & 0x7FF == e) by (bit_vector)
            requires
                e == (if pol_a { 0x1u32 } else { 0u32 })
                    | (if pol_b { 0x2u32 } else { 0u32 })
                    | (if pol_n { 0x4u32 } else { 0u32 })
                    | (if ignore_ab { 0x8u32 } else { 0u32 })
                    | (if clr_cont { 0x10u32 } else { 0u32 })
                    | (if clr_once { 0x20u32 } else { 0u32 })
                    | (if pos_edge { 0x40u32 } else { 0u32 })
                    | (if neg_edge { 0x80u32 } else { 0u32 })
                    | (if clr_enc_x { 0x100u32 } else { 0u32 })
                    | (if latch_x_act { 0x200u32 } else { 0u32 })
                    | (if enc_sel_decimal { 0x400u32 } else { 0u32 }),
        ;
        assert(EncMode::decode_spec(e) == s);
    }
}

/// Microstep look up table segmentation (MSLUTSEL).
#[derive(Debug, Copy, Clone, PartialEq, Eq, Structural)]
pub struct MsLutSel {
    /// Width of segment 0 (bits 1:0)
    pub w0: u8,
    /// Width of segment 1 (bits 3:2)
    pub w1: u8,
    /// Width of segment 2 (bits 5:4)
    pub w2: u8,
    /// Width of segment 3 (bits 7:6)
    pub w3: u8,
    /// Start of segment 1 (bits 15:8)
    pub x1: u8,
    /// Start of segment 2 (bits 23:16)
    pub x2: u8,
    /// Start of segment 3 (bits 31:24)
    pub x3: u8,
}

impl MsLutSel {
    /// The register bits that carry a defined field.
    pub open spec fn mask() -> u32 {
        0xFFFFFFFF
    }

    /// The value with every field clear.
    pub open spec fn zeroed() -> MsLutSel {
        MsLutSel {
            w0: 0,
            w1: 0,
            w2: 0,
            w3: 0,
            x1: 0,
            x2: 0,
            x3: 0,
        }
    }

    /// Every multi-bit field is within its bit width.
    pub open spec fn wf(self) -> bool {
        self.w0 < 4
            && self.w1 < 4
            && self.w2 < 4
            && self.w3 < 4
    }

    /// Decomposition of a raw register value into its fields.
    pub open spec fn decode_spec(x: u32) -> MsLutSel {
        MsLutSel {
            w0: (x & 0x3) as u8,
            w1: ((x >> 2) & 0x3) as u8,
            w2: ((x >> 4) & 0x3) as u8,
            w3: ((x >> 6) & 0x3) as u8,
            x1: ((x >> 8) & 0xFF) as u8,
            x2: ((x >> 16) & 0xFF) as u8,
            x3: ((x >> 24) & 0xFF) as u8,
        }
    }

    /// The raw register value that carries these fields.
    pub open spec fn encode_spec(self) -> u32 {
        (self.w0 as u32)
            | ((self.w1 as u32) << 2)
            | ((self.w2 as u32) << 4)
            | ((self.w3 as u32) << 6)
            | ((self.x1 as u32) << 8)
            | ((self.x2 as u32) << 16)
            | ((self.x3 as u32) << 24)
    }

    /// A value with every field clear.
    pub fn new() -> (r: MsLutSel)
        ensures
            r == MsLutSel::zeroed(),
    {
        MsLutSel {
            w0: 0,
            w1: 0,
            w2: 0,
            w3: 0,
            x1: 0,
            x2: 0,
            x3: 0,
        }
    }

    /// Decode a raw register value.
    pub fn decode(x: u32) -> (r: MsLutSel)
        ensures
            r == MsLutSel::decode_spec(x),
    {
        MsLutSel {
            w0: (x & 0x3) as u8,
            w1: ((x >> 2) & 0x3) as u8,
            w2: ((x >> 4) & 0x3) as u8,
            w3: ((x >> 6) & 0x3) as u8,
            x1: ((x >> 8) & 0xFF) as u8,
            x2: ((x >> 16) & 0xFF) as u8,
            x3: ((x >> 24) & 0xFF) as u8,
        }
    }

    /// Re-encode the fields into a raw register value.
    pub fn encode(self) -> (r: u32)
        ensures
            r == self.encode_spec(),
    {
        (self.w0 as u32)
            | ((self.w1 as u32) << 2)
            | ((self.w2 as u32) << 4)
            | ((self.w3 as u32) << 6)
            | ((self.x1 as u32) << 8)
            | ((self.x2 as u32) << 16)
            | ((self.x3 as u32) << 24)
    }

    /// Decoded fields are within their bit widths, and re-encoding them
    /// reproduces every raw value whose reserved bits are zero.
    pub proof fn lemma_decode_then_encode(x: u32)
        ensures
            MsLutSel::decode_spec(x).wf(),
            x & MsLutSel::mask() == x ==> MsLutSel::decode_spec(x).encode_spec() == x,
    {
        assert(((x & 0x3) as u8) < 4
            && (((x >> 2) & 0x3) as u8) < 4
            && (((x >> 4) & 0x3) as u8) < 4
            && (((x >> 6) & 0x3) as u8) < 4
            && (x & 0xFFFFFFFF == x ==> (((x & 0x3) as u8) as u32)
            | (((((x >> 2) & 0x3) as u8) as u32) << 2)
            | (((((x >> 4) & 0x3) as u8) as u32) << 4)
            | (((((x >> 6) & 0x3) as u8) as u32) << 6)
            | (((((x >> 8) & 0xFF) as u8) as u32) << 8)
            | (((((x >> 16) & 0xFF) as u8) as u32) << 16)
            | (((((x >> 24) & 0xFF) as u8) as u32) << 24) == x)) by (bit_vector);
    }

    /// Encoding well formed fields sets no reserved bit, and decoding the
    /// raw value yields the fields again.
    pub proof fn lemma_encode_then_decode(s: MsLutSel)
        requires
            s.wf(),
        ensures
            MsLutSel::decode_spec(s.encode_spec()) == s,
            s.encode_spec() & MsLutSel::mask() == s.encode_spec(),
    {
        let w0 = s.w0;
        let w1 = s.w1;
        let w2 = s.w2;
        let w3 = s.w3;
        let x1 = s.x1;
        let x2 = s.x2;
        let x3 = s.x3;
        let e = s.encode_spec();
        assert(((e & 0x3) as u8) == w0
            && (((e >> 2) & 0x3) as u8) == w1
            && (((e >> 4) & 0x3) as u8) == w2
            && (((e >> 6) & 0x3) as u8) == w3
            && (((e >> 8) & 0xFF) as u8) == x1
            && (((e >> 16) & 0xFF) as u8) == x2
            && (((e >> 24) & 0xFF) as u8) == x3
            && e & 0xFFFFFFFF == e) by (bit_vector)
            requires
                w0 < 4,
                w1 < 4,
                w2 < 4,
                w3 < 4,
                e == (w0 as u32)
                    | ((w1 as u32) << 2)
                    | ((w2 as u32) << 4)
                    | ((w3 as u32) << 6)
                    | ((x1 as u32) << 8)
                    | ((x2 as u32) << 16)
                    | ((x3 as u32) << 24),
        ;
        assert(MsLutSel::decode_spec(e) == s);
    }
}

/// Chopper and driver configuration (CHOPCONF).
#[derive(Debug, Copy, Clone, PartialEq, Eq, Structural)]
pub struct ChopConf {
    /// Off time (bits 3:0)
    pub toff: u8,
    /// Hysteresis start (bits 6:4)
    pub hstr: u8,
    /// Hysteresis end (bits 10:7)
    pub hend: u8,
    /// High bit of the fast decay time (bit 11)
    pub fd3: bool,
    /// Disable current comparator fast decay end (bit 12)
    pub disfdcc: bool,
    /// Constant off time chopper mode (bit 14)
    pub chm: bool,
    /// Comparator blank time (bits 16:15)
    pub tbl: u8,
    /// Full step at high velocity (bit 18)
    pub vhighfs: bool,
    /// Chopper mode switch at high velocity (bit 19)
    pub vhighchm: bool,
    /// Passive fast decay time (bits 23:20)
    pub tpfd: u8,
    /// Microstep resolution (bits 27:24)
    pub mres: u8,
    /// Interpolate to 256 microsteps (bit 28)
    pub intpol: bool,
    /// Step on both edges (bit 29)
    pub dedge: bool,
    /// Disable short to ground protection (bit 30)
    pub diss2g: bool,
    /// Disable short to supply protection (bit 31)
    pub diss2vs: bool,
}

impl ChopConf {
    /// The register bits that carry a defined field.
    pub open spec fn mask() -> u32 {
        0xFFFDDFFF
    }

    /// The value with every field clear.
    pub open spec fn zeroed() -> ChopConf {
        ChopConf {
            toff: 0,
            hstr: 0,
            hend: 0,
            fd3: false,
            disfdcc: false,
            chm: false,
            tbl: 0,
            vhighfs: false,
            vhighchm: false,
            tpfd: 0,
            mres: 0,
            intpol: false,
            dedge: false,
            diss2g: false,
            diss2vs: false,
        }
    }

    /// Every multi-bit field is within its bit width.
    pub open spec fn wf(self) -> bool {
        self.toff < 16
            && self.hstr < 8
            && self.hend < 16
            && self.tbl < 4
            && self.tpfd < 16
            && self.mres < 16
    }

    /// Decomposition of a raw register value into its fields.
    pub open spec fn decode_spec(x: u32) -> ChopConf {
        ChopConf {
            toff: (x & 0xF) as u8,
            hstr: ((x >> 4) & 0x7) as u8,
            hend: ((x >> 7) & 0xF) as u8,
            fd3: x & 0x800 != 0,
            disfdcc: x & 0x1000 != 0,
            chm: x & 0x4000 != 0,
            tbl: ((x >> 15) & 0x3) as u8,
            vhighfs: x & 0x40000 != 0,
            vhighchm: x & 0x80000 != 0,
            tpfd: ((x >> 20) & 0xF) as u8,
            mres: ((x >> 24) & 0xF) as u8,
            intpol: x & 0x10000000 != 0,
            dedge: x & 0x20000000 != 0,
            diss2g: x & 0x40000000 != 0,
            diss2vs: x & 0x80000000 != 0,
        }
    }

    /// The raw register value that carries these fields.
    pub open spec fn encode_spec(self) -> u32 {
        (self.toff as u32)
            | ((self.hstr as u32) << 4)
            | ((self.hend as u32) << 7)
            | (if self.fd3 { 0x800u32 } else { 0u32 })
            | (if self.disfdcc { 0x1000u32 } else { 0u32 })
            | (if self.chm { 0x4000u32 } else { 0u32 })
            | ((self.tbl as u32) << 15)
            | (if self.vhighfs { 0x40000u32 } else { 0u32 })
            | (if self.vhighchm { 0x80000u32 } else { 0u32 })
            | ((self.tpfd as u32) << 20)
            | ((self.mres as u32) << 24)
            | (if self.intpol { 0x10000000u32 } else { 0u32 })
            | (if self.dedge { 0x20000000u32 } else { 0u32 })
            | (if self.diss2g { 0x40000000u32 } else { 0u32 })
            | (if self.diss2vs { 0x80000000u32 } else { 0u32 })
    }

    /// A value with every field clear.
    pub fn new() -> (r: ChopConf)
        ensures
            r == ChopConf::zeroed(),
    {
        ChopConf {
            toff: 0,
            hstr: 0,
            hend: 0,
            fd3: false,
            disfdcc: false,
            chm: false,
            tbl: 0,
            vhighfs: false,
            vhighchm: false,
            tpfd: 0,
            mres: 0,
            intpol: false,
            dedge: false,
            diss2g: false,
            diss2vs: false,
        }
    }

    /// Decode a raw register value.
    pub fn decode(x: u32) -> (r: ChopConf)
        ensures
            r == ChopConf::decode_spec(x),
    {
        ChopConf {
            toff: (x & 0xF) as u8,
            hstr: ((x >> 4) & 0x7) as u8,
            hend: ((x >> 7) & 0xF) as u8,
            fd3: x & 0x800 != 0,
            disfdcc: x & 0x1000 != 0,
            chm: x & 0x4000 != 0,
            tbl: ((x >> 15) & 0x3) as u8,
            vhighfs: x & 0x40000 != 0,
            vhighchm: x & 0x80000 != 0,
            tpfd: ((x >> 20) & 0xF) as u8,
            mres: ((x >> 24) & 0xF) as u8,
            intpol: x & 0x10000000 != 0,
            dedge: x & 0x20000000 != 0,
            diss2g: x & 0x40000000 != 0,
            diss2vs: x & 0x80000000 != 0,
        }
    }

    /// Re-encode the fields into a raw register value.
    pub fn encode(self) -> (r: u32)
        ensures
            r == self.encode_spec(),
    {
        (self.toff as u32)
            | ((self.hstr as u32) << 4)
            | ((self.hend as u32) << 7)
            | (if self.fd3 { 0x800u32 } else { 0u32 })
            | (if self.disfdcc { 0x1000u32 } else { 0u32 })
            | (if self.chm { 0x4000u32 } else { 0u32 })
            | ((self.tbl as u32) << 15)
            | (if self.vhighfs { 0x40000u32 } else { 0u32 })
            | (if self.vhighchm { 0x80000u32 } else { 0u32 })
            | ((self.tpfd as u32) << 20)
            | ((self.mres as u32) << 24)
            | (if self.intpol { 0x10000000u32 } else { 0u32 })
            | (if self.dedge { 0x20000000u32 } else { 0u32 })
            | (if self.diss2g { 0x40000000u32 } else { 0u32 })
            | (if self.diss2vs { 0x80000000u32 } else { 0u32 })
    }

    /// Decoded fields are within their bit widths, and re-encoding them
    /// reproduces every raw value whose reserved bits are zero.
    pub proof fn lemma_decode_then_encode(x: u32)
        ensures
            ChopConf::decode_spec(x).wf(),
            x & ChopConf::mask() == x ==> ChopConf::decode_spec(x).encode_spec() == x,
    {
        assert(((x & 0xF) as u8) < 16
            && (((x >> 4) & 0x7) as u8) < 8
            && (((x >> 7) & 0xF) as u8) < 16
            && (((x >> 15) & 0x3) as u8) < 4
            && (((x >> 20) & 0xF) as u8) < 16
            && (((x >> 24) & 0xF) as u8) < 16
            && (x & 0xFFFDDFFF == x ==> (((x & 0xF) as u8) as u32)
            | (((((x >> 4) & 0x7) as u8) as u32) << 4)
            | (((((x >> 7) & 0xF) as u8) as u32) << 7)
            | (if x & 0x800 != 0 { 0x800u32 } else { 0u32 })
            | (if x & 0x1000 != 0 { 0x1000u32 } else { 0u32 })
            | (if x & 0x4000 != 0 { 0x4000u32 } else { 0u32 })
            | (((((x >> 15) & 0x3) as u8) as u32) << 15)
            | (if x & 0x40000 != 0 { 0x40000u32 } else { 0u32 })
            | (if x & 0x80000 != 0 { 0x80000u32 } else { 0u32 })
            | (((((x >> 20) & 0xF) as u8) as u32) << 20)
            | (((((x >> 24) & 0xF) as u8) as u32) << 24)
            | (if x & 0x10000000 != 0 { 0x10000000u32 } else { 0u32 })
            | (if x & 0x20000000 != 0 { 0x20000000u32 } else { 0u32 })
            | (if x & 0x40000000 != 0 { 0x40000000u32 } else { 0u32 })
            | (if x & 0x80000000 != 0 { 0x80000000u32 } else { 0u32 }) == x)) by (bit_vector);
    }

    /// Encoding well formed fields sets no reserved bit, and decoding the
    /// raw value yields the fields again.
    pub proof fn lemma_encode_then_decode(s: ChopConf)
        requires
            s.wf(),
        ensures
            ChopConf::decode_spec(s.encode_spec()) == s,
            s.encode_spec() & ChopConf::mask() == s.encode_spec(),
    {
        let toff = s.toff;
        let hstr = s.hstr;
        let hend = s.hend;
        let fd3 = s.fd3;
        let disfdcc = s.disfdcc;
        let chm = s.chm;
        let tbl = s.tbl;
        let vhighfs = s.vhighfs;
        let vhighchm = s.vhighchm;
        let tpfd = s.tpfd;
        let mres = s.mres;
        let intpol = s.intpol;
        let dedge = s.dedge;
        let diss2g = s.diss2g;
        let diss2vs = s.diss2vs;
        let e = s.encode_spec();
        assert(((e & 0xF) as u8) == toff
            && (((e >> 4) & 0x7) as u8) == hstr
            && (((e >> 7) & 0xF) as u8) == hend
            && (e & 0x800 != 0) == fd3
            && (e & 0x1000 != 0) == disfdcc
            && (e & 0x4000 != 0) == chm
            && (((e >> 15) & 0x3) as u8) == tbl
            && (e & 0x40000 != 0) == vhighfs
            && (e & 0x80000 != 0) == vhighchm
            && (((e >> 20) & 0xF) as u8) == tpfd
            && (((e >> 24) & 0xF) as u8) == mres
            && (e & 0x10000000 != 0) == intpol
            && (e & 0x20000000 != 0) == dedge
            && (e & 0x40000000 != 0) == diss2g
            && (e & 0x80000000 != 0) == diss2vs
            && e & 0xFFFDDFFF == e) by (bit_vector)
            requires
                toff < 16,
                hstr < 8,
                hend < 16,
                tbl < 4,
                tpfd < 16,
                mres < 16,
                e == (toff as u32)
                    | ((hstr as u32) << 4)
                    | ((hend as u32) << 7)
                    | (if fd3 { 0x800u32 } else { 0u32 })
                    | (if disfdcc { 0x1000u32 } else { 0u32 })
                    | (if chm { 0x4000u32 } else { 0u32 })
                    | ((tbl as u32) << 15)
                    | (if vhighfs { 0x40000u32 } else { 0u32 })
                    | (if vhighchm { 0x80000u32 } else { 0u32 })
                    | ((tpfd as u32) << 20)
                    | ((mres as u32) << 24)
                    | (if intpol { 0x10000000u32 } else { 0u32 })
                    | (if dedge { 0x20000000u32 } else { 0u32 })
                    | (if diss2g { 0x40000000u32 } else { 0u32 })
                    | (if diss2vs { 0x80000000u32 } else { 0u32 }),
        ;
        assert(ChopConf::decode_spec(e) == s);
    }
}

/// Smart current control and stall detection (COOLCONF).
#[derive(Debug, Copy, Clone, PartialEq, Eq, Structural)]
pub struct CoolConf {
    /// Lower smart current threshold (bits 3:0)
    pub semin: u8,
    /// Current increment step (bits 6:5)
    pub seup: u8,
    /// Upper smart current threshold (bits 11:8)
    pub semax: u8,
    /// Current decrement speed (bits 14:13)
    pub sedn: u8,
    /// Minimum smart current is half (bit 15)
    pub seimin: bool,
    /// Stall detection threshold (bits 21:16)
    pub sgt: u8,
    /// Filter the stall measurement (bit 23)
    pub sfilt: bool,
}

impl CoolConf {
    /// The register bits that carry a defined field.
    pub open spec fn mask() -> u32 {
        0xBFEF6F
    }

    /// The value with every field clear.
    pub open spec fn zeroed() -> CoolConf {
        CoolConf {
            semin: 0,
            seup: 0,
            semax: 0,
            sedn: 0,
            seimin: false,
            sgt: 0,
            sfilt: false,
        }
    }

    /// Every multi-bit field is within its bit width.
    pub open spec fn wf(self) -> bool {
        self.semin < 16
            && self.seup < 4
            && self.semax < 16
            && self.sedn < 4
            && self.sgt < 64
    }

    /// Decomposition of a raw register value into its fields.
    pub open spec fn decode_spec(x: u32) -> CoolConf {
        CoolConf {
            semin: (x & 0xF) as u8,
            seup: ((x >> 5) & 0x3) as u8,
            semax: ((x >> 8) & 0xF) as u8,
            sedn: ((x >> 13) & 0x3) as u8,
            seimin: x & 0x8000 != 0,
            sgt: ((x >> 16) & 0x3F) as u8,
            sfilt: x & 0x800000 != 0,
        }
    }

    /// The raw register value that carries these fields.
    pub open spec fn encode_spec(self) -> u32 {
        (self.semin as u32)
            | ((self.seup as u32) << 5)
            | ((self.semax as u32) << 8)
            | ((self.sedn as u32) << 13)
            | (if self.seimin { 0x8000u32 } else { 0u32 })
            | ((self.sgt as u32) << 16)
            | (if self.sfilt { 0x800000u32 } else { 0u32 })
    }

    /// A value with every field clear.
    pub fn new() -> (r: CoolConf)
        ensures
            r == CoolConf::zeroed(),
    {
        CoolConf {
            semin: 0,
            seup: 0,
            semax: 0,
            sedn: 0,
            seimin: false,
            sgt: 0,
            sfilt: false,
        }
    }

    /// Decode a raw register value.
    pub fn decode(x: u32) -> (r: CoolConf)
        ensures
            r == CoolConf::decode_spec(x),
    {
        CoolConf {
            semin: (x & 0xF) as u8,
            seup: ((x >> 5) & 0x3) as u8,
            semax: ((x >> 8) & 0xF) as u8,
            sedn: ((x >> 13) & 0x3) as u8,
            seimin: x & 0x8000 != 0,
            sgt: ((x >> 16) & 0x3F) as u8,
            sfilt: x & 0x800000 != 0,
        }
    }

    /// Re-encode the fields into a raw register value.
    pub fn encode(self) -> (r: u32)
        ensures
            r == self.encode_spec(),
    {
        (self.semin as u32)
            | ((self.seup as u32) << 5)
            | ((self.semax as u32) << 8)
            | ((self.sedn as u32) << 13)
            | (if self.seimin { 0x8000u32 } else { 0u32 })
            | ((self.sgt as u32) << 16)
            | (if self.sfilt { 0x800000u32 } else { 0u32 })
    }

    /// Decoded fields are within their bit widths, and re-encoding them
    /// reproduces every raw value whose reserved bits are zero.
    pub proof fn lemma_decode_then_encode(x: u32)
        ensures
            CoolConf::decode_spec(x).wf(),
            x & CoolConf::mask() == x ==> CoolConf::decode_spec(x).encode_spec() == x,
    {
        assert(((x & 0xF) as u8) < 16
            && (((x >> 5) & 0x3) as u8) < 4
            && (((x >> 8) & 0xF) as u8) < 16
            && (((x >> 13) & 0x3) as u8) < 4
            && (((x >> 16) & 0x3F) as u8) < 64
            && (x & 0xBFEF6F == x ==> (((x & 0xF) as u8) as u32)
            | (((((x >> 5) & 0x3) as u8) as u32) << 5)
            | (((((x >> 8) & 0xF) as u8) as u32) << 8)
            | (((((x >> 13) & 0x3) as u8) as u32) << 13)
            | (if x & 0x8000 != 0 { 0x8000u32 } else { 0u32 })
            | (((((x >> 16) & 0x3F) as u8) as u32) << 16)
            | (if x & 0x800000 != 0 { 0x800000u32 } else { 0u32 }) == x)) by (bit_vector);
    }

    /// Encoding well formed fields sets no reserved bit, and decoding the
    /// raw value yields the fields again.
    pub proof fn lemma_encode_then_decode(s: CoolConf)
        requires
            s.wf(),
        ensures
            CoolConf::decode_spec(s.encode_spec()) == s,
            s.encode_spec() & CoolConf::mask() == s.encode_spec(),
    {
        let semin = s.semin;
        let seup = s.seup;
        let semax = s.semax;
        let sedn = s.sedn;
        let seimin = s.seimin;
        let sgt = s.sgt;
        let sfilt = s.sfilt;
        let e = s.encode_spec();
        assert(((e & 0xF) as u8) == semin
            && (((e >> 5) & 0x3) as u8) == seup
            && (((e >> 8) & 0xF) as u8) == semax
            && (((e >> 13) & 0x3) as u8) == sedn
            && (e & 0x8000 != 0) == seimin
            && (((e >> 16) & 0x3F) as u8) == sgt
            && (e & 0x800000 != 0) == sfilt
            && e & 0xBFEF6F == e) by (bit_vector)
            requires
                semin < 16,
                seup < 4,
                semax < 16,
                sedn < 4,
                sgt < 64,
                e == (semin as u32)
                    | ((seup as u32) << 5)
                    | ((semax as u32) << 8)
                    | ((sedn as u32) << 13)
                    | (if seimin { 0x8000u32 } else { 0u32 })
                    | ((sgt as u32) << 16)
                    | (if sfilt { 0x800000u32 } else { 0u32 }),
        ;
        assert(CoolConf::decode_spec(e) == s);
    }
}

/// Voltage PWM mode configuration (PWMCONF).
#[derive(Debug, Copy, Clone, PartialEq, Eq, Structural)]
pub struct PwmConf {
    /// Amplitude offset (bits 7:0)
    pub pwm_ofs: u8,
    /// Velocity amplitude gradient (bits 15:8)
    pub pwm_grad: u8,
    /// PWM frequency selection (bits 17:16)
    pub pwm_freq: u8,
    /// Automatic amplitude scaling (bit 18)
    pub pwm_autoscale: bool,
    /// Automatic gradient adaptation (bit 19)
    pub pwm_autograd: bool,
    /// Standstill option at zero current (bits 21:20)
    pub free_wheel: u8,
    /// Regulation loop gradient (bits 27:24)
    pub pwm_reg: u8,
    /// Amplitude limit after switch over (bits 31:28)
    pub pwm_lim: u8,
}

impl PwmConf {
    /// The register bits that carry a defined field.
    pub open spec fn mask() -> u32 {
        0xFF3FFFFF
    }

    /// The value with every field clear.
    pub open spec fn zeroed() -> PwmConf {
        PwmConf {
            pwm_ofs: 0,
            pwm_grad: 0,
            pwm_freq: 0,
            pwm_autoscale: false,
            pwm_autograd: false,
            free_wheel: 0,
            pwm_reg: 0,
            pwm_lim: 0,
        }
    }

    /// Every multi-bit field is within its bit width.
    pub open spec fn wf(self) -> bool {
        self.pwm_freq < 4
            && self.free_wheel < 4
            && self.pwm_reg < 16
            && self.pwm_lim < 16
    }

    /// Decomposition of a raw register value into its fields.
    pub open spec fn decode_spec(x: u32) -> PwmConf {
        PwmConf {
            pwm_ofs: (x & 0xFF) as u8,
            pwm_grad: ((x >> 8) & 0xFF) as u8,
            pwm_freq: ((x >> 16) & 0x3) as u8,
            pwm_autoscale: x & 0x40000 != 0,
            pwm_autograd: x & 0x80000 != 0,
            free_wheel: ((x >> 20) & 0x3) as u8,
            pwm_reg: ((x >> 24) & 0xF) as u8,
            pwm_lim: ((x >> 28) & 0xF) as u8,
        }
    }

    /// The raw register value that carries these fields.
    pub open spec fn encode_spec(self) -> u32 {
        (self.pwm_ofs as u32)
            | ((self.pwm_grad as u32) << 8)
            | ((self.pwm_freq as u32) << 16)
            | (if self.pwm_autoscale { 0x40000u32 } else { 0u32 })
            | (if self.pwm_autograd { 0x80000u32 } else { 0u32 })
            | ((self.free_wheel as u32) << 20)
            | ((self.pwm_reg as u32) << 24)
            | ((self.pwm_lim as u32) << 28)
    }

    /// A value with every field clear.
    pub fn new() -> (r: PwmConf)
        ensures
            r == PwmConf::zeroed(),
    {
        PwmConf {
            pwm_ofs: 0,
            pwm_grad: 0,
            pwm_freq: 0,
            pwm_autoscale: false,
            pwm_autograd: false,
            free_wheel: 0,
            pwm_reg: 0,
            pwm_lim: 0,
        }
    }

    /// Decode a raw register value.
    pub fn decode(x: u32) -> (r: PwmConf)
        ensures
            r == PwmConf::decode_spec(x),
    {
        PwmConf {
            pwm_ofs: (x & 0xFF) as u8,
            pwm_grad: ((x >> 8) & 0xFF) as u8,
            pwm_freq: ((x >> 16) & 0x3) as u8,
            pwm_autoscale: x & 0x40000 != 0,
            pwm_autograd: x & 0x80000 != 0,
            free_wheel: ((x >> 20) & 0x3) as u8,
            pwm_reg: ((x >> 24) & 0xF) as u8,
            pwm_lim: ((x >> 28) & 0xF) as u8,
        }
    }

    /// Re-encode the fields into a raw register value.
    pub fn encode(self) -> (r: u32)
        ensures
            r == self.encode_spec(),
    {
        (self.pwm_ofs as u32)
            | ((self.pwm_grad as u32) << 8)
            | ((self.pwm_freq as u32) << 16)
            | (if self.pwm_autoscale { 0x40000u32 } else { 0u32 })
            | (if self.pwm_autograd { 0x80000u32 } else { 0u32 })
            | ((self.free_wheel as u32) << 20)
            | ((self.pwm_reg as u32) << 24)
            | ((self.pwm_lim as u32) << 28)
    }

    /// Decoded fields are within their bit widths, and re-encoding them
    /// reproduces every raw value whose reserved bits are zero.
    pub proof fn lemma_decode_then_encode(x: u32)
        ensures
            PwmConf::decode_spec(x).wf(),
            x & PwmConf::mask() == x ==> PwmConf::decode_spec(x).encode_spec() == x,
    {
        assert((((x >> 16) & 0x3) as u8) < 4
            && (((x >> 20) & 0x3) as u8) < 4
            && (((x >> 24) & 0xF) as u8) < 16
            && (((x >> 28) & 0xF) as u8) < 16
            && (x & 0xFF3FFFFF == x ==> (((x & 0xFF) as u8) as u32)
            | (((((x >> 8) & 0xFF) as u8) as u32) << 8)
            | (((((x >> 16) & 0x3) as u8) as u32) << 16)
            | (if x & 0x40000 != 0 { 0x40000u32 } else { 0u32 })
            | (if x & 0x80000 != 0 { 0x80000u32 } else { 0u32 })
            | (((((x >> 20) & 0x3) as u8) as u32) << 20)
            | (((((x >> 24) & 0xF) as u8) as u32) << 24)
            | (((((x >> 28) & 0xF) as u8) as u32) << 28) == x)) by (bit_vector);
    }

    /// Encoding well formed fields sets no reserved bit, and decoding the
    /// raw value yields the fields again.
    pub proof fn lemma_encode_then_decode(s: PwmConf)
        requires
            s.wf(),
        ensures
            PwmConf::decode_spec(s.encode_spec()) == s,
            s.encode_spec() & PwmConf::mask() == s.encode_spec(),
    {
        let pwm_ofs = s.pwm_ofs;
        let pwm_grad = s.pwm_grad;
        let pwm_freq = s.pwm_freq;
        let pwm_autoscale = s.pwm_autoscale;
        let pwm_autograd = s.pwm_autograd;
        let free_wheel = s.free_wheel;
        let pwm_reg = s.pwm_reg;
        let pwm_lim = s.pwm_lim;
        let e = s.encode_spec();
        assert(((e & 0xFF) as u8) == pwm_ofs
            && (((e >> 8) & 0xFF) as u8) == pwm_grad
            && (((e >> 16) & 0x3) as u8) == pwm_freq
            && (e & 0x40000 != 0) == pwm_autoscale
            && (e & 0x80000 != 0) == pwm_autograd
            && (((e >> 20) & 0x3) as u8) == free_wheel
            && (((e >> 24) & 0xF) as u8) == pwm_reg
            && (((e >> 28) & 0xF) as u8) == pwm_lim
            && e & 0xFF3FFFFF == e) by (bit_vector)
            requires
                pwm_freq < 4,
                free_wheel < 4,
                pwm_reg < 16,
                pwm_lim < 16,
                e == (pwm_ofs as u32)
                    | ((pwm_grad as u32) << 8)
                    | ((pwm_freq as u32) << 16)
                    | (if pwm_autoscale { 0x40000u32 } else { 0u32 })
                    | (if pwm_autograd { 0x80000u32 } else { 0u32 })
                    | ((free_wheel as u32) << 20)
                    | ((pwm_reg as u32) << 24)
                    | ((pwm_lim as u32) << 28),
        ;
        assert(PwmConf::decode_spec(e) == s);
    }
}

/// Stall detection results and driver error flags (DRV_STATUS).
#[derive(Debug, Copy, Clone, PartialEq, Eq, Structural)]
pub struct DrvStatus {
    /// Stall detection load measurement (bits 9:0)
    pub sg_result: u16,
    /// Short to supply on phase A (bit 12)
    pub s2vsa: bool,
    /// Short to supply on phase B (bit 13)
    pub s2vsb: bool,
    /// Voltage PWM mode is active (bit 14)
    pub stealth: bool,
    /// Full stepping is active (bit 15)
    pub fsactive: bool,
    /// Actual current scale (bits 20:16)
    pub cs_actual: u8,
    /// A stall is detected (bit 24)
    pub stallguard: bool,
    /// Over temperature shutdown (bit 25)
    pub ot: bool,
    /// Over temperature warning (bit 26)
    pub otpw: bool,
    /// Short to ground on phase A (bit 27)
    pub s2ga: bool,
    /// Short to ground on phase B (bit 28)
    pub s2gb: bool,
    /// Open load on phase A (bit 29)
    pub ola: bool,
    /// Open load on phase B (bit 30)
    pub olb: bool,
    /// The motor stands still (bit 31)
    pub standstill: bool,
}

impl DrvStatus {
    /// The register bits that carry a defined field.
    pub open spec fn mask() -> u32 {
        0xFF1FF3FF
    }

    /// The value with every field clear.
    pub open spec fn zeroed() -> DrvStatus {
        DrvStatus {
            sg_result: 0,
            s2vsa: false,
            s2vsb: false,
            stealth: false,
            fsactive: false,
            cs_actual: 0,
            stallguard: false,
            ot: false,
            otpw: false,
            s2ga: false,
            s2gb: false,
            ola: false,
            olb: false,
            standstill: false,
        }
    }

    /// Every multi-bit field is within its bit width.
    pub open spec fn wf(self) -> bool {
        self.sg_result < 1024
            && self.cs_actual < 32
    }

    /// Decomposition of a raw register value into its fields.
    pub open spec fn decode_spec(x: u32) -> DrvStatus {
        DrvStatus {
            sg_result: (x & 0x3FF) as u16,
            s2vsa: x & 0x1000 != 0,
            s2vsb: x & 0x2000 != 0,
            stealth: x & 0x4000 != 0,
            fsactive: x & 0x8000 != 0,
            cs_actual: ((x >> 16) & 0x1F) as u8,
            stallguard: x & 0x1000000 != 0,
            ot: x & 0x2000000 != 0,
            otpw: x & 0x4000000 != 0,
            s2ga: x & 0x8000000 != 0,
            s2gb: x & 0x10000000 != 0,
            ola: x & 0x20000000 != 0,
            olb: x & 0x40000000 != 0,
            standstill: x & 0x80000000 != 0,
        }
    }

    /// The raw register value that carries these fields.
    pub open spec fn encode_spec(self) -> u32 {
        (self.sg_result as u32)
            | (if self.s2vsa { 0x1000u32 } else { 0u32 })
            | (if self.s2vsb { 0x2000u32 } else { 0u32 })
            | (if self.stealth { 0x4000u32 } else { 0u32 })
            | (if self.fsactive { 0x8000u32 } else { 0u32 })
            | ((self.cs_actual as u32) << 16)
            | (if self.stallguard { 0x1000000u32 } else { 0u32 })
            | (if self.ot { 0x2000000u32 } else { 0u32 })
            | (if self.otpw { 0x4000000u32 } else { 0u32 })
            | (if self.s2ga { 0x8000000u32 } else { 0u32 })
            | (if self.s2gb { 0x10000000u32 } else { 0u32 })
            | (if self.ola { 0x20000000u32 } else { 0u32 })
            | (if self.olb { 0x40000000u32 } else { 0u32 })
            | (if self.standstill { 0x80000000u32 } else { 0u32 })
    }

    /// A value with every field clear.
    pub fn new() -> (r: DrvStatus)
        ensures
            r == DrvStatus::zeroed(),
    {
        DrvStatus {
            sg_result: 0,
            s2vsa: false,
            s2vsb: false,
            stealth: false,
            fsactive: false,
            cs_actual: 0,
            stallguard: false,
            ot: false,
            otpw: false,
            s2ga: false,
            s2gb: false,
            ola: false,
            olb: false,
            standstill: false,
        }
    }

    /// Decode a raw register value.
    pub fn decode(x: u32) -> (r: DrvStatus)
        ensures
            r == DrvStatus::decode_spec(x),
    {
        DrvStatus {
            sg_result: (x & 0x3FF) as u16,
            s2vsa: x & 0x1000 != 0,
            s2vsb: x & 0x2000 != 0,
            stealth: x & 0x4000 != 0,
            fsactive: x & 0x8000 != 0,
            cs_actual: ((x >> 16) & 0x1F) as u8,
            stallguard: x & 0x1000000 != 0,
            ot: x & 0x2000000 != 0,
            otpw: x & 0x4000000 != 0,
            s2ga: x & 0x8000000 != 0,
            s2gb: x & 0x10000000 != 0,
            ola: x & 0x20000000 != 0,
            olb: x & 0x40000000 != 0,
            standstill: x & 0x80000000 != 0,
        }
    }

    /// Re-encode the fields into a raw register value.
    pub fn encode(self) -> (r: u32)
        ensures
            r == self.encode_spec(),
    {
        (self.sg_result as u32)
            | (if self.s2vsa { 0x1000u32 } else { 0u32 })
            | (if self.s2vsb { 0x2000u32 } else { 0u32 })
            | (if self.stealth { 0x4000u32 } else { 0u32 })
            | (if self.fsactive { 0x8000u32 } else { 0u32 })
            | ((self.cs_actual as u32) << 16)
            | (if self.stallguard { 0x1000000u32 } else { 0u32 })
            | (if self.ot { 0x2000000u32 } else { 0u32 })
            | (if self.otpw { 0x4000000u32 } else { 0u32 })
            | (if self.s2ga { 0x8000000u32 } else { 0u32 })
            | (if self.s2gb { 0x10000000u32 } else { 0u32 })
            | (if self.ola { 0x20000000u32 } else { 0u32 })
            | (if self.olb { 0x40000000u32 } else { 0u32 })
            | (if self.standstill { 0x80000000u32 } else { 0u32 })
    }

    /// Decoded fields are within their bit widths, and re-encoding them
    /// reproduces every raw value whose reserved bits are zero.
    pub proof fn lemma_decode_then_encode(x: u32)
        ensures
            DrvStatus::decode_spec(x).wf(),
            x & DrvStatus::mask() == x ==> DrvStatus::decode_spec(x).encode_spec() == x,
    {
        assert(((x & 0x3FF) as u16) < 1024
            && (((x >> 16) & 0x1F) as u8) < 32
            && (x & 0xFF1FF3FF == x ==> (((x & 0x3FF) as u16) as u32)
            | (if x & 0x1000 != 0 { 0x1000u32 } else { 0u32 })
            | (if x & 0x2000 != 0 { 0x2000u32 } else { 0u32 })
            | (if x & 0x4000 != 0 { 0x4000u32 } else { 0u32 })
            | (if x & 0x8000 != 0 { 0x8000u32 } else { 0u32 })
            | (((((x >> 16) & 0x1F) as u8) as u32) << 16)
            | (if x & 0x1000000 != 0 { 0x1000000u32 } else { 0u32 })
            | (if x & 0x2000000 != 0 { 0x2000000u32 } else { 0u32 })
            | (if x & 0x4000000 != 0 { 0x4000000u32 } else { 0u32 })
            | (if x & 0x8000000 != 0 { 0x8000000u32 } else { 0u32 })
            | (if x & 0x10000000 != 0 { 0x10000000u32 } else { 0u32 })
            | (if x & 0x20000000 != 0 { 0x20000000u32 } else { 0u32 })
            | (if x & 0x40000000 != 0 { 0x40000000u32 } else { 0u32 })
            | (if x & 0x80000000 != 0 { 0x80000000u32 } else { 0u32 }) == x)) by (bit_vector);
    }

    /// Encoding well formed fields sets no reserved bit, and decoding the
    /// raw value yields the fields again.
    pub proof fn lemma_encode_then_decode(s: DrvStatus)
        requires
            s.wf(),
        ensures
            DrvStatus::decode_spec(s.encode_spec()) == s,
            s.encode_spec() & DrvStatus::mask() == s.encode_spec(),
    {
        let sg_result = s.sg_result;
        let s2vsa = s.s2vsa;
        let s2vsb = s.s2vsb;
        let stealth = s.stealth;
        let fsactive = s.fsactive;
        let cs_actual = s.cs_actual;
        let stallguard = s.stallguard;
        let ot = s.ot;
        let otpw = s.otpw;
        let s2ga = s.s2ga;
        let s2gb = s.s2gb;
        let ola = s.ola;
        let olb = s.olb;
        let standstill = s.standstill;
        let e = s.encode_spec();
        assert(((e & 0x3FF) as u16) == sg_result
            && (e & 0x1000 != 0) == s2vsa
            && (e & 0x2000 != 0) == s2vsb
            && (e & 0x4000 != 0) == stealth
            && (e & 0x8000 != 0) == fsactive
            && (((e >> 16) & 0x1F) as u8) == cs_actual
            && (e & 0x1000000 != 0) == stallguard
            && (e & 0x2000000 != 0) == ot
            && (e & 0x4000000 != 0) == otpw
            && (e & 0x8000000 != 0) == s2ga
            && (e & 0x10000000 != 0) == s2gb
            && (e & 0x20000000 != 0) == ola
            && (e & 0x40000000 != 0) == olb
            && (e & 0x80000000 != 0) == standstill
            && e & 0xFF1FF3FF == e) by (bit_vector)
            requires
                sg_result < 1024,
                cs_actual < 32,
                e == (sg_result as u32)
                    | (if s2vsa { 0x1000u32 } else { 0u32 })
                    | (if s2vsb { 0x2000u32 } else { 0u32 })
                    | (if stealth { 0x4000u32 } else { 0u32 })
                    | (if fsactive { 0x8000u32 } else { 0u32 })
                    | ((cs_actual as u32) << 16)
                    | (if stallguard { 0x1000000u32 } else { 0u32 })
                    | (if ot { 0x2000000u32 } else { 0u32 })
                    | (if otpw { 0x4000000u32 } else { 0u32 })
                    | (if s2ga { 0x8000000u32 } else { 0u32 })
                    | (if s2gb { 0x10000000u32 } else { 0u32 })
                    | (if ola { 0x20000000u32 } else { 0u32 })
                    | (if olb { 0x40000000u32 } else { 0u32 })
                    | (if standstill { 0x80000000u32 } else { 0u32 }),
        ;
        assert(DrvStatus::decode_spec(e) == s);
    }
}

/// Driving mode of the ramp generator: the values of the RAMPMODE register.
#[derive(Debug, Copy, Clone, PartialEq, Eq, Structural)]
pub enum RampMode {
    /// Position mode, using all acceleration and velocity parameters.
    PositioningMode,
    /// Velocity mode to positive VMAX, using the AMAX acceleration.
    VelocityModePos,
    /// Velocity mode to negative VMAX, using the AMAX acceleration.
    VelocityModeNeg,
    /// Hold mode: the velocity remains unchanged unless a stop event occurs.
    HoldMode,
}

impl RampMode {
    /// The register value of each mode.
    pub open spec fn value_spec(self) -> u32 {
        match self {
            RampMode::PositioningMode => 0,
            RampMode::VelocityModePos => 1,
            RampMode::VelocityModeNeg => 2,
            RampMode::HoldMode => 3,
        }
    }

    /// Return the register value of the mode.
    pub fn value(self) -> (v: u32)
        ensures
            v == self.value_spec(),
    {
        match self {
            RampMode::PositioningMode => 0,
            RampMode::VelocityModePos => 1,
            RampMode::VelocityModeNeg => 2,
            RampMode::HoldMode => 3,
        }
    }
}

impl Default for ChopConf {
    /// The chip's power-on value of the chopper configuration.
    fn default() -> (r: ChopConf)
        ensures
            r == ChopConf::decode_spec(0x10410150),
    {
        ChopConf::decode(0x10410150)
    }
}

impl Default for PwmConf {
    /// The chip's power-on value of the PWM configuration.
    fn default() -> (r: PwmConf)
        ensures
            r == PwmConf::decode_spec(0xC40C001E),
    {
        PwmConf::decode(0xC40C001E)
    }
}

} // verus!
