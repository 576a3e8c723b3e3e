//! Driver for a stepper-motor controller chip with a register interface over a
//! synchronous, chip-select framed bus.
//!
//! The crate has two layers: a register catalog ([`registers`]) that maps each
//! register to its 7-bit bus address and gives a lossless bit-field codec for
//! the structured registers, and a transaction engine ([`Tmc5160`]) that frames
//! read/write transactions over an abstract [`transport::Transport`] capability
//! and offers unit-converting high-level operations.

use vstd::prelude::*;

pub mod registers;
pub mod transport;

verus! {

use crate::registers::{
    Address, ChopConf, CoolConf, DrvConf, DrvStatus, EncMode, GConf, GStat, IHoldIRun,
    MsLutSel, NodeConf, OtpProg, PwmConf, RampMode, RampStat, Registers, ShortConf,
    SpiStatus, SwMode,
};
use crate::transport::{BusEvent, Transport};

/// Error raised by a driver operation.
#[derive(Debug, PartialEq, Eq)]
pub enum Error<E> {
    /// The bus exchange failed; carries the transport's own error value.
    Spi(E),
    /// Driving the chip-select or enable signal failed.
    PinError,
}

/// The four bytes of a 32-bit value, most significant first.
pub open spec fn be_bytes(x: u32) -> Seq<u8> {
    seq![(x >> 24) as u8, (x >> 16) as u8, (x >> 8) as u8, x as u8]
}

/// The 32-bit value carried by four bytes, most significant first.
pub open spec fn be_u32(s: Seq<u8>) -> u32
    recommends
        s.len() == 4,
{
    ((s[0] as u32) << 24) | ((s[1] as u32) << 16) | ((s[2] as u32) << 8) | (s[3] as u32)
}

/// Reading four bytes as a 32-bit value and writing it back reproduces the
/// bytes.
pub proof fn lemma_be_bytes_of_u32(s: Seq<u8>)
    requires
        s.len() == 4,
    ensures
        be_bytes(be_u32(s)) == s,
{
    let b0 = s[0];
    let b1 = s[1];
    let b2 = s[2];
    let b3 = s[3];
    let x = be_u32(s);
    assert((x >> 24) as u8 == b0 && (x >> 16) as u8 == b1 && (x >> 8) as u8 == b2
        && x as u8 == b3) by (bit_vector)
        requires
            x == ((b0 as u32) << 24) | ((b1 as u32) << 16) | ((b2 as u32) << 8) | (b3 as u32),
    ;
    assert(be_bytes(x) =~= s);
}

/// The command byte of a read transaction at address `a`: direction bit clear.
pub open spec fn read_cmd(a: u8) -> u8 {
    a & 0x7F
}

/// The command byte of a write transaction at address `a`: direction bit set.
pub open spec fn write_cmd(a: u8) -> u8 {
    a | 0x80
}

/// The don't-care bytes sent while the payload of a read is received.
pub open spec fn zeros4() -> Seq<u8> {
    seq![0u8, 0u8, 0u8, 0u8]
}

/// The four events of one complete read transaction at address `a` that
/// returned status byte `st` and payload `data`.
pub open spec fn read_frame(a: u8, st: u8, data: u32) -> Seq<BusEvent> {
    seq![
        BusEvent::Cs { low: true },
        BusEvent::Xfer { tx: seq![read_cmd(a)], rx: seq![st] },
        BusEvent::Xfer { tx: zeros4(), rx: be_bytes(data) },
        BusEvent::Cs { low: false },
    ]
}

/// The four events of one complete write of `data` to address `a`; `st` is
/// the status byte and `echo` the payload that came back.
pub open spec fn write_frame(a: u8, data: u32, st: u8, echo: u32) -> Seq<BusEvent> {
    seq![
        BusEvent::Cs { low: true },
        BusEvent::Xfer { tx: seq![write_cmd(a)], rx: seq![st] },
        BusEvent::Xfer { tx: be_bytes(data), rx: be_bytes(echo) },
        BusEvent::Cs { low: false },
    ]
}

/// Whether `evs` is one complete read transaction at address `a`, whatever
/// bytes came back.
pub open spec fn is_read_frame(evs: Seq<BusEvent>, a: u8) -> bool {
    &&& evs.len() == 4
    &&& evs[0] == (BusEvent::Cs { low: true })
    &&& evs[1] matches BusEvent::Xfer { tx, rx } && tx == seq![read_cmd(a)] && rx.len() == 1
    &&& evs[2] matches BusEvent::Xfer { tx, rx } && tx == zeros4() && rx.len() == 4
    &&& evs[3] == (BusEvent::Cs { low: false })
}

/// Whether `evs` is one complete write of `data` to address `a`, whatever
/// status byte and echo came back.
pub open spec fn is_write_frame(evs: Seq<BusEvent>, a: u8, data: u32) -> bool {
    &&& evs.len() == 4
    &&& evs[0] == (BusEvent::Cs { low: true })
    &&& evs[1] matches BusEvent::Xfer { tx, rx } && tx == seq![write_cmd(a)] && rx.len() == 1
    &&& evs[2] matches BusEvent::Xfer { tx, rx } && tx == be_bytes(data) && rx.len() == 4
    &&& evs[3] == (BusEvent::Cs { low: false })
}

/// Whether `evs` records a transaction attempt with command byte `cmd` and
/// outgoing payload `payload` that ended in a failed byte exchange: the
/// command byte exchange or the payload exchange failed, and the closing
/// deassert was attempted but may itself have failed silently.
pub open spec fn bus_failed_tail(evs: Seq<BusEvent>, cmd: u8, payload: Seq<u8>) -> bool {
    ||| (evs.len() == 2
        && evs[0] == (BusEvent::Cs { low: true })
        && evs[1] == (BusEvent::XferFail { tx: seq![cmd] }))
    ||| (evs.len() == 3
        && evs[0] == (BusEvent::Cs { low: true })
        && evs[1] == (BusEvent::XferFail { tx: seq![cmd] })
        && evs[2] == (BusEvent::Cs { low: false }))
    ||| (evs.len() == 3
        && evs[0] == (BusEvent::Cs { low: true })
        && (evs[1] matches BusEvent::Xfer { tx, rx } && tx == seq![cmd] && rx.len() == 1)
        && evs[2] == (BusEvent::XferFail { tx: payload }))
    ||| (evs.len() == 4
        && evs[0] == (BusEvent::Cs { low: true })
        && (evs[1] matches BusEvent::Xfer { tx, rx } && tx == seq![cmd] && rx.len() == 1)
        && evs[2] == (BusEvent::XferFail { tx: payload })
        && evs[3] == (BusEvent::Cs { low: false }))
}

/// Whether `evs` records a transaction attempt with command byte `cmd` and
/// outgoing payload `payload` that ended in a pin failure: either asserting
/// the chip select failed before anything was exchanged, or the whole
/// exchange went through and the final deassert failed.
pub open spec fn pin_failed_tail(evs: Seq<BusEvent>, cmd: u8, payload: Seq<u8>) -> bool {
    ||| evs.len() == 0
    ||| (evs.len() == 3
        && evs[0] == (BusEvent::Cs { low: true })
        && (evs[1] matches BusEvent::Xfer { tx, rx } && tx == seq![cmd] && rx.len() == 1)
        && (evs[2] matches BusEvent::Xfer { tx, rx } && tx == payload && rx.len() == 4))
}

/// What the log shows after a transaction attempt that failed: a pin failure
/// when `pin`, a failed byte exchange otherwise.
pub open spec fn failed_attempt(evs: Seq<BusEvent>, cmd: u8, payload: Seq<u8>, pin: bool) -> bool {
    if pin {
        pin_failed_tail(evs, cmd, payload)
    } else {
        bus_failed_tail(evs, cmd, payload)
    }
}

/// Whether `post` is `pre` with more events appended.
pub open spec fn extends(pre: Seq<BusEvent>, post: Seq<BusEvent>) -> bool {
    pre.len() <= post.len() && post.subrange(0, pre.len() as int) == pre
}

/// The events of `post` past the end of `pre`.
pub open spec fn log_ext(pre: Seq<BusEvent>, post: Seq<BusEvent>) -> Seq<BusEvent> {
    post.subrange(pre.len() as int, post.len() as int)
}

/// A log extended by a concrete tail.
pub proof fn lemma_log_tail(pre: Seq<BusEvent>, tail: Seq<BusEvent>)
    ensures
        extends(pre, pre + tail),
        log_ext(pre, pre + tail) == tail,
{
    assert((pre + tail).subrange(0, pre.len() as int) =~= pre);
    assert((pre + tail).subrange(pre.len() as int, (pre + tail).len() as int) =~= tail);
}

/// Every index of `pre` keeps its event in an extension of `pre`.
pub proof fn lemma_extends_index(pre: Seq<BusEvent>, post: Seq<BusEvent>)
    requires
        extends(pre, post),
    ensures
        forall|j: int| 0 <= j < pre.len() ==> post[j] == #[trigger] pre[j],
{
    assert forall|j: int| 0 <= j < pre.len() implies post[j] == pre[j] by {
        assert(post.subrange(0, pre.len() as int)[j] == pre[j]);
    }
}

/// A subrange within the prefix is unchanged in an extension.
pub proof fn lemma_extends_subrange(pre: Seq<BusEvent>, post: Seq<BusEvent>, i: int, j: int)
    requires
        extends(pre, post),
        0 <= i,
        i <= j,
        j <= pre.len(),
    ensures
        post.subrange(i, j) == pre.subrange(i, j),
{
    lemma_extends_index(pre, post);
    assert(post.subrange(i, j) =~= pre.subrange(i, j));
}

/// Data exchange packet: the status byte and the 32-bit payload of one bus
/// transaction.
#[derive(Debug, Copy, Clone, PartialEq, Eq, Structural)]
pub struct DataPacket {
    /// Status returned with the transaction.
    pub status: SpiStatus,
    /// Value received from the chip.
    pub data: u32,
}

/// Turn a 32-bit value into its four bytes, most significant first.
fn u32_to_be_vec(x: u32) -> (v: Vec<u8>)
    ensures
        v@ == be_bytes(x),
{
    let mut v: Vec<u8> = Vec::new();
    v.push(#[verifier::truncate] ((x >> 24) as u8));
    v.push(#[verifier::truncate] ((x >> 16) as u8));
    v.push(#[verifier::truncate] ((x >> 8) as u8));
    v.push(#[verifier::truncate] (x as u8));
    assert(v@ =~= be_bytes(x));
    v
}

/// Read four bytes, most significant first, as a 32-bit value.
fn be_vec_to_u32(v: &Vec<u8>) -> (x: u32)
    requires
        v@.len() == 4,
    ensures
        x == be_u32(v@),
{
    ((v[0] as u32) << 24) | ((v[1] as u32) << 16) | ((v[2] as u32) << 8) | (v[3] as u32)
}

/// Driver for the stepper controller: owns the transport, the calibration
/// constants, the cached status byte, and an in-memory copy of each
/// configuration register.
pub struct Tmc5160<T> {
    /// The transport that carries the bus, chip select and enable signals.
    pub bus: T,
    /// The last commanded maximum velocity, in Hz.
    pub v_max: u32,
    /// The most recent status byte seen on the bus.
    pub status: SpiStatus,
    /// Clock frequency of the chip in Hz.
    pub clock: u32,
    /// Microsteps per full step.
    pub step_count: u32,
    /// Whether the enable output is driven inverted.
    pub en_inverted: bool,
    /// In-memory value of the GCONF register.
    pub g_conf: GConf,
    /// In-memory value of the SLAVECONF register.
    pub node_conf: NodeConf,
    /// In-memory value of the OTP_PROG register.
    pub otp_prog: OtpProg,
    /// In-memory value of the SHORT_CONF register.
    pub short_conf: ShortConf,
    /// In-memory value of the DRV_CONF register.
    pub drv_conf: DrvConf,
    /// In-memory value of the IHOLD_IRUN register.
    pub ihold_irun: IHoldIRun,
    /// In-memory value of the SW_MODE register.
    pub sw_mode: SwMode,
    /// In-memory value of the ENCMODE register.
    pub enc_mode: EncMode,
    /// In-memory value of the MSLUTSEL register.
    pub ms_lut_sel: MsLutSel,
    /// In-memory value of the CHOPCONF register.
    pub chop_conf: ChopConf,
    /// In-memory value of the COOLCONF register.
    pub cool_conf: CoolConf,
    /// In-memory value of the PWMCONF register.
    pub pwm_conf: PwmConf,
}

impl<T: Transport> Tmc5160<T> {
    /// The calibration constants are usable: both divisors are nonzero.
    pub open spec fn wf(&self) -> bool {
        self.clock > 0 && self.step_count > 0
    }

    /// The calibration constants, polarity flag and register caches of the
    /// two values agree.
    pub open spec fn same_calib(self, other: Self) -> bool {
        &&& self.clock == other.clock
        &&& self.step_count == other.step_count
        &&& self.en_inverted == other.en_inverted
        &&& self.g_conf == other.g_conf
        &&& self.node_conf == other.node_conf
        &&& self.otp_prog == other.otp_prog
        &&& self.short_conf == other.short_conf
        &&& self.drv_conf == other.drv_conf
        &&& self.ihold_irun == other.ihold_irun
        &&& self.sw_mode == other.sw_mode
        &&& self.enc_mode == other.enc_mode
        &&& self.ms_lut_sel == other.ms_lut_sel
        &&& self.chop_conf == other.chop_conf
        &&& self.cool_conf == other.cool_conf
        &&& self.pwm_conf == other.pwm_conf
    }

    /// As [`Self::same_calib`], and the cached maximum velocity agrees too.
    pub open spec fn same_config(self, other: Self) -> bool {
        self.same_calib(other) && self.v_max == other.v_max
    }

    /// Create a new driver over a transport. The clock defaults to 12 MHz
    /// and the step count to 256 microsteps per step.
    pub fn new(bus: T) -> (d: Tmc5160<T>)
        ensures
            d.wf(),
            d.bus == bus,
            d.v_max == 0,
            d.status == SpiStatus::zeroed(),
            d.clock == 12_000_000,
            d.step_count == 256,
            !d.en_inverted,
            d.g_conf == GConf::zeroed(),
            d.node_conf == NodeConf::zeroed(),
            d.otp_prog == OtpProg::zeroed(),
            d.short_conf == ShortConf::zeroed(),
            d.drv_conf == DrvConf::zeroed(),
            d.ihold_irun == IHoldIRun::zeroed(),
            d.sw_mode == SwMode::zeroed(),
            d.enc_mode == EncMode::zeroed(),
            d.ms_lut_sel == MsLutSel::zeroed(),
            d.chop_conf == ChopConf::zeroed(),
            d.cool_conf == CoolConf::zeroed(),
            d.pwm_conf == PwmConf::zeroed(),
    {
        Tmc5160 {
            bus,
            v_max: 0,
            status: SpiStatus::new(),
            clock: 12_000_000,
            step_count: 256,
            en_inverted: false,
            g_conf: GConf::new(),
            node_conf: NodeConf::new(),
            otp_prog: OtpProg::new(),
            short_conf: ShortConf::new(),
            drv_conf: DrvConf::new(),
            ihold_irun: IHoldIRun::new(),
            sw_mode: SwMode::new(),
            enc_mode: EncMode::new(),
            ms_lut_sel: MsLutSel::new(),
            chop_conf: ChopConf::new(),
            cool_conf: CoolConf::new(),
            pwm_conf: PwmConf::new(),
        }
    }

    /// Invert the polarity of the enable output.
    pub fn en_inverted(self, inv: bool) -> (d: Self)
        ensures
            d == (Tmc5160 { en_inverted: inv, ..self }),
    {
        Tmc5160 { en_inverted: inv, ..self }
    }

    /// Set the clock frequency of the chip in Hz (the default is 12 MHz).
    pub fn clock(self, clock: u32) -> (d: Self)
        requires
            clock > 0,
        ensures
            d == (Tmc5160 { clock, ..self }),
    {
        Tmc5160 { clock, ..self }
    }

    /// Set the number of microsteps per full step (the default is 256).
    pub fn step_count(self, step_count: u32) -> (d: Self)
        requires
            step_count > 0,
        ensures
            d == (Tmc5160 { step_count, ..self }),
    {
        Tmc5160 { step_count, ..self }
    }

    /// One raw read transaction: assert the select, send the read command
    /// byte, exchange four don't-care bytes for the payload, deassert. Does
    /// not touch the cached status.
    fn read_io<R: Address + Copy>(&mut self, reg: R) -> (r: Result<DataPacket, Error<T::BusError>>)
        ensures
            final(self).bus.enable_present() == old(self).bus.enable_present(),
            final(self).same_config(*old(self)),
            final(self).status == old(self).status,
            extends(old(self).bus.log(), final(self).bus.log()),
            (match r {
                Ok(p) => final(self).bus.log() == old(self).bus.log()
                    + read_frame(reg.addr_spec(), p.status.encode_spec(), p.data),
                Err(e) => failed_attempt(
                    log_ext(old(self).bus.log(), final(self).bus.log()),
                    read_cmd(reg.addr_spec()),
                    zeros4(),
                    e is PinError,
                ),
            }),
    {
        let ghost pre = self.bus.log();
        let a = reg.addr();
        if self.bus.cs_set(true).is_err() {
            proof {
                assert(pre.subrange(0, pre.len() as int) =~= pre);
                assert(log_ext(pre, pre) =~= Seq::<BusEvent>::empty());
            }
            return Err(Error::PinError);
        }
        let mut cmd: Vec<u8> = Vec::new();
        cmd.push(a & 0x7F);
        assert(cmd@ =~= seq![read_cmd(reg.addr_spec())]);
        let st_rx = match self.bus.exchange(&cmd) {
            Ok(v) => v,
            Err(e) => {
                let ghost failed = pre + seq![
                    BusEvent::Cs { low: true },
                    BusEvent::XferFail { tx: seq![read_cmd(reg.addr_spec())] },
                ];
                assert(self.bus.log() =~= failed);
                let closed = self.bus.cs_set(false);
                proof {
                    lemma_log_tail(pre, log_ext(pre, self.bus.log()));
                    if closed is Ok {
                        assert(log_ext(pre, self.bus.log()) =~= seq![
                            BusEvent::Cs { low: true },
                            BusEvent::XferFail { tx: seq![read_cmd(reg.addr_spec())] },
                            BusEvent::Cs { low: false },
                        ]);
                    } else {
                        assert(log_ext(pre, self.bus.log()) =~= seq![
                            BusEvent::Cs { low: true },
                            BusEvent::XferFail { tx: seq![read_cmd(reg.addr_spec())] },
                        ]);
                    }
                    assert(self.bus.log().subrange(0, pre.len() as int) =~= pre);
                }
                return Err(Error::Spi(e));
            }
        };
        let mut zeros: Vec<u8> = Vec::new();
        zeros.push(0u8);
        zeros.push(0u8);
        zeros.push(0u8);
        zeros.push(0u8);
        assert(zeros@ =~= zeros4());
        let data_rx = match self.bus.exchange(&zeros) {
            Ok(v) => v,
            Err(e) => {
                let closed = self.bus.cs_set(false);
                proof {
                    if closed is Ok {
                        assert(log_ext(pre, self.bus.log()) =~= seq![
                            BusEvent::Cs { low: true },
                            BusEvent::Xfer { tx: seq![read_cmd(reg.addr_spec())], rx: st_rx@ },
                            BusEvent::XferFail { tx: zeros4() },
                            BusEvent::Cs { low: false },
                        ]);
                    } else {
                        assert(log_ext(pre, self.bus.log()) =~= seq![
                            BusEvent::Cs { low: true },
                            BusEvent::Xfer { tx: seq![read_cmd(reg.addr_spec())], rx: st_rx@ },
                            BusEvent::XferFail { tx: zeros4() },
                        ]);
                    }
                    assert(self.bus.log().subrange(0, pre.len() as int) =~= pre);
                }
                return Err(Error::Spi(e));
            }
        };
        if self.bus.cs_set(false).is_err() {
            proof {
                assert(log_ext(pre, self.bus.log()) =~= seq![
                    BusEvent::Cs { low: true },
                    BusEvent::Xfer { tx: seq![read_cmd(reg.addr_spec())], rx: st_rx@ },
                    BusEvent::Xfer { tx: zeros4(), rx: data_rx@ },
                ]);
                assert(self.bus.log().subrange(0, pre.len() as int) =~= pre);
            }
            return Err(Error::PinError);
        }
        let status = SpiStatus::decode(st_rx[0]);
        let data = be_vec_to_u32(&data_rx);
        proof {
            SpiStatus::lemma_decode_then_encode(st_rx@[0]);
            lemma_be_bytes_of_u32(data_rx@);
            assert(st_rx@ =~= seq![status.encode_spec()]);
            assert(self.bus.log() =~= pre + read_frame(reg.addr_spec(), status.encode_spec(), data));
            assert(self.bus.log().subrange(0, pre.len() as int) =~= pre);
        }
        Ok(DataPacket { status, data })
    }

    /// One raw write transaction: assert the select, send the write command
    /// byte, exchange the four payload bytes, deassert. Does not touch the
    /// cached status.
    fn write_io<R: Address + Copy>(&mut self, reg: R, val: u32) -> (r: Result<DataPacket, Error<T::BusError>>)
        ensures
            final(self).bus.enable_present() == old(self).bus.enable_present(),
            final(self).same_config(*old(self)),
            final(self).status == old(self).status,
            extends(old(self).bus.log(), final(self).bus.log()),
            (match r {
                Ok(p) => final(self).bus.log() == old(self).bus.log()
                    + write_frame(reg.addr_spec(), val, p.status.encode_spec(), p.data),
                Err(e) => failed_attempt(
                    log_ext(old(self).bus.log(), final(self).bus.log()),
                    write_cmd(reg.addr_spec()),
                    be_bytes(val),
                    e is PinError,
                ),
            }),
    {
        let ghost pre = self.bus.log();
        let a = reg.addr();
        if self.bus.cs_set(true).is_err() {
            proof {
                assert(pre.subrange(0, pre.len() as int) =~= pre);
                assert(log_ext(pre, pre) =~= Seq::<BusEvent>::empty());
            }
            return Err(Error::PinError);
        }
        let mut cmd: Vec<u8> = Vec::new();
        cmd.push(a | 0x80);
        assert(cmd@ =~= seq![write_cmd(reg.addr_spec())]);
        let st_rx = match self.bus.exchange(&cmd) {
            Ok(v) => v,
            Err(e) => {
                let closed = self.bus.cs_set(false);
                proof {
                    if closed is Ok {
                        assert(log_ext(pre, self.bus.log()) =~= seq![
                            BusEvent::Cs { low: true },
                            BusEvent::XferFail { tx: seq![write_cmd(reg.addr_spec())] },
                            BusEvent::Cs { low: false },
                        ]);
                    } else {
                        assert(log_ext(pre, self.bus.log()) =~= seq![
                            BusEvent::Cs { low: true },
                            BusEvent::XferFail { tx: seq![write_cmd(reg.addr_spec())] },
                        ]);
                    }
                    assert(self.bus.log().subrange(0, pre.len() as int) =~= pre);
                }
                return Err(Error::Spi(e));
            }
        };
        let payload = u32_to_be_vec(val);
        let echo_rx = match self.bus.exchange(&payload) {
            Ok(v) => v,
            Err(e) => {
                let closed = self.bus.cs_set(false);
                proof {
                    if closed is Ok {
                        assert(log_ext(pre, self.bus.log()) =~= seq![
                            BusEvent::Cs { low: true },
                            BusEvent::Xfer { tx: seq![write_cmd(reg.addr_spec())], rx: st_rx@ },
                            BusEvent::XferFail { tx: be_bytes(val) },
                            BusEvent::Cs { low: false },
                        ]);
                    } else {
                        assert(log_ext(pre, self.bus.log()) =~= seq![
                            BusEvent::Cs { low: true },
                            BusEvent::Xfer { tx: seq![write_cmd(reg.addr_spec())], rx: st_rx@ },
                            BusEvent::XferFail { tx: be_bytes(val) },
                        ]);
                    }
                    assert(self.bus.log().subrange(0, pre.len() as int) =~= pre);
                }
                return Err(Error::Spi(e));
            }
        };
        if self.bus.cs_set(false).is_err() {
            proof {
                assert(log_ext(pre, self.bus.log()) =~= seq![
                    BusEvent::Cs { low: true },
                    BusEvent::Xfer { tx: seq![write_cmd(reg.addr_spec())], rx: st_rx@ },
                    BusEvent::Xfer { tx: be_bytes(val), rx: echo_rx@ },
                ]);
                assert(self.bus.log().subrange(0, pre.len() as int) =~= pre);
            }
            return Err(Error::PinError);
        }
        let status = SpiStatus::decode(st_rx[0]);
        let echo = be_vec_to_u32(&echo_rx);
        proof {
            SpiStatus::lemma_decode_then_encode(st_rx@[0]);
            lemma_be_bytes_of_u32(echo_rx@);
            assert(st_rx@ =~= seq![status.encode_spec()]);
            assert(self.bus.log() =~= pre + write_frame(reg.addr_spec(), val, status.encode_spec(), echo));
            assert(self.bus.log().subrange(0, pre.len() as int) =~= pre);
        }
        Ok(DataPacket { status, data: echo })
    }
}


/// Whether `post` is `pre` grown by exactly two read transactions at address
/// `a`, with `p` carrying the status byte and payload of the second; the
/// first transaction's reply is discarded.
pub open spec fn read_op_ok(pre: Seq<BusEvent>, post: Seq<BusEvent>, a: u8, p: DataPacket) -> bool {
    let tail = log_ext(pre, post);
    &&& post.len() == pre.len() as int + 8
    &&& extends(pre, post)
    &&& is_read_frame(tail.subrange(0, 4), a)
    &&& tail.subrange(4, 8) == read_frame(a, p.status.encode_spec(), p.data)
}

/// What the log shows when a read operation at address `a` failed: the first
/// transaction attempt failed, or the first transaction completed and the
/// second attempt failed.
pub open spec fn failed_read_op(pre: Seq<BusEvent>, post: Seq<BusEvent>, a: u8, pin: bool) -> bool {
    let tail = log_ext(pre, post);
    &&& extends(pre, post)
    &&& {
        ||| failed_attempt(tail, read_cmd(a), zeros4(), pin)
        ||| (tail.len() >= 4 && is_read_frame(tail.subrange(0, 4), a)
            && failed_attempt(tail.subrange(4, tail.len() as int), read_cmd(a), zeros4(), pin))
    }
}

/// Whether `post` is `pre` grown by exactly one complete write of `data` to
/// address `a`, with `p` carrying the status byte and payload echo of that
/// write.
pub open spec fn wrote(pre: Seq<BusEvent>, post: Seq<BusEvent>, a: u8, data: u32, p: DataPacket) -> bool {
    post == pre + write_frame(a, data, p.status.encode_spec(), p.data)
}

/// What the log shows when a write operation of `data` to address `a`
/// failed.
pub open spec fn failed_write_op(pre: Seq<BusEvent>, post: Seq<BusEvent>, a: u8, data: u32, pin: bool) -> bool {
    extends(pre, post) && failed_attempt(log_ext(pre, post), write_cmd(a), be_bytes(data), pin)
}

/// A complete read transaction is a read frame at its address.
pub proof fn lemma_read_frame_is(a: u8, st: u8, data: u32)
    ensures
        is_read_frame(read_frame(a, st, data), a),
{
}

/// A complete write transaction is a write frame at its address and data.
pub proof fn lemma_write_frame_is(a: u8, data: u32, st: u8, echo: u32)
    ensures
        is_write_frame(write_frame(a, data, st, echo), a, data),
{
}

impl<T: Transport> Tmc5160<T> {
    /// Read a register. The chip answers a read command with the payload of
    /// the transaction before it, so the transaction is issued twice and
    /// only the second reply is returned; the first is discarded. On success
    /// the cached status is the second transaction's status byte.
    pub fn read_register<R: Address + Copy>(&mut self, reg: R) -> (r: Result<
        DataPacket,
        Error<T::BusError>,
    >)
        ensures
            final(self).bus.enable_present() == old(self).bus.enable_present(),
            final(self).same_config(*old(self)),
            extends(old(self).bus.log(), final(self).bus.log()),
            (match r {
                Ok(p) => read_op_ok(
                    old(self).bus.log(),
                    final(self).bus.log(),
                    reg.addr_spec(),
                    p,
                ) && final(self).status == p.status,
                Err(e) => failed_read_op(
                    old(self).bus.log(),
                    final(self).bus.log(),
                    reg.addr_spec(),
                    e is PinError,
                ) && final(self).status == old(self).status,
            }),
    {
        let ghost pre = self.bus.log();
        match self.read_io(reg) {
            Ok(_) => {}
            Err(e) => {
                return Err(e);
            }
        }
        let ghost mid = self.bus.log();
        let ghost frame1 = log_ext(pre, mid);
        match self.read_io(reg) {
            Ok(p) => {
                self.status = p.status;
                proof {
                    let post = self.bus.log();
                    let a = reg.addr_spec();
                    let frame2 = read_frame(a, p.status.encode_spec(), p.data);
                    assert(post =~= pre + (frame1 + frame2));
                    lemma_log_tail(pre, frame1 + frame2);
                    assert((frame1 + frame2).subrange(0, 4) =~= frame1);
                    assert((frame1 + frame2).subrange(4, 8) =~= frame2);
                    lemma_read_frame_is(a, p.status.encode_spec(), p.data);
                }
                Ok(p)
            }
            Err(e) => {
                proof {
                    let post = self.bus.log();
                    let a = reg.addr_spec();
                    let tail2 = log_ext(mid, post);
                    assert(post =~= pre + (frame1 + tail2));
                    lemma_log_tail(pre, frame1 + tail2);
                    assert((frame1 + tail2).subrange(0, 4) =~= frame1);
                    assert((frame1 + tail2).subrange(4, (frame1 + tail2).len() as int)
                        =~= tail2);
                }
                Err(e)
            }
        }
    }

    /// Write a value to a register: a single transaction, framed with the
    /// direction bit set. On success the cached status is the transaction's
    /// status byte, which reflects the chip's state from before this write.
    pub fn write_register<R: Address + Copy>(&mut self, reg: R, val: u32) -> (r: Result<
        DataPacket,
        Error<T::BusError>,
    >)
        ensures
            final(self).bus.enable_present() == old(self).bus.enable_present(),
            final(self).same_config(*old(self)),
            extends(old(self).bus.log(), final(self).bus.log()),
            (match r {
                Ok(p) => wrote(old(self).bus.log(), final(self).bus.log(), reg.addr_spec(), val, p)
                    && final(self).status == p.status,
                Err(e) => failed_write_op(
                    old(self).bus.log(),
                    final(self).bus.log(),
                    reg.addr_spec(),
                    val,
                    e is PinError,
                ) && final(self).status == old(self).status,
            }),
    {
        match self.write_io(reg, val) {
            Ok(p) => {
                self.status = p.status;
                Ok(p)
            }
            Err(e) => Err(e),
        }
    }

    /// Drive the enable output to the level that enables the motor: low, or
    /// high when the polarity is inverted. Succeeds without any action when
    /// no enable output is configured. No bus transaction.
    pub fn enable(&mut self) -> (r: Result<(), Error<T::BusError>>)
        ensures
            final(self).bus.enable_present() == old(self).bus.enable_present(),
            final(self).same_config(*old(self)),
            final(self).status == old(self).status,
            extends(old(self).bus.log(), final(self).bus.log()),
            (match r {
                Ok(_) => final(self).bus.log() == old(self).bus.log() + enable_events(
                    old(self).bus.enable_present(),
                    old(self).en_inverted,
                ),
                Err(e) => e is PinError && old(self).bus.enable_present() && final(self).bus.log()
                    == old(self).bus.log(),
            }),
    {
        let ghost pre = self.bus.log();
        let high = self.en_inverted;
        match self.bus.en_set(high) {
            Ok(_) => {
                proof {
                    if old(self).bus.enable_present() {
                        assert(self.bus.log() =~= pre + enable_events(true, high));
                    } else {
                        assert(self.bus.log() =~= pre + enable_events(false, high));
                    }
                    assert(self.bus.log().subrange(0, pre.len() as int) =~= pre);
                }
                Ok(())
            }
            Err(_) => {
                proof {
                    assert(pre.subrange(0, pre.len() as int) =~= pre);
                }
                Err(Error::PinError)
            }
        }
    }

    /// Drive the enable output to the level that disables the motor: high,
    /// or low when the polarity is inverted. Succeeds without any action
    /// when no enable output is configured. No bus transaction.
    pub fn disable(&mut self) -> (r: Result<(), Error<T::BusError>>)
        ensures
            final(self).bus.enable_present() == old(self).bus.enable_present(),
            final(self).same_config(*old(self)),
            final(self).status == old(self).status,
            extends(old(self).bus.log(), final(self).bus.log()),
            (match r {
                Ok(_) => final(self).bus.log() == old(self).bus.log() + disable_events(
                    old(self).bus.enable_present(),
                    old(self).en_inverted,
                ),
                Err(e) => e is PinError && old(self).bus.enable_present() && final(self).bus.log()
                    == old(self).bus.log(),
            }),
    {
        let ghost pre = self.bus.log();
        let high = !self.en_inverted;
        match self.bus.en_set(high) {
            Ok(_) => {
                proof {
                    if old(self).bus.enable_present() {
                        assert(self.bus.log() =~= pre + disable_events(true, !high));
                    } else {
                        assert(self.bus.log() =~= pre + disable_events(false, !high));
                    }
                    assert(self.bus.log().subrange(0, pre.len() as int) =~= pre);
                }
                Ok(())
            }
            Err(_) => {
                proof {
                    assert(pre.subrange(0, pre.len() as int) =~= pre);
                }
                Err(Error::PinError)
            }
        }
    }
}

/// The events of driving the enable output to the level that enables the
/// motor (low, or high when the polarity is inverted); no event when no
/// enable output is configured.
pub open spec fn enable_events(present: bool, inverted: bool) -> Seq<BusEvent> {
    if present {
        seq![BusEvent::Enable { high: inverted }]
    } else {
        Seq::empty()
    }
}

/// The events of driving the enable output to the level that disables the
/// motor (high, or low when the polarity is inverted); no event when no
/// enable output is configured.
pub open spec fn disable_events(present: bool, inverted: bool) -> Seq<BusEvent> {
    if present {
        seq![BusEvent::Enable { high: !inverted }]
    } else {
        Seq::empty()
    }
}


/// The raw velocity register value for a step frequency of `hz` Hz:
/// `hz / (clock / 2^24) * steps`, truncated toward zero and clamped to the
/// register width.
pub open spec fn speed_raw(hz: u32, clock: u32, steps: u32) -> u32
    recommends
        clock > 0,
{
    let q = (hz * 0x1000000 * steps) / (clock as int);
    if q > 0xFFFFFFFF {
        0xFFFFFFFFu32
    } else {
        q as u32
    }
}

/// The raw acceleration register value for a step frequency slope of `hz_s`
/// Hz per second: `hz_s / clock^2 * (512 * 256) * 2^24 * steps`, truncated
/// toward zero and clamped to the register width.
pub open spec fn accel_raw(hz_s: u32, clock: u32, steps: u32) -> u32
    recommends
        clock > 0,
{
    let q = (hz_s * 0x20000 * 0x1000000 * steps) / (clock * clock);
    if q > 0xFFFFFFFF {
        0xFFFFFFFFu32
    } else {
        q as u32
    }
}

/// The signed value of a velocity reading: a 24-bit two's complement number
/// packed in the low bits of the register.
pub open spec fn vactual_signed_spec(raw: u32) -> int {
    let v = raw & 0xFFFFFF;
    if v >= 0x800000 {
        v - 0x1000000
    } else {
        v as int
    }
}

/// Quotient truncated toward zero, for a positive divisor.
pub open spec fn div_trunc(a: int, b: int) -> int
    recommends
        b > 0,
{
    if a >= 0 {
        a / b
    } else {
        -((-a) / b)
    }
}

/// A raw register value read as a 32-bit two's complement number.
pub open spec fn i32_of_u32(x: u32) -> int {
    if x <= 0x7FFFFFFF {
        x as int
    } else {
        x - 0x100000000
    }
}

/// The register encoding of the signed position `target` scaled by the
/// microsteps per step: the product as a 32-bit two's complement value.
pub open spec fn position_raw(target: i32, steps: u32) -> u32
    recommends
        -0x80000000 <= target * steps <= 0x7FFFFFFF,
{
    let p = target * steps;
    if p >= 0 {
        p as u32
    } else {
        (p + 0x100000000) as u32
    }
}

/// Decode a raw velocity register value into its signed reading.
pub fn vactual_signed(raw: u32) -> (v: i32)
    ensures
        v == vactual_signed_spec(raw),
        -0x800000 <= v < 0x800000,
{
    let low = raw & 0xFFFFFF;
    proof {
        assert(raw & 0xFFFFFF <= 0xFFFFFF) by (bit_vector);
    }
    if low >= 0x800000 {
        (low as i32) - 0x1000000
    } else {
        low as i32
    }
}

impl<T: Transport> Tmc5160<T> {
    /// Convert a step frequency in Hz to the chip's velocity unit.
    pub fn speed_from_hz(&self, speed_hz: u32) -> (raw: u32)
        requires
            self.wf(),
        ensures
            raw == speed_raw(speed_hz, self.clock, self.step_count),
    {
        let scaled: u128 = (speed_hz as u128) * 0x1000000;
        proof {
            assert(scaled * (self.step_count as u128) <= 0x1000000000000000000000000u128)
                by (nonlinear_arith)
                requires
                    scaled <= 0xFFFFFFFFu128 * 0x1000000,
                    self.step_count <= 0xFFFFFFFFu32,
            ;
        }
        let num: u128 = scaled * (self.step_count as u128);
        let q: u128 = num / (self.clock as u128);
        if q > 0xFFFFFFFF {
            0xFFFFFFFFu32
        } else {
            q as u32
        }
    }

    /// Convert a step frequency slope in Hz per second to the chip's
    /// acceleration unit.
    pub fn accel_from_hz(&self, accel_hz_per_s: u32) -> (raw: u32)
        requires
            self.wf(),
        ensures
            raw == accel_raw(accel_hz_per_s, self.clock, self.step_count),
    {
        let scaled: u128 = (accel_hz_per_s as u128) * 0x20000 * 0x1000000;
        proof {
            assert(scaled * (self.step_count as u128) <= 0x20000000000000000000000000000u128)
                by (nonlinear_arith)
                requires
                    scaled <= 0xFFFFFFFFu128 * 0x20000 * 0x1000000,
                    self.step_count <= 0xFFFFFFFFu32,
            ;
            assert((self.clock as u128) * (self.clock as u128) >= 1) by (nonlinear_arith)
                requires
                    self.clock >= 1,
            ;
            assert((self.clock as u128) * (self.clock as u128) <= 0xFFFFFFFFu128 * 0xFFFFFFFF)
                by (nonlinear_arith)
                requires
                    self.clock <= 0xFFFFFFFFu32,
            ;
        }
        let num: u128 = scaled * (self.step_count as u128);
        let den: u128 = (self.clock as u128) * (self.clock as u128);
        let q: u128 = num / den;
        if q > 0xFFFFFFFF {
            0xFFFFFFFFu32
        } else {
            q as u32
        }
    }

    /// Write a value to the GLOBALSCALER register.
    pub fn set_global_scaler(&mut self, val: u32) -> (r: Result<DataPacket, Error<T::BusError>>)
        ensures
            final(self).bus.enable_present() == old(self).bus.enable_present(),
            final(self).same_config(*old(self)),
            extends(old(self).bus.log(), final(self).bus.log()),
            (match r {
                Ok(p) => wrote(
                    old(self).bus.log(),
                    final(self).bus.log(),
                    Registers::GLOBALSCALER.address(),
                    val,
                    p,
                ) && final(self).status == p.status,
                Err(e) => failed_write_op(
                    old(self).bus.log(),
                    final(self).bus.log(),
                    Registers::GLOBALSCALER.address(),
                    val,
                    e is PinError,
                ) && final(self).status == old(self).status,
            }),
    {
        self.write_register(Registers::GLOBALSCALER, val)
    }

    /// Write a value to the TPOWERDOWN register.
    pub fn set_tpowerdown(&mut self, val: u32) -> (r: Result<DataPacket, Error<T::BusError>>)
        ensures
            final(self).bus.enable_present() == old(self).bus.enable_present(),
            final(self).same_config(*old(self)),
            extends(old(self).bus.log(), final(self).bus.log()),
            (match r {
                Ok(p) => wrote(
                    old(self).bus.log(),
                    final(self).bus.log(),
                    Registers::TPOWERDOWN.address(),
                    val,
                    p,
                ) && final(self).status == p.status,
                Err(e) => failed_write_op(
                    old(self).bus.log(),
                    final(self).bus.log(),
                    Registers::TPOWERDOWN.address(),
                    val,
                    e is PinError,
                ) && final(self).status == old(self).status,
            }),
    {
        self.write_register(Registers::TPOWERDOWN, val)
    }

    /// Write a value to the TPWMTHRS register.
    pub fn set_tpwmthrs(&mut self, val: u32) -> (r: Result<DataPacket, Error<T::BusError>>)
        ensures
            final(self).bus.enable_present() == old(self).bus.enable_present(),
            final(self).same_config(*old(self)),
            extends(old(self).bus.log(), final(self).bus.log()),
            (match r {
                Ok(p) => wrote(
                    old(self).bus.log(),
                    final(self).bus.log(),
                    Registers::TPWMTHRS.address(),
                    val,
                    p,
                ) && final(self).status == p.status,
                Err(e) => failed_write_op(
                    old(self).bus.log(),
                    final(self).bus.log(),
                    Registers::TPWMTHRS.address(),
                    val,
                    e is PinError,
                ) && final(self).status == old(self).status,
            }),
    {
        self.write_register(Registers::TPWMTHRS, val)
    }

    /// Write a value to the TCOOLTHRS register.
    pub fn set_tcoolthrs(&mut self, val: u32) -> (r: Result<DataPacket, Error<T::BusError>>)
        ensures
            final(self).bus.enable_present() == old(self).bus.enable_present(),
            final(self).same_config(*old(self)),
            extends(old(self).bus.log(), final(self).bus.log()),
            (match r {
                Ok(p) => wrote(
                    old(self).bus.log(),
                    final(self).bus.log(),
                    Registers::TCOOLTHRS.address(),
                    val,
                    p,
                ) && final(self).status == p.status,
                Err(e) => failed_write_op(
                    old(self).bus.log(),
                    final(self).bus.log(),
                    Registers::TCOOLTHRS.address(),
                    val,
                    e is PinError,
                ) && final(self).status == old(self).status,
            }),
    {
        self.write_register(Registers::TCOOLTHRS, val)
    }

    /// Write a value to the A1 register.
    pub fn set_a1(&mut self, val: u32) -> (r: Result<DataPacket, Error<T::BusError>>)
        ensures
            final(self).bus.enable_present() == old(self).bus.enable_present(),
            final(self).same_config(*old(self)),
            extends(old(self).bus.log(), final(self).bus.log()),
            (match r {
                Ok(p) => wrote(
                    old(self).bus.log(),
                    final(self).bus.log(),
                    Registers::A1.address(),
                    val,
                    p,
                ) && final(self).status == p.status,
                Err(e) => failed_write_op(
                    old(self).bus.log(),
                    final(self).bus.log(),
                    Registers::A1.address(),
                    val,
                    e is PinError,
                ) && final(self).status == old(self).status,
            }),
    {
        self.write_register(Registers::A1, val)
    }

    /// Write a value to the V1 register.
    pub fn set_v1(&mut self, val: u32) -> (r: Result<DataPacket, Error<T::BusError>>)
        ensures
            final(self).bus.enable_present() == old(self).bus.enable_present(),
            final(self).same_config(*old(self)),
            extends(old(self).bus.log(), final(self).bus.log()),
            (match r {
                Ok(p) => wrote(
                    old(self).bus.log(),
                    final(self).bus.log(),
                    Registers::V1.address(),
                    val,
                    p,
                ) && final(self).status == p.status,
                Err(e) => failed_write_op(
                    old(self).bus.log(),
                    final(self).bus.log(),
                    Registers::V1.address(),
                    val,
                    e is PinError,
                ) && final(self).status == old(self).status,
            }),
    {
        self.write_register(Registers::V1, val)
    }

    /// Write a value to the AMAX register.
    pub fn set_amax(&mut self, val: u32) -> (r: Result<DataPacket, Error<T::BusError>>)
        ensures
            final(self).bus.enable_present() == old(self).bus.enable_present(),
            final(self).same_config(*old(self)),
            extends(old(self).bus.log(), final(self).bus.log()),
            (match r {
                Ok(p) => wrote(
                    old(self).bus.log(),
                    final(self).bus.log(),
                    Registers::AMAX.address(),
                    val,
                    p,
                ) && final(self).status == p.status,
                Err(e) => failed_write_op(
                    old(self).bus.log(),
                    final(self).bus.log(),
                    Registers::AMAX.address(),
                    val,
                    e is PinError,
                ) && final(self).status == old(self).status,
            }),
    {
        self.write_register(Registers::AMAX, val)
    }

    /// Write a value to the VMAX register.
    pub fn set_vmax(&mut self, val: u32) -> (r: Result<DataPacket, Error<T::BusError>>)
        ensures
            final(self).bus.enable_present() == old(self).bus.enable_present(),
            final(self).same_config(*old(self)),
            extends(old(self).bus.log(), final(self).bus.log()),
            (match r {
                Ok(p) => wrote(
                    old(self).bus.log(),
                    final(self).bus.log(),
                    Registers::VMAX.address(),
                    val,
                    p,
                ) && final(self).status == p.status,
                Err(e) => failed_write_op(
                    old(self).bus.log(),
                    final(self).bus.log(),
                    Registers::VMAX.address(),
                    val,
                    e is PinError,
                ) && final(self).status == old(self).status,
            }),
    {
        self.write_register(Registers::VMAX, val)
    }

    /// Write a value to the DMAX register.
    pub fn set_dmax(&mut self, val: u32) -> (r: Result<DataPacket, Error<T::BusError>>)
        ensures
            final(self).bus.enable_present() == old(self).bus.enable_present(),
            final(self).same_config(*old(self)),
            extends(old(self).bus.log(), final(self).bus.log()),
            (match r {
                Ok(p) => wrote(
                    old(self).bus.log(),
                    final(self).bus.log(),
                    Registers::DMAX.address(),
                    val,
                    p,
                ) && final(self).status == p.status,
                Err(e) => failed_write_op(
                    old(self).bus.log(),
                    final(self).bus.log(),
                    Registers::DMAX.address(),
                    val,
                    e is PinError,
                ) && final(self).status == old(self).status,
            }),
    {
        self.write_register(Registers::DMAX, val)
    }

    /// Write a value to the D1 register.
    pub fn set_d1(&mut self, val: u32) -> (r: Result<DataPacket, Error<T::BusError>>)
        ensures
            final(self).bus.enable_present() == old(self).bus.enable_present(),
            final(self).same_config(*old(self)),
            extends(old(self).bus.log(), final(self).bus.log()),
            (match r {
                Ok(p) => wrote(
                    old(self).bus.log(),
                    final(self).bus.log(),
                    Registers::D1.address(),
                    val,
                    p,
                ) && final(self).status == p.status,
                Err(e) => failed_write_op(
                    old(self).bus.log(),
                    final(self).bus.log(),
                    Registers::D1.address(),
                    val,
                    e is PinError,
                ) && final(self).status == old(self).status,
            }),
    {
        self.write_register(Registers::D1, val)
    }

    /// Write a value to the VSTART register.
    pub fn set_vstart(&mut self, val: u32) -> (r: Result<DataPacket, Error<T::BusError>>)
        ensures
            final(self).bus.enable_present() == old(self).bus.enable_present(),
            final(self).same_config(*old(self)),
            extends(old(self).bus.log(), final(self).bus.log()),
            (match r {
                Ok(p) => wrote(
                    old(self).bus.log(),
                    final(self).bus.log(),
                    Registers::VSTART.address(),
                    val,
                    p,
                ) && final(self).status == p.status,
                Err(e) => failed_write_op(
                    old(self).bus.log(),
                    final(self).bus.log(),
                    Registers::VSTART.address(),
                    val,
                    e is PinError,
                ) && final(self).status == old(self).status,
            }),
    {
        self.write_register(Registers::VSTART, val)
    }

    /// Write a value to the VSTOP register.
    pub fn set_vstop(&mut self, val: u32) -> (r: Result<DataPacket, Error<T::BusError>>)
        ensures
            final(self).bus.enable_present() == old(self).bus.enable_present(),
            final(self).same_config(*old(self)),
            extends(old(self).bus.log(), final(self).bus.log()),
            (match r {
                Ok(p) => wrote(
                    old(self).bus.log(),
                    final(self).bus.log(),
                    Registers::VSTOP.address(),
                    val,
                    p,
                ) && final(self).status == p.status,
                Err(e) => failed_write_op(
                    old(self).bus.log(),
                    final(self).bus.log(),
                    Registers::VSTOP.address(),
                    val,
                    e is PinError,
                ) && final(self).status == old(self).status,
            }),
    {
        self.write_register(Registers::VSTOP, val)
    }

    /// Write a value to the PWM_AUTO register.
    pub fn set_pwm_auto(&mut self, val: u32) -> (r: Result<DataPacket, Error<T::BusError>>)
        ensures
            final(self).bus.enable_present() == old(self).bus.enable_present(),
            final(self).same_config(*old(self)),
            extends(old(self).bus.log(), final(self).bus.log()),
            (match r {
                Ok(p) => wrote(
                    old(self).bus.log(),
                    final(self).bus.log(),
                    Registers::PWM_AUTO.address(),
                    val,
                    p,
                ) && final(self).status == p.status,
                Err(e) => failed_write_op(
                    old(self).bus.log(),
                    final(self).bus.log(),
                    Registers::PWM_AUTO.address(),
                    val,
                    e is PinError,
                ) && final(self).status == old(self).status,
            }),
    {
        self.write_register(Registers::PWM_AUTO, val)
    }

    /// Write the in-memory value of the SW_MODE register to the chip.
    pub fn update_sw_mode(&mut self) -> (r: Result<DataPacket, Error<T::BusError>>)
        ensures
            final(self).bus.enable_present() == old(self).bus.enable_present(),
            final(self).same_config(*old(self)),
            extends(old(self).bus.log(), final(self).bus.log()),
            (match r {
                Ok(p) => wrote(
                    old(self).bus.log(),
                    final(self).bus.log(),
                    Registers::SW_MODE.address(),
                    old(self).sw_mode.encode_spec(),
                    p,
                ) && final(self).status == p.status,
                Err(e) => failed_write_op(
                    old(self).bus.log(),
                    final(self).bus.log(),
                    Registers::SW_MODE.address(),
                    old(self).sw_mode.encode_spec(),
                    e is PinError,
                ) && final(self).status == old(self).status,
            }),
    {
        let val = self.sw_mode.encode();
        self.write_register(Registers::SW_MODE, val)
    }

    /// Write the in-memory value of the GCONF register to the chip.
    pub fn update_g_conf(&mut self) -> (r: Result<DataPacket, Error<T::BusError>>)
        ensures
            final(self).bus.enable_present() == old(self).bus.enable_present(),
            final(self).same_config(*old(self)),
            extends(old(self).bus.log(), final(self).bus.log()),
            (match r {
                Ok(p) => wrote(
                    old(self).bus.log(),
                    final(self).bus.log(),
                    Registers::GCONF.address(),
                    old(self).g_conf.encode_spec(),
                    p,
                ) && final(self).status == p.status,
                Err(e) => failed_write_op(
                    old(self).bus.log(),
                    final(self).bus.log(),
                    Registers::GCONF.address(),
                    old(self).g_conf.encode_spec(),
                    e is PinError,
                ) && final(self).status == old(self).status,
            }),
    {
        let val = self.g_conf.encode();
        self.write_register(Registers::GCONF, val)
    }

    /// Write the in-memory value of the CHOPCONF register to the chip.
    pub fn update_chop_conf(&mut self) -> (r: Result<DataPacket, Error<T::BusError>>)
        ensures
            final(self).bus.enable_present() == old(self).bus.enable_present(),
            final(self).same_config(*old(self)),
            extends(old(self).bus.log(), final(self).bus.log()),
            (match r {
                Ok(p) => wrote(
                    old(self).bus.log(),
                    final(self).bus.log(),
                    Registers::CHOPCONF.address(),
                    old(self).chop_conf.encode_spec(),
                    p,
                ) && final(self).status == p.status,
                Err(e) => failed_write_op(
                    old(self).bus.log(),
                    final(self).bus.log(),
                    Registers::CHOPCONF.address(),
                    old(self).chop_conf.encode_spec(),
                    e is PinError,
                ) && final(self).status == old(self).status,
            }),
    {
        let val = self.chop_conf.encode();
        self.write_register(Registers::CHOPCONF, val)
    }

    /// Write the in-memory value of the IHOLD_IRUN register to the chip.
    pub fn update_ihold_irun(&mut self) -> (r: Result<DataPacket, Error<T::BusError>>)
        ensures
            final(self).bus.enable_present() == old(self).bus.enable_present(),
            final(self).same_config(*old(self)),
            extends(old(self).bus.log(), final(self).bus.log()),
            (match r {
                Ok(p) => wrote(
                    old(self).bus.log(),
                    final(self).bus.log(),
                    Registers::IHOLD_IRUN.address(),
                    old(self).ihold_irun.encode_spec(),
                    p,
                ) && final(self).status == p.status,
                Err(e) => failed_write_op(
                    old(self).bus.log(),
                    final(self).bus.log(),
                    Registers::IHOLD_IRUN.address(),
                    old(self).ihold_irun.encode_spec(),
                    e is PinError,
                ) && final(self).status == old(self).status,
            }),
    {
        let val = self.ihold_irun.encode();
        self.write_register(Registers::IHOLD_IRUN, val)
    }

    /// Write the in-memory value of the PWMCONF register to the chip.
    pub fn update_pwm_conf(&mut self) -> (r: Result<DataPacket, Error<T::BusError>>)
        ensures
            final(self).bus.enable_present() == old(self).bus.enable_present(),
            final(self).same_config(*old(self)),
            extends(old(self).bus.log(), final(self).bus.log()),
            (match r {
                Ok(p) => wrote(
                    old(self).bus.log(),
                    final(self).bus.log(),
                    Registers::PWMCONF.address(),
                    old(self).pwm_conf.encode_spec(),
                    p,
                ) && final(self).status == p.status,
                Err(e) => failed_write_op(
                    old(self).bus.log(),
                    final(self).bus.log(),
                    Registers::PWMCONF.address(),
                    old(self).pwm_conf.encode_spec(),
                    e is PinError,
                ) && final(self).status == old(self).status,
            }),
    {
        let val = self.pwm_conf.encode();
        self.write_register(Registers::PWMCONF, val)
    }

    /// Clear the latched global status flags: writes the all-flags-set
    /// pattern to the GSTAT register, which the chip reads as a clear
    /// request.
    pub fn clear_g_stat(&mut self) -> (r: Result<DataPacket, Error<T::BusError>>)
        ensures
            final(self).bus.enable_present() == old(self).bus.enable_present(),
            final(self).same_config(*old(self)),
            extends(old(self).bus.log(), final(self).bus.log()),
            (match r {
                Ok(p) => wrote(
                    old(self).bus.log(),
                    final(self).bus.log(),
                    Registers::GSTAT.address(),
                    0b111,
                    p,
                ) && final(self).status == p.status,
                Err(e) => failed_write_op(
                    old(self).bus.log(),
                    final(self).bus.log(),
                    Registers::GSTAT.address(),
                    0b111,
                    e is PinError,
                ) && final(self).status == old(self).status,
            }),
    {
        self.write_register(Registers::GSTAT, 0b111)
    }

    /// Write a driving mode to the RAMPMODE register.
    pub fn set_rampmode(&mut self, val: RampMode) -> (r: Result<DataPacket, Error<T::BusError>>)
        ensures
            final(self).bus.enable_present() == old(self).bus.enable_present(),
            final(self).same_config(*old(self)),
            extends(old(self).bus.log(), final(self).bus.log()),
            (match r {
                Ok(p) => wrote(
                    old(self).bus.log(),
                    final(self).bus.log(),
                    Registers::RAMPMODE.address(),
                    val.value_spec(),
                    p,
                ) && final(self).status == p.status,
                Err(e) => failed_write_op(
                    old(self).bus.log(),
                    final(self).bus.log(),
                    Registers::RAMPMODE.address(),
                    val.value_spec(),
                    e is PinError,
                ) && final(self).status == old(self).status,
            }),
    {
        let v = val.value();
        self.write_register(Registers::RAMPMODE, v)
    }

    /// Read the GLOBALSCALER register.
    pub fn read_global_scaler(&mut self) -> (r: Result<u32, Error<T::BusError>>)
        ensures
            final(self).bus.enable_present() == old(self).bus.enable_present(),
            final(self).same_config(*old(self)),
            extends(old(self).bus.log(), final(self).bus.log()),
            (match r {
                Ok(v) => read_op_ok(
                    old(self).bus.log(),
                    final(self).bus.log(),
                    Registers::GLOBALSCALER.address(),
                    (DataPacket { status: final(self).status, data: v }),
                ),
                Err(e) => failed_read_op(
                    old(self).bus.log(),
                    final(self).bus.log(),
                    Registers::GLOBALSCALER.address(),
                    e is PinError,
                ) && final(self).status == old(self).status,
            }),
    {
        match self.read_register(Registers::GLOBALSCALER) {
            Ok(p) => {
                proof {
                    assert(p == (DataPacket { status: self.status, data: p.data }));
                }
                Ok(p.data)
            }
            Err(e) => Err(e),
        }
    }

    /// Read the offset calibration register.
    pub fn read_offset(&mut self) -> (r: Result<u32, Error<T::BusError>>)
        ensures
            final(self).bus.enable_present() == old(self).bus.enable_present(),
            final(self).same_config(*old(self)),
            extends(old(self).bus.log(), final(self).bus.log()),
            (match r {
                Ok(v) => read_op_ok(
                    old(self).bus.log(),
                    final(self).bus.log(),
                    Registers::OFFSET_READ.address(),
                    (DataPacket { status: final(self).status, data: v }),
                ),
                Err(e) => failed_read_op(
                    old(self).bus.log(),
                    final(self).bus.log(),
                    Registers::OFFSET_READ.address(),
                    e is PinError,
                ) && final(self).status == old(self).status,
            }),
    {
        match self.read_register(Registers::OFFSET_READ) {
            Ok(p) => {
                proof {
                    assert(p == (DataPacket { status: self.status, data: p.data }));
                }
                Ok(p.data)
            }
            Err(e) => Err(e),
        }
    }

    /// Read the TSTEP register.
    pub fn read_tstep(&mut self) -> (r: Result<u32, Error<T::BusError>>)
        ensures
            final(self).bus.enable_present() == old(self).bus.enable_present(),
            final(self).same_config(*old(self)),
            extends(old(self).bus.log(), final(self).bus.log()),
            (match r {
                Ok(v) => read_op_ok(
                    old(self).bus.log(),
                    final(self).bus.log(),
                    Registers::TSTEP.address(),
                    (DataPacket { status: final(self).status, data: v }),
                ),
                Err(e) => failed_read_op(
                    old(self).bus.log(),
                    final(self).bus.log(),
                    Registers::TSTEP.address(),
                    e is PinError,
                ) && final(self).status == old(self).status,
            }),
    {
        match self.read_register(Registers::TSTEP) {
            Ok(p) => {
                proof {
                    assert(p == (DataPacket { status: self.status, data: p.data }));
                }
                Ok(p.data)
            }
            Err(e) => Err(e),
        }
    }

    /// Read and decode the DRV_STATUS register.
    pub fn read_drv_status(&mut self) -> (r: Result<DrvStatus, Error<T::BusError>>)
        ensures
            final(self).bus.enable_present() == old(self).bus.enable_present(),
            final(self).same_config(*old(self)),
            extends(old(self).bus.log(), final(self).bus.log()),
            (match r {
                Ok(d) => exists|raw: u32|
                    read_op_ok(
                        old(self).bus.log(),
                        final(self).bus.log(),
                        Registers::DRV_STATUS.address(),
                        (DataPacket { status: final(self).status, data: raw }),
                    ) && d == DrvStatus::decode_spec(raw),
                Err(e) => failed_read_op(
                    old(self).bus.log(),
                    final(self).bus.log(),
                    Registers::DRV_STATUS.address(),
                    e is PinError,
                ) && final(self).status == old(self).status,
            }),
    {
        match self.read_register(Registers::DRV_STATUS) {
            Ok(p) => {
                proof {
                    assert(p == (DataPacket { status: self.status, data: p.data }));
                }
                Ok(DrvStatus::decode(p.data))
            }
            Err(e) => Err(e),
        }
    }

    /// Read and decode the GSTAT register.
    pub fn read_gstat(&mut self) -> (r: Result<GStat, Error<T::BusError>>)
        ensures
            final(self).bus.enable_present() == old(self).bus.enable_present(),
            final(self).same_config(*old(self)),
            extends(old(self).bus.log(), final(self).bus.log()),
            (match r {
                Ok(d) => exists|raw: u32|
                    read_op_ok(
                        old(self).bus.log(),
                        final(self).bus.log(),
                        Registers::GSTAT.address(),
                        (DataPacket { status: final(self).status, data: raw }),
                    ) && d == GStat::decode_spec(raw),
                Err(e) => failed_read_op(
                    old(self).bus.log(),
                    final(self).bus.log(),
                    Registers::GSTAT.address(),
                    e is PinError,
                ) && final(self).status == old(self).status,
            }),
    {
        match self.read_register(Registers::GSTAT) {
            Ok(p) => {
                proof {
                    assert(p == (DataPacket { status: self.status, data: p.data }));
                }
                Ok(GStat::decode(p.data))
            }
            Err(e) => Err(e),
        }
    }

    /// Read and decode the GCONF register.
    pub fn read_gconf(&mut self) -> (r: Result<GConf, Error<T::BusError>>)
        ensures
            final(self).bus.enable_present() == old(self).bus.enable_present(),
            final(self).same_config(*old(self)),
            extends(old(self).bus.log(), final(self).bus.log()),
            (match r {
                Ok(d) => exists|raw: u32|
                    read_op_ok(
                        old(self).bus.log(),
                        final(self).bus.log(),
                        Registers::GCONF.address(),
                        (DataPacket { status: final(self).status, data: raw }),
                    ) && d == GConf::decode_spec(raw),
                Err(e) => failed_read_op(
                    old(self).bus.log(),
                    final(self).bus.log(),
                    Registers::GCONF.address(),
                    e is PinError,
                ) && final(self).status == old(self).status,
            }),
    {
        match self.read_register(Registers::GCONF) {
            Ok(p) => {
                proof {
                    assert(p == (DataPacket { status: self.status, data: p.data }));
                }
                Ok(GConf::decode(p.data))
            }
            Err(e) => Err(e),
        }
    }

    /// Read and decode the RAMP_STAT register.
    pub fn read_ramp_status(&mut self) -> (r: Result<RampStat, Error<T::BusError>>)
        ensures
            final(self).bus.enable_present() == old(self).bus.enable_present(),
            final(self).same_config(*old(self)),
            extends(old(self).bus.log(), final(self).bus.log()),
            (match r {
                Ok(d) => exists|raw: u32|
                    read_op_ok(
                        old(self).bus.log(),
                        final(self).bus.log(),
                        Registers::RAMP_STAT.address(),
                        (DataPacket { status: final(self).status, data: raw }),
                    ) && d == RampStat::decode_spec(raw),
                Err(e) => failed_read_op(
                    old(self).bus.log(),
                    final(self).bus.log(),
                    Registers::RAMP_STAT.address(),
                    e is PinError,
                ) && final(self).status == old(self).status,
            }),
    {
        match self.read_register(Registers::RAMP_STAT) {
            Ok(p) => {
                proof {
                    assert(p == (DataPacket { status: self.status, data: p.data }));
                }
                Ok(RampStat::decode(p.data))
            }
            Err(e) => Err(e),
        }
    }
}


/// The registers written by a home reset, in write order: actual position,
/// then target position.
pub open spec fn home_addrs() -> Seq<u8> {
    seq![Registers::XACTUAL.address(), Registers::XTARGET.address()]
}

/// The registers written by a stop, in write order: start velocity, then
/// maximum velocity.
pub open spec fn stop_addrs() -> Seq<u8> {
    seq![Registers::VSTART.address(), Registers::VMAX.address()]
}

/// The four ramp registers written by an acceleration change, in write
/// order.
pub open spec fn ramp_addrs() -> Seq<u8> {
    seq![
        Registers::AMAX.address(),
        Registers::DMAX.address(),
        Registers::A1.address(),
        Registers::D1.address(),
    ]
}

/// Whether `post` is `pre` grown by one complete write of `data` to each
/// address of `addrs`, in order.
pub open spec fn complete_writes(
    pre: Seq<BusEvent>,
    post: Seq<BusEvent>,
    addrs: Seq<u8>,
    data: u32,
) -> bool {
    &&& post.len() == pre.len() as int + 4 * addrs.len()
    &&& extends(pre, post)
    &&& forall|i: int|
        0 <= i < addrs.len() ==> is_write_frame(
            post.subrange(pre.len() as int + 4 * i, pre.len() as int + 4 * i + 4),
            #[trigger] addrs[i],
            data,
        )
}

/// Whether `post` is `pre` grown by complete writes of `data` to the first
/// `k` addresses of `addrs` and then one failed attempt at `addrs[k]`, with
/// nothing after it.
pub open spec fn partial_writes_at(
    pre: Seq<BusEvent>,
    post: Seq<BusEvent>,
    addrs: Seq<u8>,
    data: u32,
    pin: bool,
    k: int,
) -> bool {
    &&& 0 <= k < addrs.len()
    &&& post.len() >= pre.len() as int + 4 * k
    &&& extends(pre, post)
    &&& forall|i: int|
        0 <= i < k ==> is_write_frame(
            post.subrange(pre.len() as int + 4 * i, pre.len() as int + 4 * i + 4),
            #[trigger] addrs[i],
            data,
        )
    &&& failed_attempt(
        post.subrange(pre.len() as int + 4 * k, post.len() as int),
        write_cmd(addrs[k]),
        be_bytes(data),
        pin,
    )
}

/// Whether the writes of `data` to `addrs` after `pre` broke off at some
/// address, leaving the earlier registers written and the later ones
/// untouched.
pub open spec fn partial_writes(
    pre: Seq<BusEvent>,
    post: Seq<BusEvent>,
    addrs: Seq<u8>,
    data: u32,
    pin: bool,
) -> bool {
    exists|k: int| partial_writes_at(pre, post, addrs, data, pin, k)
}

impl<T: Transport> Tmc5160<T> {
    /// Set the position to zero: write zero to the actual position and then
    /// to the target position.
    pub fn set_home(&mut self) -> (r: Result<DataPacket, Error<T::BusError>>)
        ensures
            final(self).bus.enable_present() == old(self).bus.enable_present(),
            final(self).same_config(*old(self)),
            extends(old(self).bus.log(), final(self).bus.log()),
            (match r {
                Ok(p) => {
                    let pre = old(self).bus.log();
                    let post = final(self).bus.log();
                    &&& complete_writes(pre, post, home_addrs(), 0)
                    &&& post.subrange(pre.len() as int + 4, pre.len() as int + 8) == write_frame(
                        Registers::XTARGET.address(),
                        0,
                        p.status.encode_spec(),
                        p.data,
                    )
                    &&& final(self).status == p.status
                },
                Err(e) => final(self).status == old(self).status && partial_writes(
                    old(self).bus.log(),
                    final(self).bus.log(),
                    home_addrs(),
                    0,
                    e is PinError,
                ),
            }),
    {
        let ghost pre = self.bus.log();
        let p1 = match self.write_io(Registers::XACTUAL, 0u32) {
            Ok(p) => p,
            Err(e) => {
                proof {
                    assert(partial_writes_at(
                        pre,
                        self.bus.log(),
                        home_addrs(),
                        0,
                        e is PinError,
                        0,
                    ));
                }
                return Err(e);
            }
        };
        let ghost f0 = write_frame(
            Registers::XACTUAL.address(),
            0,
            p1.status.encode_spec(),
            p1.data,
        );
        let ghost l1 = self.bus.log();
        match self.write_io(Registers::XTARGET, 0u32) {
            Ok(p) => {
                self.status = p.status;
                proof {
                    let post = self.bus.log();
                    let f1 = write_frame(
                        Registers::XTARGET.address(),
                        0,
                        p.status.encode_spec(),
                        p.data,
                    );
                    assert(post.subrange(0, pre.len() as int) =~= pre);
                    assert(post.subrange(pre.len() as int, pre.len() as int + 4) =~= f0);
                    assert(post.subrange(pre.len() as int + 4, pre.len() as int + 8) =~= f1);
                    lemma_write_frame_is(Registers::XACTUAL.address(), 0, p1.status.encode_spec(), p1.data);
                    lemma_write_frame_is(Registers::XTARGET.address(), 0, p.status.encode_spec(), p.data);
                    assert forall|i: int| 0 <= i < home_addrs().len() implies is_write_frame(
                        post.subrange(pre.len() as int + 4 * i, pre.len() as int + 4 * i + 4),
                        #[trigger] home_addrs()[i],
                        0,
                    ) by {
                        if i == 0 {
                            assert(post.subrange(pre.len() as int + 4 * i, pre.len() as int + 4 * i + 4) =~= f0);
                        } else {
                            assert(post.subrange(pre.len() as int + 4 * i, pre.len() as int + 4 * i + 4) =~= f1);
                        }
                    }
                }
                Ok(p)
            }
            Err(e) => {
                proof {
                    let post = self.bus.log();
                    lemma_extends_subrange(l1, post, pre.len() as int, pre.len() as int + 4);
                    assert(l1.subrange(pre.len() as int, pre.len() as int + 4) =~= f0);
                    assert(post.subrange(0, pre.len() as int) =~= pre);
                    assert(post.subrange(pre.len() as int, pre.len() as int + 4) =~= f0);
                    lemma_write_frame_is(Registers::XACTUAL.address(), 0, p1.status.encode_spec(), p1.data);
                    assert(post.subrange(pre.len() as int + 4, post.len() as int) =~= log_ext(l1, post));
                    assert(partial_writes_at(pre, post, home_addrs(), 0, e is PinError, 1));
                }
                Err(e)
            }
        }
    }

    /// Stop the motor now: disable the motor output, then write zero to the
    /// start velocity and to the maximum velocity. The disable always comes
    /// before any register write.
    pub fn stop(&mut self) -> (r: Result<DataPacket, Error<T::BusError>>)
        ensures
            final(self).bus.enable_present() == old(self).bus.enable_present(),
            final(self).same_config(*old(self)),
            extends(old(self).bus.log(), final(self).bus.log()),
            (match r {
                Ok(p) => {
                    let pre = old(self).bus.log() + disable_events(
                        old(self).bus.enable_present(),
                        old(self).en_inverted,
                    );
                    let post = final(self).bus.log();
                    &&& complete_writes(pre, post, stop_addrs(), 0)
                    &&& post.subrange(pre.len() as int + 4, pre.len() as int + 8) == write_frame(
                        Registers::VMAX.address(),
                        0,
                        p.status.encode_spec(),
                        p.data,
                    )
                    &&& final(self).status == p.status
                },
                Err(e) => final(self).status == old(self).status && {
                    ||| (e is PinError && old(self).bus.enable_present() && final(self).bus.log()
                        == old(self).bus.log())
                    ||| partial_writes(
                        old(self).bus.log() + disable_events(
                            old(self).bus.enable_present(),
                            old(self).en_inverted,
                        ),
                        final(self).bus.log(),
                        stop_addrs(),
                        0,
                        e is PinError,
                    )
                },
            }),
    {
        match self.disable() {
            Ok(_) => {}
            Err(e) => {
                return Err(e);
            }
        }
        let ghost pre = self.bus.log();
        let p1 = match self.write_io(Registers::VSTART, 0u32) {
            Ok(p) => p,
            Err(e) => {
                proof {
                    assert(self.bus.log().subrange(0, old(self).bus.log().len() as int)
                        =~= old(self).bus.log());
                    assert(partial_writes_at(
                        pre,
                        self.bus.log(),
                        stop_addrs(),
                        0,
                        e is PinError,
                        0,
                    ));
                }
                return Err(e);
            }
        };
        let ghost f0 = write_frame(
            Registers::VSTART.address(),
            0,
            p1.status.encode_spec(),
            p1.data,
        );
        let ghost l1 = self.bus.log();
        match self.write_io(Registers::VMAX, 0u32) {
            Ok(p) => {
                self.status = p.status;
                proof {
                    let post = self.bus.log();
                    let f1 = write_frame(
                        Registers::VMAX.address(),
                        0,
                        p.status.encode_spec(),
                        p.data,
                    );
                    assert(post.subrange(0, old(self).bus.log().len() as int)
                        =~= old(self).bus.log());
                    assert(post.subrange(0, pre.len() as int) =~= pre);
                    assert(post.subrange(pre.len() as int, pre.len() as int + 4) =~= f0);
                    assert(post.subrange(pre.len() as int + 4, pre.len() as int + 8) =~= f1);
                    lemma_write_frame_is(Registers::VSTART.address(), 0, p1.status.encode_spec(), p1.data);
                    lemma_write_frame_is(Registers::VMAX.address(), 0, p.status.encode_spec(), p.data);
                    assert forall|i: int| 0 <= i < stop_addrs().len() implies is_write_frame(
                        post.subrange(pre.len() as int + 4 * i, pre.len() as int + 4 * i + 4),
                        #[trigger] stop_addrs()[i],
                        0,
                    ) by {
                        if i == 0 {
                            assert(post.subrange(pre.len() as int + 4 * i, pre.len() as int + 4 * i + 4) =~= f0);
                        } else {
                            assert(post.subrange(pre.len() as int + 4 * i, pre.len() as int + 4 * i + 4) =~= f1);
                        }
                    }
                }
                Ok(p)
            }
            Err(e) => {
                proof {
                    let post = self.bus.log();
                    lemma_extends_subrange(l1, post, pre.len() as int, pre.len() as int + 4);
                    assert(l1.subrange(pre.len() as int, pre.len() as int + 4) =~= f0);
                    assert(post.subrange(0, old(self).bus.log().len() as int)
                        =~= old(self).bus.log());
                    assert(post.subrange(0, pre.len() as int) =~= pre);
                    assert(post.subrange(pre.len() as int, pre.len() as int + 4) =~= f0);
                    lemma_write_frame_is(Registers::VSTART.address(), 0, p1.status.encode_spec(), p1.data);
                    assert(post.subrange(pre.len() as int + 4, post.len() as int) =~= log_ext(l1, post));
                    assert(partial_writes_at(pre, post, stop_addrs(), 0, e is PinError, 1));
                }
                Err(e)
            }
        }
    }

    /// Set the maximum acceleration: the converted value is written to all
    /// four ramp registers (AMAX, DMAX, A1, D1) in that order, so the
    /// four-phase ramp is flattened to a single acceleration magnitude. A
    /// failed write aborts the operation at once: the earlier registers stay
    /// written and the later ones are not touched.
    pub fn set_acceleration(&mut self, acceleration: u32) -> (r: Result<
        DataPacket,
        Error<T::BusError>,
    >)
        requires
            old(self).wf(),
        ensures
            final(self).bus.enable_present() == old(self).bus.enable_present(),
            final(self).same_config(*old(self)),
            extends(old(self).bus.log(), final(self).bus.log()),
            (match r {
                Ok(p) => {
                    let pre = old(self).bus.log();
                    let post = final(self).bus.log();
                    let v = accel_raw(acceleration, old(self).clock, old(self).step_count);
                    &&& complete_writes(pre, post, ramp_addrs(), v)
                    &&& post.subrange(pre.len() as int + 12, pre.len() as int + 16) == write_frame(
                        Registers::D1.address(),
                        v,
                        p.status.encode_spec(),
                        p.data,
                    )
                    &&& final(self).status == p.status
                },
                Err(e) => final(self).status == old(self).status && partial_writes(
                    old(self).bus.log(),
                    final(self).bus.log(),
                    ramp_addrs(),
                    accel_raw(acceleration, old(self).clock, old(self).step_count),
                    e is PinError,
                ),
            }),
    {
        let v = self.accel_from_hz(acceleration);
        let ghost pre = self.bus.log();
        let p1 = match self.write_io(Registers::AMAX, v) {
            Ok(p) => p,
            Err(e) => {
                proof {
                    assert(partial_writes_at(
                        pre,
                        self.bus.log(),
                        ramp_addrs(),
                        v,
                        e is PinError,
                        0,
                    ));
                }
                return Err(e);
            }
        };
        let ghost f0 = write_frame(Registers::AMAX.address(), v, p1.status.encode_spec(), p1.data);
        let ghost l1 = self.bus.log();
        proof {
            lemma_write_frame_is(Registers::AMAX.address(), v, p1.status.encode_spec(), p1.data);
            assert(l1.subrange(pre.len() as int, pre.len() as int + 4) =~= f0);
        }
        let p2 = match self.write_io(Registers::DMAX, v) {
            Ok(p) => p,
            Err(e) => {
                proof {
                    let post = self.bus.log();
                    assert(post.subrange(0, pre.len() as int) =~= pre);
                    assert(post.subrange(pre.len() as int, pre.len() as int + 4) =~= f0);
                    assert(post.subrange(pre.len() as int + 4, post.len() as int) =~= log_ext(l1, post));
                    assert(partial_writes_at(pre, post, ramp_addrs(), v, e is PinError, 1));
                }
                return Err(e);
            }
        };
        let ghost f1 = write_frame(Registers::DMAX.address(), v, p2.status.encode_spec(), p2.data);
        let ghost l2 = self.bus.log();
        proof {
            lemma_write_frame_is(Registers::DMAX.address(), v, p2.status.encode_spec(), p2.data);
            assert(l2.subrange(0, pre.len() as int) =~= pre);
            assert(l2.subrange(pre.len() as int, pre.len() as int + 4) =~= f0);
            assert(l2.subrange(pre.len() as int + 4, pre.len() as int + 8) =~= f1);
        }
        let p3 = match self.write_io(Registers::A1, v) {
            Ok(p) => p,
            Err(e) => {
                proof {
                    let post = self.bus.log();
                    assert(post.subrange(0, pre.len() as int) =~= pre);
                    assert(post.subrange(pre.len() as int, pre.len() as int + 4) =~= f0);
                    assert(post.subrange(pre.len() as int + 4, pre.len() as int + 8) =~= f1);
                    assert(post.subrange(pre.len() as int + 8, post.len() as int) =~= log_ext(l2, post));
                    assert forall|i: int| 0 <= i < 2 implies is_write_frame(
                        post.subrange(pre.len() as int + 4 * i, pre.len() as int + 4 * i + 4),
                        #[trigger] ramp_addrs()[i],
                        v,
                    ) by {
                        if i == 0 {
                            assert(post.subrange(pre.len() as int + 4 * i, pre.len() as int + 4 * i + 4) =~= f0);
                        } else {
                            assert(post.subrange(pre.len() as int + 4 * i, pre.len() as int + 4 * i + 4) =~= f1);
                        }
                    }
                    assert(partial_writes_at(pre, post, ramp_addrs(), v, e is PinError, 2));
                }
                return Err(e);
            }
        };
        let ghost f2 = write_frame(Registers::A1.address(), v, p3.status.encode_spec(), p3.data);
        let ghost l3 = self.bus.log();
        proof {
            lemma_write_frame_is(Registers::A1.address(), v, p3.status.encode_spec(), p3.data);
            assert(l3.subrange(0, pre.len() as int) =~= pre);
            assert(l3.subrange(pre.len() as int, pre.len() as int + 4) =~= f0);
            assert(l3.subrange(pre.len() as int + 4, pre.len() as int + 8) =~= f1);
            assert(l3.subrange(pre.len() as int + 8, pre.len() as int + 12) =~= f2);
        }
        match self.write_io(Registers::D1, v) {
            Ok(p) => {
                self.status = p.status;
                proof {
                    let post = self.bus.log();
                    let f3 = write_frame(Registers::D1.address(), v, p.status.encode_spec(), p.data);
                    lemma_write_frame_is(Registers::D1.address(), v, p.status.encode_spec(), p.data);
                    assert(post.subrange(0, pre.len() as int) =~= pre);
                    assert(post.subrange(pre.len() as int, pre.len() as int + 4) =~= f0);
                    assert(post.subrange(pre.len() as int + 4, pre.len() as int + 8) =~= f1);
                    assert(post.subrange(pre.len() as int + 8, pre.len() as int + 12) =~= f2);
                    assert(post.subrange(pre.len() as int + 12, pre.len() as int + 16) =~= f3);
                    assert forall|i: int| 0 <= i < ramp_addrs().len() implies is_write_frame(
                        post.subrange(pre.len() as int + 4 * i, pre.len() as int + 4 * i + 4),
                        #[trigger] ramp_addrs()[i],
                        v,
                    ) by {
                        if i == 0 {
                            assert(post.subrange(pre.len() as int + 4 * i, pre.len() as int + 4 * i + 4) =~= f0);
                        } else if i == 1 {
                            assert(post.subrange(pre.len() as int + 4 * i, pre.len() as int + 4 * i + 4) =~= f1);
                        } else if i == 2 {
                            assert(post.subrange(pre.len() as int + 4 * i, pre.len() as int + 4 * i + 4) =~= f2);
                        } else {
                            assert(post.subrange(pre.len() as int + 4 * i, pre.len() as int + 4 * i + 4) =~= f3);
                        }
                    }
                }
                Ok(p)
            }
            Err(e) => {
                proof {
                    let post = self.bus.log();
                    assert(post.subrange(0, pre.len() as int) =~= pre);
                    assert(post.subrange(pre.len() as int, pre.len() as int + 4) =~= f0);
                    assert(post.subrange(pre.len() as int + 4, pre.len() as int + 8) =~= f1);
                    assert(post.subrange(pre.len() as int + 8, pre.len() as int + 12) =~= f2);
                    assert(post.subrange(pre.len() as int + 12, post.len() as int) =~= log_ext(l3, post));
                    assert forall|i: int| 0 <= i < 3 implies is_write_frame(
                        post.subrange(pre.len() as int + 4 * i, pre.len() as int + 4 * i + 4),
                        #[trigger] ramp_addrs()[i],
                        v,
                    ) by {
                        if i == 0 {
                            assert(post.subrange(pre.len() as int + 4 * i, pre.len() as int + 4 * i + 4) =~= f0);
                        } else if i == 1 {
                            assert(post.subrange(pre.len() as int + 4 * i, pre.len() as int + 4 * i + 4) =~= f1);
                        } else {
                            assert(post.subrange(pre.len() as int + 4 * i, pre.len() as int + 4 * i + 4) =~= f2);
                        }
                    }
                    assert(partial_writes_at(pre, post, ramp_addrs(), v, e is PinError, 3));
                }
                Err(e)
            }
        }
    }

    /// Set the maximum velocity: the step frequency is converted to the
    /// chip's velocity unit and written to the VMAX register; the requested
    /// frequency is cached as the commanded maximum even when the write
    /// fails.
    pub fn set_velocity(&mut self, velocity_hz: u32) -> (r: Result<DataPacket, Error<T::BusError>>)
        requires
            old(self).wf(),
        ensures
            final(self).bus.enable_present() == old(self).bus.enable_present(),
            final(self).same_calib(*old(self)),
            final(self).v_max == velocity_hz,
            extends(old(self).bus.log(), final(self).bus.log()),
            (match r {
                Ok(p) => wrote(
                    old(self).bus.log(),
                    final(self).bus.log(),
                    Registers::VMAX.address(),
                    speed_raw(velocity_hz, old(self).clock, old(self).step_count),
                    p,
                ) && final(self).status == p.status,
                Err(e) => failed_write_op(
                    old(self).bus.log(),
                    final(self).bus.log(),
                    Registers::VMAX.address(),
                    speed_raw(velocity_hz, old(self).clock, old(self).step_count),
                    e is PinError,
                ) && final(self).status == old(self).status,
            }),
    {
        self.v_max = velocity_hz;
        let raw = self.speed_from_hz(velocity_hz);
        self.write_register(Registers::VMAX, raw)
    }

    /// Move to a position given in full steps: enable the motor, then write
    /// the target scaled by the microsteps per step to the XTARGET register.
    pub fn move_to(&mut self, target_signed: i32) -> (r: Result<DataPacket, Error<T::BusError>>)
        requires
            old(self).wf(),
            -0x80000000 <= target_signed * old(self).step_count <= 0x7FFFFFFF,
        ensures
            final(self).bus.enable_present() == old(self).bus.enable_present(),
            final(self).same_config(*old(self)),
            extends(old(self).bus.log(), final(self).bus.log()),
            (match r {
                Ok(p) => wrote(
                    old(self).bus.log() + enable_events(
                        old(self).bus.enable_present(),
                        old(self).en_inverted,
                    ),
                    final(self).bus.log(),
                    Registers::XTARGET.address(),
                    position_raw(target_signed, old(self).step_count),
                    p,
                ) && final(self).status == p.status,
                Err(e) => final(self).status == old(self).status && {
                    ||| (e is PinError && old(self).bus.enable_present() && final(self).bus.log()
                        == old(self).bus.log())
                    ||| failed_write_op(
                        old(self).bus.log() + enable_events(
                            old(self).bus.enable_present(),
                            old(self).en_inverted,
                        ),
                        final(self).bus.log(),
                        Registers::XTARGET.address(),
                        position_raw(target_signed, old(self).step_count),
                        e is PinError,
                    )
                },
            }),
    {
        match self.enable() {
            Ok(_) => {}
            Err(e) => {
                return Err(e);
            }
        }
        let prod: i64 = (target_signed as i64) * (self.step_count as i64);
        let raw: u32 = if prod >= 0 {
            prod as u32
        } else {
            (prod + 0x100000000) as u32
        };
        let r = self.write_register(Registers::XTARGET, raw);
        proof {
            assert(self.bus.log().subrange(0, old(self).bus.log().len() as int)
                =~= old(self).bus.log());
        }
        r
    }

    /// Set the current position: the target, given in full steps, is scaled
    /// by the microsteps per step and written to the XACTUAL register.
    pub fn set_position(&mut self, target_signed: i32) -> (r: Result<DataPacket, Error<T::BusError>>)
        requires
            old(self).wf(),
            -0x80000000 <= target_signed * old(self).step_count <= 0x7FFFFFFF,
        ensures
            final(self).bus.enable_present() == old(self).bus.enable_present(),
            final(self).same_config(*old(self)),
            extends(old(self).bus.log(), final(self).bus.log()),
            (match r {
                Ok(p) => wrote(
                    old(self).bus.log(),
                    final(self).bus.log(),
                    Registers::XACTUAL.address(),
                    position_raw(target_signed, old(self).step_count),
                    p,
                ) && final(self).status == p.status,
                Err(e) => failed_write_op(
                    old(self).bus.log(),
                    final(self).bus.log(),
                    Registers::XACTUAL.address(),
                    position_raw(target_signed, old(self).step_count),
                    e is PinError,
                ) && final(self).status == old(self).status,
            }),
    {
        let prod: i64 = (target_signed as i64) * (self.step_count as i64);
        let raw: u32 = if prod >= 0 {
            prod as u32
        } else {
            (prod + 0x100000000) as u32
        };
        self.write_register(Registers::XACTUAL, raw)
    }

    /// The current position: the XACTUAL register divided by the microsteps
    /// per step and by the fixed gear constant 400, truncated.
    pub fn get_position(&mut self) -> (r: Result<u32, Error<T::BusError>>)
        requires
            old(self).wf(),
        ensures
            final(self).bus.enable_present() == old(self).bus.enable_present(),
            final(self).same_config(*old(self)),
            extends(old(self).bus.log(), final(self).bus.log()),
            (match r {
                Ok(v) => exists|raw: u32|
                    read_op_ok(
                        old(self).bus.log(),
                        final(self).bus.log(),
                        Registers::XACTUAL.address(),
                        (DataPacket { status: final(self).status, data: raw }),
                    ) && v == raw as int / (old(self).step_count * 400),
                Err(e) => failed_read_op(
                    old(self).bus.log(),
                    final(self).bus.log(),
                    Registers::XACTUAL.address(),
                    e is PinError,
                ) && final(self).status == old(self).status,
            }),
    {
        let steps = self.step_count;
        match self.read_register(Registers::XACTUAL) {
            Ok(p) => {
                let den: u64 = (steps as u64) * 400;
                let q: u64 = (p.data as u64) / den;
                proof {
                    assert(q <= p.data as u64) by (nonlinear_arith)
                        requires
                            q == (p.data as u64) as int / (den as int),
                            den >= 1,
                            p.data >= 0,
                    ;
                    assert(p == (DataPacket { status: self.status, data: p.data }));
                }
                Ok(q as u32)
            }
            Err(e) => Err(e),
        }
    }

    /// The current velocity: the 24-bit two's complement VACTUAL reading,
    /// divided by the microsteps per step, truncated toward zero.
    pub fn get_velocity(&mut self) -> (r: Result<i32, Error<T::BusError>>)
        requires
            old(self).wf(),
        ensures
            final(self).bus.enable_present() == old(self).bus.enable_present(),
            final(self).same_config(*old(self)),
            extends(old(self).bus.log(), final(self).bus.log()),
            (match r {
                Ok(v) => exists|raw: u32|
                    read_op_ok(
                        old(self).bus.log(),
                        final(self).bus.log(),
                        Registers::VACTUAL.address(),
                        (DataPacket { status: final(self).status, data: raw }),
                    ) && v == div_trunc(vactual_signed_spec(raw), old(self).step_count as int),
                Err(e) => failed_read_op(
                    old(self).bus.log(),
                    final(self).bus.log(),
                    Registers::VACTUAL.address(),
                    e is PinError,
                ) && final(self).status == old(self).status,
            }),
    {
        let steps = self.step_count;
        match self.read_register(Registers::VACTUAL) {
            Ok(p) => {
                let sv = vactual_signed(p.data);
                let v: i32 = if sv >= 0 {
                    ((sv as u32) / steps) as i32
                } else {
                    -((((-sv) as u32) / steps) as i32)
                };
                proof {
                    assert(p == (DataPacket { status: self.status, data: p.data }));
                }
                Ok(v)
            }
            Err(e) => Err(e),
        }
    }

    /// The last commanded maximum velocity, divided by the fixed gear
    /// constant 400, truncated.
    pub fn get_velocity_max(&mut self) -> (v: u32)
        ensures
            *final(self) == *old(self),
            v == old(self).v_max / 400,
    {
        self.v_max / 400
    }

    /// The current target position: the XTARGET register read as a 32-bit
    /// two's complement number.
    pub fn get_target(&mut self) -> (r: Result<i32, Error<T::BusError>>)
        ensures
            final(self).bus.enable_present() == old(self).bus.enable_present(),
            final(self).same_config(*old(self)),
            extends(old(self).bus.log(), final(self).bus.log()),
            (match r {
                Ok(v) => exists|raw: u32|
                    read_op_ok(
                        old(self).bus.log(),
                        final(self).bus.log(),
                        Registers::XTARGET.address(),
                        (DataPacket { status: final(self).status, data: raw }),
                    ) && v == i32_of_u32(raw),
                Err(e) => failed_read_op(
                    old(self).bus.log(),
                    final(self).bus.log(),
                    Registers::XTARGET.address(),
                    e is PinError,
                ) && final(self).status == old(self).status,
            }),
    {
        match self.read_register(Registers::XTARGET) {
            Ok(p) => {
                let v: i32 = if p.data <= 0x7FFFFFFF {
                    p.data as i32
                } else {
                    -((0xFFFFFFFFu32 - p.data) as i32) - 1
                };
                proof {
                    assert(p == (DataPacket { status: self.status, data: p.data }));
                    assert(v == i32_of_u32(p.data));
                }
                Ok(v)
            }
            Err(e) => Err(e),
        }
    }

    /// Whether the motor is moving: the negation of the standstill flag of
    /// the DRV_STATUS register.
    pub fn is_moving(&mut self) -> (r: Result<bool, Error<T::BusError>>)
        ensures
            final(self).bus.enable_present() == old(self).bus.enable_present(),
            final(self).same_config(*old(self)),
            extends(old(self).bus.log(), final(self).bus.log()),
            (match r {
                Ok(m) => exists|raw: u32|
                    read_op_ok(
                        old(self).bus.log(),
                        final(self).bus.log(),
                        Registers::DRV_STATUS.address(),
                        (DataPacket { status: final(self).status, data: raw }),
                    ) && m == !DrvStatus::decode_spec(raw).standstill,
                Err(e) => failed_read_op(
                    old(self).bus.log(),
                    final(self).bus.log(),
                    Registers::DRV_STATUS.address(),
                    e is PinError,
                ) && final(self).status == old(self).status,
            }),
    {
        match self.read_drv_status() {
            Ok(d) => Ok(!d.standstill),
            Err(e) => Err(e),
        }
    }

    /// Whether the motor stands at the right limit: the right stop flag of
    /// the RAMP_STAT register.
    pub fn is_at_limit_r(&mut self) -> (r: Result<bool, Error<T::BusError>>)
        ensures
            final(self).bus.enable_present() == old(self).bus.enable_present(),
            final(self).same_config(*old(self)),
            extends(old(self).bus.log(), final(self).bus.log()),
            (match r {
                Ok(m) => exists|raw: u32|
                    read_op_ok(
                        old(self).bus.log(),
                        final(self).bus.log(),
                        Registers::RAMP_STAT.address(),
                        (DataPacket { status: final(self).status, data: raw }),
                    ) && m == RampStat::decode_spec(raw).status_stop_r,
                Err(e) => failed_read_op(
                    old(self).bus.log(),
                    final(self).bus.log(),
                    Registers::RAMP_STAT.address(),
                    e is PinError,
                ) && final(self).status == old(self).status,
            }),
    {
        match self.read_ramp_status() {
            Ok(d) => Ok(d.status_stop_r),
            Err(e) => Err(e),
        }
    }

    /// Whether the motor stands at the left limit: the left stop flag of the
    /// RAMP_STAT register.
    pub fn is_at_limit_l(&mut self) -> (r: Result<bool, Error<T::BusError>>)
        ensures
            final(self).bus.enable_present() == old(self).bus.enable_present(),
            final(self).same_config(*old(self)),
            extends(old(self).bus.log(), final(self).bus.log()),
            (match r {
                Ok(m) => exists|raw: u32|
                    read_op_ok(
                        old(self).bus.log(),
                        final(self).bus.log(),
                        Registers::RAMP_STAT.address(),
                        (DataPacket { status: final(self).status, data: raw }),
                    ) && m == RampStat::decode_spec(raw).status_stop_l,
                Err(e) => failed_read_op(
                    old(self).bus.log(),
                    final(self).bus.log(),
                    Registers::RAMP_STAT.address(),
                    e is PinError,
                ) && final(self).status == old(self).status,
            }),
    {
        match self.read_ramp_status() {
            Ok(d) => Ok(d.status_stop_l),
            Err(e) => Err(e),
        }
    }
}

} // verus!
