//! The bus capability that the transaction engine drives.
//!
//! A [`Transport`] bundles the three signals the chip needs: a full duplex
//! byte exchange, the chip-select line that frames each transaction, and an
//! optional enable output. Every implementation carries a ghost history of
//! the actions it performed ([`Transport::log`]); the engine's contracts are
//! stated over that history, so the exact framing of every transaction is
//! part of each operation's specification.
//!
//! [`ScriptedTransport`] is a transport whose replies follow a prewritten
//! script and which records every action as plain data; it both shows that
//! the trait is implementable and lets tests drive the engine without a chip.

use vstd::prelude::*;

verus! {

/// One observable action on the bus capability.
pub enum BusEvent {
    /// The chip select line was driven; `low` asserts the frame.
    Cs { low: bool },
    /// A full duplex exchange completed: `tx` went out and `rx` came back.
    Xfer { tx: Seq<u8>, rx: Seq<u8> },
    /// An exchange of `tx` was attempted and failed.
    XferFail { tx: Seq<u8> },
    /// The enable output was driven to the given level.
    Enable { high: bool },
}

/// The history of actions performed on a transport: specification state
/// with no run-time content.
pub type EventLog = Seq<BusEvent>;

/// Capability interface over the bus.
///
/// The chip select and enable methods report failure as `Err(())`; the
/// engine surfaces it as a pin error. A failed action leaves the history
/// unchanged except for a failed exchange, which is recorded as
/// [`BusEvent::XferFail`].
pub trait Transport: Sized {
    /// The transport's own bus error value.
    type BusError;

    /// History of the actions performed on the bus.
    spec fn log(&self) -> Seq<BusEvent>;

    /// Whether an enable output is configured.
    spec fn enable_present(&self) -> bool;

    /// Send the bytes of `tx` and receive the same number of bytes back,
    /// full duplex.
    fn exchange(&mut self, tx: &Vec<u8>) -> (r: Result<Vec<u8>, Self::BusError>)
        ensures
            final(self).enable_present() == old(self).enable_present(),
            (match r {
                Ok(rx) => rx@.len() == tx@.len()
                    && final(self).log() == old(self).log().push(BusEvent::Xfer { tx: tx@, rx: rx@ }),
                Err(_) => final(self).log() == old(self).log().push(BusEvent::XferFail { tx: tx@ }),
            }),
    ;

    /// Drive the chip select line; `low` asserts it.
    fn cs_set(&mut self, low: bool) -> (r: Result<(), ()>)
        ensures
            final(self).enable_present() == old(self).enable_present(),
            (match r {
                Ok(_) => final(self).log() == old(self).log().push(BusEvent::Cs { low }),
                Err(_) => final(self).log() == old(self).log(),
            }),
    ;

    /// Drive the enable output to the given level. When no enable output is
    /// configured this succeeds without any action.
    fn en_set(&mut self, high: bool) -> (r: Result<(), ()>)
        ensures
            final(self).enable_present() == old(self).enable_present(),
            (match r {
                Ok(_) => if old(self).enable_present() {
                    final(self).log() == old(self).log().push(BusEvent::Enable { high })
                } else {
                    final(self).log() == old(self).log()
                },
                Err(_) => old(self).enable_present() && final(self).log() == old(self).log(),
            }),
    ;
}

/// An action record with concrete bytes; its view is the [`BusEvent`] it
/// stands for.
#[derive(Debug, PartialEq, Eq)]
pub enum BusRecord {
    /// The chip select line was driven; `low` asserts the frame.
    Cs {
        /// The level the line was driven to.
        low: bool,
    },
    /// A full duplex exchange completed.
    Xfer {
        /// The bytes sent.
        tx: Vec<u8>,
        /// The bytes received.
        rx: Vec<u8>,
    },
    /// An exchange was attempted and failed.
    XferFail {
        /// The bytes whose exchange failed.
        tx: Vec<u8>,
    },
    /// The enable output was driven.
    Enable {
        /// The level the output was driven to.
        high: bool,
    },
}

impl View for BusRecord {
    type V = BusEvent;

    open spec fn view(&self) -> BusEvent {
        match *self {
            BusRecord::Cs { low } => BusEvent::Cs { low },
            BusRecord::Xfer { ref tx, ref rx } => BusEvent::Xfer { tx: tx@, rx: rx@ },
            BusRecord::XferFail { ref tx } => BusEvent::XferFail { tx: tx@ },
            BusRecord::Enable { high } => BusEvent::Enable { high },
        }
    }
}

/// The event views of a sequence of records.
pub open spec fn views_of(s: Seq<BusRecord>) -> Seq<BusEvent>
    decreases s.len(),
{
    if s.len() == 0 {
        Seq::empty()
    } else {
        views_of(s.drop_last()).push(s.last()@)
    }
}

/// Appending a record appends its view to the event sequence.
pub proof fn lemma_views_of_push(s: Seq<BusRecord>, r: BusRecord)
    ensures
        views_of(s.push(r)) == views_of(s).push(r@),
{
    assert(s.push(r).drop_last() =~= s);
    assert(s.push(r).last() == r);
}

/// One scripted reply of a [`ScriptedTransport`]: either fail the exchange,
/// or answer it with the given bytes, padded with zeros or cut to the
/// exchanged length.
#[derive(Debug)]
pub struct ScriptedStep {
    /// Fail this exchange.
    pub fail: bool,
    /// The bytes to hand back on success.
    pub reply: Vec<u8>,
}

/// A transport whose replies follow a prewritten script, one step per
/// exchange, and which records every action it performs. Exchanges past the
/// end of the script succeed and reply with zeros.
pub struct ScriptedTransport {
    /// The scripted replies, in exchange order.
    pub script: Vec<ScriptedStep>,
    /// Index of the next script step.
    pub pos: usize,
    /// Whether driving the chip select fails.
    pub fail_cs: bool,
    /// Whether an enable output is configured.
    pub has_enable: bool,
    /// Whether driving the enable output fails.
    pub fail_enable: bool,
    /// Record of every action performed, oldest first.
    pub events: Vec<BusRecord>,
}

/// Copy a byte vector.
fn copy_bytes(v: &Vec<u8>) -> (r: Vec<u8>)
    ensures
        r@ == v@,
{
    let mut r: Vec<u8> = Vec::new();
    let mut i: usize = 0;
    while i < v.len()
        invariant
            i <= v@.len(),
            r@ == v@.subrange(0, i as int),
        decreases v@.len() - i,
    {
        r.push(v[i]);
        i = i + 1;
        assert(r@ =~= v@.subrange(0, i as int));
    }
    assert(r@ =~= v@);
    r
}

impl ScriptedTransport {
    /// A transport that will answer exchanges from `script`.
    pub fn new(script: Vec<ScriptedStep>, has_enable: bool) -> (t: ScriptedTransport)
        ensures
            t.log() == Seq::<BusEvent>::empty(),
            t.enable_present() == has_enable,
            t.script == script,
            t.pos == 0,
            !t.fail_cs,
            !t.fail_enable,
            t.events@ == Seq::<BusRecord>::empty(),
    {
        ScriptedTransport {
            script,
            pos: 0,
            fail_cs: false,
            has_enable,
            fail_enable: false,
            events: Vec::new(),
        }
    }
}

impl Transport for ScriptedTransport {
    type BusError = ();

    open spec fn log(&self) -> Seq<BusEvent> {
        views_of(self.events@)
    }

    open spec fn enable_present(&self) -> bool {
        self.has_enable
    }

    fn exchange(&mut self, tx: &Vec<u8>) -> (r: Result<Vec<u8>, ()>) {
        let ghost pre = self.events@;
        let i = self.pos;
        if i < self.script.len() {
            self.pos = i + 1;
            if self.script[i].fail {
                let rec = BusRecord::XferFail { tx: copy_bytes(tx) };
                proof {
                    lemma_views_of_push(pre, rec);
                }
                self.events.push(rec);
                return Err(());
            }
            let mut rx: Vec<u8> = Vec::new();
            let mut j: usize = 0;
            while j < tx.len()
                invariant
                    j <= tx@.len(),
                    rx@.len() == j,
                    i < self.script@.len(),
                decreases tx@.len() - j,
            {
                let byte = if j < self.script[i].reply.len() {
                    self.script[i].reply[j]
                } else {
                    0u8
                };
                rx.push(byte);
                j = j + 1;
            }
            let rec = BusRecord::Xfer { tx: copy_bytes(tx), rx: copy_bytes(&rx) };
            proof {
                lemma_views_of_push(pre, rec);
            }
            self.events.push(rec);
            Ok(rx)
        } else {
            let mut rx: Vec<u8> = Vec::new();
            let mut j: usize = 0;
            while j < tx.len()
                invariant
                    j <= tx@.len(),
                    rx@.len() == j,
                decreases tx@.len() - j,
            {
                rx.push(0u8);
                j = j + 1;
            }
            let rec = BusRecord::Xfer { tx: copy_bytes(tx), rx: copy_bytes(&rx) };
            proof {
                lemma_views_of_push(pre, rec);
            }
            self.events.push(rec);
            Ok(rx)
        }
    }

    fn cs_set(&mut self, low: bool) -> (r: Result<(), ()>) {
        if self.fail_cs {
            return Err(());
        }
        let ghost pre = self.events@;
        let rec = BusRecord::Cs { low };
        proof {
            lemma_views_of_push(pre, rec);
        }
        self.events.push(rec);
        Ok(())
    }

    fn en_set(&mut self, high: bool) -> (r: Result<(), ()>) {
        if !self.has_enable {
            return Ok(());
        }
        if self.fail_enable {
            return Err(());
        }
        let ghost pre = self.events@;
        let rec = BusRecord::Enable { high };
        proof {
            lemma_views_of_push(pre, rec);
        }
        self.events.push(rec);
        Ok(())
    }
}

} // verus!
