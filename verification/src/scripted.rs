//! A scripted transport: a verified, in-memory implementation of the
//! bus transport, answering each transaction from a prepared script and
//! recording every request it receives. Meant for tests and examples;
//! it shows the transport contracts are satisfiable.

use vstd::prelude::*;
use crate::transport::Transport;
use crate::types::BusOp;

verus! {

/// The scripted outcome of one bus transaction.
#[derive(Clone, Copy, Debug)]
pub enum ScriptItem {
    /// The transaction is acknowledged.
    Ack,
    /// The transaction fails with this transport error value.
    Nack(u8),
    /// The transaction is a read exchange that succeeds, delivering
    /// these two bytes (high first).
    Reply(u8, u8),
}

/// One request issued to a scripted transport, as it would appear on
/// the wire.
#[derive(Debug, PartialEq)]
pub enum RecordedCall {
    /// A write of `bytes` to device address `addr`.
    Write { addr: u8, bytes: Vec<u8> },
    /// A write-read exchange selecting register `reg` on device
    /// address `addr`.
    Read { addr: u8, reg: u8 },
}

/// An in-memory transport that consumes one script item per
/// transaction. A write succeeds on `Ack`; a read succeeds on `Reply`.
/// Any other pairing, or an exhausted script, fails the transaction
/// with error value zero. Every request is recorded in `calls`.
pub struct ScriptedTransport {
    script: Vec<ScriptItem>,
    next: usize,
    /// Every request issued through this transport, oldest first.
    pub calls: Vec<RecordedCall>,
    hist: Ghost<Seq<BusOp>>,
}

impl ScriptedTransport {
    /// A transport that will answer transactions from `script`, with an
    /// empty transaction log.
    pub fn new(script: Vec<ScriptItem>) -> (r: ScriptedTransport)
        ensures
            r.ops() == Seq::<BusOp>::empty(),
    {
        ScriptedTransport { script, next: 0, calls: Vec::new(), hist: Ghost(Seq::empty()) }
    }

    /// Consume and return the next script item, if any is left.
    fn next_item(&mut self) -> (r: Option<ScriptItem>)
        ensures
            final(self).hist == old(self).hist,
    {
        if self.next < self.script.len() {
            let item = self.script[self.next];
            self.next = self.next + 1;
            Some(item)
        } else {
            None
        }
    }
}

/// Copy a byte vector element by element.
fn copy_bytes(v: &Vec<u8>) -> (r: Vec<u8>)
    ensures
        r@ == v@,
{
    let mut r: Vec<u8> = Vec::new();
    let mut i: usize = 0;
    while i < v.len()
        invariant
            i <= v@.len(),
            r@ == v@.take(i as int),
        decreases v@.len() - i,
    {
        r.push(v[i]);
        proof {
            assert(r@ =~= v@.take(i + 1 as int));
        }
        i = i + 1;
    }
    proof {
        assert(r@ =~= v@);
    }
    r
}

impl Transport for ScriptedTransport {
    type TError = u8;

    closed spec fn ops(&self) -> Seq<BusOp> {
        self.hist@
    }

    fn bus_write(&mut self, address: u8, payload: &Vec<u8>) -> (r: Result<(), u8>) {
        let bytes = copy_bytes(payload);
        self.calls.push(RecordedCall::Write { addr: address, bytes });
        let r: Result<(), u8> = match self.next_item() {
            Some(ScriptItem::Ack) => Ok(()),
            Some(ScriptItem::Nack(e)) => Err(e),
            Some(ScriptItem::Reply(_, _)) => Err(0),
            None => Err(0),
        };
        self.hist = Ghost(self.hist@.push(BusOp::Write {
            addr: address,
            bytes: payload@,
            ok: r is Ok,
        }));
        r
    }

    fn bus_write_read(&mut self, address: u8, register: u8) -> (r: Result<(u8, u8), u8>) {
        self.calls.push(RecordedCall::Read { addr: address, reg: register });
        let r: Result<(u8, u8), u8> = match self.next_item() {
            Some(ScriptItem::Reply(hi, lo)) => Ok((hi, lo)),
            Some(ScriptItem::Nack(e)) => Err(e),
            Some(ScriptItem::Ack) => Err(0),
            None => Err(0),
        };
        self.hist = Ghost(self.hist@.push(match r {
            Ok(d) => BusOp::Read { addr: address, reg: register, data: seq![d.0, d.1], ok: true },
            Err(_) => BusOp::Read { addr: address, reg: register, data: Seq::empty(), ok: false },
        }));
        r
    }
}

} // verus!
