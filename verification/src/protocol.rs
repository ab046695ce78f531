//! RTL2832U USB register encoding and ordered I2C access.
//!
//! A control sequence runs against a [`Com`], which holds the replies that the device has given
//! so far. Each request takes the next reply. Where no reply is left, the sequence halts with
//! [`Halt::Waiting`] and [`Com::pending`] names the request to perform. The caller performs it,
//! appends the reply and runs the sequence again from its start; the requests before it come
//! out the same.

pub mod causality;
pub mod laws;

use crate::errors::Error;
use nusb::transfer::{ControlIn, ControlOut, ControlType, Recipient, TransferError};
use vstd::prelude::*;

verus! {

/// `nusb::transfer::ControlType`. Its variants are visible.
#[verifier::external_type_specification]
pub struct ExControlType(nusb::transfer::ControlType);

/// `nusb::transfer::Recipient`. Its variants are visible.
#[verifier::external_type_specification]
pub struct ExRecipient(nusb::transfer::Recipient);

/// `nusb::transfer::ControlIn`. Its fields are visible.
#[verifier::external_type_specification]
pub struct ExControlIn(nusb::transfer::ControlIn);

/// `nusb::transfer::ControlOut`. Its fields are visible.
#[verifier::external_type_specification]
pub struct ExControlOut<'a>(nusb::transfer::ControlOut<'a>);

/// Address of the bulk endpoint that delivers samples.
pub const RX_ENDPOINT: u8 = 0x81;

/// Number of receive transfers kept in flight.
pub const TRANSFER_COUNT: usize = 8;

/// Longest time that a control transfer may take, in milliseconds.
pub fn timeout() -> (millis: u64)
    ensures
        millis == 500,
{
    500
}

/// A vendor control read.
#[derive(Clone, Copy, Debug, PartialEq, Eq, Structural)]
pub struct InRequest {
    /// Register or device address.
    pub value: u16,
    /// Register space.
    pub index: u16,
    /// Number of bytes to read.
    pub length: u16,
}

/// A vendor control write.
#[derive(Debug, PartialEq, Eq)]
pub struct OutRequest {
    /// Register or device address.
    pub value: u16,
    /// Register space, with the write flag.
    pub index: u16,
    /// Bytes to write.
    pub data: Vec<u8>,
}

/// A control transfer.
#[derive(Debug, PartialEq, Eq)]
pub enum Request {
    /// A read.
    In(InRequest),
    /// A write.
    Out(OutRequest),
}

/// What came back of a control transfer: the bytes of a read (a write has none), or its failure.
pub type Reply = core::result::Result<Vec<u8>, TransferError>;

/// Why a control sequence stopped short.
#[derive(Debug)]
pub enum Halt {
    /// It failed.
    Failed(Error),
    /// It needs the reply to a request that was not answered yet.
    Waiting,
}

/// What a control sequence comes to.
pub type Outcome<T> = core::result::Result<T, Halt>;

/// A control transfer as it goes over the wire.
pub enum Wire {
    /// A read.
    In { value: u16, index: u16, length: u16 },
    /// A write.
    Out { value: u16, index: u16, data: Seq<u8> },
}

/// The content of a [`Reply`].
pub enum Answer {
    /// The transfer succeeded and returned these bytes.
    Bytes(Seq<u8>),
    /// The transfer failed.
    Failed(TransferError),
}

/// The state of a control line: the replies given, and the requests issued, each in order.
#[verifier::ext_equal]
pub struct Line {
    /// Replies, from the first request on.
    pub replies: Seq<Answer>,
    /// Requests issued.
    pub issued: Seq<Wire>,
}

/// How a control sequence leaves the state it works on and the control line.
#[verifier::ext_equal]
pub struct Run<S, T> {
    /// The state that the sequence works on.
    pub state: S,
    /// The control line.
    pub line: Line,
    /// What the sequence came to.
    pub outcome: Outcome<T>,
}

impl View for Request {
    type V = Wire;

    open spec fn view(&self) -> Wire {
        match *self {
            Request::In(r) => Wire::In { value: r.value, index: r.index, length: r.length },
            Request::Out(r) => Wire::Out { value: r.value, index: r.index, data: r.data@ },
        }
    }
}

/// The content of a reply.
pub open spec fn answer(reply: Reply) -> Answer {
    match reply {
        Ok(bytes) => Answer::Bytes(bytes@),
        Err(error) => Answer::Failed(error),
    }
}

/// The contents of replies.
pub open spec fn answers(replies: Seq<Reply>) -> Seq<Answer> {
    replies.map_values(|reply: Reply| answer(reply))
}

/// The requests as they go over the wire.
pub open spec fn wires(requests: Seq<Request>) -> Seq<Wire> {
    requests.map_values(|request: Request| request@)
}

/// The outcome of a read with the bytes as a sequence.
pub open spec fn read_outcome(outcome: Outcome<Vec<u8>>) -> Outcome<Seq<u8>> {
    match outcome {
        Ok(bytes) => Ok(bytes@),
        Err(halt) => Err(halt),
    }
}

impl<S, T> Run<S, T> {
    /// A run that ended well.
    pub open spec fn done(state: S, line: Line, value: T) -> Self {
        Run { state, line, outcome: Ok(value) }
    }

    /// A run that failed.
    pub open spec fn failed(state: S, line: Line, error: Error) -> Self {
        Run { state, line, outcome: Err(Halt::Failed(error)) }
    }

    /// The same run, of a sequence that works on another state.
    pub open spec fn with<R>(self, state: R) -> Run<R, T> {
        Run { state, line: self.line, outcome: self.outcome }
    }

    /// The same halted run, of a sequence with another result.
    pub open spec fn halted<U>(self) -> Run<S, U> {
        Run { state: self.state, line: self.line, outcome: Err(self.outcome->Err_0) }
    }

    /// Whether the run waits for a reply.
    pub open spec fn waits(self) -> bool {
        self.outcome == Err::<T, Halt>(Halt::Waiting)
    }

    /// Whether the run started from `before`: the replies are the same, the requests issued
    /// before come first, and the run waits exactly if a request of it is not answered.
    pub open spec fn follows(self, before: Line) -> bool {
        &&& self.line.replies == before.replies
        &&& before.issued.is_prefix_of(self.line.issued)
        &&& self.line.issued.len() <= before.replies.len() + 1
        &&& self.waits() == self.line.awaits()
    }

    /// Whether a run with more replies, `other`, continues this one: it is the same run if this
    /// one was not waiting, and otherwise it issued the same requests first.
    pub open spec fn continued_by(self, other: Self) -> bool {
        if self.line.awaits() {
            self.line.issued.is_prefix_of(other.line.issued)
        } else {
            &&& self.state == other.state
            &&& self.outcome == other.outcome
            &&& self.line.extended_by(other.line)
        }
    }
}

impl Line {
    /// A line with replies, on which nothing was issued yet.
    pub open spec fn fresh(replies: Seq<Answer>) -> Line {
        Line { replies, issued: Seq::empty() }
    }

    /// Whether a request is not answered yet.
    pub open spec fn awaits(self) -> bool {
        self.issued.len() > self.replies.len()
    }

    /// Whether `more` is this line with further replies.
    pub open spec fn extended_by(self, more: Line) -> bool {
        &&& self.issued == more.issued
        &&& self.replies.is_prefix_of(more.replies)
    }

    /// Issue a request and take its reply. A line that awaits a reply issues nothing.
    pub open spec fn send(self, wire: Wire) -> Run<(), Seq<u8>> {
        if self.awaits() {
            Run { state: (), line: self, outcome: Err(Halt::Waiting) }
        } else {
            let line = Line { replies: self.replies, issued: self.issued.push(wire) };
            Run {
                state: (),
                line,
                outcome: if self.issued.len() == self.replies.len() {
                    Err(Halt::Waiting)
                } else {
                    match self.replies[self.issued.len() as int] {
                        Answer::Bytes(bytes) => Ok(bytes),
                        Answer::Failed(error) => Err(Halt::Failed(Error::Transfer(error))),
                    }
                },
            }
        }
    }

    /// Read `length` bytes. A shorter reply is a protocol error, a longer one is cut off.
    pub open spec fn read(self, value: u16, index: u16, length: u16) -> Run<(), Seq<u8>> {
        let run = self.send(Wire::In { value, index, length });
        Run {
            outcome: match run.outcome {
                Ok(bytes) => if bytes.len() < length {
                    Err(
                        Halt::Failed(
                            Error::Protocol {
                                operation: "control read",
                                reason: "short USB response",
                            },
                        ),
                    )
                } else {
                    Ok(bytes.take(length as int))
                },
                Err(halt) => Err(halt),
            },
            ..run
        }
    }

    /// Issue a write and take its acknowledgment.
    pub open spec fn put(self, value: u16, index: u16, data: Seq<u8>) -> Run<(), ()> {
        let run = self.send(Wire::Out { value, index, data });
        Run {
            state: (),
            line: run.line,
            outcome: match run.outcome {
                Ok(_) => Ok(()),
                Err(halt) => Err(halt),
            },
        }
    }

    /// Write to a register space.
    pub open spec fn write(self, value: u16, index: u16, data: Seq<u8>) -> Run<(), ()> {
        self.put(value, index | 0x10, data)
    }

    /// Write a 16-bit USB register, low byte first.
    pub open spec fn usb_u16(self, reg: u16, value: u16) -> Run<(), ()> {
        self.put(reg, 0x110, low_byte_first(value))
    }

    /// Write an 8-bit USB register.
    pub open spec fn usb_u8(self, reg: u16, value: u8) -> Run<(), ()> {
        self.write(reg, 0x100, seq![value])
    }

    /// Write a system register.
    pub open spec fn sys_write(self, reg: u16, value: u8) -> Run<(), ()> {
        self.write(reg, 0x200, seq![value])
    }

    /// Read a system register.
    pub open spec fn sys_read(self, reg: u16) -> Run<(), u8> {
        let run = self.read(reg, 0x200, 1);
        Run {
            state: (),
            line: run.line,
            outcome: match run.outcome {
                Ok(bytes) => Ok(bytes[0]),
                Err(halt) => Err(halt),
            },
        }
    }

    /// Write a demodulator register, high byte first, and synchronize with the demodulator by a
    /// read whose value does not matter.
    pub open spec fn demod(self, page: u8, reg: u8, value: u16, width: nat) -> Run<(), ()> {
        let written = self.write(
            demod_register(reg),
            page as u16,
            high_byte_first(value).skip(2 - width),
        );
        match written.outcome {
            Ok(_) => {
                let run = written.line.read(0x0120, 0x0a, 1);
                Run {
                    state: (),
                    line: run.line,
                    outcome: match run.outcome {
                        Ok(_) => Ok(()),
                        Err(halt) => Err(halt),
                    },
                }
            },
            Err(_) => written,
        }
    }

    /// Write demodulator registers in order, up to the first failure. A row holds page,
    /// register, value and width.
    pub open spec fn demod_all(self, rows: Seq<(u8, u8, u16, usize)>) -> Run<(), ()>
        decreases rows.len(),
    {
        if rows.len() == 0 {
            Run { state: (), line: self, outcome: Ok(()) }
        } else {
            let run = self.demod_all(rows.drop_last());
            match run.outcome {
                Ok(_) => {
                    let row = rows.last();
                    run.line.demod(row.0, row.1, row.2, row.3 as nat)
                },
                Err(_) => run,
            }
        }
    }

    /// Open or close the I2C repeater between the demodulator and the tuner.
    pub open spec fn i2c_gate(self, open: bool) -> Run<(), ()> {
        self.demod(1, 1, if open { 0x18 } else { 0x10 }, 1)
    }

    /// Write a register of an I2C device.
    pub open spec fn i2c_write(self, address: u8, reg: u8, value: u8) -> Run<(), ()> {
        self.write(address as u16, 0x600, seq![reg, value])
    }

    /// Read registers of an I2C device, starting at `reg`.
    pub open spec fn i2c_read(self, address: u8, reg: u8, length: u16) -> Run<(), Seq<u8>> {
        let written = self.write(address as u16, 0x600, seq![reg]);
        match written.outcome {
            Ok(_) => written.line.read(address as u16, 0x600, length),
            Err(halt) => Run { state: (), line: written.line, outcome: Err(halt) },
        }
    }

    /// Set bits of a system register.
    pub open spec fn sys_set(self, reg: u16, mask: u8) -> Run<(), ()> {
        let old = self.sys_read(reg);
        match old.outcome {
            Ok(value) => old.line.sys_write(reg, value | mask),
            Err(halt) => Run { state: (), line: old.line, outcome: Err(halt) },
        }
    }

    /// Clear bits of a system register.
    pub open spec fn sys_clear(self, reg: u16, mask: u8) -> Run<(), ()> {
        let old = self.sys_read(reg);
        match old.outcome {
            Ok(value) => old.line.sys_write(reg, value & !mask),
            Err(halt) => Run { state: (), line: old.line, outcome: Err(halt) },
        }
    }

    /// Drive a GPIO pin: set its output latch, make it an output, and enable the output, leaving
    /// the other pins as they are.
    pub open spec fn gpio(self, pin: u8, high: bool) -> Run<(), ()> {
        let mask = 1u8 << pin;
        let latch = if high {
            self.sys_set(0x3001, mask)
        } else {
            self.sys_clear(0x3001, mask)
        };
        match latch.outcome {
            Ok(_) => {
                let direction = latch.line.sys_clear(0x3004, mask);
                match direction.outcome {
                    Ok(_) => direction.line.sys_set(0x3003, mask),
                    Err(_) => direction,
                }
            },
            Err(_) => latch,
        }
    }

    /// Reset the receive endpoint, and let it run if `enabled`.
    pub open spec fn receiver(self, enabled: bool) -> Run<(), ()> {
        let reset = self.usb_u16(0x2148, 0x0210);
        match reset.outcome {
            Ok(_) => if enabled {
                reset.line.usb_u16(0x2148, 0)
            } else {
                reset
            },
            Err(_) => reset,
        }
    }
}

/// The two bytes of a value, low byte first.
pub open spec fn low_byte_first(value: u16) -> Seq<u8> {
    seq![(value % 256) as u8, (value / 256) as u8]
}

/// The two bytes of a value, high byte first.
pub open spec fn high_byte_first(value: u16) -> Seq<u8> {
    seq![(value / 256) as u8, (value % 256) as u8]
}

/// Address of a demodulator register.
pub open spec fn demod_register(reg: u8) -> u16 {
    (256 * reg + 0x20) as u16
}

impl InRequest {
    /// The request as the USB backend takes it.
    ///
    /// Some backends refuse short reads; `minimum_length` is the least they take.
    pub fn encode(&self, minimum_length: u16) -> (setup: ControlIn)
        ensures
            setup.control_type == ControlType::Vendor,
            setup.recipient == Recipient::Device,
            setup.request == 0,
            setup.value == self.value,
            setup.index == self.index,
            setup.length == vstd::math::max(self.length as int, minimum_length as int),
    {
        ControlIn {
            control_type: ControlType::Vendor,
            recipient: Recipient::Device,
            request: 0,
            value: self.value,
            index: self.index,
            length: if self.length < minimum_length {
                minimum_length
            } else {
                self.length
            },
        }
    }
}

impl Clone for OutRequest {
    fn clone(&self) -> (copy: Self)
        ensures
            copy.value == self.value,
            copy.index == self.index,
            copy.data@ == self.data@,
    {
        OutRequest { value: self.value, index: self.index, data: self.data.clone() }
    }
}

impl Clone for Request {
    fn clone(&self) -> (copy: Self)
        ensures
            copy@ == self@,
    {
        match self {
            Request::In(request) => Request::In(*request),
            Request::Out(request) => Request::Out(request.clone()),
        }
    }
}

impl OutRequest {
    /// The request as the USB backend takes it.
    pub fn encode(&self) -> (setup: ControlOut<'_>)
        ensures
            setup.control_type == ControlType::Vendor,
            setup.recipient == Recipient::Device,
            setup.request == 0,
            setup.value == self.value,
            setup.index == self.index,
            setup.data@ == self.data@,
    {
        ControlOut {
            control_type: ControlType::Vendor,
            recipient: Recipient::Device,
            request: 0,
            value: self.value,
            index: self.index,
            data: self.data.as_slice(),
        }
    }

    /// A write of a 16-bit USB register.
    pub fn usb_u16(reg: u16, value: u16) -> (request: OutRequest)
        ensures
            request.value == reg,
            request.index == 0x110,
            request.data@ == low_byte_first(value),
    {
        let data: Vec<u8> = vec![(value % 256) as u8, (value / 256) as u8];
        assert(data@ =~= low_byte_first(value));
        OutRequest { value: reg, index: 0x110, data }
    }
}

/// A control sequence in progress: the replies given so far, and the requests issued.
#[derive(Debug)]
pub struct Com<'a> {
    replies: &'a Vec<Reply>,
    issued: Vec<Request>,
}

impl<'a> View for Com<'a> {
    type V = Line;

    closed spec fn view(&self) -> Line {
        Line { replies: answers(self.replies@), issued: wires(self.issued@) }
    }
}

impl<'a> Com<'a> {
    /// Start a control sequence over with the replies given so far.
    pub fn new(replies: &'a Vec<Reply>) -> (com: Com<'a>)
        ensures
            com@ == Line::fresh(answers(replies@)),
    {
        let com = Com { replies, issued: Vec::new() };
        assert(com@.issued =~= Seq::<Wire>::empty());
        com
    }

    /// The request that is not answered yet, if any.
    pub fn pending(&self) -> (request: Option<&Request>)
        ensures
            match request {
                Some(request) => self@.awaits() && request@
                    == self@.issued[self@.replies.len() as int],
                None => !self@.awaits(),
            },
    {
        if self.issued.len() > self.replies.len() {
            Some(&self.issued[self.replies.len()])
        } else {
            None
        }
    }

    /// Issue a request and take its reply.
    fn send(&mut self, request: Request) -> (outcome: Outcome<Vec<u8>>)
        ensures
            final(self)@ == old(self)@.send(request@).line,
            read_outcome(outcome) == old(self)@.send(request@).outcome,
    {
        let next: usize = self.issued.len();
        if next > self.replies.len() {
            return Err(Halt::Waiting);
        }
        let ghost wire = request@;
        self.issued.push(request);
        assert(self@.issued =~= old(self)@.issued.push(wire));
        if next == self.replies.len() {
            return Err(Halt::Waiting);
        }
        match &self.replies[next] {
            Ok(bytes) => {
                let bytes: Vec<u8> = bytes.clone();
                Ok(bytes)
            },
            Err(error) => Err(Halt::Failed(Error::Transfer(*error))),
        }
    }

    /// Read exactly `length` bytes.
    fn read(&mut self, value: u16, index: u16, length: u16) -> (outcome: Outcome<Vec<u8>>)
        ensures
            final(self)@ == old(self)@.read(value, index, length).line,
            read_outcome(outcome) == old(self)@.read(value, index, length).outcome,
    {
        let mut bytes: Vec<u8> = self.send(Request::In(InRequest { value, index, length }))?;
        if bytes.len() < length as usize {
            return Err(Halt::Failed(Error::protocol("control read", "short USB response")));
        }
        bytes.truncate(length as usize);
        Ok(bytes)
    }

    /// Issue a write as it is.
    fn put(&mut self, request: OutRequest) -> (outcome: Outcome<()>)
        ensures
            final(self)@ == old(self)@.put(request.value, request.index, request.data@).line,
            outcome == old(self)@.put(request.value, request.index, request.data@).outcome,
    {
        match self.send(Request::Out(request)) {
            Ok(_) => Ok(()),
            Err(halt) => Err(halt),
        }
    }

    /// Write to a register space.
    fn write(&mut self, value: u16, index: u16, data: Vec<u8>) -> (outcome: Outcome<()>)
        ensures
            final(self)@ == old(self)@.write(value, index, data@).line,
            outcome == old(self)@.write(value, index, data@).outcome,
    {
        self.put(OutRequest { value, index: index | 0x10, data })
    }

    /// Write an 8-bit USB register.
    pub fn usb_u8(&mut self, reg: u16, value: u8) -> (outcome: Outcome<()>)
        ensures
            final(self)@ == old(self)@.usb_u8(reg, value).line,
            outcome == old(self)@.usb_u8(reg, value).outcome,
    {
        let data: Vec<u8> = vec![value];
        assert(data@ =~= seq![value]);
        self.write(reg, 0x100, data)
    }

    /// Write a 16-bit USB register, low byte first.
    pub fn usb_u16(&mut self, reg: u16, value: u16) -> (outcome: Outcome<()>)
        ensures
            final(self)@ == old(self)@.usb_u16(reg, value).line,
            outcome == old(self)@.usb_u16(reg, value).outcome,
    {
        self.put(OutRequest::usb_u16(reg, value))
    }

    /// Write a system register.
    pub fn sys_write(&mut self, reg: u16, value: u8) -> (outcome: Outcome<()>)
        ensures
            final(self)@ == old(self)@.sys_write(reg, value).line,
            outcome == old(self)@.sys_write(reg, value).outcome,
    {
        let data: Vec<u8> = vec![value];
        assert(data@ =~= seq![value]);
        self.write(reg, 0x200, data)
    }

    /// Read a system register.
    pub fn sys_read(&mut self, reg: u16) -> (outcome: Outcome<u8>)
        ensures
            final(self)@ == old(self)@.sys_read(reg).line,
            outcome == old(self)@.sys_read(reg).outcome,
    {
        let bytes: Vec<u8> = self.read(reg, 0x200, 1)?;
        Ok(bytes[0])
    }

    /// Write the low `width` bytes of a demodulator register, high byte first, and synchronize
    /// with the demodulator.
    pub fn demod(&mut self, page: u8, reg: u8, value: u16, width: usize) -> (outcome: Outcome<()>)
        requires
            width <= 2,
        ensures
            final(self)@ == old(self)@.demod(page, reg, value, width as nat).line,
            outcome == old(self)@.demod(page, reg, value, width as nat).outcome,
    {
        let mut data: Vec<u8> = Vec::new();
        if width == 2 {
            data.push((value / 256) as u8);
        }
        if width >= 1 {
            data.push((value % 256) as u8);
        }
        assert(data@ =~= high_byte_first(value).skip(2 - width));
        self.write(256 * (reg as u16) + 0x20, page as u16, data)?;
        // Required demodulator write synchronization, not a value readback.
        self.read(0x0120, 0x0a, 1)?;
        Ok(())
    }

    /// Write demodulator registers in order, up to the first failure.
    pub fn demod_all(&mut self, rows: &[(u8, u8, u16, usize)]) -> (outcome: Outcome<()>)
        requires
            forall|i: int| 0 <= i < rows@.len() ==> (#[trigger] rows@[i]).3 <= 2,
        ensures
            final(self)@ == old(self)@.demod_all(rows@).line,
            outcome == old(self)@.demod_all(rows@).outcome,
    {
        let ghost start = self@;
        assert(rows@.take(0) =~= Seq::empty());
        let mut i: usize = 0;
        while i < rows.len()
            invariant
                start == old(self)@,
                i <= rows@.len(),
                forall|k: int| 0 <= k < rows@.len() ==> (#[trigger] rows@[k]).3 <= 2,
                self@ == start.demod_all(rows@.take(i as int)).line,
                start.demod_all(rows@.take(i as int)).outcome == Ok::<(), Halt>(()),
            decreases rows@.len() - i,
        {
            proof {
                lemma_demod_all_step(start, rows@, i as int);
            }
            let (page, reg, value, width) = rows[i];
            let step = self.demod(page, reg, value, width);
            if step.is_err() {
                proof {
                    lemma_demod_all_stuck(start, rows@, i + 1);
                }
                return step;
            }
            i = i + 1;
        }
        assert(rows@.take(rows@.len() as int) =~= rows@);
        Ok(())
    }

    /// Open or close the I2C repeater between the demodulator and the tuner.
    pub fn i2c_gate(&mut self, open: bool) -> (outcome: Outcome<()>)
        ensures
            final(self)@ == old(self)@.i2c_gate(open).line,
            outcome == old(self)@.i2c_gate(open).outcome,
    {
        self.demod(1, 1, if open { 0x18 } else { 0x10 }, 1)
    }

    /// Write a register of an I2C device.
    pub fn i2c_write(&mut self, address: u8, reg: u8, value: u8) -> (outcome: Outcome<()>)
        ensures
            final(self)@ == old(self)@.i2c_write(address, reg, value).line,
            outcome == old(self)@.i2c_write(address, reg, value).outcome,
    {
        let data: Vec<u8> = vec![reg, value];
        assert(data@ =~= seq![reg, value]);
        self.write(address as u16, 0x600, data)
    }

    /// Read registers of an I2C device, starting at `reg`.
    pub fn i2c_read(&mut self, address: u8, reg: u8, length: u16) -> (outcome: Outcome<Vec<u8>>)
        ensures
            final(self)@ == old(self)@.i2c_read(address, reg, length).line,
            read_outcome(outcome) == old(self)@.i2c_read(address, reg, length).outcome,
    {
        let data: Vec<u8> = vec![reg];
        assert(data@ =~= seq![reg]);
        self.write(address as u16, 0x600, data)?;
        self.read(address as u16, 0x600, length)
    }

    /// Drive a GPIO pin without changing the other pins.
    pub fn gpio(&mut self, pin: u8, high: bool) -> (outcome: Outcome<()>)
        requires
            pin < 8,
        ensures
            final(self)@ == old(self)@.gpio(pin, high).line,
            outcome == old(self)@.gpio(pin, high).outcome,
    {
        let mask: u8 = 1u8 << pin;
        let latch: u8 = self.sys_read(0x3001)?;
        self.sys_write(0x3001, if high { latch | mask } else { latch & !mask })?;
        let direction: u8 = self.sys_read(0x3004)?;
        self.sys_write(0x3004, direction & !mask)?;
        let output: u8 = self.sys_read(0x3003)?;
        self.sys_write(0x3003, output | mask)
    }

    /// Reset the receive endpoint, and let it run if `enabled`.
    pub fn receiver(&mut self, enabled: bool) -> (outcome: Outcome<()>)
        ensures
            final(self)@ == old(self)@.receiver(enabled).line,
            outcome == old(self)@.receiver(enabled).outcome,
    {
        self.usb_u16(0x2148, 0x0210)?;
        if enabled {
            self.usb_u16(0x2148, 0)?;
        }
        Ok(())
    }
}

proof fn lemma_demod_all_step(line: Line, rows: Seq<(u8, u8, u16, usize)>, i: int)
    requires
        0 <= i < rows.len(),
        line.demod_all(rows.take(i)).outcome == Ok::<(), Halt>(()),
    ensures
        line.demod_all(rows.take(i + 1)) == line.demod_all(rows.take(i)).line.demod(
            rows[i].0,
            rows[i].1,
            rows[i].2,
            rows[i].3 as nat,
        ),
{
    assert(rows.take(i + 1).drop_last() =~= rows.take(i));
}

proof fn lemma_demod_all_stuck(line: Line, rows: Seq<(u8, u8, u16, usize)>, i: int)
    requires
        0 <= i <= rows.len(),
        line.demod_all(rows.take(i)).outcome is Err,
    ensures
        line.demod_all(rows) == line.demod_all(rows.take(i)),
    decreases rows.len() - i,
{
    if i < rows.len() {
        assert(rows.take(i + 1).drop_last() =~= rows.take(i));
        lemma_demod_all_stuck(line, rows, i + 1);
    } else {
        assert(rows.take(i) =~= rows);
    }
}

} // verus!
