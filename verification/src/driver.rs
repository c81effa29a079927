//! The driver for one modem: its buffers, the command in flight, and the
//! steps of a request/reply cycle.

use crate::buffers::{
    command_buffer_clear, command_buffer_extend, command_buffer_new, command_buffer_slice,
    command_bytes, reply_buffer_clear, reply_buffer_new, reply_buffer_push, reply_buffer_slice,
    reply_bytes, COMMAND_CAPACITY,
};
use crate::commands::{Command, CARRIAGE_RETURN, LINE_FEED};
use crate::protocol::{
    outcome_view, parse, Action, DriverView, Event, Phase, MAX_REPLY_LENGTH, MIN_REPLY_LENGTH,
};
use crate::responses::{decode, Reply};
use crate::utils::{CodecError, CommandWriter, Error, ToPayload};
use arrayvec::ArrayVec;
use vstd::prelude::*;

verus! {

/// Represents a LoRa-E5 device connected to a U(S)ART.
///
/// The driver decides; the caller moves the bytes. `send_command` begins a
/// cycle and hands out the first `Action`; the caller performs it on the
/// serial line and reports with `advance`, which hands out the next, until
/// `Action::Done` carries the reply or the error.
#[derive(Debug)]
pub struct LoRaE5 {
    received: ArrayVec<u8, 1024>,
    cmd_buffer: ArrayVec<u8, 128>,
    inflight_request: Option<Command>,
    phase: Phase,
}

impl View for LoRaE5 {
    type V = DriverView;

    closed spec fn view(&self) -> DriverView {
        DriverView {
            phase: self.phase,
            outgoing: command_bytes(self.cmd_buffer),
            incoming: reply_bytes(self.received),
            in_flight: self.inflight_request,
        }
    }
}

/// The driver is the sink its commands are encoded into: what is written
/// goes onto the end of the outgoing buffer.
impl CommandWriter for LoRaE5 {
    open spec fn written(&self) -> Seq<u8> {
        self@.outgoing
    }

    open spec fn room(&self) -> nat {
        (COMMAND_CAPACITY - self@.outgoing.len()) as nat
    }

    /// Of a driver, a write changes the outgoing buffer alone: the phase,
    /// the incoming buffer and the command in flight stay as they were.
    open spec fn wrote_only(&self, before: &Self) -> bool {
        self@ == before@.with_outgoing(self@.outgoing)
    }

    fn write_cmd_bytes(&mut self, bytes: &[u8]) -> (r: Result<(), CodecError>)
        ensures
            final(self)@.wf(),
    {
        proof {
            use_type_invariant(&*self);
        }
        match command_buffer_extend(&mut self.cmd_buffer, bytes) {
            Ok(()) => Ok(()),
            Err(_) => Err(CodecError::CapacityExceeded),
        }
    }
}

impl LoRaE5 {
    #[verifier::type_invariant]
    spec fn well_formed(self) -> bool {
        self@.wf()
    }

    /// Creates a driver with empty buffers and no command in flight.
    pub fn new() -> (driver: Self)
        ensures
            driver@ == DriverView::fresh(),
            driver@.wf(),
    {
        Self {
            received: reply_buffer_new(),
            cmd_buffer: command_buffer_new(),
            inflight_request: None,
            phase: Phase::Idle,
        }
    }

    /// Begins a cycle for `cmd` and hands out its first action.
    ///
    /// Both buffers are emptied before anything else, so the cycle starts
    /// from `cmd` alone, whatever the driver held. The command is encoded
    /// into the outgoing buffer and recorded as in flight. Where it cannot be
    /// encoded, the cycle is over at once, with the error.
    pub fn send_command<TXE, RXE>(&mut self, cmd: Command) -> (action: Action<TXE, RXE>)
        ensures
            final(self)@ == old(self)@.begun(cmd),
            final(self)@.wf(),
            action@ == old(self)@.first_action::<TXE, RXE>(cmd),
            cmd.encoding() is None ==> action matches Action::Done(
                Err(Error::UnimplementedCommand),
            ),
    {
        proof {
            use_type_invariant(&*self);
        }
        self.phase = Phase::Idle;
        command_buffer_clear(&mut self.cmd_buffer);
        reply_buffer_clear(&mut self.received);
        match self.prepare_cmd(cmd) {
            Ok(()) => self.transmit(0),
            Err(e) => {
                self.phase = Phase::Failed;
                Action::Done(Err(e.into_error()))
            },
        }
    }

    /// Tells the driver what became of the last action, and hands out the
    /// next one.
    pub fn advance<TXE, RXE>(&mut self, event: Event<TXE, RXE>) -> (action: Action<TXE, RXE>)
        ensures
            final(self)@ == old(self)@.after(event),
            final(self)@.wf(),
            action@ == old(self)@.reaction(event),
    {
        proof {
            use_type_invariant(&*self);
        }
        match event {
            Event::WriteFailed(e) => {
                self.phase = Phase::Failed;
                Action::Done(Err(Error::WriteError(e)))
            },
            Event::ReadFailed(e) => {
                self.phase = Phase::Failed;
                Action::Done(Err(Error::ReceiveReadError(e)))
            },
            Event::Written => match self.phase {
                Phase::Transmitting { sent } => self.transmit(sent + 1),
                _ => {
                    self.phase = Phase::Failed;
                    Action::Done(Err(Error::UnsolicitedReply))
                },
            },
            Event::Flushed => match self.phase {
                Phase::Flushing => {
                    self.phase = Phase::Receiving { reads: 0 };
                    Action::Read
                },
                _ => {
                    self.phase = Phase::Failed;
                    Action::Done(Err(Error::UnsolicitedReply))
                },
            },
            Event::Received(byte) => match self.phase {
                Phase::Receiving { reads } => self.read_reply(reads, byte),
                _ => {
                    self.phase = Phase::Failed;
                    Action::Done(Err(Error::UnsolicitedReply))
                },
            },
        }
    }

    /// Decodes the accumulated reply bytes against the command in flight.
    ///
    /// With no command in flight this is always `UnsolicitedReply`. With one,
    /// fewer than five bytes are always `PacketTooShort`. What the reply
    /// starts with is not checked, so `WrongReplyType` never comes back.
    pub fn parse_reply<TXE, RXE>(&self) -> (r: Result<Reply, Error<TXE, RXE>>)
        ensures
            outcome_view(r) == parse::<TXE, RXE>(self@.incoming, self@.in_flight),
            self@.in_flight is None ==> r matches Err(Error::UnsolicitedReply),
            self@.in_flight is Some && self@.incoming.len() < MIN_REPLY_LENGTH ==> r matches Err(
                Error::PacketTooShort,
            ),
            !(r matches Err(Error::WrongReplyType)),
    {
        // We have no business reading anything if there's no request in flight
        let inflight = match &self.inflight_request {
            Some(cmd) => cmd,
            None => {
                return Err(Error::UnsolicitedReply);
            },
        };
        let received = reply_buffer_slice(&self.received);
        if received.len() < MIN_REPLY_LENGTH {
            return Err(Error::PacketTooShort);
        }
        match decode(received, inflight) {
            Ok(reply) => Ok(reply),
            Err(e) => Err(e.into_error()),
        }
    }

    /// The phase the driver is in.
    pub fn phase(&self) -> (phase: Phase)
        ensures
            phase == self@.phase,
    {
        self.phase
    }

    /// The encoded command of the current cycle.
    pub fn outgoing(&self) -> (bytes: &[u8])
        ensures
            bytes@ == self@.outgoing,
    {
        command_buffer_slice(&self.cmd_buffer)
    }

    /// The reply bytes kept so far.
    pub fn incoming(&self) -> (bytes: &[u8])
        ensures
            bytes@ == self@.incoming,
    {
        reply_buffer_slice(&self.received)
    }

    /// The command whose reply is awaited, if any.
    pub fn in_flight(&self) -> (cmd: Option<&Command>)
        ensures
            cmd matches Some(c) ==> self@.in_flight == Some(*c),
            cmd is None ==> self@.in_flight is None,
    {
        self.inflight_request.as_ref()
    }

    /// Encodes `cmd` into the emptied outgoing buffer and records it as in
    /// flight. Where it cannot be encoded, the slot is vacated instead. The
    /// incoming buffer and the phase are left as they were.
    fn prepare_cmd(&mut self, cmd: Command) -> (r: Result<(), CodecError>)
        requires
            old(self)@.outgoing == Seq::<u8>::empty(),
        ensures
            final(self)@.incoming == old(self)@.incoming,
            final(self)@.phase == old(self)@.phase,
            match r {
                Ok(()) => DriverView::fresh().encoded(cmd) == Ok::<Seq<u8>, CodecError>(
                    final(self)@.outgoing,
                ) && final(self)@.in_flight == Some(cmd),
                Err(e) => DriverView::fresh().encoded(cmd) == Err::<Seq<u8>, CodecError>(e)
                    && final(self)@.outgoing == Seq::<u8>::empty() && final(self)@.in_flight is None,
            },
    {
        let encoded = cmd.to_payload(self);
        proof {
            use_type_invariant(&*self);
            assert(encoded is Ok ==> self@.outgoing =~= cmd.encoding().unwrap());
            assert(encoded is Err ==> self@.outgoing =~= Seq::<u8>::empty());
        }
        match encoded {
            Ok(()) => {
                self.inflight_request = Some(cmd);
                Ok(())
            },
            Err(e) => {
                self.inflight_request = None;
                Err(e)
            },
        }
    }

    /// Hands out the command byte at index `sent`, or the flush once all are
    /// out.
    fn transmit<TXE, RXE>(&mut self, sent: usize) -> (action: Action<TXE, RXE>)
        requires
            old(self)@.incoming.len() == 0,
        ensures
            final(self)@ == old(self)@.in_phase(old(self)@.transmit_phase(sent as int)),
            action@ == old(self)@.transmit_action::<TXE, RXE>(sent as int),
    {
        proof {
            use_type_invariant(&*self);
        }
        let cmd_bytes = command_buffer_slice(&self.cmd_buffer);
        if sent < cmd_bytes.len() {
            let byte = cmd_bytes[sent];
            self.phase = Phase::Transmitting { sent };
            Action::Write(byte)
        } else {
            self.phase = Phase::Flushing;
            Action::Flush
        }
    }

    /// Takes one byte of the reply, the one read as number `reads + 1`.
    ///
    /// A carriage return is dropped and a line feed ends the reply; any other
    /// byte is kept. The reply also ends when `MAX_REPLY_LENGTH` bytes were
    /// read without a line feed: what was kept is then decoded as it is.
    fn read_reply<TXE, RXE>(&mut self, reads: usize, byte: u8) -> (action: Action<TXE, RXE>)
        requires
            old(self)@.phase == (Phase::Receiving { reads }),
        ensures
            final(self)@ == old(self)@.after(Event::<TXE, RXE>::Received(byte)),
            action@ == old(self)@.reaction(Event::<TXE, RXE>::Received(byte)),
    {
        proof {
            use_type_invariant(&*self);
        }
        let complete = byte == LINE_FEED || reads + 1 >= MAX_REPLY_LENGTH;
        self.phase = if complete {
            Phase::Idle
        } else {
            Phase::Receiving { reads: reads + 1 }
        };
        if byte != CARRIAGE_RETURN && byte != LINE_FEED {
            reply_buffer_push(&mut self.received, byte);
        }
        if complete {
            let outcome = self.parse_reply();
            if outcome.is_err() {
                self.phase = Phase::Failed;
            }
            Action::Done(outcome)
        } else {
            Action::Read
        }
    }
}

} // verus!
