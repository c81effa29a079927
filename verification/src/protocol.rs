//! The request/reply cycle as a state machine: what the driver holds between
//! two steps, what the serial line may report, and what the driver does next.
//!
//! Nothing here touches a serial line. The caller owns it, performs each
//! `Action` the driver hands out, and reports back with an `Event`.

use crate::commands::{Command, CARRIAGE_RETURN, LINE_FEED};
use crate::responses::{decode_reply, Reply, ReplyView};
use crate::utils::{CodecError, Error};
use vstd::prelude::*;

verus! {

/// Number of bytes read for one reply at most, carriage returns and the line
/// feed included.
pub const MAX_REPLY_LENGTH: usize = 1024;

/// Number of bytes the shortest reply has: the length of `"+AT: "`.
pub const MIN_REPLY_LENGTH: usize = 5;

/// Where a cycle stands between two steps.
///
/// Encoding and decoding each happen within one step, so no phase stands for
/// them.
#[derive(Debug, Clone, Copy, PartialEq, Eq, Structural)]
pub enum Phase {
    /// No cycle is under way; the last one, if any, returned a reply.
    Idle,
    /// The command byte at index `sent` is on its way to the line.
    Transmitting { sent: usize },
    /// Every command byte was taken; the line is being flushed.
    Flushing,
    /// The reply is coming in; `reads` bytes of it were read so far.
    Receiving { reads: usize },
    /// The last cycle ended in an error.
    Failed,
}

/// What the serial line reports of the last action.
#[derive(Debug, PartialEq, Eq)]
pub enum Event<TXE, RXE> {
    /// The byte was taken.
    Written,
    /// The flush went through.
    Flushed,
    /// A byte came in.
    Received(u8),
    /// The byte or the flush was refused.
    WriteFailed(TXE),
    /// The read failed.
    ReadFailed(RXE),
}

/// What the caller is to do next.
#[derive(Debug, PartialEq, Eq)]
pub enum Action<TXE, RXE> {
    /// Write this byte to the line, waiting until it is taken.
    Write(u8),
    /// Flush the line, waiting until it is drained.
    Flush,
    /// Read one byte from the line, waiting until there is one.
    Read,
    /// Nothing more: the cycle is over, with this outcome.
    Done(Result<Reply, Error<TXE, RXE>>),
}

/// An `Action`, with the reply in it taken by what it says.
pub enum ActionView<TXE, RXE> {
    Write(u8),
    Flush,
    Read,
    Done(Result<ReplyView, Error<TXE, RXE>>),
}

/// The outcome of a cycle, with the reply in it taken by what it says.
pub open spec fn outcome_view<TXE, RXE>(outcome: Result<Reply, Error<TXE, RXE>>) -> Result<
    ReplyView,
    Error<TXE, RXE>,
> {
    match outcome {
        Ok(reply) => Ok(reply@),
        Err(e) => Err(e),
    }
}

impl<TXE, RXE> View for Action<TXE, RXE> {
    type V = ActionView<TXE, RXE>;

    open spec fn view(&self) -> ActionView<TXE, RXE> {
        match *self {
            Action::Write(byte) => ActionView::Write(byte),
            Action::Flush => ActionView::Flush,
            Action::Read => ActionView::Read,
            Action::Done(outcome) => ActionView::Done(outcome_view(outcome)),
        }
    }
}

/// What the accumulated reply bytes decode to, given the command in flight.
///
/// With no command in flight the reply is unsolicited. With one, a reply of
/// fewer than `MIN_REPLY_LENGTH` bytes is too short, whatever the command.
/// Only then does the command choose the decoder. What the reply starts with
/// is not looked at.
pub open spec fn parse<TXE, RXE>(incoming: Seq<u8>, in_flight: Option<Command>) -> Result<
    ReplyView,
    Error<TXE, RXE>,
> {
    match in_flight {
        None => Err(Error::UnsolicitedReply),
        Some(cmd) => if incoming.len() < MIN_REPLY_LENGTH {
            Err(Error::PacketTooShort)
        } else {
            match decode_reply(incoming, cmd) {
                Ok(reply) => Ok(reply),
                Err(e) => Err(e.lift()),
            }
        },
    }
}

/// What is kept of the bytes of a reply line: all but the carriage returns.
pub open spec fn kept(line: Seq<u8>) -> Seq<u8> {
    line.filter(|byte: u8| byte != CARRIAGE_RETURN)
}

/// The events of `count` bytes taken by the line, one after the other.
pub open spec fn written<TXE, RXE>(count: nat) -> Seq<Event<TXE, RXE>> {
    Seq::new(count, |i: int| Event::Written)
}

/// The events of `bytes` coming in from the line, one after the other.
pub open spec fn received<TXE, RXE>(bytes: Seq<u8>) -> Seq<Event<TXE, RXE>> {
    bytes.map_values(|byte: u8| Event::Received(byte))
}

/// What the driver holds between two steps.
pub struct DriverView {
    pub phase: Phase,
    /// The encoded command of this cycle.
    pub outgoing: Seq<u8>,
    /// The reply bytes kept so far.
    pub incoming: Seq<u8>,
    /// The command whose reply is awaited.
    pub in_flight: Option<Command>,
}

impl DriverView {
    /// The buffers are within their capacities; while the command goes out,
    /// a byte of it is due and no reply byte is held; while the reply comes
    /// in, the budget is not used up and no more bytes are held than were
    /// read.
    pub open spec fn wf(self) -> bool {
        &&& self.outgoing.len() <= crate::buffers::COMMAND_CAPACITY
        &&& self.incoming.len() <= crate::buffers::REPLY_CAPACITY
        &&& match self.phase {
            Phase::Transmitting { sent } => sent < self.outgoing.len() && self.incoming.len() == 0,
            Phase::Flushing => self.incoming.len() == 0,
            Phase::Receiving { reads } => reads < MAX_REPLY_LENGTH && self.incoming.len() <= reads,
            _ => true,
        }
    }

    /// A driver that has not sent anything yet.
    pub open spec fn fresh() -> DriverView {
        DriverView {
            phase: Phase::Idle,
            outgoing: Seq::empty(),
            incoming: Seq::empty(),
            in_flight: None,
        }
    }

    /// The same buffers and command, in another phase.
    pub open spec fn in_phase(self, phase: Phase) -> DriverView {
        DriverView {
            phase,
            outgoing: self.outgoing,
            incoming: self.incoming,
            in_flight: self.in_flight,
        }
    }

    /// The same driver with other command bytes.
    pub open spec fn with_outgoing(self, outgoing: Seq<u8>) -> DriverView {
        DriverView {
            phase: self.phase,
            outgoing,
            incoming: self.incoming,
            in_flight: self.in_flight,
        }
    }

    /// The same driver with other reply bytes.
    pub open spec fn with_incoming(self, incoming: Seq<u8>) -> DriverView {
        DriverView {
            phase: self.phase,
            outgoing: self.outgoing,
            incoming,
            in_flight: self.in_flight,
        }
    }

    /// The phase once `sent` command bytes were taken: the next byte is due,
    /// or, after the last, the flush.
    pub open spec fn transmit_phase(self, sent: int) -> Phase {
        if 0 <= sent < self.outgoing.len() {
            Phase::Transmitting { sent: sent as usize }
        } else {
            Phase::Flushing
        }
    }

    /// The action once `sent` command bytes were taken.
    pub open spec fn transmit_action<TXE, RXE>(self, sent: int) -> ActionView<TXE, RXE> {
        if 0 <= sent < self.outgoing.len() {
            ActionView::Write(self.outgoing[sent])
        } else {
            ActionView::Flush
        }
    }

    /// The driver once both buffers are emptied and the slot for the command
    /// in flight is vacated: the first thing every cycle does.
    pub open spec fn cleared(self) -> DriverView {
        Self::fresh()
    }

    /// The driver once `cmd` is encoded onto the end of the outgoing buffer
    /// and recorded as in flight: ready to send the first byte, or, where
    /// encoding failed, failed with the outgoing buffer as it was and no
    /// command in flight.
    pub open spec fn loaded(self, cmd: Command) -> DriverView {
        match self.encoded(cmd) {
            Ok(line) => {
                let held = DriverView {
                    phase: self.phase,
                    outgoing: self.outgoing + line,
                    incoming: self.incoming,
                    in_flight: Some(cmd),
                };
                held.in_phase(held.transmit_phase(0))
            },
            Err(_) => DriverView {
                phase: Phase::Failed,
                outgoing: self.outgoing,
                incoming: self.incoming,
                in_flight: None,
            },
        }
    }

    /// The line of `cmd` where it has one and the line fits into what is left
    /// of the outgoing buffer, else the reason why nothing is sent.
    pub open spec fn encoded(self, cmd: Command) -> Result<Seq<u8>, CodecError> {
        match cmd.encoding() {
            None => Err(CodecError::UnimplementedCommand),
            Some(line) => if self.outgoing.len() + line.len() <= crate::buffers::COMMAND_CAPACITY {
                Ok(line)
            } else {
                Err(CodecError::CapacityExceeded)
            },
        }
    }

    /// The driver once a cycle for `cmd` has begun.
    pub open spec fn begun(self, cmd: Command) -> DriverView {
        self.cleared().loaded(cmd)
    }

    /// The first action of a cycle for `cmd`: the first byte of its line, or
    /// the error that ends the cycle at once.
    pub open spec fn first_action<TXE, RXE>(self, cmd: Command) -> ActionView<TXE, RXE> {
        match self.cleared().encoded(cmd) {
            Ok(_) => self.begun(cmd).transmit_action(0),
            Err(e) => ActionView::Done(Err(e.lift())),
        }
    }

    /// The driver once the reply is complete: idle again where the reply
    /// decodes, failed where it does not.
    pub open spec fn finished(self) -> DriverView {
        if parse::<(), ()>(self.incoming, self.in_flight) is Ok {
            self.in_phase(Phase::Idle)
        } else {
            self.in_phase(Phase::Failed)
        }
    }

    /// The reply bytes once `byte` has come in: a carriage return is dropped,
    /// a line feed ends the reply and is not kept, any other byte is kept.
    pub open spec fn taken(self, byte: u8) -> Seq<u8> {
        if byte == CARRIAGE_RETURN || byte == LINE_FEED {
            self.incoming
        } else {
            self.incoming.push(byte)
        }
    }

    /// Whether the reply is complete once `byte` has come in as read number
    /// `reads + 1`: at a line feed, or when the budget is used up.
    pub open spec fn complete(reads: int, byte: u8) -> bool {
        byte == LINE_FEED || reads + 1 >= MAX_REPLY_LENGTH
    }

    /// The driver after `event`.
    ///
    /// A failure of the line ends the cycle wherever it stands. An event that
    /// does not answer the last action ends it too.
    pub open spec fn after<TXE, RXE>(self, event: Event<TXE, RXE>) -> DriverView {
        match (event, self.phase) {
            (Event::Written, Phase::Transmitting { sent }) => self.in_phase(
                self.transmit_phase(sent + 1),
            ),
            (Event::Flushed, Phase::Flushing) => self.in_phase(Phase::Receiving { reads: 0 }),
            (Event::Received(byte), Phase::Receiving { reads }) => {
                let kept = self.with_incoming(self.taken(byte));
                if Self::complete(reads as int, byte) {
                    kept.finished()
                } else {
                    kept.in_phase(Phase::Receiving { reads: (reads + 1) as usize })
                }
            },
            _ => self.in_phase(Phase::Failed),
        }
    }

    /// The driver after each of `events` in turn.
    pub open spec fn after_all<TXE, RXE>(self, events: Seq<Event<TXE, RXE>>) -> DriverView
        decreases events.len(),
    {
        if events.len() == 0 {
            self
        } else {
            self.after_all(events.drop_last()).after(events.last())
        }
    }

    /// The action the driver hands out after `event`.
    pub open spec fn reaction<TXE, RXE>(self, event: Event<TXE, RXE>) -> ActionView<TXE, RXE> {
        match (event, self.phase) {
            (Event::WriteFailed(e), _) => ActionView::Done(Err(Error::WriteError(e))),
            (Event::ReadFailed(e), _) => ActionView::Done(Err(Error::ReceiveReadError(e))),
            (Event::Written, Phase::Transmitting { sent }) => self.transmit_action(sent + 1),
            (Event::Flushed, Phase::Flushing) => ActionView::Read,
            (Event::Received(byte), Phase::Receiving { reads }) => {
                if Self::complete(reads as int, byte) {
                    ActionView::Done(parse(self.taken(byte), self.in_flight))
                } else {
                    ActionView::Read
                }
            },
            _ => ActionView::Done(Err(Error::UnsolicitedReply)),
        }
    }
}

} // verus!
