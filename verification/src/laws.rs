//! What holds of the protocol whatever the bytes and whatever the line does.

use crate::buffers::COMMAND_CAPACITY;
use crate::commands::{Command, LINE_FEED};
use crate::commands::CARRIAGE_RETURN;
use crate::protocol::{
    kept, parse, received, written, ActionView, DriverView, Event, Phase, MAX_REPLY_LENGTH,
    MIN_REPLY_LENGTH,
};
use crate::responses::decode_reply;
use crate::utils::{CodecError, Error};
use vstd::prelude::*;

verus! {

/// Every line a command encodes to ends in a line feed, holds no other line
/// feed, and fits the outgoing buffer.
pub proof fn lemma_line_is_terminated_once(cmd: Command)
    ensures
        cmd.encoding() matches Some(line) ==> {
            &&& 0 < line.len() <= COMMAND_CAPACITY
            &&& line.last() == LINE_FEED
            &&& forall|i: int| 0 <= i < line.len() - 1 ==> line[i] != LINE_FEED
        },
{
}

/// A reply of fewer than five bytes is too short, whichever command is in
/// flight.
pub proof fn lemma_short_reply_is_too_short<TXE, RXE>(incoming: Seq<u8>, cmd: Command)
    requires
        incoming.len() < MIN_REPLY_LENGTH,
    ensures
        parse::<TXE, RXE>(incoming, Some(cmd)) matches Err(Error::PacketTooShort),
{
}

/// With no command in flight, decoding never gives a reply: whatever the
/// bytes, it fails as unsolicited.
pub proof fn lemma_reply_without_command_is_unsolicited<TXE, RXE>(incoming: Seq<u8>)
    ensures
        parse::<TXE, RXE>(incoming, None) matches Err(Error::UnsolicitedReply),
{
}

/// Decoding never reports a wrong reply type: what a reply starts with is not
/// looked at.
pub proof fn lemma_prefix_is_not_checked<TXE, RXE>(incoming: Seq<u8>, in_flight: Option<Command>)
    ensures
        !(parse::<TXE, RXE>(incoming, in_flight) matches Err(Error::WrongReplyType)),
{
}

/// Once a cycle has cleared the driver, both buffers are empty and no command
/// is in flight, whatever the driver held before.
pub proof fn lemma_cleared_driver_holds_nothing(before: DriverView)
    ensures
        before.cleared().outgoing == Seq::<u8>::empty(),
        before.cleared().incoming == Seq::<u8>::empty(),
        before.cleared().in_flight is None,
{
}

/// A cycle starts from its command alone. Two drivers that begin a cycle for
/// the same command are the same afterwards and hand out the same action,
/// whatever either held from earlier cycles; the outgoing buffer then holds
/// the command's line and nothing else, and the incoming buffer nothing.
pub proof fn lemma_nothing_leaks_into_a_cycle<TXE, RXE>(
    first: DriverView,
    second: DriverView,
    cmd: Command,
)
    ensures
        first.begun(cmd) == second.begun(cmd),
        first.first_action::<TXE, RXE>(cmd) == second.first_action::<TXE, RXE>(cmd),
        first.begun(cmd).incoming == Seq::<u8>::empty(),
        first.begun(cmd).outgoing == match cmd.encoding() {
            Some(line) => line,
            None => Seq::<u8>::empty(),
        },
{
    lemma_line_is_terminated_once(cmd);
    assert(first.begun(cmd).outgoing =~= match cmd.encoding() {
        Some(line) => line,
        None => Seq::<u8>::empty(),
    });
}

/// A command without a wire form is refused with `UnimplementedCommand`, not
/// sent: the cycle is over at its first step and the driver has failed.
pub proof fn lemma_unmapped_command_is_not_sent<TXE, RXE>(before: DriverView, cmd: Command)
    requires
        cmd.encoding() is None,
    ensures
        before.first_action::<TXE, RXE>(cmd) == ActionView::<TXE, RXE>::Done(
            Err(Error::UnimplementedCommand),
        ),
        before.begun(cmd).phase == Phase::Failed,
        before.begun(cmd).in_flight is None,
{
}

/// A reply to a command without a wire form is refused with
/// `UnimplementedCommand`, whatever its bytes; the driver reports the same
/// once the reply has the minimum length.
pub proof fn lemma_unmapped_command_is_not_decoded<TXE, RXE>(raw: Seq<u8>, cmd: Command)
    requires
        cmd.encoding() is None,
    ensures
        decode_reply(raw, cmd) matches Err(CodecError::UnimplementedCommand),
        raw.len() >= MIN_REPLY_LENGTH ==> parse::<TXE, RXE>(raw, Some(cmd)) matches Err(
            Error::UnimplementedCommand,
        ),
{
}

/// No step takes a well-formed driver out of well-formedness.
pub proof fn lemma_steps_keep_well_formed<TXE, RXE>(
    before: DriverView,
    cmd: Command,
    event: Event<TXE, RXE>,
)
    ensures
        before.begun(cmd).wf(),
        before.wf() ==> before.after(event).wf(),
{
    lemma_line_is_terminated_once(cmd);
}

/// The phases follow one another in one order. A cycle begins with
/// transmitting, or fails at once. A step leaves the driver transmitting only
/// if it was transmitting, flushing only if it was transmitting, receiving
/// only if it was flushing or receiving, and idle only if it was receiving.
pub proof fn lemma_phases_follow_in_order<TXE, RXE>(
    before: DriverView,
    cmd: Command,
    event: Event<TXE, RXE>,
)
    ensures
        before.begun(cmd).phase is Transmitting || before.begun(cmd).phase is Failed,
        before.after(event).phase is Transmitting ==> before.phase is Transmitting,
        before.after(event).phase is Flushing ==> before.phase is Transmitting,
        before.after(event).phase is Receiving ==> before.phase is Flushing
            || before.phase is Receiving,
        before.after(event).phase is Idle ==> before.phase is Receiving,
{
    lemma_line_is_terminated_once(cmd);
}

/// A failure of the line ends the cycle wherever it stands, and the error
/// that comes back wraps the line's own.
pub proof fn lemma_line_failure_ends_the_cycle<TXE, RXE>(before: DriverView, tx: TXE, rx: RXE)
    ensures
        before.after(Event::<TXE, RXE>::WriteFailed(tx)).phase == Phase::Failed,
        before.reaction(Event::<TXE, RXE>::WriteFailed(tx)) == ActionView::<TXE, RXE>::Done(
            Err(Error::WriteError(tx)),
        ),
        before.after(Event::<TXE, RXE>::ReadFailed(rx)).phase == Phase::Failed,
        before.reaction(Event::<TXE, RXE>::ReadFailed(rx)) == ActionView::<TXE, RXE>::Done(
            Err(Error::ReceiveReadError(rx)),
        ),
{
}

/// Going through two runs of events one after the other is going through
/// them as one run.
pub proof fn lemma_events_in_turn<TXE, RXE>(
    start: DriverView,
    first: Seq<Event<TXE, RXE>>,
    second: Seq<Event<TXE, RXE>>,
)
    ensures
        start.after_all(first + second) == start.after_all(first).after_all(second),
    decreases second.len(),
{
    if second.len() == 0 {
        assert(first + second =~= first);
    } else {
        assert((first + second).drop_last() =~= first + second.drop_last());
        lemma_events_in_turn(start, first, second.drop_last());
    }
}

/// The command goes out byte by byte, in order, and is followed by one flush.
///
/// Once a cycle for a command with a wire form has begun and `taken` bytes
/// were taken by the line, the driver waits for the byte at index `taken`;
/// when that one is taken too, it hands out the byte after it, or, after the
/// last byte, the flush. The first byte is the cycle's first action.
pub proof fn lemma_command_goes_out_in_order<TXE, RXE>(
    before: DriverView,
    cmd: Command,
    taken: nat,
)
    requires
        cmd.encoding() is Some,
        taken < cmd.encoding().unwrap().len(),
    ensures
        ({
            let line = cmd.encoding().unwrap();
            let waiting = before.begun(cmd).after_all(written::<TXE, RXE>(taken));
            &&& before.first_action::<TXE, RXE>(cmd) == ActionView::<TXE, RXE>::Write(line[0])
            &&& waiting == before.begun(cmd).in_phase(Phase::Transmitting { sent: taken as usize })
            &&& waiting.outgoing == line
            &&& waiting.reaction(Event::<TXE, RXE>::Written) == if taken + 1 < line.len() {
                ActionView::<TXE, RXE>::Write(line[taken as int + 1])
            } else {
                ActionView::<TXE, RXE>::Flush
            }
        }),
    decreases taken,
{
    lemma_nothing_leaks_into_a_cycle::<TXE, RXE>(before, before, cmd);
    lemma_line_is_terminated_once(cmd);
    let begun = before.begun(cmd);
    if taken == 0 {
        assert(written::<TXE, RXE>(0).len() == 0);
        assert(begun.in_phase(Phase::Transmitting { sent: 0 }) == begun);
    } else {
        let fewer = (taken - 1) as nat;
        lemma_command_goes_out_in_order::<TXE, RXE>(before, cmd, fewer);
        assert(written::<TXE, RXE>(taken).drop_last() =~= written::<TXE, RXE>(fewer));
        assert(written::<TXE, RXE>(taken).last() == Event::<TXE, RXE>::Written);
    }
}

/// After the last byte of the command the line is flushed, and after the
/// flush the driver reads, with nothing kept yet and the whole budget left.
pub proof fn lemma_flush_follows_the_command<TXE, RXE>(before: DriverView, cmd: Command)
    requires
        cmd.encoding() is Some,
    ensures
        ({
            let line = cmd.encoding().unwrap();
            let sent = before.begun(cmd).after_all(written::<TXE, RXE>(line.len()));
            &&& sent == before.begun(cmd).in_phase(Phase::Flushing)
            &&& sent.reaction(Event::<TXE, RXE>::Flushed) == ActionView::<TXE, RXE>::Read
            &&& sent.after(Event::<TXE, RXE>::Flushed) == before.begun(cmd).in_phase(
                Phase::Receiving { reads: 0 },
            )
        }),
{
    lemma_line_is_terminated_once(cmd);
    let line = cmd.encoding().unwrap();
    let fewer = (line.len() - 1) as nat;
    lemma_command_goes_out_in_order::<TXE, RXE>(before, cmd, fewer);
    assert(written::<TXE, RXE>(line.len()).drop_last() =~= written::<TXE, RXE>(fewer));
    assert(written::<TXE, RXE>(line.len()).last() == Event::<TXE, RXE>::Written);
}

/// While the reply comes in, the driver keeps every byte but the carriage
/// returns, in order, and goes on reading.
///
/// This holds of any bytes without a line feed, as long as they are fewer
/// than the budget.
pub proof fn lemma_reply_is_kept_without_carriage_returns<TXE, RXE>(
    start: DriverView,
    bytes: Seq<u8>,
)
    requires
        start.wf(),
        start.phase == (Phase::Receiving { reads: 0 }),
        bytes.len() < MAX_REPLY_LENGTH,
        forall|i: int| 0 <= i < bytes.len() ==> bytes[i] != LINE_FEED,
    ensures
        start.after_all(received::<TXE, RXE>(bytes)) == start.with_incoming(kept(bytes)).in_phase(
            Phase::Receiving { reads: bytes.len() as usize },
        ),
        kept(bytes).len() <= bytes.len(),
        bytes.len() > 0 ==> start.after_all(received::<TXE, RXE>(bytes.drop_last())).reaction(
            Event::<TXE, RXE>::Received(bytes.last()),
        ) == ActionView::<TXE, RXE>::Read,
    decreases bytes.len(),
{
    reveal(Seq::filter);
    let keep = |byte: u8| byte != CARRIAGE_RETURN;
    if bytes.len() == 0 {
        assert(start.incoming =~= Seq::<u8>::empty());
        assert(received::<TXE, RXE>(bytes).len() == 0);
        assert(kept(bytes) =~= Seq::<u8>::empty());
    } else {
        let earlier = bytes.drop_last();
        lemma_reply_is_kept_without_carriage_returns::<TXE, RXE>(start, earlier);
        assert(received::<TXE, RXE>(bytes).drop_last() =~= received::<TXE, RXE>(earlier));
        assert(received::<TXE, RXE>(bytes).last() == Event::<TXE, RXE>::Received(bytes.last()));
        assert(kept(bytes) == if keep(bytes.last()) {
            kept(earlier).push(bytes.last())
        } else {
            kept(earlier)
        });
    }
}

/// The reply ends at the first line feed: what came in before it, without
/// carriage returns, is decoded against the command in flight, and the
/// outcome ends the cycle.
pub proof fn lemma_line_feed_ends_the_reply<TXE, RXE>(start: DriverView, line: Seq<u8>)
    requires
        start.wf(),
        start.phase == (Phase::Receiving { reads: 0 }),
        line.len() < MAX_REPLY_LENGTH,
        forall|i: int| 0 <= i < line.len() ==> line[i] != LINE_FEED,
    ensures
        ({
            let waiting = start.after_all(received::<TXE, RXE>(line));
            let end = Event::<TXE, RXE>::Received(LINE_FEED);
            &&& waiting.reaction(end) == ActionView::<TXE, RXE>::Done(
                parse(kept(line), start.in_flight),
            )
            &&& waiting.after(end) == start.with_incoming(kept(line)).finished()
            &&& waiting.after(end).incoming == kept(line)
            &&& waiting.after(end).phase == if parse::<TXE, RXE>(kept(line), start.in_flight)
                is Ok {
                Phase::Idle
            } else {
                Phase::Failed
            }
        }),
{
    lemma_reply_is_kept_without_carriage_returns::<TXE, RXE>(start, line);
}

/// The reply also ends when the budget is used up: once as many bytes as the
/// budget allows were read and none was a line feed, what was kept of them
/// is decoded as it is.
pub proof fn lemma_budget_ends_the_reply<TXE, RXE>(start: DriverView, bytes: Seq<u8>)
    requires
        start.wf(),
        start.phase == (Phase::Receiving { reads: 0 }),
        bytes.len() == MAX_REPLY_LENGTH,
        forall|i: int| 0 <= i < bytes.len() ==> bytes[i] != LINE_FEED,
    ensures
        ({
            let waiting = start.after_all(received::<TXE, RXE>(bytes.drop_last()));
            let end = Event::<TXE, RXE>::Received(bytes.last());
            &&& waiting.reaction(end) == ActionView::<TXE, RXE>::Done(
                parse(kept(bytes), start.in_flight),
            )
            &&& waiting.after(end) == start.with_incoming(kept(bytes)).finished()
        }),
{
    reveal(Seq::filter);
    lemma_reply_is_kept_without_carriage_returns::<TXE, RXE>(start, bytes.drop_last());
}

/// A whole cycle: for a command with a wire form and a reply line of fewer
/// bytes than the budget, once the line has taken every byte of the command
/// and the flush, and has delivered the reply line and its line feed, the
/// driver hands out the reply line, without its carriage returns, decoded
/// against that command, and holds nothing else in its incoming buffer.
pub proof fn lemma_cycle_returns_the_decoded_line<TXE, RXE>(
    before: DriverView,
    cmd: Command,
    line: Seq<u8>,
)
    requires
        cmd.encoding() is Some,
        line.len() < MAX_REPLY_LENGTH,
        forall|i: int| 0 <= i < line.len() ==> line[i] != LINE_FEED,
    ensures
        ({
            let sent = written::<TXE, RXE>(cmd.encoding().unwrap().len()).push(Event::Flushed);
            let waiting = before.begun(cmd).after_all(sent + received::<TXE, RXE>(line));
            let end = Event::<TXE, RXE>::Received(LINE_FEED);
            &&& waiting.reaction(end) == ActionView::<TXE, RXE>::Done(
                parse(kept(line), Some(cmd)),
            )
            &&& waiting.after(end).incoming == kept(line)
            &&& waiting.after(end).phase is Idle || waiting.after(end).phase is Failed
        }),
{
    let begun = before.begun(cmd);
    let sent = written::<TXE, RXE>(cmd.encoding().unwrap().len()).push(Event::Flushed);
    lemma_flush_follows_the_command::<TXE, RXE>(before, cmd);
    assert(sent.drop_last() =~= written::<TXE, RXE>(cmd.encoding().unwrap().len()));
    let reading = begun.after_all(sent);
    assert(reading == begun.in_phase(Phase::Receiving { reads: 0 }));
    lemma_nothing_leaks_into_a_cycle::<TXE, RXE>(before, before, cmd);
    lemma_steps_keep_well_formed::<TXE, RXE>(before, cmd, Event::Written);
    lemma_events_in_turn(begun, sent, received::<TXE, RXE>(line));
    lemma_line_feed_ends_the_reply::<TXE, RXE>(reading, line);
}

} // verus!
