//! Errors, and the capabilities that commands and results are written
//! against.

use vstd::prelude::*;

verus! {

/// Why a command could not be put into bytes, or bytes into a result.
#[derive(Debug, Clone, Copy, PartialEq, Eq, Structural)]
pub enum CodecError {
    /// The command has no wire form yet.
    UnimplementedCommand,
    /// The bytes do not fit into the fixed-capacity container meant for them.
    CapacityExceeded,
    /// The bytes are not well-formed UTF-8.
    InvalidText,
}

/// Why a request/reply cycle ended without a reply.
///
/// `TXE` and `RXE` are the error types of the transmit and receive halves of
/// the serial line; values of them are carried through untouched.
#[derive(Debug, PartialEq, Eq)]
pub enum Error<TXE, RXE> {
    /// The line refused a byte of the command, or the flush after it.
    WriteError(TXE),
    /// The line failed while the reply was read.
    ReceiveReadError(RXE),
    /// Fewer bytes arrived than the shortest reply has.
    PacketTooShort,
    /// Kept for a check of the reply's first bytes. The driver makes no such
    /// check, since replies to commands other than `AT` start otherwise, and
    /// never returns this.
    WrongReplyType,
    /// Something arrived that the driver had not asked for: a reply with no
    /// command in flight, or an event that does not answer the step the driver
    /// handed out last.
    UnsolicitedReply,
    /// The command has no wire form, or its reply no decoder.
    UnimplementedCommand,
    /// Command or reply is longer than the container meant for it.
    CapacityExceeded,
    /// The reply is not well-formed UTF-8.
    InvalidText,
}

impl CodecError {
    /// The cycle-level error that stands for this one.
    pub open spec fn lift<TXE, RXE>(self) -> Error<TXE, RXE> {
        match self {
            CodecError::UnimplementedCommand => Error::UnimplementedCommand,
            CodecError::CapacityExceeded => Error::CapacityExceeded,
            CodecError::InvalidText => Error::InvalidText,
        }
    }

    /// Turns a coding failure into the error a cycle reports for it.
    pub fn into_error<TXE, RXE>(self) -> (e: Error<TXE, RXE>)
        ensures
            e == self.lift::<TXE, RXE>(),
    {
        match self {
            CodecError::UnimplementedCommand => Error::UnimplementedCommand,
            CodecError::CapacityExceeded => Error::CapacityExceeded,
            CodecError::InvalidText => Error::InvalidText,
        }
    }
}

/// A sink for command bytes: all the encoder knows of where they go.
///
/// A sink has a fixed amount of room. A write is taken whole or not at all,
/// and changes nothing of the sink but the bytes it holds.
pub trait CommandWriter {
    /// Every byte taken so far, in order.
    spec fn written(&self) -> Seq<u8>;

    /// How many more bytes the sink takes.
    spec fn room(&self) -> nat;

    /// Whether the sink differs from `before` in nothing but what was
    /// written to it and the room that is left.
    spec fn wrote_only(&self, before: &Self) -> bool;

    /// Appends `bytes`, or fails with `CapacityExceeded` and takes none of
    /// them where they are more than there is room for.
    fn write_cmd_bytes(&mut self, bytes: &[u8]) -> (r: Result<(), CodecError>)
        ensures
            if bytes@.len() <= old(self).room() {
                &&& r is Ok
                &&& final(self).written() == old(self).written() + bytes@
                &&& final(self).room() == old(self).room() - bytes@.len()
            } else {
                &&& r == Err::<(), CodecError>(CodecError::CapacityExceeded)
                &&& final(self).written() == old(self).written()
                &&& final(self).room() == old(self).room()
            },
            final(self).wrote_only(old(self)),
    ;
}

/// Something that can be written out as command bytes.
pub trait ToPayload {
    /// The bytes of the wire form, or `None` where there is none.
    spec fn payload(&self) -> Option<Seq<u8>>;

    /// Writes the wire form to `writer` in one piece.
    ///
    /// Fails with `UnimplementedCommand` where there is no wire form: the
    /// sink is then not touched at all. Fails with `CapacityExceeded` where
    /// the sink has no room for the wire form: the sink then holds what it
    /// held. Either way nothing of the sink changes but the bytes it holds.
    fn to_payload<W: CommandWriter>(&self, writer: &mut W) -> (r: Result<(), CodecError>)
        ensures
            match self.payload() {
                Some(line) => if line.len() <= old(writer).room() {
                    &&& r is Ok
                    &&& final(writer).written() == old(writer).written() + line
                    &&& final(writer).room() == old(writer).room() - line.len()
                } else {
                    &&& r == Err::<(), CodecError>(CodecError::CapacityExceeded)
                    &&& final(writer).written() == old(writer).written()
                    &&& final(writer).room() == old(writer).room()
                },
                None => {
                    &&& r == Err::<(), CodecError>(CodecError::UnimplementedCommand)
                    &&& final(writer).written() == old(writer).written()
                    &&& final(writer).room() == old(writer).room()
                },
            },
            self.payload() is Some ==> final(writer).wrote_only(old(writer)),
            self.payload() is None ==> *final(writer) == *old(writer),
    ;
}

/// Something that can be read out of the bytes of a reply.
pub trait FromPayload: Sized + View {
    /// What `payload` decodes to: the view of the value, or why there is none.
    spec fn decoded(payload: Seq<u8>) -> Result<Self::V, CodecError>;

    /// Decodes `payload`.
    fn from_payload(payload: &[u8]) -> (r: Result<Self, CodecError>)
        ensures
            match r {
                Ok(value) => Self::decoded(payload@) == Ok::<Self::V, CodecError>(value@),
                Err(e) => Self::decoded(payload@) == Err::<Self::V, CodecError>(e),
            },
    ;
}

} // verus!
