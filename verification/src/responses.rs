//! What the modem answers, decoded.

use crate::buffers::{
    payload_buffer_extend, payload_buffer_new, payload_bytes, payload_text, payload_text_new,
    payload_text_push_str, PAYLOAD_CAPACITY,
};
use crate::commands::Command;
use crate::utils::{CodecError, FromPayload};
use arrayvec::{ArrayString, ArrayVec};
use vstd::prelude::*;
use vstd::string::StringSliceAdditionalSpecFns;
use vstd::utf8::{decode_utf8, encode_utf8, valid_utf8};

verus! {

/// What a textual result holds: the reply as it arrived, and the same reply
/// read as text.
pub struct TextPayload {
    pub bytes: Seq<u8>,
    pub text: Seq<char>,
}

impl TextPayload {
    /// The two fields say the same thing, and fit the result's capacity.
    pub open spec fn consistent(self) -> bool {
        &&& self.bytes.len() <= PAYLOAD_CAPACITY
        &&& self.bytes == encode_utf8(self.text)
    }
}

/// What decoding `raw` as a textual result gives.
///
/// A reply longer than a result's capacity is refused before its text is
/// looked at; one that fits must be well-formed UTF-8.
pub open spec fn decode_text(raw: Seq<u8>) -> Result<TextPayload, CodecError> {
    if raw.len() > PAYLOAD_CAPACITY {
        Err(CodecError::CapacityExceeded)
    } else if !valid_utf8(raw) {
        Err(CodecError::InvalidText)
    } else {
        Ok(TextPayload { bytes: raw, text: decode_utf8(raw) })
    }
}

/// Whatever `decode_text` accepts is consistent.
pub proof fn lemma_decoded_text_is_consistent(raw: Seq<u8>)
    ensures
        decode_text(raw) matches Ok(payload) ==> payload.consistent(),
{
    if decode_text(raw) is Ok {
        vstd::utf8::decode_utf8_encode_utf8(raw);
    }
}

/// Fills the two fields of a textual result from `payload`.
fn text_fields(payload: &[u8]) -> (r: Result<(ArrayVec<u8, 100>, ArrayString<100>), CodecError>)
    ensures
        match r {
            Ok((bytes, text)) => decode_text(payload@) == Ok::<TextPayload, CodecError>(
                TextPayload { bytes: payload_bytes(bytes), text: payload_text(text) },
            ),
            Err(e) => decode_text(payload@) == Err::<TextPayload, CodecError>(e),
        },
{
    let mut full_response = payload_buffer_new();
    match payload_buffer_extend(&mut full_response, payload) {
        Ok(()) => {},
        Err(_) => {
            return Err(CodecError::CapacityExceeded);
        },
    }
    assert(payload_bytes(full_response) =~= payload@);
    let mut full_response_str = payload_text_new();
    match core::str::from_utf8(payload) {
        Ok(text) => {
            proof {
                assert(encode_utf8(Seq::<char>::empty()) =~= Seq::<u8>::empty());
                vstd::utf8::encode_utf8_decode_utf8(text@);
            }
            payload_text_push_str(&mut full_response_str, text);
            assert(payload_text(full_response_str) =~= decode_utf8(payload@));
            Ok((full_response, full_response_str))
        },
        Err(_) => Err(CodecError::InvalidText),
    }
}

/// Result of the `CheckAlive` call.
#[derive(Debug, PartialEq, Eq)]
pub struct CheckAliveResult {
    pub full_response: ArrayVec<u8, 100>,
    pub full_response_str: ArrayString<100>,
}

impl View for CheckAliveResult {
    type V = TextPayload;

    open spec fn view(&self) -> TextPayload {
        TextPayload {
            bytes: payload_bytes(self.full_response),
            text: payload_text(self.full_response_str),
        }
    }
}

impl FromPayload for CheckAliveResult {
    open spec fn decoded(payload: Seq<u8>) -> Result<TextPayload, CodecError> {
        decode_text(payload)
    }

    fn from_payload(payload: &[u8]) -> (r: Result<Self, CodecError>) {
        match text_fields(payload) {
            Ok((full_response, full_response_str)) => Ok(
                Self { full_response, full_response_str },
            ),
            Err(e) => Err(e),
        }
    }
}

/// Result of the `AT_ID_READ` call.
#[allow(non_camel_case_types)]
#[derive(Debug, PartialEq, Eq)]
pub struct AT_ID_READ_Result {
    pub full_response: ArrayVec<u8, 100>,
    pub full_response_str: ArrayString<100>,
}

impl View for AT_ID_READ_Result {
    type V = TextPayload;

    open spec fn view(&self) -> TextPayload {
        TextPayload {
            bytes: payload_bytes(self.full_response),
            text: payload_text(self.full_response_str),
        }
    }
}

impl FromPayload for AT_ID_READ_Result {
    open spec fn decoded(payload: Seq<u8>) -> Result<TextPayload, CodecError> {
        decode_text(payload)
    }

    fn from_payload(payload: &[u8]) -> (r: Result<Self, CodecError>) {
        match text_fields(payload) {
            Ok((full_response, full_response_str)) => Ok(
                Self { full_response, full_response_str },
            ),
            Err(e) => Err(e),
        }
    }
}

/// Responses to commands returned by the LoRa-E5. Names are the same as
/// commands.
#[allow(non_camel_case_types)]
#[derive(Debug, PartialEq, Eq)]
pub enum Reply {
    CheckAlive(CheckAliveResult),
    AT_ID_READ(AT_ID_READ_Result),
    AT_ID_SET_DEV_EUI,
    AT_ID_SET_APP_EUI,
    AT_ID_SET_APP_KEY,
}

/// What a reply says, whatever containers hold it.
#[allow(non_camel_case_types)]
pub enum ReplyView {
    CheckAlive(TextPayload),
    AT_ID_READ(TextPayload),
    AT_ID_SET_DEV_EUI,
    AT_ID_SET_APP_EUI,
    AT_ID_SET_APP_KEY,
}

impl View for Reply {
    type V = ReplyView;

    open spec fn view(&self) -> ReplyView {
        match self {
            Reply::CheckAlive(result) => ReplyView::CheckAlive(result@),
            Reply::AT_ID_READ(result) => ReplyView::AT_ID_READ(result@),
            Reply::AT_ID_SET_DEV_EUI => ReplyView::AT_ID_SET_DEV_EUI,
            Reply::AT_ID_SET_APP_EUI => ReplyView::AT_ID_SET_APP_EUI,
            Reply::AT_ID_SET_APP_KEY => ReplyView::AT_ID_SET_APP_KEY,
        }
    }
}

/// What `raw` decodes to as the reply to `for_command`.
///
/// The command alone chooses the decoder; the bytes are not looked at to
/// guess what kind of reply they are.
pub open spec fn decode_reply(raw: Seq<u8>, for_command: Command) -> Result<ReplyView, CodecError> {
    match for_command {
        Command::CheckAlive => match decode_text(raw) {
            Ok(payload) => Ok(ReplyView::CheckAlive(payload)),
            Err(e) => Err(e),
        },
        Command::AT_ID_READ => match decode_text(raw) {
            Ok(payload) => Ok(ReplyView::AT_ID_READ(payload)),
            Err(e) => Err(e),
        },
        _ => Err(CodecError::UnimplementedCommand),
    }
}

/// Decodes `raw` as the reply to `for_command`.
///
/// Fails with `UnimplementedCommand` where replies to the command have no
/// decoder, with `CapacityExceeded` where `raw` is longer than a result
/// takes, and with `InvalidText` where it is not well-formed UTF-8.
pub fn decode(raw: &[u8], for_command: &Command) -> (r: Result<Reply, CodecError>)
    ensures
        match r {
            Ok(reply) => decode_reply(raw@, *for_command) == Ok::<ReplyView, CodecError>(reply@),
            Err(e) => decode_reply(raw@, *for_command) == Err::<ReplyView, CodecError>(e),
        },
        for_command.encoding() is None ==> r matches Err(CodecError::UnimplementedCommand),
{
    match for_command {
        Command::CheckAlive => match CheckAliveResult::from_payload(raw) {
            Ok(result) => Ok(Reply::CheckAlive(result)),
            Err(e) => Err(e),
        },
        Command::AT_ID_READ => match AT_ID_READ_Result::from_payload(raw) {
            Ok(result) => Ok(Reply::AT_ID_READ(result)),
            Err(e) => Err(e),
        },
        _ => Err(CodecError::UnimplementedCommand),
    }
}

} // verus!
