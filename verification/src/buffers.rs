//! The fixed-capacity containers that hold command, reply and payload bytes.
//!
//! The containers are `arrayvec`'s. Nothing in this module is proved: each
//! function states what the `arrayvec` method it calls does, over a sequence
//! that stands for what the container holds.

use arrayvec::{ArrayString, ArrayVec, CapacityError};
use vstd::prelude::*;
use vstd::string::StringSliceAdditionalSpecFns;
use vstd::utf8::{encode_utf8, valid_utf8};

verus! {

/// Number of bytes the outgoing command buffer takes.
pub const COMMAND_CAPACITY: usize = 128;

/// Number of bytes the incoming reply buffer takes.
pub const REPLY_CAPACITY: usize = 1024;

/// Number of bytes a decoded result takes, as raw bytes and as text alike.
pub const PAYLOAD_CAPACITY: usize = 100;

/// `arrayvec::ArrayVec`, taken as it is: nothing inside it is visible here.
#[verifier::external_type_specification]
#[verifier::external_body]
#[verifier::reject_recursive_types(T)]
pub struct ExArrayVec<T, const CAP: usize>(ArrayVec<T, CAP>);

/// `arrayvec::ArrayString`, taken as it is.
#[verifier::external_type_specification]
#[verifier::external_body]
pub struct ExArrayString<const CAP: usize>(ArrayString<CAP>);

/// `arrayvec::CapacityError`, the error of a write that does not fit.
#[verifier::external_type_specification]
#[verifier::external_body]
#[verifier::reject_recursive_types(T)]
pub struct ExCapacityError<T>(CapacityError<T>);

/// `core::str::Utf8Error`, the error of bytes that are not UTF-8.
#[verifier::external_type_specification]
#[verifier::external_body]
pub struct ExUtf8Error(core::str::Utf8Error);

/// The bytes an outgoing command buffer holds, first written first.
pub uninterp spec fn command_bytes(buffer: ArrayVec<u8, 128>) -> Seq<u8>;

/// The bytes an incoming reply buffer holds, first received first.
pub uninterp spec fn reply_bytes(buffer: ArrayVec<u8, 1024>) -> Seq<u8>;

/// The bytes a result's byte field holds.
pub uninterp spec fn payload_bytes(buffer: ArrayVec<u8, 100>) -> Seq<u8>;

/// The characters a result's text field holds.
pub uninterp spec fn payload_text(text: ArrayString<100>) -> Seq<char>;

/// `ArrayVec::new`: the new buffer holds nothing.
#[verifier::external_body]
pub(crate) fn command_buffer_new() -> (buffer: ArrayVec<u8, 128>)
    ensures
        command_bytes(buffer) == Seq::<u8>::empty(),
{
    ArrayVec::new()
}

/// `ArrayVec::clear`: afterwards the buffer holds nothing.
#[verifier::external_body]
pub(crate) fn command_buffer_clear(buffer: &mut ArrayVec<u8, 128>)
    ensures
        command_bytes(*final(buffer)) == Seq::<u8>::empty(),
    no_unwind
{
    buffer.clear()
}

/// `ArrayVec::try_extend_from_slice`: where the bytes fit into what is left of
/// the 128, they are appended in order; where they do not, the call fails and
/// the buffer is as it was.
#[verifier::external_body]
pub(crate) fn command_buffer_extend(buffer: &mut ArrayVec<u8, 128>, bytes: &[u8]) -> (r: Result<
    (),
    CapacityError,
>)
    ensures
        r is Ok <==> command_bytes(*old(buffer)).len() + bytes@.len() <= 128,
        r is Ok ==> command_bytes(*final(buffer)) == command_bytes(*old(buffer)) + bytes@,
        r is Err ==> command_bytes(*final(buffer)) == command_bytes(*old(buffer)),
    no_unwind
{
    buffer.try_extend_from_slice(bytes)
}

/// `ArrayVec::as_slice`: the slice is what the buffer holds.
#[verifier::external_body]
pub(crate) fn command_buffer_slice(buffer: &ArrayVec<u8, 128>) -> (bytes: &[u8])
    ensures
        bytes@ == command_bytes(*buffer),
{
    buffer.as_slice()
}

/// `ArrayVec::new`: the new buffer holds nothing.
#[verifier::external_body]
pub(crate) fn reply_buffer_new() -> (buffer: ArrayVec<u8, 1024>)
    ensures
        reply_bytes(buffer) == Seq::<u8>::empty(),
{
    ArrayVec::new()
}

/// `ArrayVec::clear`: afterwards the buffer holds nothing.
#[verifier::external_body]
pub(crate) fn reply_buffer_clear(buffer: &mut ArrayVec<u8, 1024>)
    ensures
        reply_bytes(*final(buffer)) == Seq::<u8>::empty(),
    no_unwind
{
    buffer.clear()
}

/// `ArrayVec::push`: the byte is appended. The method panics on a full
/// buffer, which the precondition rules out.
#[verifier::external_body]
pub(crate) fn reply_buffer_push(buffer: &mut ArrayVec<u8, 1024>, byte: u8)
    requires
        reply_bytes(*old(buffer)).len() < 1024,
    ensures
        reply_bytes(*final(buffer)) == reply_bytes(*old(buffer)).push(byte),
    no_unwind
{
    buffer.push(byte)
}

/// `ArrayVec::as_slice`: the slice is what the buffer holds.
#[verifier::external_body]
pub(crate) fn reply_buffer_slice(buffer: &ArrayVec<u8, 1024>) -> (bytes: &[u8])
    ensures
        bytes@ == reply_bytes(*buffer),
{
    buffer.as_slice()
}

/// `ArrayVec::new`: the new buffer holds nothing.
#[verifier::external_body]
pub(crate) fn payload_buffer_new() -> (buffer: ArrayVec<u8, 100>)
    ensures
        payload_bytes(buffer) == Seq::<u8>::empty(),
{
    ArrayVec::new()
}

/// `ArrayVec::try_extend_from_slice`: where the bytes fit into what is left of
/// the 100, they are appended in order; where they do not, the call fails and
/// the buffer is as it was.
#[verifier::external_body]
pub(crate) fn payload_buffer_extend(buffer: &mut ArrayVec<u8, 100>, bytes: &[u8]) -> (r: Result<
    (),
    CapacityError,
>)
    ensures
        r is Ok <==> payload_bytes(*old(buffer)).len() + bytes@.len() <= 100,
        r is Ok ==> payload_bytes(*final(buffer)) == payload_bytes(*old(buffer)) + bytes@,
        r is Err ==> payload_bytes(*final(buffer)) == payload_bytes(*old(buffer)),
{
    buffer.try_extend_from_slice(bytes)
}

/// `ArrayString::new`: the new string holds no character.
#[verifier::external_body]
pub(crate) fn payload_text_new() -> (text: ArrayString<100>)
    ensures
        payload_text(text) == Seq::<char>::empty(),
{
    ArrayString::new()
}

/// `ArrayString::push_str`: the characters are appended. The method panics
/// where the UTF-8 bytes of the addition do not fit into what is left of the
/// 100, which the precondition rules out.
#[verifier::external_body]
pub(crate) fn payload_text_push_str(text: &mut ArrayString<100>, addition: &str)
    requires
        encode_utf8(payload_text(*old(text))).len() + addition.spec_bytes().len() <= 100,
    ensures
        payload_text(*final(text)) == payload_text(*old(text)) + addition@,
{
    text.push_str(addition)
}

/// `core::str::from_utf8`: succeeds exactly on well-formed UTF-8, and the
/// string it then returns is made of the very bytes it was given.
pub assume_specification[ core::str::from_utf8 ](bytes: &[u8]) -> (r: Result<
    &str,
    core::str::Utf8Error,
>)
    ensures
        r is Ok <==> valid_utf8(bytes@),
        r matches Ok(text) ==> text.spec_bytes() == bytes@,
;

} // verus!
