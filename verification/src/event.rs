//! Event translator: from the events of a child's output channel to the
//! events that a caller receives, decoded under the request's policy.

use crate::encoding::{decodable_len, decode_with_bom_removal, decoded_without_bom, EncodingWrapper};
use std::string::FromUtf8Error;
use vstd::prelude::*;
use vstd::utf8::{decode_utf8, encode_utf8, valid_utf8};

verus! {

/// `std::string::FromUtf8Error`, the failure of `String::from_utf8`: carried
/// from the conversion to the message that describes it.
#[verifier::external_type_specification]
#[verifier::external_body]
pub struct ExFromUtf8Error(FromUtf8Error);

/// The bytes that a failed conversion to a `String` was given.
pub uninterp spec fn rejected_bytes(e: FromUtf8Error) -> Seq<u8>;

/// The description that std gives of why bytes are not UTF-8.
pub uninterp spec fn utf8_failure_text(bytes: Seq<u8>) -> Seq<char>;

/// `String::from_utf8`: succeeds exactly on valid UTF-8, with the text that
/// the bytes encode; the error keeps the bytes it was given.
#[verifier::external_body]
pub(crate) fn string_from_utf8(bytes: Vec<u8>) -> (r: Result<String, FromUtf8Error>)
    ensures
        r is Ok <==> valid_utf8(bytes@),
        r matches Ok(s) ==> s@ == decode_utf8(bytes@),
        r matches Err(e) ==> rejected_bytes(e) == bytes@,
{
    String::from_utf8(bytes)
}

/// `ToString::to_string` on a `FromUtf8Error`: the error's description, which
/// depends on the rejected bytes alone.
#[verifier::external_body]
pub(crate) fn utf8_failure_message(e: &FromUtf8Error) -> (m: String)
    ensures
        m@ == utf8_failure_text(rejected_bytes(*e)),
{
    e.to_string()
}

/// A chunk of output or input: decoded text, or raw bytes.
#[derive(Debug, Clone, PartialEq, Eq)]
pub enum Buffer {
    Text(String),
    Raw(Vec<u8>),
}

/// The mathematical value of a [`Buffer`].
pub enum BufferModel {
    Text(Seq<char>),
    Raw(Seq<u8>),
}

impl View for Buffer {
    type V = BufferModel;

    open spec fn view(&self) -> BufferModel {
        match self {
            Buffer::Text(t) => BufferModel::Text(t@),
            Buffer::Raw(r) => BufferModel::Raw(r@),
        }
    }
}

/// The bytes that a buffer puts on a child's input stream.
pub open spec fn buffer_bytes(b: BufferModel) -> Seq<u8> {
    match b {
        BufferModel::Text(t) => encode_utf8(t),
        BufferModel::Raw(r) => r,
    }
}

impl Buffer {
    /// The bytes of the buffer: a text's UTF-8 encoding, raw bytes as they are.
    pub fn into_bytes(self) -> (bytes: Vec<u8>)
        ensures
            bytes@ == buffer_bytes(self@),
    {
        match self {
            Buffer::Text(t) => t.as_str().as_bytes_vec(),
            Buffer::Raw(r) => r,
        }
    }
}

/// How a process ended.
#[derive(Debug, Clone, Copy, PartialEq, Eq)]
pub struct TerminatedPayload {
    /// Exit code of the process.
    pub code: Option<i32>,
    /// The signal that ended it, if one did.
    pub signal: Option<i32>,
}

/// What a child's output channel produces.
#[derive(Debug, Clone, PartialEq, Eq)]
pub enum CommandEvent {
    /// Bytes of the error stream up to a line feed or carriage return.
    Stderr(Vec<u8>),
    /// Bytes of the output stream up to a line feed or carriage return.
    Stdout(Vec<u8>),
    /// A failure while waiting for the process.
    Error(String),
    /// The process terminated.
    Terminated(TerminatedPayload),
}

/// The mathematical value of a [`CommandEvent`].
pub enum CommandEventModel {
    Stderr(Seq<u8>),
    Stdout(Seq<u8>),
    Error(Seq<char>),
    Terminated(TerminatedPayload),
}

impl View for CommandEvent {
    type V = CommandEventModel;

    open spec fn view(&self) -> CommandEventModel {
        match self {
            CommandEvent::Stderr(l) => CommandEventModel::Stderr(l@),
            CommandEvent::Stdout(l) => CommandEventModel::Stdout(l@),
            CommandEvent::Error(m) => CommandEventModel::Error(m@),
            CommandEvent::Terminated(p) => CommandEventModel::Terminated(*p),
        }
    }
}

impl CommandEvent {
    /// Whether the event's chunk, if it has one, can be decoded under the
    /// policy.
    pub fn fits(&self, encoding: EncodingWrapper) -> (fits: bool)
        ensures
            fits == event_fits(self@, encoding),
    {
        match encoding {
            EncodingWrapper::Text(Some(_)) => match self {
                CommandEvent::Stderr(line) => line.len() <= usize::MAX / 16,
                CommandEvent::Stdout(line) => line.len() <= usize::MAX / 16,
                _ => true,
            },
            _ => true,
        }
    }
}

/// What a caller receives.
#[derive(Debug, Clone, PartialEq, Eq)]
#[non_exhaustive]
pub enum JSCommandEvent {
    /// Decoded chunk of the error stream.
    Stderr(Buffer),
    /// Decoded chunk of the output stream.
    Stdout(Buffer),
    /// A failure while waiting for the process or while decoding a chunk.
    Error(String),
    /// The process terminated.
    Terminated(TerminatedPayload),
}

/// The mathematical value of a [`JSCommandEvent`].
pub enum JSCommandEventModel {
    Stderr(BufferModel),
    Stdout(BufferModel),
    Error(Seq<char>),
    Terminated(TerminatedPayload),
}

impl View for JSCommandEvent {
    type V = JSCommandEventModel;

    open spec fn view(&self) -> JSCommandEventModel {
        match self {
            JSCommandEvent::Stderr(b) => JSCommandEventModel::Stderr(b@),
            JSCommandEvent::Stdout(b) => JSCommandEventModel::Stdout(b@),
            JSCommandEvent::Error(m) => JSCommandEventModel::Error(m@),
            JSCommandEvent::Terminated(p) => JSCommandEventModel::Terminated(*p),
        }
    }
}

/// What a chunk decodes to under a policy; `None` where strict UTF-8 is asked
/// for and the chunk is not UTF-8.
pub open spec fn decoded_buffer(line: Seq<u8>, encoding: EncodingWrapper) -> Option<BufferModel> {
    match encoding {
        EncodingWrapper::Raw => Some(BufferModel::Raw(line)),
        EncodingWrapper::Text(None) => if valid_utf8(line) {
            Some(BufferModel::Text(decode_utf8(line)))
        } else {
            None
        },
        EncodingWrapper::Text(Some(e)) => Some(BufferModel::Text(decoded_without_bom(e, line))),
    }
}

/// Whether a chunk of this length can be decoded under the policy: a named
/// encoding's decoder needs room for the text.
pub open spec fn chunk_fits(len: nat, encoding: EncodingWrapper) -> bool {
    encoding matches EncodingWrapper::Text(Some(_)) ==> decodable_len(len)
}

/// What a caller receives for an event of the child under a policy: output is
/// decoded, a chunk that cannot be decoded becomes an error that describes the
/// failure, and the other events pass through.
pub open spec fn translated(
    event: CommandEventModel,
    encoding: EncodingWrapper,
) -> JSCommandEventModel {
    match event {
        CommandEventModel::Terminated(p) => JSCommandEventModel::Terminated(p),
        CommandEventModel::Error(m) => JSCommandEventModel::Error(m),
        CommandEventModel::Stderr(line) => match decoded_buffer(line, encoding) {
            Some(b) => JSCommandEventModel::Stderr(b),
            None => JSCommandEventModel::Error(utf8_failure_text(line)),
        },
        CommandEventModel::Stdout(line) => match decoded_buffer(line, encoding) {
            Some(b) => JSCommandEventModel::Stdout(b),
            None => JSCommandEventModel::Error(utf8_failure_text(line)),
        },
    }
}

/// Whether the event's chunk, if it has one, can be decoded under the policy.
pub open spec fn event_fits(event: CommandEventModel, encoding: EncodingWrapper) -> bool {
    match event {
        CommandEventModel::Stderr(line) => chunk_fits(line.len(), encoding),
        CommandEventModel::Stdout(line) => chunk_fits(line.len(), encoding),
        _ => true,
    }
}

/// Decodes one chunk under the policy.
pub fn get_event_buffer(line: Vec<u8>, encoding: EncodingWrapper) -> (r: Result<
    Buffer,
    FromUtf8Error,
>)
    requires
        chunk_fits(line@.len(), encoding),
    ensures
        r matches Ok(b) ==> decoded_buffer(line@, encoding) == Some(b@),
        r matches Err(e) ==> decoded_buffer(line@, encoding) is None && rejected_bytes(e) == line@,
{
    match encoding {
        EncodingWrapper::Text(character_encoding) => match character_encoding {
            Some(encoding) => Ok(Buffer::Text(decode_with_bom_removal(encoding, line.as_slice()))),
            None => match string_from_utf8(line) {
                Ok(text) => Ok(Buffer::Text(text)),
                Err(e) => Err(e),
            },
        },
        EncodingWrapper::Raw => Ok(Buffer::Raw(line)),
    }
}

impl JSCommandEvent {
    /// Translates an event of the child for the caller.
    pub fn new(event: CommandEvent, encoding: EncodingWrapper) -> (js_event: Self)
        requires
            event_fits(event@, encoding),
        ensures
            js_event@ == translated(event@, encoding),
    {
        match event {
            CommandEvent::Terminated(payload) => JSCommandEvent::Terminated(payload),
            CommandEvent::Error(error) => JSCommandEvent::Error(error),
            CommandEvent::Stderr(line) => match get_event_buffer(line, encoding) {
                Ok(buffer) => JSCommandEvent::Stderr(buffer),
                Err(e) => JSCommandEvent::Error(utf8_failure_message(&e)),
            },
            CommandEvent::Stdout(line) => match get_event_buffer(line, encoding) {
                Ok(buffer) => JSCommandEvent::Stdout(buffer),
                Err(e) => JSCommandEvent::Error(utf8_failure_message(&e)),
            },
        }
    }
}

/// The policy under which a buffer that was written comes back as it was:
/// raw for raw bytes, strict UTF-8 for text.
pub open spec fn echo_policy(b: BufferModel) -> EncodingWrapper {
    match b {
        BufferModel::Text(_) => EncodingWrapper::Text(None),
        BufferModel::Raw(_) => EncodingWrapper::Raw,
    }
}

/// A buffer's bytes, echoed as one chunk of output, are translated back to
/// the buffer: raw bytes byte for byte under the raw policy, text through
/// UTF-8 under the strict text policy.
pub proof fn lemma_echo_round_trip(b: BufferModel)
    ensures
        translated(CommandEventModel::Stdout(buffer_bytes(b)), echo_policy(b))
            == JSCommandEventModel::Stdout(b),
        translated(CommandEventModel::Stderr(buffer_bytes(b)), echo_policy(b))
            == JSCommandEventModel::Stderr(b),
{
    match b {
        BufferModel::Text(t) => {
            vstd::utf8::encode_utf8_valid_utf8(t);
            vstd::utf8::encode_utf8_decode_utf8(t);
        },
        BufferModel::Raw(_) => {},
    }
}

} // verus!
