//! Naming one device: a single fetch into a buffer of fixed capacity, then the
//! reading of that buffer as terminated text.

use vstd::prelude::*;
use vstd::utf8::{decode_utf8, encode_utf8, valid_utf8};
use crate::property::{
    check_status, global, global_address, status_error, AudioObject, DeviceId, FetchReply,
    FetchRequest, OsStatusError, Selector,
};

verus! {

/// Bytes that the buffer for a device name holds. A longer name does not fit.
pub const NAME_CAPACITY: u32 = 64;

/// The byte that ends the text in a name buffer.
pub const TERMINATOR: u8 = 0;

/// Why a device has no name to show.
#[derive(Clone, Copy, Debug, PartialEq, Eq, Structural)]
pub enum NameError {
    /// The audio layer refused the fetch with this status.
    Status(OsStatusError),
    /// The bytes before the terminator are not UTF-8.
    InvalidText,
}

/// The fetch that asks for the name of `device`.
pub open spec fn name_fetch(device: DeviceId) -> FetchRequest {
    FetchRequest {
        object: AudioObject::Device(device),
        address: global_address(Selector::DeviceName),
        capacity: NAME_CAPACITY,
        declared_size: NAME_CAPACITY,
    }
}

/// The part of the buffer that the audio layer reports as written: its first
/// `size` bytes, or all of it where it holds fewer.
pub open spec fn reported(reply: FetchReply<u8>) -> Seq<u8> {
    if reply.size <= reply.data@.len() {
        reply.data@.take(reply.size as int)
    } else {
        reply.data@
    }
}

/// The bytes before the first terminator, or all of them where there is none.
pub open spec fn before_terminator(bytes: Seq<u8>) -> Seq<u8> {
    match bytes.index_of_first(TERMINATOR) {
        Some(end) => bytes.take(end),
        None => bytes,
    }
}

/// The outcome of naming a device, given the answer of the audio layer: the
/// error that it carries, or the text that the reported bytes hold before
/// their terminator, where that is UTF-8.
pub open spec fn named(reply: FetchReply<u8>) -> Result<Seq<char>, NameError> {
    match status_error(reply.status) {
        Some(error) => Err(NameError::Status(error)),
        None => {
            let text = before_terminator(reported(reply));
            if valid_utf8(text) {
                Ok(decode_utf8(text))
            } else {
                Err(NameError::InvalidText)
            }
        },
    }
}

/// `std::string::FromUtf8Error`, the error of `String::from_utf8`. Nothing is
/// claimed of what it holds.
#[verifier::external_type_specification]
#[verifier::external_body]
pub struct ExFromUtf8Error(std::string::FromUtf8Error);

/// `String::from_utf8` of the standard library. It succeeds exactly on bytes
/// that are UTF-8, and the string it then returns is made of those bytes.
pub assume_specification[ String::from_utf8 ](bytes: Vec<u8>) -> (text: Result<
    String,
    std::string::FromUtf8Error,
>)
    ensures
        match text {
            Ok(s) => valid_utf8(bytes@) && encode_utf8(s@) == bytes@,
            Err(_) => !valid_utf8(bytes@),
        },
;

/// First step of naming `device`: the fetch to make, into a buffer of
/// [`NAME_CAPACITY`] bytes.
pub fn name_request(device: DeviceId) -> (request: FetchRequest)
    ensures
        request == name_fetch(device),
{
    FetchRequest {
        object: AudioObject::Device(device),
        address: global(Selector::DeviceName),
        capacity: NAME_CAPACITY,
        declared_size: NAME_CAPACITY,
    }
}

/// Length of the text in `bytes`: the index of the first terminator, or the
/// length of `bytes` where there is none.
pub fn text_length(bytes: &Vec<u8>) -> (end: usize)
    ensures
        end <= bytes@.len(),
        bytes@.take(end as int) == before_terminator(bytes@),
{
    let mut end: usize = 0;
    while end < bytes.len() && bytes[end] != TERMINATOR
        invariant
            end <= bytes@.len(),
            forall|j: int| 0 <= j < end ==> bytes@[j] != TERMINATOR,
        decreases bytes@.len() - end,
    {
        end += 1;
    }
    proof {
        bytes@.index_of_first_ensures(TERMINATOR);
        if end == bytes@.len() {
            assert(bytes@.take(end as int) =~= bytes@);
        }
    }
    end
}

/// Last step: reads the answer to the fetch. A status other than success gives
/// that status as the error. Otherwise the buffer is cut to the size that the
/// audio layer reports, then at the first terminator; what is left is the name
/// where it is UTF-8, and [`NameError::InvalidText`] where it is not.
pub fn decode_name(reply: FetchReply<u8>) -> (name: Result<String, NameError>)
    ensures
        match name {
            Ok(text) => named(reply) == Ok::<Seq<char>, NameError>(text@),
            Err(error) => named(reply) == Err::<Seq<char>, NameError>(error),
        },
{
    match check_status(reply.status) {
        Err(error) => Err(NameError::Status(error)),
        Ok(_) => {
            let mut bytes = reply.data;
            bytes.truncate(reply.size as usize);
            let end = text_length(&bytes);
            bytes.truncate(end);
            match String::from_utf8(bytes) {
                Ok(text) => {
                    proof {
                        vstd::utf8::encode_utf8_decode_utf8(text@);
                    }
                    Ok(text)
                },
                Err(_) => Err(NameError::InvalidText),
            }
        },
    }
}

/// The bytes before the terminator hold no terminator.
pub proof fn lemma_before_terminator_is_clean(bytes: Seq<u8>)
    ensures
        !before_terminator(bytes).contains(TERMINATOR),
        before_terminator(bytes).len() > 0 <==> bytes.len() > 0 && bytes[0] != TERMINATOR,
{
    bytes.index_of_first_ensures(TERMINATOR);
    let text = before_terminator(bytes);
    if text.contains(TERMINATOR) {
        let j = choose|j: int| 0 <= j < text.len() && text[j] == TERMINATOR;
        assert(bytes[j] == TERMINATOR);
    }
    if bytes.len() > 0 && bytes[0] == TERMINATOR {
        assert(bytes.contains(TERMINATOR));
    }
}

/// Text that holds the character of code zero is encoded with a zero byte.
proof fn lemma_zero_char_gives_zero_byte(chars: Seq<char>)
    requires
        chars.contains('\0'),
    ensures
        encode_utf8(chars).contains(TERMINATOR),
    decreases chars.len(),
{
    let head = vstd::utf8::encode_scalar(chars[0] as u32);
    let tail = encode_utf8(chars.drop_first());
    if chars[0] == '\0' {
        assert(vstd::utf8::has_width_1_encoding(0u32)) by (bit_vector);
        assert(0u32 & 0x7F == 0u32) by (bit_vector);
        assert(head[0] == TERMINATOR);
        assert((head + tail)[0] == TERMINATOR);
    } else {
        let k = choose|k: int| 0 <= k < chars.len() && chars[k] == '\0';
        assert(chars.drop_first()[k - 1] == '\0');
        lemma_zero_char_gives_zero_byte(chars.drop_first());
        let j = choose|j: int| 0 <= j < tail.len() && tail[j] == TERMINATOR;
        assert((head + tail)[head.len() + j] == TERMINATOR);
    }
}

/// A name that was resolved holds no terminator: none among its bytes, and
/// no character of code zero.
pub proof fn lemma_name_holds_no_terminator(reply: FetchReply<u8>)
    requires
        named(reply) is Ok,
    ensures
        !encode_utf8(named(reply)->Ok_0).contains(TERMINATOR),
        !named(reply)->Ok_0.contains('\0'),
{
    let text = before_terminator(reported(reply));
    lemma_before_terminator_is_clean(reported(reply));
    vstd::utf8::decode_utf8_encode_utf8(text);
    if named(reply)->Ok_0.contains('\0') {
        lemma_zero_char_gives_zero_byte(named(reply)->Ok_0);
    }
}

/// A name that was resolved is empty exactly where the audio layer reported
/// no bytes, or bytes that begin with the terminator. On every other answer
/// it holds at least one character.
pub proof fn lemma_name_is_nonempty(reply: FetchReply<u8>)
    requires
        named(reply) is Ok,
    ensures
        named(reply)->Ok_0.len() > 0 <==> reported(reply).len() > 0 && reported(reply)[0]
            != TERMINATOR,
{
    lemma_before_terminator_is_clean(reported(reply));
}

} // verus!
