//! The protobuf codec bridge: encoding a message to bytes and decoding it back, through prost.
use vstd::prelude::*;

verus! {

/// A protobuf decoding failure, as reported by prost.
#[verifier::external_type_specification]
#[verifier::external_body]
pub struct ExDecodeError(prost::DecodeError);

/// A protobuf encoding failure, as reported by prost.
#[verifier::external_type_specification]
#[verifier::external_body]
pub struct ExEncodeError(prost::EncodeError);

/// Relies on prost::Message::encode: writes the message's wire form into a
/// fresh buffer. It fails only when the buffer has less room than the
/// encoding needs, and a `Vec` offers `isize::MAX` bytes, more than any
/// message's encoding, so into a fresh `Vec` it succeeds.
#[verifier::external_body]
pub(crate) fn encode_message<T: prost::Message>(msg: &T) -> (r: Result<Vec<u8>, prost::EncodeError>)
    ensures
        r is Ok,
{
    let mut buf = Vec::new();
    msg.encode(&mut buf).map(|_| buf)
}

/// Relies on prost::Message::decode: parses a message from its wire form.
#[verifier::external_body]
pub(crate) fn decode_message<T: prost::Message + Default>(bytes: &Vec<u8>) -> (r: Result<T, prost::DecodeError>) {
    T::decode(bytes.as_slice())
}


} // verus!
