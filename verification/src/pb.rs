//! Trusted bridge to the protobuf library that encodes and decodes message
//! payloads.
//!
//! Protobuf encode and decode of application messages is an outside
//! capability: nothing can be said here about the bytes a given message
//! encodes to. The runtime's verified functions therefore state what holds
//! of their result whatever these calls return, and the routing, header and
//! error logic around the calls is proved without them.

use vstd::prelude::*;

verus! {

#[verifier::external_type_specification]
#[verifier::external_body]
pub struct ExProstEncodeError(prost::EncodeError);

#[verifier::external_type_specification]
#[verifier::external_body]
pub struct ExProstDecodeError(prost::DecodeError);

/// Relies on `prost::Message::encode` into a fresh buffer: encoding fails
/// only when the encoded length exceeds the buffer's remaining capacity,
/// and a fresh vector admits more bytes than any message held in memory,
/// so the call returns the encoding. Which bytes those are is the
/// protobuf library's own affair, so nothing is claimed of them.
#[verifier::external_body]
pub fn prost_encode<T: prost::Message>(m: &T) -> (r: Result<Vec<u8>, prost::EncodeError>)
    ensures
        r is Ok,
{
    let mut buf: Vec<u8> = Vec::new();
    match m.encode(&mut buf) {
        Ok(()) => Ok(buf),
        Err(e) => Err(e),
    }
}

/// Relies on `prost::Message::decode` on a byte slice: a message parsed
/// from the bytes, or the library's decode error. Which inputs parse is the
/// protobuf library's own affair, so nothing is claimed of the outcome.
#[verifier::external_body]
pub fn prost_decode<T: prost::Message + Default>(b: &[u8]) -> (r: Result<T, prost::DecodeError>) {
    T::decode(b)
}

} // verus!
