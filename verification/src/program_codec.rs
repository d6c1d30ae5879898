//! Transfer encoding of animation programs.
//!
//! A new program arrives from the network client as a base64-encoded
//! body. Decoding is done by the `base64` crate behind a trusted
//! contract: the decoded bytes are named by `base64_decoded`, and the
//! rejection of malformed bodies — before anything reaches the playback
//! worker — is verified against that name.

use vstd::prelude::*;

verus! {

/// What base64 decoding (standard alphabet, padded) yields on the given
/// input: `Some` decoded bytes for a valid encoding, `None` otherwise.
pub uninterp spec fn base64_decoded(s: Seq<u8>) -> Option<Seq<u8>>;

/// Why a program body failed to decode, mirroring the decoder's report:
/// an invalid byte at an offset, an invalid overall length, or a final
/// symbol whose discarded bits are not zero.
#[derive(Debug, Clone, Copy, PartialEq, Eq, Structural)]
pub enum ProgramDecodeError {
    InvalidByte(usize, u8),
    InvalidLength,
    InvalidLastSymbol(usize, u8),
}

/// Relies on base64::decode: the result is a function of the input bytes
/// alone, and the empty input decodes to the empty byte string.
#[verifier::external_body]
fn decode_base64(input: &Vec<u8>) -> (r: Result<Vec<u8>, ProgramDecodeError>)
    requires
        input@.len() + 3 <= usize::MAX,
    ensures
        r matches Ok(v) ==> base64_decoded(input@) == Some(v@) && (input@.len() == 0
            ==> v@ == Seq::<u8>::empty()),
        r is Err ==> base64_decoded(input@) is None && input@.len() != 0,
{
    match base64::decode(input) {
        Ok(v) => Ok(v),
        Err(base64::DecodeError::InvalidByte(i, b)) => Err(ProgramDecodeError::InvalidByte(i, b)),
        Err(base64::DecodeError::InvalidLength) => Err(ProgramDecodeError::InvalidLength),
        Err(base64::DecodeError::InvalidLastSymbol(i, b)) => Err(
            ProgramDecodeError::InvalidLastSymbol(i, b),
        ),
    }
}

/// Decode a base64-encoded program body into program bytes. A malformed
/// body is rejected here, at the control surface, with no state change
/// anywhere; a valid one yields exactly the encoded program.
pub fn decode_program(body: &Vec<u8>) -> (r: Result<Vec<u8>, ProgramDecodeError>)
    requires
        body@.len() + 3 <= usize::MAX,
    ensures
        r is Ok <==> base64_decoded(body@) is Some,
        r matches Ok(v) ==> Some(v@) == base64_decoded(body@),
        body@.len() == 0 ==> (r matches Ok(v) && v@ == Seq::<u8>::empty()),
{
    decode_base64(body)
}

} // verus!
