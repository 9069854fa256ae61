//! Codec for the exit code that crosses the Command Channel.
//!
//! The responder reports the child process's exit code as a single 4-byte
//! big-endian unsigned integer; the initiator reads those four bytes back and
//! accepts only values that fit a process exit code (0..=255).
use vstd::prelude::*;

verus! {

/// The four wire bytes (big-endian) that carry `code` on the Command Channel.
pub open spec fn exit_code_bytes(code: u32) -> Seq<u8> {
    seq![
        (code >> 24) as u8,
        (code >> 16) as u8,
        (code >> 8) as u8,
        code as u8,
    ]
}

/// The unsigned integer held by four wire bytes (big-endian).
pub open spec fn wire_value(b: Seq<u8>) -> u32
    recommends
        b.len() == 4,
{
    (((b[0] as u32) << 24) | ((b[1] as u32) << 16) | ((b[2] as u32) << 8) | (b[3] as u32))
}

/// Why a buffer read from the Command Channel is not a valid exit code.
#[derive(PartialEq, Eq, Structural, Clone, Copy, Debug)]
pub enum DecodeExitError {
    /// The reply did not consist of exactly four bytes.
    WrongLength,
    /// The wire word does not fit a process exit code (0..=255).
    OutOfRange,
}

/// Encode an exit code as the four bytes the responder sends.
pub fn encode_exit_code(code: u32) -> (r: Vec<u8>)
    ensures
        r@ == exit_code_bytes(code),
{
    let mut v: Vec<u8> = Vec::new();
    proof {
        assert(code >> 24 < 256) by (bit_vector);
    }
    v.push((code >> 24) as u8);
    v.push(#[verifier::truncate] ((code >> 16) as u8));
    v.push(#[verifier::truncate] ((code >> 8) as u8));
    v.push(#[verifier::truncate] (code as u8));
    proof {
        assert(v@ =~= exit_code_bytes(code));
    }
    v
}

/// Decode the responder's reply: accept exactly four bytes whose big-endian
/// value fits a process exit code, and say otherwise why the reply is refused.
pub fn decode_exit_code(bytes: &Vec<u8>) -> (r: Result<u8, DecodeExitError>)
    ensures
        match r {
            Ok(code) => bytes@.len() == 4 && wire_value(bytes@) == code as u32,
            Err(DecodeExitError::WrongLength) => bytes@.len() != 4,
            Err(DecodeExitError::OutOfRange) => bytes@.len() == 4 && wire_value(bytes@) > 255,
        },
{
    if bytes.len() != 4 {
        return Err(DecodeExitError::WrongLength);
    }
    let b0: u32 = bytes[0] as u32;
    let b1: u32 = bytes[1] as u32;
    let b2: u32 = bytes[2] as u32;
    let b3: u32 = bytes[3] as u32;
    let v: u32 = (b0 << 24) | (b1 << 16) | (b2 << 8) | b3;
    if v > 255 {
        Err(DecodeExitError::OutOfRange)
    } else {
        proof {
            assert(v <= 255 ==> (v as u8) as u32 == v) by (bit_vector);
        }
        Ok(v as u8)
    }
}

/// Round trip: the four bytes that encode a code decode to that same code,
/// for every value of the wire word; in particular the exit codes 0..=255
/// cross the Command Channel unchanged.
pub proof fn lemma_exit_code_round_trip(code: u32)
    ensures
        wire_value(exit_code_bytes(code)) == code,
{
    assert(((((code >> 24) as u8) as u32) << 24) | ((((code >> 16) as u8) as u32) << 16)
        | ((((code >> 8) as u8) as u32) << 8) | ((code as u8) as u32) == code) by (bit_vector);
}

} // verus!
