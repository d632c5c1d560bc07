//! The response envelope: the fixed binary layout a query answer arrives in.
//!
//! Layout: bytes `[0, 4)` the block height as a big-endian `u32`, bytes
//! `[4, 36)` the 32-byte root hash, bytes `[36, ..)` the proof. Anything
//! under 36 bytes is malformed.

use vstd::prelude::*;

verus! {

use vstd::slice::{slice_subrange, slice_to_vec};
use crate::error::Error;

/// The least length a well-formed envelope can have: height plus root hash.
pub const MIN_ENVELOPE_LEN: usize = 36;

/// The value of four bytes read as a big-endian 32-bit unsigned integer.
pub open spec fn be_u32(b: Seq<u8>) -> int
    recommends
        b.len() == 4,
{
    b[0] * 0x1000000 + b[1] * 0x10000 + b[2] * 0x100 + b[3]
}

/// A parsed response envelope.
pub struct Envelope {
    /// The block height the server answered for.
    pub height: u32,
    /// The root hash the proof is to be verified against; always 32 bytes.
    pub root_hash: Vec<u8>,
    /// The raw proof bytes, handed on to the external proof verifier.
    pub proof_bytes: Vec<u8>,
}

impl Envelope {
    /// What a well-formed parse of `bytes` looks like.
    pub open spec fn is_parse_of(self, bytes: Seq<u8>) -> bool {
        &&& self.height as int == be_u32(bytes.subrange(0, 4))
        &&& self.root_hash@ == bytes.subrange(4, 36)
        &&& self.proof_bytes@ == bytes.skip(36)
    }
}

/// Reads four bytes, big-endian.
fn read_be_u32(b0: u8, b1: u8, b2: u8, b3: u8) -> (r: u32)
    ensures
        r as int == be_u32(seq![b0, b1, b2, b3]),
{
    (b0 as u32) * 0x1000000 + (b1 as u32) * 0x10000 + (b2 as u32) * 0x100 + (b3 as u32)
}

/// Splits a raw envelope into height, root hash and proof bytes.
///
/// An envelope of fewer than 36 bytes always fails with `Decode`, whatever
/// its content; a longer one always parses, and exactly.
pub fn decode_envelope(bytes: &Vec<u8>) -> (r: Result<Envelope, Error>)
    ensures
        bytes@.len() < 36 ==> r == Err::<Envelope, Error>(Error::Decode),
        bytes@.len() >= 36 ==> (r matches Ok(e) && e.is_parse_of(bytes@)),
{
    if bytes.len() < MIN_ENVELOPE_LEN {
        return Err(Error::Decode);
    }
    let height = read_be_u32(bytes[0], bytes[1], bytes[2], bytes[3]);
    proof {
        assert(seq![bytes@[0], bytes@[1], bytes@[2], bytes@[3]] =~= bytes@.subrange(0, 4));
    }
    let root_hash = slice_to_vec(slice_subrange(bytes.as_slice(), 4, 36));
    let proof_bytes = slice_to_vec(slice_subrange(bytes.as_slice(), 36, bytes.len()));
    proof {
        assert(bytes@.subrange(36, bytes@.len() as int) =~= bytes@.skip(36));
    }
    Ok(Envelope { height, root_hash, proof_bytes })
}

} // verus!
