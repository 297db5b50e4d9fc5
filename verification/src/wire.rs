//! Fixed-width little-endian integers, as `bincode` writes and reads them.

use vstd::bytes::*;
use vstd::prelude::*;
use vstd::slice::*;

verus! {

#[verifier::external_type_specification]
#[verifier::external_body]
pub struct ExBincodeErrorKind(bincode::ErrorKind);

/// Calls `bincode::serialize` on a `u64`. The contract claims that the call
/// succeeds and gives the eight bytes of the value, least significant first.
#[verifier::external_body]
fn bincode_serialize_u64(value: u64) -> (r: Result<Vec<u8>, Box<bincode::ErrorKind>>)
    ensures
        r is Ok,
        r->Ok_0@ == spec_u64_to_le_bytes(value),
{
    bincode::serialize(&value)
}

/// Calls `bincode::serialize` on a `u32`. The contract claims that the call
/// succeeds and gives the four bytes of the value, least significant first.
#[verifier::external_body]
fn bincode_serialize_u32(value: u32) -> (r: Result<Vec<u8>, Box<bincode::ErrorKind>>)
    ensures
        r is Ok,
        r->Ok_0@ == spec_u32_to_le_bytes(value),
{
    bincode::serialize(&value)
}

/// Calls `bincode::deserialize` for a `u64`. The contract claims that the call
/// reads the first eight bytes, least significant first, ignores what follows
/// them, and fails when fewer than eight bytes are there.
#[verifier::external_body]
fn bincode_deserialize_u64(bytes: &[u8]) -> (r: Result<u64, Box<bincode::ErrorKind>>)
    ensures
        bytes@.len() >= 8 ==> r is Ok && r->Ok_0 == spec_u64_from_le_bytes(bytes@.subrange(0, 8)),
        bytes@.len() < 8 ==> r is Err,
{
    bincode::deserialize::<u64>(bytes)
}

/// Calls `bincode::deserialize` for a `u32`. The contract claims that the call
/// reads the first four bytes, least significant first, ignores what follows
/// them, and fails when fewer than four bytes are there.
#[verifier::external_body]
fn bincode_deserialize_u32(bytes: &[u8]) -> (r: Result<u32, Box<bincode::ErrorKind>>)
    ensures
        bytes@.len() >= 4 ==> r is Ok && r->Ok_0 == spec_u32_from_le_bytes(bytes@.subrange(0, 4)),
        bytes@.len() < 4 ==> r is Err,
{
    bincode::deserialize::<u32>(bytes)
}

/// The eight bytes of `value`, least significant first.
pub fn u64_bytes(value: u64) -> (bytes: Vec<u8>)
    ensures
        bytes@ == spec_u64_to_le_bytes(value),
        bytes@.len() == 8,
{
    proof {
        lemma_auto_spec_u64_to_from_le_bytes();
    }
    match bincode_serialize_u64(value) {
        Ok(bytes) => bytes,
        Err(_) => Vec::new(),
    }
}

/// The four bytes of `value`, least significant first.
pub fn u32_bytes(value: u32) -> (bytes: Vec<u8>)
    ensures
        bytes@ == spec_u32_to_le_bytes(value),
        bytes@.len() == 4,
{
    proof {
        lemma_auto_spec_u32_to_from_le_bytes();
    }
    match bincode_serialize_u32(value) {
        Ok(bytes) => bytes,
        Err(_) => Vec::new(),
    }
}

/// The `u64` written at `pos`, if eight bytes are there.
pub fn read_u64(bytes: &[u8], pos: usize) -> (r: Option<u64>)
    ensures
        r == spec_read_u64(bytes@, pos as int),
{
    if pos > bytes.len() || bytes.len() - pos < 8 {
        return None;
    }
    let window = slice_subrange(bytes, pos, pos + 8);
    assert(window@.subrange(0, 8) == window@);
    match bincode_deserialize_u64(window) {
        Ok(value) => Some(value),
        Err(_) => None,
    }
}

/// The `u32` written at `pos`, if four bytes are there.
pub fn read_u32(bytes: &[u8], pos: usize) -> (r: Option<u32>)
    ensures
        r == spec_read_u32(bytes@, pos as int),
{
    if pos > bytes.len() || bytes.len() - pos < 4 {
        return None;
    }
    let window = slice_subrange(bytes, pos, pos + 4);
    assert(window@.subrange(0, 4) == window@);
    match bincode_deserialize_u32(window) {
        Ok(value) => Some(value),
        Err(_) => None,
    }
}

/// What a reader finds at `pos`: the little-endian `u64` in the next eight
/// bytes, or nothing when fewer than eight bytes follow.
pub open spec fn spec_read_u64(bytes: Seq<u8>, pos: int) -> Option<u64> {
    if 0 <= pos && pos + 8 <= bytes.len() {
        Some(spec_u64_from_le_bytes(bytes.subrange(pos, pos + 8)))
    } else {
        None
    }
}

/// What a reader finds at `pos`: the little-endian `u32` in the next four
/// bytes, or nothing when fewer than four bytes follow.
pub open spec fn spec_read_u32(bytes: Seq<u8>, pos: int) -> Option<u32> {
    if 0 <= pos && pos + 4 <= bytes.len() {
        Some(spec_u32_from_le_bytes(bytes.subrange(pos, pos + 4)))
    } else {
        None
    }
}

} // verus!
