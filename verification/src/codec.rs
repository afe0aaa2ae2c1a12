//! The instruction payload wire format: exactly 8 bytes holding the gross
//! amount as an unsigned 64-bit little-endian integer.

use vstd::prelude::*;
use crate::error::ErrorKind;

verus! {

/// The length every well-formed payload must have.
pub const PAYLOAD_LEN: usize = 8;

/// The unsigned integer written little-endian in an 8-byte payload: the
/// byte at position `i` contributes its value times `256^i`.
pub open spec fn spec_le_amount(payload: Seq<u8>) -> int
    recommends
        payload.len() == 8,
{
    payload[0] + payload[1] * 0x100 + payload[2] * 0x1_0000 + payload[3] * 0x100_0000
        + payload[4] * 0x1_0000_0000 + payload[5] * 0x100_0000_0000
        + payload[6] * 0x1_0000_0000_0000 + payload[7] * 0x100_0000_0000_0000
}

/// Law: the amount written in any 8-byte payload fits an unsigned 64-bit
/// integer, whatever the byte content.
pub proof fn lemma_le_amount_fits(payload: Seq<u8>)
    requires
        payload.len() == 8,
    ensures
        0 <= spec_le_amount(payload) <= u64::MAX,
{
}

/// Decodes the gross amount from the payload. Exactly when the payload is
/// not 8 bytes long, whatever its content, the result is
/// `InvalidInstructionData`; otherwise it is the little-endian value.
pub fn decode_amount(payload: &Vec<u8>) -> (r: Result<u64, ErrorKind>)
    ensures
        payload@.len() == 8 ==> r == Ok::<u64, ErrorKind>(spec_le_amount(payload@) as u64),
        payload@.len() != 8 ==> r == Err::<u64, ErrorKind>(ErrorKind::InvalidInstructionData),
{
    if payload.len() != PAYLOAD_LEN {
        return Err(ErrorKind::InvalidInstructionData);
    }
    let b0 = payload[0] as u64;
    let b1 = payload[1] as u64;
    let b2 = payload[2] as u64;
    let b3 = payload[3] as u64;
    let b4 = payload[4] as u64;
    let b5 = payload[5] as u64;
    let b6 = payload[6] as u64;
    let b7 = payload[7] as u64;
    let amount = b0 + b1 * 0x100 + b2 * 0x1_0000 + b3 * 0x100_0000 + b4 * 0x1_0000_0000
        + b5 * 0x100_0000_0000 + b6 * 0x1_0000_0000_0000 + b7 * 0x100_0000_0000_0000;
    Ok(amount)
}

} // verus!
