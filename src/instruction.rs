use vstd::prelude::*;

use crate::codec::{le_u64_at, read_u64_le};
use crate::error::EscrowError;

verus! {

/// The three operations of the escrow.
#[derive(Clone, Copy, Debug, PartialEq, Eq, Structural)]
pub enum EscrowInstruction {
    /// Open an escrow that expects `amount` of the counter-asset.
    InitEscrow { amount: u64 },
    /// Fulfil an escrow by supplying `amount` of the counter-asset.
    Exchange { amount: u64 },
    /// Close an escrow and return the deposit to its initializer.
    Cancel,
}

/// The instruction that a buffer encodes: a tag byte, then for Init and
/// Exchange an eight-byte little-endian amount. Bytes past those are ignored.
pub open spec fn decode_instruction(d: Seq<u8>) -> Result<EscrowInstruction, EscrowError> {
    if d.len() == 0 {
        Err(EscrowError::InvalidInstruction)
    } else if d[0] == 0 && d.len() >= 9 {
        Ok(EscrowInstruction::InitEscrow { amount: le_u64_at(d, 1) })
    } else if d[0] == 1 && d.len() >= 9 {
        Ok(EscrowInstruction::Exchange { amount: le_u64_at(d, 1) })
    } else if d[0] == 2 {
        Ok(EscrowInstruction::Cancel)
    } else {
        Err(EscrowError::InvalidInstruction)
    }
}

impl EscrowInstruction {
    /// Decodes an instruction buffer.
    pub fn unpack(input: &[u8]) -> (r: Result<EscrowInstruction, EscrowError>)
        ensures
            r == decode_instruction(input@),
    {
        if input.len() == 0 {
            return Err(EscrowError::InvalidInstruction);
        }
        let tag = input[0];
        if tag == 0 && input.len() >= 9 {
            Ok(EscrowInstruction::InitEscrow { amount: read_u64_le(input, 1) })
        } else if tag == 1 && input.len() >= 9 {
            Ok(EscrowInstruction::Exchange { amount: read_u64_le(input, 1) })
        } else if tag == 2 {
            Ok(EscrowInstruction::Cancel)
        } else {
            Err(EscrowError::InvalidInstruction)
        }
    }
}

} // verus!
