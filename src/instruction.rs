use vstd::prelude::*;
use vstd::bytes::{spec_u64_from_le_bytes, u64_from_le_bytes};
use crate::error::EscrowError;

verus! {

/// Width of the amount that follows the `InitEscrow` opcode.
pub const AMOUNT_LEN: usize = 8;

/// A decoded escrow instruction.
#[derive(Clone, Copy, Debug, PartialEq, Eq, Structural)]
pub enum EscrowInstruction {
    /// Opcode 0: lock `amount` in a new escrow.
    InitEscrow { amount: u64 },
    /// Opcode 1: pay a matured escrow out to its receiver.
    ReleaseEscrow,
    /// Opcode 2: a no-op acknowledgement, for liveness checks.
    Oracle,
}

/// The instruction set that also routes deposit collection.
#[derive(Clone, Copy, Debug, PartialEq, Eq, Structural)]
pub enum EscrowRoutes {
    /// Opcode 0: lock `amount` in a new escrow.
    InitEscrow { amount: u64 },
    /// Opcode 1: pay a matured escrow out to its receiver.
    ReleaseEscrow,
    /// Opcode 2: collect a wallet deposit.
    CollectDeposit,
    /// Opcode 3: a no-op acknowledgement, for liveness checks.
    Oracle,
}

/// The amount an `InitEscrow` payload holds: exactly eight little-endian bytes.
pub open spec fn decode_amount(payload: Seq<u8>) -> Option<u64> {
    if payload.len() == AMOUNT_LEN {
        Some(spec_u64_from_le_bytes(payload))
    } else {
        None
    }
}

/// The instruction a buffer holds: an opcode byte, then its payload.
pub open spec fn decode_instruction(s: Seq<u8>) -> Option<EscrowInstruction> {
    if s.len() == 0 {
        None
    } else if s[0] == 0 {
        match decode_amount(s.drop_first()) {
            Some(amount) => Some(EscrowInstruction::InitEscrow { amount }),
            None => None,
        }
    } else if s[0] == 1 {
        Some(EscrowInstruction::ReleaseEscrow)
    } else if s[0] == 2 {
        Some(EscrowInstruction::Oracle)
    } else {
        None
    }
}

/// The route a buffer holds: an opcode byte, then its payload.
pub open spec fn decode_route(s: Seq<u8>) -> Option<EscrowRoutes> {
    if s.len() == 0 {
        None
    } else if s[0] == 0 {
        match decode_amount(s.drop_first()) {
            Some(amount) => Some(EscrowRoutes::InitEscrow { amount }),
            None => None,
        }
    } else if s[0] == 1 {
        Some(EscrowRoutes::ReleaseEscrow)
    } else if s[0] == 2 {
        Some(EscrowRoutes::CollectDeposit)
    } else if s[0] == 3 {
        Some(EscrowRoutes::Oracle)
    } else {
        None
    }
}

/// Reads an `InitEscrow` amount; `InvalidInstruction` unless the payload is
/// exactly eight bytes.
fn read_amount(input: &[u8]) -> (r: Result<u64, EscrowError>)
    ensures
        r matches Ok(a) ==> decode_amount(input@) == Some(a),
        r matches Err(e) ==> decode_amount(input@) is None && e == EscrowError::InvalidInstruction,
{
    if input.len() != AMOUNT_LEN {
        return Err(EscrowError::InvalidInstruction);
    }
    Ok(u64_from_le_bytes(input))
}

impl EscrowInstruction {
    /// Decodes an instruction.  Fails with `InvalidInstruction` on an empty
    /// buffer, an unknown opcode, or an `InitEscrow` payload that is not
    /// exactly eight bytes; the payload of the other opcodes is not read.
    pub fn unpack(input: &[u8]) -> (r: Result<EscrowInstruction, EscrowError>)
        ensures
            r matches Ok(ix) ==> decode_instruction(input@) == Some(ix),
            r matches Err(e) ==> decode_instruction(input@) is None
                && e == EscrowError::InvalidInstruction,
    {
        if input.len() == 0 {
            return Err(EscrowError::InvalidInstruction);
        }
        let tag = input[0];
        let rest = vstd::slice::slice_subrange(input, 1, input.len());
        assert(rest@ == input@.drop_first());
        if tag == 0 {
            let amount = Self::unpack_amount(rest)?;
            Ok(EscrowInstruction::InitEscrow { amount })
        } else if tag == 1 {
            Ok(EscrowInstruction::ReleaseEscrow)
        } else if tag == 2 {
            Ok(EscrowInstruction::Oracle)
        } else {
            Err(EscrowError::InvalidInstruction)
        }
    }

    /// Reads the amount of an `InitEscrow` payload.
    pub fn unpack_amount(input: &[u8]) -> (r: Result<u64, EscrowError>)
        ensures
            r matches Ok(a) ==> decode_amount(input@) == Some(a),
            r matches Err(e) ==> decode_amount(input@) is None
                && e == EscrowError::InvalidInstruction,
    {
        read_amount(input)
    }
}

impl EscrowRoutes {
    /// Decodes a route.  Fails with `InvalidInstruction` on an empty buffer,
    /// an unknown opcode, or an `InitEscrow` payload that is not exactly
    /// eight bytes.
    pub fn unpack(input: &[u8]) -> (r: Result<EscrowRoutes, EscrowError>)
        ensures
            r matches Ok(ix) ==> decode_route(input@) == Some(ix),
            r matches Err(e) ==> decode_route(input@) is None
                && e == EscrowError::InvalidInstruction,
    {
        if input.len() == 0 {
            return Err(EscrowError::InvalidInstruction);
        }
        let tag = input[0];
        let rest = vstd::slice::slice_subrange(input, 1, input.len());
        assert(rest@ == input@.drop_first());
        if tag == 0 {
            let amount = Self::unpack_amount(rest)?;
            Ok(EscrowRoutes::InitEscrow { amount })
        } else if tag == 1 {
            Ok(EscrowRoutes::ReleaseEscrow)
        } else if tag == 2 {
            Ok(EscrowRoutes::CollectDeposit)
        } else if tag == 3 {
            Ok(EscrowRoutes::Oracle)
        } else {
            Err(EscrowError::InvalidInstruction)
        }
    }

    /// Reads the amount of an `InitEscrow` payload.
    pub fn unpack_amount(input: &[u8]) -> (r: Result<u64, EscrowError>)
        ensures
            r matches Ok(a) ==> decode_amount(input@) == Some(a),
            r matches Err(e) ==> decode_amount(input@) is None
                && e == EscrowError::InvalidInstruction,
    {
        read_amount(input)
    }
}

} // verus!
