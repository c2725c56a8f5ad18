use crate::state::TokenError;
use vstd::prelude::*;

verus! {

/// A decoded operation. Lives only for the duration of one dispatch call.
#[derive(Clone, Copy, Debug, PartialEq, Eq, Structural)]
pub enum TokenInstruction {
    InitializeMint { decimals: u8 },
    MintTokens { amount: u64 },
    TransferTokens { amount: u64 },
}

/// What decoding an instruction payload yields: byte 0 is the discriminant
/// tag, the rest the operand.  Tag 0 takes a one-byte decimals operand, tags
/// 1 and 2 an eight-byte little-endian amount; an unknown tag or an
/// undersized operand is malformed.  Operand bytes beyond the ones read are
/// ignored.
pub open spec fn decode_spec(input: Seq<u8>) -> Result<TokenInstruction, TokenError> {
    if input.len() == 0 {
        Err(TokenError::MalformedInstruction)
    } else if input[0] == 0 {
        if input.len() >= 2 {
            Ok(TokenInstruction::InitializeMint { decimals: input[1] })
        } else {
            Err(TokenError::MalformedInstruction)
        }
    } else if input[0] == 1 {
        if input.len() >= 9 {
            Ok(TokenInstruction::MintTokens { amount: operand_u64(input) })
        } else {
            Err(TokenError::MalformedInstruction)
        }
    } else if input[0] == 2 {
        if input.len() >= 9 {
            Ok(TokenInstruction::TransferTokens { amount: operand_u64(input) })
        } else {
            Err(TokenError::MalformedInstruction)
        }
    } else {
        Err(TokenError::MalformedInstruction)
    }
}

/// The eight operand bytes after the tag, read as a little-endian integer.
pub open spec fn operand_u64(input: Seq<u8>) -> u64
    recommends
        input.len() >= 9,
{
    vstd::bytes::spec_u64_from_le_bytes(input.subrange(1, 9))
}

impl TokenInstruction {
    /// Parse a raw payload into a typed operation.  Pure: no side effects.
    pub fn unpack(input: &[u8]) -> (r: Result<TokenInstruction, TokenError>)
        ensures
            r == decode_spec(input@),
    {
        if input.len() == 0 {
            return Err(TokenError::MalformedInstruction);
        }
        let tag = *vstd::slice::slice_index_get(input, 0);
        if tag == 0 {
            if input.len() >= 2 {
                let decimals = *vstd::slice::slice_index_get(input, 1);
                Ok(TokenInstruction::InitializeMint { decimals })
            } else {
                Err(TokenError::MalformedInstruction)
            }
        } else if tag == 1 || tag == 2 {
            if input.len() >= 9 {
                let operand = vstd::slice::slice_subrange(input, 1, 9);
                let amount = vstd::bytes::u64_from_le_bytes(operand);
                if tag == 1 {
                    Ok(TokenInstruction::MintTokens { amount })
                } else {
                    Ok(TokenInstruction::TransferTokens { amount })
                }
            } else {
                Err(TokenError::MalformedInstruction)
            }
        } else {
            Err(TokenError::MalformedInstruction)
        }
    }
}

} // verus!
