//! Parsing of the opaque instruction payload.
//!
//! The first byte is a discriminant tag; tags 1 and 2 carry an 8-byte
//! little-endian unsigned amount.  Parsing is purely structural: any
//! unknown tag, missing tag byte or truncated payload yields `None`.

use vstd::bytes::spec_u64_from_le_bytes;
use vstd::bytes::u64_from_le_bytes;
use vstd::prelude::*;
use vstd::slice::slice_index_get;
use vstd::slice::slice_subrange;

verus! {

/// A request to the ledger, decoded from raw bytes.
#[derive(Clone, Copy, Debug, PartialEq, Eq, Structural)]
pub enum VaultInstruction {
    /// Tag 0: initialize a new vault.
    InitVault,
    /// Tag 1: move `amount` tokens from the requester into the pool.
    Deposit { amount: u64 },
    /// Tag 2: move `amount` tokens from the pool back to the requester.
    Withdraw { amount: u64 },
}

/// The instruction a byte sequence parses to, if any.
pub open spec fn spec_unpack_instruction(s: Seq<u8>) -> Option<VaultInstruction> {
    if s.len() == 0 {
        None
    } else if s[0] == 0 {
        Some(VaultInstruction::InitVault)
    } else if s[0] == 1 {
        if s.len() >= 9 {
            Some(
                VaultInstruction::Deposit { amount: spec_u64_from_le_bytes(s.subrange(1, 9)) },
            )
        } else {
            None
        }
    } else if s[0] == 2 {
        if s.len() >= 9 {
            Some(
                VaultInstruction::Withdraw { amount: spec_u64_from_le_bytes(s.subrange(1, 9)) },
            )
        } else {
            None
        }
    } else {
        None
    }
}

impl VaultInstruction {
    /// Parse a byte buffer into an instruction.
    ///
    /// Succeeds exactly on a tag byte of 0, or a tag byte of 1 or 2
    /// followed by at least 8 payload bytes; trailing bytes beyond the
    /// amount are ignored.
    pub fn unpack(input: &[u8]) -> (r: Option<VaultInstruction>)
        ensures
            r == spec_unpack_instruction(input@),
    {
        if input.len() == 0 {
            return None;
        }
        let tag = *slice_index_get(input, 0);
        if tag == 0 {
            Some(VaultInstruction::InitVault)
        } else if tag == 1 {
            if input.len() >= 9 {
                let amount = u64_from_le_bytes(slice_subrange(input, 1, 9));
                Some(VaultInstruction::Deposit { amount })
            } else {
                None
            }
        } else if tag == 2 {
            if input.len() >= 9 {
                let amount = u64_from_le_bytes(slice_subrange(input, 1, 9));
                Some(VaultInstruction::Withdraw { amount })
            } else {
                None
            }
        } else {
            None
        }
    }
}

} // verus!
