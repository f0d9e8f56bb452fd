//! The ledger state machine.
//!
//! Each operation is a single transition over the records it touches.
//! An operation receives its full working set as explicit arguments —
//! the requester, the record buffers and their addresses — validates
//! every precondition, and only then produces the updated records
//! together with the transfer the host must perform.  A failed check
//! aborts the operation with the first violated precondition's error
//! and no record is changed.

use crate::derivation::derive_user_vault_address;
use crate::derivation::derive_vault_authority;
use crate::derivation::spec_find_program_address;
use crate::derivation::user_vault_seeds;
use crate::derivation::vault_authority_seeds;
use crate::error::VaultError;
use crate::instruction::spec_unpack_instruction;
use crate::instruction::VaultInstruction;
use crate::state::AbsUserVault;
use crate::state::AbsVault;
use crate::state::UserVault;
use crate::state::Vault;
use crate::state::keys_equal;
use crate::state::spec_unpack_user_vault;
use crate::state::spec_unpack_vault;
use crate::state::USER_VAULT_LEN;
use crate::state::VAULT_LEN;
use vstd::prelude::*;

verus! {

/// Which way the pooled holding account is touched by a transfer.
#[derive(Clone, Copy, Debug, PartialEq, Eq, Structural)]
pub enum TransferDirection {
    /// From the requester's holding account into the pool (a deposit).
    IntoPool,
    /// From the pool to the requester's holding account (a withdrawal).
    OutOfPool,
}

/// The credential under which the external transfer primitive is asked
/// to move the funds.
#[derive(Clone, Copy, Debug, PartialEq, Eq)]
pub enum TransferAuthority {
    /// The requester's own signature: used when funds enter the pool.
    Requester,
    /// The vault-wide derived authority and its disambiguation byte:
    /// the vault signs for itself when funds leave the pool.
    VaultAuthority { address: [u8; 32], bump: u8 },
}

/// The fund movement a successful operation asks the host to perform.
#[derive(Clone, Copy, Debug, PartialEq, Eq)]
pub struct TransferOrder {
    /// The externally managed account that holds the pooled funds.
    pub pool_account: [u8; 32],
    /// How many tokens to move.
    pub amount: u64,
    /// Whether the pool is the destination or the source.
    pub direction: TransferDirection,
    /// Who authorizes the movement.
    pub authority: TransferAuthority,
}

/// Everything a successful deposit or withdrawal commits: both updated
/// records and the transfer to perform.
#[derive(Clone, Copy, Debug, PartialEq, Eq)]
pub struct LedgerUpdate {
    pub vault: Vault,
    pub user_vault: UserVault,
    pub transfer: TransferOrder,
}

/// What creating a vault returns and on which inputs, stated over the
/// serialized slot contents.
pub open spec fn init_vault_post(
    initializer_signed: bool,
    initializer: Seq<u8>,
    vault_data: Seq<u8>,
    token_mint: Seq<u8>,
    vault_token_account: Seq<u8>,
    r: Result<Vault, VaultError>,
) -> bool {
    if !initializer_signed {
        r == Err::<Vault, VaultError>(VaultError::Unauthorized)
    } else if vault_data.len() != VAULT_LEN {
        r == Err::<Vault, VaultError>(VaultError::DecodeError)
    } else if spec_unpack_vault(vault_data).is_initialized {
        r == Err::<Vault, VaultError>(VaultError::AlreadyInitialized)
    } else {
        r matches Ok(v) && v@ == (AbsVault {
            is_initialized: true,
            owner: initializer,
            token_mint: token_mint,
            vault_token_account: vault_token_account,
            total_deposits: 0u64,
        })
    }
}

/// What a deposit returns and on which inputs, stated over the
/// serialized slot contents.  An empty user slot is a first deposit
/// and materializes a zero-balance record before crediting it.
pub open spec fn deposit_post(
    depositor_signed: bool,
    depositor: Seq<u8>,
    vault_address: Seq<u8>,
    vault_data: Seq<u8>,
    user_vault_address: Seq<u8>,
    user_vault_data: Seq<u8>,
    amount: u64,
    program_id: Seq<u8>,
    r: Result<LedgerUpdate, VaultError>,
) -> bool {
    if !depositor_signed {
        r == Err::<LedgerUpdate, VaultError>(VaultError::Unauthorized)
    } else if vault_data.len() != VAULT_LEN {
        r == Err::<LedgerUpdate, VaultError>(VaultError::DecodeError)
    } else {
        let vault = spec_unpack_vault(vault_data);
        if !vault.is_initialized {
            r == Err::<LedgerUpdate, VaultError>(VaultError::InvalidAccountData)
        } else {
            match spec_find_program_address(
                user_vault_seeds(depositor, vault_address),
                program_id,
            ) {
                None => r == Err::<LedgerUpdate, VaultError>(VaultError::InvalidAccountAddress),
                Some(pda) => {
                    if pda.0 != user_vault_address {
                        r == Err::<LedgerUpdate, VaultError>(VaultError::InvalidAccountAddress)
                    } else if user_vault_data.len() != 0 && user_vault_data.len()
                        != USER_VAULT_LEN {
                        r == Err::<LedgerUpdate, VaultError>(VaultError::DecodeError)
                    } else {
                        let prev = if user_vault_data.len() == 0 {
                            AbsUserVault {
                                is_initialized: true,
                                user: depositor,
                                vault: vault_address,
                                deposited_amount: 0u64,
                            }
                        } else {
                            spec_unpack_user_vault(user_vault_data)
                        };
                        if user_vault_data.len() == USER_VAULT_LEN && !prev.is_initialized {
                            r == Err::<LedgerUpdate, VaultError>(VaultError::InvalidAccountData)
                        } else if vault.total_deposits + amount > u64::MAX
                            || prev.deposited_amount + amount > u64::MAX {
                            r == Err::<LedgerUpdate, VaultError>(VaultError::ArithmeticOverflow)
                        } else {
                            r matches Ok(e) && e.vault@ == (AbsVault {
                                total_deposits: (vault.total_deposits + amount) as u64,
                                ..vault
                            }) && e.user_vault@ == (AbsUserVault {
                                deposited_amount: (prev.deposited_amount + amount) as u64,
                                ..prev
                            }) && e.transfer.pool_account@ == vault.vault_token_account
                                && e.transfer.amount == amount && e.transfer.direction
                                == TransferDirection::IntoPool && e.transfer.authority
                                == TransferAuthority::Requester
                        }
                    }
                },
            }
        }
    }
}

/// What a withdrawal returns and on which inputs, stated over the
/// serialized slot contents.  The depositor's record must already
/// exist, and every check — including balance sufficiency at both the
/// vault and the user level — precedes any record change.
pub open spec fn withdraw_post(
    user_signed: bool,
    user: Seq<u8>,
    vault_address: Seq<u8>,
    vault_data: Seq<u8>,
    user_vault_address: Seq<u8>,
    user_vault_data: Seq<u8>,
    amount: u64,
    program_id: Seq<u8>,
    r: Result<LedgerUpdate, VaultError>,
) -> bool {
    if !user_signed {
        r == Err::<LedgerUpdate, VaultError>(VaultError::Unauthorized)
    } else if vault_data.len() != VAULT_LEN {
        r == Err::<LedgerUpdate, VaultError>(VaultError::DecodeError)
    } else {
        let vault = spec_unpack_vault(vault_data);
        if !vault.is_initialized {
            r == Err::<LedgerUpdate, VaultError>(VaultError::InvalidAccountData)
        } else {
            match spec_find_program_address(user_vault_seeds(user, vault_address), program_id) {
                None => r == Err::<LedgerUpdate, VaultError>(VaultError::InvalidAccountAddress),
                Some(pda) => {
                    if pda.0 != user_vault_address {
                        r == Err::<LedgerUpdate, VaultError>(VaultError::InvalidAccountAddress)
                    } else if user_vault_data.len() == 0 {
                        r == Err::<LedgerUpdate, VaultError>(VaultError::InvalidAccountData)
                    } else if user_vault_data.len() != USER_VAULT_LEN {
                        r == Err::<LedgerUpdate, VaultError>(VaultError::DecodeError)
                    } else {
                        let prev = spec_unpack_user_vault(user_vault_data);
                        if !prev.is_initialized {
                            r == Err::<LedgerUpdate, VaultError>(VaultError::InvalidAccountData)
                        } else if amount > vault.total_deposits || amount
                            > prev.deposited_amount {
                            r == Err::<LedgerUpdate, VaultError>(VaultError::InsufficientFunds)
                        } else {
                            match spec_find_program_address(vault_authority_seeds(), program_id) {
                                None => r == Err::<LedgerUpdate, VaultError>(
                                    VaultError::InvalidAccountAddress,
                                ),
                                Some(auth) => {
                                    r matches Ok(e) && e.vault@ == (AbsVault {
                                        total_deposits: (vault.total_deposits - amount) as u64,
                                        ..vault
                                    }) && e.user_vault@ == (AbsUserVault {
                                        deposited_amount: (prev.deposited_amount - amount) as u64,
                                        ..prev
                                    }) && e.transfer.pool_account@ == vault.vault_token_account
                                        && e.transfer.amount == amount && e.transfer.direction
                                        == TransferDirection::OutOfPool
                                        && (e.transfer.authority matches
                                            TransferAuthority::VaultAuthority {
                                            address,
                                            bump,
                                        } && address@ == auth.0 && bump == auth.1)
                                },
                            }
                        }
                    }
                },
            }
        }
    }
}

/// Create the vault record in a fresh slot.
///
/// The requester must present the signed capability and the slot must
/// decode to a record that is not yet initialized; the new record
/// carries the requester as owner and starts with no deposits.
pub fn init_vault(
    initializer_signed: bool,
    initializer: &[u8; 32],
    vault_data: &[u8],
    token_mint: &[u8; 32],
    vault_token_account: &[u8; 32],
) -> (r: Result<Vault, VaultError>)
    ensures
        init_vault_post(
            initializer_signed,
            initializer@,
            vault_data@,
            token_mint@,
            vault_token_account@,
            r,
        ),
{
    if !initializer_signed {
        return Err(VaultError::Unauthorized);
    }
    let existing = match Vault::unpack_from_slice(vault_data) {
        Ok(v) => v,
        Err(e) => {
            return Err(e);
        },
    };
    if existing.is_initialized() {
        return Err(VaultError::AlreadyInitialized);
    }
    Ok(
        Vault {
            is_initialized: true,
            owner: *initializer,
            token_mint: *token_mint,
            vault_token_account: *vault_token_account,
            total_deposits: 0,
        },
    )
}

/// Deposit `amount` tokens into the pool for `depositor`.
///
/// All preconditions — the signed capability, an initialized vault,
/// the canonical user record address, and both checked additions —
/// are validated before the updated records are produced, so a failed
/// deposit commits nothing.
pub fn deposit_tokens(
    depositor_signed: bool,
    depositor: &[u8; 32],
    vault_address: &[u8; 32],
    vault_data: &[u8],
    user_vault_address: &[u8; 32],
    user_vault_data: &[u8],
    amount: u64,
    program_id: &[u8; 32],
) -> (r: Result<LedgerUpdate, VaultError>)
    ensures
        deposit_post(
            depositor_signed,
            depositor@,
            vault_address@,
            vault_data@,
            user_vault_address@,
            user_vault_data@,
            amount,
            program_id@,
            r,
        ),
{
    if !depositor_signed {
        return Err(VaultError::Unauthorized);
    }
    let vault = match Vault::unpack_from_slice(vault_data) {
        Ok(v) => v,
        Err(e) => {
            return Err(e);
        },
    };
    if !vault.is_initialized() {
        return Err(VaultError::InvalidAccountData);
    }
    let expected = match derive_user_vault_address(depositor, vault_address, program_id) {
        Some(p) => p.0,
        None => {
            return Err(VaultError::InvalidAccountAddress);
        },
    };
    if !keys_equal(&expected, user_vault_address) {
        return Err(VaultError::InvalidAccountAddress);
    }
    let prev = if user_vault_data.len() == 0 {
        UserVault {
            is_initialized: true,
            user: *depositor,
            vault: *vault_address,
            deposited_amount: 0,
        }
    } else {
        let u = match UserVault::unpack_from_slice(user_vault_data) {
            Ok(u) => u,
            Err(e) => {
                return Err(e);
            },
        };
        if !u.is_initialized() {
            return Err(VaultError::InvalidAccountData);
        }
        u
    };
    let new_total = match vault.total_deposits.checked_add(amount) {
        Some(t) => t,
        None => {
            return Err(VaultError::ArithmeticOverflow);
        },
    };
    let new_amount = match prev.deposited_amount.checked_add(amount) {
        Some(t) => t,
        None => {
            return Err(VaultError::ArithmeticOverflow);
        },
    };
    Ok(
        LedgerUpdate {
            vault: Vault { total_deposits: new_total, ..vault },
            user_vault: UserVault { deposited_amount: new_amount, ..prev },
            transfer: TransferOrder {
                pool_account: vault.vault_token_account,
                amount,
                direction: TransferDirection::IntoPool,
                authority: TransferAuthority::Requester,
            },
        },
    )
}

/// Withdraw `amount` tokens from the pool for `user`.
///
/// All preconditions — the signed capability, an initialized vault,
/// the canonical user record address, an existing user record, and
/// sufficiency of both the vault total and the user's balance — are
/// validated before the updated records are produced, so a failed
/// withdrawal commits nothing.  The outgoing transfer is authorized by
/// the vault-wide derived authority.
pub fn withdraw_tokens(
    user_signed: bool,
    user: &[u8; 32],
    vault_address: &[u8; 32],
    vault_data: &[u8],
    user_vault_address: &[u8; 32],
    user_vault_data: &[u8],
    amount: u64,
    program_id: &[u8; 32],
) -> (r: Result<LedgerUpdate, VaultError>)
    ensures
        withdraw_post(
            user_signed,
            user@,
            vault_address@,
            vault_data@,
            user_vault_address@,
            user_vault_data@,
            amount,
            program_id@,
            r,
        ),
{
    if !user_signed {
        return Err(VaultError::Unauthorized);
    }
    let vault = match Vault::unpack_from_slice(vault_data) {
        Ok(v) => v,
        Err(e) => {
            return Err(e);
        },
    };
    if !vault.is_initialized() {
        return Err(VaultError::InvalidAccountData);
    }
    let expected = match derive_user_vault_address(user, vault_address, program_id) {
        Some(p) => p.0,
        None => {
            return Err(VaultError::InvalidAccountAddress);
        },
    };
    if !keys_equal(&expected, user_vault_address) {
        return Err(VaultError::InvalidAccountAddress);
    }
    if user_vault_data.len() == 0 {
        return Err(VaultError::InvalidAccountData);
    }
    let prev = match UserVault::unpack_from_slice(user_vault_data) {
        Ok(u) => u,
        Err(e) => {
            return Err(e);
        },
    };
    if !prev.is_initialized() {
        return Err(VaultError::InvalidAccountData);
    }
    let new_total = match vault.total_deposits.checked_sub(amount) {
        Some(t) => t,
        None => {
            return Err(VaultError::InsufficientFunds);
        },
    };
    let new_amount = match prev.deposited_amount.checked_sub(amount) {
        Some(t) => t,
        None => {
            return Err(VaultError::InsufficientFunds);
        },
    };
    let (auth_address, auth_bump) = match derive_vault_authority(program_id) {
        Some(p) => p,
        None => {
            return Err(VaultError::InvalidAccountAddress);
        },
    };
    Ok(
        LedgerUpdate {
            vault: Vault { total_deposits: new_total, ..vault },
            user_vault: UserVault { deposited_amount: new_amount, ..prev },
            transfer: TransferOrder {
                pool_account: vault.vault_token_account,
                amount,
                direction: TransferDirection::OutOfPool,
                authority: TransferAuthority::VaultAuthority {
                    address: auth_address,
                    bump: auth_bump,
                },
            },
        },
    )
}


/// The working set one invocation receives: the requester and its
/// signed capability, the vault slot, the accounts a creation records,
/// and the depositor's slot.  Fields that an operation does not touch
/// are ignored by it.
#[derive(Clone, Debug, PartialEq, Eq)]
pub struct AccountSet {
    /// The principal asking for the operation.
    pub requester: [u8; 32],
    /// Whether the requester presented the signed capability.
    pub requester_signed: bool,
    /// Address of the vault record's slot.
    pub vault_address: [u8; 32],
    /// Current contents of the vault record's slot.
    pub vault_data: Vec<u8>,
    /// The asset type a new vault will custody (creation only).
    pub token_mint: [u8; 32],
    /// The pooled holding account of a new vault (creation only).
    pub vault_token_account: [u8; 32],
    /// Caller-supplied address of the depositor's record slot
    /// (deposit and withdrawal only).
    pub user_vault_address: [u8; 32],
    /// Current contents of the depositor's record slot; empty means
    /// the slot is unwritten (deposit and withdrawal only).
    pub user_vault_data: Vec<u8>,
}

/// What one successful invocation commits.
#[derive(Clone, Debug, PartialEq, Eq)]
pub enum Effect {
    /// A vault record to write into a fresh slot.
    Created { vault: Vault },
    /// Both updated records and the incoming transfer of a deposit.
    Deposited { update: LedgerUpdate },
    /// Both updated records and the outgoing transfer of a withdrawal.
    Withdrawn { update: LedgerUpdate },
}

/// What processing an instruction returns: the instruction bytes are
/// parsed and the matching operation's postcondition holds for its
/// part of the working set.
pub open spec fn process_post(
    program_id: Seq<u8>,
    accounts: AccountSet,
    instruction_data: Seq<u8>,
    r: Result<Effect, VaultError>,
) -> bool {
    match spec_unpack_instruction(instruction_data) {
        None => r == Err::<Effect, VaultError>(VaultError::DecodeError),
        Some(VaultInstruction::InitVault) => match r {
            Ok(e) => e matches Effect::Created { vault } && init_vault_post(
                accounts.requester_signed,
                accounts.requester@,
                accounts.vault_data@,
                accounts.token_mint@,
                accounts.vault_token_account@,
                Ok(vault),
            ),
            Err(e) => init_vault_post(
                accounts.requester_signed,
                accounts.requester@,
                accounts.vault_data@,
                accounts.token_mint@,
                accounts.vault_token_account@,
                Err(e),
            ),
        },
        Some(VaultInstruction::Deposit { amount }) => match r {
            Ok(e) => e matches Effect::Deposited { update } && deposit_post(
                accounts.requester_signed,
                accounts.requester@,
                accounts.vault_address@,
                accounts.vault_data@,
                accounts.user_vault_address@,
                accounts.user_vault_data@,
                amount,
                program_id,
                Ok(update),
            ),
            Err(e) => deposit_post(
                accounts.requester_signed,
                accounts.requester@,
                accounts.vault_address@,
                accounts.vault_data@,
                accounts.user_vault_address@,
                accounts.user_vault_data@,
                amount,
                program_id,
                Err(e),
            ),
        },
        Some(VaultInstruction::Withdraw { amount }) => match r {
            Ok(e) => e matches Effect::Withdrawn { update } && withdraw_post(
                accounts.requester_signed,
                accounts.requester@,
                accounts.vault_address@,
                accounts.vault_data@,
                accounts.user_vault_address@,
                accounts.user_vault_data@,
                amount,
                program_id,
                Ok(update),
            ),
            Err(e) => withdraw_post(
                accounts.requester_signed,
                accounts.requester@,
                accounts.vault_address@,
                accounts.vault_data@,
                accounts.user_vault_address@,
                accounts.user_vault_data@,
                amount,
                program_id,
                Err(e),
            ),
        },
    }
}

/// Decode the instruction bytes and run the operation they ask for
/// against the supplied working set.
pub fn process_instruction(
    program_id: &[u8; 32],
    accounts: &AccountSet,
    instruction_data: &[u8],
) -> (r: Result<Effect, VaultError>)
    ensures
        process_post(program_id@, *accounts, instruction_data@, r),
{
    let instruction = match VaultInstruction::unpack(instruction_data) {
        Some(i) => i,
        None => {
            return Err(VaultError::DecodeError);
        },
    };
    match instruction {
        VaultInstruction::InitVault => {
            match init_vault(
                accounts.requester_signed,
                &accounts.requester,
                accounts.vault_data.as_slice(),
                &accounts.token_mint,
                &accounts.vault_token_account,
            ) {
                Ok(vault) => Ok(Effect::Created { vault }),
                Err(e) => Err(e),
            }
        },
        VaultInstruction::Deposit { amount } => {
            match deposit_tokens(
                accounts.requester_signed,
                &accounts.requester,
                &accounts.vault_address,
                accounts.vault_data.as_slice(),
                &accounts.user_vault_address,
                accounts.user_vault_data.as_slice(),
                amount,
                program_id,
            ) {
                Ok(update) => Ok(Effect::Deposited { update }),
                Err(e) => Err(e),
            }
        },
        VaultInstruction::Withdraw { amount } => {
            match withdraw_tokens(
                accounts.requester_signed,
                &accounts.requester,
                &accounts.vault_address,
                accounts.vault_data.as_slice(),
                &accounts.user_vault_address,
                accounts.user_vault_data.as_slice(),
                amount,
                program_id,
            ) {
                Ok(update) => Ok(Effect::Withdrawn { update }),
                Err(e) => Err(e),
            }
        },
    }
}


/// Sum of a sequence of per-depositor amounts, as an unbounded integer.
pub open spec fn sum_amounts(s: Seq<u64>) -> int
    decreases s.len(),
{
    if s.len() == 0 {
        0
    } else {
        sum_amounts(s.drop_last()) + s.last()
    }
}

/// Replacing one element changes the sum by the difference.
proof fn lemma_sum_update(s: Seq<u64>, i: int, v: u64)
    requires
        0 <= i < s.len(),
    ensures
        sum_amounts(s.update(i, v)) == sum_amounts(s) - s[i] + v,
    decreases s.len(),
{
    if i == s.len() - 1 {
        assert(s.update(i, v).drop_last() =~= s.drop_last());
    } else {
        assert(s.update(i, v).drop_last() =~= s.drop_last().update(i, v));
        lemma_sum_update(s.drop_last(), i, v);
    }
}

/// Appending one element adds it to the sum.
proof fn lemma_sum_push(s: Seq<u64>, v: u64)
    ensures
        sum_amounts(s.push(v)) == sum_amounts(s) + v,
{
    assert(s.push(v).drop_last() =~= s);
}

/// The ledger invariant is preserved by a deposit into an existing
/// user record: if the vault total equalled the sum of all
/// depositors' amounts, and depositor `i`'s record is the one the
/// deposit credits, the new total equals the sum with depositor `i`'s
/// amount replaced by the credited one.
pub proof fn lemma_deposit_preserves_ledger_sum(
    depositor_signed: bool,
    depositor: Seq<u8>,
    vault_address: Seq<u8>,
    vault_data: Seq<u8>,
    user_vault_address: Seq<u8>,
    user_vault_data: Seq<u8>,
    amount: u64,
    program_id: Seq<u8>,
    e: LedgerUpdate,
    amounts: Seq<u64>,
    i: int,
)
    requires
        deposit_post(
            depositor_signed,
            depositor,
            vault_address,
            vault_data,
            user_vault_address,
            user_vault_data,
            amount,
            program_id,
            Ok(e),
        ),
        user_vault_data.len() == USER_VAULT_LEN,
        0 <= i < amounts.len(),
        amounts[i] == spec_unpack_user_vault(user_vault_data).deposited_amount,
        spec_unpack_vault(vault_data).total_deposits == sum_amounts(amounts),
    ensures
        e.vault@.total_deposits == sum_amounts(
            amounts.update(i, e.user_vault@.deposited_amount),
        ),
{
    lemma_sum_update(amounts, i, e.user_vault@.deposited_amount);
}

/// The ledger invariant is preserved by a first deposit: the new
/// total equals the sum of the existing depositors' amounts with the
/// materialized record's amount appended.
pub proof fn lemma_first_deposit_preserves_ledger_sum(
    depositor_signed: bool,
    depositor: Seq<u8>,
    vault_address: Seq<u8>,
    vault_data: Seq<u8>,
    user_vault_address: Seq<u8>,
    user_vault_data: Seq<u8>,
    amount: u64,
    program_id: Seq<u8>,
    e: LedgerUpdate,
    amounts: Seq<u64>,
)
    requires
        deposit_post(
            depositor_signed,
            depositor,
            vault_address,
            vault_data,
            user_vault_address,
            user_vault_data,
            amount,
            program_id,
            Ok(e),
        ),
        user_vault_data.len() == 0,
        spec_unpack_vault(vault_data).total_deposits == sum_amounts(amounts),
    ensures
        e.vault@.total_deposits == sum_amounts(amounts.push(e.user_vault@.deposited_amount)),
{
    lemma_sum_push(amounts, e.user_vault@.deposited_amount);
}

/// The ledger invariant is preserved by a withdrawal: if the vault
/// total equalled the sum of all depositors' amounts, and depositor
/// `i`'s record is the one the withdrawal debits, the new total
/// equals the sum with depositor `i`'s amount replaced by the debited
/// one.
pub proof fn lemma_withdraw_preserves_ledger_sum(
    user_signed: bool,
    user: Seq<u8>,
    vault_address: Seq<u8>,
    vault_data: Seq<u8>,
    user_vault_address: Seq<u8>,
    user_vault_data: Seq<u8>,
    amount: u64,
    program_id: Seq<u8>,
    e: LedgerUpdate,
    amounts: Seq<u64>,
    i: int,
)
    requires
        withdraw_post(
            user_signed,
            user,
            vault_address,
            vault_data,
            user_vault_address,
            user_vault_data,
            amount,
            program_id,
            Ok(e),
        ),
        0 <= i < amounts.len(),
        amounts[i] == spec_unpack_user_vault(user_vault_data).deposited_amount,
        spec_unpack_vault(vault_data).total_deposits == sum_amounts(amounts),
    ensures
        e.vault@.total_deposits == sum_amounts(
            amounts.update(i, e.user_vault@.deposited_amount),
        ),
{
    lemma_sum_update(amounts, i, e.user_vault@.deposited_amount);
}


/// Creating a vault establishes the ledger invariant: the fresh
/// record's total equals the sum over the (empty) set of depositors.
pub proof fn lemma_create_establishes_ledger_sum(
    initializer_signed: bool,
    initializer: Seq<u8>,
    vault_data: Seq<u8>,
    token_mint: Seq<u8>,
    vault_token_account: Seq<u8>,
    v: Vault,
)
    requires
        init_vault_post(
            initializer_signed,
            initializer,
            vault_data,
            token_mint,
            vault_token_account,
            Ok(v),
        ),
    ensures
        v@.total_deposits == sum_amounts(Seq::<u64>::empty()),
{
}

} // verus!
