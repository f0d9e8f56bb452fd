//! The two durable record kinds and their fixed-width binary codec.
//!
//! A record lives in a caller-supplied byte buffer of a fixed length.
//! Booleans serialize as a single byte: the encoder writes exactly 0
//! or 1, the decoder accepts any non-zero byte as true.  Multi-byte
//! integers are little-endian.

use crate::error::VaultError;
use vstd::bytes::lemma_auto_spec_u64_to_from_le_bytes;
use vstd::bytes::spec_u64_from_le_bytes;
use vstd::bytes::spec_u64_to_le_bytes;
use vstd::bytes::spec_u64_to_le_bytes_to_open;
use vstd::bytes::spec_u64_to_le_bytes_open;
use vstd::bytes::u64_from_le_bytes;
use vstd::bytes::u64_to_le_bytes;
use vstd::prelude::*;
use vstd::slice::slice_index_get;
use vstd::slice::slice_subrange;

verus! {

/// Serialized length of a [`Vault`] record:
/// `[is_initialized:1][owner:32][token_mint:32][vault_token_account:32][total_deposits:8]`.
pub const VAULT_LEN: usize = 105;

/// Serialized length of a [`UserVault`] record:
/// `[is_initialized:1][user:32][vault:32][deposited_amount:8]`.
pub const USER_VAULT_LEN: usize = 73;

/// The shared vault record, one per deployed vault instance.
#[derive(Clone, Copy, Debug, PartialEq, Eq)]
pub struct Vault {
    /// Guards against re-creation: set once by CreateVault, never cleared.
    pub is_initialized: bool,
    /// The account that created the vault.  Recorded at creation;
    /// mutating operations do not restrict callers to it.
    pub owner: [u8; 32],
    /// The fungible-asset type this vault custodies.
    pub token_mint: [u8; 32],
    /// The externally managed account that physically holds the pooled funds.
    pub vault_token_account: [u8; 32],
    /// Sum of all currently outstanding per-user deposits.
    pub total_deposits: u64,
}

/// One depositor's outstanding claim against a vault, lazily created
/// on that depositor's first deposit.
#[derive(Clone, Copy, Debug, PartialEq, Eq)]
pub struct UserVault {
    pub is_initialized: bool,
    /// The depositor.
    pub user: [u8; 32],
    /// Back-reference to the owning vault record's address.
    pub vault: [u8; 32],
    /// This depositor's outstanding claim.
    pub deposited_amount: u64,
}

/// Mathematical model of a [`Vault`]: the same fields with the keys as
/// byte sequences.
#[verifier::ext_equal]
pub struct AbsVault {
    pub is_initialized: bool,
    pub owner: Seq<u8>,
    pub token_mint: Seq<u8>,
    pub vault_token_account: Seq<u8>,
    pub total_deposits: u64,
}

/// Mathematical model of a [`UserVault`].
#[verifier::ext_equal]
pub struct AbsUserVault {
    pub is_initialized: bool,
    pub user: Seq<u8>,
    pub vault: Seq<u8>,
    pub deposited_amount: u64,
}

impl View for Vault {
    type V = AbsVault;

    open spec fn view(&self) -> AbsVault {
        AbsVault {
            is_initialized: self.is_initialized,
            owner: self.owner@,
            token_mint: self.token_mint@,
            vault_token_account: self.vault_token_account@,
            total_deposits: self.total_deposits,
        }
    }
}

impl View for UserVault {
    type V = AbsUserVault;

    open spec fn view(&self) -> AbsUserVault {
        AbsUserVault {
            is_initialized: self.is_initialized,
            user: self.user@,
            vault: self.vault@,
            deposited_amount: self.deposited_amount,
        }
    }
}

impl AbsVault {
    /// Every key field has the fixed key width.
    pub open spec fn wf(self) -> bool {
        self.owner.len() == 32 && self.token_mint.len() == 32
            && self.vault_token_account.len() == 32
    }
}

impl AbsUserVault {
    /// Every key field has the fixed key width.
    pub open spec fn wf(self) -> bool {
        self.user.len() == 32 && self.vault.len() == 32
    }
}

/// The single byte the encoder writes for a boolean.
pub open spec fn spec_bool_byte(b: bool) -> u8 {
    if b {
        1u8
    } else {
        0u8
    }
}

/// A sequence of `n` zero bytes, the contents of an untouched slot.
pub open spec fn zero_bytes(n: nat) -> Seq<u8> {
    Seq::new(n, |i: int| 0u8)
}

/// Serialized form of a vault record.
pub open spec fn spec_pack_vault(v: AbsVault) -> Seq<u8> {
    seq![spec_bool_byte(v.is_initialized)] + v.owner + v.token_mint + v.vault_token_account
        + spec_u64_to_le_bytes(v.total_deposits)
}

/// The vault record a buffer of the fixed length decodes to.
pub open spec fn spec_unpack_vault(s: Seq<u8>) -> AbsVault
    recommends
        s.len() == VAULT_LEN,
{
    AbsVault {
        is_initialized: s[0] != 0,
        owner: s.subrange(1, 33),
        token_mint: s.subrange(33, 65),
        vault_token_account: s.subrange(65, 97),
        total_deposits: spec_u64_from_le_bytes(s.subrange(97, 105)),
    }
}

/// Serialized form of a user-deposit record.
pub open spec fn spec_pack_user_vault(u: AbsUserVault) -> Seq<u8> {
    seq![spec_bool_byte(u.is_initialized)] + u.user + u.vault + spec_u64_to_le_bytes(
        u.deposited_amount,
    )
}

/// The user-deposit record a buffer of the fixed length decodes to.
pub open spec fn spec_unpack_user_vault(s: Seq<u8>) -> AbsUserVault
    recommends
        s.len() == USER_VAULT_LEN,
{
    AbsUserVault {
        is_initialized: s[0] != 0,
        user: s.subrange(1, 33),
        vault: s.subrange(33, 65),
        deposited_amount: spec_u64_from_le_bytes(s.subrange(65, 73)),
    }
}

/// Round trip for vault records: decoding an encoded record gives the
/// record back, for every well-formed record.
pub proof fn lemma_vault_round_trip(v: AbsVault)
    requires
        v.wf(),
    ensures
        spec_pack_vault(v).len() == VAULT_LEN,
        spec_unpack_vault(spec_pack_vault(v)) == v,
{
    lemma_auto_spec_u64_to_from_le_bytes();
    let s = spec_pack_vault(v);
    assert(s.subrange(1, 33) =~= v.owner);
    assert(s.subrange(33, 65) =~= v.token_mint);
    assert(s.subrange(65, 97) =~= v.vault_token_account);
    assert(s.subrange(97, 105) =~= spec_u64_to_le_bytes(v.total_deposits));
    assert(spec_unpack_vault(s) =~= v);
}

/// Round trip for user-deposit records.
pub proof fn lemma_user_vault_round_trip(u: AbsUserVault)
    requires
        u.wf(),
    ensures
        spec_pack_user_vault(u).len() == USER_VAULT_LEN,
        spec_unpack_user_vault(spec_pack_user_vault(u)) == u,
{
    lemma_auto_spec_u64_to_from_le_bytes();
    let s = spec_pack_user_vault(u);
    assert(s.subrange(1, 33) =~= u.user);
    assert(s.subrange(33, 65) =~= u.vault);
    assert(s.subrange(65, 73) =~= spec_u64_to_le_bytes(u.deposited_amount));
    assert(spec_unpack_user_vault(s) =~= u);
}

/// Eight zero bytes decode to the integer zero.
proof fn lemma_zero_u64()
    ensures
        spec_u64_from_le_bytes(zero_bytes(8)) == 0u64,
{
    lemma_auto_spec_u64_to_from_le_bytes();
    spec_u64_to_le_bytes_to_open(0u64);
    assert((0u64 & 0xff) == 0 && ((0u64 >> 8) & 0xff) == 0 && ((0u64 >> 16) & 0xff) == 0 && ((
    0u64 >> 24) & 0xff) == 0 && ((0u64 >> 32) & 0xff) == 0 && ((0u64 >> 40) & 0xff) == 0 && ((
    0u64 >> 48) & 0xff) == 0 && ((0u64 >> 56) & 0xff) == 0) by (bit_vector);
    assert(spec_u64_to_le_bytes_open(0u64) =~= zero_bytes(8));
}

/// Decoding a zero-filled vault buffer never fails: it yields a record
/// that is not initialized and has all-zero fields.
pub proof fn lemma_vault_zero_decode()
    ensures
        spec_unpack_vault(zero_bytes(VAULT_LEN as nat)) == (AbsVault {
            is_initialized: false,
            owner: zero_bytes(32),
            token_mint: zero_bytes(32),
            vault_token_account: zero_bytes(32),
            total_deposits: 0u64,
        }),
{
    lemma_zero_u64();
    let s = zero_bytes(VAULT_LEN as nat);
    assert(s.subrange(1, 33) =~= zero_bytes(32));
    assert(s.subrange(33, 65) =~= zero_bytes(32));
    assert(s.subrange(65, 97) =~= zero_bytes(32));
    assert(s.subrange(97, 105) =~= zero_bytes(8));
    assert(spec_unpack_vault(s) =~= (AbsVault {
        is_initialized: false,
        owner: zero_bytes(32),
        token_mint: zero_bytes(32),
        vault_token_account: zero_bytes(32),
        total_deposits: 0u64,
    }));
}

/// Decoding a zero-filled user-deposit buffer yields a record that is
/// not initialized and has all-zero fields.
pub proof fn lemma_user_vault_zero_decode()
    ensures
        spec_unpack_user_vault(zero_bytes(USER_VAULT_LEN as nat)) == (AbsUserVault {
            is_initialized: false,
            user: zero_bytes(32),
            vault: zero_bytes(32),
            deposited_amount: 0u64,
        }),
{
    lemma_zero_u64();
    let s = zero_bytes(USER_VAULT_LEN as nat);
    assert(s.subrange(1, 33) =~= zero_bytes(32));
    assert(s.subrange(33, 65) =~= zero_bytes(32));
    assert(s.subrange(65, 73) =~= zero_bytes(8));
    assert(spec_unpack_user_vault(s) =~= (AbsUserVault {
        is_initialized: false,
        user: zero_bytes(32),
        vault: zero_bytes(32),
        deposited_amount: 0u64,
    }));
}

/// Byte-wise equality of two 32-byte keys.
pub fn keys_equal(a: &[u8; 32], b: &[u8; 32]) -> (r: bool)
    ensures
        r == (a@ == b@),
{
    let mut i: usize = 0;
    while i < 32
        invariant
            0 <= i <= 32,
            forall|j: int| 0 <= j < i ==> a@[j] == b@[j],
        decreases 32 - i,
    {
        if a[i] != b[i] {
            return false;
        }
        i = i + 1;
    }
    proof {
        assert(a@ =~= b@);
    }
    true
}

/// Copy a 32-byte key out of a record buffer.
pub(crate) fn read_key(src: &[u8], offset: usize) -> (r: [u8; 32])
    requires
        offset + 32 <= src@.len(),
    ensures
        r@ == src@.subrange(offset as int, offset as int + 32),
{
    // A slice is no longer than the address space, so `offset + 32`
    // fits in a `usize`.
    let src_len = src.len();
    let s = slice_subrange(src, offset, offset + 32);
    let mut r: [u8; 32] = [0u8; 32];
    let mut i: usize = 0;
    while i < 32
        invariant
            0 <= i <= 32,
            s@.len() == 32,
            s@ == src@.subrange(offset as int, offset as int + 32),
            forall|j: int| 0 <= j < i ==> r@[j] == s@[j],
        decreases 32 - i,
    {
        r[i] = *slice_index_get(s, i);
        i = i + 1;
    }
    proof {
        assert(r@ =~= src@.subrange(offset as int, offset as int + 32));
    }
    r
}

/// Append a 32-byte key to a record buffer being built.
pub(crate) fn push_key(dst: &mut Vec<u8>, key: &[u8; 32])
    ensures
        final(dst)@ == old(dst)@ + key@,
{
    let mut i: usize = 0;
    while i < 32
        invariant
            0 <= i <= 32,
            dst@ == old(dst)@ + key@.subrange(0, i as int),
        decreases 32 - i,
    {
        dst.push(key[i]);
        proof {
            assert(old(dst)@ + key@.subrange(0, i as int) + seq![key@[i as int]] =~= old(dst)@
                + key@.subrange(0, i as int + 1));
        }
        i = i + 1;
    }
    proof {
        assert(key@.subrange(0, 32) =~= key@);
    }
}

impl Vault {
    /// Whether the record guards its slot against re-creation.
    pub fn is_initialized(&self) -> (r: bool)
        ensures
            r == self@.is_initialized,
    {
        self.is_initialized
    }

    /// Serialize into a fresh fixed-length buffer.
    pub fn pack(&self) -> (r: Vec<u8>)
        ensures
            r@ == spec_pack_vault(self@),
            r@.len() == VAULT_LEN,
    {
        let mut out: Vec<u8> = Vec::new();
        out.push(if self.is_initialized { 1u8 } else { 0u8 });
        push_key(&mut out, &self.owner);
        push_key(&mut out, &self.token_mint);
        push_key(&mut out, &self.vault_token_account);
        let mut amt = u64_to_le_bytes(self.total_deposits);
        out.append(&mut amt);
        proof {
            assert(out@ =~= spec_pack_vault(self@));
        }
        out
    }

    /// Decode a record buffer; fails exactly when the buffer does not
    /// have the record's fixed length.
    pub fn unpack_from_slice(src: &[u8]) -> (r: Result<Vault, VaultError>)
        ensures
            match r {
                Ok(v) => src@.len() == VAULT_LEN && v@ == spec_unpack_vault(src@),
                Err(e) => e == VaultError::DecodeError && src@.len() != VAULT_LEN,
            },
    {
        if src.len() != VAULT_LEN {
            return Err(VaultError::DecodeError);
        }
        let v = Vault {
            is_initialized: *slice_index_get(src, 0) != 0,
            owner: read_key(src, 1),
            token_mint: read_key(src, 33),
            vault_token_account: read_key(src, 65),
            total_deposits: u64_from_le_bytes(slice_subrange(src, 97, 105)),
        };
        proof {
            assert(v@ =~= spec_unpack_vault(src@));
        }
        Ok(v)
    }
}

impl UserVault {
    /// Whether the record has been materialized by a first deposit.
    pub fn is_initialized(&self) -> (r: bool)
        ensures
            r == self@.is_initialized,
    {
        self.is_initialized
    }

    /// Serialize into a fresh fixed-length buffer.
    pub fn pack(&self) -> (r: Vec<u8>)
        ensures
            r@ == spec_pack_user_vault(self@),
            r@.len() == USER_VAULT_LEN,
    {
        let mut out: Vec<u8> = Vec::new();
        out.push(if self.is_initialized { 1u8 } else { 0u8 });
        push_key(&mut out, &self.user);
        push_key(&mut out, &self.vault);
        let mut amt = u64_to_le_bytes(self.deposited_amount);
        out.append(&mut amt);
        proof {
            assert(out@ =~= spec_pack_user_vault(self@));
        }
        out
    }

    /// Decode a record buffer; fails exactly when the buffer does not
    /// have the record's fixed length.
    pub fn unpack_from_slice(src: &[u8]) -> (r: Result<UserVault, VaultError>)
        ensures
            match r {
                Ok(u) => src@.len() == USER_VAULT_LEN && u@ == spec_unpack_user_vault(src@),
                Err(e) => e == VaultError::DecodeError && src@.len() != USER_VAULT_LEN,
            },
    {
        if src.len() != USER_VAULT_LEN {
            return Err(VaultError::DecodeError);
        }
        let u = UserVault {
            is_initialized: *slice_index_get(src, 0) != 0,
            user: read_key(src, 1),
            vault: read_key(src, 33),
            deposited_amount: u64_from_le_bytes(slice_subrange(src, 65, 73)),
        };
        proof {
            assert(u@ =~= spec_unpack_user_vault(src@));
        }
        Ok(u)
    }
}

} // verus!
