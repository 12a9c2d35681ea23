use vstd::prelude::*;

use crate::bytes::{extend_bytes, read_array_20, read_array_32};

verus! {

/// The first byte of a vault account's data.
pub const VAULT_DISCRIMINATOR: u8 = 1;

/// The length of a vault account's data: discriminator, authority, Ethereum
/// address and bump.
pub const VAULT_SPACE: usize = 54;

/// The state a vault account holds: the Solana address that owns it, the
/// Ethereum address whose signatures it accepts, and the bump seed of its
/// program derived address.
#[derive(Debug, Clone, Copy, PartialEq, Eq)]
pub struct Vault {
    pub authority: [u8; 32],
    pub eth_address: [u8; 20],
    pub bump: u8,
}

/// Why account data cannot be read as a vault.
#[derive(Debug, Clone, Copy, PartialEq, Eq, Structural)]
pub enum AccountDataError {
    /// The data is shorter than a vault.
    AccountDataTooSmall,
    /// The data does not start with the vault discriminator.
    InvalidAccountData,
}

/// The bytes a vault occupies in its account: the discriminator, then the
/// authority, the Ethereum address and the bump, packed.
pub open spec fn vault_data_spec(vault: Vault) -> Seq<u8> {
    seq![1u8] + vault.authority@ + vault.eth_address@ + seq![vault.bump]
}

/// Whether `data` starts with a vault: long enough and tagged with the vault
/// discriminator.
pub open spec fn holds_vault(data: Seq<u8>) -> bool {
    data.len() >= 54 && data[0] == 1u8
}

/// Whether `vault` is what the first 54 bytes of `data` encode.
pub open spec fn vault_read_from(vault: Vault, data: Seq<u8>) -> bool {
    &&& vault.authority@ == data.subrange(1, 33)
    &&& vault.eth_address@ == data.subrange(33, 53)
    &&& vault.bump == data[53]
}

impl Vault {
    /// The account data that holds this vault.
    pub fn to_account_data(&self) -> (res: Vec<u8>)
        ensures
            res@ == vault_data_spec(*self),
            res@.len() == VAULT_SPACE,
            res@[0] == 1u8,
            res@.subrange(1, 33) == self.authority@,
            res@.subrange(33, 53) == self.eth_address@,
            res@[53] == self.bump,
    {
        let mut out: Vec<u8> = Vec::new();
        out.push(VAULT_DISCRIMINATOR);
        extend_bytes(&mut out, self.authority.as_slice());
        extend_bytes(&mut out, self.eth_address.as_slice());
        out.push(self.bump);
        assert(out@ =~= vault_data_spec(*self));
        assert(out@.subrange(1, 33) =~= self.authority@);
        assert(out@.subrange(33, 53) =~= self.eth_address@);
        out
    }

    /// Reads a vault from account data: the data must be at least
    /// `VAULT_SPACE` bytes long and start with the vault discriminator; bytes
    /// past the vault are not read.
    pub fn from_account_data(data: &[u8]) -> (res: Result<Vault, AccountDataError>)
        ensures
            data@.len() < 54 ==> res == Err::<Vault, AccountDataError>(AccountDataError::AccountDataTooSmall),
            data@.len() >= 54 && data@[0] != 1u8 ==> res == Err::<Vault, AccountDataError>(AccountDataError::InvalidAccountData),
            res is Ok <==> holds_vault(data@),
            res matches Ok(vault) ==> vault_read_from(vault, data@),
            res is Ok <==> (data@.len() >= 54 && data@[0] == 1u8),
            res matches Ok(vault) ==> {
                &&& vault.authority@ == data@.subrange(1, 33)
                &&& vault.eth_address@ == data@.subrange(33, 53)
                &&& vault.bump == data@[53]
            },
    {
        if data.len() < VAULT_SPACE {
            return Err(AccountDataError::AccountDataTooSmall);
        }
        if data[0] != VAULT_DISCRIMINATOR {
            return Err(AccountDataError::InvalidAccountData);
        }
        let authority = read_array_32(data, 1);
        let eth_address = read_array_20(data, 33);
        Ok(Vault { authority, eth_address, bump: data[53] })
    }
}

/// Reading back the data written for a vault gives that vault.
pub proof fn lemma_vault_data_roundtrip(vault: Vault)
    ensures
        holds_vault(vault_data_spec(vault)),
        vault_read_from(vault, vault_data_spec(vault)),
        vault_data_spec(vault).len() == 54,
{
    let d = vault_data_spec(vault);
    assert(d.subrange(1, 33) =~= vault.authority@);
    assert(d.subrange(33, 53) =~= vault.eth_address@);
}

/// A vault is determined by its data: two vaults read from the same bytes are
/// the same vault, and the vault read from data writes those bytes back.
pub proof fn lemma_vault_data_determines(a: Vault, b: Vault, data: Seq<u8>)
    requires
        holds_vault(data),
        vault_read_from(a, data),
        vault_read_from(b, data),
    ensures
        a == b,
        vault_data_spec(a) == data.subrange(0, 54),
{
    assert(a.authority =~= b.authority);
    assert(a.eth_address =~= b.eth_address);
    assert(vault_data_spec(a) =~= data.subrange(0, 54));
}

/// An account of the system program, seen by the address and balance the
/// program reads and writes.
#[derive(Debug, Clone, Copy, PartialEq, Eq)]
pub struct UncheckedAccount {
    pub address: [u8; 32],
    pub lamports: u64,
}

/// A signer of the instruction.
#[derive(Debug, Clone, Copy, PartialEq, Eq)]
pub struct Signer {
    pub address: [u8; 32],
}

/// A vault account: its address, balance and the vault it holds.
#[derive(Debug, Clone, Copy, PartialEq, Eq)]
pub struct VaultAccount {
    pub address: [u8; 32],
    pub lamports: u64,
    pub vault: Vault,
}

} // verus!
