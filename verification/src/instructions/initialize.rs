use vstd::prelude::*;

use crate::accounts::{
    check_exact_flags, exact_flags_error, system_program_id_spec, AccountError, AccountInfo,
    SYSTEM_PROGRAM_ID,
};
use crate::bytes::bytes_eq;
use crate::crypto::{find_vault_address, program_address_lookup, vault_seeds};
use crate::errors::ExternalDelegateTokenMasterError;
use crate::ID;
use crate::state::{vault_data_spec, Signer, Vault, VaultAccount};

verus! {

/// The accounts of the instruction that creates a vault: its authority, who
/// signs and pays, the vault account, and the system program.
#[derive(Debug, Clone, Copy, PartialEq, Eq)]
pub struct InitializeVault {
    pub authority: Signer,
    pub vault: VaultAccount,
    pub system_program: [u8; 32],
}

/// The bump seeds found while checking the accounts of `InitializeVault`.
#[derive(Debug, Clone, Copy, PartialEq, Eq)]
pub struct InitializeVaultBumps {
    pub vault: u8,
}

/// The vault that `initialize_vault` stores: owned by the signing authority,
/// bound to `eth_address`, with the bump of its address.
pub open spec fn initialized_vault(authority: Seq<u8>, eth_address: Seq<u8>, bump: u8, vault: Vault) -> bool {
    &&& vault.authority@ == authority
    &&& vault.eth_address@ == eth_address
    &&& vault.bump == bump
}

/// A vault account's contents right after the system program created it:
/// all zero bytes.
pub open spec fn blank_vault(vault: Vault) -> bool {
    &&& vault.authority@ == Seq::new(32, |i: int| 0u8)
    &&& vault.eth_address@ == Seq::new(20, |i: int| 0u8)
    &&& vault.bump == 0
}

/// The refusal, if any, of the accounts handed to the vault-creating
/// instruction, checked in order: the authority must be a writable signer;
/// the vault a writable non-signer and the system program an executable,
/// neither written nor signing, each differing from the accounts before it;
/// the vault must sit at the program derived address of `b"vault"` and the
/// authority, must still belong to the system program, and the system
/// program account must be the system program.
pub open spec fn initialize_accounts_error(
    authority: AccountInfo,
    vault: AccountInfo,
    system_program: AccountInfo,
    program_id: Seq<u8>,
) -> Option<AccountError> {
    if exact_flags_error(authority, true, true, false) is Some {
        exact_flags_error(authority, true, true, false)
    } else if vault.address@ == authority.address@ {
        Some(AccountError::AccountBorrowFailed)
    } else if exact_flags_error(vault, false, true, false) is Some {
        exact_flags_error(vault, false, true, false)
    } else if system_program.address@ == authority.address@ || system_program.address@
        == vault.address@ {
        Some(AccountError::AccountBorrowFailed)
    } else if exact_flags_error(system_program, false, false, true) is Some {
        exact_flags_error(system_program, false, false, true)
    } else {
        match program_address_lookup(vault_seeds(authority.address@), program_id) {
            None => Some(AccountError::InvalidSeeds),
            Some(found) => if found.0 != vault.address@ {
                Some(AccountError::InvalidPda)
            } else if vault.owner@ != system_program_id_spec() {
                Some(AccountError::AccountAlreadyInitialized)
            } else if system_program.address@ != system_program_id_spec() {
                Some(AccountError::IncorrectProgramId)
            } else {
                None
            },
        }
    }
}

impl InitializeVault {
    /// Checks the accounts handed to the vault-creating instruction and reads
    /// them, with the bump of the vault's address. The vault is read as the
    /// system program leaves it once created: blank; its balance is the one
    /// handed over, before the creation funds it.
    pub fn load(authority: &AccountInfo, vault: &AccountInfo, system_program: &AccountInfo) -> (res: Result<(InitializeVault, InitializeVaultBumps), AccountError>)
        ensures
            match res {
                Ok((accounts, bumps)) => {
                    &&& initialize_accounts_error(*authority, *vault, *system_program, ID@) is None
                    &&& program_address_lookup(vault_seeds(authority.address@), ID@) == Some(
                        (vault.address@, bumps.vault),
                    )
                    &&& accounts.authority.address == authority.address
                    &&& accounts.vault.address == vault.address
                    &&& accounts.vault.lamports == vault.lamports
                    &&& blank_vault(accounts.vault.vault)
                    &&& accounts.system_program == system_program.address
                },
                Err(e) => initialize_accounts_error(*authority, *vault, *system_program, ID@) == Some(e),
            },
            (res is Ok) <==> ({
                &&& authority.is_signer && authority.is_writable && !authority.executable
                &&& vault.address@ != authority.address@
                &&& !vault.is_signer && vault.is_writable && !vault.executable
                &&& system_program.address@ != authority.address@ && system_program.address@ != vault.address@
                &&& !system_program.is_signer && !system_program.is_writable && system_program.executable
                &&& program_address_lookup(
                    seq![seq![118u8, 97u8, 117u8, 108u8, 116u8], authority.address@],
                    ID@,
                ) is Some
                &&& program_address_lookup(
                    seq![seq![118u8, 97u8, 117u8, 108u8, 116u8], authority.address@],
                    ID@,
                ).unwrap().0 == vault.address@
                &&& vault.owner@ == Seq::new(32, |i: int| 0u8)
                &&& system_program.address@ == Seq::new(32, |i: int| 0u8)
            }),
            res matches Ok((accounts, bumps)) ==> program_address_lookup(
                seq![seq![118u8, 97u8, 117u8, 108u8, 116u8], authority.address@],
                ID@,
            ) == Some((vault.address@, bumps.vault)),
    {
        proof {
            lemma_initialize_accounts_accepted_exactly(*authority, *vault, *system_program, ID@);
            crate::crypto::lemma_vault_seeds_layout(authority.address@);
        }
        match check_exact_flags(authority, true, true, false) {
            Some(e) => return Err(e),
            None => {},
        }
        if bytes_eq(vault.address.as_slice(), authority.address.as_slice()) {
            return Err(AccountError::AccountBorrowFailed);
        }
        match check_exact_flags(vault, false, true, false) {
            Some(e) => return Err(e),
            None => {},
        }
        if bytes_eq(system_program.address.as_slice(), authority.address.as_slice()) || bytes_eq(
            system_program.address.as_slice(),
            vault.address.as_slice(),
        ) {
            return Err(AccountError::AccountBorrowFailed);
        }
        match check_exact_flags(system_program, false, false, true) {
            Some(e) => return Err(e),
            None => {},
        }
        let bump = match find_vault_address(&authority.address, &ID) {
            None => return Err(AccountError::InvalidSeeds),
            Some((address, bump)) => {
                if !bytes_eq(address.as_slice(), vault.address.as_slice()) {
                    return Err(AccountError::InvalidPda);
                }
                bump
            },
        };
        assert(SYSTEM_PROGRAM_ID@ =~= system_program_id_spec());
        if !bytes_eq(vault.owner.as_slice(), SYSTEM_PROGRAM_ID.as_slice()) {
            return Err(AccountError::AccountAlreadyInitialized);
        }
        if !bytes_eq(system_program.address.as_slice(), SYSTEM_PROGRAM_ID.as_slice()) {
            return Err(AccountError::IncorrectProgramId);
        }
        let blank = Vault { authority: [0u8; 32], eth_address: [0u8; 20], bump: 0 };
        assert(blank.authority@ =~= Seq::new(32, |i: int| 0u8));
        assert(blank.eth_address@ =~= Seq::new(20, |i: int| 0u8));
        Ok((
            InitializeVault {
                authority: Signer { address: authority.address },
                vault: VaultAccount { address: vault.address, lamports: vault.lamports, vault: blank },
                system_program: system_program.address,
            },
            InitializeVaultBumps { vault: bump },
        ))
    }

    /// Stores a new vault in the vault account: its authority is the signer,
    /// it accepts signatures of `eth_address`, and it keeps the bump of its
    /// address. Nothing else changes. The vault sits at its program derived
    /// address and `bumps` holds its bump, as `load` ensures.
    pub fn initialize_vault(&mut self, bumps: InitializeVaultBumps, eth_address: [u8; 20]) -> (res: Result<(), ExternalDelegateTokenMasterError>)
        requires
            program_address_lookup(vault_seeds(old(self).authority.address@), ID@) == Some(
                (old(self).vault.address@, bumps.vault),
            ),
        ensures
            res is Ok,
            initialized_vault(old(self).authority.address@, eth_address@, bumps.vault, final(self).vault.vault),
            final(self).vault.vault.authority == old(self).authority.address,
            final(self).vault.vault.eth_address == eth_address,
            final(self).vault.vault.bump == bumps.vault,
            final(self).authority == old(self).authority,
            final(self).system_program == old(self).system_program,
            final(self).vault.address == old(self).vault.address,
            final(self).vault.lamports == old(self).vault.lamports,
    {
        self.vault.vault = Vault {
            authority: self.authority.address,
            eth_address,
            bump: bumps.vault,
        };
        Ok(())
    }
}

/// The data of a freshly stored vault holds the vault discriminator, then the
/// authority in bytes 1 to 32, the Ethereum address in bytes 33 to 52 and the
/// bump in byte 53.
pub proof fn lemma_initialized_vault_data(authority: Seq<u8>, eth_address: Seq<u8>, bump: u8, vault: Vault)
    requires
        initialized_vault(authority, eth_address, bump, vault),
    ensures
        vault_data_spec(vault).len() == 54,
        vault_data_spec(vault)[0] == 1u8,
        vault_data_spec(vault).subrange(1, 33) == authority,
        vault_data_spec(vault).subrange(33, 53) == eth_address,
        vault_data_spec(vault)[53] == bump,
{
    assert(vault_data_spec(vault).subrange(1, 33) =~= authority);
    assert(vault_data_spec(vault).subrange(33, 53) =~= eth_address);
}

/// The accounts of the vault-creating instruction are accepted exactly when
/// the authority is a writable, non-executable signer; the vault a writable,
/// non-signing, non-executable account distinct from it, sitting at the
/// address derived from `b"vault"` and the authority, and still owned by the
/// system program; and the system program account the executable, read-only,
/// non-signing system program. Balances play no part.
pub proof fn lemma_initialize_accounts_accepted_exactly(
    authority: AccountInfo,
    vault: AccountInfo,
    system_program: AccountInfo,
    program_id: Seq<u8>,
)
    ensures
        (initialize_accounts_error(authority, vault, system_program, program_id) is None) <==> ({
            &&& authority.is_signer && authority.is_writable && !authority.executable
            &&& vault.address@ != authority.address@
            &&& !vault.is_signer && vault.is_writable && !vault.executable
            &&& system_program.address@ != authority.address@ && system_program.address@ != vault.address@
            &&& !system_program.is_signer && !system_program.is_writable && system_program.executable
            &&& program_address_lookup(
                seq![seq![118u8, 97u8, 117u8, 108u8, 116u8], authority.address@],
                program_id,
            ) is Some
            &&& program_address_lookup(
                seq![seq![118u8, 97u8, 117u8, 108u8, 116u8], authority.address@],
                program_id,
            ).unwrap().0 == vault.address@
            &&& vault.owner@ == Seq::new(32, |i: int| 0u8)
            &&& system_program.address@ == Seq::new(32, |i: int| 0u8)
        }),
{
    crate::crypto::lemma_vault_seeds_layout(authority.address@);
    assert(system_program_id_spec() =~= Seq::new(32, |i: int| 0u8));
}

/// An account that already belongs to a program, this one included, is never
/// created again: its Ethereum address cannot be rebound.
pub proof fn lemma_owned_vault_not_recreated(
    authority: AccountInfo,
    vault: AccountInfo,
    system_program: AccountInfo,
    program_id: Seq<u8>,
)
    requires
        vault.owner@ != system_program_id_spec(),
    ensures
        initialize_accounts_error(authority, vault, system_program, program_id) is Some,
{
}

/// The program's own id is not the system program's, so a vault that the
/// program owns is refused by a second creation.
pub proof fn lemma_program_owned_vault_not_recreated(
    authority: AccountInfo,
    vault: AccountInfo,
    system_program: AccountInfo,
)
    requires
        vault.owner@ == ID@,
    ensures
        initialize_accounts_error(authority, vault, system_program, ID@) is Some,
{
    assert(ID@[0] == 238u8);
    assert(system_program_id_spec()[0] == 0u8);
}

} // verus!
