use vstd::prelude::*;

pub mod accounts;
pub mod bytes;
pub mod crypto;
pub mod errors;
pub mod instruction_data;
pub mod instructions;
pub mod state;

use crate::crypto::{program_address_lookup, vault_seeds};
use crate::accounts::{AccountError, AccountInfo};
use crate::errors::ExternalDelegateTokenMasterError;
use crate::instructions::initialize::{
    initialize_accounts_error, initialized_vault, InitializeVault, InitializeVaultBumps,
};
use crate::instructions::transfer_funds::{
    recovered_for_id, transfer_effect, transfer_runs, TransferFunds,
};

verus! {

/// The program's id, `H5J4kYmHhTnAfvjpUwaQQf7VaKgXoPubGn2pYB9NFdvR`, as bytes.
pub const ID: [u8; 32] = [
    238, 212, 155, 240, 171, 81, 75, 244, 109, 77, 103, 80, 213, 39, 192, 24, 115, 88, 205, 226,
    135, 4, 110, 56, 103, 96, 175, 2, 120, 189, 235, 170,
];


/// Handles the instruction that creates a vault (discriminator `0`): stores
/// the vault of the signing authority, bound to `eth_address`.
pub fn initialize_vault(
    accounts: &mut InitializeVault,
    bumps: InitializeVaultBumps,
    eth_address: [u8; 20],
) -> (res: Result<(), ExternalDelegateTokenMasterError>)
    requires
        program_address_lookup(vault_seeds(old(accounts).authority.address@), ID@) == Some(
            (old(accounts).vault.address@, bumps.vault),
        ),
    ensures
        res is Ok,
        initialized_vault(old(accounts).authority.address@, eth_address@, bumps.vault, final(accounts).vault.vault),
        final(accounts).authority == old(accounts).authority,
        final(accounts).system_program == old(accounts).system_program,
        final(accounts).vault.address == old(accounts).vault.address,
        final(accounts).vault.lamports == old(accounts).vault.lamports,
{
    accounts.initialize_vault(bumps, eth_address)
}

/// Handles the instruction that pays out of a vault (discriminator `1`); see
/// `TransferFunds::transfer_funds`.
pub fn transfer_funds(
    accounts: &mut TransferFunds,
    amount: u64,
    recovery_id: u8,
    hash: [u8; 32],
    signature: [u8; 64],
    central_authority: &[u8; 32],
    vault_min_rent: u64,
) -> (res: Result<(), ExternalDelegateTokenMasterError>)
    requires
        old(accounts).accounts_distinct(),
        transfer_runs(*old(accounts), hash@, recovery_id, signature@, central_authority@, ID@),
    ensures
        (res, *final(accounts)) == transfer_effect(
            *old(accounts),
            amount,
            hash@,
            recovery_id,
            signature@,
            central_authority@,
            ID@,
            vault_min_rent,
        ),
{
    accounts.transfer_funds(amount, hash, recovery_id, signature, central_authority, vault_min_rent)
}

/// Runs the transfer where it runs to its end; returns `None`, and changes
/// nothing, where the instruction would abort instead: no vault address can
/// be derived for the authority, or a signature that must be checked yields
/// no public key.
pub fn try_transfer_funds(
    accounts: &mut TransferFunds,
    amount: u64,
    recovery_id: u8,
    hash: [u8; 32],
    signature: [u8; 64],
    central_authority: &[u8; 32],
    vault_min_rent: u64,
) -> (res: Option<Result<(), ExternalDelegateTokenMasterError>>)
    requires
        old(accounts).accounts_distinct(),
    ensures
        res is None <==> !transfer_runs(*old(accounts), hash@, recovery_id, signature@, central_authority@, ID@),
        res is None ==> *final(accounts) == *old(accounts),
        res matches Some(r) ==> (r, *final(accounts)) == transfer_effect(
            *old(accounts),
            amount,
            hash@,
            recovery_id,
            signature@,
            central_authority@,
            ID@,
            vault_min_rent,
        ),
        old(accounts).payer.address@ == central_authority@ ==> res is Some,
        (old(accounts).payer.address@ == central_authority@ && vault_min_rent + amount
            <= old(accounts).vault.lamports && old(accounts).recipient.lamports + amount <= u64::MAX)
            ==> {
            &&& res == Some(Ok::<(), ExternalDelegateTokenMasterError>(()))
            &&& final(accounts).vault.lamports == old(accounts).vault.lamports - amount
            &&& final(accounts).recipient.lamports == old(accounts).recipient.lamports + amount
        },
{
    match accounts.try_authorize(&hash, recovery_id, &signature, central_authority) {
        None => None,
        Some(_) => Some(
            transfer_funds(accounts, amount, recovery_id, hash, signature, central_authority, vault_min_rent),
        ),
    }
}

/// Runs the vault-creating instruction on the accounts the runtime hands
/// over: checks them (refusing, among others, a vault that already belongs
/// to a program and one that does not sit at its derived address) and
/// returns the accounts with the new vault stored. Creating and funding the
/// account is the system program's part.
pub fn create_vault(
    authority: &AccountInfo,
    vault: &AccountInfo,
    system_program: &AccountInfo,
    eth_address: [u8; 20],
) -> (res: Result<InitializeVault, AccountError>)
    ensures
        match res {
            Ok(accounts) => {
                &&& initialize_accounts_error(*authority, *vault, *system_program, ID@) is None
                &&& program_address_lookup(vault_seeds(authority.address@), ID@) == Some(
                    (vault.address@, accounts.vault.vault.bump),
                )
                &&& initialized_vault(
                    authority.address@,
                    eth_address@,
                    accounts.vault.vault.bump,
                    accounts.vault.vault,
                )
                &&& accounts.authority.address == authority.address
                &&& accounts.vault.address == vault.address
                &&& accounts.vault.lamports == vault.lamports
                &&& accounts.system_program == system_program.address
            },
            Err(e) => initialize_accounts_error(*authority, *vault, *system_program, ID@) == Some(e),
        },
        (res is Ok) <==> ({
            &&& authority.is_signer && authority.is_writable && !authority.executable
            &&& vault.address@ != authority.address@
            &&& !vault.is_signer && vault.is_writable && !vault.executable
            &&& system_program.address@ != authority.address@ && system_program.address@ != vault.address@
            &&& !system_program.is_signer && !system_program.is_writable && system_program.executable
            &&& program_address_lookup(
                seq![seq![118u8, 97u8, 117u8, 108u8, 116u8], authority.address@],
                ID@,
            ) is Some
            &&& program_address_lookup(
                seq![seq![118u8, 97u8, 117u8, 108u8, 116u8], authority.address@],
                ID@,
            ).unwrap().0 == vault.address@
            &&& vault.owner@ == Seq::new(32, |i: int| 0u8)
            &&& system_program.address@ == Seq::new(32, |i: int| 0u8)
        }),
        res matches Ok(accounts) ==> {
            &&& accounts.vault.vault.authority == authority.address
            &&& accounts.vault.vault.eth_address == eth_address
            &&& program_address_lookup(
                seq![seq![118u8, 97u8, 117u8, 108u8, 116u8], authority.address@],
                ID@,
            ) == Some((vault.address@, accounts.vault.vault.bump))
        },
{
    let (mut accounts, bumps) = match InitializeVault::load(authority, vault, system_program) {
        Ok(loaded) => loaded,
        Err(e) => return Err(e),
    };
    let _ = initialize_vault(&mut accounts, bumps, eth_address);
    Ok(accounts)
}

/// A vault created at the derived address of its authority serves that
/// authority: a transfer it signs whose signature recovers to the Ethereum
/// address the vault was created with succeeds (given the funds), and one whose
/// signature recovers to anything else is refused with `InvalidEthAddress`,
/// moving nothing.
pub proof fn lemma_initialized_vault_serves_its_signer(
    before: InitializeVault,
    bumps: InitializeVaultBumps,
    eth_address: [u8; 20],
    after: InitializeVault,
    accounts: TransferFunds,
    amount: u64,
    hash: Seq<u8>,
    recovery_id: u8,
    signature: Seq<u8>,
    central_authority: Seq<u8>,
    vault_min_rent: u64,
)
    requires
        program_address_lookup(vault_seeds(before.authority.address@), ID@) == Some(
            (before.vault.address@, bumps.vault),
        ),
        initialized_vault(before.authority.address@, eth_address@, bumps.vault, after.vault.vault),
        after.vault.address == before.vault.address,
        accounts.vault.address == after.vault.address,
        accounts.vault.vault == after.vault.vault,
        accounts.payer.address == before.authority.address,
        accounts.payer.address@ != central_authority,
        vault_min_rent + amount <= accounts.vault.lamports,
        accounts.recipient.lamports + amount <= u64::MAX,
    ensures
        recovered_for_id(hash, recovery_id, signature) == Some(eth_address@) ==> transfer_effect(
            accounts,
            amount,
            hash,
            recovery_id,
            signature,
            central_authority,
            ID@,
            vault_min_rent,
        ).0 == Ok::<(), ExternalDelegateTokenMasterError>(()),
        recovered_for_id(hash, recovery_id, signature) != Some(eth_address@) ==> transfer_effect(
            accounts,
            amount,
            hash,
            recovery_id,
            signature,
            central_authority,
            ID@,
            vault_min_rent,
        ) == (Err::<(), ExternalDelegateTokenMasterError>(
            ExternalDelegateTokenMasterError::InvalidEthAddress,
        ), accounts),
{
}

} // verus!
