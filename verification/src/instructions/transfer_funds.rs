use vstd::prelude::*;

use crate::accounts::{check_exact_flags, exact_flags_error, AccountError, AccountInfo};
use crate::bytes::bytes_eq;
use crate::crypto::{
    derived_vault_address, find_vault_address, keccak256_digest, program_address_lookup,
    recover_eth_address, recovered_eth_address, secp256k1_recovered_key,
};
use crate::errors::ExternalDelegateTokenMasterError;
use crate::state::{vault_read_from, AccountDataError, Signer, UncheckedAccount, Vault, VaultAccount};
use crate::ID;

verus! {

/// The accounts of the instruction that pays lamports out of a vault: the
/// signer, the account that receives the lamports, and the vault.
#[derive(Debug, Clone, Copy, PartialEq, Eq)]
pub struct TransferFunds {
    pub payer: Signer,
    pub recipient: UncheckedAccount,
    pub vault: VaultAccount,
}

/// The parity of the recovered point that a recovery id names: `0` and `27`
/// even, `1` and `28` odd, any other id none.
pub open spec fn recovery_parity_spec(recovery_id: u8) -> Option<bool> {
    if recovery_id == 0 || recovery_id == 27 {
        Some(false)
    } else if recovery_id == 1 || recovery_id == 28 {
        Some(true)
    } else {
        None
    }
}

/// The parity of the recovered point that `recovery_id` names, in both the
/// raw (`0`, `1`) and the Ethereum (`27`, `28`) convention.
pub fn recovery_parity(recovery_id: u8) -> (res: Option<bool>)
    ensures
        res == recovery_parity_spec(recovery_id),
{
    match recovery_id {
        0 | 27 => Some(false),
        1 | 28 => Some(true),
        _ => None,
    }
}

/// The bytes of an optional Ethereum address.
pub open spec fn eth_view(address: Option<[u8; 20]>) -> Option<Seq<u8>> {
    match address {
        Some(a) => Some(a@),
        None => None,
    }
}

/// Whether a signer other than the central authority is allowed to move the
/// vault's lamports, given the address derived for the vault's authority and
/// the Ethereum address recovered from the signature (with the parity the
/// recovery id names): the vault must sit at the derived address, the signer
/// must be its authority, the recovery id must be valid, and the recovered
/// address must be the vault's.
pub open spec fn authorization_outcome(
    payer: Seq<u8>,
    vault_address: Seq<u8>,
    vault: Vault,
    derived_address: Seq<u8>,
    recovery_id: u8,
    recovered: Option<Seq<u8>>,
) -> Result<(), ExternalDelegateTokenMasterError> {
    if derived_address != vault_address {
        Err(ExternalDelegateTokenMasterError::InvalidVault)
    } else if vault.authority@ != payer {
        Err(ExternalDelegateTokenMasterError::Unauthorized)
    } else if recovery_parity_spec(recovery_id) is None {
        Err(ExternalDelegateTokenMasterError::InvalidEthAddress)
    } else if recovered == Some(vault.eth_address@) {
        Ok(())
    } else {
        Err(ExternalDelegateTokenMasterError::InvalidEthAddress)
    }
}

/// Decides whether a signer other than the central authority may move the
/// vault's lamports, from the vault address derived for the vault's authority
/// and the Ethereum address recovered from the signature (`None` where the
/// recovery id is invalid). Where the checks before it pass, the recovery
/// must have succeeded: a failed recovery aborts the instruction instead.
pub fn check_authorization(
    payer: &[u8; 32],
    vault_address: &[u8; 32],
    vault: &Vault,
    derived_address: &[u8; 32],
    recovery_id: u8,
    recovered: Option<[u8; 20]>,
) -> (res: Result<(), ExternalDelegateTokenMasterError>)
    requires
        (derived_address@ == vault_address@ && vault.authority@ == payer@ && recovery_parity_spec(
            recovery_id,
        ) is Some) ==> recovered is Some,
    ensures
        res == authorization_outcome(
            payer@,
            vault_address@,
            *vault,
            derived_address@,
            recovery_id,
            eth_view(recovered),
        ),
        (res is Ok) <==> (derived_address@ == vault_address@ && vault.authority@ == payer@ && (
        recovery_id == 0 || recovery_id == 27 || recovery_id == 1 || recovery_id == 28)
            && recovered is Some && recovered.unwrap()@ == vault.eth_address@),
        derived_address@ != vault_address@ ==> res == Err::<(), ExternalDelegateTokenMasterError>(
            ExternalDelegateTokenMasterError::InvalidVault,
        ),
        (derived_address@ == vault_address@ && vault.authority@ != payer@) ==> res == Err::<
            (),
            ExternalDelegateTokenMasterError,
        >(ExternalDelegateTokenMasterError::Unauthorized),
{
    if !bytes_eq(derived_address.as_slice(), vault_address.as_slice()) {
        return Err(ExternalDelegateTokenMasterError::InvalidVault);
    }
    if !bytes_eq(vault.authority.as_slice(), payer.as_slice()) {
        return Err(ExternalDelegateTokenMasterError::Unauthorized);
    }
    if recovery_parity(recovery_id).is_none() {
        return Err(ExternalDelegateTokenMasterError::InvalidEthAddress);
    }
    let eth = recovered.unwrap();
    if !bytes_eq(eth.as_slice(), vault.eth_address.as_slice()) {
        return Err(ExternalDelegateTokenMasterError::InvalidEthAddress);
    }
    Ok(())
}

/// The balances after moving `amount` lamports from the vault to the
/// recipient, or why the move is refused: the vault must keep at least its
/// rent-exempt minimum, and no balance may leave the range of `u64`.
pub open spec fn settlement_spec(
    vault_lamports: u64,
    recipient_lamports: u64,
    vault_min_rent: u64,
    amount: u64,
) -> Result<(u64, u64), ExternalDelegateTokenMasterError> {
    if vault_min_rent + amount > u64::MAX {
        Err(ExternalDelegateTokenMasterError::MathOverflow)
    } else if vault_lamports < vault_min_rent + amount {
        Err(ExternalDelegateTokenMasterError::InsufficientVaultFunds)
    } else if recipient_lamports + amount > u64::MAX {
        Err(ExternalDelegateTokenMasterError::MathOverflow)
    } else {
        Ok(((vault_lamports - amount) as u64, (recipient_lamports + amount) as u64))
    }
}

/// Computes the balances of the vault and the recipient after moving `amount`
/// lamports, as `settlement_spec` says.
pub fn settle_transfer(
    vault_lamports: u64,
    recipient_lamports: u64,
    vault_min_rent: u64,
    amount: u64,
) -> (res: Result<(u64, u64), ExternalDelegateTokenMasterError>)
    ensures
        res == settlement_spec(vault_lamports, recipient_lamports, vault_min_rent, amount),
{
    let needed: u64 = match vault_min_rent.checked_add(amount) {
        Some(n) => n,
        None => return Err(ExternalDelegateTokenMasterError::MathOverflow),
    };
    if vault_lamports < needed {
        return Err(ExternalDelegateTokenMasterError::InsufficientVaultFunds);
    }
    let new_vault: u64 = match vault_lamports.checked_sub(amount) {
        Some(v) => v,
        None => return Err(ExternalDelegateTokenMasterError::MathOverflow),
    };
    let new_recipient: u64 = match recipient_lamports.checked_add(amount) {
        Some(r) => r,
        None => return Err(ExternalDelegateTokenMasterError::MathOverflow),
    };
    Ok((new_vault, new_recipient))
}

/// The Ethereum address that recovery with the parity of `recovery_id`
/// yields, if the id is valid and recovery succeeds.
pub open spec fn recovered_for_id(hash: Seq<u8>, recovery_id: u8, signature: Seq<u8>) -> Option<Seq<u8>> {
    match recovery_parity_spec(recovery_id) {
        Some(is_odd) => recovered_eth_address(hash, is_odd, signature),
        None => None,
    }
}

/// Whether the signer may move the vault's lamports: the central authority
/// always may; anyone else as `authorization_outcome` decides on the vault
/// address derived under `program_id`.
pub open spec fn transfer_authorization(
    accounts: TransferFunds,
    hash: Seq<u8>,
    recovery_id: u8,
    signature: Seq<u8>,
    central_authority: Seq<u8>,
    program_id: Seq<u8>,
) -> Result<(), ExternalDelegateTokenMasterError> {
    if accounts.payer.address@ == central_authority {
        Ok(())
    } else {
        authorization_outcome(
            accounts.payer.address@,
            accounts.vault.address@,
            accounts.vault.vault,
            derived_vault_address(accounts.vault.vault.authority@, program_id).unwrap(),
            recovery_id,
            recovered_for_id(hash, recovery_id, signature),
        )
    }
}

/// Whether the instruction runs to its end rather than aborting: it aborts
/// where no vault address can be derived for the authority, or where the
/// signature must be checked and no public key can be recovered from it.
pub open spec fn transfer_runs(
    accounts: TransferFunds,
    hash: Seq<u8>,
    recovery_id: u8,
    signature: Seq<u8>,
    central_authority: Seq<u8>,
    program_id: Seq<u8>,
) -> bool {
    ||| accounts.payer.address@ == central_authority
    ||| {
        let derived = derived_vault_address(accounts.vault.vault.authority@, program_id);
        &&& derived is Some
        &&& (derived.unwrap() != accounts.vault.address@ || accounts.vault.vault.authority@
            != accounts.payer.address@ || recovery_parity_spec(recovery_id) is None
            || recovered_for_id(hash, recovery_id, signature) is Some)
    }
}

/// The result of the instruction and the accounts after it: on success the
/// vault has `amount` lamports less and the recipient `amount` more; on
/// failure nothing changes.
pub open spec fn transfer_effect(
    accounts: TransferFunds,
    amount: u64,
    hash: Seq<u8>,
    recovery_id: u8,
    signature: Seq<u8>,
    central_authority: Seq<u8>,
    program_id: Seq<u8>,
    vault_min_rent: u64,
) -> (Result<(), ExternalDelegateTokenMasterError>, TransferFunds) {
    match transfer_authorization(accounts, hash, recovery_id, signature, central_authority, program_id) {
        Err(e) => (Err(e), accounts),
        Ok(()) => match settlement_spec(
            accounts.vault.lamports,
            accounts.recipient.lamports,
            vault_min_rent,
            amount,
        ) {
            Err(e) => (Err(e), accounts),
            Ok((vault_lamports, recipient_lamports)) => (
                Ok(()),
                TransferFunds {
                    payer: accounts.payer,
                    recipient: UncheckedAccount {
                        address: accounts.recipient.address,
                        lamports: recipient_lamports,
                    },
                    vault: VaultAccount {
                        address: accounts.vault.address,
                        lamports: vault_lamports,
                        vault: accounts.vault.vault,
                    },
                },
            ),
        },
    }
}

/// The refusal, if any, of the accounts handed to the transfer instruction,
/// checked in order: the payer must sign; the recipient and the vault must be
/// writable, neither signers nor executable, and differ from the accounts
/// before them; the vault must be owned by `program_id` and hold a vault.
pub open spec fn transfer_accounts_error(
    payer: AccountInfo,
    recipient: AccountInfo,
    vault: AccountInfo,
    program_id: Seq<u8>,
) -> Option<AccountError> {
    if !payer.is_signer {
        Some(AccountError::MissingRequiredSignature)
    } else if recipient.address@ == payer.address@ {
        Some(AccountError::AccountBorrowFailed)
    } else if exact_flags_error(recipient, false, true, false) is Some {
        exact_flags_error(recipient, false, true, false)
    } else if vault.address@ == payer.address@ || vault.address@ == recipient.address@ {
        Some(AccountError::AccountBorrowFailed)
    } else if exact_flags_error(vault, false, true, false) is Some {
        exact_flags_error(vault, false, true, false)
    } else if vault.owner@ != program_id {
        Some(AccountError::IllegalOwner)
    } else if vault.data@.len() < 54 {
        Some(AccountError::AccountDataTooSmall)
    } else if vault.data@[0] != 1u8 {
        Some(AccountError::InvalidAccountData)
    } else {
        None
    }
}

/// Whether `accounts` are what the transfer instruction reads from the
/// runtime's accounts.
pub open spec fn transfer_accounts_from(
    accounts: TransferFunds,
    payer: AccountInfo,
    recipient: AccountInfo,
    vault: AccountInfo,
) -> bool {
    &&& accounts.payer.address == payer.address
    &&& accounts.recipient.address == recipient.address
    &&& accounts.recipient.lamports == recipient.lamports
    &&& accounts.vault.address == vault.address
    &&& accounts.vault.lamports == vault.lamports
    &&& vault_read_from(accounts.vault.vault, vault.data@)
}

impl TransferFunds {
    /// Whether the three accounts are three different accounts, as the
    /// runtime's accounts must be for the instruction to run.
    pub open spec fn accounts_distinct(self) -> bool {
        &&& self.payer.address@ != self.recipient.address@
        &&& self.payer.address@ != self.vault.address@
        &&& self.recipient.address@ != self.vault.address@
    }

    /// Checks the accounts handed to the transfer instruction and reads them;
    /// the error says which check refused them.
    pub fn load(payer: &AccountInfo, recipient: &AccountInfo, vault: &AccountInfo) -> (res: Result<TransferFunds, AccountError>)
        ensures
            match res {
                Ok(accounts) => {
                    &&& transfer_accounts_error(*payer, *recipient, *vault, ID@) is None
                    &&& transfer_accounts_from(accounts, *payer, *recipient, *vault)
                    &&& accounts.accounts_distinct()
                },
                Err(e) => transfer_accounts_error(*payer, *recipient, *vault, ID@) == Some(e),
            },
            (res is Ok) <==> ({
                &&& payer.is_signer
                &&& recipient.address@ != payer.address@
                &&& !recipient.is_signer && recipient.is_writable && !recipient.executable
                &&& vault.address@ != payer.address@ && vault.address@ != recipient.address@
                &&& !vault.is_signer && vault.is_writable && !vault.executable
                &&& vault.owner@ == ID@
                &&& vault.data@.len() >= 54 && vault.data@[0] == 1u8
            }),
            res matches Ok(accounts) ==> {
                &&& accounts.payer.address == payer.address
                &&& accounts.recipient.address == recipient.address
                &&& accounts.recipient.lamports == recipient.lamports
                &&& accounts.vault.address == vault.address
                &&& accounts.vault.lamports == vault.lamports
                &&& accounts.vault.vault.authority@ == vault.data@.subrange(1, 33)
                &&& accounts.vault.vault.eth_address@ == vault.data@.subrange(33, 53)
                &&& accounts.vault.vault.bump == vault.data@[53]
            },
    {
        proof {
            lemma_transfer_accounts_accepted_exactly(*payer, *recipient, *vault, ID@);
        }
        if !payer.is_signer {
            return Err(AccountError::MissingRequiredSignature);
        }
        if bytes_eq(recipient.address.as_slice(), payer.address.as_slice()) {
            return Err(AccountError::AccountBorrowFailed);
        }
        match check_exact_flags(recipient, false, true, false) {
            Some(e) => return Err(e),
            None => {},
        }
        if bytes_eq(vault.address.as_slice(), payer.address.as_slice()) || bytes_eq(
            vault.address.as_slice(),
            recipient.address.as_slice(),
        ) {
            return Err(AccountError::AccountBorrowFailed);
        }
        match check_exact_flags(vault, false, true, false) {
            Some(e) => return Err(e),
            None => {},
        }
        if !bytes_eq(vault.owner.as_slice(), ID.as_slice()) {
            return Err(AccountError::IllegalOwner);
        }
        let state = match Vault::from_account_data(vault.data.as_slice()) {
            Ok(v) => v,
            Err(AccountDataError::AccountDataTooSmall) => return Err(AccountError::AccountDataTooSmall),
            Err(AccountDataError::InvalidAccountData) => return Err(AccountError::InvalidAccountData),
        };
        Ok(TransferFunds {
            payer: Signer { address: payer.address },
            recipient: UncheckedAccount { address: recipient.address, lamports: recipient.lamports },
            vault: VaultAccount { address: vault.address, lamports: vault.lamports, vault: state },
        })
    }

    /// Decides whether the signer may move the vault's lamports, as
    /// `transfer_authorization` says.
    pub fn authorize(
        &self,
        hash: &[u8; 32],
        recovery_id: u8,
        signature: &[u8; 64],
        central_authority: &[u8; 32],
    ) -> (res: Result<(), ExternalDelegateTokenMasterError>)
        requires
            transfer_runs(*self, hash@, recovery_id, signature@, central_authority@, ID@),
        ensures
            res == transfer_authorization(*self, hash@, recovery_id, signature@, central_authority@, ID@),
    {
        if bytes_eq(self.payer.address.as_slice(), central_authority.as_slice()) {
            return Ok(());
        }
        let found = find_vault_address(&self.vault.vault.authority, &ID);
        let (derived, _bump) = found.unwrap();
        let recovered = if bytes_eq(derived.as_slice(), self.vault.address.as_slice())
            && bytes_eq(self.vault.vault.authority.as_slice(), self.payer.address.as_slice()) {
            match recovery_parity(recovery_id) {
                Some(is_odd) => recover_eth_address(hash, is_odd, signature),
                None => None,
            }
        } else {
            None
        };
        check_authorization(
            &self.payer.address,
            &self.vault.address,
            &self.vault.vault,
            &derived,
            recovery_id,
            recovered,
        )
    }

    /// Decides whether the signer may move the vault's lamports where the
    /// instruction runs to that decision; `None` where it would abort first:
    /// no vault address can be derived for the authority, or a signature that
    /// must be checked yields no public key.
    pub fn try_authorize(
        &self,
        hash: &[u8; 32],
        recovery_id: u8,
        signature: &[u8; 64],
        central_authority: &[u8; 32],
    ) -> (res: Option<Result<(), ExternalDelegateTokenMasterError>>)
        ensures
            res is None <==> !transfer_runs(*self, hash@, recovery_id, signature@, central_authority@, ID@),
            res matches Some(r) ==> r == transfer_authorization(
                *self,
                hash@,
                recovery_id,
                signature@,
                central_authority@,
                ID@,
            ),
            self.payer.address@ == central_authority@ ==> res == Some(
                Ok::<(), ExternalDelegateTokenMasterError>(()),
            ),
    {
        if !bytes_eq(self.payer.address.as_slice(), central_authority.as_slice()) {
            match find_vault_address(&self.vault.vault.authority, &ID) {
                None => return None,
                Some((derived, _bump)) => {
                    if bytes_eq(derived.as_slice(), self.vault.address.as_slice()) && bytes_eq(
                        self.vault.vault.authority.as_slice(),
                        self.payer.address.as_slice(),
                    ) {
                        match recovery_parity(recovery_id) {
                            Some(is_odd) => {
                                if recover_eth_address(hash, is_odd, signature).is_none() {
                                    return None;
                                }
                            },
                            None => {},
                        }
                    }
                },
            }
        }
        Some(self.authorize(hash, recovery_id, signature, central_authority))
    }

    /// Moves `amount` lamports from the vault to the recipient. Unless the
    /// signer is `central_authority`, the vault must sit at the address derived
    /// from `b"vault"` and its authority, the signer must be that authority,
    /// and `signature` over `hash` must recover to the vault's Ethereum
    /// address. The vault keeps at least `vault_min_rent`, its rent-exempt
    /// minimum. The three accounts are distinct, as `load` ensures.
    pub fn transfer_funds(
        &mut self,
        amount: u64,
        hash: [u8; 32],
        recovery_id: u8,
        signature: [u8; 64],
        central_authority: &[u8; 32],
        vault_min_rent: u64,
    ) -> (res: Result<(), ExternalDelegateTokenMasterError>)
        requires
            old(self).accounts_distinct(),
            transfer_runs(*old(self), hash@, recovery_id, signature@, central_authority@, ID@),
        ensures
            (res, *final(self)) == transfer_effect(
                *old(self),
                amount,
                hash@,
                recovery_id,
                signature@,
                central_authority@,
                ID@,
                vault_min_rent,
            ),
            res is Err ==> *final(self) == *old(self),
            res is Ok ==> {
                &&& final(self).vault.lamports == old(self).vault.lamports - amount
                &&& final(self).recipient.lamports == old(self).recipient.lamports + amount
                &&& final(self).vault.lamports >= vault_min_rent
                &&& final(self).payer == old(self).payer
                &&& final(self).vault.address == old(self).vault.address
                &&& final(self).vault.vault == old(self).vault.vault
                &&& final(self).recipient.address == old(self).recipient.address
            },
            (old(self).payer.address@ == central_authority@ && vault_min_rent + amount
                <= old(self).vault.lamports && old(self).recipient.lamports + amount <= u64::MAX)
                ==> res is Ok,
    {
        match self.authorize(&hash, recovery_id, &signature, central_authority) {
            Ok(()) => {},
            Err(e) => return Err(e),
        }
        match settle_transfer(self.vault.lamports, self.recipient.lamports, vault_min_rent, amount) {
            Ok((vault_lamports, recipient_lamports)) => {
                self.vault.lamports = vault_lamports;
                self.recipient.lamports = recipient_lamports;
                Ok(())
            },
            Err(e) => Err(e),
        }
    }
}

/// One account passed as two of the transfer's accounts is refused, so the
/// handler only ever sees three distinct accounts.
pub proof fn lemma_duplicate_accounts_refused(
    payer: AccountInfo,
    recipient: AccountInfo,
    vault: AccountInfo,
    program_id: Seq<u8>,
)
    requires
        payer.address@ == recipient.address@ || payer.address@ == vault.address@
            || recipient.address@ == vault.address@,
    ensures
        transfer_accounts_error(payer, recipient, vault, program_id) is Some,
{
}

/// A vault account not owned by the program is refused.
pub proof fn lemma_foreign_vault_refused(
    payer: AccountInfo,
    recipient: AccountInfo,
    vault: AccountInfo,
    program_id: Seq<u8>,
)
    requires
        vault.owner@ != program_id,
    ensures
        transfer_accounts_error(payer, recipient, vault, program_id) is Some,
{
}

/// A transfer that succeeds moves exactly `amount` lamports from the vault to
/// the recipient: the sum of the two balances is kept, and the vault keeps at
/// least its rent-exempt minimum.
pub proof fn lemma_transfer_conserves_lamports(
    accounts: TransferFunds,
    amount: u64,
    hash: Seq<u8>,
    recovery_id: u8,
    signature: Seq<u8>,
    central_authority: Seq<u8>,
    program_id: Seq<u8>,
    vault_min_rent: u64,
)
    ensures
        ({
            let (res, after) = transfer_effect(
                accounts,
                amount,
                hash,
                recovery_id,
                signature,
                central_authority,
                program_id,
                vault_min_rent,
            );
            res is Ok ==> {
                &&& after.vault.lamports + after.recipient.lamports == accounts.vault.lamports
                    + accounts.recipient.lamports
                &&& after.vault.lamports == accounts.vault.lamports - amount
                &&& after.recipient.lamports == accounts.recipient.lamports + amount
                &&& after.vault.lamports >= vault_min_rent
            }
        }),
{
}

/// A transfer that fails leaves every account as it was.
pub proof fn lemma_transfer_failure_changes_nothing(
    accounts: TransferFunds,
    amount: u64,
    hash: Seq<u8>,
    recovery_id: u8,
    signature: Seq<u8>,
    central_authority: Seq<u8>,
    program_id: Seq<u8>,
    vault_min_rent: u64,
)
    ensures
        ({
            let (res, after) = transfer_effect(
                accounts,
                amount,
                hash,
                recovery_id,
                signature,
                central_authority,
                program_id,
                vault_min_rent,
            );
            res is Err ==> after == accounts
        }),
{
}

/// A transfer never changes who signs, where the accounts are, nor what the
/// vault holds besides lamports.
pub proof fn lemma_transfer_keeps_vault_state(
    accounts: TransferFunds,
    amount: u64,
    hash: Seq<u8>,
    recovery_id: u8,
    signature: Seq<u8>,
    central_authority: Seq<u8>,
    program_id: Seq<u8>,
    vault_min_rent: u64,
)
    ensures
        ({
            let (res, after) = transfer_effect(
                accounts,
                amount,
                hash,
                recovery_id,
                signature,
                central_authority,
                program_id,
                vault_min_rent,
            );
            &&& after.payer == accounts.payer
            &&& after.vault.address == accounts.vault.address
            &&& after.vault.vault == accounts.vault.vault
            &&& after.recipient.address == accounts.recipient.address
        }),
{
}

/// Only the central authority, or the vault's own authority with a signature
/// that recovers to the vault's Ethereum address on the vault that sits at its
/// derived address, can move a vault's lamports.
pub proof fn lemma_transfer_needs_authority(
    accounts: TransferFunds,
    amount: u64,
    hash: Seq<u8>,
    recovery_id: u8,
    signature: Seq<u8>,
    central_authority: Seq<u8>,
    program_id: Seq<u8>,
    vault_min_rent: u64,
)
    requires
        transfer_runs(accounts, hash, recovery_id, signature, central_authority, program_id),
    ensures
        transfer_effect(
            accounts,
            amount,
            hash,
            recovery_id,
            signature,
            central_authority,
            program_id,
            vault_min_rent,
        ).0 is Ok ==> {
            ||| accounts.payer.address@ == central_authority
            ||| {
                &&& derived_vault_address(accounts.vault.vault.authority@, program_id) == Some(
                    accounts.vault.address@,
                )
                &&& accounts.payer.address@ == accounts.vault.vault.authority@
                &&& exists|is_odd: bool|
                    recovery_parity_spec(recovery_id) == Some(is_odd) && recovered_eth_address(
                        hash,
                        is_odd,
                        signature,
                    ) == Some(accounts.vault.vault.eth_address@)
            }
        },
{
    let res = transfer_effect(
        accounts,
        amount,
        hash,
        recovery_id,
        signature,
        central_authority,
        program_id,
        vault_min_rent,
    ).0;
    if res is Ok && accounts.payer.address@ != central_authority {
        let is_odd = recovery_parity_spec(recovery_id).unwrap();
        assert(recovered_eth_address(hash, is_odd, signature) == Some(
            accounts.vault.vault.eth_address@,
        ));
    }
}

/// The vault's authority, signing for the vault at its derived address with a
/// signature that recovers to the vault's Ethereum address, can move any
/// amount the vault holds above its rent-exempt minimum, as long as the
/// recipient's balance stays within `u64`; so can the central authority
/// without a signature.
pub proof fn lemma_authorized_transfer_succeeds(
    accounts: TransferFunds,
    amount: u64,
    hash: Seq<u8>,
    recovery_id: u8,
    signature: Seq<u8>,
    central_authority: Seq<u8>,
    program_id: Seq<u8>,
    vault_min_rent: u64,
)
    requires
        accounts.payer.address@ == central_authority || (derived_vault_address(
            accounts.vault.vault.authority@,
            program_id,
        ) == Some(accounts.vault.address@) && accounts.payer.address@
            == accounts.vault.vault.authority@ && recovered_for_id(hash, recovery_id, signature)
            == Some(accounts.vault.vault.eth_address@)),
        vault_min_rent + amount <= accounts.vault.lamports,
        accounts.recipient.lamports + amount <= u64::MAX,
    ensures
        transfer_effect(
            accounts,
            amount,
            hash,
            recovery_id,
            signature,
            central_authority,
            program_id,
            vault_min_rent,
        ).0 == Ok::<(), ExternalDelegateTokenMasterError>(()),
{
}

/// A signer other than the central authority whose signature recovers to an
/// address other than the vault's is refused with `InvalidEthAddress` once the
/// vault and the signer have been accepted, and nothing moves.
pub proof fn lemma_wrong_signer_refused(
    accounts: TransferFunds,
    amount: u64,
    hash: Seq<u8>,
    recovery_id: u8,
    signature: Seq<u8>,
    central_authority: Seq<u8>,
    program_id: Seq<u8>,
    vault_min_rent: u64,
)
    requires
        accounts.payer.address@ != central_authority,
        derived_vault_address(accounts.vault.vault.authority@, program_id) == Some(
            accounts.vault.address@,
        ),
        accounts.payer.address@ == accounts.vault.vault.authority@,
        recovered_for_id(hash, recovery_id, signature) != Some(accounts.vault.vault.eth_address@),
    ensures
        transfer_effect(
            accounts,
            amount,
            hash,
            recovery_id,
            signature,
            central_authority,
            program_id,
            vault_min_rent,
        ) == (Err::<(), ExternalDelegateTokenMasterError>(
            ExternalDelegateTokenMasterError::InvalidEthAddress,
        ), accounts),
{
}


/// Recovery ids `0` and `27` name the even point, `1` and `28` the odd one;
/// every other id is invalid.
pub proof fn lemma_recovery_parity_table(recovery_id: u8)
    ensures
        (recovery_id == 0 || recovery_id == 27) ==> recovery_parity_spec(recovery_id) == Some(false),
        (recovery_id == 1 || recovery_id == 28) ==> recovery_parity_spec(recovery_id) == Some(true),
        !(recovery_id == 0 || recovery_id == 27 || recovery_id == 1 || recovery_id == 28)
            ==> recovery_parity_spec(recovery_id) is None,
{
}

/// The Ethereum address recovered for a recovery id is the tail of the Keccak
/// digest of the key recovered with that id's parity.
pub proof fn lemma_recovered_for_id(hash: Seq<u8>, recovery_id: u8, signature: Seq<u8>)
    ensures
        (recovery_id == 0 || recovery_id == 27) ==> recovered_for_id(hash, recovery_id, signature)
            == match secp256k1_recovered_key(hash, false, signature) {
            Some(key) => Some(keccak256_digest(key).subrange(12, 32)),
            None => None,
        },
        (recovery_id == 1 || recovery_id == 28) ==> recovered_for_id(hash, recovery_id, signature)
            == match secp256k1_recovered_key(hash, true, signature) {
            Some(key) => Some(keccak256_digest(key).subrange(12, 32)),
            None => None,
        },
        !(recovery_id == 0 || recovery_id == 27 || recovery_id == 1 || recovery_id == 28)
            ==> recovered_for_id(hash, recovery_id, signature) is None,
{
}

/// A signer other than the central authority is authorized exactly when the
/// vault sits at the derived address, the signer is the vault's authority, the
/// recovery id is valid and the recovered address is the vault's; the first
/// check that fails names the error.
pub proof fn lemma_authorization_outcome(
    payer: Seq<u8>,
    vault_address: Seq<u8>,
    vault: Vault,
    derived_address: Seq<u8>,
    recovery_id: u8,
    recovered: Option<Seq<u8>>,
)
    ensures
        ({
            let valid_id = recovery_id == 0 || recovery_id == 27 || recovery_id == 1 || recovery_id
                == 28;
            let res = authorization_outcome(payer, vault_address, vault, derived_address, recovery_id, recovered);
            &&& (res is Ok) <==> (derived_address == vault_address && vault.authority@ == payer
                && valid_id && recovered == Some(vault.eth_address@))
            &&& derived_address != vault_address ==> res == Err::<(), ExternalDelegateTokenMasterError>(
                ExternalDelegateTokenMasterError::InvalidVault,
            )
            &&& (derived_address == vault_address && vault.authority@ != payer) ==> res == Err::<
                (),
                ExternalDelegateTokenMasterError,
            >(ExternalDelegateTokenMasterError::Unauthorized)
            &&& (derived_address == vault_address && vault.authority@ == payer && !(res is Ok))
                ==> res == Err::<(), ExternalDelegateTokenMasterError>(
                ExternalDelegateTokenMasterError::InvalidEthAddress,
            )
        }),
{
}

/// Moving `amount` out of a vault succeeds exactly when the vault keeps at
/// least its rent-exempt minimum and the recipient's balance fits in `u64`;
/// it then debits the vault and credits the recipient by `amount`. The
/// refusal is `InsufficientVaultFunds` where the vault is short, and
/// `MathOverflow` otherwise.
pub proof fn lemma_settlement(
    vault_lamports: u64,
    recipient_lamports: u64,
    vault_min_rent: u64,
    amount: u64,
)
    ensures
        ({
            let res = settlement_spec(vault_lamports, recipient_lamports, vault_min_rent, amount);
            &&& (res is Ok) <==> (vault_min_rent + amount <= vault_lamports && recipient_lamports
                + amount <= u64::MAX)
            &&& res matches Ok((v, r)) ==> v == vault_lamports - amount && r == recipient_lamports
                + amount && v >= vault_min_rent
            &&& (res == Err::<(u64, u64), ExternalDelegateTokenMasterError>(
                ExternalDelegateTokenMasterError::InsufficientVaultFunds,
            )) <==> (vault_min_rent + amount <= u64::MAX && vault_lamports < vault_min_rent + amount)
            &&& (res == Err::<(u64, u64), ExternalDelegateTokenMasterError>(
                ExternalDelegateTokenMasterError::MathOverflow,
            )) <==> (vault_min_rent + amount > u64::MAX || (vault_min_rent + amount <= vault_lamports
                && recipient_lamports + amount > u64::MAX))
        }),
{
}

/// The transfer runs to its end for the central authority, always; for
/// anyone else it aborts exactly where no address can be derived for the
/// vault's authority, or where the vault and the signer pass their checks, the
/// recovery id is valid, and no public key can be recovered.
pub proof fn lemma_transfer_runs_exactly(
    accounts: TransferFunds,
    hash: Seq<u8>,
    recovery_id: u8,
    signature: Seq<u8>,
    central_authority: Seq<u8>,
    program_id: Seq<u8>,
)
    ensures
        ({
            let lookup = program_address_lookup(
                seq![seq![118u8, 97u8, 117u8, 108u8, 116u8], accounts.vault.vault.authority@],
                program_id,
            );
            let checks_pass = lookup is Some && lookup.unwrap().0 == accounts.vault.address@
                && accounts.vault.vault.authority@ == accounts.payer.address@;
            let aborts = accounts.payer.address@ != central_authority && (lookup is None || (
            checks_pass && (((recovery_id == 0 || recovery_id == 27) && secp256k1_recovered_key(
                hash,
                false,
                signature,
            ) is None) || ((recovery_id == 1 || recovery_id == 28) && secp256k1_recovered_key(
                hash,
                true,
                signature,
            ) is None))));
            transfer_runs(accounts, hash, recovery_id, signature, central_authority, program_id)
                <==> !aborts
        }),
{
    crate::crypto::lemma_vault_seeds_layout(accounts.vault.vault.authority@);
}

/// The central authority may always move a vault's lamports; anyone else
/// exactly when the vault sits at the address derived from `b"vault"` and its
/// authority, the signer is that authority, and the signature recovers, with
/// the parity its recovery id names, to a key whose Keccak digest ends in the
/// vault's Ethereum address.
pub proof fn lemma_transfer_authorization_exactly(
    accounts: TransferFunds,
    hash: Seq<u8>,
    recovery_id: u8,
    signature: Seq<u8>,
    central_authority: Seq<u8>,
    program_id: Seq<u8>,
)
    requires
        transfer_runs(accounts, hash, recovery_id, signature, central_authority, program_id),
    ensures
        ({
            let eth = accounts.vault.vault.eth_address@;
            let lookup = program_address_lookup(
                seq![seq![118u8, 97u8, 117u8, 108u8, 116u8], accounts.vault.vault.authority@],
                program_id,
            );
            let signed = ((recovery_id == 0 || recovery_id == 27) && secp256k1_recovered_key(
                hash,
                false,
                signature,
            ) is Some && keccak256_digest(secp256k1_recovered_key(hash, false, signature).unwrap()).subrange(12, 32) == eth) || ((recovery_id
                == 1 || recovery_id == 28) && secp256k1_recovered_key(hash, true, signature) is Some
                && keccak256_digest(secp256k1_recovered_key(hash, true, signature).unwrap()).subrange(12, 32) == eth);
            let authorized = accounts.payer.address@ == central_authority || (lookup is Some && lookup.unwrap().0 == accounts.vault.address@ && accounts.payer.address@
                == accounts.vault.vault.authority@ && signed);
            &&& (transfer_authorization(
                accounts,
                hash,
                recovery_id,
                signature,
                central_authority,
                program_id,
            ) is Ok) <==> authorized
            &&& (accounts.payer.address@ != central_authority && lookup is Some
                && lookup.unwrap().0 != accounts.vault.address@) ==> transfer_authorization(
                accounts,
                hash,
                recovery_id,
                signature,
                central_authority,
                program_id,
            ) == Err::<(), ExternalDelegateTokenMasterError>(
                ExternalDelegateTokenMasterError::InvalidVault,
            )
            &&& (accounts.payer.address@ != central_authority && lookup is Some
                && lookup.unwrap().0 == accounts.vault.address@ && accounts.payer.address@
                != accounts.vault.vault.authority@) ==> transfer_authorization(
                accounts,
                hash,
                recovery_id,
                signature,
                central_authority,
                program_id,
            ) == Err::<(), ExternalDelegateTokenMasterError>(
                ExternalDelegateTokenMasterError::Unauthorized,
            )
        }),
{
    crate::crypto::lemma_vault_seeds_layout(accounts.vault.vault.authority@);
}

/// What a transfer does, over its inputs: where the signer is authorized (see
/// `lemma_transfer_authorization_exactly`), the vault keeps its rent-exempt
/// minimum and the recipient's balance fits, it succeeds, taking `amount` from
/// the vault and giving it to the recipient and changing nothing else; in
/// every other case it fails and changes nothing. In particular the central
/// authority's transfer succeeds whenever the funds allow, whatever the
/// signature.
pub proof fn lemma_transfer_effect_exactly(
    accounts: TransferFunds,
    amount: u64,
    hash: Seq<u8>,
    recovery_id: u8,
    signature: Seq<u8>,
    central_authority: Seq<u8>,
    program_id: Seq<u8>,
    vault_min_rent: u64,
)
    requires
        transfer_runs(accounts, hash, recovery_id, signature, central_authority, program_id),
    ensures
        ({
            let (res, after) = transfer_effect(
                accounts,
                amount,
                hash,
                recovery_id,
                signature,
                central_authority,
                program_id,
                vault_min_rent,
            );
            let authorized = transfer_authorization(
                accounts,
                hash,
                recovery_id,
                signature,
                central_authority,
                program_id,
            ) is Ok;
            let funded = vault_min_rent + amount <= accounts.vault.lamports
                && accounts.recipient.lamports + amount <= u64::MAX;
            &&& (res is Ok) <==> (authorized && funded)
            &&& (accounts.payer.address@ == central_authority && funded) ==> res == Ok::<
                (),
                ExternalDelegateTokenMasterError,
            >(())
            &&& res is Ok ==> {
                &&& after.vault.lamports == accounts.vault.lamports - amount
                &&& after.recipient.lamports == accounts.recipient.lamports + amount
                &&& after.payer == accounts.payer
                &&& after.vault.address == accounts.vault.address
                &&& after.vault.vault == accounts.vault.vault
                &&& after.recipient.address == accounts.recipient.address
            }
            &&& res is Err ==> after == accounts
        }),
{
    lemma_transfer_authorization_exactly(
        accounts,
        hash,
        recovery_id,
        signature,
        central_authority,
        program_id,
    );
}

/// The transfer's accounts are accepted exactly when the payer signs (its
/// other flags are free), the recipient and the vault are writable, neither
/// signers nor executable, all three are distinct, and the vault is owned by
/// the program and its data starts with a vault.
pub proof fn lemma_transfer_accounts_accepted_exactly(
    payer: AccountInfo,
    recipient: AccountInfo,
    vault: AccountInfo,
    program_id: Seq<u8>,
)
    ensures
        (transfer_accounts_error(payer, recipient, vault, program_id) is None) <==> ({
            &&& payer.is_signer
            &&& recipient.address@ != payer.address@
            &&& !recipient.is_signer && recipient.is_writable && !recipient.executable
            &&& vault.address@ != payer.address@ && vault.address@ != recipient.address@
            &&& !vault.is_signer && vault.is_writable && !vault.executable
            &&& vault.owner@ == program_id
            &&& vault.data@.len() >= 54 && vault.data@[0] == 1u8
        }),
        !payer.is_signer ==> transfer_accounts_error(payer, recipient, vault, program_id) == Some(
            AccountError::MissingRequiredSignature,
        ),
{
}

} // verus!
