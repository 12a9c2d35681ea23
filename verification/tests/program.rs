use external_delegate_token_master::crypto::find_vault_address;
use external_delegate_token_master::errors::ExternalDelegateTokenMasterError;
use external_delegate_token_master::instructions::transfer_funds::TransferFunds;
use external_delegate_token_master::accounts::{AccountError, AccountInfo, SYSTEM_PROGRAM_ID};
use external_delegate_token_master::state::VAULT_SPACE;
use external_delegate_token_master::{create_vault, transfer_funds, try_transfer_funds, ID};
use k256::ecdsa::SigningKey;
use sha3::{Digest, Keccak256};

const LAMPORTS_PER_SOL: u64 = 1_000_000_000;

/// The central authority the tests run the program with.
const CENTRAL_AUTHORITY: [u8; 32] = [0xCA; 32];

/// The rent-exempt minimum of an account with `space` bytes of data under the
/// default rent (3480 lamports per byte-year, two years to exemption).
fn rent_minimum(space: usize) -> u64 {
    2 * (128 + space as u64) * 3480
}

fn unique_address(tag: u8) -> [u8; 32] {
    let mut a = [0u8; 32];
    a[0] = tag;
    a[31] = 0x5A;
    a
}

fn signing_key(tag: u8) -> SigningKey {
    let mut secret = [0x11u8; 32];
    secret[31] = tag;
    SigningKey::from_bytes(&secret.into()).unwrap()
}

fn keccak(data: &[u8]) -> [u8; 32] {
    let mut hasher = Keccak256::new();
    hasher.update(data);
    hasher.finalize().into()
}

fn eth_address_of(key: &SigningKey) -> [u8; 20] {
    let point = key.verifying_key().to_encoded_point(false);
    let digest = keccak(&point.as_bytes()[1..]);
    digest[12..32].try_into().unwrap()
}

fn derive_vault_address(authority: [u8; 32]) -> [u8; 32] {
    find_vault_address(&authority, &ID).unwrap().0
}

fn sign_payload(signing_key: &SigningKey, payload: &[u8]) -> ([u8; 32], u8, [u8; 64]) {
    let hash = keccak(payload);
    let (sig, recid) = signing_key
        .sign_prehash_recoverable(&hash)
        .expect("failed to sign prehash");
    let signature: [u8; 64] = sig.to_bytes().into();
    (hash, recid.to_byte(), signature)
}

fn system_account(address: [u8; 32], lamports: u64) -> AccountInfo {
    AccountInfo {
        address,
        owner: SYSTEM_PROGRAM_ID,
        lamports,
        is_signer: false,
        is_writable: true,
        executable: false,
        data: Vec::new(),
    }
}

fn signer_account(address: [u8; 32], lamports: u64) -> AccountInfo {
    AccountInfo { is_signer: true, ..system_account(address, lamports) }
}

fn system_program_account() -> AccountInfo {
    AccountInfo {
        address: SYSTEM_PROGRAM_ID,
        owner: SYSTEM_PROGRAM_ID,
        lamports: 1,
        is_signer: false,
        is_writable: false,
        executable: true,
        data: Vec::new(),
    }
}

/// Runs the vault-creating instruction for `authority`, then lets the system
/// program create the account as the runtime would: owned by the program,
/// holding the rent-exempt minimum and the vault's data.
fn create_vault_account(authority: [u8; 32], eth_address: [u8; 20]) -> AccountInfo {
    let vault_address = derive_vault_address(authority);
    let accounts = create_vault(
        &signer_account(authority, LAMPORTS_PER_SOL),
        &system_account(vault_address, 0),
        &system_program_account(),
        eth_address,
    )
    .expect("vault accounts are valid");
    AccountInfo {
        address: vault_address,
        owner: ID,
        lamports: rent_minimum(VAULT_SPACE),
        is_signer: false,
        is_writable: true,
        executable: false,
        data: accounts.vault.vault.to_account_data(),
    }
}

/// The transfer instruction's accounts, checked as the runtime hands them over.
fn transfer_accounts(payer: [u8; 32], recipient: [u8; 32], recipient_lamports: u64, vault: &AccountInfo) -> TransferFunds {
    TransferFunds::load(
        &signer_account(payer, LAMPORTS_PER_SOL),
        &system_account(recipient, recipient_lamports),
        vault,
    )
    .expect("transfer accounts are valid")
}

#[test]
fn test_initialize_vault() {
    let payer = unique_address(1);
    let vault = derive_vault_address(payer);
    let eth_address = [0; 20];

    let result = create_vault(
        &signer_account(payer, LAMPORTS_PER_SOL),
        &system_account(vault, 0),
        &system_program_account(),
        eth_address,
    );
    assert!(result.is_ok());
    let accounts = result.unwrap();

    let data = accounts.vault.vault.to_account_data();
    assert_eq!(data[1..33], payer);
    assert_eq!(data[33..53], eth_address);
}

#[test]
fn test_transfer_funds_by_authority() {
    let authority = unique_address(2);
    let recipient = unique_address(3);
    let amount = LAMPORTS_PER_SOL;
    let signing_key = signing_key(1);
    let eth_address = eth_address_of(&signing_key);

    let mut vault = create_vault_account(authority, eth_address);
    // override vault lamports
    vault.lamports = amount;

    let pre_vault_balance = vault.lamports;
    let pre_recipient_balance = LAMPORTS_PER_SOL;

    let (hash, recovery_id, signature) = sign_payload(&signing_key, b"transfer_funds:test");
    let mut accounts = transfer_accounts(authority, recipient, pre_recipient_balance, &vault);
    let result = transfer_funds(
        &mut accounts,
        amount / 10,
        recovery_id,
        hash,
        signature,
        &CENTRAL_AUTHORITY,
        rent_minimum(VAULT_SPACE),
    );
    assert!(result.is_ok());

    let post_vault_balance = accounts.vault.lamports;
    let post_recipient_balance = accounts.recipient.lamports;

    assert_eq!(post_vault_balance, pre_vault_balance - amount / 10);
    assert_eq!(post_recipient_balance, pre_recipient_balance + amount / 10);
}

#[test]
fn test_transfer_funds_by_central_authority() {
    let authority = unique_address(4);
    let recipient = unique_address(5);
    let amount = LAMPORTS_PER_SOL;
    let signing_key = signing_key(2);
    let eth_address = eth_address_of(&signing_key);

    let mut vault = create_vault_account(authority, eth_address);
    vault.lamports = amount;

    let pre_vault_balance = vault.lamports;
    let pre_recipient_balance = LAMPORTS_PER_SOL;

    let (hash, recovery_id, signature) = sign_payload(&signing_key, b"transfer_funds:test");
    let mut accounts = transfer_accounts(CENTRAL_AUTHORITY, recipient, pre_recipient_balance, &vault);
    let result = transfer_funds(
        &mut accounts,
        amount / 10,
        recovery_id,
        hash,
        signature,
        &CENTRAL_AUTHORITY,
        rent_minimum(VAULT_SPACE),
    );
    assert!(result.is_ok());

    let post_vault_balance = accounts.vault.lamports;
    let post_recipient_balance = accounts.recipient.lamports;

    assert_eq!(post_vault_balance, pre_vault_balance - amount / 10);
    assert_eq!(post_recipient_balance, pre_recipient_balance + amount / 10);
}

#[test]
fn test_transfer_funds_with_invalid_authority() {
    let authority = unique_address(6);
    let invalid_authority = unique_address(7);
    let recipient = unique_address(8);
    let amount = LAMPORTS_PER_SOL;
    let signing_key = signing_key(3);
    let eth_address = eth_address_of(&signing_key);

    let mut vault = create_vault_account(authority, eth_address);
    vault.lamports = amount;
    let pre_recipient_balance = LAMPORTS_PER_SOL;

    let (hash, recovery_id, signature) = sign_payload(&signing_key, b"transfer_funds:test");
    let mut accounts = transfer_accounts(invalid_authority, recipient, pre_recipient_balance, &vault);
    let before = accounts;
    let result = transfer_funds(
        &mut accounts,
        amount / 10,
        recovery_id,
        hash,
        signature,
        &CENTRAL_AUTHORITY,
        rent_minimum(VAULT_SPACE),
    );

    assert!(result.is_err());
    assert_eq!(result, Err(ExternalDelegateTokenMasterError::Unauthorized));
    assert_eq!(accounts, before);
}

#[test]
fn test_transfer_funds_with_invalid_vault() {
    let authority = unique_address(9);
    let recipient = unique_address(10);
    let fake_vault = unique_address(11);
    let amount = LAMPORTS_PER_SOL;
    let signing_key = signing_key(4);
    let eth_address = eth_address_of(&signing_key);

    let mut vault = create_vault_account(authority, eth_address);
    vault.address = fake_vault;

    let (hash, recovery_id, signature) = sign_payload(&signing_key, b"transfer_funds:test");
    let mut accounts = transfer_accounts(authority, recipient, LAMPORTS_PER_SOL, &vault);
    let result = transfer_funds(
        &mut accounts,
        amount / 10,
        recovery_id,
        hash,
        signature,
        &CENTRAL_AUTHORITY,
        rent_minimum(VAULT_SPACE),
    );

    assert!(result.is_err());
    assert_eq!(result, Err(ExternalDelegateTokenMasterError::InvalidVault));
}

#[test]
fn test_transfer_funds_with_invalid_eth_address() {
    let authority = unique_address(12);
    let recipient = unique_address(13);
    let amount = LAMPORTS_PER_SOL;
    let valid_signing_key = signing_key(5);
    let invalid_signing_key = signing_key(6);
    let eth_address = eth_address_of(&valid_signing_key);

    let mut vault = create_vault_account(authority, eth_address);
    vault.lamports = amount;
    let pre_recipient_balance = LAMPORTS_PER_SOL;

    let (hash, recovery_id, signature) =
        sign_payload(&invalid_signing_key, b"transfer_funds:test");
    let mut accounts = transfer_accounts(authority, recipient, pre_recipient_balance, &vault);
    let result = transfer_funds(
        &mut accounts,
        amount / 10,
        recovery_id,
        hash,
        signature,
        &CENTRAL_AUTHORITY,
        rent_minimum(VAULT_SPACE),
    );

    assert!(result.is_err());
    assert_eq!(result, Err(ExternalDelegateTokenMasterError::InvalidEthAddress));
    assert_eq!(accounts.recipient.lamports, pre_recipient_balance);
    assert_eq!(accounts.vault.lamports, amount);
}

#[test]
fn test_transfer_funds_with_insufficient_vault_funds() {
    let authority = unique_address(14);
    let recipient = unique_address(15);
    let signing_key = signing_key(7);
    let eth_address = eth_address_of(&signing_key);

    let vault = create_vault_account(authority, eth_address);

    let pre_vault_balance = vault.lamports;
    let pre_recipient_balance = LAMPORTS_PER_SOL;
    let transfer_amount = pre_vault_balance + 1;

    let (hash, recovery_id, signature) = sign_payload(&signing_key, b"transfer_funds:test");
    let mut accounts = transfer_accounts(authority, recipient, pre_recipient_balance, &vault);
    let result = transfer_funds(
        &mut accounts,
        transfer_amount,
        recovery_id,
        hash,
        signature,
        &CENTRAL_AUTHORITY,
        rent_minimum(VAULT_SPACE),
    );

    assert!(result.is_err());
    assert_eq!(result, Err(ExternalDelegateTokenMasterError::InsufficientVaultFunds));
}

#[test]
fn transfer_with_unrecoverable_signature_does_not_run() {
    let authority = unique_address(16);
    let signing_key = signing_key(8);
    let mut vault = create_vault_account(authority, eth_address_of(&signing_key));
    vault.lamports = LAMPORTS_PER_SOL;
    let mut accounts = transfer_accounts(authority, unique_address(17), 0, &vault);
    let before = accounts;
    let result = try_transfer_funds(
        &mut accounts,
        10,
        0,
        [1; 32],
        [0; 64],
        &CENTRAL_AUTHORITY,
        rent_minimum(VAULT_SPACE),
    );
    assert_eq!(result, None);
    assert_eq!(accounts, before);
}

#[test]
fn try_transfer_runs_a_valid_transfer() {
    let authority = unique_address(18);
    let signing_key = signing_key(9);
    let mut vault = create_vault_account(authority, eth_address_of(&signing_key));
    vault.lamports = 5_000_000;
    let (hash, recovery_id, signature) = sign_payload(&signing_key, b"another payload");
    let mut accounts = transfer_accounts(authority, unique_address(19), 7, &vault);
    let result = try_transfer_funds(
        &mut accounts,
        1_000_000,
        recovery_id + 27,
        hash,
        signature,
        &CENTRAL_AUTHORITY,
        rent_minimum(VAULT_SPACE),
    );
    assert_eq!(result, Some(Ok(())));
    assert_eq!(accounts.vault.lamports, 4_000_000);
    assert_eq!(accounts.recipient.lamports, 1_000_007);
}

#[test]
fn transfer_keeps_vault_state() {
    let authority = unique_address(20);
    let signing_key = signing_key(10);
    let eth_address = eth_address_of(&signing_key);
    let mut vault = create_vault_account(authority, eth_address);
    vault.lamports = 3_000_000;
    let (hash, recovery_id, signature) = sign_payload(&signing_key, b"transfer_funds:test");
    let mut accounts = transfer_accounts(authority, unique_address(21), 0, &vault);
    let before = accounts;
    let result = transfer_funds(
        &mut accounts,
        1_000_000,
        recovery_id,
        hash,
        signature,
        &CENTRAL_AUTHORITY,
        rent_minimum(VAULT_SPACE),
    );
    assert_eq!(result, Ok(()));
    assert_eq!(accounts.vault.vault, before.vault.vault);
    assert_eq!(accounts.vault.address, before.vault.address);
    assert_eq!(accounts.payer.address, authority);
    assert_eq!(accounts.recipient.address, unique_address(21));
    assert_eq!(accounts.vault.lamports + accounts.recipient.lamports, 3_000_000);
    assert_eq!(accounts.vault.vault.eth_address, eth_address);
    assert_eq!(accounts.vault.vault.authority, authority);
}

#[test]
fn vault_cannot_be_created_twice() {
    let authority = unique_address(22);
    let vault = create_vault_account(authority, [1; 20]);
    let result = create_vault(
        &signer_account(authority, LAMPORTS_PER_SOL),
        &vault,
        &system_program_account(),
        [2; 20],
    );
    assert_eq!(result.err(), Some(AccountError::AccountAlreadyInitialized));
}

#[test]
fn vault_must_sit_at_derived_address() {
    let authority = unique_address(23);
    let result = create_vault(
        &signer_account(authority, LAMPORTS_PER_SOL),
        &system_account(unique_address(24), 0),
        &system_program_account(),
        [2; 20],
    );
    assert_eq!(result.err(), Some(AccountError::InvalidPda));
}

#[test]
fn vault_creation_checks_flags_and_program() {
    let authority = unique_address(25);
    let vault_address = derive_vault_address(authority);
    let unsigned = create_vault(
        &system_account(authority, LAMPORTS_PER_SOL),
        &system_account(vault_address, 0),
        &system_program_account(),
        [2; 20],
    );
    assert_eq!(unsigned.err(), Some(AccountError::MissingRequiredSignature));
    let duplicated = create_vault(
        &signer_account(authority, LAMPORTS_PER_SOL),
        &system_account(authority, 0),
        &system_program_account(),
        [2; 20],
    );
    assert_eq!(duplicated.err(), Some(AccountError::AccountBorrowFailed));
    let wrong_program = AccountInfo { address: unique_address(26), ..system_program_account() };
    let result = create_vault(
        &signer_account(authority, LAMPORTS_PER_SOL),
        &system_account(vault_address, 0),
        &wrong_program,
        [2; 20],
    );
    assert_eq!(result.err(), Some(AccountError::IncorrectProgramId));
}

#[test]
fn transfer_accounts_are_checked() {
    let authority = unique_address(27);
    let recipient = unique_address(28);
    let vault = create_vault_account(authority, [3; 20]);
    let payer = signer_account(authority, 0);

    let aliased = TransferFunds::load(&payer, &vault, &vault);
    assert_eq!(aliased.err(), Some(AccountError::AccountBorrowFailed));

    let unsigned = TransferFunds::load(&system_account(authority, 0), &system_account(recipient, 0), &vault);
    assert_eq!(unsigned.err(), Some(AccountError::MissingRequiredSignature));

    let read_only = AccountInfo { is_writable: false, ..system_account(recipient, 0) };
    let result = TransferFunds::load(&payer, &read_only, &vault);
    assert_eq!(result.err(), Some(AccountError::Immutable));

    let foreign = AccountInfo { owner: unique_address(29), ..create_vault_account(authority, [3; 20]) };
    let result = TransferFunds::load(&payer, &system_account(recipient, 0), &foreign);
    assert_eq!(result.err(), Some(AccountError::IllegalOwner));

    let short = AccountInfo { data: vec![1; 10], ..create_vault_account(authority, [3; 20]) };
    let result = TransferFunds::load(&payer, &system_account(recipient, 0), &short);
    assert_eq!(result.err(), Some(AccountError::AccountDataTooSmall));

    let loaded = TransferFunds::load(&payer, &system_account(recipient, 5), &vault).unwrap();
    assert_eq!(loaded.payer.address, authority);
    assert_eq!(loaded.recipient.lamports, 5);
    assert_eq!(loaded.vault.vault.eth_address, [3; 20]);
    assert_eq!(loaded.vault.lamports, vault.lamports);
}
