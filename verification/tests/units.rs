use external_delegate_token_master::bytes::bytes_eq;
use external_delegate_token_master::crypto::{eth_address_from_digest, find_vault_address, recover_eth_address};
use external_delegate_token_master::errors::ExternalDelegateTokenMasterError;
use external_delegate_token_master::instruction_data::ProgramInstruction;
use external_delegate_token_master::instructions::transfer_funds::{
    check_authorization, recovery_parity, settle_transfer, TransferFunds,
};
use external_delegate_token_master::state::{
    AccountDataError, Signer, UncheckedAccount, Vault, VaultAccount, VAULT_SPACE,
};
use external_delegate_token_master::{transfer_funds, ID};
use k256::ecdsa::SigningKey;
use quasar_lang::prelude::Address;
use sha3::{Digest, Keccak256};

fn keccak(data: &[u8]) -> [u8; 32] {
    let mut hasher = Keccak256::new();
    hasher.update(data);
    hasher.finalize().into()
}

fn key(tag: u8) -> SigningKey {
    let mut secret = [0x22u8; 32];
    secret[0] = tag;
    SigningKey::from_bytes(&secret.into()).unwrap()
}

fn eth_address_of(key: &SigningKey) -> [u8; 20] {
    let point = key.verifying_key().to_encoded_point(false);
    keccak(&point.as_bytes()[1..])[12..32].try_into().unwrap()
}

#[test]
fn error_codes_are_positions() {
    let all = [
        ExternalDelegateTokenMasterError::Unauthorized,
        ExternalDelegateTokenMasterError::InsufficientVaultFunds,
        ExternalDelegateTokenMasterError::MathOverflow,
        ExternalDelegateTokenMasterError::InvalidVault,
        ExternalDelegateTokenMasterError::InvalidEthAddress,
    ];
    for (i, e) in all.iter().enumerate() {
        assert_eq!(e.code(), i as u32);
        assert_eq!(ExternalDelegateTokenMasterError::from_code(e.code()), Some(*e));
    }
    assert_eq!(ExternalDelegateTokenMasterError::from_code(5), None);
    assert_eq!(ExternalDelegateTokenMasterError::from_code(6000), None);
}

#[test]
fn vault_data_layout_and_roundtrip() {
    let vault = Vault { authority: [3; 32], eth_address: [4; 20], bump: 254 };
    let data = vault.to_account_data();
    assert_eq!(data.len(), VAULT_SPACE);
    assert_eq!(data[0], 1);
    assert_eq!(data[1..33], [3; 32]);
    assert_eq!(data[33..53], [4; 20]);
    assert_eq!(data[53], 254);
    assert_eq!(Vault::from_account_data(&data), Ok(vault));

    let mut longer = data.clone();
    longer.extend_from_slice(&[9, 9, 9]);
    assert_eq!(Vault::from_account_data(&longer), Ok(vault));
}

#[test]
fn vault_data_errors() {
    let vault = Vault { authority: [3; 32], eth_address: [4; 20], bump: 1 };
    let data = vault.to_account_data();
    assert_eq!(Vault::from_account_data(&data[..53]), Err(AccountDataError::AccountDataTooSmall));
    assert_eq!(Vault::from_account_data(&[]), Err(AccountDataError::AccountDataTooSmall));
    let mut wrong = data.clone();
    wrong[0] = 2;
    assert_eq!(Vault::from_account_data(&wrong), Err(AccountDataError::InvalidAccountData));
}

#[test]
fn recovery_parity_conventions() {
    assert_eq!(recovery_parity(0), Some(false));
    assert_eq!(recovery_parity(27), Some(false));
    assert_eq!(recovery_parity(1), Some(true));
    assert_eq!(recovery_parity(28), Some(true));
    assert_eq!(recovery_parity(2), None);
    assert_eq!(recovery_parity(29), None);
    assert_eq!(recovery_parity(255), None);
}

#[test]
fn settlement_arithmetic() {
    assert_eq!(settle_transfer(100, 5, 50, 30), Ok((70, 35)));
    assert_eq!(settle_transfer(80, 5, 50, 30), Ok((50, 35)));
    assert_eq!(
        settle_transfer(79, 5, 50, 30),
        Err(ExternalDelegateTokenMasterError::InsufficientVaultFunds)
    );
    assert_eq!(
        settle_transfer(u64::MAX, 0, 2, u64::MAX - 1),
        Err(ExternalDelegateTokenMasterError::MathOverflow)
    );
    assert_eq!(
        settle_transfer(u64::MAX, u64::MAX, 0, 1),
        Err(ExternalDelegateTokenMasterError::MathOverflow)
    );
    assert_eq!(settle_transfer(10, 0, 0, 0), Ok((10, 0)));
}

#[test]
fn authorization_decisions() {
    let payer = [3u8; 32];
    let vault_address = [2u8; 32];
    let vault = Vault { authority: payer, eth_address: [4; 20], bump: 255 };
    assert_eq!(check_authorization(&payer, &vault_address, &vault, &vault_address, 28, Some([4; 20])), Ok(()));
    assert_eq!(
        check_authorization(&payer, &vault_address, &vault, &[8; 32], 28, Some([4; 20])),
        Err(ExternalDelegateTokenMasterError::InvalidVault)
    );
    assert_eq!(
        check_authorization(&[9; 32], &vault_address, &vault, &vault_address, 28, Some([4; 20])),
        Err(ExternalDelegateTokenMasterError::Unauthorized)
    );
    assert_eq!(
        check_authorization(&payer, &vault_address, &vault, &vault_address, 3, None),
        Err(ExternalDelegateTokenMasterError::InvalidEthAddress)
    );
    assert_eq!(
        check_authorization(&payer, &vault_address, &vault, &vault_address, 0, Some([5; 20])),
        Err(ExternalDelegateTokenMasterError::InvalidEthAddress)
    );
}

#[test]
fn eth_address_is_tail_of_digest() {
    let mut digest = [0u8; 32];
    for (i, b) in digest.iter_mut().enumerate() {
        *b = i as u8;
    }
    let eth = eth_address_from_digest(&digest);
    let expected: Vec<u8> = (12u8..32).collect();
    assert_eq!(eth.to_vec(), expected);
}

#[test]
fn recovery_yields_signer_eth_address() {
    let signer = key(1);
    let hash = keccak(b"message");
    let (sig, recid) = signer.sign_prehash_recoverable(&hash).unwrap();
    let signature: [u8; 64] = sig.to_bytes().into();
    let is_odd = recid.to_byte() == 1;
    assert_eq!(recover_eth_address(&hash, is_odd, &signature), Some(eth_address_of(&signer)));
    assert_ne!(recover_eth_address(&hash, !is_odd, &signature), Some(eth_address_of(&signer)));
    assert_eq!(recover_eth_address(&hash, is_odd, &[0; 64]), None);
}

#[test]
fn vault_address_matches_const_derivation() {
    let authority = [0x42u8; 32];
    let (address, bump) = find_vault_address(&authority, &ID).unwrap();
    let (expected, expected_bump) = quasar_lang::pda::find_program_address_const(
        &[b"vault", &authority],
        &Address::new_from_array(ID),
    );
    assert_eq!(address, expected.to_bytes());
    assert_eq!(bump, expected_bump);
    let (other, _) = find_vault_address(&[0x43u8; 32], &ID).unwrap();
    assert_ne!(address, other);
}

#[test]
fn instruction_data_roundtrip() {
    let ix = ProgramInstruction::TransferFunds {
        amount: 100_000_000,
        recovery_id: 1,
        hash: [7; 32],
        signature: [8; 64],
    };
    let data = ix.encode();
    let mut expected = vec![1u8];
    expected.extend_from_slice(&100_000_000u64.to_le_bytes());
    expected.push(1);
    expected.extend_from_slice(&[7; 32]);
    expected.extend_from_slice(&[8; 64]);
    assert_eq!(data, expected);
    assert_eq!(ProgramInstruction::decode(&data), Some(ix));

    let init = ProgramInstruction::InitializeVault { eth_address: [5; 20] };
    let data = init.encode();
    assert_eq!(data.len(), 21);
    assert_eq!(data[0], 0);
    assert_eq!(ProgramInstruction::decode(&data), Some(init));
}

#[test]
fn instruction_data_rejects() {
    assert_eq!(ProgramInstruction::decode(&[]), None);
    assert_eq!(ProgramInstruction::decode(&[2; 200]), None);
    assert_eq!(ProgramInstruction::decode(&[0; 20]), None);
    let mut short = vec![1u8];
    short.extend_from_slice(&[0; 104]);
    assert_eq!(ProgramInstruction::decode(&short), None);
    short.push(0);
    assert!(ProgramInstruction::decode(&short).is_some());
}

#[test]
fn bytes_equality() {
    assert!(bytes_eq(&[1, 2, 3], &[1, 2, 3]));
    assert!(!bytes_eq(&[1, 2, 3], &[1, 2, 4]));
    assert!(!bytes_eq(&[1, 2], &[1, 2, 3]));
}

#[test]
fn failed_transfer_leaves_accounts() {
    let central = [0xCA; 32];
    let mut accounts = TransferFunds {
        payer: Signer { address: central },
        recipient: UncheckedAccount { address: [1; 32], lamports: u64::MAX },
        vault: VaultAccount {
            address: [2; 32],
            lamports: 1_000,
            vault: Vault { authority: [3; 32], eth_address: [4; 20], bump: 1 },
        },
    };
    let before = accounts;
    let result = transfer_funds(&mut accounts, 10, 0, [0; 32], [0; 64], &central, 100);
    assert_eq!(result, Err(ExternalDelegateTokenMasterError::MathOverflow));
    assert_eq!(accounts, before);
    accounts.recipient.lamports = 0;
    let result = transfer_funds(&mut accounts, 900, 0, [0; 32], [0; 64], &central, 100);
    assert_eq!(result, Ok(()));
    assert_eq!(accounts.vault.lamports, 100);
    assert_eq!(accounts.recipient.lamports, 900);
}

