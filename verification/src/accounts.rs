use vstd::prelude::*;

verus! {

/// The address of the system program: all zero bytes. An account that the
/// system program owns has not been taken over by any program yet.
pub const SYSTEM_PROGRAM_ID: [u8; 32] = [
    0, 0, 0, 0, 0, 0, 0, 0, 0, 0, 0, 0, 0, 0, 0, 0, 0, 0, 0, 0, 0, 0, 0, 0, 0, 0, 0, 0, 0, 0, 0, 0,
];

pub open spec fn system_program_id_spec() -> Seq<u8> {
    Seq::new(32, |i: int| 0u8)
}

/// An account as the runtime hands it to an instruction.
#[derive(Debug, PartialEq, Eq)]
pub struct AccountInfo {
    pub address: [u8; 32],
    pub owner: [u8; 32],
    pub lamports: u64,
    pub is_signer: bool,
    pub is_writable: bool,
    pub executable: bool,
    pub data: Vec<u8>,
}

/// Why the accounts of an instruction are refused before its handler runs.
#[derive(Debug, Clone, Copy, PartialEq, Eq, Structural)]
pub enum AccountError {
    /// An account was passed twice.
    AccountBorrowFailed,
    /// A signer flag differs from what the account requires.
    MissingRequiredSignature,
    /// A writable flag differs from what the account requires.
    Immutable,
    /// An executable flag differs from what the account requires, or the
    /// account's data does not start with the expected discriminator.
    InvalidAccountData,
    /// A data account is not owned by this program.
    IllegalOwner,
    /// An account's data is shorter than its type.
    AccountDataTooSmall,
    /// No program derived address exists for the seeds.
    InvalidSeeds,
    /// An account does not sit at its program derived address.
    InvalidPda,
    /// An account to be created already belongs to a program.
    AccountAlreadyInitialized,
    /// A program account is not the expected program.
    IncorrectProgramId,
}

/// The refusal, if any, of an account whose signer, writable and executable
/// flags must all be exactly as given; flags are compared in that order.
pub open spec fn exact_flags_error(
    account: AccountInfo,
    signer: bool,
    writable: bool,
    executable: bool,
) -> Option<AccountError> {
    if account.is_signer != signer {
        Some(AccountError::MissingRequiredSignature)
    } else if account.is_writable != writable {
        Some(AccountError::Immutable)
    } else if account.executable != executable {
        Some(AccountError::InvalidAccountData)
    } else {
        None
    }
}

/// Checks that an account's flags are exactly as given.
pub fn check_exact_flags(account: &AccountInfo, signer: bool, writable: bool, executable: bool) -> (res: Option<AccountError>)
    ensures
        res == exact_flags_error(*account, signer, writable, executable),
{
    if account.is_signer != signer {
        Some(AccountError::MissingRequiredSignature)
    } else if account.is_writable != writable {
        Some(AccountError::Immutable)
    } else if account.executable != executable {
        Some(AccountError::InvalidAccountData)
    } else {
        None
    }
}

} // verus!
