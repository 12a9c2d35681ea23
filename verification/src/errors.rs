use vstd::prelude::*;

verus! {

/// Errors the program reports; each has the numeric code it is known by
/// on chain (`ProgramError::Custom(code)`), its position in the list.
#[derive(Debug, Clone, Copy, PartialEq, Eq, Structural)]
pub enum ExternalDelegateTokenMasterError {
    Unauthorized,
    InsufficientVaultFunds,
    MathOverflow,
    InvalidVault,
    InvalidEthAddress,
}

/// The code of each error: its position in the declaration.
pub open spec fn error_code_spec(e: ExternalDelegateTokenMasterError) -> u32 {
    match e {
        ExternalDelegateTokenMasterError::Unauthorized => 0,
        ExternalDelegateTokenMasterError::InsufficientVaultFunds => 1,
        ExternalDelegateTokenMasterError::MathOverflow => 2,
        ExternalDelegateTokenMasterError::InvalidVault => 3,
        ExternalDelegateTokenMasterError::InvalidEthAddress => 4,
    }
}

/// The error whose code is `code`, if there is one.
pub open spec fn error_from_code_spec(code: u32) -> Option<ExternalDelegateTokenMasterError> {
    if code == 0 {
        Some(ExternalDelegateTokenMasterError::Unauthorized)
    } else if code == 1 {
        Some(ExternalDelegateTokenMasterError::InsufficientVaultFunds)
    } else if code == 2 {
        Some(ExternalDelegateTokenMasterError::MathOverflow)
    } else if code == 3 {
        Some(ExternalDelegateTokenMasterError::InvalidVault)
    } else if code == 4 {
        Some(ExternalDelegateTokenMasterError::InvalidEthAddress)
    } else {
        None
    }
}

impl ExternalDelegateTokenMasterError {
    /// The custom program error code of this error.
    pub fn code(&self) -> (res: u32)
        ensures
            res == error_code_spec(*self),
    {
        match self {
            ExternalDelegateTokenMasterError::Unauthorized => 0,
            ExternalDelegateTokenMasterError::InsufficientVaultFunds => 1,
            ExternalDelegateTokenMasterError::MathOverflow => 2,
            ExternalDelegateTokenMasterError::InvalidVault => 3,
            ExternalDelegateTokenMasterError::InvalidEthAddress => 4,
        }
    }

    /// The error carried by a custom program error code; `None` for a code
    /// that no error of this program has.
    pub fn from_code(code: u32) -> (res: Option<ExternalDelegateTokenMasterError>)
        ensures
            res == error_from_code_spec(code),
    {
        match code {
            0 => Some(ExternalDelegateTokenMasterError::Unauthorized),
            1 => Some(ExternalDelegateTokenMasterError::InsufficientVaultFunds),
            2 => Some(ExternalDelegateTokenMasterError::MathOverflow),
            3 => Some(ExternalDelegateTokenMasterError::InvalidVault),
            4 => Some(ExternalDelegateTokenMasterError::InvalidEthAddress),
            _ => None,
        }
    }
}

/// Decoding the code of an error gives the error back.
pub proof fn lemma_error_code_roundtrip(e: ExternalDelegateTokenMasterError)
    ensures
        error_from_code_spec(error_code_spec(e)) == Some(e),
{
}

/// A code that decodes to an error is that error's code; the codes in use
/// are exactly those below five.
pub proof fn lemma_error_code_inverse(code: u32)
    ensures
        (error_from_code_spec(code) is Some) <==> code < 5,
        error_from_code_spec(code) matches Some(e) ==> error_code_spec(e) == code,
{
}

/// Each error's code is its position in the declaration, from 0, and exactly
/// the codes 0 to 4 name an error.
pub proof fn lemma_error_codes_are_positions()
    ensures
        error_code_spec(ExternalDelegateTokenMasterError::Unauthorized) == 0,
        error_code_spec(ExternalDelegateTokenMasterError::InsufficientVaultFunds) == 1,
        error_code_spec(ExternalDelegateTokenMasterError::MathOverflow) == 2,
        error_code_spec(ExternalDelegateTokenMasterError::InvalidVault) == 3,
        error_code_spec(ExternalDelegateTokenMasterError::InvalidEthAddress) == 4,
        forall|code: u32| code >= 5 ==> error_from_code_spec(code) is None,
{
}

} // verus!
