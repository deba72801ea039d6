//! What an instruction answers when it refuses.

use vstd::prelude::*;

verus! {

/// The number of the first error of a program; the framework keeps those below for itself.
pub const ERROR_CODE_OFFSET: u32 = 6000;

/// The number under which the framework reports an account constraint that names no error of its
/// own.
pub const CONSTRAINT_RAW: u32 = 2003;

/// The errors of this program.
#[derive(Clone, Copy, Debug, PartialEq, Eq, Structural)]
pub enum ErrorCode {
    AccountValidationFailure,
    ExceedsMaxClaim,
    ExceedsMaxNumNodes,
    ExpiredTipDistributionAccount,
    FundsAlreadyClaimed,
    InvalidProof,
    InvalidValidatorCommissionFeeBps,
    PrematureCloseTipDistributionAccount,
    PrematureMerkleRootUpload,
    RentExemptViolation,
    RootNotUploaded,
    Unauthorized,
}

/// Why an instruction failed.
#[derive(Clone, Copy, Debug, PartialEq, Eq, Structural)]
pub enum Error {
    /// One of this program's own errors.
    Program(ErrorCode),
    /// An error of the framework, by its number.
    Framework(u32),
}

impl ErrorCode {
    /// The position of the error in the program's list of errors.
    pub open spec fn position(self) -> nat {
        match self {
            ErrorCode::AccountValidationFailure => 0,
            ErrorCode::ExceedsMaxClaim => 1,
            ErrorCode::ExceedsMaxNumNodes => 2,
            ErrorCode::ExpiredTipDistributionAccount => 3,
            ErrorCode::FundsAlreadyClaimed => 4,
            ErrorCode::InvalidProof => 5,
            ErrorCode::InvalidValidatorCommissionFeeBps => 6,
            ErrorCode::PrematureCloseTipDistributionAccount => 7,
            ErrorCode::PrematureMerkleRootUpload => 8,
            ErrorCode::RentExemptViolation => 9,
            ErrorCode::RootNotUploaded => 10,
            ErrorCode::Unauthorized => 11,
        }
    }

    /// The text that goes with the error.
    pub open spec fn text(self) -> Seq<char> {
        match self {
            ErrorCode::AccountValidationFailure => "Account failed validation."@,
            ErrorCode::ExceedsMaxClaim => "The maximum number of funds to be claimed has been exceeded."@,
            ErrorCode::ExceedsMaxNumNodes => "The maximum number of claims has been exceeded."@,
            ErrorCode::ExpiredTipDistributionAccount => "The given TipDistributionAccount has expired."@,
            ErrorCode::FundsAlreadyClaimed => "The funds for the given index and TipDistributionAccount have already been claimed."@,
            ErrorCode::InvalidProof => "The given proof is invalid."@,
            ErrorCode::InvalidValidatorCommissionFeeBps => "Validator's commission basis points must be greater than 0 and less than or equal to the Config account's max_validator_commission_bps."@,
            ErrorCode::PrematureCloseTipDistributionAccount => "The given TipDistributionAccount is not ready to be closed."@,
            ErrorCode::PrematureMerkleRootUpload => "Must wait till at least one epoch after the tip distribution account was created to upload the merkle root."@,
            ErrorCode::RentExemptViolation => "Account would violate rent exemption."@,
            ErrorCode::RootNotUploaded => "No merkle root has been uploaded to the given TipDistributionAccount."@,
            ErrorCode::Unauthorized => "Unauthorized signer."@,
        }
    }

    /// The number under which the error is reported.
    pub fn number(&self) -> (number: u32)
        ensures
            number == ERROR_CODE_OFFSET + self.position(),
    {
        let position: u32 = match self {
            ErrorCode::AccountValidationFailure => 0,
            ErrorCode::ExceedsMaxClaim => 1,
            ErrorCode::ExceedsMaxNumNodes => 2,
            ErrorCode::ExpiredTipDistributionAccount => 3,
            ErrorCode::FundsAlreadyClaimed => 4,
            ErrorCode::InvalidProof => 5,
            ErrorCode::InvalidValidatorCommissionFeeBps => 6,
            ErrorCode::PrematureCloseTipDistributionAccount => 7,
            ErrorCode::PrematureMerkleRootUpload => 8,
            ErrorCode::RentExemptViolation => 9,
            ErrorCode::RootNotUploaded => 10,
            ErrorCode::Unauthorized => 11,
        };
        ERROR_CODE_OFFSET + position
    }

    /// The message that goes with the error.
    pub fn message(&self) -> (message: &'static str)
        ensures
            message@ == self.text(),
    {
        match self {
            ErrorCode::AccountValidationFailure => "Account failed validation.",
            ErrorCode::ExceedsMaxClaim => "The maximum number of funds to be claimed has been exceeded.",
            ErrorCode::ExceedsMaxNumNodes => "The maximum number of claims has been exceeded.",
            ErrorCode::ExpiredTipDistributionAccount => "The given TipDistributionAccount has expired.",
            ErrorCode::FundsAlreadyClaimed => "The funds for the given index and TipDistributionAccount have already been claimed.",
            ErrorCode::InvalidProof => "The given proof is invalid.",
            ErrorCode::InvalidValidatorCommissionFeeBps => "Validator's commission basis points must be greater than 0 and less than or equal to the Config account's max_validator_commission_bps.",
            ErrorCode::PrematureCloseTipDistributionAccount => "The given TipDistributionAccount is not ready to be closed.",
            ErrorCode::PrematureMerkleRootUpload => "Must wait till at least one epoch after the tip distribution account was created to upload the merkle root.",
            ErrorCode::RentExemptViolation => "Account would violate rent exemption.",
            ErrorCode::RootNotUploaded => "No merkle root has been uploaded to the given TipDistributionAccount.",
            ErrorCode::Unauthorized => "Unauthorized signer.",
        }
    }
}

impl Error {
    /// The number under which a failure is reported to the caller of the program.
    pub open spec fn reported(self) -> int {
        match self {
            Error::Program(code) => ERROR_CODE_OFFSET + code.position(),
            Error::Framework(number) => number as int,
        }
    }

    /// The number under which the failure is reported to the caller of the program.
    pub fn number(&self) -> (number: u32)
        ensures
            number == self.reported(),
            *self matches Error::Framework(given) ==> number == given,
    {
        match self {
            Error::Program(code) => code.number(),
            Error::Framework(number) => *number,
        }
    }
}

} // verus!
