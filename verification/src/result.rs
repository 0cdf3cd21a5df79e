//! Error kinds raised by the settlement program.
//!
//! Every program invocation returns success or exactly one of these
//! kinds; all are terminal for the instruction that raised them and the
//! account state is left unchanged on every error path.

use vstd::prelude::*;

verus! {

/// Outcome of one settlement program invocation.
pub type ProgramResult = Result<(), ProgramError>;

/// The mutually exclusive, fail-closed error kinds of the settlement
/// program.
#[derive(Copy, Clone, PartialEq, Eq, Structural, Debug)]
pub enum ProgramError {
    AccountDataTooSmall,
    AccountNotNew,
    BalanceTooLow,
    InvalidAccount,
    InvalidAccountType,
    InvalidCommand,
    InvalidInput,
    InvalidKey,
    InvalidSpendData,
    MissingSigner,
}

impl ProgramError {
    /// The integer code reported for this error kind, numbered from 1 in
    /// declaration order.
    pub open spec fn spec_code(self) -> u32 {
        match self {
            ProgramError::AccountDataTooSmall => 1u32,
            ProgramError::AccountNotNew => 2u32,
            ProgramError::BalanceTooLow => 3u32,
            ProgramError::InvalidAccount => 4u32,
            ProgramError::InvalidAccountType => 5u32,
            ProgramError::InvalidCommand => 6u32,
            ProgramError::InvalidInput => 7u32,
            ProgramError::InvalidKey => 8u32,
            ProgramError::InvalidSpendData => 9u32,
            ProgramError::MissingSigner => 10u32,
        }
    }

    /// The integer code that a program invocation reports on failure.
    pub fn code(&self) -> (r: u32)
        ensures
            r == self.spec_code(),
            1 <= r <= 10,
    {
        match self {
            ProgramError::AccountDataTooSmall => 1,
            ProgramError::AccountNotNew => 2,
            ProgramError::BalanceTooLow => 3,
            ProgramError::InvalidAccount => 4,
            ProgramError::InvalidAccountType => 5,
            ProgramError::InvalidCommand => 6,
            ProgramError::InvalidInput => 7,
            ProgramError::InvalidKey => 8,
            ProgramError::InvalidSpendData => 9,
            ProgramError::MissingSigner => 10,
        }
    }

    /// The diagnostic line reported for this error kind.
    pub fn message(&self) -> (r: &'static str)
        ensures
            match self {
                ProgramError::AccountDataTooSmall => r@ == "Error: AccountDataTooSmall"@,
                ProgramError::AccountNotNew => r@ == "Error: AccountNotNew"@,
                ProgramError::BalanceTooLow => r@ == "Error: BalanceTooLow"@,
                ProgramError::InvalidAccount => r@ == "Error: InvalidAccount"@,
                ProgramError::InvalidAccountType => r@ == "Error: InvalidAccountType"@,
                ProgramError::InvalidCommand => r@ == "Error: InvalidCommand"@,
                ProgramError::InvalidInput => r@ == "Error: InvalidInput"@,
                ProgramError::InvalidKey => r@ == "Error: InvalidKey"@,
                ProgramError::InvalidSpendData => r@ == "Error: InvalidSpendData"@,
                ProgramError::MissingSigner => r@ == "Error: MissingSigner"@,
            },
    {
        match self {
            ProgramError::AccountDataTooSmall => "Error: AccountDataTooSmall",
            ProgramError::AccountNotNew => "Error: AccountNotNew",
            ProgramError::BalanceTooLow => "Error: BalanceTooLow",
            ProgramError::InvalidAccount => "Error: InvalidAccount",
            ProgramError::InvalidAccountType => "Error: InvalidAccountType",
            ProgramError::InvalidCommand => "Error: InvalidCommand",
            ProgramError::InvalidInput => "Error: InvalidInput",
            ProgramError::InvalidKey => "Error: InvalidKey",
            ProgramError::InvalidSpendData => "Error: InvalidSpendData",
            ProgramError::MissingSigner => "Error: MissingSigner",
        }
    }
}

} // verus!
