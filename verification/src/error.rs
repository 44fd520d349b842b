use vstd::prelude::*;

verus! {

/// Failures that are particular to the vault program. On the ledger each
/// travels as a custom failure that carries the variant's position.
#[derive(Clone, Copy, Debug, PartialEq, Eq, Structural)]
pub enum VaultError {
    /// Invalid instruction
    InvalidInstruction,
    /// The storage slot holds too little to be exempt from rent
    NotRentExempt,
    /// The account presented as minter holds no minter credential
    InvalidMinter,
    /// The operation is not implemented
    NotImplemented,
}

/// Ledger codes of failures other than custom ones lie at or above this step.
pub const BUILTIN_STEP: u64 = 0x1_0000_0000;

/// Reasons for which an instruction fails, as the ledger knows them.
#[derive(Clone, Copy, Debug, PartialEq, Eq, Structural)]
pub enum ProgramFault {
    /// A failure particular to a program, by its number
    Custom(u32),
    InvalidArgument,
    InvalidInstructionData,
    InvalidAccountData,
    AccountDataTooSmall,
    InsufficientFunds,
    IncorrectProgramId,
    MissingRequiredSignature,
    AccountAlreadyInitialized,
    UninitializedAccount,
    NotEnoughAccountKeys,
    AccountBorrowFailed,
    MaxSeedLengthExceeded,
    InvalidSeeds,
    BorshIoError,
    AccountNotRentExempt,
    UnsupportedSysvar,
    IllegalOwner,
}

impl VaultError {
    /// The position of the variant, which is its custom failure number.
    pub open spec fn spec_code(self) -> u32 {
        match self {
            VaultError::InvalidInstruction => 0,
            VaultError::NotRentExempt => 1,
            VaultError::InvalidMinter => 2,
            VaultError::NotImplemented => 3,
        }
    }

    #[verifier::when_used_as_spec(spec_code)]
    pub fn code(self) -> (r: u32)
        ensures
            r == self.spec_code(),
    {
        match self {
            VaultError::InvalidInstruction => 0,
            VaultError::NotRentExempt => 1,
            VaultError::InvalidMinter => 2,
            VaultError::NotImplemented => 3,
        }
    }

    /// The message that describes the failure.
    pub fn message(&self) -> (r: &'static str)
        ensures
            r@ == (match *self {
                VaultError::InvalidInstruction => "Invalid Instruction"@,
                VaultError::NotRentExempt => "Not Rent Exempt"@,
                VaultError::InvalidMinter => "Invalid minter provided"@,
                VaultError::NotImplemented => "Not Implemented"@,
            }),
    {
        match self {
            VaultError::InvalidInstruction => "Invalid Instruction",
            VaultError::NotRentExempt => "Not Rent Exempt",
            VaultError::InvalidMinter => "Invalid minter provided",
            VaultError::NotImplemented => "Not Implemented",
        }
    }
}

impl From<VaultError> for ProgramFault {
    fn from(e: VaultError) -> (r: ProgramFault) {
        ProgramFault::Custom(e.code())
    }
}

impl vstd::std_specs::convert::FromSpecImpl<VaultError> for ProgramFault {
    open spec fn obeys_from_spec() -> bool {
        true
    }

    open spec fn from_spec(e: VaultError) -> ProgramFault {
        ProgramFault::Custom(e.spec_code())
    }
}

impl ProgramFault {
    /// The failure that stands for a vault failure on the ledger.
    pub open spec fn of(e: VaultError) -> ProgramFault {
        ProgramFault::Custom(e.spec_code())
    }

    /// The 64-bit code under which the ledger reports the failure.
    pub open spec fn spec_code(self) -> u64 {
        match self {
            ProgramFault::Custom(n) => if n == 0 {
                BUILTIN_STEP
            } else {
                n as u64
            },
            ProgramFault::InvalidArgument => (2 * BUILTIN_STEP) as u64,
            ProgramFault::InvalidInstructionData => (3 * BUILTIN_STEP) as u64,
            ProgramFault::InvalidAccountData => (4 * BUILTIN_STEP) as u64,
            ProgramFault::AccountDataTooSmall => (5 * BUILTIN_STEP) as u64,
            ProgramFault::InsufficientFunds => (6 * BUILTIN_STEP) as u64,
            ProgramFault::IncorrectProgramId => (7 * BUILTIN_STEP) as u64,
            ProgramFault::MissingRequiredSignature => (8 * BUILTIN_STEP) as u64,
            ProgramFault::AccountAlreadyInitialized => (9 * BUILTIN_STEP) as u64,
            ProgramFault::UninitializedAccount => (10 * BUILTIN_STEP) as u64,
            ProgramFault::NotEnoughAccountKeys => (11 * BUILTIN_STEP) as u64,
            ProgramFault::AccountBorrowFailed => (12 * BUILTIN_STEP) as u64,
            ProgramFault::MaxSeedLengthExceeded => (13 * BUILTIN_STEP) as u64,
            ProgramFault::InvalidSeeds => (14 * BUILTIN_STEP) as u64,
            ProgramFault::BorshIoError => (15 * BUILTIN_STEP) as u64,
            ProgramFault::AccountNotRentExempt => (16 * BUILTIN_STEP) as u64,
            ProgramFault::UnsupportedSysvar => (17 * BUILTIN_STEP) as u64,
            ProgramFault::IllegalOwner => (18 * BUILTIN_STEP) as u64,
        }
    }

    /// The failure that a 64-bit ledger code stands for. A code that names
    /// no other failure is a custom one, by its low 32 bits.
    pub open spec fn spec_from_code(code: u64) -> ProgramFault {
        if code == 1 * BUILTIN_STEP {
            ProgramFault::Custom(0)
        } else if code == 2 * BUILTIN_STEP {
            ProgramFault::InvalidArgument
        } else if code == 3 * BUILTIN_STEP {
            ProgramFault::InvalidInstructionData
        } else if code == 4 * BUILTIN_STEP {
            ProgramFault::InvalidAccountData
        } else if code == 5 * BUILTIN_STEP {
            ProgramFault::AccountDataTooSmall
        } else if code == 6 * BUILTIN_STEP {
            ProgramFault::InsufficientFunds
        } else if code == 7 * BUILTIN_STEP {
            ProgramFault::IncorrectProgramId
        } else if code == 8 * BUILTIN_STEP {
            ProgramFault::MissingRequiredSignature
        } else if code == 9 * BUILTIN_STEP {
            ProgramFault::AccountAlreadyInitialized
        } else if code == 10 * BUILTIN_STEP {
            ProgramFault::UninitializedAccount
        } else if code == 11 * BUILTIN_STEP {
            ProgramFault::NotEnoughAccountKeys
        } else if code == 12 * BUILTIN_STEP {
            ProgramFault::AccountBorrowFailed
        } else if code == 13 * BUILTIN_STEP {
            ProgramFault::MaxSeedLengthExceeded
        } else if code == 14 * BUILTIN_STEP {
            ProgramFault::InvalidSeeds
        } else if code == 15 * BUILTIN_STEP {
            ProgramFault::BorshIoError
        } else if code == 16 * BUILTIN_STEP {
            ProgramFault::AccountNotRentExempt
        } else if code == 17 * BUILTIN_STEP {
            ProgramFault::UnsupportedSysvar
        } else if code == 18 * BUILTIN_STEP {
            ProgramFault::IllegalOwner
        } else {
            ProgramFault::Custom((code % BUILTIN_STEP) as u32)
        }
    }

    #[verifier::when_used_as_spec(spec_code)]
    pub fn code(self) -> (r: u64)
        ensures
            r == self.spec_code(),
    {
        match self {
            ProgramFault::Custom(n) => if n == 0 {
                BUILTIN_STEP
            } else {
                n as u64
            },
            ProgramFault::InvalidArgument => 2 * BUILTIN_STEP,
            ProgramFault::InvalidInstructionData => 3 * BUILTIN_STEP,
            ProgramFault::InvalidAccountData => 4 * BUILTIN_STEP,
            ProgramFault::AccountDataTooSmall => 5 * BUILTIN_STEP,
            ProgramFault::InsufficientFunds => 6 * BUILTIN_STEP,
            ProgramFault::IncorrectProgramId => 7 * BUILTIN_STEP,
            ProgramFault::MissingRequiredSignature => 8 * BUILTIN_STEP,
            ProgramFault::AccountAlreadyInitialized => 9 * BUILTIN_STEP,
            ProgramFault::UninitializedAccount => 10 * BUILTIN_STEP,
            ProgramFault::NotEnoughAccountKeys => 11 * BUILTIN_STEP,
            ProgramFault::AccountBorrowFailed => 12 * BUILTIN_STEP,
            ProgramFault::MaxSeedLengthExceeded => 13 * BUILTIN_STEP,
            ProgramFault::InvalidSeeds => 14 * BUILTIN_STEP,
            ProgramFault::BorshIoError => 15 * BUILTIN_STEP,
            ProgramFault::AccountNotRentExempt => 16 * BUILTIN_STEP,
            ProgramFault::UnsupportedSysvar => 17 * BUILTIN_STEP,
            ProgramFault::IllegalOwner => 18 * BUILTIN_STEP,
        }
    }

    #[verifier::when_used_as_spec(spec_from_code)]
    pub fn from_code(code: u64) -> (r: ProgramFault)
        ensures
            r == ProgramFault::spec_from_code(code),
    {
        if code == 1 * BUILTIN_STEP {
            ProgramFault::Custom(0)
        } else if code == 2 * BUILTIN_STEP {
            ProgramFault::InvalidArgument
        } else if code == 3 * BUILTIN_STEP {
            ProgramFault::InvalidInstructionData
        } else if code == 4 * BUILTIN_STEP {
            ProgramFault::InvalidAccountData
        } else if code == 5 * BUILTIN_STEP {
            ProgramFault::AccountDataTooSmall
        } else if code == 6 * BUILTIN_STEP {
            ProgramFault::InsufficientFunds
        } else if code == 7 * BUILTIN_STEP {
            ProgramFault::IncorrectProgramId
        } else if code == 8 * BUILTIN_STEP {
            ProgramFault::MissingRequiredSignature
        } else if code == 9 * BUILTIN_STEP {
            ProgramFault::AccountAlreadyInitialized
        } else if code == 10 * BUILTIN_STEP {
            ProgramFault::UninitializedAccount
        } else if code == 11 * BUILTIN_STEP {
            ProgramFault::NotEnoughAccountKeys
        } else if code == 12 * BUILTIN_STEP {
            ProgramFault::AccountBorrowFailed
        } else if code == 13 * BUILTIN_STEP {
            ProgramFault::MaxSeedLengthExceeded
        } else if code == 14 * BUILTIN_STEP {
            ProgramFault::InvalidSeeds
        } else if code == 15 * BUILTIN_STEP {
            ProgramFault::BorshIoError
        } else if code == 16 * BUILTIN_STEP {
            ProgramFault::AccountNotRentExempt
        } else if code == 17 * BUILTIN_STEP {
            ProgramFault::UnsupportedSysvar
        } else if code == 18 * BUILTIN_STEP {
            ProgramFault::IllegalOwner
        } else {
            ProgramFault::Custom((code % BUILTIN_STEP) as u32)
        }
    }

    /// Every failure is found again from its ledger code.
    pub proof fn lemma_code_round_trip(e: ProgramFault)
        ensures
            ProgramFault::spec_from_code(e.spec_code()) == e,
    {
    }
}

} // verus!
