use vstd::prelude::*;

verus! {

/// The failures of the protocol. Each one aborts the whole batch.
#[derive(Clone, Copy, Debug, PartialEq, Eq, Structural)]
pub enum ProtocolError {
    InvalidIx,
    InvalidInstructionIndex,
    InvalidAmount,
    NotEnoughFunds,
    ProgramMismatch,
    InvalidProgram,
    InvalidBorrowerAta,
    InvalidProtocolAta,
    MissingRepayIx,
    MissingBorrowIx,
    Overflow,
}

/// The message that goes with each error.
pub open spec fn error_message(e: ProtocolError) -> Seq<char> {
    match e {
        ProtocolError::InvalidIx => "Invalid instruction"@,
        ProtocolError::InvalidInstructionIndex => "Invalid instruction index"@,
        ProtocolError::InvalidAmount => "Invalid amount"@,
        ProtocolError::NotEnoughFunds => "Not enough funds"@,
        ProtocolError::ProgramMismatch => "Program Mismatch"@,
        ProtocolError::InvalidProgram => "Invalid program"@,
        ProtocolError::InvalidBorrowerAta => "Invalid borrower ATA"@,
        ProtocolError::InvalidProtocolAta => "Invalid protocol ATA"@,
        ProtocolError::MissingRepayIx => "Missing repay instruction"@,
        ProtocolError::MissingBorrowIx => "Missing borrow instruction"@,
        ProtocolError::Overflow => "Overflow"@,
    }
}

impl ProtocolError {
    /// The human-readable message of this error.
    pub fn message(&self) -> (r: &'static str)
        ensures
            r@ == error_message(*self),
    {
        match self {
            ProtocolError::InvalidIx => "Invalid instruction",
            ProtocolError::InvalidInstructionIndex => "Invalid instruction index",
            ProtocolError::InvalidAmount => "Invalid amount",
            ProtocolError::NotEnoughFunds => "Not enough funds",
            ProtocolError::ProgramMismatch => "Program Mismatch",
            ProtocolError::InvalidProgram => "Invalid program",
            ProtocolError::InvalidBorrowerAta => "Invalid borrower ATA",
            ProtocolError::InvalidProtocolAta => "Invalid protocol ATA",
            ProtocolError::MissingRepayIx => "Missing repay instruction",
            ProtocolError::MissingBorrowIx => "Missing borrow instruction",
            ProtocolError::Overflow => "Overflow",
        }
    }
}

} // verus!
