//! Flash-loan settlement: a borrower draws funds from a pool and must pay
//! them back, with a fee, later in the same atomic batch of instructions.
//!
//! The library holds the decisions of the protocol: the fee arithmetic, the
//! check that a matching repayment is scheduled later in the batch, and the
//! amount that the repayment owes, read back from the borrowing instruction; and an all-or-nothing run of a
//! whole batch over the pool's and the borrower's balances.
pub mod error;
pub mod fee;
pub mod instruction;
pub mod batch;
pub mod settlement;

pub use error::ProtocolError;
pub use batch::{borrow, repay, Loan};
pub use fee::{fee, fee_and_total};
pub use instruction::InstructionView;
pub use settlement::Balances;
