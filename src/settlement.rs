use vstd::prelude::*;

use crate::batch::{borrow, borrow_outcome, instruction_at, repay, repayment_outcome, Loan};
use crate::error::ProtocolError;
use crate::fee::fee_spec;
use crate::instruction::{borrowed_amount_spec, InstructionView};

verus! {

/// The two balances that a loan moves: the pool's asset account and the
/// borrower's.
#[derive(Clone, Copy, Debug, PartialEq, Eq, Structural)]
pub struct Balances {
    pub pool: u64,
    pub borrower: u64,
}

/// A debit of `amount` from `from` and a credit to `to`: `NotEnoughFunds`
/// where `from` holds less, `Overflow` where `to` would exceed `u64::MAX`.
pub open spec fn transfer_outcome(from: nat, to: nat, amount: nat) -> Result<(u64, u64), ProtocolError> {
    if from < amount {
        Err(ProtocolError::NotEnoughFunds)
    } else if to + amount > u64::MAX {
        Err(ProtocolError::Overflow)
    } else {
        Ok(((from - amount) as u64, (to + amount) as u64))
    }
}

/// The balances after a batch that borrows `amount` and repays, or the
/// error that aborts it. The steps run in order: the borrow's checks and its
/// release from the pool, its scan for the repayment, then the repayment.
pub open spec fn settlement_outcome(
    start: Balances,
    amount: nat,
    sysvar_data: Seq<u8>,
    borrower_ata: Seq<u8>,
    protocol_ata: Seq<u8>,
) -> Result<Balances, ProtocolError> {
    if amount == 0 {
        Err(ProtocolError::InvalidAmount)
    } else {
        match transfer_outcome(start.pool as nat, start.borrower as nat, amount) {
            Err(e) => Err(e),
            Ok((pool, borrower)) => match borrow_outcome(amount, sysvar_data, borrower_ata, protocol_ata) {
                Err(e) => Err(e),
                Ok(_) => match repayment_outcome(instruction_at(sysvar_data, 0)) {
                    Err(e) => Err(e),
                    Ok(owed) => match transfer_outcome(borrower as nat, pool as nat, owed as nat) {
                        Err(e) => Err(e),
                        Ok((b2, p2)) => Ok(Balances { pool: p2, borrower: b2 }),
                    },
                },
            },
        }
    }
}

/// Moves `amount` from the `from` balance to the `to` balance.
pub fn transfer(from: u64, to: u64, amount: u64) -> (r: Result<(u64, u64), ProtocolError>)
    ensures
        r == transfer_outcome(from as nat, to as nat, amount as nat),
{
    if from < amount {
        return Err(ProtocolError::NotEnoughFunds);
    }
    match to.checked_add(amount) {
        Some(t) => Ok((from - amount, t)),
        None => Err(ProtocolError::Overflow),
    }
}

/// Runs a batch that borrows `borrow_amount` from the pool and repays it, all
/// or nothing: on success the balances are those the steps leave; on any
/// failure they are restored to what they were before the batch.
pub fn settle_loan(balances: &mut Balances, ctx: &Loan, borrow_amount: u64) -> (r: Result<(), ProtocolError>)
    ensures
        match settlement_outcome(*old(balances), borrow_amount as nat, ctx.instructions@, ctx.borrower_ata@, ctx.protocol_ata@) {
            Ok(end) => r is Ok && *final(balances) == end,
            Err(e) => r == Err::<(), ProtocolError>(e) && *final(balances) == *old(balances),
        },
{
    let start = *balances;
    if borrow_amount == 0 {
        return Err(ProtocolError::InvalidAmount);
    }
    match transfer(balances.pool, balances.borrower, borrow_amount) {
        Err(e) => return Err(e),
        Ok((pool, borrower)) => {
            balances.pool = pool;
            balances.borrower = borrower;
        },
    }
    if let Err(e) = borrow(ctx, borrow_amount) {
        *balances = start;
        return Err(e);
    }
    let owed = match repay(ctx) {
        Err(e) => {
            *balances = start;
            return Err(e);
        },
        Ok(owed) => owed,
    };
    match transfer(balances.borrower, balances.pool, owed) {
        Err(e) => {
            *balances = start;
            Err(e)
        },
        Ok((borrower, pool)) => {
            balances.pool = pool;
            balances.borrower = borrower;
            Ok(())
        },
    }
}

/// A batch that settles, where the head of the batch carries the amount
/// that was borrowed, leaves the pool richer and the borrower poorer by
/// exactly the fee.
pub proof fn lemma_settlement_nets_fee(
    start: Balances,
    amount: nat,
    sysvar_data: Seq<u8>,
    head: InstructionView,
    borrower_ata: Seq<u8>,
    protocol_ata: Seq<u8>,
)
    requires
        instruction_at(sysvar_data, 0) == Some(head),
        borrowed_amount_spec(head.data@) == Some(amount),
        settlement_outcome(start, amount, sysvar_data, borrower_ata, protocol_ata) is Ok,
    ensures
        settlement_outcome(start, amount, sysvar_data, borrower_ata, protocol_ata) matches Ok(end)
            && end.pool == start.pool + fee_spec(amount)
            && end.borrower == start.borrower - fee_spec(amount),
{
}

} // verus!
