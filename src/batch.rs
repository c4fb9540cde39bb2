#![allow(deprecated)]
use vstd::prelude::*;

use anchor_lang::solana_program::account_info::AccountInfo;
use anchor_lang::solana_program::sysvar;
use anchor_lang::solana_program::sysvar::instructions::load_instruction_at_checked;

use crate::error::ProtocolError;
use crate::fee::total_spec;
use crate::instruction::{
    borrowed_amount, borrowed_amount_spec, is_matching_repay, is_repay_for, InstructionView,
    PROGRAM_ID,
};

verus! {

/// The accounts of a loan that the protocol reads: the borrower's and the
/// pool's asset accounts, and the bytes of the batch-introspection resource.
pub struct Loan {
    pub borrower_ata: [u8; 32],
    pub protocol_ata: [u8; 32],
    pub instructions: Vec<u8>,
}

/// The instruction at `index` as decoded from the bytes of the
/// batch-introspection resource, or `None` where it cannot be read.
pub uninterp spec fn instruction_at(sysvar_data: Seq<u8>, index: int) -> Option<InstructionView>;

/// Relies on `load_instruction_at_checked` of the instructions sysvar: it
/// decodes instruction `index` from the resource's bytes, or fails; what it
/// returns depends on those bytes and the index alone.
#[verifier::external_body]
fn load_instruction(index: usize, sysvar_data: &[u8]) -> (r: Option<InstructionView>)
    ensures
        r == instruction_at(sysvar_data@, index as int),
{
    let mut lamports: u64 = 0;
    let mut bytes = sysvar_data.to_vec();
    let key = sysvar::instructions::ID;
    let info = AccountInfo::new(&key, false, false, &mut lamports, &mut bytes, &sysvar::ID, false, 0);
    let ix = load_instruction_at_checked(index, &info).ok()?;
    let accounts = ix.accounts.iter().map(|m| m.pubkey.to_bytes()).collect();
    Some(InstructionView { program_id: ix.program_id.to_bytes(), accounts, data: ix.data })
}

/// The instruction count that heads the resource: its first two bytes, most
/// significant first; none where the resource is shorter.
pub open spec fn header_count(sysvar_data: Seq<u8>) -> nat {
    if sysvar_data.len() >= 2 {
        sysvar_data[0] as nat * 256 + sysvar_data[1] as nat
    } else {
        0
    }
}

/// Whether instruction `i` of the batch can be read and repays the loan.
pub open spec fn repay_at(sysvar_data: Seq<u8>, i: int, borrower_ata: Seq<u8>, protocol_ata: Seq<u8>) -> bool {
    match instruction_at(sysvar_data, i) {
        Some(ix) => is_repay_for(ix, PROGRAM_ID@, borrower_ata, protocol_ata),
        None => false,
    }
}

/// The first index from 1 below the header count that repays the loan.
pub open spec fn is_first_repay(sysvar_data: Seq<u8>, i: int, borrower_ata: Seq<u8>, protocol_ata: Seq<u8>) -> bool {
    &&& 1 <= i < header_count(sysvar_data)
    &&& repay_at(sysvar_data, i, borrower_ata, protocol_ata)
    &&& forall|j: int| 1 <= j < i ==> !repay_at(sysvar_data, j, borrower_ata, protocol_ata)
}

/// Whether some instruction after the first, below the header count, repays the loan.
pub open spec fn repay_scheduled(sysvar_data: Seq<u8>, borrower_ata: Seq<u8>, protocol_ata: Seq<u8>) -> bool {
    exists|i: int| 1 <= i < header_count(sysvar_data) && #[trigger] repay_at(sysvar_data, i, borrower_ata, protocol_ata)
}

/// What `borrow` decides.
pub open spec fn borrow_outcome(amount: nat, sysvar_data: Seq<u8>, borrower_ata: Seq<u8>, protocol_ata: Seq<u8>) -> Result<(), ProtocolError> {
    if amount == 0 {
        Err(ProtocolError::InvalidAmount)
    } else if repay_scheduled(sysvar_data, borrower_ata, protocol_ata) {
        Ok(())
    } else {
        Err(ProtocolError::MissingRepayIx)
    }
}

/// What a repayment owes, given the instruction at the head of the batch.
pub open spec fn repayment_outcome(borrow_ix: Option<InstructionView>) -> Result<u64, ProtocolError> {
    match borrow_ix {
        None => Err(ProtocolError::MissingBorrowIx),
        Some(ix) => match borrowed_amount_spec(ix.data@) {
            None => Err(ProtocolError::MissingBorrowIx),
            Some(a) => if total_spec(a) <= u64::MAX {
                Ok(total_spec(a) as u64)
            } else {
                Err(ProtocolError::Overflow)
            },
        },
    }
}

/// The instruction count at the head of the resource, read big-endian.
pub fn instruction_count(sysvar_data: &[u8]) -> (r: u16)
    ensures
        r as nat == header_count(sysvar_data@),
{
    if sysvar_data.len() < 2 {
        return 0;
    }
    sysvar_data[0] as u16 * 256 + sysvar_data[1] as u16
}

/// Scans instructions 1 up to the header count, in order, for the
/// repayment of the loan between `borrower_ata` and `protocol_ata`; the
/// first that qualifies is returned.
pub fn find_repay(sysvar_data: &[u8], borrower_ata: &[u8; 32], protocol_ata: &[u8; 32]) -> (r: Option<u16>)
    ensures
        r matches Some(i) ==> is_first_repay(sysvar_data@, i as int, borrower_ata@, protocol_ata@),
        r is None <==> !repay_scheduled(sysvar_data@, borrower_ata@, protocol_ata@),
{
    let len = instruction_count(sysvar_data);
    let mut i: u16 = 1;
    while i < len
        invariant
            1 <= i,
            len as nat == header_count(sysvar_data@),
            forall|j: int| 1 <= j < i ==> !repay_at(sysvar_data@, j, borrower_ata@, protocol_ata@),
        decreases len - i,
    {
        let candidate = load_instruction(i as usize, sysvar_data);
        if let Some(ix) = candidate {
            if is_matching_repay(&ix, &PROGRAM_ID, borrower_ata, protocol_ata) {
                assert(repay_at(sysvar_data@, i as int, borrower_ata@, protocol_ata@));
                return Some(i);
            }
        }
        i = i + 1;
    }
    None
}

/// Decides a borrow of `borrow_amount`: `InvalidAmount` on a zero amount,
/// whatever the batch holds; else success exactly where a later instruction
/// of the batch repays the loan, and `MissingRepayIx` where none does.
/// The release of the funds from the pool is the caller's to perform.
pub fn borrow(ctx: &Loan, borrow_amount: u64) -> (r: Result<(), ProtocolError>)
    ensures
        r == borrow_outcome(borrow_amount as nat, ctx.instructions@, ctx.borrower_ata@, ctx.protocol_ata@),
{
    if borrow_amount == 0 {
        return Err(ProtocolError::InvalidAmount);
    }
    match find_repay(ctx.instructions.as_slice(), &ctx.borrower_ata, &ctx.protocol_ata) {
        Some(_) => Ok(()),
        None => Err(ProtocolError::MissingRepayIx),
    }
}

/// What a repayment owes, given the instruction at the head of the batch:
/// `MissingBorrowIx` where there is none or its payload is shorter than 16
/// bytes; else principal plus fee, or `Overflow` where that exceeds `u64::MAX`.
pub fn repayment_due(borrow_ix: &Option<InstructionView>) -> (r: Result<u64, ProtocolError>)
    ensures
        r == repayment_outcome(*borrow_ix),
{
    match borrow_ix {
        None => Err(ProtocolError::MissingBorrowIx),
        Some(ix) => match borrowed_amount(&ix.data) {
            None => Err(ProtocolError::MissingBorrowIx),
            Some(a) => match crate::fee::fee_and_total(a) {
                Ok((_, t)) => Ok(t),
                Err(e) => Err(e),
            },
        },
    }
}

/// Decides a repayment: reads the amount from the instruction at the head
/// of the batch and returns what the borrower must transfer back to the pool.
pub fn repay(ctx: &Loan) -> (r: Result<u64, ProtocolError>)
    ensures
        r == repayment_outcome(instruction_at(ctx.instructions@, 0)),
{
    let head = load_instruction(0, ctx.instructions.as_slice());
    repayment_due(&head)
}

/// A borrow of zero fails with `InvalidAmount`, whatever the batch holds.
pub proof fn lemma_zero_borrow_rejected(sysvar_data: Seq<u8>, borrower_ata: Seq<u8>, protocol_ata: Seq<u8>)
    ensures
        borrow_outcome(0, sysvar_data, borrower_ata, protocol_ata) == Err::<(), ProtocolError>(ProtocolError::InvalidAmount),
{
}

/// A borrow of a positive amount succeeds where an instruction after the
/// first, within the batch, is a repayment of the same borrower and pool
/// accounts.
pub proof fn lemma_scheduled_repay_accepted(
    amount: nat,
    sysvar_data: Seq<u8>,
    i: int,
    ix: InstructionView,
    borrower_ata: Seq<u8>,
    protocol_ata: Seq<u8>,
)
    requires
        amount > 0,
        1 <= i < header_count(sysvar_data),
        instruction_at(sysvar_data, i) == Some(ix),
        is_repay_for(ix, PROGRAM_ID@, borrower_ata, protocol_ata),
    ensures
        borrow_outcome(amount, sysvar_data, borrower_ata, protocol_ata) == Ok::<(), ProtocolError>(()),
{
    assert(repay_at(sysvar_data, i, borrower_ata, protocol_ata));
}

/// A borrow of a positive amount in a batch with no instruction after the
/// first fails with `MissingRepayIx`.
pub proof fn lemma_no_later_instruction_rejected(
    amount: nat,
    sysvar_data: Seq<u8>,
    borrower_ata: Seq<u8>,
    protocol_ata: Seq<u8>,
)
    requires
        amount > 0,
        header_count(sysvar_data) <= 1,
    ensures
        borrow_outcome(amount, sysvar_data, borrower_ata, protocol_ata) == Err::<(), ProtocolError>(ProtocolError::MissingRepayIx),
{
}

/// A repayment fails with `MissingBorrowIx` where the head of the batch
/// cannot be read or its payload is shorter than 16 bytes.
pub proof fn lemma_missing_borrow_rejected(borrow_ix: Option<InstructionView>)
    requires
        borrow_ix matches Some(ix) ==> ix.data@.len() < 16,
    ensures
        repayment_outcome(borrow_ix) == Err::<u64, ProtocolError>(ProtocolError::MissingBorrowIx),
{
}

} // verus!
