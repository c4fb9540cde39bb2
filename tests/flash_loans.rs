#![allow(deprecated)]

use anchor_lang::solana_program::pubkey::Pubkey;
use anchor_lang::solana_program::sysvar::instructions::{
    construct_instructions_data, BorrowedAccountMeta, BorrowedInstruction,
};

use flash_loans::batch::{find_repay, instruction_count, repayment_due};
use flash_loans::instruction::{
    borrowed_amount, is_matching_repay, same_address, validate_repay_accounts,
    BORROW_DISCRIMINATOR, PROGRAM_ID, REPAY_DISCRIMINATOR,
};
use flash_loans::fee::MAX_REPAYABLE;
use flash_loans::settlement::{settle_loan, transfer};
use flash_loans::{borrow, fee, fee_and_total, repay, Balances, InstructionView, Loan, ProtocolError};

const BORROWER: [u8; 32] = [1; 32];
const BORROWER_ATA: [u8; 32] = [2; 32];
const PROTOCOL: [u8; 32] = [3; 32];
const PROTOCOL_ATA: [u8; 32] = [4; 32];
const MINT: [u8; 32] = [5; 32];

/// A plain description of an instruction: program, accounts, payload.
struct Ix {
    program: [u8; 32],
    accounts: Vec<[u8; 32]>,
    data: Vec<u8>,
}

fn loan_accounts() -> Vec<[u8; 32]> {
    vec![BORROWER, PROTOCOL, MINT, BORROWER_ATA, PROTOCOL_ATA]
}

fn borrow_ix(amount: u64) -> Ix {
    let mut data = BORROW_DISCRIMINATOR.to_vec();
    data.extend_from_slice(&amount.to_le_bytes());
    Ix { program: PROGRAM_ID, accounts: loan_accounts(), data }
}

fn repay_ix() -> Ix {
    Ix { program: PROGRAM_ID, accounts: loan_accounts(), data: REPAY_DISCRIMINATOR.to_vec() }
}

/// The bytes of the batch-introspection resource for a batch.
fn sysvar_bytes(batch: &[Ix]) -> Vec<u8> {
    let programs: Vec<Pubkey> = batch.iter().map(|ix| Pubkey::new_from_array(ix.program)).collect();
    let keys: Vec<Vec<Pubkey>> = batch
        .iter()
        .map(|ix| ix.accounts.iter().map(|a| Pubkey::new_from_array(*a)).collect())
        .collect();
    let borrowed: Vec<BorrowedInstruction> = batch
        .iter()
        .enumerate()
        .map(|(i, ix)| BorrowedInstruction {
            program_id: &programs[i],
            accounts: keys[i]
                .iter()
                .map(|k| BorrowedAccountMeta { pubkey: k, is_signer: false, is_writable: true })
                .collect(),
            data: &ix.data,
        })
        .collect();
    construct_instructions_data(&borrowed)
}

fn loan(batch: &[Ix]) -> Loan {
    Loan { borrower_ata: BORROWER_ATA, protocol_ata: PROTOCOL_ATA, instructions: sysvar_bytes(batch) }
}

fn view(ix: Ix) -> InstructionView {
    InstructionView { program_id: ix.program, accounts: ix.accounts, data: ix.data }
}

#[test]
fn fee_examples() {
    assert_eq!(fee(10_000), 500);
    assert_eq!(fee(1), 0);
    assert_eq!(fee(19), 0);
    assert_eq!(fee(20), 1);
    assert_eq!(fee(100_000), 5_000);
    assert_eq!(fee(u64::MAX), u64::MAX / 20);
}

#[test]
fn fee_and_total_exact() {
    assert_eq!(fee_and_total(100_000), Ok((5_000, 105_000)));
    assert_eq!(fee_and_total(19), Ok((0, 19)));
    assert_eq!(fee_and_total(17_568_327_689_247_192_015), Ok((878_416_384_462_359_600, u64::MAX)));
}

#[test]
fn fee_and_total_overflow() {
    assert_eq!(fee_and_total(17_568_327_689_247_192_016), Err(ProtocolError::Overflow));
    assert_eq!(fee_and_total(u64::MAX), Err(ProtocolError::Overflow));
    assert_eq!(fee_and_total(MAX_REPAYABLE + 1), Err(ProtocolError::Overflow));
    assert!(fee_and_total(MAX_REPAYABLE).is_ok());
}

#[test]
fn zero_borrow_is_invalid_amount() {
    assert_eq!(borrow(&loan(&[borrow_ix(0), repay_ix()]), 0), Err(ProtocolError::InvalidAmount));
    assert_eq!(borrow(&loan(&[]), 0), Err(ProtocolError::InvalidAmount));
    let empty = Loan { borrower_ata: BORROWER_ATA, protocol_ata: PROTOCOL_ATA, instructions: vec![] };
    assert_eq!(borrow(&empty, 0), Err(ProtocolError::InvalidAmount));
}

#[test]
fn borrow_with_later_repay_succeeds() {
    let ctx = loan(&[borrow_ix(100_000), repay_ix()]);
    assert_eq!(borrow(&ctx, 100_000), Ok(()));
    assert_eq!(find_repay(&ctx.instructions, &BORROWER_ATA, &PROTOCOL_ATA), Some(1));
}

#[test]
fn borrow_without_later_instruction_fails() {
    assert_eq!(borrow(&loan(&[borrow_ix(100_000)]), 100_000), Err(ProtocolError::MissingRepayIx));
    let empty = Loan { borrower_ata: BORROWER_ATA, protocol_ata: PROTOCOL_ATA, instructions: vec![] };
    assert_eq!(borrow(&empty, 100_000), Err(ProtocolError::MissingRepayIx));
}

#[test]
fn borrow_skips_repay_of_other_accounts() {
    let mut other = repay_ix();
    other.accounts[3] = [9; 32];
    let ctx = loan(&[borrow_ix(50), other]);
    assert_eq!(borrow(&ctx, 50), Err(ProtocolError::MissingRepayIx));
    let mut other = repay_ix();
    other.accounts[4] = [9; 32];
    let ctx = loan(&[borrow_ix(50), other, repay_ix()]);
    assert_eq!(find_repay(&ctx.instructions, &BORROWER_ATA, &PROTOCOL_ATA), Some(2));
    assert_eq!(borrow(&ctx, 50), Ok(()));
}

#[test]
fn borrow_rejects_foreign_program_repay() {
    let mut decoy = repay_ix();
    decoy.program = [7; 32];
    let ctx = loan(&[borrow_ix(50), decoy]);
    assert_eq!(borrow(&ctx, 50), Err(ProtocolError::MissingRepayIx));
}

#[test]
fn matcher_accepts_repay() {
    assert!(is_matching_repay(&view(repay_ix()), &PROGRAM_ID, &BORROWER_ATA, &PROTOCOL_ATA));
}

#[test]
fn matcher_rejects_foreign_program() {
    let mut decoy = repay_ix();
    decoy.program = [7; 32];
    assert!(!is_matching_repay(&view(decoy), &PROGRAM_ID, &BORROWER_ATA, &PROTOCOL_ATA));
}

#[test]
fn matcher_rejects_other_tag_and_short_payload() {
    assert!(!is_matching_repay(&view(borrow_ix(5)), &PROGRAM_ID, &BORROWER_ATA, &PROTOCOL_ATA));
    let mut short = repay_ix();
    short.data.truncate(7);
    assert!(!is_matching_repay(&view(short), &PROGRAM_ID, &BORROWER_ATA, &PROTOCOL_ATA));
}

#[test]
fn matcher_rejects_too_few_accounts() {
    let mut few = repay_ix();
    few.accounts.truncate(4);
    assert!(!is_matching_repay(&view(few), &PROGRAM_ID, &BORROWER_ATA, &PROTOCOL_ATA));
}

#[test]
fn account_validation_errors() {
    let good = view(repay_ix());
    assert_eq!(validate_repay_accounts(&good, &BORROWER_ATA, &PROTOCOL_ATA), Ok(()));
    assert_eq!(validate_repay_accounts(&good, &[9; 32], &PROTOCOL_ATA), Err(ProtocolError::InvalidBorrowerAta));
    assert_eq!(validate_repay_accounts(&good, &BORROWER_ATA, &[9; 32]), Err(ProtocolError::InvalidProtocolAta));
    let mut four = repay_ix();
    four.accounts.truncate(4);
    assert_eq!(validate_repay_accounts(&view(four), &BORROWER_ATA, &PROTOCOL_ATA), Err(ProtocolError::InvalidProtocolAta));
}

#[test]
fn same_address_compares_bytes() {
    assert!(same_address(&[3; 32], &[3; 32]));
    let mut b = [3; 32];
    b[31] = 4;
    assert!(!same_address(&[3; 32], &b));
}

#[test]
fn borrowed_amount_reads_little_endian() {
    assert_eq!(borrowed_amount(&borrow_ix(0x0102_0304_0506_0708).data), Some(0x0102_0304_0506_0708));
    assert_eq!(borrowed_amount(&vec![0; 15]), None);
}

#[test]
fn instruction_count_is_big_endian() {
    assert_eq!(instruction_count(&[1, 2, 9]), 258);
    assert_eq!(instruction_count(&[7]), 0);
}

#[test]
fn repay_owes_principal_plus_fee() {
    assert_eq!(repay(&loan(&[borrow_ix(100_000), repay_ix()])), Ok(105_000));
    assert_eq!(repay(&loan(&[borrow_ix(10_000), repay_ix()])), Ok(10_500));
}

#[test]
fn repay_without_borrow_head_fails() {
    let empty = Loan { borrower_ata: BORROWER_ATA, protocol_ata: PROTOCOL_ATA, instructions: vec![] };
    assert_eq!(repay(&empty), Err(ProtocolError::MissingBorrowIx));
    let mut short = borrow_ix(100_000);
    short.data.truncate(15);
    assert_eq!(repay(&loan(&[short, repay_ix()])), Err(ProtocolError::MissingBorrowIx));
    assert_eq!(repayment_due(&None), Err(ProtocolError::MissingBorrowIx));
}

#[test]
fn repay_overflow() {
    assert_eq!(repay(&loan(&[borrow_ix(u64::MAX), repay_ix()])), Err(ProtocolError::Overflow));
}

#[test]
fn transfer_moves_funds() {
    assert_eq!(transfer(1_000_000, 0, 100_000), Ok((900_000, 100_000)));
    assert_eq!(transfer(10, 0, 11), Err(ProtocolError::NotEnoughFunds));
    assert_eq!(transfer(10, u64::MAX, 1), Err(ProtocolError::Overflow));
}

#[test]
fn settlement_round_trip_costs_the_fee() {
    let ctx = loan(&[borrow_ix(100_000), repay_ix()]);
    let mut balances = Balances { pool: 1_000_000, borrower: 20_000 };
    assert_eq!(transfer(balances.pool, balances.borrower, 100_000), Ok((900_000, 120_000)));
    assert_eq!(settle_loan(&mut balances, &ctx, 100_000), Ok(()));
    assert_eq!(balances, Balances { pool: 1_005_000, borrower: 15_000 });
}

#[test]
fn settlement_with_short_borrower_is_undone() {
    let ctx = loan(&[borrow_ix(100_000), repay_ix()]);
    let mut balances = Balances { pool: 1_000_000, borrower: 0 };
    assert_eq!(settle_loan(&mut balances, &ctx, 100_000), Err(ProtocolError::NotEnoughFunds));
    assert_eq!(balances, Balances { pool: 1_000_000, borrower: 0 });
}

#[test]
fn settlement_without_repay_is_undone() {
    let ctx = loan(&[borrow_ix(100_000)]);
    let mut balances = Balances { pool: 1_000_000, borrower: 50_000 };
    assert_eq!(settle_loan(&mut balances, &ctx, 100_000), Err(ProtocolError::MissingRepayIx));
    assert_eq!(balances, Balances { pool: 1_000_000, borrower: 50_000 });
    assert_eq!(settle_loan(&mut balances, &ctx, 0), Err(ProtocolError::InvalidAmount));
    assert_eq!(settle_loan(&mut balances, &ctx, 2_000_000), Err(ProtocolError::NotEnoughFunds));
    assert_eq!(balances, Balances { pool: 1_000_000, borrower: 50_000 });
}

#[test]
fn error_messages() {
    assert_eq!(ProtocolError::Overflow.message(), "Overflow");
    assert_eq!(ProtocolError::MissingRepayIx.message(), "Missing repay instruction");
    assert_eq!(ProtocolError::InvalidBorrowerAta.message(), "Invalid borrower ATA");
}
