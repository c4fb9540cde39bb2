use vstd::prelude::*;

use crate::error::ProtocolError;

verus! {

/// The identity of this program.
pub const PROGRAM_ID: [u8; 32] = [
    127, 62, 103, 47, 253, 121, 127, 247, 164, 216, 126, 130, 166, 223, 130, 152,
    75, 50, 51, 188, 215, 4, 119, 151, 74, 157, 126, 58, 218, 209, 103, 164,
];

/// Tag that opens the payload of a `borrow` instruction.
pub const BORROW_DISCRIMINATOR: [u8; 8] = [228, 253, 131, 202, 207, 116, 89, 18];

/// Tag that opens the payload of a `repay` instruction.
pub const REPAY_DISCRIMINATOR: [u8; 8] = [234, 103, 67, 82, 208, 234, 219, 166];

/// Position of the borrower's asset account in a `repay` instruction.
pub const BORROWER_ATA_INDEX: usize = 3;

/// Position of the pool's asset account in a `repay` instruction.
pub const PROTOCOL_ATA_INDEX: usize = 4;

/// One instruction of a batch: the program it targets, the addresses of the
/// accounts it references, in order, and its argument payload.
pub struct InstructionView {
    pub program_id: [u8; 32],
    pub accounts: Vec<[u8; 32]>,
    pub data: Vec<u8>,
}

/// The repay tag, as a sequence.
pub open spec fn repay_tag() -> Seq<u8> {
    seq![234u8, 103u8, 67u8, 82u8, 208u8, 234u8, 219u8, 166u8]
}

/// Whether `data` opens with the repay tag.
pub open spec fn has_repay_tag(data: Seq<u8>) -> bool {
    data.len() >= 8 && data.subrange(0, 8) == repay_tag()
}

/// Whether the accounts at the borrower and pool positions are the given ones.
pub open spec fn accounts_match(accounts: Seq<[u8; 32]>, borrower_ata: Seq<u8>, protocol_ata: Seq<u8>) -> bool {
    accounts.len() >= 5 && accounts[3]@ == borrower_ata && accounts[4]@ == protocol_ata
}

/// The outcome of validating the account positions of a repay candidate.
pub open spec fn repay_accounts_check(
    accounts: Seq<[u8; 32]>,
    borrower_ata: Seq<u8>,
    protocol_ata: Seq<u8>,
) -> Result<(), ProtocolError> {
    if accounts.len() <= 3 || accounts[3]@ != borrower_ata {
        Err(ProtocolError::InvalidBorrowerAta)
    } else if accounts.len() <= 4 || accounts[4]@ != protocol_ata {
        Err(ProtocolError::InvalidProtocolAta)
    } else {
        Ok(())
    }
}

/// The five conditions under which an instruction is the repayment of a
/// loan: it targets `program_id`, opens with the repay tag, references at
/// least five accounts, and has the borrower's and the pool's asset
/// accounts at positions 3 and 4.
pub open spec fn is_repay_for(
    ix: InstructionView,
    program_id: Seq<u8>,
    borrower_ata: Seq<u8>,
    protocol_ata: Seq<u8>,
) -> bool {
    &&& ix.program_id@ == program_id
    &&& has_repay_tag(ix.data@)
    &&& accounts_match(ix.accounts@, borrower_ata, protocol_ata)
}

/// The unsigned integer that `bytes` encode, least significant byte first.
pub open spec fn le_value(bytes: Seq<u8>) -> nat
    decreases bytes.len(),
{
    if bytes.len() == 0 {
        0
    } else {
        bytes[0] as nat + 256 * le_value(bytes.subrange(1, bytes.len() as int))
    }
}

/// The amount that a borrow payload carries at bytes 8..16, if it is long enough.
pub open spec fn borrowed_amount_spec(data: Seq<u8>) -> Option<nat> {
    if data.len() >= 16 {
        Some(le_value(data.subrange(8, 16)))
    } else {
        None
    }
}

/// Whether two addresses are the same.
pub fn same_address(a: &[u8; 32], b: &[u8; 32]) -> (r: bool)
    ensures
        r == (a@ == b@),
{
    let mut i: usize = 0;
    while i < 32
        invariant
            0 <= i <= 32,
            a@.len() == 32,
            b@.len() == 32,
            forall|j: int| 0 <= j < i ==> a@[j] == b@[j],
        decreases 32 - i,
    {
        if a[i] != b[i] {
            return false;
        }
        i = i + 1;
    }
    assert(a@ =~= b@);
    true
}

/// Whether `data` opens with the repay tag.
pub fn starts_with_repay_tag(data: &Vec<u8>) -> (r: bool)
    ensures
        r == has_repay_tag(data@),
{
    if data.len() < 8 {
        return false;
    }
    let mut i: usize = 0;
    while i < 8
        invariant
            0 <= i <= 8,
            data@.len() >= 8,
            forall|j: int| 0 <= j < i ==> data@[j] == repay_tag()[j],
        decreases 8 - i,
    {
        if data[i] != REPAY_DISCRIMINATOR[i] {
            assert(data@.subrange(0, 8)[i as int] != repay_tag()[i as int]);
            return false;
        }
        i = i + 1;
    }
    assert(data@.subrange(0, 8) =~= repay_tag());
    true
}

/// Checks that a repay candidate references the borrower's asset account at
/// position 3 and the pool's at position 4: `InvalidBorrowerAta` where the
/// first is missing or differs, else `InvalidProtocolAta` where the second is.
pub fn validate_repay_accounts(
    ix: &InstructionView,
    borrower_ata: &[u8; 32],
    protocol_ata: &[u8; 32],
) -> (r: Result<(), ProtocolError>)
    ensures
        r == repay_accounts_check(ix.accounts@, borrower_ata@, protocol_ata@),
{
    if ix.accounts.len() <= BORROWER_ATA_INDEX || !same_address(&ix.accounts[BORROWER_ATA_INDEX], borrower_ata) {
        return Err(ProtocolError::InvalidBorrowerAta);
    }
    if ix.accounts.len() <= PROTOCOL_ATA_INDEX || !same_address(&ix.accounts[PROTOCOL_ATA_INDEX], protocol_ata) {
        return Err(ProtocolError::InvalidProtocolAta);
    }
    Ok(())
}

/// Whether `ix` is the repayment of a loan of `program_id` between the
/// borrower's asset account `borrower_ata` and the pool's `protocol_ata`.
pub fn is_matching_repay(
    ix: &InstructionView,
    program_id: &[u8; 32],
    borrower_ata: &[u8; 32],
    protocol_ata: &[u8; 32],
) -> (r: bool)
    ensures
        r == is_repay_for(*ix, program_id@, borrower_ata@, protocol_ata@),
{
    if !same_address(&ix.program_id, program_id) || !starts_with_repay_tag(&ix.data) {
        return false;
    }
    if ix.accounts.len() < 5 {
        return false;
    }
    validate_repay_accounts(ix, borrower_ata, protocol_ata).is_ok()
}

/// The amount that a borrow instruction's payload carries at bytes 8..16,
/// least significant byte first; `None` where the payload is shorter.
pub fn borrowed_amount(data: &Vec<u8>) -> (r: Option<u64>)
    ensures
        r matches Some(v) ==> borrowed_amount_spec(data@) == Some(v as nat),
        r is None ==> borrowed_amount_spec(data@) is None,
{
    if data.len() < 16 {
        return None;
    }
    let mut v: u64 = 0;
    let mut i: usize = 16;
    while i > 8
        invariant
            8 <= i <= 16,
            data@.len() >= 16,
            v as nat == le_value(data@.subrange(i as int, 16)),
            v < pow256((16 - i) as nat),
        decreases i,
    {
        i = i - 1;
        proof {
            lemma_le_value_step(data@.subrange(i as int, 16));
            assert(data@.subrange(i as int, 16).subrange(1, 16 - i as int) =~= data@.subrange(i + 1, 16));
            lemma_pow256_step((16 - i - 1) as nat, v as nat, data@[i as int] as nat);
        }
        v = data[i] as u64 + 256 * v;
    }
    Some(v)
}

/// 256 to the power `n`.
pub open spec fn pow256(n: nat) -> nat
    decreases n,
{
    if n == 0 { 1 } else { 256 * pow256((n - 1) as nat) }
}

proof fn lemma_le_value_step(bytes: Seq<u8>)
    requires
        bytes.len() > 0,
    ensures
        le_value(bytes) == bytes[0] as nat + 256 * le_value(bytes.subrange(1, bytes.len() as int)),
{
}

proof fn lemma_pow256_step(n: nat, v: nat, b: nat)
    requires
        v < pow256(n),
        b < 256,
        n < 8,
    ensures
        b + 256 * v < pow256(n + 1),
        pow256(n + 1) <= 0x1_0000_0000_0000_0000,
{
    lemma_pow256_le(n + 1);
    assert(pow256(n + 1) == 256 * pow256(n));
    assert(b + 256 * v < 256 * pow256(n)) by (nonlinear_arith)
        requires v < pow256(n), b < 256;
}

proof fn lemma_pow256_le(n: nat)
    requires
        n <= 8,
    ensures
        pow256(n) <= 0x1_0000_0000_0000_0000,
    decreases 8 - n,
{
    reveal_with_fuel(pow256, 9);
    if n < 8 {
        lemma_pow256_le(n + 1);
        assert(pow256(n + 1) == 256 * pow256(n));
    }
}

/// An instruction that targets another program never counts as the
/// repayment, whatever its payload and accounts.
pub proof fn lemma_foreign_program_rejected(
    ix: InstructionView,
    program_id: Seq<u8>,
    borrower_ata: Seq<u8>,
    protocol_ata: Seq<u8>,
)
    requires
        ix.program_id@ != program_id,
    ensures
        !is_repay_for(ix, program_id, borrower_ata, protocol_ata),
{
}

} // verus!
