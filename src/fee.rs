use vstd::prelude::*;

use crate::error::ProtocolError;

verus! {

/// Fee rate in basis points: 500 of 10,000, that is 5%.
pub const FEE_BPS: u128 = 500;

/// Basis points in a whole.
pub const BPS_DENOMINATOR: u128 = 10_000;

/// The fee on a principal, rounded down.
pub open spec fn fee_spec(amount: nat) -> nat {
    amount * 500 / 10_000
}

/// Principal plus fee: what a repayment owes.
pub open spec fn total_spec(amount: nat) -> nat {
    amount + fee_spec(amount)
}

/// What the fee arithmetic yields on a principal: the fee and the total, or
/// `Overflow` where the total does not fit in 64 bits.
pub open spec fn fee_and_total_spec(amount: nat) -> Result<(u64, u64), ProtocolError> {
    if total_spec(amount) <= u64::MAX {
        Ok((fee_spec(amount) as u64, total_spec(amount) as u64))
    } else {
        Err(ProtocolError::Overflow)
    }
}

/// The fee never exceeds a twentieth of the principal.
pub proof fn lemma_fee_bounded(amount: nat)
    ensures
        fee_spec(amount) <= amount / 20,
        fee_spec(amount) <= amount,
{
    assert(amount * 500 / 10_000 == amount / 20) by (nonlinear_arith);
}

/// The fee on `amount`, computed as `amount * 500 / 10000` in 128 bits,
/// where the product cannot overflow, and narrowed back to 64 bits, where the
/// quotient always fits.
pub fn fee(amount: u64) -> (r: u64)
    ensures
        r == fee_spec(amount as nat),
{
    let wide: u128 = amount as u128;
    assert(wide * FEE_BPS <= u64::MAX as u128 * 500) by (nonlinear_arith)
        requires wide <= u64::MAX as u128;
    let f: u128 = wide * FEE_BPS / BPS_DENOMINATOR;
    proof {
        lemma_fee_bounded(amount as nat);
    }
    f as u64
}

/// The fee and the total owed on `amount`; `Overflow` exactly where the
/// total exceeds `u64::MAX`, never a wrapped value.
pub fn fee_and_total(amount: u64) -> (r: Result<(u64, u64), ProtocolError>)
    ensures
        r == fee_and_total_spec(amount as nat),
        r is Ok <==> amount as nat + fee_spec(amount as nat) <= u64::MAX,
{
    let f = fee(amount);
    match amount.checked_add(f) {
        Some(t) => Ok((f, t)),
        None => Err(ProtocolError::Overflow),
    }
}

/// The widened product `amount * 500` never overflows 128 bits, so the fee
/// of a 64-bit amount is always computed exactly; only the total can fail.
pub proof fn lemma_wide_product_fits(amount: u64)
    ensures
        amount as nat * 500 <= u128::MAX,
        fee_spec(amount as nat) <= u64::MAX,
{
    lemma_fee_bounded(amount as nat);
}

/// The total is the principal plus the fee, and the arithmetic yields
/// `Overflow`, never a wrapped value, exactly where it exceeds `u64::MAX`.
pub proof fn lemma_total_is_principal_plus_fee(amount: u64)
    ensures
        fee_and_total_spec(amount as nat) matches Ok((f, t)) ==> f == fee_spec(amount as nat) && t == amount + f,
        fee_and_total_spec(amount as nat) is Err <==> amount + fee_spec(amount as nat) > u64::MAX,
        fee_and_total_spec(amount as nat) is Err ==> fee_and_total_spec(amount as nat) == Err::<(u64, u64), ProtocolError>(ProtocolError::Overflow),
{
    lemma_fee_bounded(amount as nat);
}

/// The largest principal whose total still fits in 64 bits.
pub const MAX_REPAYABLE: u64 = 17_568_327_689_247_192_015;

/// The total fits in 64 bits exactly up to `MAX_REPAYABLE`; every larger
/// principal yields `Overflow`.
pub proof fn lemma_overflow_threshold(amount: u64)
    ensures
        fee_and_total_spec(amount as nat) is Ok <==> amount <= MAX_REPAYABLE,
{
    let a = amount as nat;
    assert(a * 500 / 10_000 == a / 20) by (nonlinear_arith);
    let q = a / 20;
    let r = a % 20;
    vstd::arithmetic::div_mod::lemma_fundamental_div_mod(a as int, 20);
    assert(0 <= r < 20);
    assert(total_spec(a) == 21 * q + r);
    if a <= 17_568_327_689_247_192_015 {
        assert(q <= 878_416_384_462_359_600) by (nonlinear_arith)
            requires a <= 17_568_327_689_247_192_015, a == 20 * q + r, r < 20, r >= 0, q >= 0;
        if q == 878_416_384_462_359_600 {
            assert(r <= 15);
        }
    } else {
        assert(q >= 878_416_384_462_359_600) by (nonlinear_arith)
            requires a > 17_568_327_689_247_192_015, a == 20 * q + r, r < 20, r >= 0, q >= 0;
        if q == 878_416_384_462_359_600 {
            assert(r >= 16);
        }
    }
}

} // verus!
