use vstd::prelude::*;
use crate::error::VaultError;

verus! {

/// Basis points in one whole.
pub const BASIS_POINTS_DENOMINATOR: u16 = 10000;

/// Rate of the fee taken on each purchase: 2.5%.
pub const SALE_FEE_BASIS_POINTS: u16 = 250;

/// Rate of the fee taken on each distribution: 0.5%.
pub const DISTRIBUTION_FEE_BASIS_POINTS: u16 = 50;

/// `floor(amount * basis_points / 10000)`.
pub open spec fn fee_of(amount: int, basis_points: int) -> int {
    amount * basis_points / 10000
}

/// A fee rate that takes at most the whole amount.
pub open spec fn valid_rate(basis_points: int) -> bool {
    0 <= basis_points <= 10000
}

/// A fee at a valid rate lies between zero and the amount.
pub proof fn lemma_fee_bounded(amount: int, basis_points: int)
    requires
        amount >= 0,
        valid_rate(basis_points),
    ensures
        0 <= fee_of(amount, basis_points) <= amount,
{
    assert(0 <= amount * basis_points <= amount * 10000) by (nonlinear_arith)
        requires
            amount >= 0,
            0 <= basis_points <= 10000,
    ;
    assert(amount * basis_points / 10000 <= amount) by (nonlinear_arith)
        requires
            0 <= amount * basis_points <= amount * 10000,
    ;
}

/// The fee and what is left after it add up to the amount: for every amount
/// and every rate of at most 10000 basis points, `fee + net(amount, fee)`
/// equals `amount`, and neither part is negative.
pub proof fn lemma_fee_plus_net_is_amount(amount: u64, basis_points: u16)
    requires
        valid_rate(basis_points as int),
    ensures
        0 <= fee_of(amount as int, basis_points as int) <= amount,
        fee_of(amount as int, basis_points as int) + (amount - fee_of(
            amount as int,
            basis_points as int,
        )) == amount,
{
    lemma_fee_bounded(amount as int, basis_points as int);
}

/// The fee at `basis_points` on `amount`, rounded down. The product is taken
/// in 128 bits, so it cannot overflow; a rate above 10000 basis points fails
/// with `InvalidConfiguration`.
pub fn fee(amount: u64, basis_points: u16) -> (r: Result<u64, VaultError>)
    ensures
        valid_rate(basis_points as int) ==> r == Ok::<u64, VaultError>(
            fee_of(amount as int, basis_points as int) as u64,
        ),
        !valid_rate(basis_points as int) ==> r == Err::<u64, VaultError>(
            VaultError::InvalidConfiguration,
        ),
        r is Ok ==> r->Ok_0 <= amount,
{
    if basis_points > BASIS_POINTS_DENOMINATOR {
        return Err(VaultError::InvalidConfiguration);
    }
    proof {
        lemma_fee_bounded(amount as int, basis_points as int);
    }
    let product: u128 = (amount as u128) * (basis_points as u128);
    let f: u128 = product / 10000;
    Ok(f as u64)
}

/// What is left of `amount` once `fee` is taken. A fee above the amount
/// fails with `InvalidAmount`.
pub fn net(amount: u64, fee: u64) -> (r: Result<u64, VaultError>)
    ensures
        fee <= amount ==> r == Ok::<u64, VaultError>((amount - fee) as u64),
        fee > amount ==> r == Err::<u64, VaultError>(VaultError::InvalidAmount),
{
    if fee > amount {
        Err(VaultError::InvalidAmount)
    } else {
        Ok(amount - fee)
    }
}

} // verus!
