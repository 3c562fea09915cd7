use vstd::prelude::*;
use crate::error::VaultError;
use crate::vault::Vault;

verus! {

/// The claim-token units that a deposit of `deposit` mints, given the
/// supply already issued, the purchases made and the nominal value of one
/// purchased asset in deposit-asset terms.
///
/// The first deposit mints one unit per unit deposited. Later deposits mint
/// `floor(deposit * supply / (purchases * reference_value))`.
pub open spec fn shares_outcome(deposit: int, supply: int, purchases: int, reference_value: int) -> Result<u64, VaultError> {
    if supply == 0 {
        Ok(deposit as u64)
    } else if purchases * reference_value == 0 {
        Err(VaultError::DivisionByZero)
    } else if deposit * supply / (purchases * reference_value) > u64::MAX {
        Err(VaultError::ArithmeticOverflow)
    } else {
        Ok((deposit * supply / (purchases * reference_value)) as u64)
    }
}

/// Claim-token units to mint for a deposit into `state`.
///
/// Products are taken in 128 bits. A vault with claim tokens out but no
/// purchased value fails with `DivisionByZero`; a share count above 64 bits
/// fails with `ArithmeticOverflow`.
pub fn shares_for_deposit(deposit_amount: u64, state: &Vault, reference_asset_value: u64) -> (r: Result<u64, VaultError>)
    ensures
        r == shares_outcome(
            deposit_amount as int,
            state.total_evg_s_supply as int,
            state.total_evg_l_tokens as int,
            reference_asset_value as int,
        ),
{
    let supply = state.total_evg_s_supply;
    if supply == 0 {
        return Ok(deposit_amount);
    }
    let purchases = state.total_evg_l_tokens;
    proof {
        lemma_u64_product_fits_u128(purchases, reference_asset_value);
        lemma_u64_product_fits_u128(deposit_amount, supply);
    }
    let total_value: u128 = (purchases as u128) * (reference_asset_value as u128);
    if total_value == 0 {
        return Err(VaultError::DivisionByZero);
    }
    let product: u128 = (deposit_amount as u128) * (supply as u128);
    let minted: u128 = product / total_value;
    if minted > u64::MAX as u128 {
        return Err(VaultError::ArithmeticOverflow);
    }
    Ok(minted as u64)
}

/// The product of two 64-bit values fits in 128 bits.
proof fn lemma_u64_product_fits_u128(a: u64, b: u64)
    ensures
        0 <= a * b <= u128::MAX,
{
    assert(0 <= a * b <= (u64::MAX as int) * (u64::MAX as int)) by (nonlinear_arith)
        requires
            0 <= a <= u64::MAX,
            0 <= b <= u64::MAX,
    ;
}

} // verus!
