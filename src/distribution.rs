use vstd::prelude::*;
use vstd::arithmetic::div_mod::{lemma_fundamental_div_mod, lemma_mod_pos_bound};
use anchor_lang::prelude::Pubkey;
use crate::error::VaultError;
use crate::fees::{fee, fee_of, lemma_fee_bounded, net, valid_rate};
use crate::vault::Vault;

verus! {

/// A claim-token holder and the units it holds.
#[derive(Clone, Copy)]
pub struct Holding {
    pub holder: Pubkey,
    pub balance: u64,
}

/// A payment of distributed earnings to one holder.
#[derive(Clone, Copy)]
pub struct Payout {
    pub holder: Pubkey,
    pub amount: u64,
}

/// How a distribution splits the amount handed in.
pub struct DistributionSettlement {
    /// Paid to the treasury account.
    pub distribution_fee: u64,
    /// Paid for each claim-token unit.
    pub per_unit: u64,
    /// One payment per holder, in the order the holders were given.
    pub payouts: Vec<Payout>,
    /// Left over by rounding `per_unit` down; it stays in vault custody.
    pub residual: u64,
}

/// The claim-token units that the holdings add up to.
pub open spec fn balance_total(hs: Seq<Holding>) -> int
    decreases hs.len(),
{
    if hs.len() == 0 {
        0
    } else {
        balance_total(hs.drop_last()) + hs.last().balance
    }
}

/// The amount that the payouts add up to.
pub open spec fn payout_total(ps: Seq<Payout>) -> int
    decreases ps.len(),
{
    if ps.len() == 0 {
        0
    } else {
        payout_total(ps.drop_last()) + ps.last().amount
    }
}

/// The fee that a distribution of `total` from `v` takes.
pub open spec fn distribution_fee_of(v: Vault, total: int) -> int {
    fee_of(total, v.distribution_fee_basis_points as int)
}

/// What a distribution of `total` from `v` pays for each claim-token unit.
pub open spec fn per_unit_of(v: Vault, total: int) -> int {
    (total - distribution_fee_of(v, total)) / (v.total_evg_s_supply as int)
}

/// Why a distribution from `v` to the holdings `hs` fails, if it does.
pub open spec fn distribution_error(v: Vault, hs: Seq<Holding>) -> Option<VaultError> {
    if v.total_evg_s_supply == 0 {
        Some(VaultError::DivisionByZero)
    } else if !valid_rate(v.distribution_fee_basis_points as int) {
        Some(VaultError::InvalidConfiguration)
    } else if balance_total(hs) != v.total_evg_s_supply {
        Some(VaultError::InvalidAmount)
    } else {
        None
    }
}

/// Each payout goes to the holder at the same place and is `per_unit` times
/// that holder's balance.
pub open spec fn pays_pro_rata(ps: Seq<Payout>, hs: Seq<Holding>, per_unit: int) -> bool {
    &&& ps.len() == hs.len()
    &&& forall|k: int|
        0 <= k < hs.len() ==> (#[trigger] ps[k]).holder == hs[k].holder && ps[k].amount
            == per_unit * hs[k].balance
}

/// The total of a prefix never exceeds the total of a longer prefix.
proof fn lemma_balance_total_prefix(hs: Seq<Holding>, i: int, j: int)
    requires
        0 <= i <= j <= hs.len(),
    ensures
        balance_total(hs.take(i)) <= balance_total(hs.take(j)),
    decreases j - i,
{
    if i < j {
        assert(hs.take(j).drop_last() =~= hs.take(j - 1));
        lemma_balance_total_prefix(hs, i, j - 1);
    }
}

/// No single holding exceeds the total.
proof fn lemma_balance_le_total(hs: Seq<Holding>, k: int)
    requires
        0 <= k < hs.len(),
    ensures
        hs[k].balance <= balance_total(hs),
{
    assert(hs.take(k + 1).drop_last() =~= hs.take(k));
    lemma_balance_total_prefix(hs, 0, k);
    lemma_balance_total_prefix(hs, k + 1, hs.len() as int);
    assert(hs.take(hs.len() as int) =~= hs);
}

/// Payouts at `per_unit` for each unit add up to `per_unit` times the units.
proof fn lemma_payout_total(ps: Seq<Payout>, hs: Seq<Holding>, per_unit: int)
    requires
        pays_pro_rata(ps, hs, per_unit),
    ensures
        payout_total(ps) == per_unit * balance_total(hs),
    decreases hs.len(),
{
    if hs.len() > 0 {
        let n = hs.len() - 1;
        assert(ps[n].amount == per_unit * hs[n].balance);
        lemma_payout_total(ps.drop_last(), hs.drop_last(), per_unit);
        assert(per_unit * balance_total(hs) == per_unit * balance_total(hs.drop_last()) + per_unit
            * hs[n].balance) by (nonlinear_arith)
            requires
                balance_total(hs) == balance_total(hs.drop_last()) + hs[n].balance,
        ;
    }
}

/// Rounding a quotient down never pays out more than the dividend.
proof fn lemma_quotient_times_divisor(d: int, s: int)
    requires
        d >= 0,
        s > 0,
    ensures
        0 <= (d / s) * s <= d,
        d - (d / s) * s < s,
{
    lemma_fundamental_div_mod(d, s);
    lemma_mod_pos_bound(d, s);
    assert((d / s) * s == s * (d / s)) by (nonlinear_arith);
    assert(d / s >= 0) by (nonlinear_arith)
        requires
            d >= 0,
            s > 0,
    ;
}

/// A vault with no claim tokens out cannot distribute: whatever the amount
/// and the holdings, the distribution fails with `DivisionByZero`.
pub proof fn lemma_distribute_without_supply_fails(v: Vault, hs: Seq<Holding>)
    requires
        v.total_evg_s_supply == 0,
    ensures
        distribution_error(v, hs) == Some(VaultError::DivisionByZero),
{
}

/// Splits `total_amount` of earnings among the holders of the vault's claim
/// tokens: the distribution fee goes to the treasury, each holder receives
/// `per_unit` times its balance, and what rounding leaves over stays in
/// custody as the residual. The holdings must add up to the supply in
/// circulation. The vault record is not changed.
pub fn distribute(vault: &Vault, total_amount: u64, holders: &Vec<Holding>) -> (r: Result<
    DistributionSettlement,
    VaultError,
>)
    ensures
        r is Err <==> distribution_error(*vault, holders@) is Some,
        r is Err ==> distribution_error(*vault, holders@) == Some(r->Err_0),
        r is Ok ==> ({
            let s = r->Ok_0;
            &&& s.distribution_fee == distribution_fee_of(*vault, total_amount as int)
            &&& s.per_unit == per_unit_of(*vault, total_amount as int)
            &&& s.residual == total_amount - s.distribution_fee - s.per_unit
                * vault.total_evg_s_supply
            &&& pays_pro_rata(s.payouts@, holders@, s.per_unit as int)
            &&& s.distribution_fee + payout_total(s.payouts@) + s.residual == total_amount
        }),
{
    let supply = vault.total_evg_s_supply;
    if supply == 0 {
        return Err(VaultError::DivisionByZero);
    }
    let distribution_fee = match fee(total_amount, vault.distribution_fee_basis_points) {
        Ok(f) => f,
        Err(e) => return Err(e),
    };
    proof {
        lemma_fee_bounded(total_amount as int, vault.distribution_fee_basis_points as int);
    }
    let distributable = match net(total_amount, distribution_fee) {
        Ok(n) => n,
        Err(e) => return Err(e),
    };

    let mut acc: u64 = 0;
    let mut i: usize = 0;
    while i < holders.len()
        invariant
            0 <= i <= holders.len(),
            acc == balance_total(holders@.take(i as int)),
            acc <= supply,
            supply == vault.total_evg_s_supply,
            supply > 0,
            valid_rate(vault.distribution_fee_basis_points as int),
        decreases holders.len() - i,
    {
        let b = holders[i].balance;
        proof {
            assert(holders@.take(i + 1).drop_last() =~= holders@.take(i as int));
            assert(balance_total(holders@.take(i + 1)) == acc + b);
        }
        if b > supply - acc {
            proof {
                lemma_balance_total_prefix(holders@, i + 1, holders@.len() as int);
                assert(holders@.take(holders@.len() as int) =~= holders@);
            }
            return Err(VaultError::InvalidAmount);
        }
        acc = acc + b;
        i = i + 1;
    }
    proof {
        assert(holders@.take(holders@.len() as int) =~= holders@);
    }
    if acc != supply {
        return Err(VaultError::InvalidAmount);
    }

    let per_unit = distributable / supply;
    proof {
        lemma_quotient_times_divisor(distributable as int, supply as int);
    }
    let paid = per_unit * supply;
    let residual = distributable - paid;

    let mut payouts: Vec<Payout> = Vec::new();
    let mut j: usize = 0;
    while j < holders.len()
        invariant
            0 <= j <= holders.len(),
            payouts@.len() == j,
            balance_total(holders@) == supply,
            per_unit * supply <= u64::MAX,
            forall|k: int|
                0 <= k < j ==> (#[trigger] payouts@[k]).holder == holders@[k].holder
                    && payouts@[k].amount == per_unit * holders@[k].balance,
        decreases holders.len() - j,
    {
        let h = holders[j];
        proof {
            lemma_balance_le_total(holders@, j as int);
            assert(per_unit * h.balance <= per_unit * supply) by (nonlinear_arith)
                requires
                    h.balance <= supply,
                    per_unit >= 0,
            ;
        }
        payouts.push(Payout { holder: h.holder, amount: per_unit * h.balance });
        j = j + 1;
    }
    proof {
        lemma_payout_total(payouts@, holders@, per_unit as int);
    }
    Ok(DistributionSettlement { distribution_fee, per_unit, payouts, residual })
}

} // verus!
