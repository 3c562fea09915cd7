use vstd::prelude::*;
use anchor_lang::prelude::Pubkey;
use crate::error::VaultError;
use crate::fees::{fee, fee_of, lemma_fee_bounded, net, valid_rate};
use crate::shares::{shares_for_deposit, shares_outcome};

verus! {

/// An account address of the host ledger; the vault only stores and hands
/// these back, it never looks inside one.
#[verifier::external_type_specification]
#[verifier::external_body]
pub struct ExPubkey(Pubkey);

/// The accounting record of one vault.
///
/// `total_evg_s_supply` counts the claim-token units issued so far and
/// `total_evg_l_tokens` the purchases processed; both only grow. The
/// remaining fields are fixed when the vault is created.
#[derive(Clone, Copy)]
pub struct Vault {
    /// The identity allowed to create the vault.
    pub authority: Pubkey,
    /// The deposit asset.
    pub usdc_mint: Pubkey,
    /// Claim-token units in circulation.
    pub total_evg_s_supply: u64,
    /// Purchases processed.
    pub total_evg_l_tokens: u64,
    /// Receives distribution fees.
    pub treasury_account: Pubkey,
    /// Receives sale fees.
    pub fee_account: Pubkey,
    /// Fee rate on purchases, in basis points.
    pub sale_fee_basis_points: u16,
    /// Fee rate on distributions, in basis points.
    pub distribution_fee_basis_points: u16,
}

impl Vault {
    /// Both fee rates take at most the whole amount.
    pub open spec fn wf(&self) -> bool {
        &&& valid_rate(self.sale_fee_basis_points as int)
        &&& valid_rate(self.distribution_fee_basis_points as int)
    }

    /// The same vault with `minted` more claim-token units in circulation.
    pub open spec fn with_supply_added(self, minted: int) -> Vault {
        Vault { total_evg_s_supply: (self.total_evg_s_supply + minted) as u64, ..self }
    }

    /// The same vault with one more purchase counted.
    pub open spec fn with_purchase_counted(self) -> Vault {
        Vault { total_evg_l_tokens: (self.total_evg_l_tokens + 1) as u64, ..self }
    }
}

/// Creates the record of a new vault: no claim tokens issued, no purchases
/// made. Fails with `InvalidConfiguration` when a fee rate exceeds 10000
/// basis points.
pub fn initialize_vault(
    authority: Pubkey,
    usdc_mint: Pubkey,
    treasury_account: Pubkey,
    fee_account: Pubkey,
    sale_fee_basis_points: u16,
    distribution_fee_basis_points: u16,
) -> (r: Result<Vault, VaultError>)
    ensures
        r is Ok <==> valid_rate(sale_fee_basis_points as int) && valid_rate(
            distribution_fee_basis_points as int,
        ),
        r is Err ==> r->Err_0 == VaultError::InvalidConfiguration,
        r is Ok ==> ({
            let v = r->Ok_0;
            &&& v.wf()
            &&& v.authority == authority
            &&& v.usdc_mint == usdc_mint
            &&& v.treasury_account == treasury_account
            &&& v.fee_account == fee_account
            &&& v.sale_fee_basis_points == sale_fee_basis_points
            &&& v.distribution_fee_basis_points == distribution_fee_basis_points
            &&& v.total_evg_s_supply == 0
            &&& v.total_evg_l_tokens == 0
        }),
{
    if sale_fee_basis_points > 10000 || distribution_fee_basis_points > 10000 {
        return Err(VaultError::InvalidConfiguration);
    }
    Ok(
        Vault {
            authority,
            usdc_mint,
            total_evg_s_supply: 0,
            total_evg_l_tokens: 0,
            treasury_account,
            fee_account,
            sale_fee_basis_points,
            distribution_fee_basis_points,
        },
    )
}

/// The amounts that a purchase moves out of vault custody.
#[derive(Debug, Clone, Copy, PartialEq, Eq, Structural)]
pub struct SaleSettlement {
    /// Paid to the seller.
    pub seller_amount: u64,
    /// Paid to the vault's fee account.
    pub sale_fee: u64,
}

/// What a deposit of `amount` into `v` yields: the claim-token units minted,
/// or the reason it fails.
pub open spec fn deposit_outcome(v: Vault, amount: int, reference_value: int) -> Result<u64, VaultError> {
    if amount == 0 {
        Err(VaultError::InvalidAmount)
    } else {
        match shares_outcome(amount, v.total_evg_s_supply as int, v.total_evg_l_tokens as int, reference_value) {
            Err(e) => Err(e),
            Ok(minted) => if v.total_evg_s_supply + minted > u64::MAX {
                Err(VaultError::ArithmeticOverflow)
            } else {
                Ok(minted)
            },
        }
    }
}

/// What a purchase at `price` from `v` yields, with `balance` held in vault
/// custody: the seller's part and the fee, or the reason it fails.
pub open spec fn purchase_outcome(v: Vault, price: int, balance: int) -> Result<SaleSettlement, VaultError> {
    if price > balance {
        Err(VaultError::InsufficientFunds)
    } else if !valid_rate(v.sale_fee_basis_points as int) {
        Err(VaultError::InvalidConfiguration)
    } else if v.total_evg_l_tokens == u64::MAX {
        Err(VaultError::ArithmeticOverflow)
    } else {
        Ok(SaleSettlement {
            seller_amount: (price - fee_of(price, v.sale_fee_basis_points as int)) as u64,
            sale_fee: fee_of(price, v.sale_fee_basis_points as int) as u64,
        })
    }
}

/// The first deposit into a vault with no claim tokens out mints one unit
/// per unit deposited, whatever the purchases and reference value, and
/// leaves exactly that many units in circulation.
pub proof fn lemma_first_deposit_one_to_one(v: Vault, amount: u64, reference_value: u64)
    requires
        v.total_evg_s_supply == 0,
        amount > 0,
    ensures
        deposit_outcome(v, amount as int, reference_value as int) == Ok::<u64, VaultError>(amount),
        v.with_supply_added(amount as int).total_evg_s_supply == amount,
{
}

/// A purchase whose price exceeds the custodied balance always fails with
/// `InsufficientFunds`, and so leaves the vault as it was.
pub proof fn lemma_purchase_over_balance_fails(v: Vault, price: u64, vault_balance: u64)
    requires
        price > vault_balance,
    ensures
        purchase_outcome(v, price as int, vault_balance as int) == Err::<SaleSettlement, VaultError>(
            VaultError::InsufficientFunds,
        ),
{
}

/// Accounts for a deposit of `amount` deposit-asset units that the ledger
/// has moved into vault custody, and returns the claim-token units to mint
/// to the depositor. On success the supply grows by exactly that many units;
/// on failure the vault is left as it was.
pub fn deposit_usdc(vault: &mut Vault, amount: u64, reference_asset_value: u64) -> (r: Result<u64, VaultError>)
    ensures
        r == deposit_outcome(*old(vault), amount as int, reference_asset_value as int),
        r is Ok ==> *final(vault) == old(vault).with_supply_added(r->Ok_0 as int),
        r is Err ==> *final(vault) == *old(vault),
{
    if amount == 0 {
        return Err(VaultError::InvalidAmount);
    }
    let minted = match shares_for_deposit(amount, vault, reference_asset_value) {
        Ok(m) => m,
        Err(e) => return Err(e),
    };
    if minted > u64::MAX - vault.total_evg_s_supply {
        return Err(VaultError::ArithmeticOverflow);
    }
    vault.total_evg_s_supply = vault.total_evg_s_supply + minted;
    Ok(minted)
}

/// Accounts for the purchase of one asset at `price`, paid out of vault
/// custody, which holds `vault_balance`. Returns what goes to the seller and
/// what goes to the fee account; on success one more purchase is counted, on
/// failure the vault is left as it was. A price above the balance fails with
/// `InsufficientFunds` before anything else is looked at.
pub fn purchase_evg_l(vault: &mut Vault, price: u64, vault_balance: u64) -> (r: Result<SaleSettlement, VaultError>)
    ensures
        r == purchase_outcome(*old(vault), price as int, vault_balance as int),
        r is Ok ==> *final(vault) == old(vault).with_purchase_counted(),
        r is Ok ==> r->Ok_0.seller_amount + r->Ok_0.sale_fee == price,
        r is Err ==> *final(vault) == *old(vault),
{
    if price > vault_balance {
        return Err(VaultError::InsufficientFunds);
    }
    let sale_fee = match fee(price, vault.sale_fee_basis_points) {
        Ok(f) => f,
        Err(e) => return Err(e),
    };
    proof {
        lemma_fee_bounded(price as int, vault.sale_fee_basis_points as int);
    }
    let seller_amount = match net(price, sale_fee) {
        Ok(n) => n,
        Err(e) => return Err(e),
    };
    if vault.total_evg_l_tokens == u64::MAX {
        return Err(VaultError::ArithmeticOverflow);
    }
    vault.total_evg_l_tokens = vault.total_evg_l_tokens + 1;
    Ok(SaleSettlement { seller_amount, sale_fee })
}

} // verus!
