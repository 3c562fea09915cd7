use vstd::prelude::*;

verus! {

/// The ways in which a vault operation can fail.
#[derive(Debug, Clone, Copy, PartialEq, Eq, Structural)]
pub enum VaultError {
    /// The vault's custodied balance is below the requested transfer.
    InsufficientFunds,
    /// A zero or malformed amount.
    InvalidAmount,
    /// A pro-rata computation whose denominator is zero.
    DivisionByZero,
    /// A result that does not fit in 64 bits.
    ArithmeticOverflow,
    /// A fee rate above 10000 basis points.
    InvalidConfiguration,
    /// A value movement refused by the ledger.
    LedgerError,
}

} // verus!
