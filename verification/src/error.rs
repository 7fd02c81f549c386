use vstd::prelude::*;

verus! {

/// Typed failures of the ledger engine.
///
/// Every error carries the offending amounts or address, so a caller can
/// act on it without parsing any text. A transition that returns one of
/// these has not changed the ledger at all.
#[derive(Debug)]
pub enum ContractError {
    /// The token name is not 3 to 30 bytes long.
    NameWrongFormat,
    /// The ticker symbol is not 3 to 6 uppercase ASCII letters.
    TickerWrongSymbolFormat,
    /// The decimal precision exceeds 18.
    DecimalsExceeded,
    /// A transfer-from asked for more than the spender's allowance.
    InsufficientAllowance { allowance: u128, required: u128 },
    /// A debit asked for more than the account holds.
    InsufficientFunds { balance: u128, required: u128 },
    /// A stored numeric value was not exactly 16 bytes wide.
    CorruptedDataFound,
    /// A bridge-out recipient does not look like an external-chain address.
    InvalidRecipient { address: Vec<u8> },
    /// A mint was attempted by a caller that is not the paired
    /// external-chain contract.
    InvalidSender { address: Vec<u8> },
}

} // verus!
