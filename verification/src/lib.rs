//! Deterministic accounting core of a bridged token ledger.
//!
//! The crate keeps balances, allowances and the total supply of a token,
//! applies one state transition per call (mint, burn, transfer, approve,
//! transfer-from, bridge-out), and enforces the conservation and
//! authorization invariants that make the ledger sound: the total supply
//! always equals the sum of all balances, no balance or allowance ever
//! underflows, and only the paired external-chain contract may mint.

mod bytes;
mod codec;
mod contract;
mod error;
mod extchain;
mod laws;
mod ledger;
mod msg;
mod validate;

pub use codec::bytes_to_u128;
pub use contract::{
    execute, instantiate, query, try_approve, try_burn, try_mint_cw20, try_send_to_erc20,
    try_transfer, try_transfer_from,
};
pub use error::ContractError;
pub use extchain::is_authorized_minter;
pub use laws::{lemma_balance_bounded, lemma_conservation, lemma_non_negative};
pub use ledger::{perform_transfer, AllowanceEntry, BalanceEntry, Constants, Ledger};
pub use msg::{
    ActionTag, AllowanceResponse, AttrKey, AttrValue, Attribute, BalanceResponse, Env,
    ExecuteMsg, MessageInfo, QueryAnswer, QueryMsg, Response, SendToEvmMsg,
};
pub use validate::{
    is_valid_eth_address, is_valid_name, is_valid_symbol, is_valid_wasm_address,
    validate_decimals,
};
