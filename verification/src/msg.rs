use vstd::prelude::*;

verus! {

/// The caller identity the host authenticated for the current call.
pub struct MessageInfo {
    pub sender: Vec<u8>,
}

/// The execution environment of the current call: the address of this
/// contract instance on the local chain.
pub struct Env {
    pub contract_address: Vec<u8>,
}

/// A decoded request: exactly one state transition per call.
pub enum ExecuteMsg {
    Approve { spender: Vec<u8>, amount: u128 },
    Transfer { recipient: Vec<u8>, amount: u128 },
    Burn { amount: u128 },
    MintCW20 { recipient: Vec<u8>, amount: u128 },
    TransferFrom { owner: Vec<u8>, recipient: Vec<u8>, amount: u128 },
    SendToEvm { recipient: Vec<u8>, amount: u128 },
}

/// A read-only query; neither mutates anything.
pub enum QueryMsg {
    Balance { address: Vec<u8> },
    Allowance { owner: Vec<u8>, spender: Vec<u8> },
}

/// The key of one event attribute.
#[derive(Debug, PartialEq, Eq)]
pub enum AttrKey {
    Action,
    Sender,
    Recipient,
    Owner,
    Spender,
    Account,
    Amount,
}

/// The action tag a transition reports in its event.
#[derive(Debug, PartialEq, Eq)]
pub enum ActionTag {
    Transfer,
    TransferFrom,
    Approve,
    Burn,
    Mint,
    CallEvm,
}

/// The value of one event attribute.
#[derive(Debug, PartialEq, Eq)]
pub enum AttrValue {
    Action(ActionTag),
    Addr(Vec<u8>),
    Amount(u128),
}

/// One key/value event attribute of a successful transition.
#[derive(Debug, PartialEq, Eq)]
pub struct Attribute {
    pub key: AttrKey,
    pub value: AttrValue,
}

/// The one outbound instruction a bridge-out emits: release `amount` to
/// `recipient` on the external chain, on behalf of `sender` here.
#[derive(Debug, PartialEq, Eq)]
pub struct SendToEvmMsg {
    pub sender: Vec<u8>,
    pub contract: Vec<u8>,
    pub recipient: Vec<u8>,
    pub amount: u128,
}

/// A successful transition's result: its canonical event attributes and
/// zero or one outbound instructions.
#[derive(Debug)]
pub struct Response {
    pub attributes: Vec<Attribute>,
    pub messages: Vec<SendToEvmMsg>,
}

/// Typed answer to a balance query.
#[derive(Debug, PartialEq, Eq)]
pub struct BalanceResponse {
    pub balance: u128,
}

/// Typed answer to an allowance query.
#[derive(Debug, PartialEq, Eq)]
pub struct AllowanceResponse {
    pub allowance: u128,
}

/// The answer to a read-only query.
#[derive(Debug, PartialEq, Eq)]
pub enum QueryAnswer {
    Balance(BalanceResponse),
    Allowance(AllowanceResponse),
}

/// The attribute tags an action.
pub open spec fn attr_action(a: Attribute, t: ActionTag) -> bool {
    a.key == AttrKey::Action && a.value == AttrValue::Action(t)
}

/// The attribute carries the address `addr` under `key`.
pub open spec fn attr_addr(a: Attribute, key: AttrKey, addr: Seq<u8>) -> bool {
    a.key == key && (a.value matches AttrValue::Addr(v) && v@ == addr)
}

/// The attribute carries the amount of the transition.
pub open spec fn attr_amount(a: Attribute, amount: u128) -> bool {
    a.key == AttrKey::Amount && a.value == AttrValue::Amount(amount)
}

} // verus!
