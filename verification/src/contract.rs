use vstd::prelude::*;

use crate::bytes::copy_bytes;
use crate::error::ContractError;
use crate::extchain::{authorized_minter, is_authorized_minter};
use crate::ledger::{
    allowance_set, allowances_unchanged, balances_unchanged, credited, debited, moved,
    perform_transfer, Constants, Ledger,
};
use crate::msg::{
    attr_action, attr_addr, attr_amount, ActionTag, AllowanceResponse, AttrKey, AttrValue,
    Attribute, BalanceResponse, Env, ExecuteMsg, MessageInfo, QueryAnswer, QueryMsg, Response,
    SendToEvmMsg,
};
use crate::validate::{
    is_valid_eth_address, is_valid_name, is_valid_symbol, valid_decimals, valid_eth_address,
    valid_name, valid_symbol, validate_decimals,
};

verus! {

/// Event attributes of a successful transfer.
pub open spec fn transfer_resp(resp: Response, sender: Seq<u8>, recipient: Seq<u8>) -> bool {
    &&& resp.messages@.len() == 0
    &&& resp.attributes@.len() == 3
    &&& attr_action(resp.attributes@[0], ActionTag::Transfer)
    &&& attr_addr(resp.attributes@[1], AttrKey::Sender, sender)
    &&& attr_addr(resp.attributes@[2], AttrKey::Recipient, recipient)
}

/// Event attributes of a successful approval.
pub open spec fn approve_resp(resp: Response, owner: Seq<u8>, spender: Seq<u8>) -> bool {
    &&& resp.messages@.len() == 0
    &&& resp.attributes@.len() == 3
    &&& attr_action(resp.attributes@[0], ActionTag::Approve)
    &&& attr_addr(resp.attributes@[1], AttrKey::Owner, owner)
    &&& attr_addr(resp.attributes@[2], AttrKey::Spender, spender)
}

/// Event attributes of a successful transfer-from.
pub open spec fn transfer_from_resp(
    resp: Response,
    spender: Seq<u8>,
    owner: Seq<u8>,
    recipient: Seq<u8>,
) -> bool {
    &&& resp.messages@.len() == 0
    &&& resp.attributes@.len() == 4
    &&& attr_action(resp.attributes@[0], ActionTag::TransferFrom)
    &&& attr_addr(resp.attributes@[1], AttrKey::Spender, spender)
    &&& attr_addr(resp.attributes@[2], AttrKey::Sender, owner)
    &&& attr_addr(resp.attributes@[3], AttrKey::Recipient, recipient)
}

/// Event attributes of a successful burn.
pub open spec fn burn_resp(resp: Response, account: Seq<u8>, amount: u128) -> bool {
    &&& resp.messages@.len() == 0
    &&& resp.attributes@.len() == 3
    &&& attr_action(resp.attributes@[0], ActionTag::Burn)
    &&& attr_addr(resp.attributes@[1], AttrKey::Account, account)
    &&& attr_amount(resp.attributes@[2], amount)
}

/// Event attributes of a successful inbound mint. It carries no
/// outbound instruction: the external chain has already locked the
/// corresponding value.
pub open spec fn mint_resp(resp: Response, sender: Seq<u8>, recipient: Seq<u8>, amount: u128) -> bool {
    &&& resp.messages@.len() == 0
    &&& resp.attributes@.len() == 4
    &&& attr_action(resp.attributes@[0], ActionTag::Mint)
    &&& attr_addr(resp.attributes@[1], AttrKey::Account, recipient)
    &&& attr_addr(resp.attributes@[2], AttrKey::Sender, sender)
    &&& attr_amount(resp.attributes@[3], amount)
}

/// Result of a successful bridge-out: exactly one outbound instruction,
/// carrying this contract's address, the paired external contract, the
/// recipient and the amount.
pub open spec fn bridge_resp(
    resp: Response,
    self_addr: Seq<u8>,
    contract: Seq<u8>,
    recipient: Seq<u8>,
    amount: u128,
) -> bool {
    &&& resp.messages@.len() == 1
    &&& resp.messages@[0].sender@ == self_addr
    &&& resp.messages@[0].contract@ == contract
    &&& resp.messages@[0].recipient@ == recipient
    &&& resp.messages@[0].amount == amount
    &&& resp.attributes@.len() == 2
    &&& attr_action(resp.attributes@[0], ActionTag::CallEvm)
    &&& attr_amount(resp.attributes@[1], amount)
}

/// The Approve transition: sets the caller's allowance for `spender` to
/// exactly `amount`. It cannot fail and touches nothing else.
pub open spec fn approve_spec(
    pre: Ledger,
    post: Ledger,
    owner: Seq<u8>,
    spender: Seq<u8>,
    amount: u128,
    r: Result<Response, ContractError>,
) -> bool {
    &&& post.wf()
    &&& r is Ok
    &&& allowance_set(pre, post, owner, spender, amount)
    &&& balances_unchanged(pre, post)
    &&& post.total_supply == pre.total_supply
    &&& post.constants == pre.constants
    &&& (r matches Ok(resp) ==> approve_resp(resp, owner, spender))
}

/// The Transfer transition: succeeds iff the sender's balance covers
/// `amount`; then the amount moves to `recipient` and nothing else
/// changes. A failure reports the sender's balance and leaves the
/// ledger exactly as it was.
pub open spec fn transfer_spec(
    pre: Ledger,
    post: Ledger,
    sender: Seq<u8>,
    recipient: Seq<u8>,
    amount: u128,
    r: Result<Response, ContractError>,
) -> bool {
    &&& post.wf()
    &&& (r is Ok <==> pre.bal_of(sender) >= amount)
    &&& (r is Ok ==> moved(pre, post, sender, recipient, amount))
    &&& (r is Ok ==> allowances_unchanged(pre, post))
    &&& post.total_supply == pre.total_supply
    &&& post.constants == pre.constants
    &&& (r is Err ==> post == pre)
    &&& (r matches Err(e) ==> e == (ContractError::InsufficientFunds {
        balance: pre.bal_of(sender),
        required: amount,
    }))
    &&& (r matches Ok(resp) ==> transfer_resp(resp, sender, recipient))
}

/// The Burn transition: succeeds iff the caller's balance covers
/// `amount`; then balance and total supply both shrink by it.
pub open spec fn burn_spec(
    pre: Ledger,
    post: Ledger,
    account: Seq<u8>,
    amount: u128,
    r: Result<Response, ContractError>,
) -> bool {
    &&& post.wf()
    &&& (r is Ok <==> pre.bal_of(account) >= amount)
    &&& (r is Ok ==> debited(pre, post, account, amount))
    &&& (r is Ok ==> post.total_supply == pre.total_supply - amount)
    &&& (r is Ok ==> allowances_unchanged(pre, post))
    &&& post.constants == pre.constants
    &&& (r is Err ==> post == pre)
    &&& (r matches Err(e) ==> e == (ContractError::InsufficientFunds {
        balance: pre.bal_of(account),
        required: amount,
    }))
    &&& (r matches Ok(resp) ==> burn_resp(resp, account, amount))
}

/// The TransferFrom transition. The allowance is checked strictly
/// before the balance, so when both fall short the reported error is
/// the allowance one. On success the allowance shrinks by exactly the
/// amount actually moved.
pub open spec fn transfer_from_spec(
    pre: Ledger,
    post: Ledger,
    spender: Seq<u8>,
    owner: Seq<u8>,
    recipient: Seq<u8>,
    amount: u128,
    r: Result<Response, ContractError>,
) -> bool {
    &&& post.wf()
    &&& (r is Ok <==> pre.allowance_of(owner, spender) >= amount && pre.bal_of(owner) >= amount)
    &&& (pre.allowance_of(owner, spender) < amount ==> r == Err::<Response, ContractError>(
        ContractError::InsufficientAllowance {
            allowance: pre.allowance_of(owner, spender),
            required: amount,
        },
    ))
    &&& (pre.allowance_of(owner, spender) >= amount && pre.bal_of(owner) < amount ==> r
        == Err::<Response, ContractError>(ContractError::InsufficientFunds {
        balance: pre.bal_of(owner),
        required: amount,
    }))
    &&& (r is Err ==> post == pre)
    &&& (r is Ok ==> moved(pre, post, owner, recipient, amount))
    &&& (r is Ok ==> allowance_set(
        pre,
        post,
        owner,
        spender,
        (pre.allowance_of(owner, spender) - amount) as u128,
    ))
    &&& post.total_supply == pre.total_supply
    &&& post.constants == pre.constants
    &&& (r matches Ok(resp) ==> transfer_from_resp(resp, spender, owner, recipient))
}

/// The MintInbound transition: succeeds iff the caller's canonical
/// external-chain identity equals the configured paired contract; then
/// `amount` of new supply is credited to `recipient`. Any other caller
/// fails with its own address reported, and nothing changes.
pub open spec fn mint_spec(
    pre: Ledger,
    post: Ledger,
    sender: Seq<u8>,
    recipient: Seq<u8>,
    amount: u128,
    r: Result<Response, ContractError>,
) -> bool {
    &&& post.wf()
    &&& (r is Ok <==> authorized_minter(sender, pre.constants.contract@))
    &&& (r is Ok ==> credited(pre, post, recipient, amount))
    &&& (r is Ok ==> post.total_supply == pre.total_supply + amount)
    &&& (r is Ok ==> allowances_unchanged(pre, post))
    &&& post.constants == pre.constants
    &&& (r is Err ==> post == pre)
    &&& (r matches Err(e) ==> e matches ContractError::InvalidSender { address } && address@
        == sender)
    &&& (r matches Ok(resp) ==> mint_resp(resp, sender, recipient, amount))
}

/// The BridgeOut transition: the recipient must look like an external
/// address and the caller's balance must cover the amount; then the
/// amount is burnt here and exactly one outbound instruction asks the
/// external chain to release it.
pub open spec fn bridge_out_spec(
    pre: Ledger,
    post: Ledger,
    self_addr: Seq<u8>,
    sender: Seq<u8>,
    recipient: Seq<u8>,
    amount: u128,
    r: Result<Response, ContractError>,
) -> bool {
    &&& post.wf()
    &&& (r is Ok <==> valid_eth_address(recipient) && pre.bal_of(sender) >= amount)
    &&& (!valid_eth_address(recipient) ==> (r matches Err(e) && e matches
        ContractError::InvalidRecipient { address } && address@ == recipient))
    &&& (valid_eth_address(recipient) && pre.bal_of(sender) < amount ==> r == Err::<
        Response,
        ContractError,
    >(ContractError::InsufficientFunds { balance: pre.bal_of(sender), required: amount }))
    &&& (r is Err ==> post == pre)
    &&& (r is Ok ==> debited(pre, post, sender, amount))
    &&& (r is Ok ==> post.total_supply == pre.total_supply - amount)
    &&& (r is Ok ==> allowances_unchanged(pre, post))
    &&& post.constants == pre.constants
    &&& (r matches Ok(resp) ==> bridge_resp(
        resp,
        self_addr,
        pre.constants.contract@,
        recipient,
        amount,
    ))
}

/// Creates the ledger for a new token: metadata checked (name first,
/// then symbol, then decimals), no balances, no allowances, zero supply.
pub fn instantiate(name: Vec<u8>, symbol: Vec<u8>, decimals: u8, contract: Vec<u8>) -> (r: Result<
    Ledger,
    ContractError,
>)
    ensures
        r is Ok <==> valid_name(name@) && valid_symbol(symbol@) && valid_decimals(decimals),
        (r matches Ok(l) ==> {
            &&& l.wf()
            &&& l.total_supply == 0
            &&& (forall|k: Seq<u8>| l.bal_of(k) == 0)
            &&& (forall|o: Seq<u8>, sp: Seq<u8>| l.allowance_of(o, sp) == 0)
            &&& l.constants.name@ == name@
            &&& l.constants.symbol@ == symbol@
            &&& l.constants.decimals == decimals
            &&& l.constants.contract@ == contract@
        }),
        !valid_name(name@) ==> (r matches Err(e) && e is NameWrongFormat),
        valid_name(name@) && !valid_symbol(symbol@) ==> (r matches Err(e) && e is
            TickerWrongSymbolFormat),
        valid_name(name@) && valid_symbol(symbol@) && !valid_decimals(decimals) ==> (r matches
            Err(e) && e is DecimalsExceeded),
{
    if !is_valid_name(name.as_slice()) {
        return Err(ContractError::NameWrongFormat);
    }
    if !is_valid_symbol(symbol.as_slice()) {
        return Err(ContractError::TickerWrongSymbolFormat);
    }
    if !validate_decimals(decimals) {
        return Err(ContractError::DecimalsExceeded);
    }
    let l = Ledger {
        constants: Constants { name, symbol, decimals, contract },
        total_supply: 0,
        balances: Vec::new(),
        allowances: Vec::new(),
    };
    Ok(l)
}

/// Approve: set the caller's allowance for `spender` to `amount`.
pub fn try_approve(l: &mut Ledger, info: &MessageInfo, spender: &[u8], amount: u128) -> (r: Result<
    Response,
    ContractError,
>)
    requires
        old(l).wf(),
    ensures
        approve_spec(*old(l), *final(l), info.sender@, spender@, amount, r),
{
    l.write_allowance(info.sender.as_slice(), spender, amount);
    let mut attributes: Vec<Attribute> = Vec::new();
    attributes.push(
        Attribute { key: AttrKey::Action, value: AttrValue::Action(ActionTag::Approve) },
    );
    attributes.push(
        Attribute {
            key: AttrKey::Owner,
            value: AttrValue::Addr(copy_bytes(info.sender.as_slice())),
        },
    );
    attributes.push(Attribute { key: AttrKey::Spender, value: AttrValue::Addr(copy_bytes(spender)) });
    Ok(Response { attributes, messages: Vec::new() })
}

/// Transfer: move `amount` from the caller to `recipient`. A zero
/// amount always succeeds and leaves every balance unchanged, whatever
/// the caller holds.
pub fn try_transfer(l: &mut Ledger, info: &MessageInfo, recipient: &[u8], amount: u128) -> (r:
    Result<Response, ContractError>)
    requires
        old(l).wf(),
    ensures
        transfer_spec(*old(l), *final(l), info.sender@, recipient@, amount, r),
        amount == 0 ==> r is Ok && balances_unchanged(*old(l), *final(l)),
{
    match perform_transfer(l, info.sender.as_slice(), recipient, amount) {
        Ok(_) => {},
        Err(e) => {
            return Err(e);
        },
    }
    let mut attributes: Vec<Attribute> = Vec::new();
    attributes.push(
        Attribute { key: AttrKey::Action, value: AttrValue::Action(ActionTag::Transfer) },
    );
    attributes.push(
        Attribute {
            key: AttrKey::Sender,
            value: AttrValue::Addr(copy_bytes(info.sender.as_slice())),
        },
    );
    attributes.push(
        Attribute { key: AttrKey::Recipient, value: AttrValue::Addr(copy_bytes(recipient)) },
    );
    Ok(Response { attributes, messages: Vec::new() })
}

/// Burn: destroy `amount` of the caller's balance and of the supply.
pub fn try_burn(l: &mut Ledger, info: &MessageInfo, amount: u128) -> (r: Result<
    Response,
    ContractError,
>)
    requires
        old(l).wf(),
    ensures
        burn_spec(*old(l), *final(l), info.sender@, amount, r),
{
    match l.debit(info.sender.as_slice(), amount) {
        Ok(_) => {},
        Err(e) => {
            return Err(e);
        },
    }
    let mut attributes: Vec<Attribute> = Vec::new();
    attributes.push(Attribute { key: AttrKey::Action, value: AttrValue::Action(ActionTag::Burn) });
    attributes.push(
        Attribute {
            key: AttrKey::Account,
            value: AttrValue::Addr(copy_bytes(info.sender.as_slice())),
        },
    );
    attributes.push(Attribute { key: AttrKey::Amount, value: AttrValue::Amount(amount) });
    Ok(Response { attributes, messages: Vec::new() })
}

/// TransferFrom: the caller spends `owner`'s allowance to move `amount`
/// to `recipient`. The allowance is checked before the balance; every
/// check precedes every write, so a failure mutates nothing.
pub fn try_transfer_from(
    l: &mut Ledger,
    info: &MessageInfo,
    owner: &[u8],
    recipient: &[u8],
    amount: u128,
) -> (r: Result<Response, ContractError>)
    requires
        old(l).wf(),
    ensures
        transfer_from_spec(*old(l), *final(l), info.sender@, owner@, recipient@, amount, r),
{
    let allowance = l.read_allowance(owner, info.sender.as_slice());
    if allowance < amount {
        return Err(ContractError::InsufficientAllowance { allowance, required: amount });
    }
    let balance = l.read_balance(owner);
    if balance < amount {
        return Err(ContractError::InsufficientFunds { balance, required: amount });
    }
    l.write_allowance(owner, info.sender.as_slice(), allowance - amount);
    let moved_result = perform_transfer(l, owner, recipient, amount);
    match moved_result {
        Ok(_) => {},
        Err(e) => {
            return Err(e);
        },
    }
    let mut attributes: Vec<Attribute> = Vec::new();
    attributes.push(
        Attribute { key: AttrKey::Action, value: AttrValue::Action(ActionTag::TransferFrom) },
    );
    attributes.push(
        Attribute {
            key: AttrKey::Spender,
            value: AttrValue::Addr(copy_bytes(info.sender.as_slice())),
        },
    );
    attributes.push(Attribute { key: AttrKey::Sender, value: AttrValue::Addr(copy_bytes(owner)) });
    attributes.push(
        Attribute { key: AttrKey::Recipient, value: AttrValue::Addr(copy_bytes(recipient)) },
    );
    Ok(Response { attributes, messages: Vec::new() })
}

/// MintInbound: create `amount` of supply for `recipient`, allowed only
/// to the caller whose canonical identity is the paired external
/// contract. The supply is bounded by 128 bits; the caller must rule an
/// overflow out beforehand, as it signals a defect upstream.
pub fn try_mint_cw20(l: &mut Ledger, info: &MessageInfo, recipient: &[u8], amount: u128) -> (r:
    Result<Response, ContractError>)
    requires
        old(l).wf(),
        old(l).total_supply + amount <= u128::MAX,
    ensures
        mint_spec(*old(l), *final(l), info.sender@, recipient@, amount, r),
{
    let authorized = is_authorized_minter(info.sender.as_slice(), l.constants.contract.as_slice());
    if !authorized {
        return Err(
            ContractError::InvalidSender { address: copy_bytes(info.sender.as_slice()) },
        );
    }
    l.credit(recipient, amount);
    let mut attributes: Vec<Attribute> = Vec::new();
    attributes.push(Attribute { key: AttrKey::Action, value: AttrValue::Action(ActionTag::Mint) });
    attributes.push(
        Attribute { key: AttrKey::Account, value: AttrValue::Addr(copy_bytes(recipient)) },
    );
    attributes.push(
        Attribute {
            key: AttrKey::Sender,
            value: AttrValue::Addr(copy_bytes(info.sender.as_slice())),
        },
    );
    attributes.push(Attribute { key: AttrKey::Amount, value: AttrValue::Amount(amount) });
    Ok(Response { attributes, messages: Vec::new() })
}

/// BridgeOut: burn `amount` of the caller's balance and emit one
/// instruction asking the external chain to release it to `recipient`,
/// which must be a well-formed external address.
pub fn try_send_to_erc20(
    l: &mut Ledger,
    env: &Env,
    info: &MessageInfo,
    recipient: &[u8],
    amount: u128,
) -> (r: Result<Response, ContractError>)
    requires
        old(l).wf(),
    ensures
        bridge_out_spec(
            *old(l),
            *final(l),
            env.contract_address@,
            info.sender@,
            recipient@,
            amount,
            r,
        ),
{
    if !is_valid_eth_address(recipient) {
        return Err(ContractError::InvalidRecipient { address: copy_bytes(recipient) });
    }
    match l.debit(info.sender.as_slice(), amount) {
        Ok(_) => {},
        Err(e) => {
            return Err(e);
        },
    }
    let message = SendToEvmMsg {
        sender: copy_bytes(env.contract_address.as_slice()),
        contract: copy_bytes(l.constants.contract.as_slice()),
        recipient: copy_bytes(recipient),
        amount,
    };
    let mut messages: Vec<SendToEvmMsg> = Vec::new();
    messages.push(message);
    let mut attributes: Vec<Attribute> = Vec::new();
    attributes.push(
        Attribute { key: AttrKey::Action, value: AttrValue::Action(ActionTag::CallEvm) },
    );
    attributes.push(Attribute { key: AttrKey::Amount, value: AttrValue::Amount(amount) });
    Ok(Response { attributes, messages })
}

/// Applies exactly one decoded transition to the ledger. A failure of
/// any kind leaves the ledger exactly as it was; the host commits or
/// discards the whole call on top of that.
pub fn execute(l: &mut Ledger, env: &Env, info: &MessageInfo, msg: ExecuteMsg) -> (r: Result<
    Response,
    ContractError,
>)
    requires
        old(l).wf(),
        (msg matches ExecuteMsg::MintCW20 { amount, .. } ==> old(l).total_supply + amount
            <= u128::MAX),
    ensures
        final(l).wf(),
        r is Err ==> *final(l) == *old(l),
        (msg matches ExecuteMsg::Approve { spender, amount } ==> approve_spec(
            *old(l),
            *final(l),
            info.sender@,
            spender@,
            amount,
            r,
        )),
        (msg matches ExecuteMsg::Transfer { recipient, amount } ==> transfer_spec(
            *old(l),
            *final(l),
            info.sender@,
            recipient@,
            amount,
            r,
        )),
        (msg matches ExecuteMsg::Burn { amount } ==> burn_spec(
            *old(l),
            *final(l),
            info.sender@,
            amount,
            r,
        )),
        (msg matches ExecuteMsg::MintCW20 { recipient, amount } ==> mint_spec(
            *old(l),
            *final(l),
            info.sender@,
            recipient@,
            amount,
            r,
        )),
        (msg matches ExecuteMsg::TransferFrom { owner, recipient, amount } ==> transfer_from_spec(
            *old(l),
            *final(l),
            info.sender@,
            owner@,
            recipient@,
            amount,
            r,
        )),
        (msg matches ExecuteMsg::SendToEvm { recipient, amount } ==> bridge_out_spec(
            *old(l),
            *final(l),
            env.contract_address@,
            info.sender@,
            recipient@,
            amount,
            r,
        )),
{
    match msg {
        ExecuteMsg::Approve { spender, amount } => try_approve(l, info, spender.as_slice(), amount),
        ExecuteMsg::Transfer { recipient, amount } => try_transfer(
            l,
            info,
            recipient.as_slice(),
            amount,
        ),
        ExecuteMsg::Burn { amount } => try_burn(l, info, amount),
        ExecuteMsg::MintCW20 { recipient, amount } => try_mint_cw20(
            l,
            info,
            recipient.as_slice(),
            amount,
        ),
        ExecuteMsg::TransferFrom { owner, recipient, amount } => try_transfer_from(
            l,
            info,
            owner.as_slice(),
            recipient.as_slice(),
            amount,
        ),
        ExecuteMsg::SendToEvm { recipient, amount } => try_send_to_erc20(
            l,
            env,
            info,
            recipient.as_slice(),
            amount,
        ),
    }
}

/// Answers a read-only query; unknown addresses and pairs read as zero.
pub fn query(l: &Ledger, msg: QueryMsg) -> (r: QueryAnswer)
    requires
        l.wf(),
    ensures
        (msg matches QueryMsg::Balance { address } ==> r == (QueryAnswer::Balance(
            BalanceResponse { balance: l.bal_of(address@) },
        ))),
        (msg matches QueryMsg::Allowance { owner, spender } ==> r == (QueryAnswer::Allowance(
            AllowanceResponse { allowance: l.allowance_of(owner@, spender@) },
        ))),
{
    match msg {
        QueryMsg::Balance { address } => QueryAnswer::Balance(
            BalanceResponse { balance: l.read_balance(address.as_slice()) },
        ),
        QueryMsg::Allowance { owner, spender } => QueryAnswer::Allowance(
            AllowanceResponse { allowance: l.read_allowance(owner.as_slice(), spender.as_slice()) },
        ),
    }
}

} // verus!
