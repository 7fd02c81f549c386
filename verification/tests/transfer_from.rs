use bridge_erc20::{execute, instantiate, ActionTag, AttrKey, AttrValue, Attribute,
    ContractError, Env, ExecuteMsg, Ledger, MessageInfo};

fn b(s: &str) -> Vec<u8> {
    s.as_bytes().to_vec()
}

fn env() -> Env {
    Env { contract_address: b("cosmos2contract") }
}

fn info(sender: &str) -> MessageInfo {
    MessageInfo { sender: b(sender) }
}

fn get_balance(l: &Ledger, addr: &str) -> u128 {
    l.read_balance(addr.as_bytes())
}

fn get_allowance(l: &Ledger, owner: &str, spender: &str) -> u128 {
    l.read_allowance(owner.as_bytes(), spender.as_bytes())
}

fn action_attr(tag: ActionTag) -> Attribute {
    Attribute { key: AttrKey::Action, value: AttrValue::Action(tag) }
}

fn addr_attr(key: AttrKey, addr: &str) -> Attribute {
    Attribute { key, value: AttrValue::Addr(b(addr)) }
}

fn make_ledger() -> Ledger {
    instantiate(b("Cash Token"), b("CASH"), 9, b("abc")).unwrap()
}

fn spender() -> &'static str {
    "dadadadadadadada"
}

#[test]
fn contract_works() {
    let mut ledger = make_ledger();
    let owner = "addr0000";
    let recipient = "addr1212";
    // Set approval
    let approve_msg = ExecuteMsg::Approve { spender: b(spender()), amount: 4 };
    let approve_result = execute(&mut ledger, &env(), &info(owner), approve_msg).unwrap();
    assert_eq!(approve_result.messages.len(), 0);
    assert_eq!(
        approve_result.attributes,
        vec![
            action_attr(ActionTag::Approve),
            addr_attr(AttrKey::Owner, owner),
            addr_attr(AttrKey::Spender, spender()),
        ]
    );
    assert_eq!(get_balance(&ledger, owner), 0);
    assert_eq!(get_allowance(&ledger, owner, spender()), 4);
    // Zero-amount transfer-from within the allowance
    let transfer_from_msg = ExecuteMsg::TransferFrom {
        owner: b(owner),
        recipient: b(recipient),
        amount: 0,
    };
    let transfer_from_result =
        execute(&mut ledger, &env(), &info(spender()), transfer_from_msg).unwrap();
    assert_eq!(transfer_from_result.messages.len(), 0);
    assert_eq!(
        transfer_from_result.attributes,
        vec![
            action_attr(ActionTag::TransferFrom),
            addr_attr(AttrKey::Spender, spender()),
            addr_attr(AttrKey::Sender, owner),
            addr_attr(AttrKey::Recipient, recipient),
        ]
    );
    // State changed
    assert_eq!(get_balance(&ledger, owner), 0);
    assert_eq!(get_allowance(&ledger, owner, spender()), 4);
}

#[test]
fn fails_when_allowance_too_low() {
    let mut ledger = make_ledger();
    let owner = "addr0000";
    let recipient = "addr1212";
    // Set approval
    let approve_msg = ExecuteMsg::Approve { spender: b(spender()), amount: 2 };
    let approve_result = execute(&mut ledger, &env(), &info(owner), approve_msg).unwrap();
    assert_eq!(approve_result.messages.len(), 0);
    assert_eq!(
        approve_result.attributes,
        vec![
            action_attr(ActionTag::Approve),
            addr_attr(AttrKey::Owner, owner),
            addr_attr(AttrKey::Spender, spender()),
        ]
    );
    assert_eq!(get_balance(&ledger, owner), 0);
    assert_eq!(get_allowance(&ledger, owner, spender()), 2);
    // More than the allowance (and more than the balance: the allowance
    // error takes precedence)
    let transfer_from_msg = ExecuteMsg::TransferFrom {
        owner: b(owner),
        recipient: b(recipient),
        amount: 3,
    };
    let transfer_result = execute(&mut ledger, &env(), &info(spender()), transfer_from_msg);
    match transfer_result {
        Ok(_) => panic!("expected error"),
        Err(ContractError::InsufficientAllowance { allowance: 2, required: 3 }) => {}
        Err(e) => panic!("unexpected error: {:?}", e),
    }
}

#[test]
fn fails_when_allowance_is_set_but_balance_too_low() {
    let mut ledger = make_ledger();
    let owner = "addr0000";
    let recipient = "addr1212";
    // Set approval
    let approve_msg = ExecuteMsg::Approve { spender: b(spender()), amount: 100 };
    let approve_result = execute(&mut ledger, &env(), &info(owner), approve_msg).unwrap();
    assert_eq!(approve_result.messages.len(), 0);
    assert_eq!(
        approve_result.attributes,
        vec![
            action_attr(ActionTag::Approve),
            addr_attr(AttrKey::Owner, owner),
            addr_attr(AttrKey::Spender, spender()),
        ]
    );
    assert_eq!(get_balance(&ledger, owner), 0);
    assert_eq!(get_allowance(&ledger, owner, spender()), 100);
    // Within the allowance but more than the balance
    let transfer_from_msg = ExecuteMsg::TransferFrom {
        owner: b(owner),
        recipient: b(recipient),
        amount: 100,
    };
    let transfer_result = execute(&mut ledger, &env(), &info(spender()), transfer_from_msg);
    match transfer_result {
        Ok(_) => panic!("expected error"),
        Err(ContractError::InsufficientFunds { balance: 0, required: 100 }) => {}
        Err(e) => panic!("unexpected error: {:?}", e),
    }
    // The failure rolled nothing in: the allowance is still intact
    assert_eq!(get_allowance(&ledger, owner, spender()), 100);
}
