use bridge_erc20::{execute, instantiate, ActionTag, AttrKey, AttrValue, Attribute,
    ContractError, Env, ExecuteMsg, Ledger, MessageInfo};

fn b(s: &str) -> Vec<u8> {
    s.as_bytes().to_vec()
}

fn env() -> Env {
    Env { contract_address: b("cosmos2contract") }
}

fn info(sender: &str) -> MessageInfo {
    MessageInfo { sender: b(sender) }
}

fn get_balance(l: &Ledger, addr: &str) -> u128 {
    l.read_balance(addr.as_bytes())
}

fn action_attr(tag: ActionTag) -> Attribute {
    Attribute { key: AttrKey::Action, value: AttrValue::Action(tag) }
}

fn addr_attr(key: AttrKey, addr: &str) -> Attribute {
    Attribute { key, value: AttrValue::Addr(b(addr)) }
}

fn amount_attr(amount: u128) -> Attribute {
    Attribute { key: AttrKey::Amount, value: AttrValue::Amount(amount) }
}

fn make_ledger() -> Ledger {
    instantiate(b("Cash Token"), b("CASH"), 9, b("abc")).unwrap()
}

#[test]
fn can_burn_zero_amount() {
    let mut ledger = make_ledger();
    // Initial state
    assert_eq!(get_balance(&ledger, "addr0000"), 0);
    assert_eq!(get_balance(&ledger, "addr1111"), 0);
    assert_eq!(ledger.total_supply, 0);
    // Burn
    let burn_msg = ExecuteMsg::Burn { amount: 0 };
    let burn_result = execute(&mut ledger, &env(), &info("addr0000"), burn_msg).unwrap();
    assert_eq!(burn_result.messages.len(), 0);
    assert_eq!(
        burn_result.attributes,
        vec![
            action_attr(ActionTag::Burn),
            addr_attr(AttrKey::Account, "addr0000"),
            amount_attr(0),
        ]
    );
    // New state (unchanged)
    assert_eq!(get_balance(&ledger, "addr0000"), 0);
    assert_eq!(get_balance(&ledger, "addr1111"), 0);
    assert_eq!(ledger.total_supply, 0);
}

#[test]
fn contract_fails_on_insufficient_balance() {
    let mut ledger = make_ledger();
    // Initial state
    assert_eq!(get_balance(&ledger, "addr0000"), 0);
    assert_eq!(get_balance(&ledger, "addr1111"), 0);
    assert_eq!(ledger.total_supply, 0);
    // Burn
    let burn_msg = ExecuteMsg::Burn { amount: 12 };
    let burn_result = execute(&mut ledger, &env(), &info("addr0000"), burn_msg);
    match burn_result {
        Ok(_) => panic!("expected error"),
        Err(ContractError::InsufficientFunds { balance: 0, required: 12 }) => {}
        Err(e) => panic!("unexpected error: {:?}", e),
    }
    // New state (unchanged)
    assert_eq!(get_balance(&ledger, "addr0000"), 0);
    assert_eq!(get_balance(&ledger, "addr1111"), 0);
    assert_eq!(ledger.total_supply, 0);
}
