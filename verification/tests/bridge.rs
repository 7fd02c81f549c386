use bridge_erc20::{execute, instantiate, is_authorized_minter, ActionTag, AttrKey, AttrValue,
    Attribute, ContractError, Env, ExecuteMsg, Ledger, MessageInfo};

fn b(s: &str) -> Vec<u8> {
    s.as_bytes().to_vec()
}

fn env() -> Env {
    Env { contract_address: b("cosmos2contract") }
}

fn info(sender: &str) -> MessageInfo {
    MessageInfo { sender: b(sender) }
}

fn get_balance(l: &Ledger, addr: &str) -> u128 {
    l.read_balance(addr.as_bytes())
}

fn action_attr(tag: ActionTag) -> Attribute {
    Attribute { key: AttrKey::Action, value: AttrValue::Action(tag) }
}

fn addr_attr(key: AttrKey, addr: &str) -> Attribute {
    Attribute { key, value: AttrValue::Addr(b(addr)) }
}

fn amount_attr(amount: u128) -> Attribute {
    Attribute { key: AttrKey::Amount, value: AttrValue::Amount(amount) }
}

const EVM_CONTRACT: &str = "0xcd38b80aee05cad65571b7564bd110fdf2990de6";
const RELAYER: &str = "ex1e5utszhwqh9dv4t3katyh5gslhefjr0xmlcyyr";

fn make_bridged_ledger() -> Ledger {
    instantiate(b("Cash Token"), b("CASH"), 9, b(EVM_CONTRACT)).unwrap()
}

#[test]
fn contract_can_same() {
    let mut ledger = make_bridged_ledger();
    let mint_msg = ExecuteMsg::MintCW20 { recipient: b("addr111"), amount: 100 };
    let mint_result = execute(&mut ledger, &env(), &info(RELAYER), mint_msg).unwrap();
    assert_eq!(mint_result.messages.len(), 0);
    assert_eq!(
        mint_result.attributes,
        vec![
            action_attr(ActionTag::Mint),
            addr_attr(AttrKey::Account, "addr111"),
            addr_attr(AttrKey::Sender, RELAYER),
            amount_attr(100),
        ]
    );
    assert_eq!(get_balance(&ledger, "addr111"), 100);
    assert_eq!(ledger.total_supply, 100);
}

#[test]
fn relayer_identity_decides_authorization() {
    // The canonical identity of the relayer address is exactly the
    // configured external contract; anything else is refused.
    assert!(is_authorized_minter(RELAYER.as_bytes(), EVM_CONTRACT.as_bytes()));
    assert!(!is_authorized_minter(b"addr0000", EVM_CONTRACT.as_bytes()));
    assert!(!is_authorized_minter(RELAYER.as_bytes(), b"0xffffffffffffffffffffffffffffffffffffffff"));
    assert!(!is_authorized_minter(RELAYER.as_bytes(), b"abc"));
}

#[test]
fn mint_fails_for_non_relayer() {
    let mut ledger = make_bridged_ledger();
    let mint_msg = ExecuteMsg::MintCW20 { recipient: b("addr1111"), amount: 1 };
    let mint_result = execute(&mut ledger, &env(), &info("addr0000"), mint_msg);
    match mint_result {
        Ok(_) => panic!("expected error"),
        Err(ContractError::InvalidSender { address }) => assert_eq!(address, b("addr0000")),
        Err(e) => panic!("unexpected error: {:?}", e),
    }
    assert_eq!(ledger.total_supply, 0);
    assert_eq!(get_balance(&ledger, "addr1111"), 0);
}

#[test]
fn bridge_out_burns_and_emits_one_instruction() {
    let mut ledger = make_bridged_ledger();
    let mint_msg = ExecuteMsg::MintCW20 { recipient: b("addr1111"), amount: 100 };
    execute(&mut ledger, &env(), &info(RELAYER), mint_msg).unwrap();
    let recipient = "0xabcdefabcdefabcdefabcdefabcdefabcdefabcd";
    let send_msg = ExecuteMsg::SendToEvm { recipient: b(recipient), amount: 100 };
    let send_result = execute(&mut ledger, &env(), &info("addr1111"), send_msg).unwrap();
    assert_eq!(send_result.messages.len(), 1);
    assert_eq!(send_result.messages[0].sender, b("cosmos2contract"));
    assert_eq!(send_result.messages[0].contract, b(EVM_CONTRACT));
    assert_eq!(send_result.messages[0].recipient, b(recipient));
    assert_eq!(send_result.messages[0].amount, 100);
    assert_eq!(
        send_result.attributes,
        vec![action_attr(ActionTag::CallEvm), amount_attr(100)]
    );
    assert_eq!(get_balance(&ledger, "addr1111"), 0);
    assert_eq!(ledger.total_supply, 0);
}

#[test]
fn bridge_out_rejects_malformed_recipient() {
    let mut ledger = make_bridged_ledger();
    let mint_msg = ExecuteMsg::MintCW20 { recipient: b("addr1111"), amount: 100 };
    execute(&mut ledger, &env(), &info(RELAYER), mint_msg).unwrap();
    // Too short to be an external address: rejected before any mutation.
    let send_msg = ExecuteMsg::SendToEvm { recipient: b("0x1234"), amount: 100 };
    let send_result = execute(&mut ledger, &env(), &info("addr1111"), send_msg);
    match send_result {
        Ok(_) => panic!("expected error"),
        Err(ContractError::InvalidRecipient { address }) => assert_eq!(address, b("0x1234")),
        Err(e) => panic!("unexpected error: {:?}", e),
    }
    assert_eq!(get_balance(&ledger, "addr1111"), 100);
    assert_eq!(ledger.total_supply, 100);
}

#[test]
fn bridge_out_fails_on_insufficient_balance() {
    let mut ledger = make_bridged_ledger();
    let recipient = "0xabcdefabcdefabcdefabcdefabcdefabcdefabcd";
    let send_msg = ExecuteMsg::SendToEvm { recipient: b(recipient), amount: 7 };
    let send_result = execute(&mut ledger, &env(), &info("addr1111"), send_msg);
    match send_result {
        Ok(_) => panic!("expected error"),
        Err(ContractError::InsufficientFunds { balance: 0, required: 7 }) => {}
        Err(e) => panic!("unexpected error: {:?}", e),
    }
    assert_eq!(ledger.total_supply, 0);
}

#[test]
fn supply_stays_the_sum_of_balances() {
    // Conservation through a whole mint / transfer / burn / bridge-out
    // history: the supply always equals the sum of the balances read back.
    let mut ledger = make_bridged_ledger();
    let mint_msg = ExecuteMsg::MintCW20 { recipient: b("addr1111"), amount: 1000 };
    execute(&mut ledger, &env(), &info(RELAYER), mint_msg).unwrap();
    let transfer_msg = ExecuteMsg::Transfer { recipient: b("addr2222"), amount: 400 };
    execute(&mut ledger, &env(), &info("addr1111"), transfer_msg).unwrap();
    assert_eq!(
        ledger.total_supply,
        get_balance(&ledger, "addr1111") + get_balance(&ledger, "addr2222")
    );
    let burn_msg = ExecuteMsg::Burn { amount: 150 };
    execute(&mut ledger, &env(), &info("addr2222"), burn_msg).unwrap();
    assert_eq!(get_balance(&ledger, "addr2222"), 250);
    assert_eq!(ledger.total_supply, 850);
    let send_msg = ExecuteMsg::SendToEvm {
        recipient: b("0xabcdefabcdefabcdefabcdefabcdefabcdefabcd"),
        amount: 600,
    };
    execute(&mut ledger, &env(), &info("addr1111"), send_msg).unwrap();
    assert_eq!(get_balance(&ledger, "addr1111"), 0);
    assert_eq!(
        ledger.total_supply,
        get_balance(&ledger, "addr1111") + get_balance(&ledger, "addr2222")
    );
    assert_eq!(ledger.total_supply, 250);
}
