use bridge_erc20::{execute, instantiate, Constants, ContractError, Env, ExecuteMsg, Ledger,
    MessageInfo};

fn b(s: &str) -> Vec<u8> {
    s.as_bytes().to_vec()
}

fn env() -> Env {
    Env { contract_address: b("cosmos2contract") }
}

fn info(sender: &str) -> MessageInfo {
    MessageInfo { sender: b(sender) }
}

fn get_balance(l: &Ledger, addr: &str) -> u128 {
    l.read_balance(addr.as_bytes())
}

const EVM_CONTRACT: &str = "0xcd38b80aee05cad65571b7564bd110fdf2990de6";
const RELAYER: &str = "ex1e5utszhwqh9dv4t3katyh5gslhefjr0xmlcyyr";

#[test]
fn works() {
    let ledger = instantiate(b("Cash Token"), b("CASH"), 9, b("abc")).unwrap();
    assert_eq!(
        ledger.constants,
        Constants {
            name: b("Cash Token"),
            symbol: b("CASH"),
            decimals: 9,
            contract: b("abc"),
        }
    );
    assert_eq!(get_balance(&ledger, "addr0000"), 0);
    assert_eq!(ledger.total_supply, 0);
}

#[test]
fn works_with_empty_balance() {
    let ledger = instantiate(b("Cash Token"), b("CASH"), 9, b("abc")).unwrap();
    assert_eq!(ledger.total_supply, 0);
}

#[test]
fn works_with_balance_larger_than_53_bit() {
    let mut ledger = instantiate(b("Cash Token"), b("CASH"), 9, b(EVM_CONTRACT)).unwrap();
    let mint_msg = ExecuteMsg::MintCW20 {
        recipient: b("addr0000"),
        amount: 9007199254740993u128,
    };
    execute(&mut ledger, &env(), &info(RELAYER), mint_msg).unwrap();
    assert_eq!(get_balance(&ledger, "addr0000"), 9007199254740993);
    assert_eq!(ledger.total_supply, 9007199254740993);
}

#[test]
fn works_with_balance_larger_than_64_bit() {
    let mut ledger = instantiate(b("Cash Token"), b("CASH"), 9, b(EVM_CONTRACT)).unwrap();
    let mint_msg = ExecuteMsg::MintCW20 {
        recipient: b("addr0000"),
        amount: 100000000000000000000000000u128,
    };
    execute(&mut ledger, &env(), &info(RELAYER), mint_msg).unwrap();
    assert_eq!(get_balance(&ledger, "addr0000"), 100000000000000000000000000);
    assert_eq!(ledger.total_supply, 100000000000000000000000000);
}

#[test]
fn fails_for_large_decimals() {
    let result = instantiate(b("Cash Token"), b("CASH"), 42, b("abc"));
    match result {
        Ok(_) => panic!("expected error"),
        Err(ContractError::DecimalsExceeded) => {}
        Err(e) => panic!("unexpected error: {:?}", e),
    }
}

#[test]
fn fails_for_name_too_short() {
    let result = instantiate(b("CC"), b("CASH"), 9, b("abc"));
    match result {
        Ok(_) => panic!("expected error"),
        Err(ContractError::NameWrongFormat) => {}
        Err(e) => panic!("unexpected error: {:?}", e),
    }
}

#[test]
fn fails_for_name_too_long() {
    let result = instantiate(
        b("Cash coin. Cash coin. Cash coin. Cash coin."),
        b("CASH"),
        9,
        b("abc"),
    );
    match result {
        Ok(_) => panic!("expected error"),
        Err(ContractError::NameWrongFormat) => {}
        Err(e) => panic!("unexpected error: {:?}", e),
    }
}

#[test]
fn fails_for_symbol_too_short() {
    let result = instantiate(b("De De"), b("DD"), 9, b("abc"));
    match result {
        Ok(_) => panic!("expected error"),
        Err(ContractError::TickerWrongSymbolFormat) => {}
        Err(e) => panic!("unexpected error: {:?}", e),
    }
}

#[test]
fn fails_for_symbol_too_long() {
    let result = instantiate(b("Super Coin"), b("SUPERCOIN"), 9, b("abc"));
    match result {
        Ok(_) => panic!("expected error"),
        Err(ContractError::TickerWrongSymbolFormat) => {}
        Err(e) => panic!("unexpected error: {:?}", e),
    }
}

#[test]
fn fails_for_symbol_lowercase() {
    let result = instantiate(b("Cash Token"), b("CaSH"), 9, b("abc"));
    match result {
        Ok(_) => panic!("expected error"),
        Err(ContractError::TickerWrongSymbolFormat) => {}
        Err(e) => panic!("unexpected error: {:?}", e),
    }
}
