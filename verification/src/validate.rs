use vstd::prelude::*;

verus! {

/// A token name is acceptable iff it is 3 to 30 bytes long.
pub open spec fn valid_name(s: Seq<u8>) -> bool {
    3 <= s.len() <= 30
}

/// A ticker symbol is acceptable iff it is 3 to 6 bytes long and every
/// byte is an uppercase ASCII letter.
pub open spec fn valid_symbol(s: Seq<u8>) -> bool {
    &&& 3 <= s.len() <= 6
    &&& forall|i: int| 0 <= i < s.len() ==> 65 <= #[trigger] s[i] <= 90
}

/// Decimal precision is capped at 18.
pub open spec fn valid_decimals(d: u8) -> bool {
    d <= 18
}

/// An external-chain recipient in textual form: exactly 42 bytes,
/// beginning with `0x`.
pub open spec fn valid_eth_address(s: Seq<u8>) -> bool {
    s.len() == 42 && s[0] == 48 && s[1] == 120
}

/// A local-chain account in textual form: exactly 42 bytes, beginning
/// with `ex`.
pub open spec fn valid_wasm_address(s: Seq<u8>) -> bool {
    s.len() == 42 && s[0] == 101 && s[1] == 120
}

pub fn is_valid_name(name: &[u8]) -> (r: bool)
    ensures
        r == valid_name(name@),
{
    3 <= name.len() && name.len() <= 30
}

pub fn is_valid_symbol(symbol: &[u8]) -> (r: bool)
    ensures
        r == valid_symbol(symbol@),
{
    if symbol.len() < 3 || symbol.len() > 6 {
        return false;
    }
    let mut i: usize = 0;
    while i < symbol.len()
        invariant
            0 <= i <= symbol@.len() <= 6,
            forall|j: int| 0 <= j < i ==> 65 <= #[trigger] symbol@[j] <= 90,
        decreases symbol@.len() - i,
    {
        if symbol[i] < 65 || symbol[i] > 90 {
            return false;
        }
        i = i + 1;
    }
    true
}

pub fn validate_decimals(d: u8) -> (r: bool)
    ensures
        r == valid_decimals(d),
{
    d <= 18
}

pub fn is_valid_eth_address(input: &[u8]) -> (r: bool)
    ensures
        r == valid_eth_address(input@),
{
    input.len() == 42 && input[0] == 48 && input[1] == 120
}

pub fn is_valid_wasm_address(input: &[u8]) -> (r: bool)
    ensures
        r == valid_wasm_address(input@),
{
    input.len() == 42 && input[0] == 101 && input[1] == 120
}

} // verus!
