use vstd::prelude::*;
use vstd::slice::slice_subrange;

use crate::bytes::bytes_eq;

verus! {

/// A byte is an ASCII hexadecimal digit.
pub open spec fn is_hex_digit(b: u8) -> bool {
    (48 <= b <= 57) || (65 <= b <= 70) || (97 <= b <= 102)
}

/// The numeric value of an ASCII hexadecimal digit.
pub open spec fn hex_digit_val(b: u8) -> u8 {
    if 48 <= b <= 57 {
        (b - 48) as u8
    } else if 65 <= b <= 70 {
        (b - 55) as u8
    } else {
        (b - 87) as u8
    }
}

/// A well-formed hexadecimal string: even length, every byte a digit.
pub open spec fn is_hex_seq(s: Seq<u8>) -> bool {
    s.len() % 2 == 0 && forall|i: int| 0 <= i < s.len() ==> is_hex_digit(#[trigger] s[i])
}

/// The bytes a hexadecimal string denotes, one byte per digit pair.
pub open spec fn hex_decoded(s: Seq<u8>) -> Seq<u8> {
    Seq::new(
        (s.len() / 2) as nat,
        |i: int| (hex_digit_val(s[2 * i]) * 16 + hex_digit_val(s[2 * i + 1])) as u8,
    )
}

/// Relies on hex::decode: it succeeds exactly on even-length strings of
/// hexadecimal digits (either case) and yields one byte per digit pair,
/// high digit first.
#[verifier::external_body]
fn hex_decode(data: &[u8]) -> (r: Option<Vec<u8>>)
    ensures
        (r matches Some(v) ==> is_hex_seq(data@) && v@ == hex_decoded(data@)),
        r is None ==> !is_hex_seq(data@),
{
    match hex::decode(data) {
        Ok(v) => Some(v),
        Err(_) => None,
    }
}

/// The data payload of a checksum-valid bech32 address, or nothing when
/// the bytes are not one. A function of the bytes alone.
pub uninterp spec fn bech32_payload(s: Seq<u8>) -> Option<Seq<u8>>;

/// Relies on bech32::decode and Vec::<u8>::from_base32: together they
/// yield the checksum-verified data payload of a bech32 address, a
/// result that depends on the input bytes alone.
#[verifier::external_body]
fn decode_bech32_payload(addr: &[u8]) -> (r: Option<Vec<u8>>)
    ensures
        (r matches Some(v) ==> bech32_payload(addr@) matches Some(p) && v@ == p),
        r is None ==> bech32_payload(addr@) is None,
{
    let s = match core::str::from_utf8(addr) {
        Ok(s) => s,
        Err(_) => return None,
    };
    let (_, data, _) = match bech32::decode(s) {
        Ok(t) => t,
        Err(_) => return None,
    };
    let bytes: Result<Vec<u8>, bech32::Error> = bech32::FromBase32::from_base32(&data);
    match bytes {
        Ok(v) => Some(v),
        Err(_) => None,
    }
}

/// The caller stands for the configured external contract: the caller's
/// bech32 payload must exist and equal the hex-decoded body of the
/// `0x`-prefixed contract identifier.
pub open spec fn authorized_minter(caller: Seq<u8>, contract: Seq<u8>) -> bool {
    &&& contract.len() >= 2
    &&& is_hex_seq(contract.skip(2))
    &&& bech32_payload(caller) == Some(hex_decoded(contract.skip(2)))
}

/// Decides whether `caller` is the one principal allowed to mint: its
/// canonical external-chain identity must equal the configured contract.
pub fn is_authorized_minter(caller: &[u8], contract: &[u8]) -> (r: bool)
    ensures
        r == authorized_minter(caller@, contract@),
{
    if contract.len() < 2 {
        return false;
    }
    let body = slice_subrange(contract, 2, contract.len());
    proof {
        assert(body@ =~= contract@.skip(2));
    }
    let decoded = match hex_decode(body) {
        Some(v) => v,
        None => {
            return false;
        },
    };
    let payload = match decode_bech32_payload(caller) {
        Some(v) => v,
        None => {
            return false;
        },
    };
    bytes_eq(payload.as_slice(), decoded.as_slice())
}

} // verus!
