use vstd::prelude::*;

use crate::error::ContractError;

verus! {

/// The unsigned value of a 16-byte big-endian word.
pub open spec fn u128_from_be(s: Seq<u8>) -> int
    recommends
        s.len() == 16,
{
    s[0] * 0x1000000000000000000000000000000
        + s[1] * 0x10000000000000000000000000000
        + s[2] * 0x100000000000000000000000000
        + s[3] * 0x1000000000000000000000000
        + s[4] * 0x10000000000000000000000
        + s[5] * 0x100000000000000000000
        + s[6] * 0x1000000000000000000
        + s[7] * 0x10000000000000000
        + s[8] * 0x100000000000000
        + s[9] * 0x1000000000000
        + s[10] * 0x10000000000
        + s[11] * 0x100000000
        + s[12] * 0x1000000
        + s[13] * 0x10000
        + s[14] * 0x100
        + s[15]
}

/// Decodes a stored 16-byte big-endian word.
///
/// Any other width is a corrupted-data condition: the value is reported
/// as such, never silently coerced.
pub fn bytes_to_u128(data: &[u8]) -> (r: Result<u128, ContractError>)
    ensures
        data@.len() == 16 ==> (r matches Ok(v) && v == u128_from_be(data@)),
        data@.len() != 16 ==> (r matches Err(e) && e is CorruptedDataFound),
{
    if data.len() != 16 {
        return Err(ContractError::CorruptedDataFound);
    }
    let v: u128 = (data[0] as u128) * 0x1000000000000000000000000000000u128
        + (data[1] as u128) * 0x10000000000000000000000000000u128
        + (data[2] as u128) * 0x100000000000000000000000000u128
        + (data[3] as u128) * 0x1000000000000000000000000u128
        + (data[4] as u128) * 0x10000000000000000000000u128
        + (data[5] as u128) * 0x100000000000000000000u128
        + (data[6] as u128) * 0x1000000000000000000u128
        + (data[7] as u128) * 0x10000000000000000u128
        + (data[8] as u128) * 0x100000000000000u128
        + (data[9] as u128) * 0x1000000000000u128
        + (data[10] as u128) * 0x10000000000u128
        + (data[11] as u128) * 0x100000000u128
        + (data[12] as u128) * 0x1000000u128
        + (data[13] as u128) * 0x10000u128
        + (data[14] as u128) * 0x100u128
        + (data[15] as u128);
    Ok(v)
}

} // verus!
