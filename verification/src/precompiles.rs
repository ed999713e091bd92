//! Standard Ethereum precompile addresses.

use vstd::prelude::*;
use crate::primitives::Address;

verus! {

/// ECRECOVER precompile (0x01).
pub const ECRECOVER: Address = [0, 0, 0, 0, 0, 0, 0, 0, 0, 0, 0, 0, 0, 0, 0, 0, 0, 0, 0, 1];

/// SHA256 precompile (0x02).
pub const SHA256: Address = [0, 0, 0, 0, 0, 0, 0, 0, 0, 0, 0, 0, 0, 0, 0, 0, 0, 0, 0, 2];

/// RIPEMD160 precompile (0x03).
pub const RIPEMD160: Address = [0, 0, 0, 0, 0, 0, 0, 0, 0, 0, 0, 0, 0, 0, 0, 0, 0, 0, 0, 3];

/// Identity precompile (0x04).
pub const IDENTITY: Address = [0, 0, 0, 0, 0, 0, 0, 0, 0, 0, 0, 0, 0, 0, 0, 0, 0, 0, 0, 4];

/// MODEXP precompile (0x05).
pub const MODEXP: Address = [0, 0, 0, 0, 0, 0, 0, 0, 0, 0, 0, 0, 0, 0, 0, 0, 0, 0, 0, 5];

/// BN_ADD precompile (0x06).
pub const BN_ADD: Address = [0, 0, 0, 0, 0, 0, 0, 0, 0, 0, 0, 0, 0, 0, 0, 0, 0, 0, 0, 6];

/// BN_MUL precompile (0x07).
pub const BN_MUL: Address = [0, 0, 0, 0, 0, 0, 0, 0, 0, 0, 0, 0, 0, 0, 0, 0, 0, 0, 0, 7];

/// BN_PAIRING precompile (0x08).
pub const BN_PAIRING: Address = [0, 0, 0, 0, 0, 0, 0, 0, 0, 0, 0, 0, 0, 0, 0, 0, 0, 0, 0, 8];

/// BLAKE2F precompile (0x09).
pub const BLAKE2F: Address = [0, 0, 0, 0, 0, 0, 0, 0, 0, 0, 0, 0, 0, 0, 0, 0, 0, 0, 0, 9];

/// Point evaluation precompile (0x0a).
pub const POINT_EVALUATION: Address = [0, 0, 0, 0, 0, 0, 0, 0, 0, 0, 0, 0, 0, 0, 0, 0, 0, 0, 0, 10];

/// An address is a standard precompile iff its first 19 bytes are zero and
/// its last byte lies between 1 and 10.
pub open spec fn standard_precompile(address: Address) -> bool {
    &&& forall|i: int| 0 <= i < 19 ==> address[i] == 0
    &&& 1 <= address[19] <= 10
}

/// The name of the standard precompile at `address`, if it is one.
pub open spec fn precompile_name(address: Address) -> Option<Seq<char>> {
    if !standard_precompile(address) {
        None
    } else if address[19] == 1 {
        Some("ecrecover"@)
    } else if address[19] == 2 {
        Some("sha256"@)
    } else if address[19] == 3 {
        Some("ripemd160"@)
    } else if address[19] == 4 {
        Some("identity"@)
    } else if address[19] == 5 {
        Some("modexp"@)
    } else if address[19] == 6 {
        Some("bn_add"@)
    } else if address[19] == 7 {
        Some("bn_mul"@)
    } else if address[19] == 8 {
        Some("bn_pairing"@)
    } else if address[19] == 9 {
        Some("blake2f"@)
    } else {
        Some("point_evaluation"@)
    }
}

/// Check if an address is a standard precompile.
pub fn is_precompile(address: &Address) -> (b: bool)
    ensures
        b == standard_precompile(*address),
{
    let mut i: usize = 0;
    while i < 19
        invariant
            i <= 19,
            forall|k: int| 0 <= k < i ==> address[k] == 0,
        decreases 19 - i,
    {
        if address[i] != 0 {
            return false;
        }
        i += 1;
    }
    address[19] >= 1 && address[19] <= 10
}

/// Get the name of a precompile from its address.
pub fn name(address: &Address) -> (label: Option<&'static str>)
    ensures
        label is Some <==> standard_precompile(*address),
        label matches Some(s) ==> precompile_name(*address) == Some(s@),
{
    if !is_precompile(address) {
        return None;
    }
    let last: u8 = address[19];
    if last == 1 {
        Some("ecrecover")
    } else if last == 2 {
        Some("sha256")
    } else if last == 3 {
        Some("ripemd160")
    } else if last == 4 {
        Some("identity")
    } else if last == 5 {
        Some("modexp")
    } else if last == 6 {
        Some("bn_add")
    } else if last == 7 {
        Some("bn_mul")
    } else if last == 8 {
        Some("bn_pairing")
    } else if last == 9 {
        Some("blake2f")
    } else {
        Some("point_evaluation")
    }
}

} // verus!
