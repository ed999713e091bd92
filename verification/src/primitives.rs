//! Fixed-size values of the execution layer, as plain arrays.

use vstd::prelude::*;

verus! {

/// A 20-byte account address.
pub type Address = [u8; 20];

/// A 32-byte hash.
pub type B256 = [u8; 32];

/// A 256-bit unsigned integer as four 64-bit limbs, least significant first.
pub type U256 = [u64; 4];

/// The number that the limbs of `x` stand for.
pub open spec fn u256_value(x: U256) -> nat {
    (x[0] as nat) + (x[1] as nat) * 0x1_0000_0000_0000_0000 + (x[2] as nat)
        * 0x1_0000_0000_0000_0000_0000_0000_0000_0000 + (x[3] as nat)
        * 0x1_0000_0000_0000_0000_0000_0000_0000_0000_0000_0000_0000_0000
}

/// The 256-bit zero.
pub const U256_ZERO: U256 = [0, 0, 0, 0];

/// The address whose bytes are all zero.
pub const ADDRESS_ZERO: Address = [0, 0, 0, 0, 0, 0, 0, 0, 0, 0, 0, 0, 0, 0, 0, 0, 0, 0, 0, 0];

} // verus!
