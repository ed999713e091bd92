//! The pre-state of a test case as texts, and the accounts that the texts
//! stand for.

use std::str::FromStr;
use vstd::prelude::*;
use vstd::string::*;
use vstd::utf8::encode_utf8;
use crate::hexparse::{all_hex_digits, hex_bytes, number_in_radix};
use crate::primitives::{u256_value, Address, B256, U256};
use crate::text::{distinct_keys, same_text};

verus! {

/// An account, every value a text.
#[derive(Debug, Clone, PartialEq, Eq)]
pub struct SerializableAccount {
    /// Nonce of the account.
    pub nonce: String,
    /// Balance of the account.
    pub balance: String,
    /// Code of the account.
    pub code: String,
    /// Storage of the account, each slot at most once.
    pub storage: Vec<(String, String)>,
}

/// The accounts of a state by the texts of their addresses, each address
/// at most once.
#[derive(Debug, Clone, PartialEq, Eq)]
pub struct SerializableState {
    /// Address and account.
    pub accounts: Vec<(String, SerializableAccount)>,
}

impl SerializableAccount {
    /// The storage holds each slot at most once.
    pub open spec fn wf(self) -> bool {
        distinct_keys(self.storage@)
    }
}

impl SerializableState {
    /// Each address occurs at most once, and each account is well formed.
    pub open spec fn wf(self) -> bool {
        &&& distinct_keys(self.accounts@)
        &&& forall|i: int| 0 <= i < self.accounts@.len() ==> (#[trigger] self.accounts@[i]).1.wf()
    }
}

/// What the state holds of an account.
#[derive(Debug, Clone, PartialEq, Eq)]
pub struct AccountInfo {
    /// Balance of the account.
    pub balance: U256,
    /// Nonce of the account.
    pub nonce: u64,
    /// Code of the account.
    pub code: Vec<u8>,
    /// Hash of the code; zero while it is not computed.
    pub code_hash: B256,
}

/// Which text of an account stands for nothing.
#[derive(Debug, Clone, Copy, PartialEq, Eq)]
pub enum StateError {
    /// The address.
    InvalidAddress,
    /// The balance.
    InvalidBalance,
    /// The nonce.
    InvalidNonce,
    /// The code.
    InvalidCode,
}

/// An `AccountInfo` with its balance as a number and its code as a sequence.
pub struct AccountView {
    pub address: Seq<u8>,
    pub balance: nat,
    pub nonce: u64,
    pub code: Seq<u8>,
    pub code_hash: B256,
}

/// The hash that stands for "not computed".
pub const ZERO_HASH: B256 = [
    0, 0, 0, 0, 0, 0, 0, 0, 0, 0, 0, 0, 0, 0, 0, 0, 0, 0, 0, 0, 0, 0, 0, 0, 0, 0, 0, 0, 0, 0, 0, 0,
];

/// `s` without a leading `0x` or `0X`.
pub open spec fn strip_0x_any(s: Seq<u8>) -> Seq<u8> {
    if s.len() >= 2 && s[0] == 0x30 && (s[1] == 0x78 || s[1] == 0x58) {
        s.skip(2)
    } else {
        s
    }
}

/// The bytes that the hexadecimal text `s` stands for: an even number of
/// bytes in all, of which a leading `0x` or `0X` is passed over and the
/// others are digits.
pub open spec fn prefixed_hex(s: Seq<u8>) -> Option<Seq<u8>> {
    if s.len() % 2 == 0 && all_hex_digits(strip_0x_any(s)) {
        Some(hex_bytes(strip_0x_any(s)))
    } else {
        None
    }
}

/// The 20 bytes that the hexadecimal text `s` stands for.
pub open spec fn prefixed_address(s: Seq<u8>) -> Option<Seq<u8>> {
    match prefixed_hex(s) {
        Some(bytes) => if bytes.len() == 20 {
            Some(bytes)
        } else {
            None
        },
        None => None,
    }
}

/// The base that the first two bytes of a number text name: 16 after `0x`,
/// 8 after `0o`, 2 after `0b`, the letter in either case; `None` where they
/// name none and the text is decimal.
pub open spec fn named_radix(s: Seq<u8>) -> Option<nat> {
    if s.len() >= 2 && s[0] == 0x30 {
        if s[1] == 0x78 || s[1] == 0x58 {
            Some(16nat)
        } else if s[1] == 0x6f || s[1] == 0x4f {
            Some(8nat)
        } else if s[1] == 0x62 || s[1] == 0x42 {
            Some(2nat)
        } else {
            None
        }
    } else {
        None
    }
}

/// The number that the text `s` stands for as a 256-bit integer: digits of
/// the base that its first two bytes name, or decimal digits, with `_`
/// passed over. A text without digits stands for 0.
pub open spec fn u256_number(s: Seq<u8>) -> Option<nat> {
    let (radix, digits) = match named_radix(s) {
        Some(radix) => (radix, s.skip(2)),
        None => (10nat, s),
    };
    number_in_radix(digits, radix)
}

/// The code that the text `code` stands for: none for the empty text and
/// for `0x`, else the bytes of the hexadecimal text.
pub open spec fn code_of(code: Seq<char>) -> Option<Seq<u8>> {
    if code.len() == 0 || code == "0x"@ {
        Some(Seq::empty())
    } else {
        prefixed_hex(encode_utf8(code))
    }
}

/// The account that the texts `address` and `account` stand for, or the
/// first text that stands for nothing, in the order address, balance,
/// nonce, code. The nonce is the lowest 64 bits of its number.
pub open spec fn account_of(address: Seq<char>, account: SerializableAccount) -> Result<
    AccountView,
    StateError,
> {
    let at = prefixed_address(encode_utf8(address));
    let balance = u256_number(encode_utf8(account.balance@));
    let nonce = u256_number(encode_utf8(account.nonce@));
    let code = code_of(account.code@);
    if at is None {
        Err(StateError::InvalidAddress)
    } else if balance is None {
        Err(StateError::InvalidBalance)
    } else if nonce is None {
        Err(StateError::InvalidNonce)
    } else if code is None {
        Err(StateError::InvalidCode)
    } else {
        Ok(
            AccountView {
                address: at->0,
                balance: balance->0,
                nonce: (nonce->0 % 0x1_0000_0000_0000_0000) as u64,
                code: code->0,
                code_hash: ZERO_HASH,
            },
        )
    }
}

/// The view of the entry `entry` of a state.
pub open spec fn entry_view(entry: (Address, AccountInfo)) -> AccountView {
    AccountView {
        address: entry.0@,
        balance: u256_value(entry.1.balance),
        nonce: entry.1.nonce,
        code: entry.1.code@,
        code_hash: entry.1.code_hash,
    }
}

/// `i` is the position of the first account whose texts stand for nothing.
pub open spec fn first_bad_account(accounts: Seq<(String, SerializableAccount)>, i: int) -> bool {
    &&& 0 <= i < accounts.len()
    &&& account_of(accounts[i].0@, accounts[i].1) is Err
    &&& forall|j: int|
        0 <= j < i ==> account_of((#[trigger] accounts[j]).0@, accounts[j].1) is Ok
}

/// Calls `alloy_primitives::Address::from_str` and hands out the bytes of
/// the address. It reads 40 hexadecimal digits, in either case, behind an
/// optional `0x` or `0X`.
#[verifier::external_body]
pub(crate) fn address_from_str(s: &str) -> (r: Option<Address>)
    ensures
        match prefixed_address(s.spec_bytes()) {
            Some(bytes) => r matches Some(a) && a@ == bytes,
            None => r is None,
        },
{
    match alloy_primitives::Address::from_str(s) {
        Ok(a) => Some(a.into_array()),
        Err(_) => None,
    }
}

/// Calls `alloy_primitives::U256::from_str` and hands out the limbs of the
/// number. It reads digits of the base that a prefix `0x`, `0o` or `0b`
/// names, else decimal digits, passes over `_`, and fails on any other byte
/// and on a number that 256 bits do not hold.
#[verifier::external_body]
fn u256_from_str(s: &str) -> (r: Option<U256>)
    ensures
        match u256_number(s.spec_bytes()) {
            Some(n) => r matches Some(x) && u256_value(x) == n,
            None => r is None,
        },
{
    match alloy_primitives::U256::from_str(s) {
        Ok(x) => Some(x.into_limbs()),
        Err(_) => None,
    }
}

/// Calls `alloy_primitives::Bytes::from_str` and hands out the bytes. It
/// reads pairs of hexadecimal digits, in either case, behind an optional
/// `0x` or `0X`.
#[verifier::external_body]
fn bytes_from_str(s: &str) -> (r: Option<Vec<u8>>)
    ensures
        match prefixed_hex(s.spec_bytes()) {
            Some(bytes) => r matches Some(v) && v@ == bytes,
            None => r is None,
        },
{
    match alloy_primitives::Bytes::from_str(s) {
        Ok(bytes) => Some(bytes.to_vec()),
        Err(_) => None,
    }
}

/// The entry of a state that the texts `address` and `account` stand for.
pub fn account_entry(address: &str, account: &SerializableAccount) -> (r: Result<
    (Address, AccountInfo),
    StateError,
>)
    ensures
        match account_of(address@, *account) {
            Ok(view) => r matches Ok(entry) && entry_view(entry) == view,
            Err(e) => r == Err::<(Address, AccountInfo), StateError>(e),
        },
{
    let at = match address_from_str(address) {
        Some(a) => a,
        None => {
            return Err(StateError::InvalidAddress);
        },
    };
    let balance = match u256_from_str(account.balance.as_str()) {
        Some(x) => x,
        None => {
            return Err(StateError::InvalidBalance);
        },
    };
    let nonce = match u256_from_str(account.nonce.as_str()) {
        Some(x) => x[0],
        None => {
            return Err(StateError::InvalidNonce);
        },
    };
    let code = if account.code.as_str().is_empty() || same_text(account.code.as_str(), "0x") {
        Vec::new()
    } else {
        match bytes_from_str(account.code.as_str()) {
            Some(bytes) => bytes,
            None => {
                return Err(StateError::InvalidCode);
            },
        }
    };
    Ok((at, AccountInfo { balance, nonce, code, code_hash: ZERO_HASH }))
}

impl SerializableState {
    /// The entries of the state that the texts stand for, in the order of
    /// the accounts, or which text of the first account that stands for
    /// nothing is at fault.
    pub fn into_state(self) -> (r: Result<Vec<(Address, AccountInfo)>, StateError>)
        ensures
            r is Ok <==> forall|i: int|
                0 <= i < self.accounts@.len() ==> account_of(
                    (#[trigger] self.accounts@[i]).0@,
                    self.accounts@[i].1,
                ) is Ok,
            r matches Ok(entries) ==> entries@.len() == self.accounts@.len() && forall|i: int|
                0 <= i < entries@.len() ==> Ok::<AccountView, StateError>(
                    entry_view(#[trigger] entries@[i]),
                ) == account_of(self.accounts@[i].0@, self.accounts@[i].1),
            r matches Err(e) ==> exists|i: int|
                #[trigger] first_bad_account(self.accounts@, i) && Err::<AccountView, StateError>(e)
                    == account_of(self.accounts@[i].0@, self.accounts@[i].1),
    {
        let n = self.accounts.len();
        let mut entries: Vec<(Address, AccountInfo)> = Vec::new();
        let mut i: usize = 0;
        while i < n
            invariant
                i <= n,
                n == self.accounts@.len(),
                entries@.len() == i,
                forall|j: int|
                    0 <= j < i ==> account_of(
                        (#[trigger] self.accounts@[j]).0@,
                        self.accounts@[j].1,
                    ) is Ok,
                forall|j: int|
                    0 <= j < i ==> Ok::<AccountView, StateError>(entry_view(#[trigger] entries@[j]))
                        == account_of(self.accounts@[j].0@, self.accounts@[j].1),
            decreases n - i,
        {
            let pair = &self.accounts[i];
            match account_entry(pair.0.as_str(), &pair.1) {
                Ok(entry) => {
                    entries.push(entry);
                },
                Err(e) => {
                    assert(first_bad_account(self.accounts@, i as int));
                    return Err(e);
                },
            }
            i += 1;
        }
        Ok(entries)
    }
}

} // verus!
