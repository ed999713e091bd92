//! Numbers, byte strings and addresses written in hexadecimal, stated over
//! the bytes of the text.

use vstd::prelude::*;
use vstd::string::*;
use vstd::utf8::{
    encode_utf8, encode_utf8_valid_utf8, is_char_boundary, length_of_first_scalar,
    pop_first_scalar, valid_utf8,
};
use crate::primitives::{u256_value, Address, U256};

verus! {

/// Why a hexadecimal text does not stand for a byte string.
#[derive(Debug, Clone, Copy, PartialEq, Eq)]
pub enum HexError {
    /// A byte of the text is no hexadecimal digit: the byte, as a character,
    /// and its position.
    InvalidHexCharacter { c: char, index: usize },
    /// The text has an odd number of bytes.
    OddLength,
    /// The text has not the length that the value asks for.
    InvalidStringLength,
}

/// Errors that can occur during test case processing.
#[derive(Debug, Clone, PartialEq, Eq)]
pub enum TestCaseError {
    /// JSON (de)serialization error.
    Serde(String),
    /// Error during file system I/O operations.
    Io(String),
    /// The text does not stand for a byte string.
    Hex(HexError),
    /// The text does not stand for a number; holds the text.
    InvalidHex(String),
}

/// A `TestCaseError` with the texts it holds as character sequences.
pub enum TestCaseErrorView {
    /// JSON (de)serialization error.
    Serde(Seq<char>),
    /// Error during file system I/O operations.
    Io(Seq<char>),
    /// The text does not stand for a byte string.
    Hex(HexError),
    /// The text does not stand for a number; holds the text.
    InvalidHex(Seq<char>),
}

impl View for TestCaseError {
    type V = TestCaseErrorView;

    open spec fn view(&self) -> TestCaseErrorView {
        match *self {
            TestCaseError::Serde(text) => TestCaseErrorView::Serde(text@),
            TestCaseError::Io(text) => TestCaseErrorView::Io(text@),
            TestCaseError::Hex(h) => TestCaseErrorView::Hex(h),
            TestCaseError::InvalidHex(text) => TestCaseErrorView::InvalidHex(text@),
        }
    }
}

/// `b` is one of `0`-`9`, `a`-`f`, `A`-`F`.
pub open spec fn is_hex_digit(b: u8) -> bool {
    (0x30 <= b <= 0x39) || (0x61 <= b <= 0x66) || (0x41 <= b <= 0x46)
}

/// The value of the hexadecimal digit `b`.
pub open spec fn hex_digit_value(b: u8) -> nat {
    if 0x30 <= b <= 0x39 {
        (b - 0x30) as nat
    } else if 0x61 <= b <= 0x66 {
        (b - 0x61 + 10) as nat
    } else {
        (b - 0x41 + 10) as nat
    }
}

/// Every byte of `s` is a hexadecimal digit.
pub open spec fn all_hex_digits(s: Seq<u8>) -> bool {
    forall|i: int| 0 <= i < s.len() ==> is_hex_digit(#[trigger] s[i])
}

/// The number that the hexadecimal digits `s` stand for, most significant
/// digit first.
pub open spec fn hex_value(s: Seq<u8>) -> nat
    decreases s.len(),
{
    if s.len() == 0 {
        0
    } else {
        hex_value(s.drop_last()) * 16 + hex_digit_value(s.last())
    }
}

/// The bytes that the hexadecimal digits `s` stand for, two digits a byte.
pub open spec fn hex_bytes(s: Seq<u8>) -> Seq<u8> {
    Seq::new(
        s.len() / 2,
        |k: int| (hex_digit_value(s[2 * k]) * 16 + hex_digit_value(s[2 * k + 1])) as u8,
    )
}

/// `s` without a leading `0x`.
pub open spec fn strip_0x(s: Seq<u8>) -> Seq<u8> {
    if s.len() >= 2 && s[0] == 0x30 && s[1] == 0x78 {
        s.skip(2)
    } else {
        s
    }
}

/// The digits of a number text: the text without its sign `+`, if it has one
/// and more than that.
pub open spec fn unsigned_digits(s: Seq<u8>) -> Seq<u8> {
    if s.len() > 1 && s[0] == 0x2b {
        s.skip(1)
    } else {
        s
    }
}

/// The number that the text `s` stands for in base 16: an optional `+`, then
/// one hexadecimal digit or more, and nothing else.
pub open spec fn hex_number(s: Seq<u8>) -> Option<nat> {
    let digits = unsigned_digits(s);
    if digits.len() > 0 && all_hex_digits(digits) {
        Some(hex_value(digits))
    } else {
        None
    }
}

/// The position of the first byte of `s` that is no hexadecimal digit; the
/// length of `s` where every byte is one.
pub open spec fn first_non_hex(s: Seq<u8>) -> int
    decreases s.len(),
{
    if s.len() == 0 || !is_hex_digit(s[0]) {
        0
    } else {
        1 + first_non_hex(s.drop_first())
    }
}

/// What decoding the hexadecimal text `s` gives: its bytes, if it has an
/// even number of digits and nothing else; else why not, an odd length
/// before a byte that is no digit. Such a byte is named as the character
/// with its number.
pub open spec fn decoding(s: Seq<u8>) -> Result<Seq<u8>, HexError> {
    if s.len() % 2 != 0 {
        Err(HexError::OddLength)
    } else if first_non_hex(s) < s.len() {
        Err(
            HexError::InvalidHexCharacter {
                c: s[first_non_hex(s)] as char,
                index: first_non_hex(s) as usize,
            },
        )
    } else {
        Ok(hex_bytes(s))
    }
}

/// The 20 bytes of an address that `bytes` stand for: `bytes` behind as many
/// zero bytes as are missing, or the last 20 of them.
pub open spec fn address_of(bytes: Seq<u8>) -> Seq<u8> {
    if bytes.len() <= 20 {
        Seq::new((20 - bytes.len()) as nat, |i: int| 0u8) + bytes
    } else {
        bytes.skip(bytes.len() - 20)
    }
}

/// The value of the digit `b` among `0`-`9`, `a`-`z`, `A`-`Z`, letters
/// counting from 10 in either case; `None` for any other byte.
pub open spec fn digit_value(b: u8) -> Option<nat> {
    if 0x30 <= b <= 0x39 {
        Some((b - 0x30) as nat)
    } else if 0x61 <= b <= 0x7a {
        Some((b - 0x61 + 10) as nat)
    } else if 0x41 <= b <= 0x5a {
        Some((b - 0x41 + 10) as nat)
    } else {
        None
    }
}

/// Every byte of `s` is `_` or a digit of the base `radix`.
pub open spec fn digits_in_radix(s: Seq<u8>, radix: nat) -> bool {
    forall|i: int|
        0 <= i < s.len() ==> (#[trigger] s[i]) == 0x5f || (digit_value(s[i]) matches Some(d) && d
            < radix)
}

/// The number that the digits `s` stand for in base `radix`, most
/// significant digit first; `_` is passed over.
pub open spec fn radix_value(s: Seq<u8>, radix: nat) -> nat
    decreases s.len(),
{
    if s.len() == 0 {
        0
    } else if s.last() == 0x5f {
        radix_value(s.drop_last(), radix)
    } else {
        radix_value(s.drop_last(), radix) * radix + match digit_value(s.last()) {
            Some(d) => d,
            None => 0,
        }
    }
}

/// The numbers that 256 bits hold lie below this one.
pub open spec fn two_to_256() -> nat {
    0x1_0000_0000_0000_0000_0000_0000_0000_0000_0000_0000_0000_0000_0000_0000_0000_0000nat
}

/// The number that the text `s` stands for as a 256-bit integer in base
/// `radix`: digits of the base, among which `_` may stand and is passed
/// over. A text without digits stands for 0; a text with any other byte, or
/// for a number that 256 bits do not hold, stands for nothing.
pub open spec fn number_in_radix(s: Seq<u8>, radix: nat) -> Option<nat> {
    if digits_in_radix(s, radix) && radix_value(s, radix) < two_to_256() {
        Some(radix_value(s, radix))
    } else {
        None
    }
}

/// The number that the text `s` stands for as a 256-bit integer in base 16.
pub open spec fn hex_u256(s: Seq<u8>) -> Option<nat> {
    number_in_radix(s, 16)
}

/// What `parse_hex_to_u64` makes of `text`.
pub open spec fn u64_text(text: Seq<char>) -> Result<u64, TestCaseErrorView> {
    match hex_number(strip_0x(encode_utf8(text))) {
        Some(n) => if n <= u64::MAX {
            Ok(n as u64)
        } else {
            Err(TestCaseErrorView::InvalidHex(text))
        },
        None => Err(TestCaseErrorView::InvalidHex(text)),
    }
}

/// What `parse_hex_to_u128` makes of `text`.
pub open spec fn u128_text(text: Seq<char>) -> Result<u128, TestCaseErrorView> {
    match hex_number(strip_0x(encode_utf8(text))) {
        Some(n) => if n <= u128::MAX {
            Ok(n as u128)
        } else {
            Err(TestCaseErrorView::InvalidHex(text))
        },
        None => Err(TestCaseErrorView::InvalidHex(text)),
    }
}

/// What `parse_hex_to_u256` makes of `text`, as a number.
pub open spec fn u256_text(text: Seq<char>) -> Result<nat, TestCaseErrorView> {
    match hex_u256(strip_0x(encode_utf8(text))) {
        Some(n) => Ok(n),
        None => Err(TestCaseErrorView::InvalidHex(text)),
    }
}

/// What `parse_hex_to_bytes` makes of `text`.
pub open spec fn bytes_text(text: Seq<char>) -> Result<Seq<u8>, TestCaseErrorView> {
    match decoding(strip_0x(encode_utf8(text))) {
        Ok(bytes) => Ok(bytes),
        Err(h) => Err(TestCaseErrorView::Hex(h)),
    }
}

/// What `parse_hex_to_address` makes of `text`, as 20 bytes.
pub open spec fn address_text(text: Seq<char>) -> Result<Seq<u8>, TestCaseErrorView> {
    match decoding(strip_0x(encode_utf8(text))) {
        Ok(bytes) => Ok(address_of(bytes)),
        Err(h) => Err(TestCaseErrorView::Hex(h)),
    }
}

/// The value of a prefix of digits is no more than the value of them all.
pub proof fn lemma_hex_value_prefix(s: Seq<u8>, k: int)
    requires
        0 <= k <= s.len(),
    ensures
        hex_value(s.take(k)) <= hex_value(s),
    decreases s.len() - k,
{
    if k < s.len() {
        lemma_hex_value_prefix(s, k + 1);
        assert(s.take(k + 1).drop_last() =~= s.take(k));
    } else {
        assert(s.take(k) =~= s);
    }
}

proof fn lemma_boundary_after_two_ascii(bytes: Seq<u8>)
    requires
        valid_utf8(bytes),
        bytes.len() >= 2,
        bytes[0] < 0x80,
        bytes[1] < 0x80,
    ensures
        is_char_boundary(bytes, 2),
{
    reveal_with_fuel(is_char_boundary, 3);
    reveal_with_fuel(valid_utf8, 3);
    let one = pop_first_scalar(bytes);
    assert(length_of_first_scalar(bytes) == 1);
    assert(one =~= bytes.skip(1));
    assert(valid_utf8(one));
    assert(length_of_first_scalar(one) == 1);
    let two = pop_first_scalar(one);
    assert(valid_utf8(two));
    assert(is_char_boundary(two, 0));
    assert(is_char_boundary(one, 1));
}

/// `hex_str` without a leading `0x`.
pub fn strip_hex_prefix(hex_str: &str) -> (clean_hex: &str)
    ensures
        clean_hex.spec_bytes() == strip_0x(hex_str.spec_bytes()),
{
    let bytes = hex_str.as_bytes();
    if bytes.len() >= 2 && bytes[0] == 0x30 && bytes[1] == 0x78 {
        proof {
            encode_utf8_valid_utf8(hex_str@);
            lemma_boundary_after_two_ascii(hex_str.spec_bytes());
        }
        let (_, rest) = hex_str.split_at(2);
        assert(rest.spec_bytes() =~= hex_str.spec_bytes().skip(2));
        rest
    } else {
        hex_str
    }
}

/// The value of the hexadecimal digit `b`, if it is one.
fn hex_digit(b: u8) -> (d: Option<u8>)
    ensures
        d is Some <==> is_hex_digit(b),
        d matches Some(v) ==> v == hex_digit_value(b),
{
    if 0x30 <= b && b <= 0x39 {
        Some(b - 0x30)
    } else if 0x61 <= b && b <= 0x66 {
        Some(b - 0x61 + 10)
    } else if 0x41 <= b && b <= 0x46 {
        Some(b - 0x41 + 10)
    } else {
        None
    }
}

/// The number that the text `text` stands for in base 16, if it stands for
/// one that is no more than `max`.
pub(crate) fn parse_hex_number(text: &[u8], max: u128) -> (r: Option<u128>)
    ensures
        match hex_number(text@) {
            Some(n) => if n <= max {
                r == Some(n as u128)
            } else {
                r is None
            },
            None => r is None,
        },
{
    let n = text.len();
    let start: usize = if n > 1 && text[0] == 0x2b {
        1
    } else {
        0
    };
    let ghost digits = unsigned_digits(text@);
    assert(digits =~= text@.skip(start as int));
    if start == n {
        return None;
    }
    let mut value: u128 = 0;
    let mut i: usize = start;
    while i < n
        invariant
            start <= i <= n,
            n == text@.len(),
            digits == text@.skip(start as int),
            digits == unsigned_digits(text@),
            all_hex_digits(digits.take(i - start)),
            value == hex_value(digits.take(i - start)),
            value <= max,
        decreases n - i,
    {
        let ghost before = digits.take(i - start);
        let ghost upto = digits.take(i - start + 1);
        assert(upto.drop_last() =~= before);
        assert(upto.last() == text@[i as int]);
        let d = match hex_digit(text[i]) {
            Some(d) => d,
            None => {
                assert(!is_hex_digit(digits[i - start]));
                return None;
            },
        };
        proof {
            lemma_hex_value_prefix(digits, i - start + 1);
            assert forall|j: int| 0 <= j < upto.len() implies is_hex_digit(#[trigger] upto[j]) by {
                if j < before.len() {
                    assert(before[j] == upto[j]);
                }
            }
        }
        let shifted = match value.checked_mul(16) {
            Some(shifted) => shifted,
            None => {
                return None;
            },
        };
        let next = match shifted.checked_add(d as u128) {
            Some(next) => next,
            None => {
                return None;
            },
        };
        if next > max {
            return None;
        }
        value = next;
        i += 1;
    }
    assert(digits.take(n - start) =~= digits);
    Some(value)
}

/// The text of an `InvalidHex` error about `hex_str`.
fn invalid_hex(hex_str: &str) -> (e: TestCaseError)
    ensures
        e matches TestCaseError::InvalidHex(text) && text@ == hex_str@,
{
    TestCaseError::InvalidHex(String::from_str(hex_str))
}

/// Helper function to parse hex string to u64. The text may begin with
/// `0x`; what follows is a number in base 16 as `u64::from_str_radix` reads
/// it. A text that is none, or stands for more than a `u64` holds, gives
/// `InvalidHex` with the text.
pub fn parse_hex_to_u64(hex_str: &str) -> (r: Result<u64, TestCaseError>)
    ensures
        match u64_text(hex_str@) {
            Ok(value) => r == Ok::<u64, TestCaseError>(value),
            Err(failure) => r matches Err(e) && e@ == failure,
        },
{
    let clean_hex = strip_hex_prefix(hex_str);
    match parse_hex_number(clean_hex.as_bytes(), u64::MAX as u128) {
        Some(value) => Ok(value as u64),
        None => Err(invalid_hex(hex_str)),
    }
}

/// Helper function to parse hex string to u128. The text may begin with
/// `0x`; what follows is a number in base 16 as `u128::from_str_radix` reads
/// it. A text that is none, or stands for more than a `u128` holds, gives
/// `InvalidHex` with the text.
pub fn parse_hex_to_u128(hex_str: &str) -> (r: Result<u128, TestCaseError>)
    ensures
        match u128_text(hex_str@) {
            Ok(value) => r == Ok::<u128, TestCaseError>(value),
            Err(failure) => r matches Err(e) && e@ == failure,
        },
{
    let clean_hex = strip_hex_prefix(hex_str);
    match parse_hex_number(clean_hex.as_bytes(), u128::MAX) {
        Some(value) => Ok(value),
        None => Err(invalid_hex(hex_str)),
    }
}

/// Calls `hex::decode` on the bytes `data`. It gives the byte that each pair
/// of hexadecimal digits stands for, in either case of the letters; for a
/// text of odd length `OddLength`; else, for a text with a byte that is no
/// digit, `InvalidHexCharacter` with the first such byte and its position.
#[verifier::external_body]
fn hex_decode(data: &[u8]) -> (r: Result<Vec<u8>, HexError>)
    ensures
        match decoding(data@) {
            Ok(bytes) => r matches Ok(decoded) && decoded@ == bytes,
            Err(h) => r == Err::<Vec<u8>, HexError>(h),
        },
{
    match hex::decode(data) {
        Ok(bytes) => Ok(bytes),
        Err(hex::FromHexError::InvalidHexCharacter { c, index }) => Err(
            HexError::InvalidHexCharacter { c, index },
        ),
        Err(hex::FromHexError::OddLength) => Err(HexError::OddLength),
        Err(hex::FromHexError::InvalidStringLength) => Err(HexError::InvalidStringLength),
    }
}

/// Calls `alloy_primitives::U256::from_str_radix` with radix 16 and hands
/// out the limbs of what it gives. It reads hexadecimal digits in either
/// case, passes over `_`, and fails on any other byte and on a number that
/// 256 bits do not hold.
#[verifier::external_body]
fn u256_from_hex(src: &str) -> (r: Option<U256>)
    ensures
        match hex_u256(src.spec_bytes()) {
            Some(n) => r matches Some(x) && u256_value(x) == n,
            None => r is None,
        },
{
    match alloy_primitives::U256::from_str_radix(src, 16) {
        Ok(x) => Some(x.into_limbs()),
        Err(_) => None,
    }
}

/// Helper function to parse hex string to U256. The text may begin with
/// `0x`; what follows are hexadecimal digits, among which `_` is passed
/// over. Any other text, and a number that 256 bits do not hold, gives
/// `InvalidHex` with the text.
pub fn parse_hex_to_u256(hex_str: &str) -> (r: Result<U256, TestCaseError>)
    ensures
        match u256_text(hex_str@) {
            Ok(value) => r matches Ok(x) && u256_value(x) == value,
            Err(failure) => r matches Err(e) && e@ == failure,
        },
{
    let clean_hex = strip_hex_prefix(hex_str);
    match u256_from_hex(clean_hex) {
        Some(x) => Ok(x),
        None => Err(invalid_hex(hex_str)),
    }
}

/// Helper function to parse hex string to bytes. The text may begin with
/// `0x`; what follows are pairs of hexadecimal digits, a byte each.
pub fn parse_hex_to_bytes(hex_str: &str) -> (r: Result<Vec<u8>, TestCaseError>)
    ensures
        match bytes_text(hex_str@) {
            Ok(bytes) => r matches Ok(decoded) && decoded@ == bytes,
            Err(failure) => r matches Err(e) && e@ == failure,
        },
{
    let clean_hex = strip_hex_prefix(hex_str);
    match hex_decode(clean_hex.as_bytes()) {
        Ok(bytes) => Ok(bytes),
        Err(h) => Err(TestCaseError::Hex(h)),
    }
}

/// Helper function to parse hex string to Address. The text may begin with
/// `0x`; what follows are pairs of hexadecimal digits. Fewer than 20 bytes
/// are filled up with zero bytes in front; of more than 20 the last 20 are
/// the address.
pub fn parse_hex_to_address(hex_str: &str) -> (r: Result<Address, TestCaseError>)
    ensures
        match address_text(hex_str@) {
            Ok(bytes) => r matches Ok(address) && address@ == bytes,
            Err(failure) => r matches Err(e) && e@ == failure,
        },
{
    let clean_hex = strip_hex_prefix(hex_str);
    let bytes = match hex_decode(clean_hex.as_bytes()) {
        Ok(bytes) => bytes,
        Err(h) => {
            return Err(TestCaseError::Hex(h));
        },
    };
    Ok(address_from_bytes(&bytes))
}

/// The address that `bytes` stand for: `bytes` behind as many zero bytes as
/// are missing, or the last 20 of them.
pub fn address_from_bytes(bytes: &Vec<u8>) -> (address: Address)
    ensures
        address@ == address_of(bytes@),
{
    let len = bytes.len();
    let mut addr_bytes: Address = [0u8; 20];
    let mut i: usize = 0;
    while i < 20
        invariant
            i <= 20,
            len == bytes@.len(),
            forall|k: int| 0 <= k < i ==> addr_bytes@[k] == address_of(bytes@)[k],
        decreases 20 - i,
    {
        let b: u8 = if len <= 20 {
            if i < 20 - len {
                0
            } else {
                bytes[i - (20 - len)]
            }
        } else {
            bytes[len - 20 + i]
        };
        addr_bytes[i] = b;
        i += 1;
    }
    assert(addr_bytes@ =~= address_of(bytes@));
    addr_bytes
}

} // verus!
