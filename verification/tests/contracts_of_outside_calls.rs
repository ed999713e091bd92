//! Holds what the library states of the outside parsers against the parsers
//! themselves, on every text up to a length over an alphabet that reaches
//! each branch.

use zkvm_bench::hexparse::{parse_hex_to_bytes, parse_hex_to_u256, HexError, TestCaseError};
use zkvm_bench::state::{account_entry, SerializableAccount, StateError};

const ALPHABET: [&str; 14] = ["0", "1", "7", "9", "a", "F", "g", "x", "X", "o", "b", "_", "+", "é"];

/// Every text of at most `max` letters of the alphabet.
fn texts(max: usize) -> Vec<String> {
    let mut all = vec![String::new()];
    let mut last = vec![String::new()];
    for _ in 0..max {
        let mut next = Vec::new();
        for text in &last {
            for letter in ALPHABET {
                next.push(format!("{}{}", text, letter));
            }
        }
        all.extend(next.iter().cloned());
        last = next;
    }
    all
}

fn digit(b: u8) -> Option<u64> {
    match b {
        b'0'..=b'9' => Some((b - b'0') as u64),
        b'a'..=b'z' => Some((b - b'a') as u64 + 10),
        b'A'..=b'Z' => Some((b - b'A') as u64 + 10),
        _ => None,
    }
}

fn is_hex(b: u8) -> bool {
    matches!(digit(b), Some(d) if d < 16)
}

/// The number that the digits stand for in the base, `_` passed over, as
/// limbs; `None` for a byte that is no digit of the base and for a number
/// that 256 bits do not hold.
fn number(digits: &[u8], radix: u64) -> Option<[u64; 4]> {
    let mut limbs = [0u64; 4];
    for &b in digits {
        if b == b'_' {
            continue;
        }
        let d = digit(b).filter(|d| *d < radix)?;
        let mut carry = d as u128;
        for limb in limbs.iter_mut() {
            let wide = (*limb as u128) * (radix as u128) + carry;
            *limb = wide as u64;
            carry = wide >> 64;
        }
        if carry != 0 {
            return None;
        }
    }
    Some(limbs)
}

fn strip<'a>(bytes: &'a [u8], prefixes: &[&[u8; 2]]) -> &'a [u8] {
    if bytes.len() >= 2 && prefixes.iter().any(|p| bytes[..2] == p[..]) {
        &bytes[2..]
    } else {
        bytes
    }
}

fn pairs(digits: &[u8]) -> Vec<u8> {
    digits.chunks(2).map(|p| (digit(p[0]).unwrap() * 16 + digit(p[1]).unwrap()) as u8).collect()
}

fn decoding(bytes: &[u8]) -> Result<Vec<u8>, HexError> {
    if bytes.len() % 2 != 0 {
        return Err(HexError::OddLength);
    }
    match bytes.iter().position(|b| !is_hex(*b)) {
        Some(index) => Err(HexError::InvalidHexCharacter { c: bytes[index] as char, index }),
        None => Ok(pairs(bytes)),
    }
}

fn prefixed_hex(bytes: &[u8]) -> Option<Vec<u8>> {
    let digits = strip(bytes, &[b"0x", b"0X"]);
    if bytes.len() % 2 == 0 && digits.iter().all(|b| is_hex(*b)) {
        Some(pairs(digits))
    } else {
        None
    }
}

fn u256_number(bytes: &[u8]) -> Option<[u64; 4]> {
    if bytes.len() >= 2 && bytes[0] == b'0' {
        match bytes[1] {
            b'x' | b'X' => return number(&bytes[2..], 16),
            b'o' | b'O' => return number(&bytes[2..], 8),
            b'b' | b'B' => return number(&bytes[2..], 2),
            _ => {}
        }
    }
    number(bytes, 10)
}

const ADDRESS: &str = "0x00000000000000000000000000000000000000aa";

fn account(nonce: &str, balance: &str, code: &str) -> SerializableAccount {
    SerializableAccount {
        nonce: nonce.to_string(),
        balance: balance.to_string(),
        code: code.to_string(),
        storage: vec![],
    }
}

#[test]
fn hex_decoder_does_what_is_stated_of_it() {
    for text in texts(4) {
        let clean = strip(text.as_bytes(), &[b"0x"]);
        let expected = decoding(clean).map_err(TestCaseError::Hex);
        assert_eq!(parse_hex_to_bytes(&text), expected, "bytes of {:?}", text);
    }
}

#[test]
fn u256_hex_parser_does_what_is_stated_of_it() {
    for text in texts(4) {
        let clean = strip(text.as_bytes(), &[b"0x"]);
        let expected = number(clean, 16).ok_or(TestCaseError::InvalidHex(text.clone()));
        assert_eq!(parse_hex_to_u256(&text), expected, "u256 of {:?}", text);
    }
    let nines = "f".repeat(64);
    assert_eq!(parse_hex_to_u256(&nines), Ok([u64::MAX; 4]));
    assert_eq!(parse_hex_to_u256(&format!("0x0_{}", nines)), Ok([u64::MAX; 4]));
    let over = format!("1{}", "0".repeat(64));
    assert_eq!(parse_hex_to_u256(&over), Err(TestCaseError::InvalidHex(over.clone())));
    assert_eq!(number(over.as_bytes(), 16), None);
}

#[test]
fn u256_parser_does_what_is_stated_of_it() {
    for text in texts(4) {
        let expected = u256_number(text.as_bytes());
        let entry = account_entry(ADDRESS, &account("0", &text, ""));
        match expected {
            Some(limbs) => assert_eq!(entry.unwrap().1.balance, limbs, "balance {:?}", text),
            None => assert_eq!(entry, Err(StateError::InvalidBalance), "balance {:?}", text),
        }
        let entry = account_entry(ADDRESS, &account(&text, "0", ""));
        match expected {
            Some(limbs) => assert_eq!(entry.unwrap().1.nonce, limbs[0], "nonce {:?}", text),
            None => assert_eq!(entry, Err(StateError::InvalidNonce), "nonce {:?}", text),
        }
    }
    for (text, radix) in [
        ("0o17777777777777777777777777777777777777777777777777777777777777777777777777777777777777", 8),
        ("0o20000000000000000000000000000000000000000000000000000000000000000000000000000000000000", 8),
        ("0b1", 2),
        ("115792089237316195423570985008687907853269984665640564039457584007913129639935", 10),
        ("115792089237316195423570985008687907853269984665640564039457584007913129639936", 10),
        ("0x1_0000000000000000_0000000000000000_0000000000000000_0000000000000000", 16),
    ] {
        let digits = if radix == 10 { text.as_bytes() } else { &text.as_bytes()[2..] };
        let expected = number(digits, radix);
        assert_eq!(u256_number(text.as_bytes()), expected);
        let entry = account_entry(ADDRESS, &account("0", text, ""));
        assert_eq!(entry.ok().map(|e| e.1.balance), expected, "balance {:?}", text);
    }
}

#[test]
fn code_parser_does_what_is_stated_of_it() {
    for text in texts(4) {
        let expected = if text.is_empty() || text == "0x" {
            Some(vec![])
        } else {
            prefixed_hex(text.as_bytes())
        };
        let entry = account_entry(ADDRESS, &account("0", "0", &text));
        match expected {
            Some(code) => assert_eq!(entry.unwrap().1.code, code, "code {:?}", text),
            None => assert_eq!(entry, Err(StateError::InvalidCode), "code {:?}", text),
        }
    }
}

#[test]
fn address_parser_does_what_is_stated_of_it() {
    let good = account("0", "0", "");
    let body = "00112233445566778899aAbBcCdDeEfF00112233";
    let mut candidates = vec![
        body.to_string(),
        format!("0x{}", body),
        format!("0X{}", body),
        format!("0x{}", &body[1..]),
        format!("0x{}", &body[2..]),
        format!("0x{}00", body),
        format!("{}0", body),
        format!("0x0x{}", &body[2..]),
        format!("x{}", &body[1..]),
        format!("0x{}g", &body[1..]),
        format!("0x{}é", &body[2..]),
        format!(" {}", &body[1..]),
    ];
    candidates.extend(texts(3));
    for text in candidates {
        let expected = prefixed_hex(text.as_bytes()).filter(|bytes| bytes.len() == 20);
        let entry = account_entry(&text, &good);
        match expected {
            Some(bytes) => assert_eq!(entry.unwrap().0.to_vec(), bytes, "address {:?}", text),
            None => assert_eq!(entry, Err(StateError::InvalidAddress), "address {:?}", text),
        }
    }
}
