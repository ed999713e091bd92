use std::str::FromStr;
use zkvm_bench::hexparse::{
    address_from_bytes, parse_hex_to_address, parse_hex_to_bytes, parse_hex_to_u128,
    parse_hex_to_u256, parse_hex_to_u64, strip_hex_prefix, HexError, TestCaseError,
};

fn invalid(text: &str) -> TestCaseError {
    TestCaseError::InvalidHex(text.to_string())
}

#[test]
fn prefix_is_stripped_once() {
    assert_eq!(strip_hex_prefix("0x12"), "12");
    assert_eq!(strip_hex_prefix("12"), "12");
    assert_eq!(strip_hex_prefix("0x"), "");
    assert_eq!(strip_hex_prefix("0x0x1"), "0x1");
    assert_eq!(strip_hex_prefix("0X12"), "0X12");
    assert_eq!(strip_hex_prefix("0"), "0");
    assert_eq!(strip_hex_prefix(""), "");
    assert_eq!(strip_hex_prefix("0xé"), "é");
}

#[test]
fn u64_from_hex_text() {
    assert_eq!(parse_hex_to_u64("0x10"), Ok(16));
    assert_eq!(parse_hex_to_u64("ff"), Ok(255));
    assert_eq!(parse_hex_to_u64("0xDeadBeef"), Ok(0xdead_beef));
    assert_eq!(parse_hex_to_u64("0x0"), Ok(0));
    assert_eq!(parse_hex_to_u64("0x+ff"), Ok(255));
    assert_eq!(parse_hex_to_u64("0xffffffffffffffff"), Ok(u64::MAX));
    assert_eq!(parse_hex_to_u64("0x000000000000000000000000000000001"), Ok(1));
    assert_eq!(parse_hex_to_u64("0x10000000000000000"), Err(invalid("0x10000000000000000")));
    assert_eq!(parse_hex_to_u64(""), Err(invalid("")));
    assert_eq!(parse_hex_to_u64("0x"), Err(invalid("0x")));
    assert_eq!(parse_hex_to_u64("+"), Err(invalid("+")));
    assert_eq!(parse_hex_to_u64("-1"), Err(invalid("-1")));
    assert_eq!(parse_hex_to_u64("0xg"), Err(invalid("0xg")));
    assert_eq!(parse_hex_to_u64("0x1_0"), Err(invalid("0x1_0")));
    assert_eq!(parse_hex_to_u64(" 1"), Err(invalid(" 1")));
    assert_eq!(parse_hex_to_u64("0X10"), Err(invalid("0X10")));
    assert_eq!(parse_hex_to_u64("0x0x10"), Err(invalid("0x0x10")));
}

#[test]
fn u128_from_hex_text() {
    assert_eq!(parse_hex_to_u128("0x3b9aca00"), Ok(1_000_000_000));
    assert_eq!(parse_hex_to_u128("0x10000000000000000"), Ok(1u128 << 64));
    assert_eq!(parse_hex_to_u128("ffffffffffffffffffffffffffffffff"), Ok(u128::MAX));
    assert_eq!(
        parse_hex_to_u128("0x100000000000000000000000000000000"),
        Err(invalid("0x100000000000000000000000000000000"))
    );
    assert_eq!(parse_hex_to_u128("zz"), Err(invalid("zz")));
}

#[test]
fn numbers_agree_with_the_standard_library() {
    let texts = [
        "", "0", "1", "+1", "-1", "+", "++1", "+-1", "f", "F", "g", "0f", "ff ", " ff", "f_f",
        "ffffffffffffffff", "10000000000000000", "0000000000000000000001", "+ffffffffffffffff",
        "ffffffffffffffffffffffffffffffff", "100000000000000000000000000000000", "é", "1é", "٣",
        "0x1", "x", "0x",
    ];
    for text in texts {
        assert_eq!(
            parse_hex_to_u64(text).ok(),
            u64::from_str_radix(text.strip_prefix("0x").unwrap_or(text), 16).ok(),
            "u64 of {:?}",
            text
        );
        assert_eq!(
            parse_hex_to_u128(text).ok(),
            u128::from_str_radix(text.strip_prefix("0x").unwrap_or(text), 16).ok(),
            "u128 of {:?}",
            text
        );
    }
}

#[test]
fn bytes_from_hex_text() {
    assert_eq!(parse_hex_to_bytes("0x6b697769"), Ok(b"kiwi".to_vec()));
    assert_eq!(parse_hex_to_bytes("6B697769"), Ok(b"kiwi".to_vec()));
    assert_eq!(parse_hex_to_bytes("0x"), Ok(vec![]));
    assert_eq!(parse_hex_to_bytes(""), Ok(vec![]));
    assert_eq!(parse_hex_to_bytes("0x00ff"), Ok(vec![0, 255]));
    assert_eq!(parse_hex_to_bytes("0x123"), Err(TestCaseError::Hex(HexError::OddLength)));
    assert_eq!(
        parse_hex_to_bytes("0x12zz"),
        Err(TestCaseError::Hex(HexError::InvalidHexCharacter { c: 'z', index: 2 }))
    );
    assert_eq!(
        parse_hex_to_bytes("1g"),
        Err(TestCaseError::Hex(HexError::InvalidHexCharacter { c: 'g', index: 1 }))
    );
    assert_eq!(
        parse_hex_to_bytes("0xé"),
        Err(TestCaseError::Hex(HexError::InvalidHexCharacter { c: 'Ã', index: 0 }))
    );
    assert_eq!(
        parse_hex_to_bytes("0X12"),
        Err(TestCaseError::Hex(HexError::InvalidHexCharacter { c: 'X', index: 1 }))
    );
}

#[test]
fn address_from_hex_text() {
    let mut expected = [0u8; 20];
    expected[19] = 1;
    assert_eq!(parse_hex_to_address("0x01"), Ok(expected));
    assert_eq!(parse_hex_to_address("0x0000000000000000000000000000000000000001"), Ok(expected));
    assert_eq!(parse_hex_to_address(""), Ok([0u8; 20]));
    let long = "0xffff000000000000000000000000000000000000000a";
    let mut expected = [0u8; 20];
    expected[19] = 0x0a;
    assert_eq!(parse_hex_to_address(long), Ok(expected));
    let full = "0xa94f5374fce5edbc8e2a8697c15331677e6ebf0b";
    assert_eq!(
        parse_hex_to_address(full),
        Ok([
            0xa9, 0x4f, 0x53, 0x74, 0xfc, 0xe5, 0xed, 0xbc, 0x8e, 0x2a, 0x86, 0x97, 0xc1, 0x53,
            0x31, 0x67, 0x7e, 0x6e, 0xbf, 0x0b
        ])
    );
    assert_eq!(parse_hex_to_address("0x1"), Err(TestCaseError::Hex(HexError::OddLength)));
    assert_eq!(
        parse_hex_to_address("0xzz"),
        Err(TestCaseError::Hex(HexError::InvalidHexCharacter { c: 'z', index: 0 }))
    );
}

#[test]
fn address_is_padded_in_front_or_cut_in_front() {
    assert_eq!(address_from_bytes(&vec![]), [0u8; 20]);
    let mut expected = [0u8; 20];
    expected[18] = 1;
    expected[19] = 2;
    assert_eq!(address_from_bytes(&vec![1, 2]), expected);
    let bytes: Vec<u8> = (0..25).collect();
    let expected: Vec<u8> = (5..25).collect();
    assert_eq!(address_from_bytes(&bytes).to_vec(), expected);
    let bytes: Vec<u8> = (0..20).collect();
    assert_eq!(address_from_bytes(&bytes).to_vec(), bytes);
}

#[test]
fn u256_from_hex_text() {
    assert_eq!(parse_hex_to_u256("0x10"), Ok([16, 0, 0, 0]));
    assert_eq!(parse_hex_to_u256("0x"), Ok([0, 0, 0, 0]));
    assert_eq!(parse_hex_to_u256(""), Ok([0, 0, 0, 0]));
    assert_eq!(parse_hex_to_u256("0x1_0"), Ok([16, 0, 0, 0]));
    assert_eq!(parse_hex_to_u256("0x10000000000000000"), Ok([0, 1, 0, 0]));
    assert_eq!(
        parse_hex_to_u256("0xffffffffffffffffffffffffffffffffffffffffffffffffffffffffffffffff"),
        Ok([u64::MAX; 4])
    );
    assert_eq!(
        parse_hex_to_u256("0x0123456789abcdef0000000000000002000000000000000300000000000000aB"),
        Ok([0xab, 3, 2, 0x0123_4567_89ab_cdef])
    );
    let too_long = "0x10000000000000000000000000000000000000000000000000000000000000000";
    assert_eq!(parse_hex_to_u256(too_long), Err(invalid(too_long)));
    assert_eq!(parse_hex_to_u256("0xg"), Err(invalid("0xg")));
    assert_eq!(parse_hex_to_u256("+1"), Err(invalid("+1")));
}

#[test]
fn u256_agrees_with_the_outside_parser() {
    let texts = ["", "0", "ff", "f_f", "_", "g", "0x", "00000000000000000000000000000000000000000000000000000000000000000000ff"];
    for text in texts {
        let clean = text.strip_prefix("0x").unwrap_or(text);
        let expected = alloy_primitives::U256::from_str_radix(clean, 16).ok().map(|x| x.into_limbs());
        assert_eq!(parse_hex_to_u256(text).ok(), expected, "u256 of {:?}", text);
    }
    let same = alloy_primitives::U256::from_str("0xff").unwrap().into_limbs();
    assert_eq!(parse_hex_to_u256("0xff"), Ok(same));
}

#[test]
fn bytes_agree_with_the_outside_decoder() {
    for text in ["", "00", "0", "abc", "abcd", "ABCD", "ab cd", "zz", "0z", "é", "aé"] {
        let ours = parse_hex_to_bytes(text);
        match hex::decode(text) {
            Ok(bytes) => assert_eq!(ours, Ok(bytes)),
            Err(hex::FromHexError::OddLength) => {
                assert_eq!(ours, Err(TestCaseError::Hex(HexError::OddLength)))
            }
            Err(hex::FromHexError::InvalidHexCharacter { c, index }) => assert_eq!(
                ours,
                Err(TestCaseError::Hex(HexError::InvalidHexCharacter { c, index }))
            ),
            Err(hex::FromHexError::InvalidStringLength) => unreachable!(),
        }
    }
}
