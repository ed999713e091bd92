use zkvm_bench::hexparse::{HexError, TestCaseError};
use zkvm_bench::runner::{
    block_environment, prepare_guest_input, serializable_state, BlockEnvError, BlockEnvironment,
    PrepareError,
};
use zkvm_bench::state::{
    account_entry, AccountInfo, SerializableAccount, SerializableState, StateError, ZERO_HASH,
};
use zkvm_bench::testcase::{
    create_tx_env, Account, Config, Environment, TestCase, Transaction, TxEnv, TxKind,
};

const SENDER: &str = "0xa94f5374fce5edbc8e2a8697c15331677e6ebf0b";
const SENDER_BYTES: [u8; 20] = [
    0xa9, 0x4f, 0x53, 0x74, 0xfc, 0xe5, 0xed, 0xbc, 0x8e, 0x2a, 0x86, 0x97, 0xc1, 0x53, 0x31, 0x67,
    0x7e, 0x6e, 0xbf, 0x0b,
];
const RECIPIENT: &str = "0x095e7baea6a6c7c4c2dfeb977efac326af552d87";
const RECIPIENT_BYTES: [u8; 20] = [
    0x09, 0x5e, 0x7b, 0xae, 0xa6, 0xa6, 0xc7, 0xc4, 0xc2, 0xdf, 0xeb, 0x97, 0x7e, 0xfa, 0xc3, 0x26,
    0xaf, 0x55, 0x2d, 0x87,
];

fn account(nonce: &str, balance: &str, code: &str) -> Account {
    Account {
        nonce: nonce.to_string(),
        balance: balance.to_string(),
        code: code.to_string(),
        storage: vec![("0x00".to_string(), "0x01".to_string())],
    }
}

fn test_case() -> TestCase {
    TestCase {
        env: Environment {
            current_coinbase: "0x2adc25665018aa1fe0e6bc666dac8fc2697ff9ba".to_string(),
            current_gas_limit: "0x7fffffffffffffff".to_string(),
            current_number: "0x01".to_string(),
            current_timestamp: "0x03e8".to_string(),
            current_difficulty: "0x020000".to_string(),
        },
        pre: vec![
            (SENDER.to_string(), account("0x00", "0x0de0b6b3a7640000", "0x")),
            (RECIPIENT.to_string(), account("0x01", "0x00", "0x600160010160005500")),
        ],
        transaction: Transaction {
            nonce: "0x07".to_string(),
            gas_price: "0x0a".to_string(),
            gas_limit: vec!["0x061a80".to_string(), "0x01".to_string()],
            to: RECIPIENT.to_string(),
            value: vec!["0x0186a0".to_string()],
            data: vec!["0xdeadbeef".to_string()],
            sender: SENDER.to_string(),
            secret_key: "0x45a9".to_string(),
        },
        post: vec![],
        config: Config { chainid: "0x01".to_string() },
    }
}

#[test]
fn transaction_from_the_texts() {
    assert_eq!(
        create_tx_env(&test_case()),
        Ok(TxEnv {
            caller: SENDER_BYTES,
            gas_limit: 400_000,
            gas_price: 10,
            kind: TxKind::Call(RECIPIENT_BYTES),
            value: [100_000, 0, 0, 0],
            data: vec![0xde, 0xad, 0xbe, 0xef],
            chain_id: Some(1),
            nonce: 7,
        })
    );
}

#[test]
fn transaction_without_recipient_and_alternatives() {
    let mut tc = test_case();
    tc.transaction.to = String::new();
    tc.transaction.gas_limit = vec![];
    tc.transaction.value = vec![];
    tc.transaction.data = vec![];
    assert_eq!(
        create_tx_env(&tc),
        Ok(TxEnv {
            caller: SENDER_BYTES,
            gas_limit: 0,
            gas_price: 10,
            kind: TxKind::Call(SENDER_BYTES),
            value: [0, 0, 0, 0],
            data: vec![],
            chain_id: Some(1),
            nonce: 7,
        })
    );
}

#[test]
fn transaction_error_is_that_of_the_first_bad_text() {
    let mut tc = test_case();
    tc.transaction.nonce = "seven".to_string();
    assert_eq!(create_tx_env(&tc), Err(TestCaseError::InvalidHex("seven".to_string())));
    tc.config.chainid = "0x".to_string();
    assert_eq!(create_tx_env(&tc), Err(TestCaseError::InvalidHex("0x".to_string())));
    tc.transaction.sender = "0x123".to_string();
    assert_eq!(create_tx_env(&tc), Err(TestCaseError::Hex(HexError::OddLength)));
    tc.transaction.gas_price = "-".to_string();
    assert_eq!(create_tx_env(&tc), Err(TestCaseError::InvalidHex("-".to_string())));
    tc.transaction.gas_limit = vec!["0x1ffffffffffffffff".to_string()];
    assert_eq!(
        create_tx_env(&tc),
        Err(TestCaseError::InvalidHex("0x1ffffffffffffffff".to_string()))
    );
    tc.transaction.value = vec!["0xx".to_string()];
    assert_eq!(create_tx_env(&tc), Err(TestCaseError::InvalidHex("0xx".to_string())));
    tc.transaction.data = vec!["0xabc".to_string()];
    assert_eq!(create_tx_env(&tc), Err(TestCaseError::Hex(HexError::OddLength)));
    tc.transaction.to = "0xgg".to_string();
    assert_eq!(
        create_tx_env(&tc),
        Err(TestCaseError::Hex(HexError::InvalidHexCharacter { c: 'g', index: 0 }))
    );
}

#[test]
fn block_from_the_texts() {
    assert_eq!(
        block_environment(&test_case().env),
        Ok(BlockEnvironment {
            beneficiary: [
                0x2a, 0xdc, 0x25, 0x66, 0x50, 0x18, 0xaa, 0x1f, 0xe0, 0xe6, 0xbc, 0x66, 0x6d, 0xac,
                0x8f, 0xc2, 0x69, 0x7f, 0xf9, 0xba
            ],
            gas_limit: 0x7fff_ffff_ffff_ffff,
            number: 1,
            timestamp: 1000,
            difficulty: 0x20000,
        })
    );
}

#[test]
fn block_numbers_pass_over_every_leading_prefix() {
    let mut env = test_case().env;
    env.current_number = "0x0x0x2a".to_string();
    env.current_timestamp = "2a".to_string();
    let block = block_environment(&env).unwrap();
    assert_eq!(block.number, 42);
    assert_eq!(block.timestamp, 42);
    for text in ["0x0x0x2a", "2a", "0x", "", "0x0", "0xx1", "00x1", "0x+1", "+0x1"] {
        env.current_number = text.to_string();
        let expected = u64::from_str_radix(text.trim_start_matches("0x"), 16).ok();
        assert_eq!(block_environment(&env).ok().map(|b| b.number), expected, "number {:?}", text);
    }
}

#[test]
fn block_error_is_that_of_the_first_bad_text() {
    let mut env = test_case().env;
    env.current_difficulty = "hard".to_string();
    assert_eq!(block_environment(&env), Err(BlockEnvError::InvalidDifficulty));
    env.current_timestamp = "".to_string();
    assert_eq!(block_environment(&env), Err(BlockEnvError::InvalidTimestamp));
    env.current_number = "0x10000000000000000".to_string();
    assert_eq!(block_environment(&env), Err(BlockEnvError::InvalidNumber));
    env.current_gas_limit = "0x".to_string();
    assert_eq!(block_environment(&env), Err(BlockEnvError::InvalidGasLimit));
    env.current_coinbase = "0x2adc".to_string();
    assert_eq!(block_environment(&env), Err(BlockEnvError::InvalidCoinbase));
}

#[test]
fn state_copies_the_accounts() {
    let tc = test_case();
    let state = serializable_state(&tc.pre);
    assert_eq!(state.accounts.len(), 2);
    assert_eq!(state.accounts[0].0, SENDER);
    assert_eq!(
        state.accounts[1].1,
        SerializableAccount {
            nonce: "0x01".to_string(),
            balance: "0x00".to_string(),
            code: "0x600160010160005500".to_string(),
            storage: vec![("0x00".to_string(), "0x01".to_string())],
        }
    );
    assert!(serializable_state(&vec![]).accounts.is_empty());
}

#[test]
fn guest_input_from_a_test_case() {
    let tc = test_case();
    let input = prepare_guest_input(&tc).unwrap();
    assert_eq!(Ok(input.tx_env), create_tx_env(&tc));
    assert_eq!(Ok(input.block_env), block_environment(&tc.env));
    assert_eq!(input.state, serializable_state(&tc.pre));

    let mut bad = test_case();
    bad.env.current_number = "one".to_string();
    assert_eq!(
        prepare_guest_input(&bad),
        Err(PrepareError::Block(BlockEnvError::InvalidNumber))
    );
    bad.transaction.nonce = "one".to_string();
    assert_eq!(
        prepare_guest_input(&bad),
        Err(PrepareError::Transaction(TestCaseError::InvalidHex("one".to_string())))
    );
}

fn state_account(nonce: &str, balance: &str, code: &str) -> SerializableAccount {
    SerializableAccount {
        nonce: nonce.to_string(),
        balance: balance.to_string(),
        code: code.to_string(),
        storage: vec![],
    }
}

#[test]
fn account_from_the_texts() {
    let entry = account_entry(SENDER, &state_account("0x10", "1000", "0x6001")).unwrap();
    assert_eq!(
        entry,
        (
            SENDER_BYTES,
            AccountInfo { balance: [1000, 0, 0, 0], nonce: 16, code: vec![0x60, 0x01], code_hash: ZERO_HASH }
        )
    );
    let entry = account_entry(
        &SENDER[2..],
        &state_account("0x1_0000000000000005", "0b101", ""),
    )
    .unwrap();
    assert_eq!(entry.1.nonce, 5);
    assert_eq!(entry.1.balance, [5, 0, 0, 0]);
    assert!(entry.1.code.is_empty());
    let entry = account_entry(SENDER, &state_account("0o17", "0X_ff", "0x")).unwrap();
    assert_eq!(entry.1.nonce, 15);
    assert_eq!(entry.1.balance, [255, 0, 0, 0]);
    assert!(entry.1.code.is_empty());
    let entry = account_entry(SENDER, &state_account("", "0x", "0Xabcd")).unwrap();
    assert_eq!(entry.1.nonce, 0);
    assert_eq!(entry.1.balance, [0, 0, 0, 0]);
    assert_eq!(entry.1.code, vec![0xab, 0xcd]);
}

#[test]
fn account_error_is_that_of_the_first_bad_text() {
    let good = state_account("0x1", "0x2", "0x");
    assert_eq!(account_entry("0x1234", &good), Err(StateError::InvalidAddress));
    assert_eq!(account_entry("", &good), Err(StateError::InvalidAddress));
    assert_eq!(account_entry(&format!("{}00", SENDER), &good), Err(StateError::InvalidAddress));
    assert_eq!(
        account_entry(SENDER, &state_account("x", "ff", "0x1")),
        Err(StateError::InvalidBalance)
    );
    assert_eq!(
        account_entry(SENDER, &state_account("0b2", "1", "0x1")),
        Err(StateError::InvalidNonce)
    );
    assert_eq!(
        account_entry(SENDER, &state_account("1", "1", "0x1")),
        Err(StateError::InvalidCode)
    );
    assert_eq!(
        account_entry(SENDER, &state_account("1", "1", "0xzz")),
        Err(StateError::InvalidCode)
    );
    let too_much = "115792089237316195423570985008687907853269984665640564039457584007913129639936";
    assert_eq!(
        account_entry(SENDER, &state_account("1", too_much, "")),
        Err(StateError::InvalidBalance)
    );
    let most = "115792089237316195423570985008687907853269984665640564039457584007913129639935";
    assert_eq!(
        account_entry(SENDER, &state_account(most, most, "")).unwrap().1,
        AccountInfo { balance: [u64::MAX; 4], nonce: u64::MAX, code: vec![], code_hash: ZERO_HASH }
    );
}

#[test]
fn state_from_the_texts_is_all_or_nothing() {
    let state = SerializableState {
        accounts: vec![
            (SENDER.to_string(), state_account("1", "2", "")),
            (RECIPIENT.to_string(), state_account("3", "4", "0x00")),
        ],
    };
    let entries = state.into_state().unwrap();
    assert_eq!(entries.len(), 2);
    assert_eq!(entries[0].0, SENDER_BYTES);
    assert_eq!(entries[1].0, RECIPIENT_BYTES);
    assert_eq!(entries[1].1.nonce, 3);
    assert_eq!(entries[1].1.code, vec![0]);

    let state = SerializableState {
        accounts: vec![
            (SENDER.to_string(), state_account("1", "2", "")),
            (RECIPIENT.to_string(), state_account("3", "four", "")),
            ("nowhere".to_string(), state_account("3", "4", "")),
        ],
    };
    assert_eq!(state.into_state(), Err(StateError::InvalidBalance));
    assert_eq!(SerializableState { accounts: vec![] }.into_state(), Ok(vec![]));
}
