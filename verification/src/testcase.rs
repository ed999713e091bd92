//! Test cases for profiling: one transaction against a pre-state, as the
//! reference tests write them down, and the transaction that follows from
//! the texts.

use vstd::prelude::*;
use crate::hexparse::{
    address_text, bytes_text, parse_hex_to_address, parse_hex_to_bytes, parse_hex_to_u128,
    parse_hex_to_u256, parse_hex_to_u64, u128_text, u256_text, u64_text, TestCaseError,
    TestCaseErrorView,
};
use crate::primitives::{u256_value, Address, U256, U256_ZERO};
use crate::text::distinct_keys;

verus! {

/// Represents a test case for profiling.
#[derive(Debug, Clone, PartialEq, Eq)]
pub struct TestCase {
    /// The block that the transaction runs in.
    pub env: Environment,
    /// The accounts before the transaction, each address at most once.
    pub pre: Vec<(String, Account)>,
    /// The transaction.
    pub transaction: Transaction,
    /// The states expected after the transaction, by fork, each fork at most
    /// once.
    pub post: Vec<(String, Vec<PostState>)>,
    /// The chain.
    pub config: Config,
}

/// The block that a transaction runs in, every value a text.
#[derive(Debug, Clone, PartialEq, Eq)]
pub struct Environment {
    /// Beneficiary of the block.
    pub current_coinbase: String,
    /// Gas limit of the block.
    pub current_gas_limit: String,
    /// Number of the block.
    pub current_number: String,
    /// Timestamp of the block.
    pub current_timestamp: String,
    /// Difficulty of the block.
    pub current_difficulty: String,
}

/// An account, every value a text.
#[derive(Debug, Clone, PartialEq, Eq)]
pub struct Account {
    /// Nonce of the account.
    pub nonce: String,
    /// Balance of the account.
    pub balance: String,
    /// Code of the account.
    pub code: String,
    /// Storage of the account, each slot at most once.
    pub storage: Vec<(String, String)>,
}

/// A transaction, every value a text. Gas limit, value and data come as
/// lists of alternatives, of which the first is taken.
#[derive(Debug, Clone, PartialEq, Eq)]
pub struct Transaction {
    /// Nonce of the sender.
    pub nonce: String,
    /// Gas price.
    pub gas_price: String,
    /// Gas limits to choose from.
    pub gas_limit: Vec<String>,
    /// Recipient; empty for none.
    pub to: String,
    /// Values to choose from.
    pub value: Vec<String>,
    /// Call data to choose from.
    pub data: Vec<String>,
    /// Sender.
    pub sender: String,
    /// Secret key of the sender.
    pub secret_key: String,
}

/// A state expected after the transaction.
#[derive(Debug, Clone, PartialEq, Eq)]
pub struct PostState {
    /// State root.
    pub hash: String,
    /// Hash of the logs.
    pub logs: String,
    /// The signed transaction.
    pub txbytes: String,
    /// Which alternatives were taken, each name at most once.
    pub indexes: Vec<(String, u64)>,
    /// The accounts, each address at most once.
    pub state: Vec<(String, Account)>,
}

/// The chain of a test case.
#[derive(Debug, Clone, PartialEq, Eq)]
pub struct Config {
    /// Chain id.
    pub chainid: String,
}

/// Represents a named test case for profiling.
#[derive(Debug, Clone, PartialEq, Eq)]
pub struct NamedTestCase {
    /// Name of the test case.
    pub name: String,
    /// The test case data.
    pub test_case: TestCase,
}

impl Account {
    /// The storage holds each slot at most once.
    pub open spec fn wf(self) -> bool {
        distinct_keys(self.storage@)
    }
}

/// Each address occurs at most once among `accounts`, and each account is
/// well formed.
pub open spec fn accounts_wf(accounts: Seq<(String, Account)>) -> bool {
    &&& distinct_keys(accounts)
    &&& forall|i: int| 0 <= i < accounts.len() ==> (#[trigger] accounts[i]).1.wf()
}

impl PostState {
    /// Each name occurs at most once among the indexes, and the accounts
    /// are well formed.
    pub open spec fn wf(self) -> bool {
        &&& distinct_keys(self.indexes@)
        &&& accounts_wf(self.state@)
    }
}

impl TestCase {
    /// Each address occurs at most once in the pre-state and each fork at
    /// most once among the expected states, and the accounts and expected
    /// states are well formed.
    pub open spec fn wf(self) -> bool {
        &&& accounts_wf(self.pre@)
        &&& distinct_keys(self.post@)
        &&& forall|i: int, j: int|
            0 <= i < self.post@.len() && 0 <= j < self.post@[i].1@.len() ==> (
            #[trigger] self.post@[i].1@[j]).wf()
    }
}

impl NamedTestCase {
    /// The test case is well formed.
    pub open spec fn wf(self) -> bool {
        self.test_case.wf()
    }
}

/// What a transaction does.
#[derive(Debug, Clone, Copy, PartialEq, Eq)]
pub enum TxKind {
    /// It creates a contract.
    Create,
    /// It calls the account at the address.
    Call(Address),
}

/// A transaction as the execution takes it.
#[derive(Debug, Clone, PartialEq, Eq)]
pub struct TxEnv {
    /// Sender.
    pub caller: Address,
    /// Gas limit.
    pub gas_limit: u64,
    /// Gas price.
    pub gas_price: u128,
    /// What the transaction does.
    pub kind: TxKind,
    /// Value sent along.
    pub value: U256,
    /// Call data.
    pub data: Vec<u8>,
    /// Chain id.
    pub chain_id: Option<u64>,
    /// Nonce of the sender.
    pub nonce: u64,
}

/// A `TxEnv` with its value as a number and its data as a sequence.
pub struct TxEnvView {
    pub caller: Seq<u8>,
    pub gas_limit: u64,
    pub gas_price: u128,
    pub to: Seq<u8>,
    pub value: nat,
    pub data: Seq<u8>,
    pub chain_id: Option<u64>,
    pub nonce: u64,
}

/// The first of the alternatives `texts`; `None` where there is none.
pub open spec fn first_text(texts: Seq<String>) -> Option<Seq<char>> {
    if texts.len() == 0 {
        None
    } else {
        Some(texts[0]@)
    }
}

/// The transaction that follows from the texts of `test_case`, or the error
/// of the first text that stands for nothing, in the order recipient, data,
/// value, gas limit, gas price, sender, chain id, nonce. A transaction
/// without a recipient calls its sender; where an alternative is missing,
/// data is empty and value and gas limit are 0.
pub open spec fn tx_env_of(test_case: TestCase) -> Result<TxEnvView, TestCaseErrorView> {
    let tx = test_case.transaction;
    let to = if tx.to@.len() == 0 {
        Ok(None)
    } else {
        match address_text(tx.to@) {
            Ok(a) => Ok(Some(a)),
            Err(e) => Err(e),
        }
    };
    let data = match first_text(tx.data@) {
        Some(text) => bytes_text(text),
        None => Ok(Seq::empty()),
    };
    let value = match first_text(tx.value@) {
        Some(text) => u256_text(text),
        None => Ok(0nat),
    };
    let gas_limit = match first_text(tx.gas_limit@) {
        Some(text) => u64_text(text),
        None => Ok(0u64),
    };
    let gas_price = u128_text(tx.gas_price@);
    let caller = address_text(tx.sender@);
    let chain_id = u64_text(test_case.config.chainid@);
    let nonce = u64_text(tx.nonce@);
    if to is Err {
        Err(to->Err_0)
    } else if data is Err {
        Err(data->Err_0)
    } else if value is Err {
        Err(value->Err_0)
    } else if gas_limit is Err {
        Err(gas_limit->Err_0)
    } else if gas_price is Err {
        Err(gas_price->Err_0)
    } else if caller is Err {
        Err(caller->Err_0)
    } else if chain_id is Err {
        Err(chain_id->Err_0)
    } else if nonce is Err {
        Err(nonce->Err_0)
    } else {
        Ok(
            TxEnvView {
                caller: caller->Ok_0,
                gas_limit: gas_limit->Ok_0,
                gas_price: gas_price->Ok_0,
                to: match to->Ok_0 {
                    Some(a) => a,
                    None => caller->Ok_0,
                },
                value: value->Ok_0,
                data: data->Ok_0,
                chain_id: Some(chain_id->Ok_0),
                nonce: nonce->Ok_0,
            },
        )
    }
}

impl View for TxEnv {
    type V = TxEnvView;

    open spec fn view(&self) -> TxEnvView {
        TxEnvView {
            caller: self.caller@,
            gas_limit: self.gas_limit,
            gas_price: self.gas_price,
            to: match self.kind {
                TxKind::Call(a) => a@,
                TxKind::Create => Seq::empty(),
            },
            value: u256_value(self.value),
            data: self.data@,
            chain_id: self.chain_id,
            nonce: self.nonce,
        }
    }
}

/// Creates a transaction environment from a test case.
pub fn create_tx_env(test_case: &TestCase) -> (r: Result<TxEnv, TestCaseError>)
    ensures
        match tx_env_of(*test_case) {
            Ok(tx) => r matches Ok(tx_env) && tx_env@ == tx && tx_env.kind is Call,
            Err(failure) => r matches Err(e) && e@ == failure,
        },
{
    let to = if test_case.transaction.to.as_str().is_empty() {
        None
    } else {
        match parse_hex_to_address(test_case.transaction.to.as_str()) {
            Ok(a) => Some(a),
            Err(e) => {
                return Err(e);
            },
        }
    };
    let data = if test_case.transaction.data.len() == 0 {
        Vec::new()
    } else {
        match parse_hex_to_bytes(test_case.transaction.data[0].as_str()) {
            Ok(bytes) => bytes,
            Err(e) => {
                return Err(e);
            },
        }
    };
    let value = if test_case.transaction.value.len() == 0 {
        U256_ZERO
    } else {
        match parse_hex_to_u256(test_case.transaction.value[0].as_str()) {
            Ok(x) => x,
            Err(e) => {
                return Err(e);
            },
        }
    };
    let gas_limit = if test_case.transaction.gas_limit.len() == 0 {
        0
    } else {
        match parse_hex_to_u64(test_case.transaction.gas_limit[0].as_str()) {
            Ok(x) => x,
            Err(e) => {
                return Err(e);
            },
        }
    };
    let gas_price = match parse_hex_to_u128(test_case.transaction.gas_price.as_str()) {
        Ok(x) => x,
        Err(e) => {
            return Err(e);
        },
    };
    let caller = match parse_hex_to_address(test_case.transaction.sender.as_str()) {
        Ok(a) => a,
        Err(e) => {
            return Err(e);
        },
    };
    let kind = TxKind::Call(
        match to {
            Some(a) => a,
            None => caller,
        },
    );
    let chain_id = match parse_hex_to_u64(test_case.config.chainid.as_str()) {
        Ok(x) => Some(x),
        Err(e) => {
            return Err(e);
        },
    };
    let nonce = match parse_hex_to_u64(test_case.transaction.nonce.as_str()) {
        Ok(x) => x,
        Err(e) => {
            return Err(e);
        },
    };
    Ok(TxEnv { caller, gas_limit, gas_price, kind, value, data, chain_id, nonce })
}

} // verus!
