use zkvm_bench::fixture::{StatelessInput, WGError, WriteOutcome};
use zkvm_bench::precompiles::{ECRECOVER, SHA256};
use zkvm_bench::primitives::ADDRESS_ZERO;
use zkvm_bench::trace::{
    generate_trace, ExecutionTrace, PrecompileCall, StructLog, TraceConfig, TracedTransaction,
    TransactionTrace, TRACE_MISMATCH,
};

fn input(hashes: Vec<[u8; 32]>) -> StatelessInput<()> {
    StatelessInput {
        block_number: 17,
        parent_hash: [0u8; 32],
        gas_used: 0,
        transaction_hashes: hashes,
        payload: (),
    }
}

#[test]
fn trace_config_presets() {
    let minimal = TraceConfig::minimal();
    assert!(!minimal.include_stack && !minimal.include_memory && !minimal.include_storage);
    let full = TraceConfig::full();
    assert!(full.include_stack && full.include_memory && full.include_storage);
    assert_eq!(TraceConfig::default(), minimal);
    assert_ne!(TraceConfig::default(), full);
}

fn step(pc: u64, op: &str) -> StructLog {
    StructLog {
        pc,
        op: op.to_string(),
        gas: 100 - pc,
        gas_cost: 3,
        depth: 1,
        stack: Some(vec![[pc, 0, 0, 0]]),
        memory: Some(vec!["00".to_string()]),
        storage: Some(vec![([1, 0, 0, 0], [2, 0, 0, 0])]),
        return_data: Some(vec![0xaa]),
        error: None,
    }
}

fn call(address: [u8; 20], gas_used: u64) -> PrecompileCall {
    PrecompileCall { address, input: vec![1], output: Some(vec![2]), gas_used, success: true }
}

fn traced() -> Vec<TracedTransaction> {
    let mut contract = [0u8; 20];
    contract[0] = 0xde;
    vec![
        TracedTransaction {
            success: true,
            gas_used: 21_000,
            steps: vec![step(0, "PUSH1"), step(2, "STATICCALL")],
            calls: vec![call(contract, 5), call(SHA256, 72), call(ADDRESS_ZERO, 1), call(ECRECOVER, 3000)],
        },
        TracedTransaction { success: false, gas_used: 50_000, steps: vec![], calls: vec![call(contract, 9)] },
    ]
}

#[test]
fn trace_shows_every_transaction_as_it_was_traced() {
    let trace =
        generate_trace(&input(vec![[9u8; 32], [8u8; 32]]), "fx", &TraceConfig::full(), traced()).unwrap();
    assert_eq!(
        trace,
        ExecutionTrace {
            fixture_name: "fx".to_string(),
            block_number: 17,
            transactions: vec![
                TransactionTrace {
                    hash: Some([9u8; 32]),
                    index: 0,
                    success: true,
                    gas_used: 21_000,
                    struct_logs: vec![step(0, "PUSH1"), step(2, "STATICCALL")],
                    precompile_calls: vec![call(SHA256, 72), call(ECRECOVER, 3000)],
                },
                TransactionTrace {
                    hash: Some([8u8; 32]),
                    index: 1,
                    success: false,
                    gas_used: 50_000,
                    struct_logs: vec![],
                    precompile_calls: vec![],
                },
            ],
        }
    );
    let empty = generate_trace(&input(vec![]), "none", &TraceConfig::minimal(), vec![]).unwrap();
    assert!(empty.transactions.is_empty());
}

#[test]
fn trace_leaves_out_what_the_configuration_leaves_out() {
    let block = input(vec![[9u8; 32], [8u8; 32]]);
    let minimal = generate_trace(&block, "fx", &TraceConfig::minimal(), traced()).unwrap();
    let bare = StructLog { stack: None, memory: None, storage: None, ..step(0, "PUSH1") };
    assert_eq!(minimal.transactions[0].struct_logs[0], bare);
    assert_eq!(minimal.transactions[0].struct_logs[1].op, "STATICCALL");
    assert_eq!(minimal.transactions[0].struct_logs[1].return_data, Some(vec![0xaa]));
    assert_eq!(minimal.transactions[0].precompile_calls.len(), 2);

    let stack_only = TraceConfig { include_stack: true, include_memory: false, include_storage: false };
    let trace = generate_trace(&block, "fx", &stack_only, traced()).unwrap();
    assert_eq!(
        trace.transactions[0].struct_logs[1],
        StructLog { memory: None, storage: None, ..step(2, "STATICCALL") }
    );
    let storage_only = TraceConfig { include_stack: false, include_memory: false, include_storage: true };
    let trace = generate_trace(&block, "fx", &storage_only, traced()).unwrap();
    assert_eq!(
        trace.transactions[0].struct_logs[0],
        StructLog { stack: None, memory: None, ..step(0, "PUSH1") }
    );
}

#[test]
fn trace_must_hold_a_record_for_each_transaction() {
    let mismatch = Err(WGError::Other(TRACE_MISMATCH.to_string()));
    assert_eq!(generate_trace(&input(vec![[9u8; 32]]), "fx", &TraceConfig::full(), traced()), mismatch);
    assert_eq!(
        generate_trace(&input(vec![[9u8; 32]; 3]), "fx", &TraceConfig::full(), traced()),
        mismatch
    );
    assert_eq!(generate_trace(&input(vec![[9u8; 32]]), "fx", &TraceConfig::full(), vec![]), mismatch);
}

#[test]
fn trace_file_and_write_outcomes() {
    let trace = generate_trace(&input(vec![]), "fx", &TraceConfig::minimal(), vec![]).unwrap();
    assert_eq!(trace.path_in_dir("traces"), "traces/fx.trace.json");
    assert_eq!(trace.write_to_path("traces", WriteOutcome::Written), Ok(()));
    assert_eq!(
        trace.write_to_path("traces", WriteOutcome::SerializationFailed("bad".to_string())),
        Err(WGError::Other("bad".to_string()))
    );
    assert_eq!(
        trace.write_to_path("traces", WriteOutcome::WriteFailed("denied".to_string())),
        Err(WGError::FixtureWriteError {
            path: "traces/fx.trace.json".to_string(),
            source: "denied".to_string(),
        })
    );
}
