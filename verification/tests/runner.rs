use std::collections::BTreeMap;
use zkvm_bench::metrics::{
    CrashInfo, Duration, ExecutionMetrics, MetricsError, ProfileRun, ProvingMetrics,
};
use zkvm_bench::runner::{
    execute_test_case, get_panic_msg, next_unit, process_test_case, prove_test_case, run_profile,
    Action, Executed, ExecutionOutput, GuestRun, PanicPayload, Proved, Request, RunConfig, RunError,
    UnitEvent, UnitState, WorkUnit, DEFAULT_GAS_USED,
};

fn config(action: Action, force_rerun: bool) -> RunConfig {
    RunConfig { output_folder: "out".to_string(), action, force_rerun }
}

fn output(cycles: Option<u64>) -> ExecutionOutput {
    ExecutionOutput {
        success: true,
        gas_used: 21000,
        output: Some(vec![1, 2, 3]),
        error: Some("warning".to_string()),
        cycles_used: cycles,
    }
}

fn executed(cycles: Option<u64>) -> GuestRun<Executed> {
    GuestRun::Completed(Executed {
        output: output(cycles),
        region_cycles: vec![("setup".to_string(), 3), ("compute".to_string(), 7)],
    })
}

fn proved(cycles: Option<u64>, proof_size: usize) -> GuestRun<Proved> {
    GuestRun::Completed(Proved { output: output(cycles), proof_size })
}

fn executed_ok() -> ExecutionMetrics {
    execute_test_case(executed(Some(10)), Duration::from_millis(5))
}

fn proved_ok() -> ProvingMetrics {
    prove_test_case(proved(Some(10), 1_024), Duration::from_millis(5))
}

fn crashed_execution() -> ExecutionMetrics {
    execute_test_case(GuestRun::Panicked(PanicPayload::Text("boom".to_string())), Duration::from_millis(1))
}

#[test]
fn panic_message_of_each_payload() {
    assert_eq!(get_panic_msg(PanicPayload::Text("static str".to_string())), "static str");
    assert_eq!(get_panic_msg(PanicPayload::Owned("owned".to_string())), "owned");
    assert_eq!(get_panic_msg(PanicPayload::Opaque), "Unknown panic occurred");
}

#[test]
fn execution_metrics_of_a_completed_guest() {
    let d = Duration { secs: 1, nanos: 500 };
    assert_eq!(
        execute_test_case(executed(Some(1234)), d),
        ExecutionMetrics::Success {
            total_num_cycles: 1234,
            region_cycles: vec![("setup".to_string(), 3), ("compute".to_string(), 7)],
            execution_duration: d,
            output: Some(vec![1, 2, 3]),
            error: Some("warning".to_string()),
        }
    );
    match execute_test_case(executed(None), d) {
        ExecutionMetrics::Success { total_num_cycles, .. } => assert_eq!(total_num_cycles, 0),
        ExecutionMetrics::Crashed(_) => panic!("a completed guest is no crash"),
    }
}

#[test]
fn execution_metrics_of_a_guest_that_failed_or_aborted() {
    let d = Duration::from_millis(1);
    assert_eq!(
        execute_test_case(GuestRun::Failed("out of memory".to_string()), d),
        ExecutionMetrics::Crashed(CrashInfo { reason: "Execution error: out of memory".to_string() })
    );
    assert_eq!(
        execute_test_case(GuestRun::Panicked(PanicPayload::Owned("index out of bounds".to_string())), d),
        ExecutionMetrics::Crashed(CrashInfo { reason: "index out of bounds".to_string() })
    );
    assert_eq!(
        execute_test_case(GuestRun::Panicked(PanicPayload::Opaque), d),
        ExecutionMetrics::Crashed(CrashInfo { reason: "Unknown panic occurred".to_string() })
    );
}

#[test]
fn proving_metrics_of_each_end() {
    let d = Duration { secs: 2, nanos: 999_999_999 };
    assert_eq!(
        prove_test_case(proved(Some(77), 262_144), d),
        ProvingMetrics::Success {
            proof_size: 262_144,
            proving_time_ms: 2999,
            cycles_used: 77,
            output: Some(vec![1, 2, 3]),
            error: Some("warning".to_string()),
        }
    );
    assert_eq!(
        prove_test_case(GuestRun::Failed("verify failed".to_string()), d),
        ProvingMetrics::Crashed(CrashInfo { reason: "Proving error: verify failed".to_string() })
    );
    assert_eq!(
        prove_test_case(GuestRun::Panicked(PanicPayload::Text("boom".to_string())), d),
        ProvingMetrics::Crashed(CrashInfo { reason: "boom".to_string() })
    );
}

#[test]
fn record_states_default_gas() {
    let record = process_test_case(&WorkUnit::new("case".to_string()), Some(executed_ok()), None);
    assert_eq!(
        record,
        ProfileRun {
            name: "case".to_string(),
            gas_used: 21000,
            execution: Some(executed_ok()),
            proving: None,
        }
    );
    assert_eq!(DEFAULT_GAS_USED, 21000);
    assert!(!record.crashed());
    let measured = WorkUnit { name: "block".to_string(), gas_used: 29_999_000 };
    assert_eq!(process_test_case(&measured, None, Some(proved_ok())).gas_used, 29_999_000);
    assert_eq!(WorkUnit::new("x".to_string()), WorkUnit { name: "x".to_string(), gas_used: 21000 });
    assert!(process_test_case(&WorkUnit { name: "c".to_string(), gas_used: 5 }, Some(crashed_execution()), Some(proved_ok())).crashed());
}

#[test]
fn pending_unit_asks_for_a_probe_of_its_artifact() {
    let cfg = config(Action::Execute, false);
    let unit = UnitState::new();
    assert_eq!(unit, UnitState::Pending);
    assert_eq!(unit.request(&cfg, "case"), Request::Probe { path: "out/case.json".to_string() });
    assert_eq!(cfg.out_path("case"), "out/case.json");
    assert_eq!(cfg.hardware_path(), "out/hardware.json");
}

#[test]
fn cache_hit_skips_unless_forced() {
    let work = WorkUnit::new("case".to_string());
    let hit = UnitState::Pending.step(UnitEvent::Probed(true), &config(Action::Full, false), &work);
    assert_eq!(hit, UnitState::Skipped);
    assert!(hit.is_final());
    assert_eq!(hit.request(&config(Action::Full, false), "case"), Request::Nothing);

    let forced = UnitState::Pending.step(UnitEvent::Probed(true), &config(Action::Full, true), &work);
    assert_eq!(forced, UnitState::Proving);
    let miss = UnitState::Pending.step(UnitEvent::Probed(false), &config(Action::Execute, false), &work);
    assert_eq!(miss, UnitState::Executing { proving: None });
    let miss = UnitState::Pending.step(UnitEvent::Probed(false), &config(Action::Prove, false), &work);
    assert_eq!(miss, UnitState::Proving);
}

#[test]
fn execute_only_unit_runs_to_success() {
    let cfg = config(Action::Execute, false);
    let work = WorkUnit::new("case".to_string());
    let unit = UnitState::Pending.step(UnitEvent::Probed(false), &cfg, &work);
    assert_eq!(unit.request(&cfg, &work.name), Request::Execute);
    let unit = unit.step(UnitEvent::Executed(Ok(executed_ok())), &cfg, &work);
    let record = ProfileRun {
        name: "case".to_string(),
        gas_used: 21000,
        execution: Some(executed_ok()),
        proving: None,
    };
    assert_eq!(unit, UnitState::Storing(record.clone()));
    assert_eq!(
        unit.request(&cfg, &work.name),
        Request::Store { path: "out/case.json".to_string(), record: &record }
    );
    let unit = unit.step(UnitEvent::Stored(Ok(())), &cfg, &work);
    assert_eq!(unit, UnitState::Succeeded);
    assert!(unit.is_final());
}

#[test]
fn prove_only_and_full_units() {
    let work = WorkUnit::new("case".to_string());
    let cfg = config(Action::Prove, false);
    let unit = UnitState::Pending.step(UnitEvent::Probed(false), &cfg, &work);
    assert_eq!(unit.request(&cfg, &work.name), Request::Prove);
    let unit = unit.step(UnitEvent::Proved(Ok(proved_ok())), &cfg, &work);
    assert_eq!(
        unit,
        UnitState::Storing(ProfileRun {
            name: "case".to_string(),
            gas_used: 21000,
            execution: None,
            proving: Some(proved_ok()),
        })
    );

    let cfg = config(Action::Full, false);
    let unit = UnitState::Pending.step(UnitEvent::Probed(false), &cfg, &work);
    assert_eq!(unit, UnitState::Proving);
    let unit = unit.step(UnitEvent::Proved(Ok(proved_ok())), &cfg, &work);
    assert_eq!(unit, UnitState::Executing { proving: Some(proved_ok()) });
    let unit = unit.step(UnitEvent::Executed(Ok(executed_ok())), &cfg, &work);
    assert_eq!(
        unit,
        UnitState::Storing(ProfileRun {
            name: "case".to_string(),
            gas_used: 21000,
            execution: Some(executed_ok()),
            proving: Some(proved_ok()),
        })
    );
    assert_eq!(unit.step(UnitEvent::Stored(Ok(())), &cfg, &work), UnitState::Succeeded);
}

#[test]
fn a_crash_is_stored_and_ends_the_unit_as_crashed() {
    let cfg = config(Action::Execute, false);
    let work = WorkUnit::new("case".to_string());
    let unit = UnitState::Pending
        .step(UnitEvent::Probed(false), &cfg, &work)
        .step(UnitEvent::Executed(Ok(crashed_execution())), &cfg, &work);
    match &unit {
        UnitState::Storing(record) => {
            assert_eq!(
                record.execution,
                Some(ExecutionMetrics::Crashed(CrashInfo { reason: "boom".to_string() }))
            );
        }
        other => panic!("a crash is to be stored, not {:?}", other),
    }
    let unit = unit.step(UnitEvent::Stored(Ok(())), &cfg, &work);
    assert_eq!(unit, UnitState::Crashed);
    assert_eq!(next_unit(&unit, 0, 3), Some(1));
}

#[test]
fn failures_around_the_guest_are_fatal() {
    let cfg = config(Action::Full, false);
    let work = WorkUnit::new("case".to_string());
    let proving = UnitState::Pending.step(UnitEvent::Probed(false), &cfg, &work);
    let fatal = proving.clone().step(UnitEvent::Proved(Err("bad input".to_string())), &cfg, &work);
    assert_eq!(fatal, UnitState::FatalError("bad input".to_string()));
    assert_eq!(next_unit(&fatal, 0, 3), None);

    let executing = proving.step(UnitEvent::Proved(Ok(proved_ok())), &cfg, &work);
    let fatal = executing.clone().step(UnitEvent::Executed(Err("no env".to_string())), &cfg, &work);
    assert_eq!(fatal, UnitState::FatalError("no env".to_string()));

    let storing = executing.step(UnitEvent::Executed(Ok(executed_ok())), &cfg, &work);
    let fatal = storing.step(UnitEvent::Stored(Err("disk full".to_string())), &cfg, &work);
    assert_eq!(fatal, UnitState::FatalError("disk full".to_string()));
    assert!(fatal.is_final());
}

#[test]
fn reports_that_were_not_asked_for_change_nothing() {
    let cfg = config(Action::Full, false);
    let work = WorkUnit::new("case".to_string());
    assert_eq!(
        UnitState::Pending.step(UnitEvent::Stored(Ok(())), &cfg, &work),
        UnitState::Pending
    );
    assert_eq!(UnitState::Skipped.step(UnitEvent::Probed(false), &cfg, &work), UnitState::Skipped);
    assert_eq!(
        UnitState::Proving.step(UnitEvent::Executed(Ok(executed_ok())), &cfg, &work),
        UnitState::Proving
    );
    assert_eq!(
        UnitState::Crashed.step(UnitEvent::Proved(Err("x".to_string())), &cfg, &work),
        UnitState::Crashed
    );
}

#[test]
fn next_unit_goes_on_until_the_end_or_a_fatal_error() {
    assert_eq!(next_unit(&UnitState::Pending, 1, 3), Some(1));
    assert_eq!(next_unit(&UnitState::Proving, 1, 3), Some(1));
    assert_eq!(next_unit(&UnitState::Succeeded, 1, 3), Some(2));
    assert_eq!(next_unit(&UnitState::Skipped, 1, 3), Some(2));
    assert_eq!(next_unit(&UnitState::Crashed, 1, 3), Some(2));
    assert_eq!(next_unit(&UnitState::Crashed, 2, 3), None);
    assert_eq!(next_unit(&UnitState::FatalError("e".to_string()), 1, 3), None);
}

#[test]
fn run_fails_on_hardware_or_on_the_first_fatal_unit() {
    let units = vec![
        UnitState::Succeeded,
        UnitState::Crashed,
        UnitState::Skipped,
    ];
    assert_eq!(run_profile(Ok(()), &units), Ok(()));
    assert_eq!(
        run_profile(Err(MetricsError::Io("denied".to_string())), &units),
        Err(RunError::Hardware(MetricsError::Io("denied".to_string())))
    );
    assert_eq!(
        run_profile(Err(MetricsError::Serde("nan".to_string())), &vec![UnitState::FatalError("x".to_string())]),
        Err(RunError::Hardware(MetricsError::Serde("nan".to_string())))
    );
    let units = vec![
        UnitState::Crashed,
        UnitState::FatalError("first".to_string()),
        UnitState::FatalError("second".to_string()),
    ];
    assert_eq!(run_profile(Ok(()), &units), Err(RunError::Unit("first".to_string())));
    assert_eq!(run_profile(Ok(()), &Vec::new()), Ok(()));
}

/// Drives a batch as a driver would, against artifacts held in memory.
/// `crash` names the units whose guest aborts. Returns the final state of
/// each unit taken up and how often the guest was called.
fn drive(
    cfg: &RunConfig,
    names: &[&str],
    disk: &mut BTreeMap<String, ProfileRun>,
    crash: &[&str],
) -> (Vec<UnitState>, usize) {
    let mut states = Vec::new();
    let mut guest_calls = 0;
    let mut index = if names.is_empty() { None } else { Some(0) };
    while let Some(i) = index {
        let work = WorkUnit { name: names[i].to_string(), gas_used: 30_000 + i as u64 };
        let mut unit = UnitState::new();
        while !unit.is_final() {
            let event = match unit.request(cfg, &work.name) {
                Request::Probe { path } => UnitEvent::Probed(disk.contains_key(&path)),
                Request::Prove => {
                    guest_calls += 1;
                    UnitEvent::Proved(Ok(proved_ok()))
                }
                Request::Execute => {
                    guest_calls += 1;
                    if crash.contains(&names[i]) {
                        UnitEvent::Executed(Ok(crashed_execution()))
                    } else {
                        UnitEvent::Executed(Ok(executed_ok()))
                    }
                }
                Request::Store { path, record } => {
                    disk.insert(path, record.clone());
                    UnitEvent::Stored(Ok(()))
                }
                Request::Nothing => unreachable!(),
            };
            unit = unit.step(event, cfg, &work);
        }
        index = next_unit(&unit, i, names.len());
        states.push(unit);
    }
    (states, guest_calls)
}

#[test]
fn second_run_computes_nothing_and_changes_nothing() {
    let cfg = config(Action::Full, false);
    let names = ["a", "b", "c", "a"];
    let mut disk = BTreeMap::new();
    let (first, calls) = drive(&cfg, &names, &mut disk, &["b"]);
    assert_eq!(
        first,
        vec![UnitState::Succeeded, UnitState::Crashed, UnitState::Succeeded, UnitState::Skipped]
    );
    assert_eq!(calls, 6);
    let after_first = disk.clone();
    assert_eq!(after_first.len(), 3);

    let (second, calls) = drive(&cfg, &names, &mut disk, &[]);
    assert_eq!(second, vec![UnitState::Skipped; 4]);
    assert_eq!(calls, 0);
    assert_eq!(disk, after_first);
}

#[test]
fn forced_rerun_computes_again() {
    let names = ["a", "b"];
    let mut disk = BTreeMap::new();
    drive(&config(Action::Execute, false), &names, &mut disk, &[]);
    let (states, calls) = drive(&config(Action::Execute, true), &names, &mut disk, &["a"]);
    assert_eq!(states, vec![UnitState::Crashed, UnitState::Succeeded]);
    assert_eq!(calls, 2);
    assert!(disk["out/a.json"].crashed());
}

#[test]
fn a_crash_does_not_stop_the_units_after_it() {
    let cfg = config(Action::Execute, false);
    let mut disk = BTreeMap::new();
    let (states, calls) = drive(&cfg, &["a", "b", "c"], &mut disk, &["a", "b"]);
    assert_eq!(states, vec![UnitState::Crashed, UnitState::Crashed, UnitState::Succeeded]);
    assert_eq!(calls, 3);
    assert_eq!(disk["out/b.json"].gas_used, 30_001);
    assert_eq!(
        disk["out/a.json"].execution,
        Some(ExecutionMetrics::Crashed(CrashInfo { reason: "boom".to_string() }))
    );
    assert!(!disk["out/c.json"].crashed());
}
