//! The records that a run leaves behind: what was measured of an execution
//! or a proof, or why there is nothing to measure.

use vstd::prelude::*;
use crate::text::{distinct_keys, trimmed_lines, trimmed_lines_of};

verus! {

/// A span of time, in whole seconds and the nanoseconds beyond them.
#[derive(Debug, Clone, Copy, PartialEq, Eq)]
pub struct Duration {
    /// Whole seconds.
    pub secs: u64,
    /// Nanoseconds beyond the whole seconds, below one second.
    pub nanos: u32,
}

impl Duration {
    /// The nanoseconds stay below one second.
    pub open spec fn wf(self) -> bool {
        self.nanos < 1_000_000_000
    }

    /// The span in whole milliseconds.
    pub open spec fn millis(self) -> nat {
        (self.secs as nat) * 1000 + (self.nanos as nat) / 1_000_000
    }

    /// The span of `millis` milliseconds.
    pub fn from_millis(millis: u64) -> (d: Self)
        ensures
            d.wf(),
            d.secs == millis / 1000,
            d.nanos == (millis % 1000) * 1_000_000,
            d.millis() == millis,
    {
        let rest: u32 = (millis % 1000) as u32;
        Self { secs: millis / 1000, nanos: rest * 1_000_000 }
    }

    /// The span in whole milliseconds.
    pub fn as_millis(&self) -> (millis: u128)
        ensures
            millis == self.millis(),
    {
        let secs: u128 = self.secs as u128;
        let nanos: u128 = self.nanos as u128;
        secs * 1000 + nanos / 1_000_000
    }
}

/// Represents a single profile run.
#[derive(Debug, Clone, PartialEq, Eq)]
pub struct ProfileRun {
    /// Name of the test case.
    pub name: String,
    /// Gas used during execution.
    pub gas_used: u64,
    /// Execution metrics for the profile run.
    pub execution: Option<ExecutionMetrics>,
    /// Proving metrics for the profile run.
    pub proving: Option<ProvingMetrics>,
}

/// Hardware specs of the profile runner.
#[derive(Debug, Clone, PartialEq, Eq)]
pub struct HardwareInfo {
    /// CPU model name.
    pub cpu_model: String,
    /// Total RAM in GiB.
    pub total_ram_gib: u64,
    /// Available GPUs.
    pub gpus: Vec<GpuInfo>,
}

/// Information about a GPU.
#[derive(Debug, Clone, PartialEq, Eq)]
pub struct GpuInfo {
    /// GPU model name.
    pub model: String,
}

/// Information about a crash that occurred during a workload.
#[derive(Debug, Clone, PartialEq, Eq)]
pub struct CrashInfo {
    /// The reason for the crash (e.g., panic message).
    pub reason: String,
}

/// Metrics for execution workloads, either successful or crashed.
#[derive(Debug, Clone, PartialEq, Eq)]
pub enum ExecutionMetrics {
    /// Metrics for a successful execution workload.
    Success {
        /// Total number of cycles for the entire workload execution.
        total_num_cycles: u64,
        /// Cycles of each named region, each name at most once.
        region_cycles: Vec<(String, u64)>,
        /// Execution duration.
        execution_duration: Duration,
        /// Output data from execution.
        output: Option<Vec<u8>>,
        /// Error message if any.
        error: Option<String>,
    },
    /// Metrics for a crashed execution workload.
    Crashed(CrashInfo),
}

/// Metrics for proving workloads, either successful or crashed.
#[derive(Debug, Clone, PartialEq, Eq)]
pub enum ProvingMetrics {
    /// Metrics for a successful proving workload.
    Success {
        /// Proof size in bytes.
        proof_size: usize,
        /// Proving time in milliseconds.
        proving_time_ms: u128,
        /// Total number of cycles used.
        cycles_used: u64,
        /// Output data from proving.
        output: Option<Vec<u8>>,
        /// Error message if any.
        error: Option<String>,
    },
    /// Metrics for a crashed proving workload.
    Crashed(CrashInfo),
}

/// Errors that can occur during metrics processing.
#[derive(Debug, Clone, PartialEq, Eq)]
pub enum MetricsError {
    /// Error during JSON serialization or deserialization.
    Serde(String),
    /// Error during file system I/O operations.
    Io(String),
}

/// Bytes in one GiB.
pub const GIB: u64 = 1_073_741_824;

/// The name that stands for a CPU whose model is not known.
pub const UNKNOWN_CPU: &'static str = "Unknown CPU";

/// The file that holds the hardware information in the output folder.
pub const HARDWARE_FILE: &'static str = "hardware.json";

impl HardwareInfo {
    /// The hardware information that follows from what was found on the
    /// machine: the model of its first CPU, if it has one, its memory in
    /// bytes, and its GPUs. Memory is counted in whole GiB.
    pub fn from_probe(cpu_brand: Option<String>, total_memory: u64, gpus: Vec<GpuInfo>) -> (info:
        Self)
        ensures
            match cpu_brand {
                Some(brand) => info.cpu_model == brand,
                None => info.cpu_model@ == UNKNOWN_CPU@,
            },
            info.total_ram_gib == total_memory / GIB,
            info.gpus == gpus,
    {
        let cpu_model = match cpu_brand {
            Some(brand) => brand,
            None => String::from_str(UNKNOWN_CPU),
        };
        Self { cpu_model, total_ram_gib: total_memory / GIB, gpus }
    }
}

/// The GPUs of the machine from the listing of their names, one a line,
/// that the driver's tool printed; none where the tool did not run or
/// failed. A line counts without the white space around it, and not at all
/// if it holds nothing else.
pub fn detect_gpus(listing: Option<&str>) -> (gpus: Vec<GpuInfo>)
    ensures
        match listing {
            Some(text) => gpus@.len() == trimmed_lines(text@).len() && forall|i: int|
                0 <= i < gpus@.len() ==> (#[trigger] gpus@[i]).model@ == trimmed_lines(text@)[i],
            None => gpus@.len() == 0,
        },
{
    let mut gpus: Vec<GpuInfo> = Vec::new();
    match listing {
        Some(text) => {
            let names = trimmed_lines_of(text);
            let ghost all = names@;
            for model in it: names
                invariant
                    it.seq() == all,
                    gpus@.len() == it.index(),
                    forall|i: int| 0 <= i < it.index() ==> (#[trigger] gpus@[i]).model == all[i],
            {
                gpus.push(GpuInfo { model });
            }
        },
        None => {},
    }
    gpus
}

impl ExecutionMetrics {
    /// Each region is named at most once.
    pub open spec fn wf(self) -> bool {
        self matches ExecutionMetrics::Success { region_cycles, .. } ==> distinct_keys(
            region_cycles@,
        )
    }
}

impl ProfileRun {
    /// The execution metrics, where the record holds some, are well formed.
    pub open spec fn wf(&self) -> bool {
        self.execution matches Some(metrics) ==> metrics.wf()
    }

    /// Whether the record holds a crash: its execution or its proof ended
    /// in one.
    pub open spec fn spec_crashed(&self) -> bool {
        self.execution matches Some(ExecutionMetrics::Crashed(_)) || self.proving matches Some(
            ProvingMetrics::Crashed(_),
        )
    }

    /// Whether the record holds a crash: its execution or its proof ended
    /// in one.
    #[verifier::when_used_as_spec(spec_crashed)]
    pub fn crashed(&self) -> (b: bool)
        ensures
            b == self.spec_crashed(),
    {
        let execution_crashed = match &self.execution {
            Some(ExecutionMetrics::Crashed(_)) => true,
            _ => false,
        };
        let proving_crashed = match &self.proving {
            Some(ProvingMetrics::Crashed(_)) => true,
            _ => false,
        };
        execution_crashed || proving_crashed
    }
}

} // verus!
