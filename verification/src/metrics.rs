//! System-wide figures of one sample.

use vstd::prelude::*;

verus! {

/// The figures shown on the overview, in the units the sample came in.
#[derive(Debug, Clone, Copy, PartialEq, Eq, Structural)]
pub struct Metrics {
    /// Processor load in tenths of a percent.
    pub cpu_tenths: u32,
    pub memory_used: u64,
    pub memory_total: u64,
    pub disk_used: u64,
    pub disk_total: u64,
}

impl Metrics {
    /// Whether no more is in use than there is.
    pub open spec fn consistent(self) -> bool {
        self.memory_used <= self.memory_total && self.disk_used <= self.disk_total
    }
}

/// The figures before the first sample: all zero.
pub open spec fn no_metrics() -> Metrics {
    Metrics { cpu_tenths: 0, memory_used: 0, memory_total: 0, disk_used: 0, disk_total: 0 }
}

/// The figures that a sample stands for. The load is that of the first
/// processor, or 0 where the sample names none; the disk figures are the
/// memory figures divided by 1024.
pub open spec fn metrics_of(first_cpu_tenths: Option<u32>, memory_used: u64, memory_total: u64) -> Metrics {
    Metrics {
        cpu_tenths: match first_cpu_tenths {
            Some(load) => load,
            None => 0,
        },
        memory_used,
        memory_total,
        disk_used: memory_used / 1024,
        disk_total: memory_total / 1024,
    }
}

/// Turns the readings of one sample into the figures to show.
pub fn system_data(first_cpu_tenths: Option<u32>, memory_used: u64, memory_total: u64) -> (metrics:
    Metrics)
    ensures
        metrics == metrics_of(first_cpu_tenths, memory_used, memory_total),
        memory_used <= memory_total ==> metrics.consistent(),
{
    let cpu_tenths: u32 = match first_cpu_tenths {
        Some(load) => load,
        None => 0,
    };
    Metrics {
        cpu_tenths,
        memory_used,
        memory_total,
        disk_used: memory_used / 1024,
        disk_total: memory_total / 1024,
    }
}

} // verus!
