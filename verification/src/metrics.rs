//! Plain-value snapshots of host telemetry.
//!
//! These types are the sole input to the report encoders. The surrounding
//! program fills them from the OS once per tick; within a tick they are
//! immutable.

use vstd::prelude::*;

verus! {

/// Available and total capacity of one disk, in bytes.
#[derive(Clone, Copy, Debug, PartialEq, Eq, Structural)]
pub struct DiskSpace {
    pub available_bytes: u64,
    pub total_bytes: u64,
}

/// The three load averages (1, 5 and 15 minutes), each in hundredths of a
/// load unit, so that the integer and fractional report bytes can be derived
/// without floating point. A load of 2.54 is stored as 254.
#[derive(Clone, Copy, Debug, PartialEq, Eq, Structural)]
pub struct LoadAverages {
    pub one_centi: u64,
    pub five_centi: u64,
    pub fifteen_centi: u64,
}

/// Snapshot feeding the system report: global and per-core CPU utilization
/// (percent, truncated toward zero) and memory occupancy.
#[derive(Debug)]
pub struct SystemMetrics {
    pub global_cpu_percent: u8,
    pub used_memory: u64,
    pub total_memory: u64,
    pub core_usage_percent: Vec<u8>,
}

/// Mathematical view of a `SystemMetrics` snapshot.
pub struct SystemMetricsView {
    pub global_cpu_percent: u8,
    pub used_memory: u64,
    pub total_memory: u64,
    pub core_usage_percent: Seq<u8>,
}

impl View for SystemMetrics {
    type V = SystemMetricsView;

    open spec fn view(&self) -> SystemMetricsView {
        SystemMetricsView {
            global_cpu_percent: self.global_cpu_percent,
            used_memory: self.used_memory,
            total_memory: self.total_memory,
            core_usage_percent: self.core_usage_percent@,
        }
    }
}

/// Snapshot feeding the user report: swap occupancy, load averages, one entry
/// per disk, and one temperature per sensor component (whole degrees,
/// truncated toward zero; readings may be negative).
#[derive(Debug)]
pub struct UserMetrics {
    pub used_swap: u64,
    pub total_swap: u64,
    pub load: LoadAverages,
    pub disks: Vec<DiskSpace>,
    pub temperatures: Vec<i64>,
}

/// Mathematical view of a `UserMetrics` snapshot.
pub struct UserMetricsView {
    pub used_swap: u64,
    pub total_swap: u64,
    pub load: LoadAverages,
    pub disks: Seq<DiskSpace>,
    pub temperatures: Seq<i64>,
}

impl View for UserMetrics {
    type V = UserMetricsView;

    open spec fn view(&self) -> UserMetricsView {
        UserMetricsView {
            used_swap: self.used_swap,
            total_swap: self.total_swap,
            load: self.load,
            disks: self.disks@,
            temperatures: self.temperatures@,
        }
    }
}

} // verus!
