//! The report encoder: a deterministic mapping from a metrics snapshot to a
//! fixed 64-byte buffer, in one of two layouts told apart by the tag byte.
//!
//! Layouts (all fields single unsigned bytes at fixed offsets):
//!
//! System report: `[0]` report id (always 0), `[1]` system tag, `[2]` global
//! CPU percent, `[3]` memory-used percent, `[4]` core count, `[5..10]`
//! reserved (zero), `[10..64]` one entry per core's utilization, at most 54
//! entries; further cores are dropped.
//!
//! User report: `[0]` report id (always 0), `[1]` user tag, `[2]` swap-used
//! percent, `[3..9]` the three load averages as integer/fraction byte pairs
//! (1, 5, 15 minutes; the fraction byte carries the hundredths, 0-99),
//! `[9]` disk count, `[10..20]` up to 10 disks' free-space percent,
//! `[20..40]` up to 20 sensor temperatures, `[40..64]` zero.
//!
//! Degenerate inputs never fault: a zero total capacity encodes as 0 percent,
//! and entry counts past 255 saturate in the count byte. Temperatures are
//! reduced to their two's-complement low byte, so a negative reading wraps
//! (-5 encodes as 251); this mirrors the wire format's known edge case rather
//! than guessing a correction.

use vstd::prelude::*;
use crate::metrics::{SystemMetrics, SystemMetricsView, UserMetrics, UserMetricsView};

verus! {

/// Every report is exactly this many bytes.
pub const REPORT_LEN: usize = 64;

/// Tag byte of a system report.
pub const SYSTEM_REPORT_TAG: u8 = 0;

/// Tag byte of a user report.
pub const USER_REPORT_TAG: u8 = 1;

/// First byte holding a per-core utilization entry in the system report.
pub const CORE_USAGE_OFFSET: usize = 10;

/// Core entries that fit between `CORE_USAGE_OFFSET` and the end of the buffer.
pub const MAX_CORE_ENTRIES: usize = 54;

/// First byte holding a disk free-space entry in the user report.
pub const DISK_PERCENT_OFFSET: usize = 10;

/// Disk entries that fit in the user report.
pub const MAX_DISK_ENTRIES: usize = 10;

/// First byte holding a sensor temperature in the user report.
pub const TEMPERATURE_OFFSET: usize = 20;

/// Sensor entries that fit in the user report.
pub const MAX_SENSOR_ENTRIES: usize = 20;

/// Occupancy as a whole percentage, `floor(used * 100 / total)`, reduced to a
/// byte. A zero total encodes as 0 rather than faulting on the division.
pub open spec fn percent_byte_spec(used: u64, total: u64) -> u8 {
    if total == 0 {
        0u8
    } else {
        ((used as int * 100 / total as int) % 256) as u8
    }
}

/// An entry count as a byte, saturating at 255.
pub open spec fn count_byte_spec(n: nat) -> u8 {
    if n > 255 {
        255u8
    } else {
        n as u8
    }
}

/// Integer part of a centi-load value, saturating at 255.
pub open spec fn load_int_byte_spec(centi: u64) -> u8 {
    count_byte_spec((centi / 100) as nat)
}

/// Fractional part of a centi-load value: the hundredths, always 0-99.
pub open spec fn load_frac_byte_spec(centi: u64) -> u8 {
    (centi % 100) as u8
}

/// A temperature reading reduced to its two's-complement low byte; negative
/// readings wrap (-5 becomes 251).
pub open spec fn temperature_byte_spec(degrees: i64) -> u8 {
    (degrees & 0xff) as u8
}

/// Byte `i` of the system report for snapshot `m`.
pub open spec fn system_report_byte(m: SystemMetricsView, i: int) -> u8 {
    if i == 0 {
        0u8
    } else if i == 1 {
        SYSTEM_REPORT_TAG
    } else if i == 2 {
        m.global_cpu_percent
    } else if i == 3 {
        percent_byte_spec(m.used_memory, m.total_memory)
    } else if i == 4 {
        count_byte_spec(m.core_usage_percent.len())
    } else if CORE_USAGE_OFFSET <= i && i - CORE_USAGE_OFFSET < m.core_usage_percent.len() {
        m.core_usage_percent[i - CORE_USAGE_OFFSET]
    } else {
        0u8
    }
}

/// The whole system report for snapshot `m`: 64 bytes, each given by
/// `system_report_byte`. Core entries past `MAX_CORE_ENTRIES` fall outside
/// the buffer and are dropped.
pub open spec fn system_report_spec(m: SystemMetricsView) -> Seq<u8> {
    Seq::new(REPORT_LEN as nat, |i: int| system_report_byte(m, i))
}

/// Byte `i` of the user report for snapshot `m`.
pub open spec fn user_report_byte(m: UserMetricsView, i: int) -> u8 {
    if i == 0 {
        0u8
    } else if i == 1 {
        USER_REPORT_TAG
    } else if i == 2 {
        percent_byte_spec(m.used_swap, m.total_swap)
    } else if i == 3 {
        load_int_byte_spec(m.load.one_centi)
    } else if i == 4 {
        load_frac_byte_spec(m.load.one_centi)
    } else if i == 5 {
        load_int_byte_spec(m.load.five_centi)
    } else if i == 6 {
        load_frac_byte_spec(m.load.five_centi)
    } else if i == 7 {
        load_int_byte_spec(m.load.fifteen_centi)
    } else if i == 8 {
        load_frac_byte_spec(m.load.fifteen_centi)
    } else if i == 9 {
        count_byte_spec(m.disks.len())
    } else if DISK_PERCENT_OFFSET <= i && i < DISK_PERCENT_OFFSET + MAX_DISK_ENTRIES
        && i - DISK_PERCENT_OFFSET < m.disks.len() {
        percent_byte_spec(
            m.disks[i - DISK_PERCENT_OFFSET].available_bytes,
            m.disks[i - DISK_PERCENT_OFFSET].total_bytes,
        )
    } else if TEMPERATURE_OFFSET <= i && i < TEMPERATURE_OFFSET + MAX_SENSOR_ENTRIES
        && i - TEMPERATURE_OFFSET < m.temperatures.len() {
        temperature_byte_spec(m.temperatures[i - TEMPERATURE_OFFSET])
    } else {
        0u8
    }
}

/// The whole user report for snapshot `m`: 64 bytes, each given by
/// `user_report_byte`. Disks past `MAX_DISK_ENTRIES` and sensors past
/// `MAX_SENSOR_ENTRIES` are dropped.
pub open spec fn user_report_spec(m: UserMetricsView) -> Seq<u8> {
    Seq::new(REPORT_LEN as nat, |i: int| user_report_byte(m, i))
}

/// Occupancy of `used` out of `total` as a whole percentage byte; 0 when
/// `total` is zero.
pub fn percent_byte(used: u64, total: u64) -> (r: u8)
    ensures
        r == percent_byte_spec(used, total),
        total > 0 && used <= total ==> r == used as int * 100 / total as int,
{
    if total == 0 {
        0
    } else {
        let p: u128 = (used as u128) * 100 / (total as u128);
        proof {
            if used <= total {
                vstd::arithmetic::div_mod::lemma_div_is_ordered(
                    used as int * 100,
                    total as int * 100,
                    total as int,
                );
                vstd::arithmetic::div_mod::lemma_div_multiples_vanish(100, total as int);
                vstd::arithmetic::div_mod::lemma_small_mod(
                    (used as int * 100 / total as int) as nat,
                    256,
                );
            }
        }
        (p % 256) as u8
    }
}

/// An entry count reduced to a byte, saturating at 255.
pub fn count_byte(n: usize) -> (r: u8)
    ensures
        r == count_byte_spec(n as nat),
{
    if n > 255 {
        255
    } else {
        n as u8
    }
}

/// Integer part of a centi-load value, saturating at 255.
pub fn load_int_byte(centi: u64) -> (r: u8)
    ensures
        r == load_int_byte_spec(centi),
{
    let q: u64 = centi / 100;
    if q > 255 {
        255
    } else {
        q as u8
    }
}

/// Fractional part of a centi-load value: the hundredths.
pub fn load_frac_byte(centi: u64) -> (r: u8)
    ensures
        r == load_frac_byte_spec(centi),
        r < 100,
{
    (centi % 100) as u8
}

/// A temperature reading reduced to its two's-complement low byte.
pub fn temperature_byte(degrees: i64) -> (r: u8)
    ensures
        r == temperature_byte_spec(degrees),
{
    proof {
        assert(0 <= degrees & 0xff < 256) by (bit_vector);
    }
    (degrees & 0xff) as u8
}

/// Encode the system report: 64 bytes, byte 0 the report id 0, byte 1 the
/// system tag, then CPU, memory and per-core fields as `system_report_spec`
/// lays them out. Total: every snapshot encodes, whatever its core count.
pub fn encode_system_report(m: &SystemMetrics) -> (buf: Vec<u8>)
    ensures
        buf@ == system_report_spec(m@),
        buf@.len() == REPORT_LEN,
        buf@[0] == 0u8,
        buf@[1] == SYSTEM_REPORT_TAG,
{
    let mut buf: Vec<u8> = zero_report();
    buf.set(1, SYSTEM_REPORT_TAG);
    buf.set(2, m.global_cpu_percent);
    buf.set(3, percent_byte(m.used_memory, m.total_memory));
    buf.set(4, count_byte(m.core_usage_percent.len()));
    let n: usize = m.core_usage_percent.len();
    let limit: usize = if n > MAX_CORE_ENTRIES { MAX_CORE_ENTRIES } else { n };
    let mut k: usize = 0;
    while k < limit
        invariant
            k <= limit,
            limit <= m.core_usage_percent.len(),
            limit == if m.core_usage_percent.len() > MAX_CORE_ENTRIES { MAX_CORE_ENTRIES as int } else { m.core_usage_percent.len() as int },
            buf@.len() == REPORT_LEN,
            forall|j: int| 0 <= j < CORE_USAGE_OFFSET + k ==> buf@[j] == system_report_byte(m@, j),
            forall|j: int| CORE_USAGE_OFFSET + k <= j < REPORT_LEN ==> buf@[j] == 0u8,
        decreases limit - k,
    {
        buf.set(CORE_USAGE_OFFSET + k, m.core_usage_percent[k]);
        k += 1;
    }
    proof {
        assert(buf@ =~= system_report_spec(m@));
    }
    buf
}

/// Encode the user report: 64 bytes, byte 0 the report id 0, byte 1 the user
/// tag, then swap, load-average, disk and temperature fields as
/// `user_report_spec` lays them out. Total: every snapshot encodes, whatever
/// its disk and sensor counts.
pub fn encode_user_report(m: &UserMetrics) -> (buf: Vec<u8>)
    ensures
        buf@ == user_report_spec(m@),
        buf@.len() == REPORT_LEN,
        buf@[0] == 0u8,
        buf@[1] == USER_REPORT_TAG,
{
    let mut buf: Vec<u8> = zero_report();
    buf.set(1, USER_REPORT_TAG);
    buf.set(2, percent_byte(m.used_swap, m.total_swap));
    buf.set(3, load_int_byte(m.load.one_centi));
    buf.set(4, load_frac_byte(m.load.one_centi));
    buf.set(5, load_int_byte(m.load.five_centi));
    buf.set(6, load_frac_byte(m.load.five_centi));
    buf.set(7, load_int_byte(m.load.fifteen_centi));
    buf.set(8, load_frac_byte(m.load.fifteen_centi));
    buf.set(9, count_byte(m.disks.len()));
    let nd: usize = m.disks.len();
    let disk_limit: usize = if nd > MAX_DISK_ENTRIES { MAX_DISK_ENTRIES } else { nd };
    let mut k: usize = 0;
    while k < disk_limit
        invariant
            k <= disk_limit,
            disk_limit <= m.disks.len(),
            disk_limit <= MAX_DISK_ENTRIES,
            disk_limit == if m.disks.len() > MAX_DISK_ENTRIES { MAX_DISK_ENTRIES as int } else { m.disks.len() as int },
            buf@.len() == REPORT_LEN,
            forall|j: int| 0 <= j < DISK_PERCENT_OFFSET + k ==> buf@[j] == user_report_byte(m@, j),
            forall|j: int| DISK_PERCENT_OFFSET + k <= j < REPORT_LEN ==> buf@[j] == 0u8,
        decreases disk_limit - k,
    {
        let d = m.disks[k];
        buf.set(DISK_PERCENT_OFFSET + k, percent_byte(d.available_bytes, d.total_bytes));
        k += 1;
    }
    proof {
        assert(forall|j: int| 0 <= j < TEMPERATURE_OFFSET ==> buf@[j] == user_report_byte(m@, j));
    }
    let ns: usize = m.temperatures.len();
    let sensor_limit: usize = if ns > MAX_SENSOR_ENTRIES { MAX_SENSOR_ENTRIES } else { ns };
    let mut k: usize = 0;
    while k < sensor_limit
        invariant
            k <= sensor_limit,
            sensor_limit <= m.temperatures.len(),
            sensor_limit <= MAX_SENSOR_ENTRIES,
            sensor_limit == if m.temperatures.len() > MAX_SENSOR_ENTRIES { MAX_SENSOR_ENTRIES as int } else { m.temperatures.len() as int },
            buf@.len() == REPORT_LEN,
            forall|j: int| 0 <= j < TEMPERATURE_OFFSET + k ==> buf@[j] == user_report_byte(m@, j),
            forall|j: int| TEMPERATURE_OFFSET + k <= j < REPORT_LEN ==> buf@[j] == 0u8,
        decreases sensor_limit - k,
    {
        buf.set(TEMPERATURE_OFFSET + k, temperature_byte(m.temperatures[k]));
        k += 1;
    }
    proof {
        assert(buf@ =~= user_report_spec(m@));
    }
    buf
}

/// A report buffer of 64 zero bytes; fields not written later keep this value.
fn zero_report() -> (buf: Vec<u8>)
    ensures
        buf@.len() == REPORT_LEN,
        forall|j: int| 0 <= j < REPORT_LEN ==> buf@[j] == 0u8,
{
    let mut buf: Vec<u8> = Vec::new();
    let mut i: usize = 0;
    while i < REPORT_LEN
        invariant
            i <= REPORT_LEN,
            buf@.len() == i,
            forall|j: int| 0 <= j < i ==> buf@[j] == 0u8,
        decreases REPORT_LEN - i,
    {
        buf.push(0u8);
        i += 1;
    }
    buf
}

/// Encoding is deterministic: equal system snapshots encode to equal buffers.
pub proof fn lemma_system_report_deterministic(a: SystemMetricsView, b: SystemMetricsView)
    requires
        a == b,
    ensures
        system_report_spec(a) == system_report_spec(b),
{
}

/// Encoding is deterministic: equal user snapshots encode to equal buffers.
pub proof fn lemma_user_report_deterministic(a: UserMetricsView, b: UserMetricsView)
    requires
        a == b,
    ensures
        user_report_spec(a) == user_report_spec(b),
{
}

/// Both layouts are exactly 64 bytes, whatever the snapshot holds: excess
/// cores, disks and sensors never grow the buffer.
pub proof fn lemma_report_len(s: SystemMetricsView, u: UserMetricsView)
    ensures
        system_report_spec(s).len() == REPORT_LEN,
        user_report_spec(u).len() == REPORT_LEN,
{
}

} // verus!
