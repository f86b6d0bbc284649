//! From the daemon's counters to the statistics that the dashboard shows.

use crate::types::ContainerStats;
use vstd::prelude::*;

verus! {

/// Two readings of a container's counters, one after the other.
#[derive(Clone, Copy, Debug, PartialEq, Eq, Structural)]
pub struct CounterDeltas {
    /// CPU time that the container used between the readings.
    pub cpu: u64,
    /// CPU time that the whole system used between the readings.
    pub system: u64,
    /// Processors that the container may run on.
    pub online_cpus: u32,
    /// Memory that the container uses, in bytes.
    pub memory_used: u64,
    /// Memory that the container may use, in bytes.
    pub memory_limit: u64,
    /// Bytes sent between the readings.
    pub tx_bytes: u64,
    /// Bytes received between the readings.
    pub rx_bytes: u64,
    /// Milliseconds between the readings.
    pub elapsed_millis: u64,
}

/// A quotient of natural numbers rounded down and held at `cap`; zero
/// where the divisor is zero.
pub open spec fn capped_ratio(a: nat, b: nat, cap: nat) -> nat {
    if b == 0 {
        0
    } else if a / b > cap {
        cap
    } else {
        a / b
    }
}

/// The share of the system's CPU time that the container used, times the
/// number of processors, in hundredths of a percent.
pub open spec fn spec_cpu_usage(cpu: u64, system: u64, online_cpus: u32) -> u32 {
    capped_ratio(cpu as nat * online_cpus as nat * 10000, system as nat, u32::MAX as nat) as u32
}

/// The share of its memory limit that the container uses, in hundredths of
/// a percent.
pub open spec fn spec_memory_usage(used: u64, limit: u64) -> u32 {
    capped_ratio(used as nat * 10000, limit as nat, u32::MAX as nat) as u32
}

/// Bytes per second, given the bytes moved in a number of milliseconds.
pub open spec fn spec_byte_rate(bytes: u64, elapsed_millis: u64) -> u64 {
    capped_ratio(bytes as nat * 1000, elapsed_millis as nat, u64::MAX as nat) as u64
}

/// Divides and holds the quotient at `cap`.
fn ratio(a: u128, b: u128, cap: u128) -> (r: u128)
    ensures
        r == capped_ratio(a as nat, b as nat, cap as nat),
{
    if b == 0 {
        0
    } else if a / b > cap {
        cap
    } else {
        a / b
    }
}

/// The CPU usage of a container in hundredths of a percent.
pub fn cpu_usage(cpu: u64, system: u64, online_cpus: u32) -> (r: u32)
    ensures
        r == spec_cpu_usage(cpu, system, online_cpus),
{
    assert(cpu as u128 * online_cpus as u128 <= 0xffff_ffff_ffff_ffff * 0xffff_ffff)
        by (nonlinear_arith)
        requires
            cpu <= 0xffff_ffff_ffff_ffff,
            online_cpus <= 0xffff_ffff,
    ;
    let work: u128 = cpu as u128 * online_cpus as u128;
    ratio(work * 10000, system as u128, u32::MAX as u128) as u32
}

/// The memory usage of a container in hundredths of a percent.
pub fn memory_usage(used: u64, limit: u64) -> (r: u32)
    ensures
        r == spec_memory_usage(used, limit),
{
    ratio(used as u128 * 10000, limit as u128, u32::MAX as u128) as u32
}

/// A rate in bytes per second.
pub fn byte_rate(bytes: u64, elapsed_millis: u64) -> (r: u64)
    ensures
        r == spec_byte_rate(bytes, elapsed_millis),
{
    ratio(bytes as u128 * 1000, elapsed_millis as u128, u64::MAX as u128) as u64
}

/// The statistics that two readings of the counters give.
pub fn stats_from(deltas: &CounterDeltas) -> (r: ContainerStats)
    ensures
        r == (ContainerStats {
            cpu: spec_cpu_usage(deltas.cpu, deltas.system, deltas.online_cpus),
            memory: spec_memory_usage(deltas.memory_used, deltas.memory_limit),
            network_tx_bytes_per_sec: spec_byte_rate(deltas.tx_bytes, deltas.elapsed_millis),
            network_rx_bytes_per_sec: spec_byte_rate(deltas.rx_bytes, deltas.elapsed_millis),
        }),
{
    ContainerStats {
        cpu: cpu_usage(deltas.cpu, deltas.system, deltas.online_cpus),
        memory: memory_usage(deltas.memory_used, deltas.memory_limit),
        network_tx_bytes_per_sec: byte_rate(deltas.tx_bytes, deltas.elapsed_millis),
        network_rx_bytes_per_sec: byte_rate(deltas.rx_bytes, deltas.elapsed_millis),
    }
}

/// Bytes sent and received since a container started.
#[derive(Clone, Copy, Debug, PartialEq, Eq, Structural)]
pub struct Traffic {
    pub tx: u64,
    pub rx: u64,
}

/// One reading of a container's counters, as the daemon sends it. The
/// daemon sends with each reading the CPU times of the reading before.
#[derive(Clone, Copy, Debug, PartialEq, Eq, Structural)]
pub struct Reading {
    /// CPU time that the container has used.
    pub cpu_total: u64,
    /// CPU time that the whole system has used.
    pub system_total: u64,
    /// The same two at the reading before.
    pub cpu_total_before: u64,
    pub system_total_before: u64,
    /// Processors that the container may run on, where the daemon says.
    pub online_cpus: Option<u32>,
    pub memory_used: u64,
    pub memory_limit: u64,
    /// Bytes moved over all networks of the container.
    pub traffic: Traffic,
}

/// The sum of the bytes moved over the first `n` networks, held at the
/// largest number.
pub open spec fn summed(networks: Seq<Traffic>, n: nat) -> (nat, nat)
    decreases n,
{
    if n == 0 || n > networks.len() {
        (0, 0)
    } else {
        let rest = summed(networks, (n - 1) as nat);
        (rest.0 + networks[n - 1].tx as nat, rest.1 + networks[n - 1].rx as nat)
    }
}

/// A natural number held at the largest `u64`.
pub open spec fn capped(n: nat) -> u64 {
    if n > u64::MAX {
        u64::MAX
    } else {
        n as u64
    }
}

/// The traffic of a container over all its networks.
pub fn total_traffic(networks: &Vec<Traffic>) -> (r: Traffic)
    ensures
        r.tx == capped(summed(networks@, networks@.len()).0),
        r.rx == capped(summed(networks@, networks@.len()).1),
{
    let mut tx: u64 = 0;
    let mut rx: u64 = 0;
    let mut i: usize = 0;
    while i < networks.len()
        invariant
            i <= networks@.len(),
            tx == capped(summed(networks@, i as nat).0),
            rx == capped(summed(networks@, i as nat).1),
        decreases networks.len() - i,
    {
        tx = tx.saturating_add(networks[i].tx);
        rx = rx.saturating_add(networks[i].rx);
        i = i + 1;
    }
    Traffic { tx, rx }
}

/// What changed from the reading before to this one, given the traffic at
/// the reading before and the milliseconds since. A first reading has no
/// traffic before it and moves no bytes; a counter that went backwards
/// counts as unchanged; a container without a count of processors has
/// one.
pub fn deltas(reading: &Reading, before: &Option<Traffic>, elapsed_millis: u64) -> (r:
    CounterDeltas)
    ensures
        r.cpu == if reading.cpu_total >= reading.cpu_total_before {
            reading.cpu_total - reading.cpu_total_before
        } else {
            0
        },
        r.system == if reading.system_total >= reading.system_total_before {
            reading.system_total - reading.system_total_before
        } else {
            0
        },
        r.online_cpus == match reading.online_cpus {
            Some(n) => n,
            None => 1u32,
        },
        r.memory_used == reading.memory_used,
        r.memory_limit == reading.memory_limit,
        match *before {
            Some(b) => {
                &&& r.tx_bytes == if reading.traffic.tx >= b.tx {
                    reading.traffic.tx - b.tx
                } else {
                    0
                }
                &&& r.rx_bytes == if reading.traffic.rx >= b.rx {
                    reading.traffic.rx - b.rx
                } else {
                    0
                }
                &&& r.elapsed_millis == elapsed_millis
            },
            None => r.tx_bytes == 0 && r.rx_bytes == 0 && r.elapsed_millis == 0,
        },
{
    let (tx_bytes, rx_bytes, elapsed) = match before {
        Some(b) => (
            reading.traffic.tx.saturating_sub(b.tx),
            reading.traffic.rx.saturating_sub(b.rx),
            elapsed_millis,
        ),
        None => (0, 0, 0),
    };
    CounterDeltas {
        cpu: reading.cpu_total.saturating_sub(reading.cpu_total_before),
        system: reading.system_total.saturating_sub(reading.system_total_before),
        online_cpus: match reading.online_cpus {
            Some(n) => n,
            None => 1,
        },
        memory_used: reading.memory_used,
        memory_limit: reading.memory_limit,
        tx_bytes,
        rx_bytes,
        elapsed_millis: elapsed,
    }
}

} // verus!
