//! The resource sampler: turns raw operating-system counters into one
//! normalized snapshot per call.
//!
//! The caller reads the counters (processor, memory, volumes, network
//! interfaces, a clock) and hands them over as `RawReadings`. `SystemCollector`
//! keeps the network totals of the previous call and the time of that call, so
//! that each snapshot reports the throughput since then.

use crate::fixed::{ratio_units, saturate, Fixed};
use crate::timestamp::Timestamp;
use vstd::prelude::*;

verus! {

/// Bytes in one mebibyte.
pub const BYTES_PER_MB: u64 = 1_048_576;

/// Bytes in one gibibyte.
pub const BYTES_PER_GB: u64 = 1_073_741_824;

/// The shortest time, in microseconds, that a throughput is computed over.
pub const MIN_ELAPSED_MICROS: u64 = 1_000;

/// Processor load, clock and temperature.
#[derive(Clone, Copy, Debug, PartialEq, Eq, Structural)]
pub struct CpuMetrics {
    pub usage_pct: Fixed,
    pub frequency_mhz: Option<u64>,
    pub temperature_c: Option<Fixed>,
}

/// Graphics processor readings; absent where the platform gives none.
#[derive(Clone, Copy, Debug, PartialEq, Eq, Structural)]
pub struct GpuMetrics {
    pub usage_pct: Option<Fixed>,
    pub temperature_c: Option<Fixed>,
    pub memory_used_mb: Option<Fixed>,
    pub memory_total_mb: Option<Fixed>,
}

/// Main memory in use.
#[derive(Clone, Copy, Debug, PartialEq, Eq, Structural)]
pub struct MemoryMetrics {
    pub used_mb: Fixed,
    pub total_mb: Fixed,
    pub usage_pct: Fixed,
}

/// Space in use over all mounted volumes.
#[derive(Clone, Copy, Debug, PartialEq, Eq, Structural)]
pub struct DiskMetrics {
    pub used_gb: Fixed,
    pub total_gb: Fixed,
    pub usage_pct: Fixed,
    pub read_bytes_per_sec: Option<Fixed>,
    pub write_bytes_per_sec: Option<Fixed>,
}

/// Network throughput since the previous snapshot.
#[derive(Clone, Copy, Debug, PartialEq, Eq, Structural)]
pub struct NetworkMetrics {
    pub download_bytes_per_sec: Fixed,
    pub upload_bytes_per_sec: Fixed,
    pub latency_ms: Option<Fixed>,
}

/// One reading of the host's resources at one instant.
#[derive(Clone, Copy, Debug, PartialEq, Eq, Structural)]
pub struct TelemetrySnapshot {
    pub timestamp: Timestamp,
    pub cpu: CpuMetrics,
    pub gpu: GpuMetrics,
    pub memory: MemoryMetrics,
    pub disk: DiskMetrics,
    pub network: NetworkMetrics,
    pub power_watts: Option<Fixed>,
}

/// Capacity and free space of one mounted volume, in bytes.
#[derive(Clone, Copy, Debug, PartialEq, Eq, Structural)]
pub struct DiskSpace {
    pub total_space: u64,
    pub available_space: u64,
}

/// The cumulative byte counters of one network interface.
#[derive(Clone, Copy, Debug, PartialEq, Eq, Structural)]
pub struct InterfaceCounters {
    pub total_received: u64,
    pub total_transmitted: u64,
}

/// What the operating system reported at one instant.
#[derive(Clone, Debug, PartialEq, Eq)]
pub struct RawReadings {
    /// When the counters were read.
    pub timestamp: Timestamp,
    /// Load over all cores, as a percentage.
    pub cpu_usage_pct: Fixed,
    /// The clock of each core, in megahertz.
    pub cpu_frequencies_mhz: Vec<u64>,
    /// Installed memory, in bytes.
    pub total_memory: u64,
    /// Memory in use, in bytes.
    pub used_memory: u64,
    /// The mounted volumes.
    pub disks: Vec<DiskSpace>,
    /// The network interfaces.
    pub interfaces: Vec<InterfaceCounters>,
    /// The reading of a clock that never runs backwards, in microseconds.
    pub monotonic_micros: u64,
}

/// What the sampler remembers of the previous reading.
#[derive(Clone, Copy, Debug, PartialEq, Eq, Structural)]
pub struct Previous {
    /// The bytes received in total, over all interfaces.
    pub received: u64,
    /// The bytes transmitted in total, over all interfaces.
    pub transmitted: u64,
    /// The clock's reading, in microseconds.
    pub micros: u64,
}

/// The sum of the numbers in `s`.
pub open spec fn sum_of(s: Seq<u64>) -> nat
    decreases s.len(),
{
    if s.len() == 0 {
        0
    } else {
        sum_of(s.drop_last()) + s.last() as nat
    }
}

/// The mean clock of the cores, rounded down; absent where no core is reported.
pub open spec fn mean_frequency(freqs: Seq<u64>) -> Option<u64> {
    if freqs.len() == 0 {
        None
    } else {
        Some((sum_of(freqs) / freqs.len()) as u64)
    }
}

/// The bytes received over all interfaces.
pub open spec fn received_sum(s: Seq<InterfaceCounters>) -> nat
    decreases s.len(),
{
    if s.len() == 0 {
        0
    } else {
        received_sum(s.drop_last()) + s.last().total_received as nat
    }
}

/// The bytes transmitted over all interfaces.
pub open spec fn transmitted_sum(s: Seq<InterfaceCounters>) -> nat
    decreases s.len(),
{
    if s.len() == 0 {
        0
    } else {
        transmitted_sum(s.drop_last()) + s.last().total_transmitted as nat
    }
}

/// The capacity of all volumes together, in bytes.
pub open spec fn capacity_sum(s: Seq<DiskSpace>) -> nat
    decreases s.len(),
{
    if s.len() == 0 {
        0
    } else {
        capacity_sum(s.drop_last()) + s.last().total_space as nat
    }
}

/// The bytes in use on one volume: never negative, also where the free space
/// momentarily exceeds the capacity.
pub open spec fn used_space(d: DiskSpace) -> nat {
    if d.total_space >= d.available_space {
        (d.total_space - d.available_space) as nat
    } else {
        0
    }
}

/// The bytes in use on all volumes together.
pub open spec fn used_sum(s: Seq<DiskSpace>) -> nat
    decreases s.len(),
{
    if s.len() == 0 {
        0
    } else {
        used_sum(s.drop_last()) + used_space(s.last())
    }
}

/// How far a cumulative counter moved since the previous reading; zero where
/// it moved backwards, as after a reset or a wrap.
pub open spec fn counter_delta(now: u64, previous: u64) -> nat {
    if now >= previous {
        (now - previous) as nat
    } else {
        0
    }
}

/// The time that a throughput is computed over: the microseconds between the
/// two readings of the clock, but at least one millisecond.
pub open spec fn effective_micros(now: u64, previous: u64) -> nat {
    if counter_delta(now, previous) < MIN_ELAPSED_MICROS {
        MIN_ELAPSED_MICROS as nat
    } else {
        counter_delta(now, previous)
    }
}

/// Bytes per second, in units of `Fixed`, for `delta` bytes in `micros` microseconds.
pub open spec fn rate_units(delta: nat, micros: nat) -> nat {
    ratio_units(delta * 1_000_000, micros)
}

/// A share as a percentage, in units of `Fixed`; zero where the whole is zero.
pub open spec fn percent_units(part: nat, whole: nat) -> nat {
    ratio_units(part * 100, whole)
}

/// The processor part of the snapshot for `raw`.
pub open spec fn cpu_of(raw: RawReadings) -> CpuMetrics {
    CpuMetrics {
        usage_pct: raw.cpu_usage_pct,
        frequency_mhz: mean_frequency(raw.cpu_frequencies_mhz@),
        temperature_c: None,
    }
}

/// The memory part of the snapshot for `raw`.
pub open spec fn memory_of(raw: RawReadings) -> MemoryMetrics {
    MemoryMetrics {
        used_mb: Fixed { units: saturate(ratio_units(raw.used_memory as nat, BYTES_PER_MB as nat)) },
        total_mb: Fixed {
            units: saturate(ratio_units(raw.total_memory as nat, BYTES_PER_MB as nat)),
        },
        usage_pct: Fixed {
            units: saturate(percent_units(raw.used_memory as nat, raw.total_memory as nat)),
        },
    }
}

/// The volume part of the snapshot for `raw`. The two sums saturate at the
/// largest `u64` before anything is derived from them.
pub open spec fn disk_of(raw: RawReadings) -> DiskMetrics {
    let total = saturate(capacity_sum(raw.disks@));
    let used = saturate(used_sum(raw.disks@));
    DiskMetrics {
        used_gb: Fixed { units: saturate(ratio_units(used as nat, BYTES_PER_GB as nat)) },
        total_gb: Fixed { units: saturate(ratio_units(total as nat, BYTES_PER_GB as nat)) },
        usage_pct: Fixed { units: saturate(percent_units(used as nat, total as nat)) },
        read_bytes_per_sec: None,
        write_bytes_per_sec: None,
    }
}

/// What is remembered of the reading `raw`. The totals over the interfaces
/// saturate at the largest `u64`.
pub open spec fn remembered(raw: RawReadings) -> Previous {
    Previous {
        received: saturate(received_sum(raw.interfaces@)),
        transmitted: saturate(transmitted_sum(raw.interfaces@)),
        micros: raw.monotonic_micros,
    }
}

/// The network part of the snapshot for `raw`, given the previous reading.
pub open spec fn network_of(previous: Previous, raw: RawReadings) -> NetworkMetrics {
    let now = remembered(raw);
    let micros = effective_micros(now.micros, previous.micros);
    NetworkMetrics {
        download_bytes_per_sec: Fixed {
            units: saturate(rate_units(counter_delta(now.received, previous.received), micros)),
        },
        upload_bytes_per_sec: Fixed {
            units: saturate(
                rate_units(counter_delta(now.transmitted, previous.transmitted), micros),
            ),
        },
        latency_ms: None,
    }
}

/// The snapshot for `raw`, given the previous reading.
pub open spec fn snapshot_of(previous: Previous, raw: RawReadings) -> TelemetrySnapshot {
    TelemetrySnapshot {
        timestamp: raw.timestamp,
        cpu: cpu_of(raw),
        gpu: GpuMetrics {
            usage_pct: None,
            temperature_c: None,
            memory_used_mb: None,
            memory_total_mb: None,
        },
        memory: memory_of(raw),
        disk: disk_of(raw),
        network: network_of(previous, raw),
        power_watts: None,
    }
}

/// Whether a percentage lies between 0 and 100.
pub open spec fn is_percentage(x: Fixed) -> bool {
    x.units <= 1_000_000
}

/// The volumes never hold more than their capacity.
proof fn lemma_used_within_capacity(s: Seq<DiskSpace>)
    ensures
        used_sum(s) <= capacity_sum(s),
    decreases s.len(),
{
    if s.len() > 0 {
        lemma_used_within_capacity(s.drop_last());
    }
}

/// A part that does not exceed the whole is at most 100 percent of it.
proof fn lemma_percent_of_part(part: nat, whole: nat)
    requires
        part <= whole,
    ensures
        percent_units(part, whole) <= 1_000_000,
{
    if whole > 0 {
        assert((part * 100 * 10_000) / whole <= 1_000_000) by (nonlinear_arith)
            requires
                part <= whole,
                whole > 0,
        ;
    }
}

/// Every percentage of a snapshot lies between 0 and 100, or is absent,
/// provided that the raw processor load is a percentage and that the memory in
/// use does not exceed the installed memory. The disk percentage needs neither.
pub proof fn lemma_percentages_in_range(previous: Previous, raw: RawReadings)
    requires
        is_percentage(raw.cpu_usage_pct),
        raw.used_memory <= raw.total_memory,
    ensures
        is_percentage(snapshot_of(previous, raw).cpu.usage_pct),
        is_percentage(snapshot_of(previous, raw).memory.usage_pct),
        is_percentage(snapshot_of(previous, raw).disk.usage_pct),
        snapshot_of(previous, raw).gpu.usage_pct is None,
{
    lemma_percent_of_part(raw.used_memory as nat, raw.total_memory as nat);
    lemma_disk_percentage_in_range(raw);
}

/// The disk percentage of a snapshot lies between 0 and 100, whatever was read.
pub proof fn lemma_disk_percentage_in_range(raw: RawReadings)
    ensures
        is_percentage(disk_of(raw).usage_pct),
{
    lemma_used_within_capacity(raw.disks@);
    let total = saturate(capacity_sum(raw.disks@));
    let used = saturate(used_sum(raw.disks@));
    lemma_percent_of_part(used as nat, total as nat);
}

/// The quotient that a rate is: `rate * micros <= delta * 10^10 < (rate + 1) * micros`.
proof fn lemma_rate_is_quotient(delta: nat, micros: nat)
    requires
        micros > 0,
    ensures
        rate_units(delta, micros) * micros <= delta * 10_000_000_000,
        delta * 10_000_000_000 < (rate_units(delta, micros) + 1) * micros,
        delta == 0 ==> rate_units(delta, micros) == 0,
{
    let n = delta * 1_000_000 * 10_000;
    assert(n == delta * 10_000_000_000) by (nonlinear_arith)
        requires
            n == delta * 1_000_000 * 10_000,
    ;
    assert((n / micros) * micros <= n && n < (n / micros + 1) * micros) by (nonlinear_arith)
        requires
            micros > 0,
    ;
    if delta == 0 {
        assert(0nat / micros == 0) by (nonlinear_arith)
            requires
                micros > 0,
        ;
    }
}

/// The download throughput of a snapshot is the movement of the receive
/// counter divided by the time since the previous reading, rounded down to a
/// unit of `Fixed`: with `d` its units and `e` the elapsed microseconds (at
/// least one millisecond), `d * e <= delta * 10^10`, and
/// `delta * 10^10 < (d + 1) * e` unless `d` is the largest value. A counter that
/// moved backwards gives zero. The same holds of the upload throughput and the
/// transmit counter.
pub proof fn lemma_throughput(previous: Previous, raw: RawReadings)
    ensures
        ({
            let now = remembered(raw);
            let delta = counter_delta(now.received, previous.received);
            let e = effective_micros(now.micros, previous.micros);
            let d = network_of(previous, raw).download_bytes_per_sec.units;
            &&& e >= MIN_ELAPSED_MICROS
            &&& now.received <= previous.received ==> d == 0
            &&& d * e <= delta * 10_000_000_000
            &&& d < u64::MAX ==> delta * 10_000_000_000 < (d + 1) * e
        }),
        ({
            let now = remembered(raw);
            let delta = counter_delta(now.transmitted, previous.transmitted);
            let e = effective_micros(now.micros, previous.micros);
            let u = network_of(previous, raw).upload_bytes_per_sec.units;
            &&& now.transmitted <= previous.transmitted ==> u == 0
            &&& u * e <= delta * 10_000_000_000
            &&& u < u64::MAX ==> delta * 10_000_000_000 < (u + 1) * e
        }),
{
    let now = remembered(raw);
    let e = effective_micros(now.micros, previous.micros);
    let dr = counter_delta(now.received, previous.received);
    let dt = counter_delta(now.transmitted, previous.transmitted);
    lemma_rate_is_quotient(dr, e);
    lemma_rate_is_quotient(dt, e);
    let d = saturate(rate_units(dr, e));
    let u = saturate(rate_units(dt, e));
    assert(d * e <= rate_units(dr, e) * e) by (nonlinear_arith)
        requires
            d <= rate_units(dr, e),
            e > 0,
    ;
    assert(u * e <= rate_units(dt, e) * e) by (nonlinear_arith)
        requires
            u <= rate_units(dt, e),
            e > 0,
    ;
}

/// The sampler's memory between two calls: the network totals and the time of
/// the previous reading.
#[derive(Clone, Copy, Debug, PartialEq, Eq, Structural)]
pub struct SystemCollector {
    prev_rx: u64,
    prev_tx: u64,
    prev_tick: u64,
}

impl View for SystemCollector {
    type V = Previous;

    /// What is remembered of the previous reading.
    closed spec fn view(&self) -> Previous {
        Previous { received: self.prev_rx, transmitted: self.prev_tx, micros: self.prev_tick }
    }
}

impl SystemCollector {
    /// A sampler that starts from the counters in `interfaces`, read when the
    /// clock showed `monotonic_micros`.
    pub fn new(interfaces: &Vec<InterfaceCounters>, monotonic_micros: u64) -> (r: SystemCollector)
        ensures
            r@ == (Previous {
                received: saturate(received_sum(interfaces@)),
                transmitted: saturate(transmitted_sum(interfaces@)),
                micros: monotonic_micros,
            }),
    {
        let totals = SystemCollector::network_totals(interfaces);
        SystemCollector { prev_rx: totals.0, prev_tx: totals.1, prev_tick: monotonic_micros }
    }

    /// What is remembered of the previous reading.
    pub fn previous(&self) -> (p: Previous)
        ensures
            p == self@,
    {
        Previous { received: self.prev_rx, transmitted: self.prev_tx, micros: self.prev_tick }
    }

    /// Produces the snapshot for `raw`. The throughput is taken over the time
    /// since the previous call; only then are the totals and the clock of
    /// `raw` remembered for the next call.
    pub fn collect(&mut self, raw: &RawReadings) -> (snapshot: TelemetrySnapshot)
        ensures
            snapshot == snapshot_of(old(self)@, *raw),
            final(self)@ == remembered(*raw),
            is_percentage(snapshot.disk.usage_pct),
            is_percentage(raw.cpu_usage_pct) ==> is_percentage(snapshot.cpu.usage_pct),
            raw.used_memory <= raw.total_memory ==> is_percentage(snapshot.memory.usage_pct),
    {
        let frequency = SystemCollector::average_frequency(&raw.cpu_frequencies_mhz);

        let memory_total_mb = Fixed::from_ratio(raw.total_memory as u128, BYTES_PER_MB);
        let memory_used_mb = Fixed::from_ratio(raw.used_memory as u128, BYTES_PER_MB);
        let memory_usage_pct = Fixed::percent_of(raw.used_memory, raw.total_memory);

        let space = SystemCollector::disk_totals(&raw.disks);
        let total_disk = Fixed::from_ratio(space.0 as u128, BYTES_PER_GB);
        let used_disk = Fixed::from_ratio(space.1 as u128, BYTES_PER_GB);
        let disk_usage_pct = Fixed::percent_of(space.1, space.0);

        let totals = SystemCollector::network_totals(&raw.interfaces);
        let since: u64 = raw.monotonic_micros.saturating_sub(self.prev_tick);
        let elapsed: u64 = if since < MIN_ELAPSED_MICROS {
            MIN_ELAPSED_MICROS
        } else {
            since
        };
        let rx_rate = Fixed::from_ratio(
            totals.0.saturating_sub(self.prev_rx) as u128 * 1_000_000,
            elapsed,
        );
        let tx_rate = Fixed::from_ratio(
            totals.1.saturating_sub(self.prev_tx) as u128 * 1_000_000,
            elapsed,
        );

        proof {
            lemma_disk_percentage_in_range(*raw);
            if raw.used_memory <= raw.total_memory {
                lemma_percent_of_part(raw.used_memory as nat, raw.total_memory as nat);
            }
        }

        self.prev_rx = totals.0;
        self.prev_tx = totals.1;
        self.prev_tick = raw.monotonic_micros;

        TelemetrySnapshot {
            timestamp: raw.timestamp,
            cpu: CpuMetrics {
                usage_pct: raw.cpu_usage_pct,
                frequency_mhz: frequency,
                temperature_c: None,
            },
            gpu: GpuMetrics {
                usage_pct: None,
                temperature_c: None,
                memory_used_mb: None,
                memory_total_mb: None,
            },
            memory: MemoryMetrics {
                used_mb: memory_used_mb,
                total_mb: memory_total_mb,
                usage_pct: memory_usage_pct,
            },
            disk: DiskMetrics {
                used_gb: used_disk,
                total_gb: total_disk,
                usage_pct: disk_usage_pct,
                read_bytes_per_sec: None,
                write_bytes_per_sec: None,
            },
            network: NetworkMetrics {
                download_bytes_per_sec: rx_rate,
                upload_bytes_per_sec: tx_rate,
                latency_ms: None,
            },
            power_watts: None,
        }
    }

    /// The bytes received and transmitted over all interfaces, each sum
    /// saturated at the largest `u64`.
    pub fn network_totals(interfaces: &Vec<InterfaceCounters>) -> (totals: (u64, u64))
        ensures
            totals.0 == saturate(received_sum(interfaces@)),
            totals.1 == saturate(transmitted_sum(interfaces@)),
    {
        let mut rx: u64 = 0;
        let mut tx: u64 = 0;
        let mut i: usize = 0;
        while i < interfaces.len()
            invariant
                i <= interfaces.len(),
                rx == saturate(received_sum(interfaces@.take(i as int))),
                tx == saturate(transmitted_sum(interfaces@.take(i as int))),
            decreases interfaces.len() - i,
        {
            assert(interfaces@.take(i + 1).drop_last() =~= interfaces@.take(i as int));
            rx = rx.saturating_add(interfaces[i].total_received);
            tx = tx.saturating_add(interfaces[i].total_transmitted);
            i += 1;
        }
        assert(interfaces@.take(i as int) =~= interfaces@);
        (rx, tx)
    }

    /// The capacity and the bytes in use over all volumes, each sum saturated
    /// at the largest `u64`.
    pub fn disk_totals(disks: &Vec<DiskSpace>) -> (totals: (u64, u64))
        ensures
            totals.0 == saturate(capacity_sum(disks@)),
            totals.1 == saturate(used_sum(disks@)),
    {
        let mut total: u64 = 0;
        let mut used: u64 = 0;
        let mut i: usize = 0;
        while i < disks.len()
            invariant
                i <= disks.len(),
                total == saturate(capacity_sum(disks@.take(i as int))),
                used == saturate(used_sum(disks@.take(i as int))),
            decreases disks.len() - i,
        {
            assert(disks@.take(i + 1).drop_last() =~= disks@.take(i as int));
            let disk = disks[i];
            total = total.saturating_add(disk.total_space);
            used = used.saturating_add(disk.total_space.saturating_sub(disk.available_space));
            i += 1;
        }
        assert(disks@.take(i as int) =~= disks@);
        (total, used)
    }

    /// The mean of the cores' clocks, rounded down.
    pub fn average_frequency(freqs: &Vec<u64>) -> (r: Option<u64>)
        ensures
            r == mean_frequency(freqs@),
    {
        if freqs.len() == 0 {
            return None;
        }
        let mut total: u128 = 0;
        let mut i: usize = 0;
        while i < freqs.len()
            invariant
                i <= freqs.len(),
                total == sum_of(freqs@.take(i as int)),
                total <= i * 0xffff_ffff_ffff_ffff,
            decreases freqs.len() - i,
        {
            assert(freqs@.take(i + 1).drop_last() =~= freqs@.take(i as int));
            total = total + freqs[i] as u128;
            i += 1;
        }
        assert(freqs@.take(i as int) =~= freqs@);
        let n: u128 = freqs.len() as u128;
        let mean: u128 = total / n;
        assert(mean <= 0xffff_ffff_ffff_ffff) by (nonlinear_arith)
            requires
                mean == total / n,
                n > 0,
                total <= n * 0xffff_ffff_ffff_ffff,
        ;
        Some(mean as u64)
    }
}

} // verus!
