//! Adaptive load hints.
//!
//! A pure function of CPU usage and free memory decides which advisory hints
//! the daemon publishes to its clients.
use vstd::prelude::*;

use crate::protocol::{LoadHint, ServerLoad};

verus! {

/// CPU usage (hundredths of a percent) from which the daemon counts as busy.
pub const CPU_HIGH_THRESHOLD: u32 = 8000;

/// CPU usage (hundredths of a percent) from which the daemon counts as overloaded.
pub const CPU_CRITICAL_THRESHOLD: u32 = 9500;

/// Free memory (MB) at or below which memory counts as low.
pub const RAM_LOW_MB: u64 = 100;

/// Free memory (MB) at or below which memory counts as critical.
pub const RAM_CRITICAL_MB: u64 = 50;

/// Whether a hint is called for at the given load.
pub open spec fn hint_active(h: LoadHint, cpu: u32, ram: u64) -> bool {
    match h {
        LoadHint::ThrottleTransfers => cpu >= CPU_HIGH_THRESHOLD || ram <= RAM_CRITICAL_MB,
        LoadHint::GenerateThumbnailsLocally => cpu >= CPU_HIGH_THRESHOLD,
        LoadHint::SearchLocally => cpu >= CPU_CRITICAL_THRESHOLD || (RAM_CRITICAL_MB < ram
            && ram <= RAM_LOW_MB),
        LoadHint::Recovering => cpu >= CPU_CRITICAL_THRESHOLD || ram <= RAM_CRITICAL_MB,
    }
}

/// `s` followed by `h` when `h` is active.
pub open spec fn push_if_active(s: Seq<LoadHint>, h: LoadHint, cpu: u32, ram: u64) -> Seq<
    LoadHint,
> {
    if hint_active(h, cpu, ram) {
        s.push(h)
    } else {
        s
    }
}

/// The active hints in definition order, each once.
pub open spec fn hints_of(cpu: u32, ram: u64) -> Seq<LoadHint> {
    let s0 = Seq::<LoadHint>::empty();
    let s1 = push_if_active(s0, LoadHint::ThrottleTransfers, cpu, ram);
    let s2 = push_if_active(s1, LoadHint::GenerateThumbnailsLocally, cpu, ram);
    let s3 = push_if_active(s2, LoadHint::SearchLocally, cpu, ram);
    push_if_active(s3, LoadHint::Recovering, cpu, ram)
}

/// Whether the daemon reports itself busy with I/O (CPU above the high mark).
pub open spec fn io_busy_at(cpu: u32) -> bool {
    cpu > CPU_HIGH_THRESHOLD
}

/// The load report for one sample.
pub open spec fn load_report(load: ServerLoad, cpu: u32, ram: u64) -> bool {
    &&& load.cpu_hundredths == cpu
    &&& load.ram_free_mb == ram
    &&& load.io_busy == io_busy_at(cpu)
    &&& load.hints@ == hints_of(cpu, ram)
}

proof fn lemma_hints_membership(cpu: u32, ram: u64, h: LoadHint)
    ensures
        hints_of(cpu, ram).contains(h) <==> hint_active(h, cpu, ram),
{
    let s = hints_of(cpu, ram);
    if hint_active(h, cpu, ram) {
        let s0 = Seq::<LoadHint>::empty();
        let s1 = push_if_active(s0, LoadHint::ThrottleTransfers, cpu, ram);
        let s2 = push_if_active(s1, LoadHint::GenerateThumbnailsLocally, cpu, ram);
        let s3 = push_if_active(s2, LoadHint::SearchLocally, cpu, ram);
        match h {
            LoadHint::ThrottleTransfers => {
                assert(s1[s1.len() - 1] == h);
                assert(s[s1.len() - 1] == h);
            },
            LoadHint::GenerateThumbnailsLocally => {
                assert(s[s2.len() - 1] == h);
            },
            LoadHint::SearchLocally => {
                assert(s[s3.len() - 1] == h);
            },
            LoadHint::Recovering => {
                assert(s[s.len() - 1] == h);
            },
        }
    }
}

/// Derive the advisory hints for a CPU usage (hundredths of a percent) and
/// free memory (MB).
///
/// | condition                | hints                                         |
/// |--------------------------|-----------------------------------------------|
/// | CPU >= 95 %              | throttle, thumbnails, search, recovering      |
/// | 80 % <= CPU < 95 %       | throttle, thumbnails                          |
/// | free RAM <= 50 MB        | throttle, recovering                          |
/// | 50 < free RAM <= 100 MB  | search                                        |
///
/// The rows are merged; each hint appears once, in definition order.
pub fn generate_hints(cpu_hundredths: u32, ram_free_mb: u64) -> (hints: Vec<LoadHint>)
    ensures
        hints@ == hints_of(cpu_hundredths, ram_free_mb),
{
    let cpu_high = cpu_hundredths >= CPU_HIGH_THRESHOLD;
    let cpu_critical = cpu_hundredths >= CPU_CRITICAL_THRESHOLD;
    let ram_critical = ram_free_mb <= RAM_CRITICAL_MB;
    let ram_low = !ram_critical && ram_free_mb <= RAM_LOW_MB;
    let mut hints: Vec<LoadHint> = Vec::new();
    if cpu_high || ram_critical {
        hints.push(LoadHint::ThrottleTransfers);
    }
    if cpu_high {
        hints.push(LoadHint::GenerateThumbnailsLocally);
    }
    if cpu_critical || ram_low {
        hints.push(LoadHint::SearchLocally);
    }
    if cpu_critical || ram_critical {
        hints.push(LoadHint::Recovering);
    }
    hints
}

/// Build the load report for one sample: CPU usage in hundredths of a percent
/// and available memory in bytes.
pub fn sample_load(cpu_hundredths: u32, available_bytes: u64) -> (load: ServerLoad)
    ensures
        load_report(load, cpu_hundredths, (available_bytes / 1024 / 1024) as u64),
{
    let ram_free_mb = available_bytes / 1024 / 1024;
    ServerLoad {
        cpu_hundredths,
        ram_free_mb,
        io_busy: cpu_hundredths > CPU_HIGH_THRESHOLD,
        hints: generate_hints(cpu_hundredths, ram_free_mb),
    }
}

/// For a fixed amount of free memory, more CPU usage never takes a hint away.
pub proof fn lemma_hints_monotone_in_cpu(cpu1: u32, cpu2: u32, ram: u64, h: LoadHint)
    requires
        cpu1 <= cpu2,
        hints_of(cpu1, ram).contains(h),
    ensures
        hints_of(cpu2, ram).contains(h),
{
    lemma_hints_membership(cpu1, ram, h);
    lemma_hints_membership(cpu2, ram, h);
}

/// For a fixed CPU usage, less free memory never takes a hint away, except
/// where memory falls from the low band (51..=100 MB) into the critical band
/// (at most 50 MB) below the critical CPU mark: the search hint of the low
/// band is not among the critical band's hints.
pub proof fn lemma_hints_monotone_in_ram(cpu: u32, ram1: u64, ram2: u64, h: LoadHint)
    requires
        ram2 <= ram1,
        hints_of(cpu, ram1).contains(h),
        !(cpu < CPU_CRITICAL_THRESHOLD && RAM_CRITICAL_MB < ram1 && ram1 <= RAM_LOW_MB && ram2
            <= RAM_CRITICAL_MB),
    ensures
        hints_of(cpu, ram2).contains(h),
{
    lemma_hints_membership(cpu, ram1, h);
    lemma_hints_membership(cpu, ram2, h);
}

} // verus!
