//! Hardware resource profile: sizes the build's worker count and JVM heap
//! from the machine's core count and total memory.

use vstd::prelude::*;
use vstd::arithmetic::div_mod::{lemma_div_is_ordered, lemma_div_multiples_vanish};
use vstd::arithmetic::mul::lemma_mul_inequality;

verus! {

/// One gibibyte, in bytes.
pub const BYTES_PER_GB: u64 = 0x40000000;

/// Resource allocation derived from the machine's hardware.
pub struct HardwareProfile {
    pub max_workers: usize,
    pub jvm_heap_gb: usize,
    pub cpu_cores: usize,
    pub total_ram_gb: usize,
}

/// Worker count: 90% of the cores (rounded down), but never below 4.
pub open spec fn spec_max_workers(cpu_cores: nat) -> nat {
    if cpu_cores * 9 / 10 > 4 {
        cpu_cores * 9 / 10
    } else {
        4
    }
}

/// JVM heap: half the RAM in whole gigabytes, clamped to [4, 16].
pub open spec fn spec_heap_gb(total_ram_gb: nat) -> nat {
    if total_ram_gb / 2 < 4 {
        4
    } else if total_ram_gb / 2 > 16 {
        16
    } else {
        total_ram_gb / 2
    }
}

/// Whole gigabytes contained in a byte count, rounded down.
pub open spec fn spec_ram_gb(total_ram_bytes: nat) -> nat {
    total_ram_bytes / (BYTES_PER_GB as nat)
}

/// The worker count grows (weakly) with the core count.
pub proof fn lemma_max_workers_monotonic(c1: nat, c2: nat)
    requires
        c1 <= c2,
    ensures
        spec_max_workers(c1) <= spec_max_workers(c2),
{
    lemma_mul_inequality(c1 as int, c2 as int, 9);
    lemma_div_is_ordered(c1 as int * 9, c2 as int * 9, 10);
}

/// The heap size grows (weakly) with the memory size, flattening out at
/// the clamp bounds.
pub proof fn lemma_heap_gb_monotonic(g1: nat, g2: nat)
    requires
        g1 <= g2,
    ensures
        spec_heap_gb(g1) <= spec_heap_gb(g2),
{
    lemma_div_is_ordered(g1 as int, g2 as int, 2);
}

/// Over the raw inputs of a profile, both allocations grow (weakly)
/// with their respective resource: more cores never mean fewer workers,
/// and more memory never means a smaller heap, up to the clamp bounds.
pub proof fn lemma_profile_monotonic(c1: nat, c2: nat, b1: nat, b2: nat)
    requires
        c1 <= c2,
        b1 <= b2,
    ensures
        spec_max_workers(c1) <= spec_max_workers(c2),
        spec_heap_gb(spec_ram_gb(b1)) <= spec_heap_gb(spec_ram_gb(b2)),
{
    lemma_max_workers_monotonic(c1, c2);
    lemma_div_is_ordered(b1 as int, b2 as int, BYTES_PER_GB as int);
    lemma_heap_gb_monotonic(spec_ram_gb(b1), spec_ram_gb(b2));
}

/// The worker count never falls below 4 and the heap never leaves [4, 16].
pub proof fn lemma_profile_bounds(cpu_cores: nat, total_ram_gb: nat)
    ensures
        spec_max_workers(cpu_cores) >= 4,
        4 <= spec_heap_gb(total_ram_gb) <= 16,
{
}

/// Resource allocation from the raw hardware figures: 90% of the cores
/// (at least 4) as workers, half the RAM (clamped to [4, 16] GB) as heap.
/// A gigabyte count beyond the machine word saturates in the reported
/// `total_ram_gb`; the heap clamp makes the sizing itself exact anyway.
pub fn calculate_profile(cpu_cores: usize, total_ram_bytes: u64) -> (p: HardwareProfile)
    ensures
        p.max_workers == spec_max_workers(cpu_cores as nat),
        p.jvm_heap_gb == spec_heap_gb(spec_ram_gb(total_ram_bytes as nat)),
        p.cpu_cores == cpu_cores,
        spec_ram_gb(total_ram_bytes as nat) <= usize::MAX ==> p.total_ram_gb == spec_ram_gb(
            total_ram_bytes as nat,
        ),
        p.jvm_heap_gb == spec_heap_gb(p.total_ram_gb as nat),
        p.max_workers >= 4,
        4 <= p.jvm_heap_gb <= 16,
{
    let total_ram_gb_wide: u64 = total_ram_bytes / BYTES_PER_GB;
    let total_ram_gb: usize = if total_ram_gb_wide > usize::MAX as u64 {
        usize::MAX
    } else {
        total_ram_gb_wide as usize
    };

    // 90% of the cores, computed wide so the product cannot overflow.
    let workers_wide: u128 = (cpu_cores as u128) * 9 / 10;
    proof {
        lemma_mul_inequality(cpu_cores as int, usize::MAX as int, 9);
        lemma_div_is_ordered(cpu_cores as int * 9, usize::MAX as int * 9, 10);
        lemma_div_is_ordered(usize::MAX as int * 9, usize::MAX as int * 10, 10);
        lemma_div_multiples_vanish(usize::MAX as int, 10);
    }
    let workers: usize = workers_wide as usize;
    let max_workers: usize = if workers > 4 {
        workers
    } else {
        4
    };

    let half_ram: usize = total_ram_gb / 2;
    let jvm_heap_gb: usize = if half_ram < 4 {
        4
    } else if half_ram > 16 {
        16
    } else {
        half_ram
    };

    HardwareProfile { max_workers, jvm_heap_gb, cpu_cores, total_ram_gb }
}

#[verifier::external_type_specification]
#[verifier::external_body]
pub struct ExSystem(sysinfo::System);

#[verifier::external_type_specification]
#[verifier::external_body]
pub struct ExCpu(sysinfo::Cpu);

/// Relies on `sysinfo::System::new_all`: a snapshot of the machine with
/// everything loaded. What it holds depends on the machine, so nothing
/// is promised of it.
pub assume_specification[ sysinfo::System::new_all ]() -> sysinfo::System;

/// Relies on `sysinfo::System::cpus`: the machine's logical processors.
pub assume_specification<'a>[ sysinfo::System::cpus ](sys: &'a sysinfo::System) -> &'a [sysinfo::Cpu];

/// Relies on `sysinfo::System::total_memory`: the RAM size in bytes.
pub assume_specification[ sysinfo::System::total_memory ](sys: &sysinfo::System) -> u64;

/// Samples the machine and derives the resource profile from its core
/// count and memory size. Whatever the sample, the sizing rules hold
/// between the reported fields.
pub fn get_hardware_profile() -> (p: HardwareProfile)
    ensures
        p.max_workers == spec_max_workers(p.cpu_cores as nat),
        p.jvm_heap_gb == spec_heap_gb(p.total_ram_gb as nat),
        p.max_workers >= 4,
        4 <= p.jvm_heap_gb <= 16,
{
    let sys = sysinfo::System::new_all();
    let cores: usize = sys.cpus().len();
    let ram: u64 = sys.total_memory();
    calculate_profile(cores, ram)
}

} // verus!
