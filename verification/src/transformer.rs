//! The data that leaf transforms work on: the raw leaf entry mutated in
//! place, the immutable per-vCPU topology descriptor, and the typed error a
//! transform can surface.

use vstd::prelude::*;

verus! {

/// A typed failure of leaf normalization or of topology-descriptor
/// construction.
#[derive(Clone, Copy, PartialEq, Eq, Structural, Debug)]
pub enum Error {
    /// The VM was configured with zero vCPUs.
    ZeroVcpuCount,
    /// The vCPU index does not address a vCPU of the VM.
    CpuIndexOutOfRange,
    /// SMT was requested with a vCPU count that does not split into whole
    /// two-thread cores.
    PartialCore,
}

/// One raw CPU-identification result: the leaf (`function`) and subleaf
/// (`index`) that were queried, the four 32-bit output registers, and opaque
/// flags and padding carried through unchanged.
#[derive(Clone, Copy, PartialEq, Eq, Debug)]
pub struct RawLeafEntry {
    /// Leaf number the entry answers for.
    pub function: u32,
    /// Subleaf number the entry answers for.
    pub index: u32,
    /// Opaque flags, carried through unchanged.
    pub flags: u32,
    /// Output register EAX.
    pub eax: u32,
    /// Output register EBX.
    pub ebx: u32,
    /// Output register ECX.
    pub ecx: u32,
    /// Output register EDX.
    pub edx: u32,
    /// Opaque padding, carried through unchanged.
    pub padding: [u32; 3],
}

/// The immutable per-vCPU topology descriptor: which vCPU is being
/// configured, how many vCPUs the VM has, and how many bits of the extended
/// APIC ID separate the threads of one core.
///
/// Built once per vCPU by [`VmSpec::new`] at VM-configuration time and never
/// mutated afterward; every leaf transform reads it through a shared
/// reference.
#[derive(Clone, Copy, PartialEq, Eq, Structural, Debug)]
pub struct VmSpec {
    /// 0-based identifier of the vCPU being configured.
    pub cpu_index: u8,
    /// Total number of vCPUs in the VM.
    pub cpu_count: u8,
    /// Number of bits needed to distinguish the sibling threads within one
    /// core: 1 when SMT gives a core two threads, else 0.
    pub cpu_bits: u8,
}

impl VmSpec {
    /// Invariant established by [`VmSpec::new`]: the index addresses a vCPU
    /// of the VM, and a two-thread core layout only arises from an even vCPU
    /// count above one.
    pub open spec fn wf(self) -> bool {
        &&& self.cpu_index < self.cpu_count
        &&& self.cpu_bits <= 1
        &&& (self.cpu_bits == 1 ==> self.cpu_count > 1 && self.cpu_count % 2 == 0)
    }

    /// Logical processors per physical core: 2 with SMT, else 1.
    pub open spec fn spec_cpus_per_core(self) -> u8 {
        if self.cpu_bits == 1 {
            2
        } else {
            1
        }
    }

    /// Builds the descriptor for one vCPU of a VM with `cpu_count` vCPUs.
    ///
    /// Fails when the VM has no vCPUs, when the index does not address one of
    /// them, or when SMT is requested with a count that cannot form whole
    /// two-thread cores. A single vCPU with SMT requested is accepted: its
    /// lone core runs one thread, so `cpu_bits` stays 0.
    pub fn new(cpu_index: u8, cpu_count: u8, smt_enabled: bool) -> (r: Result<VmSpec, Error>)
        ensures
            cpu_count == 0 ==> r == Result::<VmSpec, Error>::Err(Error::ZeroVcpuCount),
            cpu_count > 0 && cpu_index >= cpu_count ==> r == Result::<VmSpec, Error>::Err(
                Error::CpuIndexOutOfRange,
            ),
            cpu_index < cpu_count && smt_enabled && cpu_count > 1 && cpu_count % 2 == 1 ==> r
                == Result::<VmSpec, Error>::Err(Error::PartialCore),
            r is Ok <==> (cpu_index < cpu_count && (smt_enabled && cpu_count > 1 ==> cpu_count % 2
                == 0)),
            r is Ok ==> r == Result::<VmSpec, Error>::Ok(
                VmSpec {
                    cpu_index,
                    cpu_count,
                    cpu_bits: if smt_enabled && cpu_count > 1 {
                        1u8
                    } else {
                        0u8
                    },
                },
            ),
            r is Ok ==> r->Ok_0.wf(),
    {
        if cpu_count == 0 {
            return Err(Error::ZeroVcpuCount);
        }
        if cpu_index >= cpu_count {
            return Err(Error::CpuIndexOutOfRange);
        }
        let cpu_bits: u8 = if smt_enabled && cpu_count > 1 {
            if cpu_count % 2 == 1 {
                return Err(Error::PartialCore);
            }
            1
        } else {
            0
        };
        Ok(VmSpec { cpu_index, cpu_count, cpu_bits })
    }

    /// Number of logical processors per physical core.
    pub fn cpus_per_core(&self) -> (r: u8)
        requires
            self.wf(),
        ensures
            r == self.spec_cpus_per_core(),
    {
        let r = 1u8 << self.cpu_bits;
        proof {
            assert(1u8 << 0u8 == 1u8) by (bit_vector);
            assert(1u8 << 1u8 == 2u8) by (bit_vector);
        }
        r
    }
}

} // verus!
