//! Intel-specific leaf transforms and the vendor dispatcher that selects one
//! per leaf.
//!
//! Each transform is a pure function mapping a raw leaf entry, mutated in
//! place, and the per-vCPU topology descriptor to success or failure. The
//! transforms owned by this crate are total: they never fail on their own.
//! The feature-info and brand-string leaves, and the population half of the
//! cache-parameters leaf, belong to shared vendor-neutral collaborators
//! outside this crate; the dispatcher only routes such a leaf to its
//! collaborator and never duplicates its logic.

use vstd::prelude::*;
use crate::bit_helper::{
    spec_bit,
    spec_read_bits_in_range,
    spec_write_bit,
    spec_write_bits_in_range,
    write_bit,
    write_bits_in_range,
};
use crate::cpu_leaf::{
    apicid_bitrange,
    level_number_bitrange,
    level_type_bitrange,
    max_cores_per_package_bitrange,
    num_logical_processors_bitrange,
    EPB_BITINDEX,
    LEAFBH_INDEX1_APICID,
    LEAF_BRAND_STRING_FIRST,
    LEAF_BRAND_STRING_LAST,
    LEAF_CACHE_PARAMETERS,
    LEAF_EXTENDED_TOPOLOGY,
    LEAF_FEATURE_INFO,
    LEAF_PERF_MON,
    LEAF_POWER_MANAGEMENT,
    LEVEL_TYPE_CORE,
    LEVEL_TYPE_THREAD,
    TURBO_BOOST_BITINDEX,
};
use crate::transformer::{Error, RawLeafEntry, VmSpec};

verus! {

/// The transform registered for a leaf. The feature-info and brand-string
/// variants name shared vendor-neutral transforms implemented outside this
/// crate; the others are implemented and verified here.
#[derive(Clone, Copy, PartialEq, Eq, Structural, Debug)]
pub enum LeafTransform {
    /// Shared vendor-neutral feature-information transform (external).
    FeatureInfo,
    /// Deterministic cache parameters: shared population (external) followed
    /// by [`update_deterministic_cache_entry`].
    DeterministicCache,
    /// [`update_power_management_entry`].
    PowerManagement,
    /// [`update_perf_mon_entry`].
    PerfMon,
    /// [`update_extended_topology_entry`].
    ExtendedTopology,
    /// Shared vendor-neutral brand-string transform (external).
    BrandString,
}

/// What processing one entry did, and what it left to the caller.
#[derive(Clone, Copy, PartialEq, Eq, Structural, Debug)]
pub enum EntryOutcome {
    /// No transform is registered for the leaf; the entry was left
    /// bit-for-bit intact.
    PassedThrough,
    /// A transform owned by this crate ran to completion in place.
    Transformed,
    /// The leaf belongs to a shared vendor-neutral transform outside this
    /// crate. The entry was left intact; the caller must delegate to that
    /// collaborator and propagate its success or failure unchanged. For the
    /// cache-parameters leaf, the collaborator's population runs first and
    /// [`update_deterministic_cache_entry`] afterwards.
    NeedsShared(LeafTransform),
}

/// The static, total mapping from leaf number to registered transform.
pub open spec fn transform_for(function: u32) -> Option<LeafTransform> {
    if function == LEAF_FEATURE_INFO {
        Some(LeafTransform::FeatureInfo)
    } else if function == LEAF_CACHE_PARAMETERS {
        Some(LeafTransform::DeterministicCache)
    } else if function == LEAF_POWER_MANAGEMENT {
        Some(LeafTransform::PowerManagement)
    } else if function == LEAF_PERF_MON {
        Some(LeafTransform::PerfMon)
    } else if function == LEAF_EXTENDED_TOPOLOGY {
        Some(LeafTransform::ExtendedTopology)
    } else if LEAF_BRAND_STRING_FIRST <= function <= LEAF_BRAND_STRING_LAST {
        Some(LeafTransform::BrandString)
    } else {
        None
    }
}

/// Maximum number of addressable cores in the one modeled package, 0-based:
/// `(cpu_count / cpus_per_core) - 1`.
pub open spec fn spec_max_cores_per_package(vm: VmSpec) -> u32
    recommends
        vm.wf(),
{
    ((vm.cpu_count / vm.spec_cpus_per_core()) - 1) as u32
}

/// A power-management entry after the transform: the turbo-boost bit of EAX
/// and the energy-performance-bias bit of ECX cleared, everything else as
/// supplied.
pub open spec fn power_managed(e: RawLeafEntry) -> RawLeafEntry {
    RawLeafEntry {
        function: e.function,
        index: e.index,
        flags: e.flags,
        eax: spec_write_bit(e.eax, TURBO_BOOST_BITINDEX, false),
        ebx: e.ebx,
        ecx: spec_write_bit(e.ecx, EPB_BITINDEX, false),
        edx: e.edx,
        padding: e.padding,
    }
}

/// A performance-monitor entry after the transform: all four output
/// registers zeroed.
pub open spec fn perf_mon_cleared(e: RawLeafEntry) -> RawLeafEntry {
    RawLeafEntry {
        function: e.function,
        index: e.index,
        flags: e.flags,
        eax: 0,
        ebx: 0,
        ecx: 0,
        edx: 0,
        padding: e.padding,
    }
}

/// ECX of an extended-topology subleaf: the level type in bits 8..=15 above
/// the level number in bits 0..=7.
pub open spec fn topology_ecx(level_number: u32, level_type: u32) -> u32
    recommends
        level_number < 0x100,
        level_type < 0x100,
{
    (level_type * 0x100 + level_number) as u32
}

/// An extended-topology entry after the transform.
///
/// Subleaf 0 describes the thread level: the APIC-ID shift is `cpu_bits`,
/// the logical-processor count is `cpus_per_core`, and EDX carries the full
/// 32-bit extended APIC ID of the configured vCPU. Subleaf 1 describes the
/// core level: the shift is the fixed architectural constant and every vCPU
/// of the single modeled package is visible. Any later subleaf reports no
/// further level: its ECX is the bare subleaf index, whose level-type field
/// reads back as invalid.
pub open spec fn extended_topology_transformed(e: RawLeafEntry, vm: VmSpec) -> RawLeafEntry {
    RawLeafEntry {
        function: e.function,
        index: e.index,
        flags: e.flags,
        eax: if e.index == 0 {
            vm.cpu_bits as u32
        } else if e.index == 1 {
            LEAFBH_INDEX1_APICID
        } else {
            0
        },
        ebx: if e.index == 0 {
            vm.spec_cpus_per_core() as u32
        } else if e.index == 1 {
            vm.cpu_count as u32
        } else {
            0
        },
        ecx: if e.index == 0 {
            topology_ecx(0, LEVEL_TYPE_THREAD)
        } else if e.index == 1 {
            topology_ecx(1, LEVEL_TYPE_CORE)
        } else {
            e.index
        },
        edx: vm.cpu_index as u32,
        padding: e.padding,
    }
}

/// Overwrites the "maximum cores per package" field of EAX with the 0-based
/// count of physical cores in the one modeled package. A count too wide for
/// the six-bit field keeps only its low six bits; no other bit of any
/// register changes.
///
/// The shared population of the remaining cache-parameters fields belongs to
/// an external collaborator and runs before this override.
pub fn update_deterministic_cache_entry(entry: &mut RawLeafEntry, vm_spec: &VmSpec) -> (r: Result<
    (),
    Error,
>)
    requires
        vm_spec.wf(),
    ensures
        r is Ok,
        final(entry).eax == spec_write_bits_in_range(
            old(entry).eax,
            max_cores_per_package_bitrange(),
            spec_max_cores_per_package(*vm_spec),
        ),
        // the field is six bits wide; a larger core count keeps its low six bits
        spec_read_bits_in_range(final(entry).eax, max_cores_per_package_bitrange())
            == spec_max_cores_per_package(*vm_spec) % 64u32,
        forall|i: u32|
            i < 32 && !max_cores_per_package_bitrange().contains(i) ==> #[trigger] spec_bit(
                final(entry).eax,
                i,
            ) == spec_bit(old(entry).eax, i),
        final(entry).ebx == old(entry).ebx,
        final(entry).ecx == old(entry).ecx,
        final(entry).edx == old(entry).edx,
        final(entry).function == old(entry).function,
        final(entry).index == old(entry).index,
        final(entry).flags == old(entry).flags,
        final(entry).padding == old(entry).padding,
{
    let cores: u8 = vm_spec.cpu_count / vm_spec.cpus_per_core();
    // Put all the cores in the same package.
    entry.eax = write_bits_in_range(
        entry.eax,
        &max_cores_per_package_bitrange(),
        (cores as u32) - 1,
    );
    proof {
        let x = old(entry).eax;
        let v = spec_max_cores_per_package(*vm_spec);
        assert(((0xffff_ffffu32 >> 26u32) << 26u32) == 0xfc00_0000u32) by (bit_vector);
        assert(((((x & !0xfc00_0000u32) | ((v << 26u32) & 0xfc00_0000u32)) & 0xfc00_0000u32)
            >> 26u32) == v % 64u32) by (bit_vector);
    }
    Ok(())
}

/// Clears exactly two bits: "turbo boost available" in EAX and the
/// energy-performance-bias feature bit in ECX. Every other bit of every
/// register is left exactly as supplied, since the hypervisor does not
/// virtualize frequency scaling.
pub fn update_power_management_entry(entry: &mut RawLeafEntry, _vm_spec: &VmSpec) -> (r: Result<
    (),
    Error,
>)
    ensures
        r is Ok,
        *final(entry) == power_managed(*old(entry)),
        spec_bit(final(entry).eax, TURBO_BOOST_BITINDEX) == false,
        spec_bit(final(entry).ecx, EPB_BITINDEX) == false,
        forall|i: u32|
            i < 32 && i != TURBO_BOOST_BITINDEX ==> #[trigger] spec_bit(final(entry).eax, i)
                == spec_bit(old(entry).eax, i),
        forall|i: u32|
            i < 32 && i != EPB_BITINDEX ==> #[trigger] spec_bit(final(entry).ecx, i) == spec_bit(
                old(entry).ecx,
                i,
            ),
        final(entry).ebx == old(entry).ebx,
        final(entry).edx == old(entry).edx,
{
    entry.eax = write_bit(entry.eax, TURBO_BOOST_BITINDEX, false);
    // No frequency selection in the hypervisor: hide the EPB feature too.
    entry.ecx = write_bit(entry.ecx, EPB_BITINDEX, false);
    Ok(())
}

/// Zeroes all four output registers unconditionally: the virtual
/// performance-monitoring unit is fully disabled, so the leaf reports "not
/// present" whatever the host supplied.
pub fn update_perf_mon_entry(entry: &mut RawLeafEntry, _vm_spec: &VmSpec) -> (r: Result<(), Error>)
    ensures
        r is Ok,
        *final(entry) == perf_mon_cleared(*old(entry)),
        final(entry).eax == 0,
        final(entry).ebx == 0,
        final(entry).ecx == 0,
        final(entry).edx == 0,
{
    entry.eax = 0;
    entry.ebx = 0;
    entry.ecx = 0;
    entry.edx = 0;
    Ok(())
}

/// Rewrites an extended-topology subleaf as a state machine keyed by the
/// subleaf index: index 0 reports the thread level, index 1 the core level,
/// and any higher index reports no further level by echoing the bare index
/// in ECX.
pub fn update_extended_topology_entry(entry: &mut RawLeafEntry, vm_spec: &VmSpec) -> (r: Result<
    (),
    Error,
>)
    requires
        vm_spec.wf(),
    ensures
        r is Ok,
        *final(entry) == extended_topology_transformed(*old(entry), *vm_spec),
        old(entry).index >= 2 ==> final(entry).ecx == old(entry).index,
{
    // Reset EAX, EBX, ECX; EDX carries the extended APIC ID of the current
    // logical processor, a full 32-bit identifier.
    entry.eax = 0;
    entry.ebx = 0;
    entry.ecx = 0;
    entry.edx = vm_spec.cpu_index as u32;

    match entry.index {
        // Thread-level topology.
        0 => {
            // Shift right by at most 1 to reach the next level: at most two
            // hyperthreads per core are modeled, distinguishable by one bit.
            entry.eax = write_bits_in_range(
                entry.eax,
                &apicid_bitrange(),
                vm_spec.cpu_bits as u32,
            );
            // One logical processor at this level without SMT, two with it.
            entry.ebx = write_bits_in_range(
                entry.ebx,
                &num_logical_processors_bitrange(),
                vm_spec.cpus_per_core() as u32,
            );
            entry.ecx = write_bits_in_range(entry.ecx, &level_type_bitrange(), LEVEL_TYPE_THREAD);
            proof {
                let b = vm_spec.cpu_bits as u32;
                let c = vm_spec.spec_cpus_per_core() as u32;
                assert(((0xffff_ffffu32 >> 27u32) << 0u32) == 0x1fu32) by (bit_vector);
                assert((0u32 & !0x1fu32) | ((b << 0u32) & 0x1fu32) == b) by (bit_vector)
                    requires
                        b <= 1u32,
                ;
                assert(((0xffff_ffffu32 >> 16u32) << 0u32) == 0xffffu32) by (bit_vector);
                assert((0u32 & !0xffffu32) | ((c << 0u32) & 0xffffu32) == c) by (bit_vector)
                    requires
                        c < 0x10000u32,
                ;
                assert(((0xffff_ffffu32 >> 24u32) << 8u32) == 0xff00u32) by (bit_vector);
                assert((0u32 & !0xff00u32) | ((1u32 << 8u32) & 0xff00u32) == 0x100u32)
                    by (bit_vector);
            }
        },
        // Core-level topology.
        1 => {
            entry.eax = write_bits_in_range(entry.eax, &apicid_bitrange(), LEAFBH_INDEX1_APICID);
            // Every vCPU sits in the one modeled package, so all of them are
            // visible at the core level.
            entry.ebx = write_bits_in_range(
                entry.ebx,
                &num_logical_processors_bitrange(),
                vm_spec.cpu_count as u32,
            );
            entry.ecx = write_bits_in_range(entry.ecx, &level_number_bitrange(), entry.index);
            entry.ecx = write_bits_in_range(entry.ecx, &level_type_bitrange(), LEVEL_TYPE_CORE);
            proof {
                let c = vm_spec.cpu_count as u32;
                assert(((0xffff_ffffu32 >> 27u32) << 0u32) == 0x1fu32) by (bit_vector);
                assert((0u32 & !0x1fu32) | ((7u32 << 0u32) & 0x1fu32) == 7u32) by (bit_vector);
                assert(((0xffff_ffffu32 >> 16u32) << 0u32) == 0xffffu32) by (bit_vector);
                assert((0u32 & !0xffffu32) | ((c << 0u32) & 0xffffu32) == c) by (bit_vector)
                    requires
                        c < 0x10000u32,
                ;
                assert(((0xffff_ffffu32 >> 24u32) << 0u32) == 0xffu32) by (bit_vector);
                assert((0u32 & !0xffu32) | ((1u32 << 0u32) & 0xffu32) == 1u32) by (bit_vector);
                assert(((0xffff_ffffu32 >> 24u32) << 8u32) == 0xff00u32) by (bit_vector);
                assert((1u32 & !0xff00u32) | ((2u32 << 8u32) & 0xff00u32) == 0x201u32)
                    by (bit_vector);
            }
        },
        // No level past the core is modeled. Echo the bare subleaf index so
        // that a stale level type read from the host cannot leak through:
        // the level-type field of the echoed index reads back as invalid.
        level => {
            entry.ecx = level;
        },
    }

    Ok(())
}

/// The Intel variant of the vendor-dispatch capability: one
/// transform-selection operation over the static leaf table.
pub struct IntelCpuidTransformer {}

impl IntelCpuidTransformer {
    /// Returns the transform registered for the entry's leaf, or `None` when
    /// the entry is to pass through unmodified.
    pub fn entry_transformer_fn(&self, entry: &RawLeafEntry) -> (r: Option<LeafTransform>)
        ensures
            r == transform_for(entry.function),
    {
        if entry.function == LEAF_FEATURE_INFO {
            Some(LeafTransform::FeatureInfo)
        } else if entry.function == LEAF_CACHE_PARAMETERS {
            Some(LeafTransform::DeterministicCache)
        } else if entry.function == LEAF_POWER_MANAGEMENT {
            Some(LeafTransform::PowerManagement)
        } else if entry.function == LEAF_PERF_MON {
            Some(LeafTransform::PerfMon)
        } else if entry.function == LEAF_EXTENDED_TOPOLOGY {
            Some(LeafTransform::ExtendedTopology)
        } else if LEAF_BRAND_STRING_FIRST <= entry.function && entry.function
            <= LEAF_BRAND_STRING_LAST {
            Some(LeafTransform::BrandString)
        } else {
            None
        }
    }

    /// Processes one raw entry: applies the transform this crate owns, if
    /// one is registered for the leaf, and otherwise reports whether the
    /// entry passed through or must be delegated to a shared collaborator.
    /// A failure of an applied transform would propagate unchanged, and the
    /// transforms owned by this crate never fail.
    pub fn process_entry(&self, entry: &mut RawLeafEntry, vm_spec: &VmSpec) -> (r: Result<
        EntryOutcome,
        Error,
    >)
        requires
            vm_spec.wf(),
        ensures
            transform_for(old(entry).function) is None ==> r == Result::<EntryOutcome, Error>::Ok(
                EntryOutcome::PassedThrough,
            ) && *final(entry) == *old(entry),
            old(entry).function == LEAF_FEATURE_INFO ==> r == Result::<EntryOutcome, Error>::Ok(
                EntryOutcome::NeedsShared(LeafTransform::FeatureInfo),
            ) && *final(entry) == *old(entry),
            old(entry).function == LEAF_CACHE_PARAMETERS ==> r == Result::<EntryOutcome, Error>::Ok(
                EntryOutcome::NeedsShared(LeafTransform::DeterministicCache),
            ) && *final(entry) == *old(entry),
            LEAF_BRAND_STRING_FIRST <= old(entry).function <= LEAF_BRAND_STRING_LAST ==> r
                == Result::<EntryOutcome, Error>::Ok(
                EntryOutcome::NeedsShared(LeafTransform::BrandString),
            ) && *final(entry) == *old(entry),
            old(entry).function == LEAF_POWER_MANAGEMENT ==> r == Result::<
                EntryOutcome,
                Error,
            >::Ok(EntryOutcome::Transformed) && *final(entry) == power_managed(*old(entry)),
            old(entry).function == LEAF_PERF_MON ==> r == Result::<EntryOutcome, Error>::Ok(
                EntryOutcome::Transformed,
            ) && *final(entry) == perf_mon_cleared(*old(entry)),
            old(entry).function == LEAF_EXTENDED_TOPOLOGY ==> r == Result::<
                EntryOutcome,
                Error,
            >::Ok(EntryOutcome::Transformed) && *final(entry) == extended_topology_transformed(
                *old(entry),
                *vm_spec,
            ),
            r is Ok,
    {
        match self.entry_transformer_fn(entry) {
            None => Ok(EntryOutcome::PassedThrough),
            Some(LeafTransform::FeatureInfo) => Ok(
                EntryOutcome::NeedsShared(LeafTransform::FeatureInfo),
            ),
            Some(LeafTransform::DeterministicCache) => Ok(
                EntryOutcome::NeedsShared(LeafTransform::DeterministicCache),
            ),
            Some(LeafTransform::BrandString) => Ok(
                EntryOutcome::NeedsShared(LeafTransform::BrandString),
            ),
            Some(LeafTransform::PowerManagement) => {
                match update_power_management_entry(entry, vm_spec) {
                    Ok(()) => Ok(EntryOutcome::Transformed),
                    Err(e) => Err(e),
                }
            },
            Some(LeafTransform::PerfMon) => {
                match update_perf_mon_entry(entry, vm_spec) {
                    Ok(()) => Ok(EntryOutcome::Transformed),
                    Err(e) => Err(e),
                }
            },
            Some(LeafTransform::ExtendedTopology) => {
                match update_extended_topology_entry(entry, vm_spec) {
                    Ok(()) => Ok(EntryOutcome::Transformed),
                    Err(e) => Err(e),
                }
            },
        }
    }
}

/// Law: applying the power-management transform twice yields the same entry
/// as applying it once.
pub proof fn lemma_power_management_idempotent(e: RawLeafEntry)
    ensures
        power_managed(power_managed(e)) == power_managed(e),
{
    let a = e.eax;
    let c = e.ecx;
    assert((a & !(1u32 << 1u32)) & !(1u32 << 1u32) == a & !(1u32 << 1u32)) by (bit_vector);
    assert((c & !(1u32 << 3u32)) & !(1u32 << 3u32) == c & !(1u32 << 3u32)) by (bit_vector);
}

/// Law: applying the performance-monitor transform twice yields the same
/// entry as applying it once.
pub proof fn lemma_perf_mon_idempotent(e: RawLeafEntry)
    ensures
        perf_mon_cleared(perf_mon_cleared(e)) == perf_mon_cleared(e),
{
}

} // verus!
