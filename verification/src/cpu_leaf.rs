//! Named constants for the identification leaves this crate touches:
//! leaf numbers, register sub-field positions and level-type codes, mirroring
//! the x86 architectural identification specification.

use vstd::prelude::*;
use crate::bit_helper::BitRange;

verus! {

// Leaf numbers (the `function` field of a raw entry).
/// Feature-information leaf, handled by a shared vendor-neutral transform.
pub const LEAF_FEATURE_INFO: u32 = 0x1;

/// Deterministic-cache-parameters leaf.
pub const LEAF_CACHE_PARAMETERS: u32 = 0x4;

/// Power-management leaf.
pub const LEAF_POWER_MANAGEMENT: u32 = 0x6;

/// Architectural performance-monitor leaf.
pub const LEAF_PERF_MON: u32 = 0xA;

/// Extended-topology leaf.
pub const LEAF_EXTENDED_TOPOLOGY: u32 = 0xB;

/// First brand-string leaf, handled by a shared vendor-neutral transform.
pub const LEAF_BRAND_STRING_FIRST: u32 = 0x8000_0002;

/// Last brand-string leaf, handled by a shared vendor-neutral transform.
pub const LEAF_BRAND_STRING_LAST: u32 = 0x8000_0004;

// Leaf 0x4 (deterministic cache parameters), register EAX.
/// Cache level of the described cache (input field).
pub open spec fn spec_cache_level_bitrange() -> BitRange {
    BitRange { lsb_index: 5, msb_index: 7 }
}

#[verifier::when_used_as_spec(spec_cache_level_bitrange)]
pub fn cache_level_bitrange() -> (r: BitRange)
    ensures
        r == spec_cache_level_bitrange(),
{
    BitRange { lsb_index: 5, msb_index: 7 }
}

/// Maximum number of addressable processor cores in the package, 0-based
/// (output field, overwritten by this crate).
pub open spec fn spec_max_cores_per_package_bitrange() -> BitRange {
    BitRange { lsb_index: 26, msb_index: 31 }
}

#[verifier::when_used_as_spec(spec_max_cores_per_package_bitrange)]
pub fn max_cores_per_package_bitrange() -> (r: BitRange)
    ensures
        r == spec_max_cores_per_package_bitrange(),
{
    BitRange { lsb_index: 26, msb_index: 31 }
}

// Leaf 0x6 (power management).
/// "Turbo boost available" bit of EAX, cleared by this crate.
pub const TURBO_BOOST_BITINDEX: u32 = 1;

/// "Energy performance bias" feature bit of ECX, cleared by this crate.
pub const EPB_BITINDEX: u32 = 3;

// Leaf 0xB (extended topology).
/// EAX field: number of bits to shift the extended APIC ID right to get the
/// identifier of the next topology level.
pub open spec fn spec_apicid_bitrange() -> BitRange {
    BitRange { lsb_index: 0, msb_index: 4 }
}

#[verifier::when_used_as_spec(spec_apicid_bitrange)]
pub fn apicid_bitrange() -> (r: BitRange)
    ensures
        r == spec_apicid_bitrange(),
{
    BitRange { lsb_index: 0, msb_index: 4 }
}

/// EBX field: number of logical processors at the level described by the
/// subleaf.
pub open spec fn spec_num_logical_processors_bitrange() -> BitRange {
    BitRange { lsb_index: 0, msb_index: 15 }
}

#[verifier::when_used_as_spec(spec_num_logical_processors_bitrange)]
pub fn num_logical_processors_bitrange() -> (r: BitRange)
    ensures
        r == spec_num_logical_processors_bitrange(),
{
    BitRange { lsb_index: 0, msb_index: 15 }
}

/// ECX field: the level number, echoing the subleaf index.
pub open spec fn spec_level_number_bitrange() -> BitRange {
    BitRange { lsb_index: 0, msb_index: 7 }
}

#[verifier::when_used_as_spec(spec_level_number_bitrange)]
pub fn level_number_bitrange() -> (r: BitRange)
    ensures
        r == spec_level_number_bitrange(),
{
    BitRange { lsb_index: 0, msb_index: 7 }
}

/// ECX field: the type of the level described by the subleaf.
pub open spec fn spec_level_type_bitrange() -> BitRange {
    BitRange { lsb_index: 8, msb_index: 15 }
}

#[verifier::when_used_as_spec(spec_level_type_bitrange)]
pub fn level_type_bitrange() -> (r: BitRange)
    ensures
        r == spec_level_type_bitrange(),
{
    BitRange { lsb_index: 8, msb_index: 15 }
}

/// Level-type code for an unsupported level.
pub const LEVEL_TYPE_INVALID: u32 = 0;

/// Level-type code for the thread level.
pub const LEVEL_TYPE_THREAD: u32 = 1;

/// Level-type code for the core level.
pub const LEVEL_TYPE_CORE: u32 = 2;

/// APIC-ID shift reported for subleaf 1 of the extended-topology leaf: the
/// fixed architectural constant allowing 128 logical processors per package
/// under the wide-APIC scheme.
pub const LEAFBH_INDEX1_APICID: u32 = 7;

} // verus!
