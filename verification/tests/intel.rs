use cpuid::bit_helper::read_bits_in_range;
use cpuid::bit_helper::write_bits_in_range;
use cpuid::cpu_leaf::apicid_bitrange;
use cpuid::cpu_leaf::cache_level_bitrange;
use cpuid::cpu_leaf::level_number_bitrange;
use cpuid::cpu_leaf::level_type_bitrange;
use cpuid::cpu_leaf::max_cores_per_package_bitrange;
use cpuid::cpu_leaf::num_logical_processors_bitrange;
use cpuid::cpu_leaf::LEAFBH_INDEX1_APICID;
use cpuid::cpu_leaf::LEAF_PERF_MON;
use cpuid::cpu_leaf::LEVEL_TYPE_CORE;
use cpuid::cpu_leaf::LEVEL_TYPE_THREAD;
use cpuid::intel::update_deterministic_cache_entry;
use cpuid::intel::update_extended_topology_entry;
use cpuid::intel::update_perf_mon_entry;
use cpuid::transformer::RawLeafEntry;
use cpuid::transformer::VmSpec;

#[test]
fn test_update_perf_mon_entry() {
    let vm_spec = VmSpec::new(0, 1, false).expect("Error creating vm_spec");
    let mut entry = RawLeafEntry {
        function: LEAF_PERF_MON,
        index: 0,
        flags: 0,
        eax: 1,
        ebx: 1,
        ecx: 1,
        edx: 1,
        padding: [0, 0, 0],
    };

    assert!(update_perf_mon_entry(&mut entry, &vm_spec).is_ok());

    assert_eq!(entry.eax, 0);
    assert_eq!(entry.ebx, 0);
    assert_eq!(entry.ecx, 0);
    assert_eq!(entry.edx, 0);
}

fn check_update_deterministic_cache_entry(
    cpu_count: u8,
    smt: bool,
    cache_level: u32,
    expected_max_cores_per_package: u32,
) {
    let vm_spec = VmSpec::new(0, cpu_count, smt).expect("Error creating vm_spec");
    let mut entry = RawLeafEntry {
        function: 0x0,
        index: 0,
        flags: 0,
        eax: write_bits_in_range(0, &cache_level_bitrange(), cache_level),
        ebx: 0,
        ecx: 0,
        edx: 0,
        padding: [0, 0, 0],
    };

    assert!(update_deterministic_cache_entry(&mut entry, &vm_spec).is_ok());

    assert!(
        read_bits_in_range(entry.eax, &max_cores_per_package_bitrange())
            == expected_max_cores_per_package
    );
}

fn check_update_extended_topology_entry(
    cpu_count: u8,
    smt: bool,
    index: u32,
    expected_apicid: u32,
    expected_num_logical_processors: u32,
    expected_level_type: u32,
) {
    let vm_spec = VmSpec::new(0, cpu_count, smt).expect("Error creating vm_spec");
    let mut entry = RawLeafEntry {
        function: 0x0,
        index,
        flags: 0,
        eax: 0,
        ebx: 0,
        ecx: 0,
        edx: 0,
        padding: [0, 0, 0],
    };

    assert!(update_extended_topology_entry(&mut entry, &vm_spec).is_ok());

    assert!(read_bits_in_range(entry.eax, &apicid_bitrange()) == expected_apicid);
    assert!(
        read_bits_in_range(entry.ebx, &num_logical_processors_bitrange())
            == expected_num_logical_processors
    );
    assert!(read_bits_in_range(entry.ecx, &level_type_bitrange()) == expected_level_type);
    assert!(read_bits_in_range(entry.ecx, &level_number_bitrange()) == index);
}

#[test]
fn test_1vcpu_ht_off() {
    // test update_deterministic_cache_entry
    // test L1
    check_update_deterministic_cache_entry(1, false, 1, 0);
    // test L2
    check_update_deterministic_cache_entry(1, false, 2, 0);
    // test L3
    check_update_deterministic_cache_entry(1, false, 3, 0);

    // test update_extended_topology_entry
    // index 0
    check_update_extended_topology_entry(1, false, 0, 0, 1, LEVEL_TYPE_THREAD);
    // index 1
    check_update_extended_topology_entry(1, false, 1, LEAFBH_INDEX1_APICID, 1, LEVEL_TYPE_CORE);
}

#[test]
fn test_1vcpu_ht_on() {
    // test update_deterministic_cache_entry
    // test L1
    check_update_deterministic_cache_entry(1, true, 1, 0);
    // test L2
    check_update_deterministic_cache_entry(1, true, 2, 0);
    // test L3
    check_update_deterministic_cache_entry(1, true, 3, 0);

    // test update_extended_topology_entry
    // index 0
    check_update_extended_topology_entry(1, true, 0, 0, 1, LEVEL_TYPE_THREAD);
    // index 1
    check_update_extended_topology_entry(1, true, 1, LEAFBH_INDEX1_APICID, 1, LEVEL_TYPE_CORE);
}

#[test]
fn test_2vcpu_ht_off() {
    // test update_deterministic_cache_entry
    // test L1
    check_update_deterministic_cache_entry(2, false, 1, 1);
    // test L2
    check_update_deterministic_cache_entry(2, false, 2, 1);
    // test L3
    check_update_deterministic_cache_entry(2, false, 3, 1);

    // test update_extended_topology_entry
    // index 0
    check_update_extended_topology_entry(2, false, 0, 0, 1, LEVEL_TYPE_THREAD);
    // index 1
    check_update_extended_topology_entry(2, false, 1, LEAFBH_INDEX1_APICID, 2, LEVEL_TYPE_CORE);
}

#[test]
fn test_2vcpu_ht_on() {
    // test update_deterministic_cache_entry
    // test L1
    check_update_deterministic_cache_entry(2, true, 1, 0);
    // test L2
    check_update_deterministic_cache_entry(2, true, 2, 0);
    // test L3
    check_update_deterministic_cache_entry(2, true, 3, 0);

    // test update_extended_topology_entry
    // index 0
    check_update_extended_topology_entry(2, true, 0, 1, 2, LEVEL_TYPE_THREAD);
    // index 1
    check_update_extended_topology_entry(2, true, 1, LEAFBH_INDEX1_APICID, 2, LEVEL_TYPE_CORE);
}
