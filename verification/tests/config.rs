use mcu_common::config::boot::{PartitionId, PartitionStatus, RollbackEnable};
use mcu_common::config::capabilities::{
    command_capability, encode_capabilities, AuthorizedSubcommandCapabilities,
    ExternalCommandCapabilities, McuRuntimeCapabilities,
};
use mcu_common::config::{McuMemoryMap, McuStraps, MemoryRegionType};
use std::convert::TryFrom;

#[test]
fn capability_domains_are_independent() {
    let features =
        McuRuntimeCapabilities::FLASH_BOOT().union(McuRuntimeCapabilities::MCTP_VDM_RESPONDER());
    let commands = ExternalCommandCapabilities::FIRMWARE_VERSION()
        .union(ExternalCommandCapabilities::DEVICE_CAPABILITIES());

    assert_eq!(
        encode_capabilities(features.bits()),
        [0x00, 0x00, 0x00, 0x11]
    );
    assert_eq!(
        encode_capabilities(commands.bits()),
        [0x00, 0x00, 0x00, 0x03]
    );
}

#[test]
fn all_reserved_command_codes_fit_in_the_top_level_bitmap() {
    assert_eq!(command_capability(0x01), 1);
    assert_eq!(command_capability(0x20), 1u32 << 31);
}

#[test]
fn authorized_subcommand_assignments_are_stable() {
    assert_eq!(
        AuthorizedSubcommandCapabilities::GET_AUTH_CHALLENGE().bits(),
        1
    );
    assert_eq!(
        AuthorizedSubcommandCapabilities::PROGRAM_FIELD_ENTROPY().bits(),
        1 << 3
    );
    assert_eq!(
        AuthorizedSubcommandCapabilities::FUSE_LOCK_PARTITION().bits(),
        1 << 6
    );
    assert_eq!(
        AuthorizedSubcommandCapabilities::PROVISION_OWNER_PK_HASH().bits(),
        1 << 7
    );
    assert_eq!(AuthorizedSubcommandCapabilities::DOT_LOCK().bits(), 1 << 8);
    assert_eq!(AuthorizedSubcommandCapabilities::DOT_DISABLE().bits(), 1 << 9);
    assert_eq!(AuthorizedSubcommandCapabilities::DOT_ROTATE().bits(), 1 << 10);
    assert_eq!(
        AuthorizedSubcommandCapabilities::GET_DOT_BACKUP_BLOB().bits(),
        1 << 11
    );
    assert_eq!(
        AuthorizedSubcommandCapabilities::OCP_LOCK_ROTATE_HEK().bits(),
        1 << 12
    );
    assert_eq!(
        AuthorizedSubcommandCapabilities::OCP_LOCK_SET_PERMA_HEK().bits(),
        1 << 13
    );
}

#[test]
fn test_mrac_computation() {
    let memory_map = McuMemoryMap::default();
    let mrac_value = memory_map.compute_mrac();

    assert_ne!(mrac_value, 0);
    assert_ne!(mrac_value, 0xffffffff);

    assert_eq!(McuMemoryMap::get_mrac_region(0x0000_0000), 0);
    assert_eq!(McuMemoryMap::get_mrac_region(0x1000_0000), 1);
    assert_eq!(McuMemoryMap::get_mrac_region(0x4000_0000), 4);
    assert_eq!(McuMemoryMap::get_mrac_region(0x5000_0000), 5);
    assert_eq!(McuMemoryMap::get_mrac_region(0x8000_0000), 8);

    let region_4_bits = (mrac_value >> (4 * 2)) & 0x3;
    assert_eq!(region_4_bits, 0x1, "SRAM region should be cacheable (01)");
    let region_5_bits = (mrac_value >> (5 * 2)) & 0x3;
    assert_eq!(region_5_bits, 0x1, "DCCM region should be cacheable (01)");
    let region_8_bits = (mrac_value >> (8 * 2)) & 0x3;
    assert_eq!(region_8_bits, 0x1, "ROM region should be cacheable (01)");
    let region_2_bits = (mrac_value >> (2 * 2)) & 0x3;
    assert_eq!(
        region_2_bits, 0x2,
        "I3C region should have side effects (10)"
    );
}

#[test]
fn test_mrac_region_mapping() {
    assert_eq!(McuMemoryMap::get_mrac_region(0x0000_0000), 0);
    assert_eq!(McuMemoryMap::get_mrac_region(0x0fff_ffff), 0);
    assert_eq!(McuMemoryMap::get_mrac_region(0x1000_0000), 1);
    assert_eq!(McuMemoryMap::get_mrac_region(0x1fff_ffff), 1);
    assert_eq!(McuMemoryMap::get_mrac_region(0xf000_0000), 15);
    assert_eq!(McuMemoryMap::get_mrac_region(0xffff_ffff), 15);

    let test_addresses: [u32; 8] = [
        0x0000_0000,
        0x0fff_ffff,
        0x1000_0000,
        0x1fff_ffff,
        0x8000_0000,
        0x8fff_ffff,
        0xf000_0000,
        0xffff_ffff,
    ];
    for &addr in &test_addresses {
        let region = McuMemoryMap::get_mrac_region(addr);
        assert!(region < 16, "Region {} for address 0x{:08x} is out of bounds", region, addr);
    }
}

#[test]
fn default_memory_map_mrac_has_exact_value() {
    // Regions 4, 5 and 8 hold memory (01); every other region holds MMIO
    // or nothing, both 10.
    assert_eq!(McuMemoryMap::default().compute_mrac(), 0xaaa9_a5aa);
}

#[test]
fn mrac_prefers_mmio_when_memory_and_mmio_share_a_region() {
    let mut map = McuMemoryMap::default();
    // Put the I3C block (MMIO) into the SRAM region 4, after SRAM was mapped.
    map.i3c_offset = 0x4010_0000;
    let mrac = map.compute_mrac();
    assert_eq!((mrac >> 8) & 3, 2);
    // Put the ROM (memory) into region 6, which also holds the PIC (MMIO).
    let mut map = McuMemoryMap::default();
    map.rom_offset = 0x6000_2000;
    let mrac = map.compute_mrac();
    assert_eq!((mrac >> 12) & 3, 2);
    // Region 8, left without a memory region, is unmapped.
    assert_eq!((mrac >> 16) & 3, 2);
}

#[test]
fn mrac_region_spanning_several_blocks_marks_each() {
    let mut map = McuMemoryMap::default();
    map.sram_offset = 0x9000_0000;
    map.sram_size = 0x3000_0000;
    let mrac = map.compute_mrac();
    assert_eq!((mrac >> 18) & 3, 1);
    assert_eq!((mrac >> 20) & 3, 1);
    assert_eq!((mrac >> 22) & 3, 1);
    assert_eq!((mrac >> 24) & 3, 2);
    assert_eq!((mrac >> 8) & 3, 2);
}

#[test]
fn mrac_ignores_regions_of_size_zero() {
    let mut map = McuMemoryMap::default();
    map.rom_size = 0;
    let mrac = map.compute_mrac();
    assert_eq!((mrac >> 16) & 3, 2);
}

#[test]
fn memory_region_types_have_expected_bits() {
    assert!(MemoryRegionType::MEMORY().cacheable);
    assert!(!MemoryRegionType::MEMORY().side_effect);
    assert!(MemoryRegionType::MMIO().side_effect);
    assert!(!MemoryRegionType::MMIO().cacheable);
    assert!(MemoryRegionType::UNMAPPED().side_effect);
    assert!(!MemoryRegionType::UNMAPPED().cacheable);
}

#[test]
fn capability_sets_union_and_contain() {
    let a = McuRuntimeCapabilities::FIRMWARE_UPDATE();
    let b = McuRuntimeCapabilities::DOE();
    let both = a.union(b);
    assert!(both.contains(a));
    assert!(both.contains(b));
    assert!(!a.contains(b));
    assert!(McuRuntimeCapabilities::empty().bits() == 0);
    assert_eq!(McuRuntimeCapabilities::from_bits_retain(0x1234).bits(), 0x1234);
    assert_eq!(encode_capabilities(0x1234_5678), [0x12, 0x34, 0x56, 0x78]);
    assert_eq!(
        ExternalCommandCapabilities::AUTHORIZED_COMMAND().bits(),
        command_capability(0x12)
    );
}

#[test]
fn partition_id_round_trips_through_u32() {
    assert_eq!(PartitionId::try_from(0u32), Ok(PartitionId::NoPartition));
    assert_eq!(PartitionId::try_from(1u32), Ok(PartitionId::A));
    assert_eq!(PartitionId::try_from(2u32), Ok(PartitionId::B));
    assert_eq!(PartitionId::try_from(3u32), Err(()));
    assert_eq!(PartitionId::B.to_u32(), 2);
}

#[test]
fn partition_status_round_trips_through_u16() {
    assert_eq!(PartitionStatus::try_from(3u16), Ok(PartitionStatus::BootSuccessful));
    assert_eq!(PartitionStatus::try_from(4u16), Err(()));
    assert_eq!(PartitionStatus::BootFailed.to_u16(), 2);
    assert_eq!(RollbackEnable::Enabled.to_u32(), 0x10000);
}

#[test]
fn straps_default_is_stable() {
    let a = McuStraps::default();
    let b = McuStraps::default();
    assert_eq!(a, b);
}

#[test]
fn linker_variables_of_the_default_map() {
    let vars = McuMemoryMap::default().linker_variables();
    let expected = [
        ("ROM_OFFSET", "0x80000000"),
        ("ROM_SIZE", "0x8000"),
        ("ROM_STACK_SIZE", "0x3000"),
        ("DCCM_OFFSET", "0x50000000"),
        ("DCCM_SIZE", "0x40000"),
        ("MRAC_VALUE", "0xaaa9a5aa"),
    ];
    assert_eq!(vars.len(), expected.len());
    for (i, (name, value)) in expected.iter().enumerate() {
        assert_eq!(vars[i].0, *name);
        assert_eq!(vars[i].1, *value);
    }
}

#[test]
fn linker_variables_write_zero_as_one_digit() {
    let mut map = McuMemoryMap::default();
    map.rom_size = 0;
    map.dccm_size = 0x1f;
    let vars = map.linker_variables();
    assert_eq!(vars[1].1, "0x0");
    assert_eq!(vars[4].1, "0x1f");
}
