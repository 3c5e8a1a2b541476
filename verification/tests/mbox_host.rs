use mcu_common::builder::{classify_bundle_file, BundleFile, FirmwareBinaries, FirmwareBinariesError};
use mcu_common::host::command_types::CaliptraCommandId;
use mcu_common::host::dispatch::{get_command_handler, get_external_cmd_code, DOT_FAMILY_ID};
use mcu_common::host::fuse::{ExtCmdFeProgResponse, MC_FUSE_LOCK_PARTITION_CANONICAL_CMD_ID};
use mcu_common::host::validator::{
    all_passed, status_tag, summary_counts, ValidationResult, ValidationStatus,
};
use mcu_common::mbox::config::{test_device_capabilities, test_device_id};
use mcu_common::mbox::messages::{CommandId, McuMboxError, RevokeVendorPubKeyType, SekState};
use std::convert::TryFrom;

#[test]
fn test_fuse_command_ids() {
    assert_eq!(CommandId::MC_FUSE_READ().0, 0x4946_5052);
    assert_eq!(CommandId::MC_FUSE_WRITE().0, 0x4946_5057);
    assert_eq!(CommandId::MC_FUSE_LOCK_PARTITION().0, 0x4946_504B);
    assert_eq!(CommandId::MC_PROVISION_OWNER_PK_HASH().0, 0x504F_504B);
}

#[test]
fn test_dpe_signer_context_cert_command_id() {
    assert_eq!(CommandId::MC_DPE_SIGNER_CONTEXT_CERT().0, 0x4D44_5343);
    assert_eq!(CommandId::MC_GET_DPE_CERTIFICATE_CHAIN().0, 0x4D44_4343);
}

#[test]
fn all_dot_commands_are_dispatched_to_the_family_command() {
    let commands = [
        CaliptraCommandId::DotLock,
        CaliptraCommandId::DotDisable,
        CaliptraCommandId::DotUnlockChallenge,
        CaliptraCommandId::DotUnlock,
        CaliptraCommandId::DotRotate,
        CaliptraCommandId::GetDotBackupBlob,
        CaliptraCommandId::DotStatus,
        CaliptraCommandId::DotRecovery,
        CaliptraCommandId::DotOverrideChallenge,
        CaliptraCommandId::DotOverride,
    ];

    for command in commands {
        assert!(get_command_handler(command.to_u32()).is_some());
        assert_eq!(get_external_cmd_code(command.to_u32()), Some(DOT_FAMILY_ID));
    }
}

#[test]
fn dispatch_maps_known_and_unknown_identifiers() {
    assert_eq!(
        get_command_handler(CaliptraCommandId::FuseLockPartition.to_u32()),
        Some(CaliptraCommandId::FuseLockPartition)
    );
    assert_eq!(
        get_external_cmd_code(CaliptraCommandId::FuseLockPartition.to_u32()),
        Some(MC_FUSE_LOCK_PARTITION_CANONICAL_CMD_ID)
    );
    assert_eq!(
        get_external_cmd_code(CaliptraCommandId::GetFirmwareVersion.to_u32()),
        Some(CommandId::MC_FIRMWARE_VERSION().0)
    );
    assert_eq!(get_command_handler(0xdead_beef), None);
    assert_eq!(get_external_cmd_code(0xdead_beef), None);
    // The OCP Lock commands travel under their family code.
    assert_eq!(get_external_cmd_code(0x8018), Some(0x0000_0013));
    assert_eq!(get_external_cmd_code(0x8019), Some(0x0000_0013));
    // Every identifier with a handler has an external code and back.
    for id in 0u32..0x9000 {
        assert_eq!(get_command_handler(id).is_some(), get_external_cmd_code(id).is_some());
    }
}

#[test]
fn mailbox_errors_have_their_codes() {
    assert_eq!(McuMboxError::MCU_MBOX_RESPONSE_DATA_LEN_TOO_LARGE().code(), 1);
    assert_eq!(McuMboxError::MCU_MBOX_RESPONSE_DATA_LEN_TOO_SHORT().code(), 2);
    assert_eq!(McuMboxError::MCU_RUNTIME_INSUFFICIENT_MEMORY().code(), 3);
    assert_eq!(McuMboxError::MCU_MBOX_REQUEST_DATA_LEN_TOO_LARGE().code(), 4);
}

#[test]
fn command_id_converts_both_ways() {
    let id = CommandId::from(0x4D44_4C4Bu32);
    assert_eq!(id, CommandId::MC_DOT_LOCK());
    assert_eq!(u32::from(CommandId::MC_DOT_STATUS()), CommandId::MC_DOT_STATUS().0);
    assert_eq!(CommandId::MC_DEVICE_OWNERSHIP_TRANSFER().0, 0x11);
}

#[test]
fn enumerations_convert_from_wire_values() {
    assert_eq!(RevokeVendorPubKeyType::try_from(5u32), Err(()));
    let sek = SekState::try_from(0u16);
    assert!(sek.is_ok());
    assert_eq!(SekState::default().to_u16(), sek.unwrap().to_u16());
    assert_eq!(SekState::try_from(0xffffu16), Err(()));
}

#[test]
fn test_device_configuration_is_fixed() {
    let id = test_device_id();
    assert_eq!(id, test_device_id());
    let caps = test_device_capabilities();
    assert_eq!(caps, test_device_capabilities());
}

#[test]
fn fe_prog_response_keeps_fips_status() {
    let ext = ExtCmdFeProgResponse { chksum: 7, fips_status: 0x55 };
    assert_eq!(ext.to_internal().common.fips_status, 0x55);
}

#[test]
fn validation_results_pass_unless_one_fails() {
    let pass = ValidationResult::pass("a", "ok");
    let skip = ValidationResult::skip("b", "n/a");
    let fail = ValidationResult::fail("c", "bad");
    assert_eq!(pass.status, ValidationStatus::Pass);
    assert_eq!(pass.test_name, "a");
    assert_eq!(fail.detail.as_deref(), Some("bad"));
    assert!(all_passed(&[]));
    assert!(all_passed(&[pass.clone(), skip.clone()]));
    assert!(!all_passed(&[pass, fail, skip]));
}

#[test]
fn firmware_binaries_find_test_binaries_by_feature() {
    let mut bins = FirmwareBinaries::default();
    bins.test_soc_manifests
        .push(("mcu-test-soc-manifest-foo.bin".to_string(), vec![1, 2, 3]));
    bins.test_runtimes
        .push(("mcu-test-runtime-bar.bin".to_string(), vec![9]));
    bins.test_runtimes
        .push(("mcu-test-runtime-bar.bin".to_string(), vec![8]));
    assert_eq!(bins.test_soc_manifest("foo"), Ok(vec![1, 2, 3]));
    assert_eq!(
        bins.test_soc_manifest("bar"),
        Err(FirmwareBinariesError::SocManifestNotFound)
    );
    assert_eq!(bins.test_runtime("bar"), Ok(vec![9]));
    assert_eq!(
        bins.test_runtime("foo"),
        Err(FirmwareBinariesError::RuntimeNotFound)
    );
}

#[test]
fn bundle_files_are_sorted_by_name() {
    assert_eq!(classify_bundle_file("caliptra_rom.bin"), BundleFile::CaliptraRom);
    assert_eq!(classify_bundle_file("soc_manifest.bin"), BundleFile::SocManifest);
    assert_eq!(classify_bundle_file("x/caliptra_rom.bin"), BundleFile::Other);
    assert_eq!(
        classify_bundle_file("mcu-test-soc-manifest-foo.bin"),
        BundleFile::TestSocManifest
    );
    assert_eq!(classify_bundle_file("a-mcu-test-runtime"), BundleFile::TestRuntime);
    assert_eq!(classify_bundle_file("mcu-test-rom-x-y.bin"), BundleFile::TestRom);
    assert_eq!(classify_bundle_file("flash_image.bin"), BundleFile::Other);
    assert_eq!(classify_bundle_file(""), BundleFile::Other);
}

#[test]
fn bundle_files_fill_the_binaries() {
    let mut bins = FirmwareBinaries::default();
    bins.add_bundle_file("mcu_rom.bin", vec![1]);
    bins.add_bundle_file("mcu_rom.bin", vec![2, 3]);
    bins.add_bundle_file("mcu-test-rom-crate-bin.bin", vec![4]);
    bins.add_bundle_file("pldm_fw_pkg.bin", vec![5]);
    assert_eq!(bins.mcu_rom, vec![2, 3]);
    assert!(bins.caliptra_fw.is_empty());
    assert_eq!(bins.test_roms.len(), 1);
    assert_eq!(bins.test_rom("crate", "bin"), Ok(vec![4]));
    assert_eq!(
        bins.test_rom("crate", "other"),
        Err(FirmwareBinariesError::TestRomNotFound)
    );
}

#[test]
fn summary_counts_passed_skipped_and_run() {
    let results = vec![
        ValidationResult::pass("a", "ok"),
        ValidationResult::skip("b", "n/a"),
        ValidationResult::fail("c", "bad"),
        ValidationResult::pass("d", "ok"),
    ];
    assert_eq!(summary_counts(&results), (2, 1, 3));
    assert_eq!(summary_counts(&[]), (0, 0, 0));
    assert_eq!(status_tag(ValidationStatus::Fail), "FAIL");
    assert_eq!(status_tag(ValidationStatus::Skip), "SKIP");
}
