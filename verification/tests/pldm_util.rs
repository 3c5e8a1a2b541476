use mcu_common::pldm::error::TransportError;
use mcu_common::pldm::message::firmware_update::get_fw_params::FirmwareParameters;
use mcu_common::pldm::protocol::firmware_update::{
    ComponentActivationMethods, ComponentClassification, ComponentParameterEntry,
    ComponentResponseCode, FirmwareDeviceCapability, PldmFirmwareString, PldmFirmwareVersion,
};
use mcu_common::pldm::util::fw_component::FirmwareComponent;
use mcu_common::pldm::util::mctp_transport::{construct_mctp_pldm_msg, extract_pldm_msg};

fn construct_firmware_params() -> FirmwareParameters {
    let active_firmware_string = PldmFirmwareString::new("UTF-8", "mcu-runtime-1.0").unwrap();
    let active_firmware_version =
        PldmFirmwareVersion::new(0x12345678, &active_firmware_string, Some("20250210"));
    let pending_firmware_string = PldmFirmwareString::new("UTF-8", "mcu-runtime-1.5").unwrap();
    let pending_firmware_version =
        PldmFirmwareVersion::new(0x87654321, &pending_firmware_string, Some("20250213"));
    let comp_activation_methods = ComponentActivationMethods(0x0001);
    let capabilities_during_update = FirmwareDeviceCapability(0x0010);
    let component_parameter_entry = ComponentParameterEntry::new(
        ComponentClassification::Firmware,
        0x0001,
        0x01,
        &active_firmware_version,
        &pending_firmware_version,
        comp_activation_methods,
        capabilities_during_update,
    );

    const COMP_COUNT: usize = 8;
    let comp_param_table: [ComponentParameterEntry; COMP_COUNT] =
        core::array::from_fn(|_| component_parameter_entry.clone());
    FirmwareParameters::new(
        capabilities_during_update,
        COMP_COUNT as u16,
        &active_firmware_string,
        &pending_firmware_string,
        &comp_param_table,
    )
}

#[test]
fn test_check_update_component() {
    let fw_params = construct_firmware_params();
    let comp = FirmwareComponent::new(
        ComponentClassification::Firmware.to_u16(),
        0x0001,
        0x01,
        0x12345680,
        PldmFirmwareString::new("UTF-8", "mcu-runtime-1.2").unwrap(),
        None,
        None,
    );
    assert_eq!(
        comp.evaluate_update_eligibility(&fw_params),
        ComponentResponseCode::CompCanBeUpdated
    );

    let comp = FirmwareComponent::new(
        ComponentClassification::Firmware.to_u16(),
        0x0001,
        0x01,
        0x12345670,
        PldmFirmwareString::new("UTF-8", "mcu-runtime-1.2").unwrap(),
        None,
        None,
    );
    assert_eq!(
        comp.evaluate_update_eligibility(&fw_params),
        ComponentResponseCode::CompComparisonStampLower
    );

    let comp = FirmwareComponent::new(
        ComponentClassification::Firmware.to_u16(),
        0x0001,
        0x01,
        0x12345678,
        PldmFirmwareString::new("UTF-8", "mcu-runtime-1.5").unwrap(),
        None,
        None,
    );
    assert_eq!(
        comp.evaluate_update_eligibility(&fw_params),
        ComponentResponseCode::CompComparisonStampIdentical
    );

    let comp = FirmwareComponent::new(
        ComponentClassification::Firmware.to_u16(),
        0x0001,
        0x01,
        0x12345680,
        PldmFirmwareString::new("UTF-8", "mcu-runtime-0.5").unwrap(),
        None,
        None,
    );
    assert_eq!(
        comp.evaluate_update_eligibility(&fw_params),
        ComponentResponseCode::CompVerStrLower
    );

    let comp = FirmwareComponent::new(
        ComponentClassification::Firmware.to_u16(),
        0x0001,
        0x01,
        0x12345680,
        PldmFirmwareString::new("UTF-8", "mcu-runtime-1.0").unwrap(),
        None,
        None,
    );
    assert_eq!(
        comp.evaluate_update_eligibility(&fw_params),
        ComponentResponseCode::CompVerStrIdentical
    );

    let comp = FirmwareComponent::new(
        ComponentClassification::Firmware.to_u16(),
        0x0001,
        0x05,
        0x12345680,
        PldmFirmwareString::new("UTF-8", "mcu-runtime-1.0").unwrap(),
        None,
        None,
    );
    assert_eq!(
        comp.evaluate_update_eligibility(&fw_params),
        ComponentResponseCode::CompNotSupported
    );
}

#[test]
fn test_retrieve_pldm_msg() {
    let mut mctp_payload = [0u8; 8];
    assert_eq!(
        extract_pldm_msg(&mut mctp_payload),
        Err(TransportError::InvalidMctpMsgType)
    );
    mctp_payload[0] = 0x01;
    assert_eq!(extract_pldm_msg(&mut mctp_payload).unwrap(), &mut [0u8; 7]);
    let mut mctp_payload = [0u8; 3];
    assert_eq!(
        extract_pldm_msg(&mut mctp_payload),
        Err(TransportError::InvalidMctpPayloadLength)
    );
}

#[test]
fn test_construct_mctp_pldm_msg() {
    let mut mctp_payload = [0u8; 10];
    assert_eq!(
        construct_mctp_pldm_msg(&mut mctp_payload).unwrap(),
        &mut [0u8; 9]
    );
    assert_eq!(mctp_payload[0], 0x01);
    let mut mctp_payload = [0u8; 3];
    assert_eq!(
        construct_mctp_pldm_msg(&mut mctp_payload),
        Err(TransportError::InvalidMctpPayloadLength)
    );
}

#[test]
fn constructed_payload_is_extracted_again() {
    let mut payload = [0xEEu8; 12];
    {
        let msg = construct_mctp_pldm_msg(&mut payload).unwrap();
        msg[0] = 0x81;
    }
    let msg = extract_pldm_msg(&mut payload).unwrap();
    assert_eq!(msg.len(), 11);
    assert_eq!(msg[0], 0x81);
}

#[test]
fn integrity_check_bit_is_refused() {
    let mut payload = [0x81u8, 0, 0, 0];
    assert_eq!(extract_pldm_msg(&mut payload), Err(TransportError::InvalidMctpMsgType));
}
