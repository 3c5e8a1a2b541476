use mcu_common::pldm::codec::PldmCodec;
use mcu_common::pldm::protocol::base::{
    PldmBaseCompletionCode, PldmControlCmd, PldmFailureResponse, PldmMsgHeader, PldmMsgType,
    PldmSupportedType, PLDM_FAILURE_RESP_LEN, PLDM_MSG_HEADER_LEN,
};
use mcu_common::pldm::protocol::firmware_update::{
    get_descriptor_length, ComponentActivationMethods, ComponentClassification,
    ComponentParameterEntry, Descriptor, DescriptorType, FirmwareDeviceCapability,
    PldmFirmwareString, PldmFirmwareVersion,
};

#[test]
fn test_pldm_msg_header() {
    let header = PldmMsgHeader::new(
        0x01,
        PldmMsgType::Request,
        PldmSupportedType::Base,
        PldmControlCmd::GetTid.to_u8(),
    );
    assert_eq!(header.0, [0x81, 0x00, 0x02]);
    assert!(header.is_request());
    let response = header.into_response();
    assert_eq!(response.0, [0x01, 0x00, 0x02]);
    assert_eq!(response.rq(), PldmMsgType::Response.to_u8());

    let mut buffer = [0; PLDM_MSG_HEADER_LEN];
    let size = header.encode(&mut buffer).unwrap();
    assert_eq!(size, PLDM_MSG_HEADER_LEN);

    let decoded_header = PldmMsgHeader::decode(&buffer).unwrap();
    assert_eq!(header, decoded_header);
}

#[test]
fn test_pldm_failure_resp() {
    let resp = PldmFailureResponse::new(
        0x01,
        PldmSupportedType::Base,
        PldmControlCmd::GetTid.to_u8(),
        PldmBaseCompletionCode::Success.to_u8(),
    );

    let mut buffer = [0; PLDM_FAILURE_RESP_LEN];
    let size = resp.encode(&mut buffer).unwrap();
    assert_eq!(size, PLDM_FAILURE_RESP_LEN);

    let decoded_resp = PldmFailureResponse::decode(&buffer).unwrap();
    assert_eq!(resp, decoded_resp);
}

#[test]
fn test_descriptor_encode_decode() {
    let test_uid = [
        0x01, 0x02, 0x03, 0x04, 0x05, 0x06, 0x07, 0x08, 0x09, 0x0A, 0x0B, 0x0C, 0x0D, 0x0E, 0x0F,
        0x10,
    ];
    let descriptor = Descriptor::new(DescriptorType::Uuid, &test_uid).unwrap();
    assert_eq!(
        descriptor.descriptor_length,
        get_descriptor_length(DescriptorType::Uuid) as u16
    );
    let mut buffer = [0u8; 512];
    descriptor.encode(&mut buffer).unwrap();
    let decoded_descriptor = Descriptor::decode(&buffer).unwrap();
    assert_eq!(descriptor, decoded_descriptor);
}

#[test]
fn test_component_parameter_entry() {
    let active_firmware_string = PldmFirmwareString::new("UTF-8", "mcu-runtime-1.0").unwrap();
    let active_firmware_version =
        PldmFirmwareVersion::new(0x12345678, &active_firmware_string, Some("20250210"));

    let pending_firmware_string = PldmFirmwareString::new("UTF-8", "mcu-runtime-1.5").unwrap();
    let pending_firmware_version =
        PldmFirmwareVersion::new(0x87654321, &pending_firmware_string, Some("20250213"));

    let comp_activation_methods = ComponentActivationMethods(0x0001);
    let capabilities_during_update = FirmwareDeviceCapability(0x0010);

    let component_parameter_entry = ComponentParameterEntry::new(
        ComponentClassification::Firmware,
        0x0001,
        0x01,
        &active_firmware_version,
        &pending_firmware_version,
        comp_activation_methods,
        capabilities_during_update,
    );

    let mut buffer = [0u8; 512];
    component_parameter_entry.encode(&mut buffer).unwrap();
    let decoded_component_parameter_entry = ComponentParameterEntry::decode(&buffer).unwrap();
    assert_eq!(component_parameter_entry, decoded_component_parameter_entry);
}

#[test]
fn descriptor_of_wrong_length_is_refused() {
    let short = [0u8; 15];
    assert!(Descriptor::new(DescriptorType::Uuid, &short).is_err());
    assert!(Descriptor::new(DescriptorType::PciVendorId, &[1, 2]).is_ok());
}

#[test]
fn descriptor_encoding_bytes() {
    let d = Descriptor::new(DescriptorType::PciVendorId, &[0x14, 0x14]).unwrap();
    let mut buffer = [0u8; 8];
    assert_eq!(d.encode(&mut buffer), Ok(6));
    assert_eq!(buffer[..6], [0x00, 0x00, 0x02, 0x00, 0x14, 0x14]);
}

#[test]
fn firmware_string_rules() {
    assert!(PldmFirmwareString::new("bogus", "x").is_err());
    let long = "a".repeat(256);
    assert!(PldmFirmwareString::new("ASCII", &long).is_err());
    let a = PldmFirmwareString::new("ASCII", "1.0").unwrap();
    let b = PldmFirmwareString::new("ASCII", "1.1").unwrap();
    assert!(a.is_older_than(&b));
    assert!(!b.is_older_than(&a));
    assert!(a == PldmFirmwareString::new("ASCII", "1.0").unwrap());
    assert!(a != PldmFirmwareString::new("UTF-8", "1.0").unwrap());
}

#[test]
fn header_fields() {
    let header = PldmMsgHeader::new(0x25, PldmMsgType::Request, PldmSupportedType::FwUpdate, 0x14);
    assert_eq!(header.instance_id(), 0x05);
    assert_eq!(header.pldm_type(), 0x05);
    assert_eq!(header.cmd_code(), 0x14);
    assert_eq!(header.hdr_ver(), 0);
    assert!(header.is_hdr_ver_valid());
}

#[test]
fn enum_codes_round_trip() {
    assert_eq!(PldmSupportedType::try_from(5u8), Ok(PldmSupportedType::FwUpdate));
    assert!(PldmSupportedType::try_from(7u8).is_err());
    assert_eq!(PldmControlCmd::try_from(3u8), Ok(PldmControlCmd::GetPldmVersion));
}
