use mcu_common::pldm::codec::{fixed_size, PldmCodec, PldmCodecError};
use mcu_common::pldm::message::firmware_update::apply_complete::{
    ApplyCompleteRequest, ApplyCompleteResponse, ApplyResult,
};
use mcu_common::pldm::message::firmware_update::get_fw_params::{
    FirmwareParameters, GetFirmwareParametersRequest, GetFirmwareParametersResponse,
};
use mcu_common::pldm::message::firmware_update::get_status::{
    AuxState, AuxStateStatus, GetStatusReasonCode, GetStatusRequest, GetStatusResponse,
    ProgressPercent, UpdateOptionResp,
};
use mcu_common::pldm::message::firmware_update::pass_component::{
    PassComponentTableRequest, PassComponentTableResponse,
};
use mcu_common::pldm::message::firmware_update::query_devid::QueryDeviceIdentifiersResponse;
use mcu_common::pldm::message::firmware_update::request_cancel::{
    CancelUpdateRequest, CancelUpdateResponse, NonFunctioningComponentBitmap,
    NonFunctioningComponentIndication,
};
use mcu_common::pldm::message::firmware_update::request_update::{
    RequestUpdateRequest, RequestUpdateResponse,
};
use mcu_common::pldm::message::firmware_update::transfer_complete::{
    TransferCompleteRequest, TransferCompleteResponse, TransferResult,
};
use mcu_common::pldm::message::firmware_update::update_component::{
    UpdateComponentRequest, UpdateComponentResponse,
};
use mcu_common::pldm::message::firmware_update::verify_complete::{
    VerifyCompleteRequest, VerifyCompleteResponse, VerifyResult,
};
use mcu_common::pldm::protocol::base::{PldmMsgType, TransferRespFlag, PLDM_MSG_HEADER_LEN};
use mcu_common::pldm::protocol::firmware_update::{
    ComponentActivationMethods, ComponentClassification, ComponentCompatibilityResponse,
    ComponentCompatibilityResponseCode, ComponentParameterEntry, ComponentResponse,
    ComponentResponseCode, Descriptor, DescriptorType, FirmwareDeviceCapability,
    FirmwareDeviceState, PldmFirmwareString, PldmFirmwareVersion, UpdateOptionFlags,
};

#[test]
fn test_apply_complete_request() {
    let request = ApplyCompleteRequest::new(
        1,
        PldmMsgType::Request,
        ApplyResult::ApplySuccess,
        ComponentActivationMethods(0x0001),
    );

    let mut buffer = [0u8; 64];
    let bytes_written = request.encode(&mut buffer).unwrap();
    assert_eq!(bytes_written, fixed_size::<ApplyCompleteRequest>());
    let decoded_request = ApplyCompleteRequest::decode(&buffer[..bytes_written]).unwrap();
    assert_eq!(request, decoded_request);
}

#[test]
fn test_apply_complete_response() {
    let response = ApplyCompleteResponse::new(1, 0);
    let mut buffer = [0u8; 64];
    let bytes_written = response.encode(&mut buffer).unwrap();
    assert_eq!(bytes_written, fixed_size::<ApplyCompleteResponse>());
    let decoded_response = ApplyCompleteResponse::decode(&buffer[..bytes_written]).unwrap();
    assert_eq!(response, decoded_response);
}

fn construct_firmware_params() -> FirmwareParameters {
    let active_firmware_string = PldmFirmwareString::new("ASCII", "mcu-runtime-1.0").unwrap();
    let active_firmware_version =
        PldmFirmwareVersion::new(0x12345678, &active_firmware_string, Some("20250210"));
    let pending_firmware_string = PldmFirmwareString::new("ASCII", "mcu-runtime-1.5").unwrap();
    let pending_firmware_version =
        PldmFirmwareVersion::new(0x87654321, &pending_firmware_string, Some("20250213"));
    let comp_activation_methods = ComponentActivationMethods(0x0001);
    let capabilities_during_update = FirmwareDeviceCapability(0x0010);
    let component_parameter_entry = ComponentParameterEntry::new(
        ComponentClassification::Firmware,
        0x0001,
        0x01,
        &active_firmware_version,
        &pending_firmware_version,
        comp_activation_methods,
        capabilities_during_update,
    );
    FirmwareParameters::new(
        capabilities_during_update,
        1,
        &active_firmware_string,
        &pending_firmware_string,
        &[component_parameter_entry],
    )
}

#[test]
fn test_get_firmware_parameters_request() {
    let request = GetFirmwareParametersRequest::new(0, PldmMsgType::Request);
    let mut buffer = [0u8; PLDM_MSG_HEADER_LEN];
    request.encode(&mut buffer).unwrap();
    let decoded_request = GetFirmwareParametersRequest::decode(&buffer).unwrap();
    assert_eq!(request, decoded_request);
}

#[test]
fn test_get_firmware_parameters() {
    let firmware_parameters = construct_firmware_params();
    let mut buffer = [0u8; 512];
    let size = firmware_parameters.encode(&mut buffer).unwrap();
    assert_eq!(size, firmware_parameters.codec_size_in_bytes());
    let decoded_firmware_parameters = FirmwareParameters::decode(&buffer[..size]).unwrap();
    assert_eq!(firmware_parameters, decoded_firmware_parameters);
}

#[test]
fn test_get_firmware_parameters_response() {
    let firmware_parameters = construct_firmware_params();
    let response = GetFirmwareParametersResponse::new(0, 0, &firmware_parameters);
    let mut buffer = [0u8; 512];
    let size = response.encode(&mut buffer).unwrap();
    assert_eq!(size, response.codec_size_in_bytes());
    let decoded_response = GetFirmwareParametersResponse::decode(&buffer[..size]).unwrap();
    assert_eq!(response, decoded_response);
}

#[test]
fn test_get_status_request() {
    let instance_id = 1;
    let msg_type = PldmMsgType::Request;
    let request = GetStatusRequest::new(instance_id, msg_type);
    let mut buffer = [0u8; 16];
    let encoded_size = request.encode(&mut buffer).unwrap();
    assert_eq!(encoded_size, fixed_size::<GetStatusRequest>());

    let decoded_request = GetStatusRequest::decode(&buffer).unwrap();
    assert_eq!(request, decoded_request);
}

#[test]
fn test_get_status_response() {
    let response = GetStatusResponse::new(
        1,
        0,
        FirmwareDeviceState::Idle,
        FirmwareDeviceState::Idle,
        AuxState::IdleLearnComponentsReadXfer,
        AuxStateStatus::AuxStateInProgressOrSuccess.to_u8(),
        ProgressPercent::new(50).unwrap(),
        GetStatusReasonCode::Initialization,
        UpdateOptionResp::NoForceUpdate,
    );

    let mut buffer = [0u8; 32];
    let encoded_size = response.encode(&mut buffer).unwrap();
    assert_eq!(encoded_size, fixed_size::<GetStatusResponse>());

    let decoded_response = GetStatusResponse::decode(&buffer).unwrap();
    assert_eq!(response, decoded_response);
}

#[test]
fn test_pass_component_table_request() {
    let request = PassComponentTableRequest::new(
        1,
        PldmMsgType::Request,
        TransferRespFlag::StartAndEnd,
        ComponentClassification::Firmware,
        2,
        3,
        4,
        &PldmFirmwareString::new("UTF-8", "bmc-fw-1.2.0").unwrap(),
    );

    let mut buffer = [0u8; 1024];
    let encoded_size = request.encode(&mut buffer).unwrap();
    let decoded_request = PassComponentTableRequest::decode(&buffer[..encoded_size]).unwrap();
    assert_eq!(request, decoded_request);
}

#[test]
fn test_pass_component_table_response() {
    let response = PassComponentTableResponse::new(
        0,
        0,
        ComponentResponse::CompCanBeUpdated,
        ComponentResponseCode::CompCanBeUpdated,
    );

    let mut buffer = [0u8; 1024];
    let encoded_size = response.encode(&mut buffer).unwrap();
    let decoded_response = PassComponentTableResponse::decode(&buffer[..encoded_size]).unwrap();
    assert_eq!(response, decoded_response);
}

#[test]
fn test_query_device_identifiers_resp() {
    let instance_id = 0;
    let completion_code = 0;

    let test_uid = [
        0x01, 0x02, 0x03, 0x04, 0x05, 0x06, 0x07, 0x08, 0x09, 0x0A, 0x0B, 0x0C, 0x0D, 0x0E, 0x0F,
        0x10,
    ];
    let initial_descriptor = Descriptor::new(DescriptorType::Uuid, &test_uid).unwrap();
    let additional_descriptor = Descriptor::new(DescriptorType::Uuid, &test_uid).unwrap();

    let resp = QueryDeviceIdentifiersResponse::new(
        instance_id,
        completion_code,
        &initial_descriptor,
        Some(&[additional_descriptor]),
    )
    .unwrap();

    assert_eq!(resp.descriptor_count, 2);
    assert_eq!(
        resp.device_identifiers_len,
        (initial_descriptor.codec_size_in_bytes() + additional_descriptor.codec_size_in_bytes())
            as u32
    );

    let mut buffer: [u8; 256] = [0; 256];
    let resp_len = resp.encode(&mut buffer).unwrap();
    assert_eq!(resp_len, resp.codec_size_in_bytes());

    let resp_decoded = QueryDeviceIdentifiersResponse::decode(&buffer).unwrap();
    assert_eq!(resp, resp_decoded);
}

#[test]
fn test_cancel_update_request() {
    let cancel_update_request = CancelUpdateRequest::new(0x01, PldmMsgType::Request);
    let mut buffer = vec![0u8; fixed_size::<CancelUpdateRequest>()];
    cancel_update_request.encode(&mut buffer).unwrap();
    let decoded_request = CancelUpdateRequest::decode(&buffer).unwrap();
    assert_eq!(cancel_update_request, decoded_request);
}

#[test]
fn test_cancel_update_response() {
    let response = CancelUpdateResponse::new(
        0x01,
        0x00,
        NonFunctioningComponentIndication::ComponentsFunctioning,
        NonFunctioningComponentBitmap::new(0x00),
    );
    let mut buffer = vec![0u8; fixed_size::<CancelUpdateResponse>()];
    response.encode(&mut buffer).unwrap();
    let decoded_response = CancelUpdateResponse::decode(&buffer).unwrap();
    assert_eq!(response, decoded_response);
}

#[test]
fn test_request_update_request() {
    let request = RequestUpdateRequest::new(
        0,
        PldmMsgType::Request,
        512,
        2,
        1,
        256,
        &PldmFirmwareString::new("ASCII", "mcu-1.0.0").unwrap(),
    );

    let mut buffer = [0u8; 512];
    let encoded_size = request.encode(&mut buffer).unwrap();
    assert_eq!(encoded_size, request.codec_size_in_bytes());

    let decoded_request = RequestUpdateRequest::decode(&buffer[..encoded_size]).unwrap();
    assert_eq!(request, decoded_request);
}

#[test]
fn test_request_update_response() {
    let response = RequestUpdateResponse::new(1, 0, 128, 0x02, Some(2048));

    let mut buffer = [0u8; 512];
    let encoded_size = response.encode(&mut buffer).unwrap();
    assert_eq!(encoded_size, response.codec_size_in_bytes());

    let decoded_response = RequestUpdateResponse::decode(&buffer[..encoded_size]).unwrap();
    assert_eq!(response, decoded_response);
}

#[test]
fn test_transfer_complete_request() {
    let request =
        TransferCompleteRequest::new(0x01, PldmMsgType::Request, TransferResult::TransferSuccess);
    let mut buffer = vec![0u8; fixed_size::<TransferCompleteRequest>()];
    request.encode(&mut buffer).unwrap();
    let decoded_request = TransferCompleteRequest::decode(&buffer).unwrap();
    assert_eq!(decoded_request, request);
}

#[test]
fn test_transfer_complete_response() {
    let response = TransferCompleteResponse::new(0x01, 0x00);
    let mut buffer = vec![0u8; fixed_size::<TransferCompleteResponse>()];
    response.encode(&mut buffer).unwrap();
    let decoded_response = TransferCompleteResponse::decode(&buffer).unwrap();
    assert_eq!(decoded_response, response);
}

#[test]
fn test_update_component_request() {
    let request = UpdateComponentRequest::new(
        0,
        PldmMsgType::Request,
        ComponentClassification::Firmware,
        0x0001,
        0x01,
        0x00000001,
        0x00000001,
        UpdateOptionFlags(0x00000002),
        &PldmFirmwareString::new("UTF-8", "mcu-fw-1.2.0").unwrap(),
    );
    let mut buffer = [0u8; 512];
    let bytes = request.encode(&mut buffer).unwrap();
    assert_eq!(bytes, request.codec_size_in_bytes());
    let decoded_request = UpdateComponentRequest::decode(&buffer[..bytes]).unwrap();
    assert_eq!(request, decoded_request);
}

#[test]
fn test_update_component_response() {
    let response = UpdateComponentResponse::new(
        0,
        0x00,
        ComponentCompatibilityResponse::CompCanBeUpdated,
        ComponentCompatibilityResponseCode::NoResponseCode,
        UpdateOptionFlags(0x00000002),
        0x0001,
        Some(0x00000100),
    );
    let mut buffer = [0u8; 512];
    let bytes = response.encode(&mut buffer).unwrap();
    assert_eq!(bytes, response.codec_size_in_bytes());
    let decoded_response = UpdateComponentResponse::decode(&buffer[..bytes]).unwrap();
    assert_eq!(response, decoded_response);
}

#[test]
fn test_verify_complete_request() {
    let request = VerifyCompleteRequest::new(0x01, PldmMsgType::Request, VerifyResult::VerifySuccess);
    let mut buffer = vec![0u8; fixed_size::<VerifyCompleteRequest>()];
    request.encode(&mut buffer).unwrap();
    let decoded_request = VerifyCompleteRequest::decode(&buffer).unwrap();
    assert_eq!(request, decoded_request);
}

#[test]
fn test_verify_complete_response() {
    let response = VerifyCompleteResponse::new(0x01, 0x00);
    let mut buffer = vec![0u8; fixed_size::<VerifyCompleteResponse>()];
    response.encode(&mut buffer).unwrap();
    let decoded_response = VerifyCompleteResponse::decode(&buffer).unwrap();
    assert_eq!(response, decoded_response);
}
