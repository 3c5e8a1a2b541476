use mcu_common::pldm::codec::{fixed_size, PldmCodec, PldmCodecError};
use mcu_common::pldm::message::control::{
    GetPldmCommandsRequest, GetPldmCommandsResponse, GetPldmTypeRequest, GetPldmTypeResponse,
    GetPldmVersionRequest, GetPldmVersionResponse, GetTidRequest, GetTidResponse, SetTidRequest,
    SetTidResponse, PLDM_TYPES_BITMAP_LEN,
};
use mcu_common::pldm::protocol::base::{
    PldmMsgType, PldmSupportedType, TransferOperationFlag, TransferRespFlag,
};

#[test]
fn test_get_tid_request() {
    let request = GetTidRequest::new(0x01, PldmMsgType::Request);
    let mut buffer = vec![0u8; fixed_size::<GetTidRequest>()];
    request.encode(&mut buffer).unwrap();
    let decoded_request = GetTidRequest::decode(&buffer).unwrap();
    assert_eq!(request, decoded_request);
}

#[test]
fn test_get_tid_response() {
    let response = GetTidResponse::new(0x01, 42, 0);
    let mut buffer = vec![0u8; fixed_size::<GetTidResponse>()];
    response.encode(&mut buffer).unwrap();
    let decoded_response = GetTidResponse::decode(&buffer).unwrap();
    assert_eq!(response, decoded_response);
}

#[test]
fn test_set_tid_request() {
    let request = SetTidRequest::new(0x01, PldmMsgType::Request, 42);
    let mut buffer = vec![0u8; fixed_size::<SetTidRequest>()];
    request.encode(&mut buffer).unwrap();
    let decoded_request = SetTidRequest::decode(&buffer).unwrap();
    assert_eq!(request, decoded_request);
}

#[test]
fn test_set_tid_response() {
    let response = SetTidResponse::new(0x01, 0);
    let mut buffer = vec![0u8; fixed_size::<SetTidResponse>()];
    response.encode(&mut buffer).unwrap();
    let decoded_response = SetTidResponse::decode(&buffer).unwrap();
    assert_eq!(response, decoded_response);
}

#[test]
fn test_get_pldm_commands_request() {
    let request = GetPldmCommandsRequest::new(0x01, PldmMsgType::Request, 1, "1.0.0");
    let mut buffer = vec![0u8; fixed_size::<GetPldmCommandsRequest>()];
    request.encode(&mut buffer).unwrap();
    let decoded_request = GetPldmCommandsRequest::decode(&buffer).unwrap();
    assert_eq!(request, decoded_request);
}

#[test]
fn test_get_pldm_commands_response() {
    let response = GetPldmCommandsResponse::new(0x01, 0, &[1, 2, 3]);
    let mut buffer = vec![0u8; fixed_size::<GetPldmCommandsResponse>()];
    response.encode(&mut buffer).unwrap();
    let decoded_response = GetPldmCommandsResponse::decode(&buffer).unwrap();
    assert_eq!(response, decoded_response);
}

#[test]
fn test_get_pldm_type_request() {
    let request = GetPldmTypeRequest::new(0x01, PldmMsgType::Request);
    let mut buffer = vec![0u8; fixed_size::<GetPldmTypeRequest>()];
    request.encode(&mut buffer).unwrap();
    let decoded_request = GetPldmTypeRequest::decode(&buffer).unwrap();
    assert_eq!(request, decoded_request);
}

#[test]
fn test_get_pldm_type_response() {
    let response = GetPldmTypeResponse::new(0x01, 0, &[0, 5]);
    let mut expected_bitmap = [0u8; PLDM_TYPES_BITMAP_LEN];
    expected_bitmap[0] = 0b00100001;
    assert_eq!(response.pldm_types, expected_bitmap);

    let mut buffer = vec![0u8; fixed_size::<GetPldmTypeResponse>()];
    response.encode(&mut buffer).unwrap();
    let decoded_response = GetPldmTypeResponse::decode(&buffer).unwrap();
    assert_eq!(response, decoded_response);
}

#[test]
fn test_get_pldm_version_request() {
    let request = GetPldmVersionRequest::new(
        0x01,
        PldmMsgType::Request,
        0,
        TransferOperationFlag::GetFirstPart,
        PldmSupportedType::Base,
    );
    let mut buffer = vec![0u8; fixed_size::<GetPldmVersionRequest>()];
    request.encode(&mut buffer).unwrap();
    let decoded_request = GetPldmVersionRequest::decode(&buffer).unwrap();
    assert_eq!(request, decoded_request);
}

#[test]
fn test_get_pldm_version_response() {
    let response =
        GetPldmVersionResponse::new(0x01, 0, 0, TransferRespFlag::StartAndEnd, "1.3.0").unwrap();
    let mut buffer = vec![0u8; fixed_size::<GetPldmVersionResponse>()];
    response.encode(&mut buffer).unwrap();
    let decoded_response = GetPldmVersionResponse::decode(&buffer).unwrap();
    assert_eq!(response, decoded_response);
}

#[test]
fn test_buffer_too_short() {
    let buffer = [0u8; 2];
    let result = GetTidRequest::decode(&buffer);
    assert_eq!(result, Err(PldmCodecError::BufferTooShort));
}

#[test]
fn control_message_sizes_are_packed() {
    assert_eq!(fixed_size::<GetTidRequest>(), 3);
    assert_eq!(fixed_size::<GetTidResponse>(), 5);
    assert_eq!(fixed_size::<GetPldmCommandsRequest>(), 8);
    assert_eq!(fixed_size::<GetPldmCommandsResponse>(), 36);
    assert_eq!(fixed_size::<GetPldmVersionRequest>(), 9);
    assert_eq!(fixed_size::<GetPldmVersionResponse>(), 13);
}

#[test]
fn get_pldm_commands_request_encodes_bcd_version() {
    let request = GetPldmCommandsRequest::new(0x01, PldmMsgType::Request, 1, "1.3.0");
    assert_eq!(request.protocol_version, 0xF1F3F000);
    let mut buffer = [0u8; 8];
    assert_eq!(request.encode(&mut buffer), Ok(8));
    assert_eq!(buffer, [0x81, 0x00, 0x05, 0x01, 0x00, 0xF0, 0xF3, 0xF1]);
}

#[test]
fn get_pldm_version_response_rejects_bad_version_text() {
    assert!(GetPldmVersionResponse::new(0x01, 0, 0, TransferRespFlag::StartAndEnd, "1.x").is_err());
}

#[test]
fn get_pldm_commands_response_sets_bitmap_bits() {
    let response = GetPldmCommandsResponse::new(0x02, 0, &[1, 2, 3, 9]);
    assert_eq!(response.supported_cmds[0], 0b0000_1110);
    assert_eq!(response.supported_cmds[1], 0b0000_0010);
    assert!(response.supported_cmds[2..].iter().all(|b| *b == 0));
}

#[test]
fn encode_fails_on_short_buffer_and_leaves_it() {
    let response = SetTidResponse::new(0x01, 0);
    let mut buffer = [0xAAu8; 3];
    assert_eq!(response.encode(&mut buffer), Err(PldmCodecError::BufferTooShort));
    assert_eq!(buffer, [0xAA; 3]);
}
