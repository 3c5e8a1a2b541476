//! The byte layout of every fixed-size PLDM message, stated field by field
//! in the order the packed structures declare them: what `encode` writes and
//! what `decode` reads back.
use crate::pldm::codec::{
    lemma_fields_bytes_append, lemma_fields_bytes_one, lemma_fields_bytes_u8s, seq_encoding, FixedFields, PldmCodec,
};
use crate::pldm::protocol::base::{PldmFailureResponse, PldmMsgHeader};
use crate::pldm::protocol::firmware_update::{ComponentParameterEntry, ComponentParameterEntryFixed, Descriptor};
use crate::pldm::message::control::{GetPldmCommandsRequest, GetPldmCommandsResponse, GetPldmTypeRequest, GetPldmTypeResponse, GetPldmVersionRequest, GetPldmVersionResponse, GetTidRequest, GetTidResponse, SetTidRequest, SetTidResponse};
use crate::pldm::message::firmware_update::get_fw_params::{
    FirmwareParamFixed, FirmwareParameters, GetFirmwareParametersRequest, GetFirmwareParametersResponse,
};
use crate::pldm::message::firmware_update::get_status::{GetStatusRequest, GetStatusResponse};
use crate::pldm::message::firmware_update::request_cancel::{CancelUpdateComponentRequest, CancelUpdateComponentResponse, CancelUpdateRequest, CancelUpdateResponse};
use crate::pldm::message::firmware_update::request_update::{
    RequestUpdateRequest, RequestUpdateRequestFixed, RequestUpdateResponse, RequestUpdateResponseFixed,
};
use crate::pldm::message::firmware_update::update_component::{
    UpdateComponentRequest, UpdateComponentRequestFixed, UpdateComponentResponse,
};
use crate::pldm::message::firmware_update::verify_complete::{VerifyCompleteRequest, VerifyCompleteResponse};
use crate::pldm::message::firmware_update::transfer_complete::{TransferCompleteRequest, TransferCompleteResponse};
use crate::pldm::message::firmware_update::pass_component::{
    PassComponentTableRequest, PassComponentTableRequestFixed, PassComponentTableResponse,
};
use crate::pldm::message::firmware_update::query_devid::{QueryDeviceIdentifiersRequest, QueryDeviceIdentifiersResponse};
use crate::pldm::message::firmware_update::apply_complete::{ApplyCompleteRequest, ApplyCompleteResponse};
use crate::wire::{le2, le4, le8, Field};
use vstd::prelude::*;

verus! {

/// The wire bytes of a failure response: the header, then the completion code; integers little-endian.
pub proof fn lemma_pldm_failure_response_wire(x: PldmFailureResponse)
    ensures
        x.spec_encoding() == x.hdr.0@ + seq![x.completion_code],
{
    let fs = x.spec_fields();
    let p0 = fs.subrange(0, 4);
    let b0 = x.hdr.0@ + seq![x.completion_code];
    assert forall|i: int| 0 <= i < 4 implies p0[i] == Field::U8(b0[i]) by {
        if i == 0 {} else if i == 1 {} else if i == 2 {} else if i == 3 {}
    }
    lemma_fields_bytes_u8s(p0, b0);
    assert(fs =~= p0);
}

/// The wire bytes of the fixed part of a component parameter table entry: classification, identifier, classification index, the active stamp, version string type and length and release date, the same for the pending image, the activation methods and the capabilities during update; integers little-endian.
pub proof fn lemma_component_parameter_entry_fixed_wire(x: ComponentParameterEntryFixed)
    ensures
        x.spec_encoding() == le2(x.comp_classification) + le2(x.comp_identifier) + seq![x.comp_classification_index] + le4(x.active_comp_comparison_stamp) + seq![x.active_comp_ver_str_type, x.active_comp_ver_str_len] + x.active_comp_release_date@ + le4(x.pending_comp_comparison_stamp) + seq![x.pending_comp_ver_str_type, x.pending_comp_ver_str_len] + x.pending_comp_release_date@ + le2(x.comp_activation_methods.0) + le4(x.capabilities_during_update.0),
{
    let fs = x.spec_fields();
    let p0 = fs.subrange(0, 1);
    assert(p0 =~= seq![fs[0]]);
    lemma_fields_bytes_one(fs[0]);
    let p1 = fs.subrange(1, 2);
    assert(p1 =~= seq![fs[1]]);
    lemma_fields_bytes_one(fs[1]);
    let p2 = fs.subrange(2, 3);
    let b2 = seq![x.comp_classification_index];
    assert forall|i: int| 0 <= i < 1 implies p2[i] == Field::U8(b2[i]) by {
        if i == 0 {}
    }
    lemma_fields_bytes_u8s(p2, b2);
    let p3 = fs.subrange(3, 4);
    assert(p3 =~= seq![fs[3]]);
    lemma_fields_bytes_one(fs[3]);
    let p4 = fs.subrange(4, 14);
    let b4 = seq![x.active_comp_ver_str_type, x.active_comp_ver_str_len] + x.active_comp_release_date@;
    assert forall|i: int| 0 <= i < 10 implies p4[i] == Field::U8(b4[i]) by {
        if i == 0 {} else if i == 1 {} else if i == 2 {} else if i == 3 {} else if i == 4 {} else if i == 5 {} else if i == 6 {} else if i == 7 {} else if i == 8 {} else if i == 9 {}
    }
    lemma_fields_bytes_u8s(p4, b4);
    let p5 = fs.subrange(14, 15);
    assert(p5 =~= seq![fs[14]]);
    lemma_fields_bytes_one(fs[14]);
    let p6 = fs.subrange(15, 25);
    let b6 = seq![x.pending_comp_ver_str_type, x.pending_comp_ver_str_len] + x.pending_comp_release_date@;
    assert forall|i: int| 0 <= i < 10 implies p6[i] == Field::U8(b6[i]) by {
        if i == 0 {} else if i == 1 {} else if i == 2 {} else if i == 3 {} else if i == 4 {} else if i == 5 {} else if i == 6 {} else if i == 7 {} else if i == 8 {} else if i == 9 {}
    }
    lemma_fields_bytes_u8s(p6, b6);
    let p7 = fs.subrange(25, 26);
    assert(p7 =~= seq![fs[25]]);
    lemma_fields_bytes_one(fs[25]);
    let p8 = fs.subrange(26, 27);
    assert(p8 =~= seq![fs[26]]);
    lemma_fields_bytes_one(fs[26]);
    lemma_fields_bytes_append(p0, p1);
    lemma_fields_bytes_append(p0 + p1, p2);
    lemma_fields_bytes_append(p0 + p1 + p2, p3);
    lemma_fields_bytes_append(p0 + p1 + p2 + p3, p4);
    lemma_fields_bytes_append(p0 + p1 + p2 + p3 + p4, p5);
    lemma_fields_bytes_append(p0 + p1 + p2 + p3 + p4 + p5, p6);
    lemma_fields_bytes_append(p0 + p1 + p2 + p3 + p4 + p5 + p6, p7);
    lemma_fields_bytes_append(p0 + p1 + p2 + p3 + p4 + p5 + p6 + p7, p8);
    assert(fs =~= p0 + p1 + p2 + p3 + p4 + p5 + p6 + p7 + p8);
}

/// The wire bytes of a GetTID request: the header alone; integers little-endian.
pub proof fn lemma_get_tid_request_wire(x: GetTidRequest)
    ensures
        x.spec_encoding() == x.hdr.0@,
{
    let fs = x.spec_fields();
    let p0 = fs.subrange(0, 3);
    let b0 = x.hdr.0@;
    assert forall|i: int| 0 <= i < 3 implies p0[i] == Field::U8(b0[i]) by {
        if i == 0 {} else if i == 1 {} else if i == 2 {}
    }
    lemma_fields_bytes_u8s(p0, b0);
    assert(fs =~= p0);
}

/// The wire bytes of a GetTID response: the header, the completion code, then the TID; integers little-endian.
pub proof fn lemma_get_tid_response_wire(x: GetTidResponse)
    ensures
        x.spec_encoding() == x.hdr.0@ + seq![x.completion_code, x.tid],
{
    let fs = x.spec_fields();
    let p0 = fs.subrange(0, 5);
    let b0 = x.hdr.0@ + seq![x.completion_code, x.tid];
    assert forall|i: int| 0 <= i < 5 implies p0[i] == Field::U8(b0[i]) by {
        if i == 0 {} else if i == 1 {} else if i == 2 {} else if i == 3 {} else if i == 4 {}
    }
    lemma_fields_bytes_u8s(p0, b0);
    assert(fs =~= p0);
}

/// The wire bytes of a SetTID request: the header, then the TID; integers little-endian.
pub proof fn lemma_set_tid_request_wire(x: SetTidRequest)
    ensures
        x.spec_encoding() == x.hdr.0@ + seq![x.tid],
{
    let fs = x.spec_fields();
    let p0 = fs.subrange(0, 4);
    let b0 = x.hdr.0@ + seq![x.tid];
    assert forall|i: int| 0 <= i < 4 implies p0[i] == Field::U8(b0[i]) by {
        if i == 0 {} else if i == 1 {} else if i == 2 {} else if i == 3 {}
    }
    lemma_fields_bytes_u8s(p0, b0);
    assert(fs =~= p0);
}

/// The wire bytes of a SetTID response: the header, then the completion code; integers little-endian.
pub proof fn lemma_set_tid_response_wire(x: SetTidResponse)
    ensures
        x.spec_encoding() == x.hdr.0@ + seq![x.completion_code],
{
    let fs = x.spec_fields();
    let p0 = fs.subrange(0, 4);
    let b0 = x.hdr.0@ + seq![x.completion_code];
    assert forall|i: int| 0 <= i < 4 implies p0[i] == Field::U8(b0[i]) by {
        if i == 0 {} else if i == 1 {} else if i == 2 {} else if i == 3 {}
    }
    lemma_fields_bytes_u8s(p0, b0);
    assert(fs =~= p0);
}

/// The wire bytes of a GetPLDMCommands request: the header, the PLDM type, then the protocol version; integers little-endian.
pub proof fn lemma_get_pldm_commands_request_wire(x: GetPldmCommandsRequest)
    ensures
        x.spec_encoding() == x.hdr.0@ + seq![x.pldm_type] + le4(x.protocol_version),
{
    let fs = x.spec_fields();
    let p0 = fs.subrange(0, 4);
    let b0 = x.hdr.0@ + seq![x.pldm_type];
    assert forall|i: int| 0 <= i < 4 implies p0[i] == Field::U8(b0[i]) by {
        if i == 0 {} else if i == 1 {} else if i == 2 {} else if i == 3 {}
    }
    lemma_fields_bytes_u8s(p0, b0);
    let p1 = fs.subrange(4, 5);
    assert(p1 =~= seq![fs[4]]);
    lemma_fields_bytes_one(fs[4]);
    lemma_fields_bytes_append(p0, p1);
    assert(fs =~= p0 + p1);
}

/// The wire bytes of a GetPLDMCommands response: the header, the completion code, then the 32-byte command bitmap; integers little-endian.
pub proof fn lemma_get_pldm_commands_response_wire(x: GetPldmCommandsResponse)
    ensures
        x.spec_encoding() == x.hdr.0@ + seq![x.completion_code] + x.supported_cmds@,
{
    let fs = x.spec_fields();
    let p0 = fs.subrange(0, 36);
    let b0 = x.hdr.0@ + seq![x.completion_code] + x.supported_cmds@;
    assert forall|i: int| 0 <= i < 36 implies p0[i] == Field::U8(b0[i]) by {
        if i == 0 {} else if i == 1 {} else if i == 2 {} else if i == 3 {} else if i == 4 {} else if i == 5 {} else if i == 6 {} else if i == 7 {} else if i == 8 {} else if i == 9 {} else if i == 10 {} else if i == 11 {} else if i == 12 {} else if i == 13 {} else if i == 14 {} else if i == 15 {} else if i == 16 {} else if i == 17 {} else if i == 18 {} else if i == 19 {} else if i == 20 {} else if i == 21 {} else if i == 22 {} else if i == 23 {} else if i == 24 {} else if i == 25 {} else if i == 26 {} else if i == 27 {} else if i == 28 {} else if i == 29 {} else if i == 30 {} else if i == 31 {} else if i == 32 {} else if i == 33 {} else if i == 34 {} else if i == 35 {}
    }
    lemma_fields_bytes_u8s(p0, b0);
    assert(fs =~= p0);
}

/// The wire bytes of a GetPLDMTypes request: the header alone; integers little-endian.
pub proof fn lemma_get_pldm_type_request_wire(x: GetPldmTypeRequest)
    ensures
        x.spec_encoding() == x.hdr.0@,
{
    let fs = x.spec_fields();
    let p0 = fs.subrange(0, 3);
    let b0 = x.hdr.0@;
    assert forall|i: int| 0 <= i < 3 implies p0[i] == Field::U8(b0[i]) by {
        if i == 0 {} else if i == 1 {} else if i == 2 {}
    }
    lemma_fields_bytes_u8s(p0, b0);
    assert(fs =~= p0);
}

/// The wire bytes of a GetPLDMTypes response: the header, the completion code, then the 8-byte type bitmap; integers little-endian.
pub proof fn lemma_get_pldm_type_response_wire(x: GetPldmTypeResponse)
    ensures
        x.spec_encoding() == x.hdr.0@ + seq![x.completion_code] + x.pldm_types@,
{
    let fs = x.spec_fields();
    let p0 = fs.subrange(0, 12);
    let b0 = x.hdr.0@ + seq![x.completion_code] + x.pldm_types@;
    assert forall|i: int| 0 <= i < 12 implies p0[i] == Field::U8(b0[i]) by {
        if i == 0 {} else if i == 1 {} else if i == 2 {} else if i == 3 {} else if i == 4 {} else if i == 5 {} else if i == 6 {} else if i == 7 {} else if i == 8 {} else if i == 9 {} else if i == 10 {} else if i == 11 {}
    }
    lemma_fields_bytes_u8s(p0, b0);
    assert(fs =~= p0);
}

/// The wire bytes of a GetPLDMVersion request: the header, the data transfer handle, the transfer operation flag, then the PLDM type; integers little-endian.
pub proof fn lemma_get_pldm_version_request_wire(x: GetPldmVersionRequest)
    ensures
        x.spec_encoding() == x.hdr.0@ + le4(x.data_transfer_handle) + seq![x.transfer_op_flag, x.pldm_type],
{
    let fs = x.spec_fields();
    let p0 = fs.subrange(0, 3);
    let b0 = x.hdr.0@;
    assert forall|i: int| 0 <= i < 3 implies p0[i] == Field::U8(b0[i]) by {
        if i == 0 {} else if i == 1 {} else if i == 2 {}
    }
    lemma_fields_bytes_u8s(p0, b0);
    let p1 = fs.subrange(3, 4);
    assert(p1 =~= seq![fs[3]]);
    lemma_fields_bytes_one(fs[3]);
    let p2 = fs.subrange(4, 6);
    let b2 = seq![x.transfer_op_flag, x.pldm_type];
    assert forall|i: int| 0 <= i < 2 implies p2[i] == Field::U8(b2[i]) by {
        if i == 0 {} else if i == 1 {}
    }
    lemma_fields_bytes_u8s(p2, b2);
    lemma_fields_bytes_append(p0, p1);
    lemma_fields_bytes_append(p0 + p1, p2);
    assert(fs =~= p0 + p1 + p2);
}

/// The wire bytes of a GetPLDMVersion response: the header, the completion code, the next transfer handle, the transfer flag, then the version; integers little-endian.
pub proof fn lemma_get_pldm_version_response_wire(x: GetPldmVersionResponse)
    ensures
        x.spec_encoding() == x.hdr.0@ + seq![x.completion_code] + le4(x.next_transfer_handle) + seq![x.transfer_rsp_flag] + le4(x.version_data),
{
    let fs = x.spec_fields();
    let p0 = fs.subrange(0, 4);
    let b0 = x.hdr.0@ + seq![x.completion_code];
    assert forall|i: int| 0 <= i < 4 implies p0[i] == Field::U8(b0[i]) by {
        if i == 0 {} else if i == 1 {} else if i == 2 {} else if i == 3 {}
    }
    lemma_fields_bytes_u8s(p0, b0);
    let p1 = fs.subrange(4, 5);
    assert(p1 =~= seq![fs[4]]);
    lemma_fields_bytes_one(fs[4]);
    let p2 = fs.subrange(5, 6);
    let b2 = seq![x.transfer_rsp_flag];
    assert forall|i: int| 0 <= i < 1 implies p2[i] == Field::U8(b2[i]) by {
        if i == 0 {}
    }
    lemma_fields_bytes_u8s(p2, b2);
    let p3 = fs.subrange(6, 7);
    assert(p3 =~= seq![fs[6]]);
    lemma_fields_bytes_one(fs[6]);
    lemma_fields_bytes_append(p0, p1);
    lemma_fields_bytes_append(p0 + p1, p2);
    lemma_fields_bytes_append(p0 + p1 + p2, p3);
    assert(fs =~= p0 + p1 + p2 + p3);
}

/// The wire bytes of a GetFirmwareParameters request: the header alone; integers little-endian.
pub proof fn lemma_get_firmware_parameters_request_wire(x: GetFirmwareParametersRequest)
    ensures
        x.spec_encoding() == x.hdr.0@,
{
    let fs = x.spec_fields();
    let p0 = fs.subrange(0, 3);
    let b0 = x.hdr.0@;
    assert forall|i: int| 0 <= i < 3 implies p0[i] == Field::U8(b0[i]) by {
        if i == 0 {} else if i == 1 {} else if i == 2 {}
    }
    lemma_fields_bytes_u8s(p0, b0);
    assert(fs =~= p0);
}

/// The wire bytes of a GetStatus request: the header alone; integers little-endian.
pub proof fn lemma_get_status_request_wire(x: GetStatusRequest)
    ensures
        x.spec_encoding() == x.hdr.0@,
{
    let fs = x.spec_fields();
    let p0 = fs.subrange(0, 3);
    let b0 = x.hdr.0@;
    assert forall|i: int| 0 <= i < 3 implies p0[i] == Field::U8(b0[i]) by {
        if i == 0 {} else if i == 1 {} else if i == 2 {}
    }
    lemma_fields_bytes_u8s(p0, b0);
    assert(fs =~= p0);
}

/// The wire bytes of a GetStatus response: the header, the completion code, the current and previous state, the auxiliary state and its status, the progress, the reason code, then the update option flags enabled; integers little-endian.
pub proof fn lemma_get_status_response_wire(x: GetStatusResponse)
    ensures
        x.spec_encoding() == x.hdr.0@ + seq![x.completion_code, x.current_state, x.previous_state, x.aux_state, x.aux_state_status, x.progress_percent, x.reason_code] + le4(x.update_option_flags_enabled),
{
    let fs = x.spec_fields();
    let p0 = fs.subrange(0, 10);
    let b0 = x.hdr.0@ + seq![x.completion_code, x.current_state, x.previous_state, x.aux_state, x.aux_state_status, x.progress_percent, x.reason_code];
    assert forall|i: int| 0 <= i < 10 implies p0[i] == Field::U8(b0[i]) by {
        if i == 0 {} else if i == 1 {} else if i == 2 {} else if i == 3 {} else if i == 4 {} else if i == 5 {} else if i == 6 {} else if i == 7 {} else if i == 8 {} else if i == 9 {}
    }
    lemma_fields_bytes_u8s(p0, b0);
    let p1 = fs.subrange(10, 11);
    assert(p1 =~= seq![fs[10]]);
    lemma_fields_bytes_one(fs[10]);
    lemma_fields_bytes_append(p0, p1);
    assert(fs =~= p0 + p1);
}

/// The wire bytes of a CancelUpdateComponent request: the header alone; integers little-endian.
pub proof fn lemma_cancel_update_component_request_wire(x: CancelUpdateComponentRequest)
    ensures
        x.spec_encoding() == x.hdr.0@,
{
    let fs = x.spec_fields();
    let p0 = fs.subrange(0, 3);
    let b0 = x.hdr.0@;
    assert forall|i: int| 0 <= i < 3 implies p0[i] == Field::U8(b0[i]) by {
        if i == 0 {} else if i == 1 {} else if i == 2 {}
    }
    lemma_fields_bytes_u8s(p0, b0);
    assert(fs =~= p0);
}

/// The wire bytes of a CancelUpdateComponent response: the header, then the completion code; integers little-endian.
pub proof fn lemma_cancel_update_component_response_wire(x: CancelUpdateComponentResponse)
    ensures
        x.spec_encoding() == x.hdr.0@ + seq![x.completion_code],
{
    let fs = x.spec_fields();
    let p0 = fs.subrange(0, 4);
    let b0 = x.hdr.0@ + seq![x.completion_code];
    assert forall|i: int| 0 <= i < 4 implies p0[i] == Field::U8(b0[i]) by {
        if i == 0 {} else if i == 1 {} else if i == 2 {} else if i == 3 {}
    }
    lemma_fields_bytes_u8s(p0, b0);
    assert(fs =~= p0);
}

/// The wire bytes of a CancelUpdate request: the header alone; integers little-endian.
pub proof fn lemma_cancel_update_request_wire(x: CancelUpdateRequest)
    ensures
        x.spec_encoding() == x.hdr.0@,
{
    let fs = x.spec_fields();
    let p0 = fs.subrange(0, 3);
    let b0 = x.hdr.0@;
    assert forall|i: int| 0 <= i < 3 implies p0[i] == Field::U8(b0[i]) by {
        if i == 0 {} else if i == 1 {} else if i == 2 {}
    }
    lemma_fields_bytes_u8s(p0, b0);
    assert(fs =~= p0);
}

/// The wire bytes of a CancelUpdate response: the header, the completion code, the non-functioning component indication, then its 64-bit bitmap; integers little-endian.
pub proof fn lemma_cancel_update_response_wire(x: CancelUpdateResponse)
    ensures
        x.spec_encoding() == x.hdr.0@ + seq![x.completion_code, x.non_functioning_component_indication] + le8(x.non_functioning_component_bitmap),
{
    let fs = x.spec_fields();
    let p0 = fs.subrange(0, 5);
    let b0 = x.hdr.0@ + seq![x.completion_code, x.non_functioning_component_indication];
    assert forall|i: int| 0 <= i < 5 implies p0[i] == Field::U8(b0[i]) by {
        if i == 0 {} else if i == 1 {} else if i == 2 {} else if i == 3 {} else if i == 4 {}
    }
    lemma_fields_bytes_u8s(p0, b0);
    let p1 = fs.subrange(5, 6);
    assert(p1 =~= seq![fs[5]]);
    lemma_fields_bytes_one(fs[5]);
    lemma_fields_bytes_append(p0, p1);
    assert(fs =~= p0 + p1);
}

/// The wire bytes of the fixed part of a RequestUpdate request: bytes 0..3 the header, 3..7 the maximum transfer size, 7..9 the number of components, 9 the maximum outstanding transfer requests, 10..12 the package data length, 12 the version string type, 13 its length; integers little-endian.
pub proof fn lemma_request_update_request_fixed_wire(x: RequestUpdateRequestFixed)
    ensures
        x.spec_encoding() == x.hdr.0@ + le4(x.max_transfer_size) + le2(x.num_of_comp) + seq![x.max_outstanding_transfer_req] + le2(x.pkg_data_len) + seq![x.comp_image_set_ver_str_type, x.comp_image_set_ver_str_len],
{
    let fs = x.spec_fields();
    let p0 = fs.subrange(0, 3);
    let b0 = x.hdr.0@;
    assert forall|i: int| 0 <= i < 3 implies p0[i] == Field::U8(b0[i]) by {
        if i == 0 {} else if i == 1 {} else if i == 2 {}
    }
    lemma_fields_bytes_u8s(p0, b0);
    let p1 = fs.subrange(3, 4);
    assert(p1 =~= seq![fs[3]]);
    lemma_fields_bytes_one(fs[3]);
    let p2 = fs.subrange(4, 5);
    assert(p2 =~= seq![fs[4]]);
    lemma_fields_bytes_one(fs[4]);
    let p3 = fs.subrange(5, 6);
    let b3 = seq![x.max_outstanding_transfer_req];
    assert forall|i: int| 0 <= i < 1 implies p3[i] == Field::U8(b3[i]) by {
        if i == 0 {}
    }
    lemma_fields_bytes_u8s(p3, b3);
    let p4 = fs.subrange(6, 7);
    assert(p4 =~= seq![fs[6]]);
    lemma_fields_bytes_one(fs[6]);
    let p5 = fs.subrange(7, 9);
    let b5 = seq![x.comp_image_set_ver_str_type, x.comp_image_set_ver_str_len];
    assert forall|i: int| 0 <= i < 2 implies p5[i] == Field::U8(b5[i]) by {
        if i == 0 {} else if i == 1 {}
    }
    lemma_fields_bytes_u8s(p5, b5);
    lemma_fields_bytes_append(p0, p1);
    lemma_fields_bytes_append(p0 + p1, p2);
    lemma_fields_bytes_append(p0 + p1 + p2, p3);
    lemma_fields_bytes_append(p0 + p1 + p2 + p3, p4);
    lemma_fields_bytes_append(p0 + p1 + p2 + p3 + p4, p5);
    assert(fs =~= p0 + p1 + p2 + p3 + p4 + p5);
}

/// The wire bytes of a RequestUpdate response: the header, the completion code, the metadata length, then whether the device will send GetPackageData; integers little-endian.
pub proof fn lemma_request_update_response_fixed_wire(x: RequestUpdateResponseFixed)
    ensures
        x.spec_encoding() == x.hdr.0@ + seq![x.completion_code] + le2(x.fd_meta_data_len) + seq![x.fd_will_send_pkg_data_cmd],
{
    let fs = x.spec_fields();
    let p0 = fs.subrange(0, 4);
    let b0 = x.hdr.0@ + seq![x.completion_code];
    assert forall|i: int| 0 <= i < 4 implies p0[i] == Field::U8(b0[i]) by {
        if i == 0 {} else if i == 1 {} else if i == 2 {} else if i == 3 {}
    }
    lemma_fields_bytes_u8s(p0, b0);
    let p1 = fs.subrange(4, 5);
    assert(p1 =~= seq![fs[4]]);
    lemma_fields_bytes_one(fs[4]);
    let p2 = fs.subrange(5, 6);
    let b2 = seq![x.fd_will_send_pkg_data_cmd];
    assert forall|i: int| 0 <= i < 1 implies p2[i] == Field::U8(b2[i]) by {
        if i == 0 {}
    }
    lemma_fields_bytes_u8s(p2, b2);
    lemma_fields_bytes_append(p0, p1);
    lemma_fields_bytes_append(p0 + p1, p2);
    assert(fs =~= p0 + p1 + p2);
}

/// The wire bytes of the fixed part of an UpdateComponent request: the header, the classification, identifier and classification index, the comparison stamp, the image size, the update option flags, then the version string type and length; integers little-endian.
pub proof fn lemma_update_component_request_fixed_wire(x: UpdateComponentRequestFixed)
    ensures
        x.spec_encoding() == x.hdr.0@ + le2(x.comp_classification) + le2(x.comp_identifier) + seq![x.comp_classification_index] + le4(x.comp_comparison_stamp) + le4(x.comp_image_size) + le4(x.update_option_flags) + seq![x.comp_ver_str_type, x.comp_ver_str_len],
{
    let fs = x.spec_fields();
    let p0 = fs.subrange(0, 3);
    let b0 = x.hdr.0@;
    assert forall|i: int| 0 <= i < 3 implies p0[i] == Field::U8(b0[i]) by {
        if i == 0 {} else if i == 1 {} else if i == 2 {}
    }
    lemma_fields_bytes_u8s(p0, b0);
    let p1 = fs.subrange(3, 4);
    assert(p1 =~= seq![fs[3]]);
    lemma_fields_bytes_one(fs[3]);
    let p2 = fs.subrange(4, 5);
    assert(p2 =~= seq![fs[4]]);
    lemma_fields_bytes_one(fs[4]);
    let p3 = fs.subrange(5, 6);
    let b3 = seq![x.comp_classification_index];
    assert forall|i: int| 0 <= i < 1 implies p3[i] == Field::U8(b3[i]) by {
        if i == 0 {}
    }
    lemma_fields_bytes_u8s(p3, b3);
    let p4 = fs.subrange(6, 7);
    assert(p4 =~= seq![fs[6]]);
    lemma_fields_bytes_one(fs[6]);
    let p5 = fs.subrange(7, 8);
    assert(p5 =~= seq![fs[7]]);
    lemma_fields_bytes_one(fs[7]);
    let p6 = fs.subrange(8, 9);
    assert(p6 =~= seq![fs[8]]);
    lemma_fields_bytes_one(fs[8]);
    let p7 = fs.subrange(9, 11);
    let b7 = seq![x.comp_ver_str_type, x.comp_ver_str_len];
    assert forall|i: int| 0 <= i < 2 implies p7[i] == Field::U8(b7[i]) by {
        if i == 0 {} else if i == 1 {}
    }
    lemma_fields_bytes_u8s(p7, b7);
    lemma_fields_bytes_append(p0, p1);
    lemma_fields_bytes_append(p0 + p1, p2);
    lemma_fields_bytes_append(p0 + p1 + p2, p3);
    lemma_fields_bytes_append(p0 + p1 + p2 + p3, p4);
    lemma_fields_bytes_append(p0 + p1 + p2 + p3 + p4, p5);
    lemma_fields_bytes_append(p0 + p1 + p2 + p3 + p4 + p5, p6);
    lemma_fields_bytes_append(p0 + p1 + p2 + p3 + p4 + p5 + p6, p7);
    assert(fs =~= p0 + p1 + p2 + p3 + p4 + p5 + p6 + p7);
}

/// The wire bytes of a VerifyComplete request: the header, then the verify result; integers little-endian.
pub proof fn lemma_verify_complete_request_wire(x: VerifyCompleteRequest)
    ensures
        x.spec_encoding() == x.hdr.0@ + seq![x.verify_result],
{
    let fs = x.spec_fields();
    let p0 = fs.subrange(0, 4);
    let b0 = x.hdr.0@ + seq![x.verify_result];
    assert forall|i: int| 0 <= i < 4 implies p0[i] == Field::U8(b0[i]) by {
        if i == 0 {} else if i == 1 {} else if i == 2 {} else if i == 3 {}
    }
    lemma_fields_bytes_u8s(p0, b0);
    assert(fs =~= p0);
}

/// The wire bytes of a VerifyComplete response: the header, then the completion code; integers little-endian.
pub proof fn lemma_verify_complete_response_wire(x: VerifyCompleteResponse)
    ensures
        x.spec_encoding() == x.hdr.0@ + seq![x.completion_code],
{
    let fs = x.spec_fields();
    let p0 = fs.subrange(0, 4);
    let b0 = x.hdr.0@ + seq![x.completion_code];
    assert forall|i: int| 0 <= i < 4 implies p0[i] == Field::U8(b0[i]) by {
        if i == 0 {} else if i == 1 {} else if i == 2 {} else if i == 3 {}
    }
    lemma_fields_bytes_u8s(p0, b0);
    assert(fs =~= p0);
}

/// The wire bytes of a TransferComplete request: the header, then the transfer result; integers little-endian.
pub proof fn lemma_transfer_complete_request_wire(x: TransferCompleteRequest)
    ensures
        x.spec_encoding() == x.hdr.0@ + seq![x.tranfer_result],
{
    let fs = x.spec_fields();
    let p0 = fs.subrange(0, 4);
    let b0 = x.hdr.0@ + seq![x.tranfer_result];
    assert forall|i: int| 0 <= i < 4 implies p0[i] == Field::U8(b0[i]) by {
        if i == 0 {} else if i == 1 {} else if i == 2 {} else if i == 3 {}
    }
    lemma_fields_bytes_u8s(p0, b0);
    assert(fs =~= p0);
}

/// The wire bytes of a TransferComplete response: the header, then the completion code; integers little-endian.
pub proof fn lemma_transfer_complete_response_wire(x: TransferCompleteResponse)
    ensures
        x.spec_encoding() == x.hdr.0@ + seq![x.completion_code],
{
    let fs = x.spec_fields();
    let p0 = fs.subrange(0, 4);
    let b0 = x.hdr.0@ + seq![x.completion_code];
    assert forall|i: int| 0 <= i < 4 implies p0[i] == Field::U8(b0[i]) by {
        if i == 0 {} else if i == 1 {} else if i == 2 {} else if i == 3 {}
    }
    lemma_fields_bytes_u8s(p0, b0);
    assert(fs =~= p0);
}

/// The wire bytes of the fixed part of a PassComponentTable request: the header, the transfer flag, the classification, identifier and classification index, the comparison stamp, then the version string type and length; integers little-endian.
pub proof fn lemma_pass_component_table_request_fixed_wire(x: PassComponentTableRequestFixed)
    ensures
        x.spec_encoding() == x.hdr.0@ + seq![x.transfer_flag] + le2(x.comp_classification) + le2(x.comp_identifier) + seq![x.comp_classification_index] + le4(x.comp_comparison_stamp) + seq![x.comp_ver_str_type, x.comp_ver_str_len],
{
    let fs = x.spec_fields();
    let p0 = fs.subrange(0, 4);
    let b0 = x.hdr.0@ + seq![x.transfer_flag];
    assert forall|i: int| 0 <= i < 4 implies p0[i] == Field::U8(b0[i]) by {
        if i == 0 {} else if i == 1 {} else if i == 2 {} else if i == 3 {}
    }
    lemma_fields_bytes_u8s(p0, b0);
    let p1 = fs.subrange(4, 5);
    assert(p1 =~= seq![fs[4]]);
    lemma_fields_bytes_one(fs[4]);
    let p2 = fs.subrange(5, 6);
    assert(p2 =~= seq![fs[5]]);
    lemma_fields_bytes_one(fs[5]);
    let p3 = fs.subrange(6, 7);
    let b3 = seq![x.comp_classification_index];
    assert forall|i: int| 0 <= i < 1 implies p3[i] == Field::U8(b3[i]) by {
        if i == 0 {}
    }
    lemma_fields_bytes_u8s(p3, b3);
    let p4 = fs.subrange(7, 8);
    assert(p4 =~= seq![fs[7]]);
    lemma_fields_bytes_one(fs[7]);
    let p5 = fs.subrange(8, 10);
    let b5 = seq![x.comp_ver_str_type, x.comp_ver_str_len];
    assert forall|i: int| 0 <= i < 2 implies p5[i] == Field::U8(b5[i]) by {
        if i == 0 {} else if i == 1 {}
    }
    lemma_fields_bytes_u8s(p5, b5);
    lemma_fields_bytes_append(p0, p1);
    lemma_fields_bytes_append(p0 + p1, p2);
    lemma_fields_bytes_append(p0 + p1 + p2, p3);
    lemma_fields_bytes_append(p0 + p1 + p2 + p3, p4);
    lemma_fields_bytes_append(p0 + p1 + p2 + p3 + p4, p5);
    assert(fs =~= p0 + p1 + p2 + p3 + p4 + p5);
}

/// The wire bytes of a PassComponentTable response: the header, the completion code, the component response, then its code; integers little-endian.
pub proof fn lemma_pass_component_table_response_wire(x: PassComponentTableResponse)
    ensures
        x.spec_encoding() == x.hdr.0@ + seq![x.completion_code, x.comp_resp, x.comp_resp_code],
{
    let fs = x.spec_fields();
    let p0 = fs.subrange(0, 6);
    let b0 = x.hdr.0@ + seq![x.completion_code, x.comp_resp, x.comp_resp_code];
    assert forall|i: int| 0 <= i < 6 implies p0[i] == Field::U8(b0[i]) by {
        if i == 0 {} else if i == 1 {} else if i == 2 {} else if i == 3 {} else if i == 4 {} else if i == 5 {}
    }
    lemma_fields_bytes_u8s(p0, b0);
    assert(fs =~= p0);
}

/// The wire bytes of a QueryDeviceIdentifiers request: the header alone; integers little-endian.
pub proof fn lemma_query_device_identifiers_request_wire(x: QueryDeviceIdentifiersRequest)
    ensures
        x.spec_encoding() == x.hdr.0@,
{
    let fs = x.spec_fields();
    let p0 = fs.subrange(0, 3);
    let b0 = x.hdr.0@;
    assert forall|i: int| 0 <= i < 3 implies p0[i] == Field::U8(b0[i]) by {
        if i == 0 {} else if i == 1 {} else if i == 2 {}
    }
    lemma_fields_bytes_u8s(p0, b0);
    assert(fs =~= p0);
}

/// The wire bytes of an ApplyComplete request: the header, the apply result, then the activation methods modification; integers little-endian.
pub proof fn lemma_apply_complete_request_wire(x: ApplyCompleteRequest)
    ensures
        x.spec_encoding() == x.hdr.0@ + seq![x.apply_result] + le2(x.comp_activation_methods_modification),
{
    let fs = x.spec_fields();
    let p0 = fs.subrange(0, 4);
    let b0 = x.hdr.0@ + seq![x.apply_result];
    assert forall|i: int| 0 <= i < 4 implies p0[i] == Field::U8(b0[i]) by {
        if i == 0 {} else if i == 1 {} else if i == 2 {} else if i == 3 {}
    }
    lemma_fields_bytes_u8s(p0, b0);
    let p1 = fs.subrange(4, 5);
    assert(p1 =~= seq![fs[4]]);
    lemma_fields_bytes_one(fs[4]);
    lemma_fields_bytes_append(p0, p1);
    assert(fs =~= p0 + p1);
}

/// The wire bytes of an ApplyComplete response: the header, then the completion code; integers little-endian.
pub proof fn lemma_apply_complete_response_wire(x: ApplyCompleteResponse)
    ensures
        x.spec_encoding() == x.hdr.0@ + seq![x.completion_code],
{
    let fs = x.spec_fields();
    let p0 = fs.subrange(0, 4);
    let b0 = x.hdr.0@ + seq![x.completion_code];
    assert forall|i: int| 0 <= i < 4 implies p0[i] == Field::U8(b0[i]) by {
        if i == 0 {} else if i == 1 {} else if i == 2 {} else if i == 3 {}
    }
    lemma_fields_bytes_u8s(p0, b0);
    assert(fs =~= p0);
}

/// The wire bytes of a message header: its three bytes; integers little-endian.
pub proof fn lemma_pldm_msg_header_wire(x: PldmMsgHeader)
    ensures
        x.spec_encoding() == x.0@,
{
    let fs = x.spec_fields();
    let p0 = fs.subrange(0, 3);
    let b0 = x.0@;
    assert forall|i: int| 0 <= i < 3 implies p0[i] == Field::U8(b0[i]) by {
        if i == 0 {} else if i == 1 {} else if i == 2 {}
    }
    lemma_fields_bytes_u8s(p0, b0);
    assert(fs =~= p0);
}

/// The wire bytes of a RequestUpdate request: bytes 0..3 the header, 3..7
/// the maximum transfer size, 7..9 the number of components, 9 the maximum
/// outstanding transfer requests, 10..12 the package data length, 12 the
/// version string type, 13 its length, then that many bytes of the string.
pub proof fn lemma_request_update_request_wire(x: RequestUpdateRequest)
    ensures
        x.spec_encoding() == x.fixed.hdr.0@ + le4(x.fixed.max_transfer_size) + le2(x.fixed.num_of_comp) + seq![
            x.fixed.max_outstanding_transfer_req,
        ] + le2(x.fixed.pkg_data_len) + seq![x.fixed.comp_image_set_ver_str_type, x.fixed.comp_image_set_ver_str_len]
            + x.comp_image_set_ver_str@.subrange(0, x.fixed.comp_image_set_ver_str_len as int),
{
    lemma_request_update_request_fixed_wire(x.fixed);
}

/// The wire bytes of a RequestUpdate response: the header, the completion
/// code, the metadata length, whether the device will send GetPackageData,
/// then the maximum transfer size of the package data when there is one.
pub proof fn lemma_request_update_response_wire(x: RequestUpdateResponse)
    ensures
        x.spec_encoding() == x.fixed.hdr.0@ + seq![x.fixed.completion_code] + le2(x.fixed.fd_meta_data_len) + seq![
            x.fixed.fd_will_send_pkg_data_cmd,
        ] + match x.get_pkg_data_max_transfer_size {
            Some(v) => le4(v),
            None => Seq::<u8>::empty(),
        },
{
    lemma_request_update_response_fixed_wire(x.fixed);
}

/// The wire bytes of an UpdateComponent request: the header, the
/// classification, identifier and classification index, the comparison
/// stamp, the image size, the update option flags, the version string type
/// and length, then that many bytes of the string.
pub proof fn lemma_update_component_request_wire(x: UpdateComponentRequest)
    ensures
        x.spec_encoding() == x.fixed.hdr.0@ + le2(x.fixed.comp_classification) + le2(x.fixed.comp_identifier) + seq![
            x.fixed.comp_classification_index,
        ] + le4(x.fixed.comp_comparison_stamp) + le4(x.fixed.comp_image_size) + le4(x.fixed.update_option_flags)
            + seq![x.fixed.comp_ver_str_type, x.fixed.comp_ver_str_len] + x.comp_ver_str@.subrange(
            0,
            x.fixed.comp_ver_str_len as int,
        ),
{
    lemma_update_component_request_fixed_wire(x.fixed);
}

/// The wire bytes of an UpdateComponent response: the header, the
/// completion code, the compatibility response and its code, the update
/// option flags enabled, the time before requesting data, then the maximum
/// transfer size of the opaque data when there is one.
pub proof fn lemma_update_component_response_wire(x: UpdateComponentResponse)
    ensures
        x.spec_encoding() == x.hdr.0@ + seq![x.completion_code, x.comp_compatibility_resp, x.comp_compatibility_resp_code]
            + le4(x.update_option_flags_enabled) + le2(x.time_before_req_fw_data) + match x.get_comp_opaque_data_max_transfer_size {
            Some(v) => le4(v),
            None => Seq::<u8>::empty(),
        },
{
}

/// The wire bytes of a PassComponentTable request: the header, the transfer
/// flag, the classification, identifier and classification index, the
/// comparison stamp, the version string type and length, then that many
/// bytes of the string.
pub proof fn lemma_pass_component_table_request_wire(x: PassComponentTableRequest)
    ensures
        x.spec_encoding() == x.fixed.hdr.0@ + seq![x.fixed.transfer_flag] + le2(x.fixed.comp_classification) + le2(
            x.fixed.comp_identifier,
        ) + seq![x.fixed.comp_classification_index] + le4(x.fixed.comp_comparison_stamp) + seq![
            x.fixed.comp_ver_str_type,
            x.fixed.comp_ver_str_len,
        ] + x.comp_ver_str@.subrange(0, x.fixed.comp_ver_str_len as int),
{
    lemma_pass_component_table_request_fixed_wire(x.fixed);
}

/// The wire bytes of the fixed part of the firmware parameters: the
/// capabilities during update, the component count, the active and pending
/// image set version string types and lengths, then the whole active string
/// array.
pub proof fn lemma_firmware_param_fixed_wire(x: FirmwareParamFixed)
    ensures
        x.spec_encoding() == le4(x.capabilities_during_update.0) + le2(x.comp_count) + seq![
            x.active_comp_image_set_ver_str_type,
            x.active_comp_image_set_ver_str_len,
            x.pending_comp_image_set_ver_str_type,
            x.pending_comp_image_set_ver_str_len,
        ] + x.active_comp_image_set_ver_str@,
{
}

/// The wire bytes of a descriptor: its type, its length, then that many
/// bytes of its data.
pub proof fn lemma_descriptor_wire(x: Descriptor)
    ensures
        x.spec_encoding() == le2(x.descriptor_type) + le2(x.descriptor_length) + x.descriptor_data@.subrange(
            0,
            x.descriptor_length as int,
        ),
{
}

/// The wire bytes of a component parameter table entry: the fixed part,
/// the active version string (as many bytes as its length), then the pending
/// version string when there is one.
pub proof fn lemma_component_parameter_entry_wire(x: ComponentParameterEntry)
    ensures
        x.spec_encoding() == x.comp_param_entry_fixed.spec_encoding() + x.active_comp_ver_str@.subrange(
            0,
            x.comp_param_entry_fixed.active_comp_ver_str_len as int,
        ) + match x.pending_comp_ver_str {
            Some(p) => p@.subrange(0, x.comp_param_entry_fixed.pending_comp_ver_str_len as int),
            None => Seq::<u8>::empty(),
        },
{
}

/// The wire bytes of a GetFirmwareParameters response: the header, the
/// completion code, then the parameters.
pub proof fn lemma_get_firmware_parameters_response_wire(x: GetFirmwareParametersResponse)
    ensures
        x.spec_encoding() == x.hdr.0@ + seq![x.completion_code] + x.parms.spec_encoding(),
{
}

/// The wire bytes of a QueryDeviceIdentifiers response: the header, the
/// completion code, the length of the identifiers, the descriptor count,
/// then the initial descriptor and the other descriptors on the wire.
pub proof fn lemma_query_device_identifiers_response_wire(x: QueryDeviceIdentifiersResponse)
    ensures
        x.spec_encoding() == x.hdr.0@ + seq![x.completion_code] + le4(x.device_identifiers_len) + seq![
            x.descriptor_count,
        ] + x.initial_descriptor.spec_encoding() + seq_encoding(x.wire_descriptors()),
{
}

/// The wire bytes of the firmware parameters: the fixed part, the pending
/// image set version string (as many bytes as its length) when there is
/// one, then the entries of the table that the component count puts on the
/// wire, one after another.
pub proof fn lemma_firmware_parameters_wire(x: FirmwareParameters)
    ensures
        x.spec_encoding() == x.params_fixed.spec_encoding() + match x.pending_comp_image_set_ver_str {
            Some(p) => p@.subrange(0, x.params_fixed.pending_comp_image_set_ver_str_len as int),
            None => Seq::<u8>::empty(),
        } + seq_encoding(x.wire_entries()),
{
}

} // verus!
