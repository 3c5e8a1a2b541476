use crate::pldm::codec::{
    lemma_field_by_width, lemma_fits_widths, lemma_layout_of_fields, widths, FixedFields,
};
use crate::pldm::error::PldmError;
use crate::pldm::protocol::base::{
    lemma_response_bits, msg_header, response_header, InstanceId, PldmMsgHeader, PldmMsgType,
    PldmSupportedType,
};
use crate::pldm::protocol::firmware_update::FwUpdateCmd;
use crate::wire::{fv32, fv8, get_u32, get_u8, Field};
use vstd::prelude::*;
use crate::pldm::protocol::firmware_update::{FirmwareDeviceState, UpdateOptionFlags};

verus! {


pub const PROGRESS_PERCENT_NOT_SUPPORTED: u8 = 101;

/// A progress percentage: 0 to 100, or 101 when progress is not reported.
#[derive(Debug, Clone, Copy, PartialEq, Eq, Structural)]
pub struct ProgressPercent(u8);

impl View for ProgressPercent {
    type V = u8;

    closed spec fn view(&self) -> u8 {
        self.0
    }
}

impl ProgressPercent {
    /// Every percentage is at most 101.
    #[verifier::type_invariant]
    spec fn at_most_not_supported(self) -> bool {
        self.0 <= PROGRESS_PERCENT_NOT_SUPPORTED
    }
}

impl Default for ProgressPercent {
    fn default() -> (r: Self)
        ensures
            r@ == PROGRESS_PERCENT_NOT_SUPPORTED,
    {
        ProgressPercent(PROGRESS_PERCENT_NOT_SUPPORTED)
    }
}

impl ProgressPercent {
    /// A percentage of at most 101.
    pub fn new(value: u8) -> (r: Result<Self, PldmError>)
        ensures
            value > PROGRESS_PERCENT_NOT_SUPPORTED ==> r == Err::<Self, PldmError>(PldmError::InvalidData),
            value <= PROGRESS_PERCENT_NOT_SUPPORTED ==> (r matches Ok(p) && p@ == value),
    {
        if value > PROGRESS_PERCENT_NOT_SUPPORTED {
            Err(PldmError::InvalidData)
        } else {
            Ok(ProgressPercent(value))
        }
    }

    /// The percentage: at most 100, or 101 when progress is not reported.
    pub fn value(&self) -> (r: u8)
        ensures
            r == self@,
            r <= PROGRESS_PERCENT_NOT_SUPPORTED,
    {
        proof {
            use_type_invariant(self);
        }
        self.0
    }

    /// Sets a reported percentage (at most 100); the value is kept on error.
    pub fn set_value(&mut self, value: u8) -> (r: Result<(), PldmError>)
        ensures
            value > 100 ==> r == Err::<(), PldmError>(PldmError::InvalidData) && final(self)@ == old(self)@,
            value <= 100 ==> r == Ok::<(), PldmError>(()) && final(self)@ == value,
            final(self)@ <= PROGRESS_PERCENT_NOT_SUPPORTED,
    {
        proof {
            use_type_invariant(&*self);
        }
        if value > 100 {
            Err(PldmError::InvalidData)
        } else {
            self.0 = value;
            Ok(())
        }
    }
}

/// The state of the operation under way.
#[derive(Debug, Clone, Copy, PartialEq, Eq, Structural)]
pub enum AuxState {
    OperationInProgress,
    OperationSuccessful,
    OperationFailed,
    IdleLearnComponentsReadXfer,
}

impl AuxState {
    /// The code of the value on the wire.
    #[verifier::allow_in_spec]
    pub fn to_u8(self) -> u8
        returns
            (match self {
                AuxState::OperationInProgress => 0x0u8,
                AuxState::OperationSuccessful => 0x1u8,
                AuxState::OperationFailed => 0x2u8,
                AuxState::IdleLearnComponentsReadXfer => 0x3u8,
            }),
    {
        match self {
            AuxState::OperationInProgress => 0x0,
            AuxState::OperationSuccessful => 0x1,
            AuxState::OperationFailed => 0x2,
            AuxState::IdleLearnComponentsReadXfer => 0x3,
        }
    }
}

/// The status of the operation under way (codes 1 to 8 are reserved, vendor-defined codes are 0x70 to 0xef).
#[derive(Debug, Clone, Copy, PartialEq, Eq, Structural)]
pub enum AuxStateStatus {
    AuxStateInProgressOrSuccess,
    Reserved,
    Timeout,
    GenericError,
    VendorDefined,
}

impl AuxStateStatus {
    /// The code of the value on the wire.
    #[verifier::allow_in_spec]
    pub fn to_u8(self) -> u8
        returns
            (match self {
                AuxStateStatus::AuxStateInProgressOrSuccess => 0x0u8,
                AuxStateStatus::Reserved => 0x1u8,
                AuxStateStatus::Timeout => 0x9u8,
                AuxStateStatus::GenericError => 0xau8,
                AuxStateStatus::VendorDefined => 0xbu8,
            }),
    {
        match self {
            AuxStateStatus::AuxStateInProgressOrSuccess => 0x0,
            AuxStateStatus::Reserved => 0x1,
            AuxStateStatus::Timeout => 0x9,
            AuxStateStatus::GenericError => 0xa,
            AuxStateStatus::VendorDefined => 0xb,
        }
    }
}

impl core::convert::TryFrom<u8> for AuxStateStatus {
    type Error = PldmError;

    fn try_from(value: u8) -> (r: Result<AuxStateStatus, PldmError>) {
        match value {
            0x0 => Ok(AuxStateStatus::AuxStateInProgressOrSuccess),
            0x9 => Ok(AuxStateStatus::Timeout),
            0xa => Ok(AuxStateStatus::GenericError),
            v if 0x1 <= v && v <= 0x8 => Ok(AuxStateStatus::Reserved),
            v if 0x70 <= v && v <= 0xef => Ok(AuxStateStatus::VendorDefined),
            _ => Err(PldmError::InvalidAuxStateStatus),
        }
    }
}

impl vstd::std_specs::convert::TryFromSpecImpl<u8> for AuxStateStatus {
    open spec fn obeys_try_from_spec() -> bool {
        true
    }

    open spec fn try_from_spec(value: u8) -> Result<AuxStateStatus, PldmError> {
        match value {
            0x0 => Ok(AuxStateStatus::AuxStateInProgressOrSuccess),
            0x9 => Ok(AuxStateStatus::Timeout),
            0xa => Ok(AuxStateStatus::GenericError),
            v if 0x1 <= v && v <= 0x8 => Ok(AuxStateStatus::Reserved),
            v if 0x70 <= v && v <= 0xef => Ok(AuxStateStatus::VendorDefined),
            _ => Err(PldmError::InvalidAuxStateStatus),
        }
    }
}

/// Why the device entered its state (vendor-defined codes are 200 to 255).
#[derive(Debug, Clone, Copy, PartialEq, Eq, Structural)]
pub enum GetStatusReasonCode {
    Initialization,
    ActivateFw,
    CancelUpdate,
    LearnComponentTimeout,
    ReadyXferTimeout,
    DownloadTimeout,
    VerifyTimeout,
    ApplyTimeout,
    VendorDefined,
}

impl GetStatusReasonCode {
    /// The code of the value on the wire.
    #[verifier::allow_in_spec]
    pub fn to_u8(self) -> u8
        returns
            (match self {
                GetStatusReasonCode::Initialization => 0x0u8,
                GetStatusReasonCode::ActivateFw => 0x1u8,
                GetStatusReasonCode::CancelUpdate => 0x2u8,
                GetStatusReasonCode::LearnComponentTimeout => 0x3u8,
                GetStatusReasonCode::ReadyXferTimeout => 0x4u8,
                GetStatusReasonCode::DownloadTimeout => 0x5u8,
                GetStatusReasonCode::VerifyTimeout => 0x6u8,
                GetStatusReasonCode::ApplyTimeout => 0x7u8,
                GetStatusReasonCode::VendorDefined => 0x8u8,
            }),
    {
        match self {
            GetStatusReasonCode::Initialization => 0x0,
            GetStatusReasonCode::ActivateFw => 0x1,
            GetStatusReasonCode::CancelUpdate => 0x2,
            GetStatusReasonCode::LearnComponentTimeout => 0x3,
            GetStatusReasonCode::ReadyXferTimeout => 0x4,
            GetStatusReasonCode::DownloadTimeout => 0x5,
            GetStatusReasonCode::VerifyTimeout => 0x6,
            GetStatusReasonCode::ApplyTimeout => 0x7,
            GetStatusReasonCode::VendorDefined => 0x8,
        }
    }
}

impl core::convert::TryFrom<u8> for GetStatusReasonCode {
    type Error = PldmError;

    fn try_from(value: u8) -> (r: Result<GetStatusReasonCode, PldmError>) {
        match value {
            0x0 => Ok(GetStatusReasonCode::Initialization),
            0x1 => Ok(GetStatusReasonCode::ActivateFw),
            0x2 => Ok(GetStatusReasonCode::CancelUpdate),
            0x3 => Ok(GetStatusReasonCode::LearnComponentTimeout),
            0x4 => Ok(GetStatusReasonCode::ReadyXferTimeout),
            0x5 => Ok(GetStatusReasonCode::DownloadTimeout),
            0x6 => Ok(GetStatusReasonCode::VerifyTimeout),
            0x7 => Ok(GetStatusReasonCode::ApplyTimeout),
            v if 0xc8 <= v && v <= 0xff => Ok(GetStatusReasonCode::VendorDefined),
            _ => Err(PldmError::InvalidGetStatusReasonCode),
        }
    }
}

impl vstd::std_specs::convert::TryFromSpecImpl<u8> for GetStatusReasonCode {
    open spec fn obeys_try_from_spec() -> bool {
        true
    }

    open spec fn try_from_spec(value: u8) -> Result<GetStatusReasonCode, PldmError> {
        match value {
            0x0 => Ok(GetStatusReasonCode::Initialization),
            0x1 => Ok(GetStatusReasonCode::ActivateFw),
            0x2 => Ok(GetStatusReasonCode::CancelUpdate),
            0x3 => Ok(GetStatusReasonCode::LearnComponentTimeout),
            0x4 => Ok(GetStatusReasonCode::ReadyXferTimeout),
            0x5 => Ok(GetStatusReasonCode::DownloadTimeout),
            0x6 => Ok(GetStatusReasonCode::VerifyTimeout),
            0x7 => Ok(GetStatusReasonCode::ApplyTimeout),
            v if 0xc8 <= v && v <= 0xff => Ok(GetStatusReasonCode::VendorDefined),
            _ => Err(PldmError::InvalidGetStatusReasonCode),
        }
    }
}

/// GetStatus request.
#[derive(Debug, Clone, Copy, PartialEq, Eq)]
pub struct GetStatusRequest {
    pub hdr: PldmMsgHeader,
}

impl FixedFields for GetStatusRequest {
    open spec fn spec_fields(&self) -> Seq<Field> {
        seq![
            Field::U8(self.hdr.0[0]),
            Field::U8(self.hdr.0[1]),
            Field::U8(self.hdr.0[2]),
        ]
    }

    open spec fn spec_layout() -> Seq<u8> {
        seq![1u8, 1, 1]
    }

    open spec fn spec_from_fields(fs: Seq<Field>) -> Self {
        GetStatusRequest { hdr: PldmMsgHeader([fv8(fs[0]), fv8(fs[1]), fv8(fs[2])]) }
    }

    fn layout() -> (r: Vec<u8>) {
        let r = vec![1u8, 1, 1];
        assert(r@ =~= Self::spec_layout());
        r
    }

    fn to_fields(&self) -> (r: Vec<Field>) {
        let r = vec![
            Field::U8(self.hdr.0[0]),
            Field::U8(self.hdr.0[1]),
            Field::U8(self.hdr.0[2]),
        ];
        assert(r@ =~= self.spec_fields());
        r
    }

    fn from_fields(fs: &Vec<Field>) -> (r: Self) {
        GetStatusRequest { hdr: PldmMsgHeader([get_u8(&fs[0]), get_u8(&fs[1]), get_u8(&fs[2])]) }
    }

    proof fn lemma_fields(&self) {
        assert(widths(self.spec_fields()) =~= Self::spec_layout());
        lemma_fits_widths(self.spec_fields());
        lemma_layout_of_fields(self.spec_fields(), Self::spec_layout());
        assert(Self::spec_from_fields(self.spec_fields()).hdr.0 =~= self.hdr.0);
    }

    proof fn lemma_from_fields(fs: Seq<Field>) {
        lemma_field_by_width(fs[0]);
        lemma_field_by_width(fs[1]);
        lemma_field_by_width(fs[2]);
        assert(Self::spec_from_fields(fs).spec_fields() =~= fs);
    }
}

impl GetStatusRequest {
    pub fn new(instance_id: InstanceId, msg_type: PldmMsgType) -> (r: Self)
        ensures
            r.hdr.0@ == msg_header(instance_id, msg_type, PldmSupportedType::FwUpdate.to_u8(), FwUpdateCmd::GetStatus.to_u8()),
    {
        GetStatusRequest {
            hdr: PldmMsgHeader::new(instance_id, msg_type, PldmSupportedType::FwUpdate, FwUpdateCmd::GetStatus.to_u8()),
        }
    }
}

/// Whether a forced update is in effect.
#[derive(Debug, Clone, Copy, PartialEq, Eq, Structural)]
pub enum UpdateOptionResp {
    NoForceUpdate,
    ForceUpdate,
}

impl UpdateOptionResp {
    /// The code of the value on the wire.
    #[verifier::allow_in_spec]
    pub fn to_u8(self) -> u8
        returns
            (match self {
                UpdateOptionResp::NoForceUpdate => 0x0u8,
                UpdateOptionResp::ForceUpdate => 0x1u8,
            }),
    {
        match self {
            UpdateOptionResp::NoForceUpdate => 0x0,
            UpdateOptionResp::ForceUpdate => 0x1,
        }
    }
}

/// GetStatus response: the state of the firmware device.
#[derive(Debug, Clone, Copy, PartialEq, Eq)]
pub struct GetStatusResponse {
    pub hdr: PldmMsgHeader,
    pub completion_code: u8,
    pub current_state: u8,
    pub previous_state: u8,
    pub aux_state: u8,
    pub aux_state_status: u8,
    pub progress_percent: u8,
    pub reason_code: u8,
    pub update_option_flags_enabled: u32,
}

impl FixedFields for GetStatusResponse {
    open spec fn spec_fields(&self) -> Seq<Field> {
        seq![
            Field::U8(self.hdr.0[0]),
            Field::U8(self.hdr.0[1]),
            Field::U8(self.hdr.0[2]),
            Field::U8(self.completion_code),
            Field::U8(self.current_state),
            Field::U8(self.previous_state),
            Field::U8(self.aux_state),
            Field::U8(self.aux_state_status),
            Field::U8(self.progress_percent),
            Field::U8(self.reason_code),
            Field::U32(self.update_option_flags_enabled),
        ]
    }

    open spec fn spec_layout() -> Seq<u8> {
        seq![1u8, 1, 1, 1, 1, 1, 1, 1, 1, 1, 4]
    }

    open spec fn spec_from_fields(fs: Seq<Field>) -> Self {
        GetStatusResponse { hdr: PldmMsgHeader([fv8(fs[0]), fv8(fs[1]), fv8(fs[2])]), completion_code: fv8(fs[3]), current_state: fv8(fs[4]), previous_state: fv8(fs[5]), aux_state: fv8(fs[6]), aux_state_status: fv8(fs[7]), progress_percent: fv8(fs[8]), reason_code: fv8(fs[9]), update_option_flags_enabled: fv32(fs[10]) }
    }

    fn layout() -> (r: Vec<u8>) {
        let r = vec![1u8, 1, 1, 1, 1, 1, 1, 1, 1, 1, 4];
        assert(r@ =~= Self::spec_layout());
        r
    }

    fn to_fields(&self) -> (r: Vec<Field>) {
        let r = vec![
            Field::U8(self.hdr.0[0]),
            Field::U8(self.hdr.0[1]),
            Field::U8(self.hdr.0[2]),
            Field::U8(self.completion_code),
            Field::U8(self.current_state),
            Field::U8(self.previous_state),
            Field::U8(self.aux_state),
            Field::U8(self.aux_state_status),
            Field::U8(self.progress_percent),
            Field::U8(self.reason_code),
            Field::U32(self.update_option_flags_enabled),
        ];
        assert(r@ =~= self.spec_fields());
        r
    }

    fn from_fields(fs: &Vec<Field>) -> (r: Self) {
        GetStatusResponse { hdr: PldmMsgHeader([get_u8(&fs[0]), get_u8(&fs[1]), get_u8(&fs[2])]), completion_code: get_u8(&fs[3]), current_state: get_u8(&fs[4]), previous_state: get_u8(&fs[5]), aux_state: get_u8(&fs[6]), aux_state_status: get_u8(&fs[7]), progress_percent: get_u8(&fs[8]), reason_code: get_u8(&fs[9]), update_option_flags_enabled: get_u32(&fs[10]) }
    }

    proof fn lemma_fields(&self) {
        assert(widths(self.spec_fields()) =~= Self::spec_layout());
        lemma_fits_widths(self.spec_fields());
        lemma_layout_of_fields(self.spec_fields(), Self::spec_layout());
        assert(Self::spec_from_fields(self.spec_fields()).hdr.0 =~= self.hdr.0);
    }

    proof fn lemma_from_fields(fs: Seq<Field>) {
        lemma_field_by_width(fs[0]);
        lemma_field_by_width(fs[1]);
        lemma_field_by_width(fs[2]);
        lemma_field_by_width(fs[3]);
        lemma_field_by_width(fs[4]);
        lemma_field_by_width(fs[5]);
        lemma_field_by_width(fs[6]);
        lemma_field_by_width(fs[7]);
        lemma_field_by_width(fs[8]);
        lemma_field_by_width(fs[9]);
        lemma_field_by_width(fs[10]);
        assert(Self::spec_from_fields(fs).spec_fields() =~= fs);
    }
}

impl GetStatusResponse {
    pub fn new(instance_id: InstanceId, completion_code: u8, current_state: FirmwareDeviceState, previous_state: FirmwareDeviceState, aux_state: AuxState, aux_state_status: u8, progress_percent: ProgressPercent, reason_code: GetStatusReasonCode, update_option: UpdateOptionResp) -> (r: Self)
        ensures
            r.hdr.0@ == response_header(instance_id, PldmSupportedType::FwUpdate.to_u8(), FwUpdateCmd::GetStatus.to_u8()),
            r.completion_code == completion_code,
            r.current_state == current_state.to_u8(),
            r.previous_state == previous_state.to_u8(),
            r.aux_state == aux_state.to_u8(),
            r.aux_state_status == aux_state_status,
            r.progress_percent == progress_percent@,
            r.reason_code == reason_code.to_u8(),
            r.update_option_flags_enabled == (if update_option == UpdateOptionResp::ForceUpdate { 1u32 } else { 0u32 }),
    {
        proof {
            lemma_response_bits();
        }
        let mut flags = UpdateOptionFlags(0);
        flags.set_request_force_update(update_option == UpdateOptionResp::ForceUpdate);
        assert(0u32 | 1 == 1u32 && 0u32 & 0xffff_fffe == 0u32) by (bit_vector);
        GetStatusResponse {
            hdr: PldmMsgHeader::new(instance_id, PldmMsgType::Response, PldmSupportedType::FwUpdate, FwUpdateCmd::GetStatus.to_u8()),
            completion_code: completion_code,
            current_state: current_state.to_u8(),
            previous_state: previous_state.to_u8(),
            aux_state: aux_state.to_u8(),
            aux_state_status: aux_state_status,
            progress_percent: progress_percent.value(),
            reason_code: reason_code.to_u8(),
            update_option_flags_enabled: flags.0,
        }
    }
}

} // verus!
