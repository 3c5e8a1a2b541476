use vstd::prelude::*;

verus! {

/// Errors of PLDM message construction and parsing.
#[derive(Debug, Clone, Copy, PartialEq, Eq, Structural)]
pub enum PldmError {
    InvalidData,
    InvalidLength,
    InvalidMsgType,
    InvalidProtocolVersion,
    UnsupportedCmd,
    UnsupportedPldmType,
    InvalidCompletionCode,
    InvalidTransferOpFlag,
    InvalidTransferRespFlag,
    InvalidVersionStringType,
    InvalidVersionStringLength,
    InvalidFdState,
    InvalidDescriptorType,
    InvalidDescriptorLength,
    InvalidDescriptorCount,
    InvalidComponentClassification,
    InvalidComponentResponseCode,
    InvalidComponentCompatibilityResponse,
    InvalidComponentCompatibilityResponseCode,
    InvalidTransferResult,
    InvalidVerifyResult,
    InvalidApplyResult,
    InvalidGetStatusReasonCode,
    InvalidAuxStateStatus,
}

/// Errors of the MCTP framing of PLDM messages.
#[derive(Debug, Clone, Copy, PartialEq, Eq, Structural)]
pub enum TransportError {
    InvalidMctpPayloadLength,
    InvalidMctpMsgType,
}

} // verus!
