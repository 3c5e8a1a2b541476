use crate::pldm::error::TransportError;
use crate::pldm::protocol::base::PLDM_MSG_HEADER_LEN;
use vstd::prelude::*;

verus! {

pub const MCTP_PLDM_MSG_TYPE: u8 = 0x01;

pub const MCTP_COMMON_HEADER_OFFSET: usize = 0;

pub const PLDM_MSG_OFFSET: usize = 1;

/// The MCTP common header byte: the integrity check bit (bit 7) and the
/// message type (bits 0 to 6).
#[derive(Debug, Copy, Clone, PartialEq, Eq, Structural)]
pub struct MctpCommonHeader(pub u8);

impl MctpCommonHeader {
    #[verifier::allow_in_spec]
    pub fn ic(&self) -> u8
        returns
            (self.0 >> 7u8) & 1,
    {
        (self.0 >> 7u8) & 1
    }

    #[verifier::allow_in_spec]
    pub fn msg_type(&self) -> u8
        returns
            self.0 & 0x7f,
    {
        self.0 & 0x7f
    }

    /// Sets the integrity check bit to the low bit of `v`.
    pub fn set_ic(&mut self, v: u8)
        ensures
            final(self).0 == (old(self).0 & 0x7f) | ((v & 1) << 7u8),
    {
        self.0 = (self.0 & 0x7f) | ((v & 1) << 7u8);
    }

    /// Sets the message type to the low 7 bits of `v`.
    pub fn set_msg_type(&mut self, v: u8)
        ensures
            final(self).0 == (old(self).0 & 0x80) | (v & 0x7f),
    {
        self.0 = (self.0 & 0x80) | (v & 0x7f);
    }
}

/// The first byte of an MCTP payload announces a PLDM message: no integrity
/// check and message type 1.
pub open spec fn is_pldm_header(b: u8) -> bool {
    MctpCommonHeader(b).ic() == 0 && MctpCommonHeader(b).msg_type() == MCTP_PLDM_MSG_TYPE
}

/// The only header byte that announces a PLDM message is 0x01.
pub proof fn lemma_pldm_header_byte(b: u8)
    ensures
        is_pldm_header(b) <==> b == 0x01,
{
    assert(((b >> 7u8) & 1 == 0 && b & 0x7f == 1) <==> b == 0x01) by (bit_vector);
}

/// The PLDM message carried by an MCTP payload: the bytes after the common
/// header, which must announce a PLDM message; the payload must hold at least
/// the header byte and a PLDM message header.
pub fn extract_pldm_msg(mctp_payload: &mut [u8]) -> (r: Result<&mut [u8], TransportError>)
    ensures
        old(mctp_payload)@.len() < 1 + PLDM_MSG_HEADER_LEN ==> r == Err::<&mut [u8], TransportError>(
            TransportError::InvalidMctpPayloadLength,
        ) && final(mctp_payload)@ == old(mctp_payload)@,
        old(mctp_payload)@.len() >= 1 + PLDM_MSG_HEADER_LEN && !is_pldm_header(old(mctp_payload)@[0])
            ==> r == Err::<&mut [u8], TransportError>(TransportError::InvalidMctpMsgType)
            && final(mctp_payload)@ == old(mctp_payload)@,
        old(mctp_payload)@.len() >= 1 + PLDM_MSG_HEADER_LEN && is_pldm_header(old(mctp_payload)@[0]) ==> (
        r matches Ok(msg) && msg@ == old(mctp_payload)@.subrange(
            PLDM_MSG_OFFSET as int,
            old(mctp_payload)@.len() as int,
        ) && final(mctp_payload)@ == seq![old(mctp_payload)@[0]] + final(msg)@),
{
    if mctp_payload.len() < 1 + PLDM_MSG_HEADER_LEN {
        return Err(TransportError::InvalidMctpPayloadLength);
    }
    let mctp_common_header = MctpCommonHeader(mctp_payload[MCTP_COMMON_HEADER_OFFSET]);
    if mctp_common_header.ic() != 0 || mctp_common_header.msg_type() != MCTP_PLDM_MSG_TYPE {
        return Err(TransportError::InvalidMctpMsgType);
    }
    let (head, msg) = mctp_payload.split_at_mut(PLDM_MSG_OFFSET);
    Ok(msg)
}

/// Writes the common header of a PLDM message (0x01) at the start of an MCTP
/// payload and gives back the bytes after it, where the PLDM message goes;
/// the payload must hold at least the header byte and a PLDM message header.
pub fn construct_mctp_pldm_msg(mctp_payload: &mut [u8]) -> (r: Result<&mut [u8], TransportError>)
    ensures
        old(mctp_payload)@.len() < 1 + PLDM_MSG_HEADER_LEN ==> r == Err::<&mut [u8], TransportError>(
            TransportError::InvalidMctpPayloadLength,
        ) && final(mctp_payload)@ == old(mctp_payload)@,
        old(mctp_payload)@.len() >= 1 + PLDM_MSG_HEADER_LEN ==> (r matches Ok(msg) && msg@
            == old(mctp_payload)@.subrange(PLDM_MSG_OFFSET as int, old(mctp_payload)@.len() as int)
            && final(mctp_payload)@ == seq![MCTP_PLDM_MSG_TYPE] + final(msg)@),
{
    if mctp_payload.len() < 1 + PLDM_MSG_HEADER_LEN {
        return Err(TransportError::InvalidMctpPayloadLength);
    }
    let mut mctp_common_header = MctpCommonHeader(0);
    mctp_common_header.set_ic(0);
    mctp_common_header.set_msg_type(MCTP_PLDM_MSG_TYPE);
    assert(((0u8 & 0x7f) | ((0u8 & 1) << 7u8)) & 0x80 | (1u8 & 0x7f) == 1u8) by (bit_vector);
    mctp_payload[MCTP_COMMON_HEADER_OFFSET] = mctp_common_header.0;
    let (head, msg) = mctp_payload.split_at_mut(PLDM_MSG_OFFSET);
    Ok(msg)
}

} // verus!
