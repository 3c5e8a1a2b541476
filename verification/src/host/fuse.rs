//! Fuse command structures of the utility host library and their mailbox
//! forms.
use crate::host::command_types::CommonResponse;
use vstd::prelude::*;

verus! {

/// ECC P-384 public-key coordinate size (bytes).
pub const AUTH_PUB_ECC_COORD_SIZE: usize = 48;

/// ML-DSA-87 public-key size (bytes).
pub const AUTH_PUB_MLDSA_SIZE: usize = 2592;

/// The mailbox code of the authorization challenge command ("MACC").
pub const MC_GET_AUTH_CMD_CHALLENGE_CANONICAL_CMD_ID: u32 = 0x4D41_4343;

/// The mailbox code of field entropy programming ("MCFP").
pub const MC_FE_PROG_CANONICAL_CMD_ID: u32 = 0x4D43_4650;

pub const MC_PROVISION_VENDOR_PK_HASH_CANONICAL_CMD_ID: u32 = 0x5056_504B;

pub const MC_FUSE_INCREASE_CALIPTRA_MIN_SVN_CANONICAL_CMD_ID: u32 = 0x4D43_4D53;

pub const MC_FUSE_REVOKE_VENDOR_PUB_KEY_CANONICAL_CMD_ID: u32 = 0x4D52_564B;

pub const MC_FUSE_REVOKE_VENDOR_PK_HASH_CANONICAL_CMD_ID: u32 = 0x5256_4B48;

pub const MC_FUSE_LOCK_PARTITION_CANONICAL_CMD_ID: u32 = 0x4946_504B;

pub const MC_PROVISION_OWNER_PK_HASH_CANONICAL_CMD_ID: u32 = 0x504F_504B;

pub const OCP_LOCK_FAMILY_ID: u32 = 0x0000_0013;

pub const MC_OCP_LOCK_ROTATE_HEK_CANONICAL_CMD_ID: u32 = 0x4F4C_5248;

pub const MC_OCP_LOCK_SET_PERMA_HEK_CANONICAL_CMD_ID: u32 = 0x4F4C_5350;

/// A request for an authorization challenge.
#[derive(Debug, Clone, Copy, PartialEq, Eq, Structural)]
pub struct GetAuthCmdChallengeRequest {
    pub flags: u32,
    pub reserved: u32,
}

impl Default for GetAuthCmdChallengeRequest {
    fn default() -> (r: Self)
        ensures
            r == (GetAuthCmdChallengeRequest { flags: 0, reserved: 0 }),
    {
        GetAuthCmdChallengeRequest { flags: 0, reserved: 0 }
    }
}

/// The response to field entropy programming.
#[derive(Debug, Clone, Copy, PartialEq, Eq, Structural)]
pub struct FeProgResponse {
    pub common: CommonResponse,
}

impl Default for FeProgResponse {
    fn default() -> (r: Self)
        ensures
            r.common.fips_status == 0,
    {
        FeProgResponse { common: CommonResponse::default() }
    }
}

/// A fuse read request (no fields yet).
#[derive(Debug, Clone, Copy, PartialEq, Eq, Structural)]
pub struct FuseReadRequest {}

/// A fuse read response (only the common header yet).
#[derive(Debug, Clone, Copy, PartialEq, Eq, Structural)]
pub struct FuseReadResponse {
    pub common: CommonResponse,
}

/// The mailbox form of the authorization challenge request: the checksum,
/// then the request.
#[derive(Debug, Clone, Copy, PartialEq, Eq, Structural)]
pub struct ExtCmdGetAuthCmdChallengeRequest {
    pub chksum: u32,
    pub flags: u32,
    pub reserved: u32,
}

impl Default for ExtCmdGetAuthCmdChallengeRequest {
    fn default() -> (r: Self)
        ensures
            r == (ExtCmdGetAuthCmdChallengeRequest { chksum: 0, flags: 0, reserved: 0 }),
    {
        ExtCmdGetAuthCmdChallengeRequest { chksum: 0, flags: 0, reserved: 0 }
    }
}

/// The mailbox form of the field entropy programming response.
#[derive(Debug, Clone, Copy, PartialEq, Eq, Structural)]
pub struct ExtCmdFeProgResponse {
    pub chksum: u32,
    pub fips_status: u32,
}

impl Default for ExtCmdFeProgResponse {
    fn default() -> (r: Self)
        ensures
            r == (ExtCmdFeProgResponse { chksum: 0, fips_status: 0 }),
    {
        ExtCmdFeProgResponse { chksum: 0, fips_status: 0 }
    }
}

impl ExtCmdFeProgResponse {
    /// The response of the library: the FIPS status.
    pub fn to_internal(&self) -> (r: FeProgResponse)
        ensures
            r.common.fips_status == self.fips_status,
    {
        FeProgResponse { common: CommonResponse { fips_status: self.fips_status } }
    }
}

} // verus!
