//! The authorized fuse command suites: for each suite name, the commands it
//! sends in order and the outcome each must have, and the authorized
//! payload of each command.
use crate::builder::str_equals;
use crate::host::fuse::{
    MC_FE_PROG_CANONICAL_CMD_ID, MC_FUSE_INCREASE_CALIPTRA_MIN_SVN_CANONICAL_CMD_ID,
    MC_FUSE_LOCK_PARTITION_CANONICAL_CMD_ID, MC_FUSE_REVOKE_VENDOR_PK_HASH_CANONICAL_CMD_ID,
    MC_FUSE_REVOKE_VENDOR_PUB_KEY_CANONICAL_CMD_ID, MC_OCP_LOCK_ROTATE_HEK_CANONICAL_CMD_ID,
    MC_OCP_LOCK_SET_PERMA_HEK_CANONICAL_CMD_ID, MC_PROVISION_OWNER_PK_HASH_CANONICAL_CMD_ID,
    MC_PROVISION_VENDOR_PK_HASH_CANONICAL_CMD_ID, OCP_LOCK_FAMILY_ID,
};
use crate::host::validator::ValidationStatus;
use crate::wire::{le4, push_u32};
use vstd::prelude::*;

verus! {

/// A device completion code; `Other` stands for any code that is none of
/// the named ones.
#[derive(Debug, Clone, Copy, PartialEq, Eq, Structural)]
pub enum CompletionCode {
    OperationFailed,
    InvalidParameter,
    AccessDenied,
    Other,
}

/// How a command ended.
#[derive(Debug, Clone, Copy, PartialEq, Eq, Structural)]
pub enum CommandOutcome {
    /// The device accepted it.
    Accepted,
    /// The device refused it with this completion code.
    Refused(CompletionCode),
    /// Its authorization could not be made, so it was not sent.
    NotAuthorized,
    /// It failed otherwise.
    Failed,
}

/// What a result on a command's outcome says besides its status.
#[derive(Debug, Clone, Copy, PartialEq, Eq, Structural)]
pub enum ResponseDetail {
    /// Accepted, as expected.
    Accepted,
    /// Refused with the expected completion code, which follows.
    ExpectedCode,
    /// Refused with another completion code; the expected one and the one
    /// received follow.
    WrongCode,
    /// Accepted where a refusal was expected.
    UnexpectedlyAccepted,
    /// The authorization could not be made; its error follows.
    SetupFailed,
    /// The command failed otherwise than by a device code; its error follows.
    NonDeviceFailure,
    /// The text of the error alone.
    Error,
}

/// The outcome a step must have.
#[derive(Debug, Clone, Copy, PartialEq, Eq, Structural)]
pub enum Expectation {
    /// The command is accepted.
    Success,
    /// The device refuses the command with this completion code.
    Completion(CompletionCode),
}

/// A command of a suite, with its arguments. A hash is 48 copies of one
/// byte.
#[derive(Debug, Clone, Copy, PartialEq, Eq, Structural)]
pub enum FuseCommand {
    ProvisionVendorPkHash { slot: u32, hash_fill: u8 },
    ProvisionOwnerPkHash { hash_fill: u8 },
    IncreaseCaliptraMinSvn { flags: u32, svn: u32 },
    FuseLockPartition { partition: u32 },
    RevokeVendorPubKey { reserved: u32, slot: u32, key_type: u32, key_index: u32 },
    RevokeVendorPkHash { reserved: u32, slot: u32 },
    FeProg { partition: u32 },
    /// OCP Lock rotate HEK, authorized.
    OcpLockRotateHek { slot: u32 },
    /// OCP Lock set permanent HEK, authorized.
    OcpLockSetPermaHek,
    /// OCP Lock rotate HEK sent natively, without authorization.
    NativeOcpLockRotateHek { slot: u32 },
    /// OCP Lock set permanent HEK sent natively, without authorization.
    NativeOcpLockSetPermaHek,
}

/// One step of a suite: its name, its command, the outcome it expects.
#[derive(Debug, Clone, Copy)]
pub struct FuseStep {
    pub name: &'static str,
    pub command: FuseCommand,
    pub expect: Expectation,
}

/// The suites, by name.
#[derive(Debug, Clone, Copy, PartialEq, Eq, Structural)]
pub enum FuseSuite {
    /// The DOT sequence.
    Dot,
    /// The malformed request and negative authorization tests.
    Authorization,
    ProvisionVendorPkHash,
    ProvisionOwnerPkHash,
    IncreaseMinSvn,
    FuseLockPartition,
    RevokeVendorPubKey,
    RevokeVendorPkHash,
    ProgramFieldEntropy,
    OcpLockRotateHek,
    OcpLockSetPermaHek,
    /// A name that is no suite.
    Unknown,
}

/// The suite a name selects.
pub open spec fn spec_fuse_suite(name: Seq<char>) -> FuseSuite {
    if name == "dot"@ {
        FuseSuite::Dot
    } else if name == "authorization"@ {
        FuseSuite::Authorization
    } else if name == "provision-vendor-pk-hash"@ {
        FuseSuite::ProvisionVendorPkHash
    } else if name == "provision-owner-pk-hash"@ {
        FuseSuite::ProvisionOwnerPkHash
    } else if name == "increase-min-svn"@ {
        FuseSuite::IncreaseMinSvn
    } else if name == "fuse-lock-partition"@ {
        FuseSuite::FuseLockPartition
    } else if name == "revoke-vendor-pub-key"@ {
        FuseSuite::RevokeVendorPubKey
    } else if name == "revoke-vendor-pk-hash"@ {
        FuseSuite::RevokeVendorPkHash
    } else if name == "program-field-entropy"@ {
        FuseSuite::ProgramFieldEntropy
    } else if name == "ocp-lock-rotate-hek"@ {
        FuseSuite::OcpLockRotateHek
    } else if name == "ocp-lock-set-perma-hek"@ {
        FuseSuite::OcpLockSetPermaHek
    } else {
        FuseSuite::Unknown
    }
}

/// The suite a name selects.
pub fn fuse_suite(name: &str) -> (r: FuseSuite)
    ensures
        r == spec_fuse_suite(name@),
{
    if str_equals(name, "dot") {
        FuseSuite::Dot
    } else if str_equals(name, "authorization") {
        FuseSuite::Authorization
    } else if str_equals(name, "provision-vendor-pk-hash") {
        FuseSuite::ProvisionVendorPkHash
    } else if str_equals(name, "provision-owner-pk-hash") {
        FuseSuite::ProvisionOwnerPkHash
    } else if str_equals(name, "increase-min-svn") {
        FuseSuite::IncreaseMinSvn
    } else if str_equals(name, "fuse-lock-partition") {
        FuseSuite::FuseLockPartition
    } else if str_equals(name, "revoke-vendor-pub-key") {
        FuseSuite::RevokeVendorPubKey
    } else if str_equals(name, "revoke-vendor-pk-hash") {
        FuseSuite::RevokeVendorPkHash
    } else if str_equals(name, "program-field-entropy") {
        FuseSuite::ProgramFieldEntropy
    } else if str_equals(name, "ocp-lock-rotate-hek") {
        FuseSuite::OcpLockRotateHek
    } else if str_equals(name, "ocp-lock-set-perma-hek") {
        FuseSuite::OcpLockSetPermaHek
    } else {
        FuseSuite::Unknown
    }
}

/// The steps of a suite of commands, in order (none for the DOT,
/// authorization and unknown suites, which are not lists of commands).
pub open spec fn spec_suite_steps(suite: FuseSuite) -> Seq<FuseStep> {
    match suite {
        FuseSuite::ProvisionVendorPkHash => seq![
            FuseStep { name: "PVPK invalid slot", command: FuseCommand::ProvisionVendorPkHash { slot: 16, hash_fill: 0xA5 }, expect: Expectation::Completion(CompletionCode::OperationFailed) },
            FuseStep { name: "PVPK programs and reads back slot", command: FuseCommand::ProvisionVendorPkHash { slot: 1, hash_fill: 0xA5 }, expect: Expectation::Success },
            FuseStep { name: "PVPK same hash is idempotent", command: FuseCommand::ProvisionVendorPkHash { slot: 1, hash_fill: 0xA5 }, expect: Expectation::Success },
            FuseStep { name: "PVPK conflicting hash rejected", command: FuseCommand::ProvisionVendorPkHash { slot: 1, hash_fill: 0x5A }, expect: Expectation::Completion(CompletionCode::OperationFailed) },
        ],
        FuseSuite::ProvisionOwnerPkHash => seq![
            FuseStep { name: "POPK rejects zero hash", command: FuseCommand::ProvisionOwnerPkHash { hash_fill: 0 }, expect: Expectation::Completion(CompletionCode::InvalidParameter) },
            FuseStep { name: "POPK programs and reads back hash", command: FuseCommand::ProvisionOwnerPkHash { hash_fill: 0xA5 }, expect: Expectation::Success },
            FuseStep { name: "POPK same hash is idempotent", command: FuseCommand::ProvisionOwnerPkHash { hash_fill: 0xA5 }, expect: Expectation::Success },
            FuseStep { name: "POPK conflicting hash rejected", command: FuseCommand::ProvisionOwnerPkHash { hash_fill: 0x5A }, expect: Expectation::Completion(CompletionCode::InvalidParameter) },
        ],
        FuseSuite::IncreaseMinSvn => seq![
            FuseStep { name: "MCMS rejects nonzero reserved flags", command: FuseCommand::IncreaseCaliptraMinSvn { flags: 1, svn: 5 }, expect: Expectation::Completion(CompletionCode::InvalidParameter) },
            FuseStep { name: "MCMS rejects zero SVN", command: FuseCommand::IncreaseCaliptraMinSvn { flags: 0, svn: 0 }, expect: Expectation::Completion(CompletionCode::InvalidParameter) },
            FuseStep { name: "MCMS rejects SVN above encoding bound", command: FuseCommand::IncreaseCaliptraMinSvn { flags: 0, svn: 129 }, expect: Expectation::Completion(CompletionCode::InvalidParameter) },
            FuseStep { name: "MCMS rejects SVN above running firmware", command: FuseCommand::IncreaseCaliptraMinSvn { flags: 0, svn: 8 }, expect: Expectation::Completion(CompletionCode::InvalidParameter) },
            FuseStep { name: "MCMS increases minimum SVN", command: FuseCommand::IncreaseCaliptraMinSvn { flags: 0, svn: 5 }, expect: Expectation::Success },
            FuseStep { name: "MCMS equal SVN is idempotent", command: FuseCommand::IncreaseCaliptraMinSvn { flags: 0, svn: 5 }, expect: Expectation::Success },
            FuseStep { name: "MCMS rejects decrease", command: FuseCommand::IncreaseCaliptraMinSvn { flags: 0, svn: 4 }, expect: Expectation::Completion(CompletionCode::InvalidParameter) },
        ],
        FuseSuite::FuseLockPartition => seq![
            FuseStep { name: "IFPK rejects invalid partition", command: FuseCommand::FuseLockPartition { partition: 0xFFFF_FFFF }, expect: Expectation::Completion(CompletionCode::InvalidParameter) },
            FuseStep { name: "IFPK locks partition", command: FuseCommand::FuseLockPartition { partition: 0x0E }, expect: Expectation::Success },
            FuseStep { name: "IFPK same partition is idempotent", command: FuseCommand::FuseLockPartition { partition: 0x0E }, expect: Expectation::Success },
        ],
        FuseSuite::RevokeVendorPubKey => seq![
            FuseStep { name: "MRVK rejects nonzero reserved field", command: FuseCommand::RevokeVendorPubKey { reserved: 1, slot: 1, key_type: 0, key_index: 0 }, expect: Expectation::Completion(CompletionCode::InvalidParameter) },
            FuseStep { name: "MRVK rejects unprovisioned slot", command: FuseCommand::RevokeVendorPubKey { reserved: 0, slot: 1, key_type: 0, key_index: 0 }, expect: Expectation::Completion(CompletionCode::InvalidParameter) },
            FuseStep { name: "MRVK prerequisite slot provisioning", command: FuseCommand::ProvisionVendorPkHash { slot: 1, hash_fill: 0xA5 }, expect: Expectation::Success },
            FuseStep { name: "MRVK rejects invalid key type", command: FuseCommand::RevokeVendorPubKey { reserved: 0, slot: 1, key_type: 99, key_index: 0 }, expect: Expectation::Completion(CompletionCode::InvalidParameter) },
            FuseStep { name: "MRVK rejects invalid key index", command: FuseCommand::RevokeVendorPubKey { reserved: 0, slot: 1, key_type: 0, key_index: 4 }, expect: Expectation::Completion(CompletionCode::OperationFailed) },
            FuseStep { name: "MRVK rejects current-boot key", command: FuseCommand::RevokeVendorPubKey { reserved: 0, slot: 0, key_type: 0, key_index: 0 }, expect: Expectation::Completion(CompletionCode::InvalidParameter) },
            FuseStep { name: "MRVK revokes inactive key", command: FuseCommand::RevokeVendorPubKey { reserved: 0, slot: 1, key_type: 0, key_index: 0 }, expect: Expectation::Success },
            FuseStep { name: "MRVK rejects last algorithm key", command: FuseCommand::RevokeVendorPubKey { reserved: 0, slot: 1, key_type: 0, key_index: 3 }, expect: Expectation::Completion(CompletionCode::OperationFailed) },
        ],
        FuseSuite::RevokeVendorPkHash => seq![
            FuseStep { name: "RVKH rejects nonzero reserved field", command: FuseCommand::RevokeVendorPkHash { reserved: 1, slot: 1 }, expect: Expectation::Completion(CompletionCode::InvalidParameter) },
            FuseStep { name: "RVKH rejects unprovisioned slot", command: FuseCommand::RevokeVendorPkHash { reserved: 0, slot: 1 }, expect: Expectation::Completion(CompletionCode::OperationFailed) },
            FuseStep { name: "RVKH rejects current-boot slot", command: FuseCommand::RevokeVendorPkHash { reserved: 0, slot: 0 }, expect: Expectation::Completion(CompletionCode::InvalidParameter) },
            FuseStep { name: "RVKH prerequisite slot provisioning", command: FuseCommand::ProvisionVendorPkHash { slot: 1, hash_fill: 0xA5 }, expect: Expectation::Success },
            FuseStep { name: "RVKH revokes inactive slot", command: FuseCommand::RevokeVendorPkHash { reserved: 0, slot: 1 }, expect: Expectation::Success },
            FuseStep { name: "RVKH repeated revocation is idempotent", command: FuseCommand::RevokeVendorPkHash { reserved: 0, slot: 1 }, expect: Expectation::Success },
        ],
        FuseSuite::ProgramFieldEntropy => seq![
            FuseStep { name: "MCFP programs field entropy", command: FuseCommand::FeProg { partition: 0 }, expect: Expectation::Success },
        ],
        FuseSuite::OcpLockRotateHek => seq![
            FuseStep { name: "OLRH rejects native 0x13 access", command: FuseCommand::NativeOcpLockRotateHek { slot: 1 }, expect: Expectation::Completion(CompletionCode::AccessDenied) },
            FuseStep { name: "OLRH rotates active HEK", command: FuseCommand::OcpLockRotateHek { slot: 1 }, expect: Expectation::Success },
        ],
        FuseSuite::OcpLockSetPermaHek => seq![
            FuseStep { name: "OLSP rejects native 0x13 access", command: FuseCommand::NativeOcpLockSetPermaHek, expect: Expectation::Completion(CompletionCode::AccessDenied) },
            FuseStep { name: "OLSP sets permanent HEK", command: FuseCommand::OcpLockSetPermaHek, expect: Expectation::Success },
        ],
        _ => Seq::empty(),
    }
}

/// The steps of a suite of commands, in order.
pub fn suite_steps(suite: FuseSuite) -> (r: Vec<FuseStep>)
    ensures
        r@ == spec_suite_steps(suite),
{
    let mut v: Vec<FuseStep> = Vec::new();
    match suite {
        FuseSuite::ProvisionVendorPkHash => {
            v.push(FuseStep { name: "PVPK invalid slot", command: FuseCommand::ProvisionVendorPkHash { slot: 16, hash_fill: 0xA5 }, expect: Expectation::Completion(CompletionCode::OperationFailed) });
            v.push(FuseStep { name: "PVPK programs and reads back slot", command: FuseCommand::ProvisionVendorPkHash { slot: 1, hash_fill: 0xA5 }, expect: Expectation::Success });
            v.push(FuseStep { name: "PVPK same hash is idempotent", command: FuseCommand::ProvisionVendorPkHash { slot: 1, hash_fill: 0xA5 }, expect: Expectation::Success });
            v.push(FuseStep { name: "PVPK conflicting hash rejected", command: FuseCommand::ProvisionVendorPkHash { slot: 1, hash_fill: 0x5A }, expect: Expectation::Completion(CompletionCode::OperationFailed) });
        },
        FuseSuite::ProvisionOwnerPkHash => {
            v.push(FuseStep { name: "POPK rejects zero hash", command: FuseCommand::ProvisionOwnerPkHash { hash_fill: 0 }, expect: Expectation::Completion(CompletionCode::InvalidParameter) });
            v.push(FuseStep { name: "POPK programs and reads back hash", command: FuseCommand::ProvisionOwnerPkHash { hash_fill: 0xA5 }, expect: Expectation::Success });
            v.push(FuseStep { name: "POPK same hash is idempotent", command: FuseCommand::ProvisionOwnerPkHash { hash_fill: 0xA5 }, expect: Expectation::Success });
            v.push(FuseStep { name: "POPK conflicting hash rejected", command: FuseCommand::ProvisionOwnerPkHash { hash_fill: 0x5A }, expect: Expectation::Completion(CompletionCode::InvalidParameter) });
        },
        FuseSuite::IncreaseMinSvn => {
            v.push(FuseStep { name: "MCMS rejects nonzero reserved flags", command: FuseCommand::IncreaseCaliptraMinSvn { flags: 1, svn: 5 }, expect: Expectation::Completion(CompletionCode::InvalidParameter) });
            v.push(FuseStep { name: "MCMS rejects zero SVN", command: FuseCommand::IncreaseCaliptraMinSvn { flags: 0, svn: 0 }, expect: Expectation::Completion(CompletionCode::InvalidParameter) });
            v.push(FuseStep { name: "MCMS rejects SVN above encoding bound", command: FuseCommand::IncreaseCaliptraMinSvn { flags: 0, svn: 129 }, expect: Expectation::Completion(CompletionCode::InvalidParameter) });
            v.push(FuseStep { name: "MCMS rejects SVN above running firmware", command: FuseCommand::IncreaseCaliptraMinSvn { flags: 0, svn: 8 }, expect: Expectation::Completion(CompletionCode::InvalidParameter) });
            v.push(FuseStep { name: "MCMS increases minimum SVN", command: FuseCommand::IncreaseCaliptraMinSvn { flags: 0, svn: 5 }, expect: Expectation::Success });
            v.push(FuseStep { name: "MCMS equal SVN is idempotent", command: FuseCommand::IncreaseCaliptraMinSvn { flags: 0, svn: 5 }, expect: Expectation::Success });
            v.push(FuseStep { name: "MCMS rejects decrease", command: FuseCommand::IncreaseCaliptraMinSvn { flags: 0, svn: 4 }, expect: Expectation::Completion(CompletionCode::InvalidParameter) });
        },
        FuseSuite::FuseLockPartition => {
            v.push(FuseStep { name: "IFPK rejects invalid partition", command: FuseCommand::FuseLockPartition { partition: 0xFFFF_FFFF }, expect: Expectation::Completion(CompletionCode::InvalidParameter) });
            v.push(FuseStep { name: "IFPK locks partition", command: FuseCommand::FuseLockPartition { partition: 0x0E }, expect: Expectation::Success });
            v.push(FuseStep { name: "IFPK same partition is idempotent", command: FuseCommand::FuseLockPartition { partition: 0x0E }, expect: Expectation::Success });
        },
        FuseSuite::RevokeVendorPubKey => {
            v.push(FuseStep { name: "MRVK rejects nonzero reserved field", command: FuseCommand::RevokeVendorPubKey { reserved: 1, slot: 1, key_type: 0, key_index: 0 }, expect: Expectation::Completion(CompletionCode::InvalidParameter) });
            v.push(FuseStep { name: "MRVK rejects unprovisioned slot", command: FuseCommand::RevokeVendorPubKey { reserved: 0, slot: 1, key_type: 0, key_index: 0 }, expect: Expectation::Completion(CompletionCode::InvalidParameter) });
            v.push(FuseStep { name: "MRVK prerequisite slot provisioning", command: FuseCommand::ProvisionVendorPkHash { slot: 1, hash_fill: 0xA5 }, expect: Expectation::Success });
            v.push(FuseStep { name: "MRVK rejects invalid key type", command: FuseCommand::RevokeVendorPubKey { reserved: 0, slot: 1, key_type: 99, key_index: 0 }, expect: Expectation::Completion(CompletionCode::InvalidParameter) });
            v.push(FuseStep { name: "MRVK rejects invalid key index", command: FuseCommand::RevokeVendorPubKey { reserved: 0, slot: 1, key_type: 0, key_index: 4 }, expect: Expectation::Completion(CompletionCode::OperationFailed) });
            v.push(FuseStep { name: "MRVK rejects current-boot key", command: FuseCommand::RevokeVendorPubKey { reserved: 0, slot: 0, key_type: 0, key_index: 0 }, expect: Expectation::Completion(CompletionCode::InvalidParameter) });
            v.push(FuseStep { name: "MRVK revokes inactive key", command: FuseCommand::RevokeVendorPubKey { reserved: 0, slot: 1, key_type: 0, key_index: 0 }, expect: Expectation::Success });
            v.push(FuseStep { name: "MRVK rejects last algorithm key", command: FuseCommand::RevokeVendorPubKey { reserved: 0, slot: 1, key_type: 0, key_index: 3 }, expect: Expectation::Completion(CompletionCode::OperationFailed) });
        },
        FuseSuite::RevokeVendorPkHash => {
            v.push(FuseStep { name: "RVKH rejects nonzero reserved field", command: FuseCommand::RevokeVendorPkHash { reserved: 1, slot: 1 }, expect: Expectation::Completion(CompletionCode::InvalidParameter) });
            v.push(FuseStep { name: "RVKH rejects unprovisioned slot", command: FuseCommand::RevokeVendorPkHash { reserved: 0, slot: 1 }, expect: Expectation::Completion(CompletionCode::OperationFailed) });
            v.push(FuseStep { name: "RVKH rejects current-boot slot", command: FuseCommand::RevokeVendorPkHash { reserved: 0, slot: 0 }, expect: Expectation::Completion(CompletionCode::InvalidParameter) });
            v.push(FuseStep { name: "RVKH prerequisite slot provisioning", command: FuseCommand::ProvisionVendorPkHash { slot: 1, hash_fill: 0xA5 }, expect: Expectation::Success });
            v.push(FuseStep { name: "RVKH revokes inactive slot", command: FuseCommand::RevokeVendorPkHash { reserved: 0, slot: 1 }, expect: Expectation::Success });
            v.push(FuseStep { name: "RVKH repeated revocation is idempotent", command: FuseCommand::RevokeVendorPkHash { reserved: 0, slot: 1 }, expect: Expectation::Success });
        },
        FuseSuite::ProgramFieldEntropy => {
            v.push(FuseStep { name: "MCFP programs field entropy", command: FuseCommand::FeProg { partition: 0 }, expect: Expectation::Success });
        },
        FuseSuite::OcpLockRotateHek => {
            v.push(FuseStep { name: "OLRH rejects native 0x13 access", command: FuseCommand::NativeOcpLockRotateHek { slot: 1 }, expect: Expectation::Completion(CompletionCode::AccessDenied) });
            v.push(FuseStep { name: "OLRH rotates active HEK", command: FuseCommand::OcpLockRotateHek { slot: 1 }, expect: Expectation::Success });
        },
        FuseSuite::OcpLockSetPermaHek => {
            v.push(FuseStep { name: "OLSP rejects native 0x13 access", command: FuseCommand::NativeOcpLockSetPermaHek, expect: Expectation::Completion(CompletionCode::AccessDenied) });
            v.push(FuseStep { name: "OLSP sets permanent HEK", command: FuseCommand::OcpLockSetPermaHek, expect: Expectation::Success });
        },
        _ => {},
    }
    assert(v@ =~= spec_suite_steps(suite));
    v
}

/// 48 copies of a byte.
pub open spec fn fill48(b: u8) -> Seq<u8> {
    Seq::new(48, |i: int| b)
}

/// The command identifier a step is authorized under and the payload that
/// is authorized, for the authorized commands; `None` for the native ones.
pub open spec fn spec_authorization(cmd: FuseCommand) -> Option<(u32, Seq<u8>)> {
    match cmd {
        FuseCommand::ProvisionVendorPkHash { slot, hash_fill } => Some(
            (MC_PROVISION_VENDOR_PK_HASH_CANONICAL_CMD_ID, le4(slot) + fill48(hash_fill)),
        ),
        FuseCommand::ProvisionOwnerPkHash { hash_fill } => Some(
            (MC_PROVISION_OWNER_PK_HASH_CANONICAL_CMD_ID, fill48(hash_fill)),
        ),
        FuseCommand::IncreaseCaliptraMinSvn { flags, svn } => Some(
            (MC_FUSE_INCREASE_CALIPTRA_MIN_SVN_CANONICAL_CMD_ID, le4(flags) + le4(svn)),
        ),
        FuseCommand::FuseLockPartition { partition } => Some(
            (MC_FUSE_LOCK_PARTITION_CANONICAL_CMD_ID, le4(partition)),
        ),
        FuseCommand::RevokeVendorPubKey { reserved, slot, key_type, key_index } => Some(
            (
                MC_FUSE_REVOKE_VENDOR_PUB_KEY_CANONICAL_CMD_ID,
                le4(reserved) + le4(slot) + le4(key_type) + le4(key_index),
            ),
        ),
        FuseCommand::RevokeVendorPkHash { reserved, slot } => Some(
            (MC_FUSE_REVOKE_VENDOR_PK_HASH_CANONICAL_CMD_ID, le4(reserved) + le4(slot)),
        ),
        FuseCommand::FeProg { partition } => Some((MC_FE_PROG_CANONICAL_CMD_ID, le4(partition))),
        FuseCommand::OcpLockRotateHek { slot } => Some(
            (OCP_LOCK_FAMILY_ID, le4(MC_OCP_LOCK_ROTATE_HEK_CANONICAL_CMD_ID) + le4(slot)),
        ),
        FuseCommand::OcpLockSetPermaHek => Some(
            (OCP_LOCK_FAMILY_ID, le4(MC_OCP_LOCK_SET_PERMA_HEK_CANONICAL_CMD_ID)),
        ),
        _ => None,
    }
}

fn push_fill48(v: &mut Vec<u8>, b: u8)
    ensures
        final(v)@ == old(v)@ + fill48(b),
{
    let ghost v0 = v@;
    let mut i: usize = 0;
    while i < 48
        invariant
            i <= 48,
            v@ == v0 + Seq::new(i as nat, |k: int| b),
        decreases 48 - i,
    {
        v.push(b);
        assert(v@ =~= v0 + Seq::new((i + 1) as nat, |k: int| b));
        i = i + 1;
    }
    assert(fill48(b) =~= Seq::new(48, |k: int| b));
}

impl FuseCommand {
    /// The command identifier and payload to authorize, for an authorized
    /// command.
    pub fn authorization(&self) -> (r: Option<(u32, Vec<u8>)>)
        ensures
            match spec_authorization(*self) {
                Some((id, p)) => r matches Some((rid, rp)) && rid == id && rp@ == p,
                None => r is None,
            },
    {
        let mut v: Vec<u8> = Vec::new();
        match *self {
            FuseCommand::ProvisionVendorPkHash { slot, hash_fill } => {
                push_u32(&mut v, slot);
                push_fill48(&mut v, hash_fill);
                Some((MC_PROVISION_VENDOR_PK_HASH_CANONICAL_CMD_ID, v))
            },
            FuseCommand::ProvisionOwnerPkHash { hash_fill } => {
                push_fill48(&mut v, hash_fill);
                assert(v@ =~= fill48(hash_fill));
                Some((MC_PROVISION_OWNER_PK_HASH_CANONICAL_CMD_ID, v))
            },
            FuseCommand::IncreaseCaliptraMinSvn { flags, svn } => {
                push_u32(&mut v, flags);
                push_u32(&mut v, svn);
                Some((MC_FUSE_INCREASE_CALIPTRA_MIN_SVN_CANONICAL_CMD_ID, v))
            },
            FuseCommand::FuseLockPartition { partition } => {
                push_u32(&mut v, partition);
                assert(v@ =~= le4(partition));
                Some((MC_FUSE_LOCK_PARTITION_CANONICAL_CMD_ID, v))
            },
            FuseCommand::RevokeVendorPubKey { reserved, slot, key_type, key_index } => {
                push_u32(&mut v, reserved);
                push_u32(&mut v, slot);
                push_u32(&mut v, key_type);
                push_u32(&mut v, key_index);
                Some((MC_FUSE_REVOKE_VENDOR_PUB_KEY_CANONICAL_CMD_ID, v))
            },
            FuseCommand::RevokeVendorPkHash { reserved, slot } => {
                push_u32(&mut v, reserved);
                push_u32(&mut v, slot);
                Some((MC_FUSE_REVOKE_VENDOR_PK_HASH_CANONICAL_CMD_ID, v))
            },
            FuseCommand::FeProg { partition } => {
                push_u32(&mut v, partition);
                assert(v@ =~= le4(partition));
                Some((MC_FE_PROG_CANONICAL_CMD_ID, v))
            },
            FuseCommand::OcpLockRotateHek { slot } => {
                push_u32(&mut v, MC_OCP_LOCK_ROTATE_HEK_CANONICAL_CMD_ID);
                push_u32(&mut v, slot);
                Some((OCP_LOCK_FAMILY_ID, v))
            },
            FuseCommand::OcpLockSetPermaHek => {
                push_u32(&mut v, MC_OCP_LOCK_SET_PERMA_HEK_CANONICAL_CMD_ID);
                assert(v@ =~= le4(MC_OCP_LOCK_SET_PERMA_HEK_CANONICAL_CMD_ID));
                Some((OCP_LOCK_FAMILY_ID, v))
            },
            _ => None,
        }
    }
}

/// What a suite run does before its steps: without a command authorizer it
/// fails at once under the suite's name; a name that is no suite fails at
/// once under "Authorized fuse suite"; otherwise it runs the suite the name
/// selects. A run that fails at once sends nothing.
#[derive(Debug, Clone, Copy, PartialEq, Eq, Structural)]
pub enum SuiteStart {
    /// No command authorizer: one failed result under the suite's name.
    NoAuthorizer,
    /// The name is no suite: one failed result under
    /// `UNKNOWN_SUITE_CHECK_NAME`.
    UnknownSuite,
    /// Run the suite.
    Run(FuseSuite),
}

/// The name of the result of a run whose suite name is unknown.
pub const UNKNOWN_SUITE_CHECK_NAME: &'static str = "Authorized fuse suite";

/// How a suite run starts.
pub open spec fn spec_suite_start(name: Seq<char>, has_authorizer: bool) -> SuiteStart {
    if !has_authorizer {
        SuiteStart::NoAuthorizer
    } else if spec_fuse_suite(name) == FuseSuite::Unknown {
        SuiteStart::UnknownSuite
    } else {
        SuiteStart::Run(spec_fuse_suite(name))
    }
}

/// How a suite run starts.
pub fn fuse_suite_start(name: &str, has_authorizer: bool) -> (r: SuiteStart)
    ensures
        r == spec_suite_start(name@, has_authorizer),
{
    if !has_authorizer {
        return SuiteStart::NoAuthorizer;
    }
    let suite = fuse_suite(name);
    match suite {
        FuseSuite::Unknown => SuiteStart::UnknownSuite,
        _ => SuiteStart::Run(suite),
    }
}

impl SuiteStart {
    /// The result a start records before any step: a failure for the two
    /// refusals, nothing for a run.
    pub fn early_result(&self) -> (r: Option<ValidationStatus>)
        ensures
            r == (if *self is Run {
                None
            } else {
                Some(ValidationStatus::Fail)
            }),
    {
        match self {
            SuiteStart::Run(_) => None,
            _ => Some(ValidationStatus::Fail),
        }
    }
}

/// Whether a step passes: one expecting success passes on acceptance; one
/// expecting a completion code passes on a refusal with exactly that code.
pub open spec fn spec_step_passes(expect: Expectation, outcome: CommandOutcome) -> bool {
    match expect {
        Expectation::Success => outcome == CommandOutcome::Accepted,
        Expectation::Completion(c) => c != CompletionCode::Other && outcome == CommandOutcome::Refused(c),
    }
}

/// Whether a step passes, given the outcome of its command.
pub fn step_passes(expect: Expectation, outcome: CommandOutcome) -> (r: bool)
    ensures
        r == spec_step_passes(expect, outcome),
{
    match expect {
        Expectation::Success => match outcome {
            CommandOutcome::Accepted => true,
            _ => false,
        },
        Expectation::Completion(c) => match (c, outcome) {
            (CompletionCode::Other, _) => false,
            (_, CommandOutcome::Refused(got)) => got == c,
            _ => false,
        },
    }
}

/// The detail of a step's result: what the outcome was against what the
/// step expects.
pub open spec fn spec_response_detail(expect: Expectation, outcome: CommandOutcome) -> ResponseDetail {
    match expect {
        Expectation::Success => if outcome == CommandOutcome::Accepted {
            ResponseDetail::Accepted
        } else {
            ResponseDetail::Error
        },
        Expectation::Completion(c) => match outcome {
            CommandOutcome::Refused(got) => if got == c && c != CompletionCode::Other {
                ResponseDetail::ExpectedCode
            } else {
                ResponseDetail::WrongCode
            },
            CommandOutcome::Accepted => ResponseDetail::UnexpectedlyAccepted,
            CommandOutcome::NotAuthorized => ResponseDetail::SetupFailed,
            CommandOutcome::Failed => ResponseDetail::NonDeviceFailure,
        },
    }
}

/// The detail of a step's result.
pub fn response_detail(expect: Expectation, outcome: CommandOutcome) -> (r: ResponseDetail)
    ensures
        r == spec_response_detail(expect, outcome),
{
    match expect {
        Expectation::Success => match outcome {
            CommandOutcome::Accepted => ResponseDetail::Accepted,
            _ => ResponseDetail::Error,
        },
        Expectation::Completion(c) => match outcome {
            CommandOutcome::Refused(got) => {
                let expected = match c {
                    CompletionCode::Other => false,
                    _ => got == c,
                };
                if expected {
                    ResponseDetail::ExpectedCode
                } else {
                    ResponseDetail::WrongCode
                }
            },
            CommandOutcome::Accepted => ResponseDetail::UnexpectedlyAccepted,
            CommandOutcome::NotAuthorized => ResponseDetail::SetupFailed,
            CommandOutcome::Failed => ResponseDetail::NonDeviceFailure,
        },
    }
}

/// A step passes exactly when its detail is the expected acceptance or the
/// expected code.
pub proof fn lemma_detail_matches_pass(expect: Expectation, outcome: CommandOutcome)
    ensures
        spec_step_passes(expect, outcome) <==> (spec_response_detail(expect, outcome) == ResponseDetail::Accepted
            || spec_response_detail(expect, outcome) == ResponseDetail::ExpectedCode),
{
}

} // verus!
