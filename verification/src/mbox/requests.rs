//! The mailbox requests whose wire layout the library holds, as one type:
//! their command code, their bytes, and the checksum they carry.
use crate::mbox::checksum::{lemma_populated_message_verifies, mbox_checksum, with_checksum};
use crate::mbox::dot_layout::{
    DotDisableReq, DotLockReq, DotRecoveryReq, DotRotateReq, DotStatusReq, DotUnlockChallengeReq,
    GetDotBackupBlobReq,
};
use crate::mbox::fuse_layout::{
    FuseIncreaseCaliptraMinSvnReq, FuseRevokeVendorPkHashReq, FuseRevokeVendorPubKeyReq, FuseWriteReq,
    GetAuthCmdChallengeReq, McuFeProgReq, OcpLockRotateHekReq, OcpLockSetPermaHekReq, ProvisionVendorPkHashReq,
};
use crate::mbox::layout::{FuseLockPartitionReq, FuseReadReq, GetAttestationReq, ProvisionOwnerPkHashReq};
use crate::mbox::messages::CommandId;
use crate::mbox::request::{spec_cmd_code, McuMailboxReqKind};
use crate::wire::{from_le4, lemma_le4};
use vstd::prelude::*;

verus! {

/// A mailbox request with its fields.
#[derive(Debug, Clone, Copy)]
pub enum McuMailboxReq {
    FuseRead(FuseReadReq),
    FuseLockPartition(FuseLockPartitionReq),
    FuseWrite(FuseWriteReq),
    FuseIncreaseCaliptraMinSvn(FuseIncreaseCaliptraMinSvnReq),
    FeProg(McuFeProgReq),
    GetAuthCmdChallenge(GetAuthCmdChallengeReq),
    FuseRevokeVendorPubKey(FuseRevokeVendorPubKeyReq),
    ProvisionVendorPkHash(ProvisionVendorPkHashReq),
    FuseRevokeVendorPkHash(FuseRevokeVendorPkHashReq),
    OcpLockSetPermaHek(OcpLockSetPermaHekReq),
    OcpLockRotateHek(OcpLockRotateHekReq),
    ProvisionOwnerPkHash(ProvisionOwnerPkHashReq),
    GetAttestation(GetAttestationReq),
    DotLock(DotLockReq),
    DotDisable(DotDisableReq),
    DotRotate(DotRotateReq),
    DotRecovery(DotRecoveryReq),
    DotStatus(DotStatusReq),
    DotUnlockChallenge(DotUnlockChallengeReq),
    GetDotBackupBlob(GetDotBackupBlobReq),
}

/// The kind of a request.
pub open spec fn spec_req_kind(req: McuMailboxReq) -> McuMailboxReqKind {
    match req {
        McuMailboxReq::FuseRead(_) => McuMailboxReqKind::FuseRead,
        McuMailboxReq::FuseLockPartition(_) => McuMailboxReqKind::FuseLockPartition,
        McuMailboxReq::FuseWrite(_) => McuMailboxReqKind::FuseWrite,
        McuMailboxReq::FuseIncreaseCaliptraMinSvn(_) => McuMailboxReqKind::FuseIncreaseCaliptraMinSvn,
        McuMailboxReq::FeProg(_) => McuMailboxReqKind::FeProg,
        McuMailboxReq::GetAuthCmdChallenge(_) => McuMailboxReqKind::GetAuthCmdChallenge,
        McuMailboxReq::FuseRevokeVendorPubKey(_) => McuMailboxReqKind::FuseRevokeVendorPubKey,
        McuMailboxReq::ProvisionVendorPkHash(_) => McuMailboxReqKind::ProvisionVendorPkHash,
        McuMailboxReq::FuseRevokeVendorPkHash(_) => McuMailboxReqKind::FuseRevokeVendorPkHash,
        McuMailboxReq::OcpLockSetPermaHek(_) => McuMailboxReqKind::OcpLockSetPermaHek,
        McuMailboxReq::OcpLockRotateHek(_) => McuMailboxReqKind::OcpLockRotateHek,
        McuMailboxReq::ProvisionOwnerPkHash(_) => McuMailboxReqKind::ProvisionOwnerPkHash,
        McuMailboxReq::GetAttestation(_) => McuMailboxReqKind::GetAttestation,
        McuMailboxReq::DotLock(_) => McuMailboxReqKind::DotLock,
        McuMailboxReq::DotDisable(_) => McuMailboxReqKind::DotDisable,
        McuMailboxReq::DotRotate(_) => McuMailboxReqKind::DotRotate,
        McuMailboxReq::DotRecovery(_) => McuMailboxReqKind::DotRecovery,
        McuMailboxReq::DotStatus(_) => McuMailboxReqKind::DotStatus,
        McuMailboxReq::DotUnlockChallenge(_) => McuMailboxReqKind::DotUnlockChallenge,
        McuMailboxReq::GetDotBackupBlob(_) => McuMailboxReqKind::GetDotBackupBlob,
    }
}

/// The bytes of a request on the wire.
pub open spec fn spec_req_bytes(req: McuMailboxReq) -> Seq<u8> {
    match req {
        McuMailboxReq::FuseRead(r) => r.spec_bytes(),
        McuMailboxReq::FuseLockPartition(r) => r.spec_bytes(),
        McuMailboxReq::FuseWrite(r) => r.spec_bytes(),
        McuMailboxReq::FuseIncreaseCaliptraMinSvn(r) => r.spec_bytes(),
        McuMailboxReq::FeProg(r) => r.spec_bytes(),
        McuMailboxReq::GetAuthCmdChallenge(r) => r.spec_bytes(),
        McuMailboxReq::FuseRevokeVendorPubKey(r) => r.spec_bytes(),
        McuMailboxReq::ProvisionVendorPkHash(r) => r.spec_bytes(),
        McuMailboxReq::FuseRevokeVendorPkHash(r) => r.spec_bytes(),
        McuMailboxReq::OcpLockSetPermaHek(r) => r.spec_bytes(),
        McuMailboxReq::OcpLockRotateHek(r) => r.spec_bytes(),
        McuMailboxReq::ProvisionOwnerPkHash(r) => r.spec_bytes(),
        McuMailboxReq::GetAttestation(r) => r.spec_bytes(),
        McuMailboxReq::DotLock(r) => r.spec_bytes(),
        McuMailboxReq::DotDisable(r) => r.spec_bytes(),
        McuMailboxReq::DotRotate(r) => r.spec_bytes(),
        McuMailboxReq::DotRecovery(r) => r.spec_bytes(),
        McuMailboxReq::DotStatus(r) => r.spec_bytes(),
        McuMailboxReq::DotUnlockChallenge(r) => r.spec_bytes(),
        McuMailboxReq::GetDotBackupBlob(r) => r.spec_bytes(),
    }
}

impl McuMailboxReq {
    /// The kind of the request.
    pub fn kind(&self) -> (r: McuMailboxReqKind)
        ensures
            r == spec_req_kind(*self),
    {
        match self {
            McuMailboxReq::FuseRead(_) => McuMailboxReqKind::FuseRead,
            McuMailboxReq::FuseLockPartition(_) => McuMailboxReqKind::FuseLockPartition,
            McuMailboxReq::FuseWrite(_) => McuMailboxReqKind::FuseWrite,
            McuMailboxReq::FuseIncreaseCaliptraMinSvn(_) => McuMailboxReqKind::FuseIncreaseCaliptraMinSvn,
            McuMailboxReq::FeProg(_) => McuMailboxReqKind::FeProg,
            McuMailboxReq::GetAuthCmdChallenge(_) => McuMailboxReqKind::GetAuthCmdChallenge,
            McuMailboxReq::FuseRevokeVendorPubKey(_) => McuMailboxReqKind::FuseRevokeVendorPubKey,
            McuMailboxReq::ProvisionVendorPkHash(_) => McuMailboxReqKind::ProvisionVendorPkHash,
            McuMailboxReq::FuseRevokeVendorPkHash(_) => McuMailboxReqKind::FuseRevokeVendorPkHash,
            McuMailboxReq::OcpLockSetPermaHek(_) => McuMailboxReqKind::OcpLockSetPermaHek,
            McuMailboxReq::OcpLockRotateHek(_) => McuMailboxReqKind::OcpLockRotateHek,
        McuMailboxReq::FuseWrite(_) => McuMailboxReqKind::FuseWrite,
        McuMailboxReq::FuseIncreaseCaliptraMinSvn(_) => McuMailboxReqKind::FuseIncreaseCaliptraMinSvn,
        McuMailboxReq::FeProg(_) => McuMailboxReqKind::FeProg,
        McuMailboxReq::GetAuthCmdChallenge(_) => McuMailboxReqKind::GetAuthCmdChallenge,
        McuMailboxReq::FuseRevokeVendorPubKey(_) => McuMailboxReqKind::FuseRevokeVendorPubKey,
        McuMailboxReq::ProvisionVendorPkHash(_) => McuMailboxReqKind::ProvisionVendorPkHash,
        McuMailboxReq::FuseRevokeVendorPkHash(_) => McuMailboxReqKind::FuseRevokeVendorPkHash,
        McuMailboxReq::OcpLockSetPermaHek(_) => McuMailboxReqKind::OcpLockSetPermaHek,
        McuMailboxReq::OcpLockRotateHek(_) => McuMailboxReqKind::OcpLockRotateHek,
            McuMailboxReq::ProvisionOwnerPkHash(_) => McuMailboxReqKind::ProvisionOwnerPkHash,
            McuMailboxReq::GetAttestation(_) => McuMailboxReqKind::GetAttestation,
            McuMailboxReq::DotLock(_) => McuMailboxReqKind::DotLock,
            McuMailboxReq::DotDisable(_) => McuMailboxReqKind::DotDisable,
            McuMailboxReq::DotRotate(_) => McuMailboxReqKind::DotRotate,
            McuMailboxReq::DotRecovery(_) => McuMailboxReqKind::DotRecovery,
            McuMailboxReq::DotStatus(_) => McuMailboxReqKind::DotStatus,
            McuMailboxReq::DotUnlockChallenge(_) => McuMailboxReqKind::DotUnlockChallenge,
            McuMailboxReq::GetDotBackupBlob(_) => McuMailboxReqKind::GetDotBackupBlob,
        }
    }

    /// The command code the request is sent with.
    pub fn cmd_code(&self) -> (r: CommandId)
        ensures
            r == spec_cmd_code(spec_req_kind(*self)),
    {
        self.kind().cmd_code()
    }

    /// The bytes of the request on the wire.
    pub fn as_bytes(&self) -> (r: Vec<u8>)
        ensures
            r@ == spec_req_bytes(*self),
    {
        match self {
            McuMailboxReq::FuseRead(r) => r.as_bytes(),
            McuMailboxReq::FuseLockPartition(r) => r.as_bytes(),
            McuMailboxReq::FuseWrite(r) => r.as_bytes(),
            McuMailboxReq::FuseIncreaseCaliptraMinSvn(r) => r.as_bytes(),
            McuMailboxReq::FeProg(r) => r.as_bytes(),
            McuMailboxReq::GetAuthCmdChallenge(r) => r.as_bytes(),
            McuMailboxReq::FuseRevokeVendorPubKey(r) => r.as_bytes(),
            McuMailboxReq::ProvisionVendorPkHash(r) => r.as_bytes(),
            McuMailboxReq::FuseRevokeVendorPkHash(r) => r.as_bytes(),
            McuMailboxReq::OcpLockSetPermaHek(r) => r.as_bytes(),
            McuMailboxReq::OcpLockRotateHek(r) => r.as_bytes(),
            McuMailboxReq::ProvisionOwnerPkHash(r) => r.as_bytes(),
            McuMailboxReq::GetAttestation(r) => r.as_bytes(),
            McuMailboxReq::DotLock(r) => r.as_bytes(),
            McuMailboxReq::DotDisable(r) => r.as_bytes(),
            McuMailboxReq::DotRotate(r) => r.as_bytes(),
            McuMailboxReq::DotRecovery(r) => r.as_bytes(),
            McuMailboxReq::DotStatus(r) => r.as_bytes(),
            McuMailboxReq::DotUnlockChallenge(r) => r.as_bytes(),
            McuMailboxReq::GetDotBackupBlob(r) => r.as_bytes(),
        }
    }

    /// Sets the checksum of the request to that of the rest of its bytes
    /// under its command code; the kind and every other field are kept.
    pub fn populate_chksum(&mut self)
        ensures
            spec_req_kind(*final(self)) == spec_req_kind(*old(self)),
            spec_req_bytes(*final(self)) == with_checksum(
                spec_cmd_code(spec_req_kind(*old(self))).0,
                spec_req_bytes(*old(self)),
            ),
            spec_req_bytes(*final(self)).len() >= 4,
            from_le4(spec_req_bytes(*final(self)).take(4)) == mbox_checksum(
                spec_cmd_code(spec_req_kind(*final(self))).0,
                spec_req_bytes(*final(self)).skip(4),
            ),
    {
        let ghost before = spec_req_bytes(*self);
        let ghost code = spec_cmd_code(spec_req_kind(*self)).0;
        assert(before.len() >= 4);
        match self {
            McuMailboxReq::FuseRead(r) => r.populate_chksum(),
            McuMailboxReq::FuseLockPartition(r) => r.populate_chksum(),
            McuMailboxReq::FuseWrite(r) => r.populate_chksum(),
            McuMailboxReq::FuseIncreaseCaliptraMinSvn(r) => r.populate_chksum(),
            McuMailboxReq::FeProg(r) => r.populate_chksum(),
            McuMailboxReq::GetAuthCmdChallenge(r) => r.populate_chksum(),
            McuMailboxReq::FuseRevokeVendorPubKey(r) => r.populate_chksum(),
            McuMailboxReq::ProvisionVendorPkHash(r) => r.populate_chksum(),
            McuMailboxReq::FuseRevokeVendorPkHash(r) => r.populate_chksum(),
            McuMailboxReq::OcpLockSetPermaHek(r) => r.populate_chksum(),
            McuMailboxReq::OcpLockRotateHek(r) => r.populate_chksum(),
            McuMailboxReq::ProvisionOwnerPkHash(r) => r.populate_chksum(),
            McuMailboxReq::GetAttestation(r) => r.populate_chksum(),
            McuMailboxReq::DotLock(r) => r.populate_chksum(),
            McuMailboxReq::DotDisable(r) => r.populate_chksum(),
            McuMailboxReq::DotRotate(r) => r.populate_chksum(),
            McuMailboxReq::DotRecovery(r) => r.populate_chksum(),
            McuMailboxReq::DotStatus(r) => r.populate_chksum(),
            McuMailboxReq::DotUnlockChallenge(r) => r.populate_chksum(),
            McuMailboxReq::GetDotBackupBlob(r) => r.populate_chksum(),
        }
        proof {
            lemma_populated_message_verifies(code, before);
            lemma_le4(mbox_checksum(code, before.skip(4)));
        }
    }
}

} // verus!
