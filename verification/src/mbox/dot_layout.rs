//! The wire layout of the device ownership transfer requests: the checksum,
//! the DOT subcommand, then the subcommand's fields. All are sent with the
//! DOT family command code. The responses carry the header, then their
//! fields.
use crate::mbox::checksum::{calc_checksum, mbox_checksum, with_checksum};
use crate::mbox::layout::{word_at, MailboxRespHeader};
use crate::mbox::messages::CommandId;
use crate::mbox::request::{spec_cmd_code, McuMailboxReqKind};
use crate::wire::{
    append_bytes, array_of, from_le2, le2, le4, lemma_array_of, lemma_le2, lemma_le4, pad_copy, push_u16, push_u32,
    read_bytes, read_u16, read_u32,
};
use vstd::prelude::*;
use vstd::slice::slice_subrange;

verus! {

/// The checksum of a message's bytes after its checksum field.
fn rest_checksum(cmd: u32, bytes: &Vec<u8>) -> (r: u32)
    requires
        bytes@.len() >= 4,
    ensures
        r == mbox_checksum(cmd, bytes@.skip(4)),
{
    let len = bytes.len();
    let body = slice_subrange(bytes.as_slice(), 4, len);
    assert(body@ =~= bytes@.skip(4));
    calc_checksum(cmd, body)
}

/// DOT_LOCK: the checksum, the subcommand, then cak, lak hash.
#[derive(Debug, Clone, Copy)]
pub struct DotLockReq {
    pub chksum: u32,
    pub subcommand: u32,
    pub cak: [u8; 48],
    pub lak_hash: [u8; 48],
}

impl DotLockReq {
    /// The 104 bytes of the request.
    pub open spec fn spec_bytes(&self) -> Seq<u8> {
        le4(self.chksum) + le4(self.subcommand) + self.cak@ + self.lak_hash@
    }

    pub fn as_bytes(&self) -> (r: Vec<u8>)
        ensures
            r@ == self.spec_bytes(),
            r@.len() == 104,
    {
        let mut v: Vec<u8> = Vec::new();
        push_u32(&mut v, self.chksum);
        push_u32(&mut v, self.subcommand);
        append_bytes(&mut v, self.cak.as_slice());
        append_bytes(&mut v, self.lak_hash.as_slice());
        v
    }

    /// Sets the checksum to that of the rest of the request under the
    /// request's command code (the DOT family code).
    pub fn populate_chksum(&mut self)
        ensures
            final(self).spec_bytes() == with_checksum(spec_cmd_code(McuMailboxReqKind::DotLock).0, old(self).spec_bytes()),
            final(self).subcommand == old(self).subcommand,
            final(self).cak == old(self).cak,
            final(self).lak_hash == old(self).lak_hash,
    {
        proof {
            lemma_le4(self.chksum);
        }
        let code = McuMailboxReqKind::DotLock.cmd_code().0;
        let bytes = self.as_bytes();
        let chk = rest_checksum(code, &bytes);
        self.chksum = chk;
        proof {
            lemma_le4(chk);
        }
        assert(self.spec_bytes() =~= with_checksum(code, old(self).spec_bytes()));
    }
}

impl Default for DotLockReq {
    /// A zero request carrying its subcommand.
    fn default() -> (r: Self)
        ensures
            r.chksum == 0,
            r.subcommand == 0x4d44_4c4b,
            forall|i: int| 0 <= i < 48 ==> r.cak@[i] == 0u8,
            forall|i: int| 0 <= i < 48 ==> r.lak_hash@[i] == 0u8,
    {
        DotLockReq {
            chksum: 0,
            subcommand: CommandId::MC_DOT_LOCK().0,
            cak: [0u8; 48],
            lak_hash: [0u8; 48],
        }
    }
}

/// DOT_DISABLE: the checksum, the subcommand, then lak hash.
#[derive(Debug, Clone, Copy)]
pub struct DotDisableReq {
    pub chksum: u32,
    pub subcommand: u32,
    pub lak_hash: [u8; 48],
}

impl DotDisableReq {
    /// The 56 bytes of the request.
    pub open spec fn spec_bytes(&self) -> Seq<u8> {
        le4(self.chksum) + le4(self.subcommand) + self.lak_hash@
    }

    pub fn as_bytes(&self) -> (r: Vec<u8>)
        ensures
            r@ == self.spec_bytes(),
            r@.len() == 56,
    {
        let mut v: Vec<u8> = Vec::new();
        push_u32(&mut v, self.chksum);
        push_u32(&mut v, self.subcommand);
        append_bytes(&mut v, self.lak_hash.as_slice());
        v
    }

    /// Sets the checksum to that of the rest of the request under the
    /// request's command code (the DOT family code).
    pub fn populate_chksum(&mut self)
        ensures
            final(self).spec_bytes() == with_checksum(spec_cmd_code(McuMailboxReqKind::DotDisable).0, old(self).spec_bytes()),
            final(self).subcommand == old(self).subcommand,
            final(self).lak_hash == old(self).lak_hash,
    {
        proof {
            lemma_le4(self.chksum);
        }
        let code = McuMailboxReqKind::DotDisable.cmd_code().0;
        let bytes = self.as_bytes();
        let chk = rest_checksum(code, &bytes);
        self.chksum = chk;
        proof {
            lemma_le4(chk);
        }
        assert(self.spec_bytes() =~= with_checksum(code, old(self).spec_bytes()));
    }
}

impl Default for DotDisableReq {
    /// A zero request carrying its subcommand.
    fn default() -> (r: Self)
        ensures
            r.chksum == 0,
            r.subcommand == 0x4d44_4453,
            forall|i: int| 0 <= i < 48 ==> r.lak_hash@[i] == 0u8,
    {
        DotDisableReq {
            chksum: 0,
            subcommand: CommandId::MC_DOT_DISABLE().0,
            lak_hash: [0u8; 48],
        }
    }
}

/// DOT_ROTATE: the checksum, the subcommand, the min fuse count, then cak, lak hash.
#[derive(Debug, Clone, Copy)]
pub struct DotRotateReq {
    pub chksum: u32,
    pub subcommand: u32,
    pub min_fuse_count: u32,
    pub cak: [u8; 48],
    pub lak_hash: [u8; 48],
}

impl DotRotateReq {
    /// The 108 bytes of the request.
    pub open spec fn spec_bytes(&self) -> Seq<u8> {
        le4(self.chksum) + le4(self.subcommand) + le4(self.min_fuse_count) + self.cak@ + self.lak_hash@
    }

    pub fn as_bytes(&self) -> (r: Vec<u8>)
        ensures
            r@ == self.spec_bytes(),
            r@.len() == 108,
    {
        let mut v: Vec<u8> = Vec::new();
        push_u32(&mut v, self.chksum);
        push_u32(&mut v, self.subcommand);
        push_u32(&mut v, self.min_fuse_count);
        append_bytes(&mut v, self.cak.as_slice());
        append_bytes(&mut v, self.lak_hash.as_slice());
        v
    }

    /// Sets the checksum to that of the rest of the request under the
    /// request's command code (the DOT family code).
    pub fn populate_chksum(&mut self)
        ensures
            final(self).spec_bytes() == with_checksum(spec_cmd_code(McuMailboxReqKind::DotRotate).0, old(self).spec_bytes()),
            final(self).subcommand == old(self).subcommand,
            final(self).min_fuse_count == old(self).min_fuse_count,
            final(self).cak == old(self).cak,
            final(self).lak_hash == old(self).lak_hash,
    {
        proof {
            lemma_le4(self.chksum);
        }
        let code = McuMailboxReqKind::DotRotate.cmd_code().0;
        let bytes = self.as_bytes();
        let chk = rest_checksum(code, &bytes);
        self.chksum = chk;
        proof {
            lemma_le4(chk);
        }
        assert(self.spec_bytes() =~= with_checksum(code, old(self).spec_bytes()));
    }
}

impl Default for DotRotateReq {
    /// A zero request carrying its subcommand.
    fn default() -> (r: Self)
        ensures
            r.chksum == 0,
            r.subcommand == 0x4d44_5254,
            r.min_fuse_count == 0,
            forall|i: int| 0 <= i < 48 ==> r.cak@[i] == 0u8,
            forall|i: int| 0 <= i < 48 ==> r.lak_hash@[i] == 0u8,
    {
        DotRotateReq {
            chksum: 0,
            subcommand: CommandId::MC_DOT_ROTATE().0,
            min_fuse_count: 0,
            cak: [0u8; 48],
            lak_hash: [0u8; 48],
        }
    }
}

/// DOT_RECOVERY: the checksum, the subcommand, then blob.
#[derive(Debug, Clone, Copy)]
pub struct DotRecoveryReq {
    pub chksum: u32,
    pub subcommand: u32,
    pub blob: [u8; 168],
}

impl DotRecoveryReq {
    /// The 176 bytes of the request.
    pub open spec fn spec_bytes(&self) -> Seq<u8> {
        le4(self.chksum) + le4(self.subcommand) + self.blob@
    }

    pub fn as_bytes(&self) -> (r: Vec<u8>)
        ensures
            r@ == self.spec_bytes(),
            r@.len() == 176,
    {
        let mut v: Vec<u8> = Vec::new();
        push_u32(&mut v, self.chksum);
        push_u32(&mut v, self.subcommand);
        append_bytes(&mut v, self.blob.as_slice());
        v
    }

    /// Sets the checksum to that of the rest of the request under the
    /// request's command code (the DOT family code).
    pub fn populate_chksum(&mut self)
        ensures
            final(self).spec_bytes() == with_checksum(spec_cmd_code(McuMailboxReqKind::DotRecovery).0, old(self).spec_bytes()),
            final(self).subcommand == old(self).subcommand,
            final(self).blob == old(self).blob,
    {
        proof {
            lemma_le4(self.chksum);
        }
        let code = McuMailboxReqKind::DotRecovery.cmd_code().0;
        let bytes = self.as_bytes();
        let chk = rest_checksum(code, &bytes);
        self.chksum = chk;
        proof {
            lemma_le4(chk);
        }
        assert(self.spec_bytes() =~= with_checksum(code, old(self).spec_bytes()));
    }
}

impl Default for DotRecoveryReq {
    /// A zero request carrying its subcommand.
    fn default() -> (r: Self)
        ensures
            r.chksum == 0,
            r.subcommand == 0x4d44_5243,
            forall|i: int| 0 <= i < 168 ==> r.blob@[i] == 0u8,
    {
        DotRecoveryReq {
            chksum: 0,
            subcommand: CommandId::MC_DOT_RECOVERY().0,
            blob: [0u8; 168],
        }
    }
}

/// DOT_STATUS: the checksum, the subcommand.
#[derive(Debug, Clone, Copy)]
pub struct DotStatusReq {
    pub chksum: u32,
    pub subcommand: u32,
}

impl DotStatusReq {
    /// The 8 bytes of the request.
    pub open spec fn spec_bytes(&self) -> Seq<u8> {
        le4(self.chksum) + le4(self.subcommand)
    }

    pub fn as_bytes(&self) -> (r: Vec<u8>)
        ensures
            r@ == self.spec_bytes(),
            r@.len() == 8,
    {
        let mut v: Vec<u8> = Vec::new();
        push_u32(&mut v, self.chksum);
        push_u32(&mut v, self.subcommand);
        v
    }

    /// Sets the checksum to that of the rest of the request under the
    /// request's command code (the DOT family code).
    pub fn populate_chksum(&mut self)
        ensures
            final(self).spec_bytes() == with_checksum(spec_cmd_code(McuMailboxReqKind::DotStatus).0, old(self).spec_bytes()),
            final(self).subcommand == old(self).subcommand,
    {
        proof {
            lemma_le4(self.chksum);
        }
        let code = McuMailboxReqKind::DotStatus.cmd_code().0;
        let bytes = self.as_bytes();
        let chk = rest_checksum(code, &bytes);
        self.chksum = chk;
        proof {
            lemma_le4(chk);
        }
        assert(self.spec_bytes() =~= with_checksum(code, old(self).spec_bytes()));
    }
}

impl Default for DotStatusReq {
    /// A zero request carrying its subcommand.
    fn default() -> (r: Self)
        ensures
            r.chksum == 0,
            r.subcommand == 0x4d44_5354,
    {
        DotStatusReq {
            chksum: 0,
            subcommand: CommandId::MC_DOT_STATUS().0,
        }
    }
}

/// DOT_UNLOCK_CHALLENGE: the checksum, the subcommand.
#[derive(Debug, Clone, Copy)]
pub struct DotUnlockChallengeReq {
    pub chksum: u32,
    pub subcommand: u32,
}

impl DotUnlockChallengeReq {
    /// The 8 bytes of the request.
    pub open spec fn spec_bytes(&self) -> Seq<u8> {
        le4(self.chksum) + le4(self.subcommand)
    }

    pub fn as_bytes(&self) -> (r: Vec<u8>)
        ensures
            r@ == self.spec_bytes(),
            r@.len() == 8,
    {
        let mut v: Vec<u8> = Vec::new();
        push_u32(&mut v, self.chksum);
        push_u32(&mut v, self.subcommand);
        v
    }

    /// Sets the checksum to that of the rest of the request under the
    /// request's command code (the DOT family code).
    pub fn populate_chksum(&mut self)
        ensures
            final(self).spec_bytes() == with_checksum(spec_cmd_code(McuMailboxReqKind::DotUnlockChallenge).0, old(self).spec_bytes()),
            final(self).subcommand == old(self).subcommand,
    {
        proof {
            lemma_le4(self.chksum);
        }
        let code = McuMailboxReqKind::DotUnlockChallenge.cmd_code().0;
        let bytes = self.as_bytes();
        let chk = rest_checksum(code, &bytes);
        self.chksum = chk;
        proof {
            lemma_le4(chk);
        }
        assert(self.spec_bytes() =~= with_checksum(code, old(self).spec_bytes()));
    }
}

impl Default for DotUnlockChallengeReq {
    /// A zero request carrying its subcommand.
    fn default() -> (r: Self)
        ensures
            r.chksum == 0,
            r.subcommand == 0x4d44_5543,
    {
        DotUnlockChallengeReq {
            chksum: 0,
            subcommand: CommandId::MC_DOT_UNLOCK_CHALLENGE().0,
        }
    }
}

/// GET_DOT_BACKUP_BLOB: the checksum, the subcommand.
#[derive(Debug, Clone, Copy)]
pub struct GetDotBackupBlobReq {
    pub chksum: u32,
    pub subcommand: u32,
}

impl GetDotBackupBlobReq {
    /// The 8 bytes of the request.
    pub open spec fn spec_bytes(&self) -> Seq<u8> {
        le4(self.chksum) + le4(self.subcommand)
    }

    pub fn as_bytes(&self) -> (r: Vec<u8>)
        ensures
            r@ == self.spec_bytes(),
            r@.len() == 8,
    {
        let mut v: Vec<u8> = Vec::new();
        push_u32(&mut v, self.chksum);
        push_u32(&mut v, self.subcommand);
        v
    }

    /// Sets the checksum to that of the rest of the request under the
    /// request's command code (the DOT family code).
    pub fn populate_chksum(&mut self)
        ensures
            final(self).spec_bytes() == with_checksum(spec_cmd_code(McuMailboxReqKind::GetDotBackupBlob).0, old(self).spec_bytes()),
            final(self).subcommand == old(self).subcommand,
    {
        proof {
            lemma_le4(self.chksum);
        }
        let code = McuMailboxReqKind::GetDotBackupBlob.cmd_code().0;
        let bytes = self.as_bytes();
        let chk = rest_checksum(code, &bytes);
        self.chksum = chk;
        proof {
            lemma_le4(chk);
        }
        assert(self.spec_bytes() =~= with_checksum(code, old(self).spec_bytes()));
    }
}

impl Default for GetDotBackupBlobReq {
    /// A zero request carrying its subcommand.
    fn default() -> (r: Self)
        ensures
            r.chksum == 0,
            r.subcommand == 0x4d44_4242,
    {
        GetDotBackupBlobReq {
            chksum: 0,
            subcommand: CommandId::MC_GET_DOT_BACKUP_BLOB().0,
        }
    }
}

/// The response to DOT_STATUS: the header, then whether DOT is enabled and
/// locked, and how many fuses are burned.
#[derive(Debug, Clone, Copy, PartialEq, Eq, Structural)]
pub struct DotStatusResp {
    pub hdr: MailboxRespHeader,
    pub enabled: u8,
    pub locked: u8,
    pub burned: u16,
}

impl DotStatusResp {
    /// The 12 bytes of the response.
    pub open spec fn spec_bytes(&self) -> Seq<u8> {
        self.hdr.spec_bytes() + seq![self.enabled, self.locked] + le2(self.burned)
    }

    /// The response read from exactly 12 bytes.
    pub open spec fn spec_from_bytes(bytes: Seq<u8>) -> Option<DotStatusResp> {
        if bytes.len() == 12 {
            Some(
                DotStatusResp {
                    hdr: MailboxRespHeader { chksum: word_at(bytes, 0), fips_status: word_at(bytes, 4) },
                    enabled: bytes[8],
                    locked: bytes[9],
                    burned: from_le2(bytes.subrange(10, 12)),
                },
            )
        } else {
            None
        }
    }

    pub fn as_bytes(&self) -> (r: Vec<u8>)
        ensures
            r@ == self.spec_bytes(),
            r@.len() == 12,
    {
        let mut v = self.hdr.as_bytes();
        v.push(self.enabled);
        v.push(self.locked);
        push_u16(&mut v, self.burned);
        proof {
            lemma_le4(self.hdr.chksum);
            lemma_le4(self.hdr.fips_status);
            lemma_le2(self.burned);
        }
        assert(v@ =~= self.spec_bytes());
        v
    }

    pub fn read_from_bytes(bytes: &[u8]) -> (r: Option<DotStatusResp>)
        ensures
            r == Self::spec_from_bytes(bytes@),
    {
        if bytes.len() != 12 {
            return None;
        }
        Some(
            DotStatusResp {
                hdr: MailboxRespHeader { chksum: read_u32(bytes, 0), fips_status: read_u32(bytes, 4) },
                enabled: bytes[8],
                locked: bytes[9],
                burned: read_u16(bytes, 10),
            },
        )
    }

    /// Reading the bytes of a response gives it back.
    pub proof fn lemma_roundtrip(&self)
        ensures
            Self::spec_from_bytes(self.spec_bytes()) == Some(*self),
    {
        lemma_le4(self.hdr.chksum);
        lemma_le4(self.hdr.fips_status);
        lemma_le2(self.burned);
        let b = self.spec_bytes();
        assert(b.subrange(0, 4) =~= le4(self.hdr.chksum));
        assert(b.subrange(4, 8) =~= le4(self.hdr.fips_status));
        assert(b.subrange(10, 12) =~= le2(self.burned));
    }
}

/// The response to DOT_UNLOCK_CHALLENGE: the header, then the 48-byte
/// challenge.
#[derive(Debug, Clone, Copy)]
pub struct DotUnlockChallengeResp {
    pub hdr: MailboxRespHeader,
    pub challenge: [u8; 48],
}

impl DotUnlockChallengeResp {
    /// The 56 bytes of the response.
    pub open spec fn spec_bytes(&self) -> Seq<u8> {
        self.hdr.spec_bytes() + self.challenge@
    }

    /// The response read from exactly 56 bytes.
    pub open spec fn spec_from_bytes(bytes: Seq<u8>) -> Option<DotUnlockChallengeResp> {
        if bytes.len() == 56 {
            Some(
                DotUnlockChallengeResp {
                    hdr: MailboxRespHeader { chksum: word_at(bytes, 0), fips_status: word_at(bytes, 4) },
                    challenge: array_of::<48>(bytes.subrange(8, 56)),
                },
            )
        } else {
            None
        }
    }

    pub fn as_bytes(&self) -> (r: Vec<u8>)
        ensures
            r@ == self.spec_bytes(),
            r@.len() == 56,
    {
        let mut v = self.hdr.as_bytes();
        append_bytes(&mut v, self.challenge.as_slice());
        proof {
            lemma_le4(self.hdr.chksum);
            lemma_le4(self.hdr.fips_status);
        }
        v
    }

    pub fn read_from_bytes(bytes: &[u8]) -> (r: Option<DotUnlockChallengeResp>)
        ensures
            r == Self::spec_from_bytes(bytes@),
    {
        if bytes.len() != 56 {
            return None;
        }
        let raw = read_bytes(bytes, 8, 48);
        let challenge = pad_copy::<48>(raw.as_slice());
        proof {
            assert(challenge@ =~= bytes@.subrange(8, 56));
            lemma_array_of::<48>(challenge);
        }
        Some(
            DotUnlockChallengeResp {
                hdr: MailboxRespHeader { chksum: read_u32(bytes, 0), fips_status: read_u32(bytes, 4) },
                challenge,
            },
        )
    }

    /// Reading the bytes of a response gives it back.
    pub proof fn lemma_roundtrip(&self)
        ensures
            Self::spec_from_bytes(self.spec_bytes()) == Some(*self),
    {
        lemma_le4(self.hdr.chksum);
        lemma_le4(self.hdr.fips_status);
        lemma_array_of::<48>(self.challenge);
        let b = self.spec_bytes();
        assert(b.subrange(0, 4) =~= le4(self.hdr.chksum));
        assert(b.subrange(4, 8) =~= le4(self.hdr.fips_status));
        assert(b.subrange(8, 56) =~= self.challenge@);
    }
}

/// The response to GET_DOT_BACKUP_BLOB: the header, then the 168-byte blob.
#[derive(Debug, Clone, Copy)]
pub struct GetDotBackupBlobResp {
    pub hdr: MailboxRespHeader,
    pub blob: [u8; 168],
}

impl GetDotBackupBlobResp {
    /// The 176 bytes of the response.
    pub open spec fn spec_bytes(&self) -> Seq<u8> {
        self.hdr.spec_bytes() + self.blob@
    }

    /// The response read from exactly 176 bytes.
    pub open spec fn spec_from_bytes(bytes: Seq<u8>) -> Option<GetDotBackupBlobResp> {
        if bytes.len() == 176 {
            Some(
                GetDotBackupBlobResp {
                    hdr: MailboxRespHeader { chksum: word_at(bytes, 0), fips_status: word_at(bytes, 4) },
                    blob: array_of::<168>(bytes.subrange(8, 176)),
                },
            )
        } else {
            None
        }
    }

    pub fn as_bytes(&self) -> (r: Vec<u8>)
        ensures
            r@ == self.spec_bytes(),
            r@.len() == 176,
    {
        let mut v = self.hdr.as_bytes();
        append_bytes(&mut v, self.blob.as_slice());
        proof {
            lemma_le4(self.hdr.chksum);
            lemma_le4(self.hdr.fips_status);
        }
        v
    }

    pub fn read_from_bytes(bytes: &[u8]) -> (r: Option<GetDotBackupBlobResp>)
        ensures
            r == Self::spec_from_bytes(bytes@),
    {
        if bytes.len() != 176 {
            return None;
        }
        let raw = read_bytes(bytes, 8, 168);
        let blob = pad_copy::<168>(raw.as_slice());
        proof {
            assert(blob@ =~= bytes@.subrange(8, 176));
            lemma_array_of::<168>(blob);
        }
        Some(
            GetDotBackupBlobResp {
                hdr: MailboxRespHeader { chksum: read_u32(bytes, 0), fips_status: read_u32(bytes, 4) },
                blob,
            },
        )
    }

    /// Reading the bytes of a response gives it back.
    pub proof fn lemma_roundtrip(&self)
        ensures
            Self::spec_from_bytes(self.spec_bytes()) == Some(*self),
    {
        lemma_le4(self.hdr.chksum);
        lemma_le4(self.hdr.fips_status);
        lemma_array_of::<168>(self.blob);
        let b = self.spec_bytes();
        assert(b.subrange(0, 4) =~= le4(self.hdr.chksum));
        assert(b.subrange(4, 8) =~= le4(self.hdr.fips_status));
        assert(b.subrange(8, 176) =~= self.blob@);
    }
}

/// The response to DOT_LOCK: the header, then whether a reset is required to
/// commit the transition.
#[derive(Debug, Clone, Copy, PartialEq, Eq, Structural)]
pub struct DotLockResp {
    pub hdr: MailboxRespHeader,
    pub reset_required: u32,
}

impl DotLockResp {
    /// The 12 bytes of the response.
    pub open spec fn spec_bytes(&self) -> Seq<u8> {
        self.hdr.spec_bytes() + le4(self.reset_required)
    }

    /// The response read from exactly 12 bytes.
    pub open spec fn spec_from_bytes(bytes: Seq<u8>) -> Option<DotLockResp> {
        if bytes.len() == 12 {
            Some(
                DotLockResp {
                    hdr: MailboxRespHeader { chksum: word_at(bytes, 0), fips_status: word_at(bytes, 4) },
                    reset_required: word_at(bytes, 8),
                },
            )
        } else {
            None
        }
    }

    pub fn as_bytes(&self) -> (r: Vec<u8>)
        ensures
            r@ == self.spec_bytes(),
            r@.len() == 12,
    {
        let mut v = self.hdr.as_bytes();
        push_u32(&mut v, self.reset_required);
        proof {
            lemma_le4(self.hdr.chksum);
            lemma_le4(self.hdr.fips_status);
            lemma_le4(self.reset_required);
        }
        v
    }

    pub fn read_from_bytes(bytes: &[u8]) -> (r: Option<DotLockResp>)
        ensures
            r == Self::spec_from_bytes(bytes@),
    {
        if bytes.len() != 12 {
            return None;
        }
        Some(
            DotLockResp {
                hdr: MailboxRespHeader { chksum: read_u32(bytes, 0), fips_status: read_u32(bytes, 4) },
                reset_required: read_u32(bytes, 8),
            },
        )
    }

    /// Reading the bytes of a response gives it back.
    pub proof fn lemma_roundtrip(&self)
        ensures
            Self::spec_from_bytes(self.spec_bytes()) == Some(*self),
    {
        lemma_le4(self.hdr.chksum);
        lemma_le4(self.hdr.fips_status);
        lemma_le4(self.reset_required);
        let b = self.spec_bytes();
        assert(b.subrange(0, 4) =~= le4(self.hdr.chksum));
        assert(b.subrange(4, 8) =~= le4(self.hdr.fips_status));
        assert(b.subrange(8, 12) =~= le4(self.reset_required));
    }
}

/// The response to DOT_DISABLE: the header, then whether a reset is required to
/// commit the transition.
#[derive(Debug, Clone, Copy, PartialEq, Eq, Structural)]
pub struct DotDisableResp {
    pub hdr: MailboxRespHeader,
    pub reset_required: u32,
}

impl DotDisableResp {
    /// The 12 bytes of the response.
    pub open spec fn spec_bytes(&self) -> Seq<u8> {
        self.hdr.spec_bytes() + le4(self.reset_required)
    }

    /// The response read from exactly 12 bytes.
    pub open spec fn spec_from_bytes(bytes: Seq<u8>) -> Option<DotDisableResp> {
        if bytes.len() == 12 {
            Some(
                DotDisableResp {
                    hdr: MailboxRespHeader { chksum: word_at(bytes, 0), fips_status: word_at(bytes, 4) },
                    reset_required: word_at(bytes, 8),
                },
            )
        } else {
            None
        }
    }

    pub fn as_bytes(&self) -> (r: Vec<u8>)
        ensures
            r@ == self.spec_bytes(),
            r@.len() == 12,
    {
        let mut v = self.hdr.as_bytes();
        push_u32(&mut v, self.reset_required);
        proof {
            lemma_le4(self.hdr.chksum);
            lemma_le4(self.hdr.fips_status);
            lemma_le4(self.reset_required);
        }
        v
    }

    pub fn read_from_bytes(bytes: &[u8]) -> (r: Option<DotDisableResp>)
        ensures
            r == Self::spec_from_bytes(bytes@),
    {
        if bytes.len() != 12 {
            return None;
        }
        Some(
            DotDisableResp {
                hdr: MailboxRespHeader { chksum: read_u32(bytes, 0), fips_status: read_u32(bytes, 4) },
                reset_required: read_u32(bytes, 8),
            },
        )
    }

    /// Reading the bytes of a response gives it back.
    pub proof fn lemma_roundtrip(&self)
        ensures
            Self::spec_from_bytes(self.spec_bytes()) == Some(*self),
    {
        lemma_le4(self.hdr.chksum);
        lemma_le4(self.hdr.fips_status);
        lemma_le4(self.reset_required);
        let b = self.spec_bytes();
        assert(b.subrange(0, 4) =~= le4(self.hdr.chksum));
        assert(b.subrange(4, 8) =~= le4(self.hdr.fips_status));
        assert(b.subrange(8, 12) =~= le4(self.reset_required));
    }
}

/// The response to DOT_ROTATE: the header, then whether a reset is required to
/// commit the transition.
#[derive(Debug, Clone, Copy, PartialEq, Eq, Structural)]
pub struct DotRotateResp {
    pub hdr: MailboxRespHeader,
    pub reset_required: u32,
}

impl DotRotateResp {
    /// The 12 bytes of the response.
    pub open spec fn spec_bytes(&self) -> Seq<u8> {
        self.hdr.spec_bytes() + le4(self.reset_required)
    }

    /// The response read from exactly 12 bytes.
    pub open spec fn spec_from_bytes(bytes: Seq<u8>) -> Option<DotRotateResp> {
        if bytes.len() == 12 {
            Some(
                DotRotateResp {
                    hdr: MailboxRespHeader { chksum: word_at(bytes, 0), fips_status: word_at(bytes, 4) },
                    reset_required: word_at(bytes, 8),
                },
            )
        } else {
            None
        }
    }

    pub fn as_bytes(&self) -> (r: Vec<u8>)
        ensures
            r@ == self.spec_bytes(),
            r@.len() == 12,
    {
        let mut v = self.hdr.as_bytes();
        push_u32(&mut v, self.reset_required);
        proof {
            lemma_le4(self.hdr.chksum);
            lemma_le4(self.hdr.fips_status);
            lemma_le4(self.reset_required);
        }
        v
    }

    pub fn read_from_bytes(bytes: &[u8]) -> (r: Option<DotRotateResp>)
        ensures
            r == Self::spec_from_bytes(bytes@),
    {
        if bytes.len() != 12 {
            return None;
        }
        Some(
            DotRotateResp {
                hdr: MailboxRespHeader { chksum: read_u32(bytes, 0), fips_status: read_u32(bytes, 4) },
                reset_required: read_u32(bytes, 8),
            },
        )
    }

    /// Reading the bytes of a response gives it back.
    pub proof fn lemma_roundtrip(&self)
        ensures
            Self::spec_from_bytes(self.spec_bytes()) == Some(*self),
    {
        lemma_le4(self.hdr.chksum);
        lemma_le4(self.hdr.fips_status);
        lemma_le4(self.reset_required);
        let b = self.spec_bytes();
        assert(b.subrange(0, 4) =~= le4(self.hdr.chksum));
        assert(b.subrange(4, 8) =~= le4(self.hdr.fips_status));
        assert(b.subrange(8, 12) =~= le4(self.reset_required));
    }
}

/// The response to DOT_RECOVERY: the header, then whether a reset is required to
/// commit the transition.
#[derive(Debug, Clone, Copy, PartialEq, Eq, Structural)]
pub struct DotRecoveryResp {
    pub hdr: MailboxRespHeader,
    pub reset_required: u32,
}

impl DotRecoveryResp {
    /// The 12 bytes of the response.
    pub open spec fn spec_bytes(&self) -> Seq<u8> {
        self.hdr.spec_bytes() + le4(self.reset_required)
    }

    /// The response read from exactly 12 bytes.
    pub open spec fn spec_from_bytes(bytes: Seq<u8>) -> Option<DotRecoveryResp> {
        if bytes.len() == 12 {
            Some(
                DotRecoveryResp {
                    hdr: MailboxRespHeader { chksum: word_at(bytes, 0), fips_status: word_at(bytes, 4) },
                    reset_required: word_at(bytes, 8),
                },
            )
        } else {
            None
        }
    }

    pub fn as_bytes(&self) -> (r: Vec<u8>)
        ensures
            r@ == self.spec_bytes(),
            r@.len() == 12,
    {
        let mut v = self.hdr.as_bytes();
        push_u32(&mut v, self.reset_required);
        proof {
            lemma_le4(self.hdr.chksum);
            lemma_le4(self.hdr.fips_status);
            lemma_le4(self.reset_required);
        }
        v
    }

    pub fn read_from_bytes(bytes: &[u8]) -> (r: Option<DotRecoveryResp>)
        ensures
            r == Self::spec_from_bytes(bytes@),
    {
        if bytes.len() != 12 {
            return None;
        }
        Some(
            DotRecoveryResp {
                hdr: MailboxRespHeader { chksum: read_u32(bytes, 0), fips_status: read_u32(bytes, 4) },
                reset_required: read_u32(bytes, 8),
            },
        )
    }

    /// Reading the bytes of a response gives it back.
    pub proof fn lemma_roundtrip(&self)
        ensures
            Self::spec_from_bytes(self.spec_bytes()) == Some(*self),
    {
        lemma_le4(self.hdr.chksum);
        lemma_le4(self.hdr.fips_status);
        lemma_le4(self.reset_required);
        let b = self.spec_bytes();
        assert(b.subrange(0, 4) =~= le4(self.hdr.chksum));
        assert(b.subrange(4, 8) =~= le4(self.hdr.fips_status));
        assert(b.subrange(8, 12) =~= le4(self.reset_required));
    }
}

/// The response to DOT_OVERRIDE: the header, then whether a reset is required to
/// commit the transition.
#[derive(Debug, Clone, Copy, PartialEq, Eq, Structural)]
pub struct DotOverrideResp {
    pub hdr: MailboxRespHeader,
    pub reset_required: u32,
}

impl DotOverrideResp {
    /// The 12 bytes of the response.
    pub open spec fn spec_bytes(&self) -> Seq<u8> {
        self.hdr.spec_bytes() + le4(self.reset_required)
    }

    /// The response read from exactly 12 bytes.
    pub open spec fn spec_from_bytes(bytes: Seq<u8>) -> Option<DotOverrideResp> {
        if bytes.len() == 12 {
            Some(
                DotOverrideResp {
                    hdr: MailboxRespHeader { chksum: word_at(bytes, 0), fips_status: word_at(bytes, 4) },
                    reset_required: word_at(bytes, 8),
                },
            )
        } else {
            None
        }
    }

    pub fn as_bytes(&self) -> (r: Vec<u8>)
        ensures
            r@ == self.spec_bytes(),
            r@.len() == 12,
    {
        let mut v = self.hdr.as_bytes();
        push_u32(&mut v, self.reset_required);
        proof {
            lemma_le4(self.hdr.chksum);
            lemma_le4(self.hdr.fips_status);
            lemma_le4(self.reset_required);
        }
        v
    }

    pub fn read_from_bytes(bytes: &[u8]) -> (r: Option<DotOverrideResp>)
        ensures
            r == Self::spec_from_bytes(bytes@),
    {
        if bytes.len() != 12 {
            return None;
        }
        Some(
            DotOverrideResp {
                hdr: MailboxRespHeader { chksum: read_u32(bytes, 0), fips_status: read_u32(bytes, 4) },
                reset_required: read_u32(bytes, 8),
            },
        )
    }

    /// Reading the bytes of a response gives it back.
    pub proof fn lemma_roundtrip(&self)
        ensures
            Self::spec_from_bytes(self.spec_bytes()) == Some(*self),
    {
        lemma_le4(self.hdr.chksum);
        lemma_le4(self.hdr.fips_status);
        lemma_le4(self.reset_required);
        let b = self.spec_bytes();
        assert(b.subrange(0, 4) =~= le4(self.hdr.chksum));
        assert(b.subrange(4, 8) =~= le4(self.hdr.fips_status));
        assert(b.subrange(8, 12) =~= le4(self.reset_required));
    }
}

/// The response to DOT_UNLOCK: the header, then whether a reset is required to
/// commit the transition.
#[derive(Debug, Clone, Copy, PartialEq, Eq, Structural)]
pub struct DotUnlockResp {
    pub hdr: MailboxRespHeader,
    pub reset_required: u32,
}

impl DotUnlockResp {
    /// The 12 bytes of the response.
    pub open spec fn spec_bytes(&self) -> Seq<u8> {
        self.hdr.spec_bytes() + le4(self.reset_required)
    }

    /// The response read from exactly 12 bytes.
    pub open spec fn spec_from_bytes(bytes: Seq<u8>) -> Option<DotUnlockResp> {
        if bytes.len() == 12 {
            Some(
                DotUnlockResp {
                    hdr: MailboxRespHeader { chksum: word_at(bytes, 0), fips_status: word_at(bytes, 4) },
                    reset_required: word_at(bytes, 8),
                },
            )
        } else {
            None
        }
    }

    pub fn as_bytes(&self) -> (r: Vec<u8>)
        ensures
            r@ == self.spec_bytes(),
            r@.len() == 12,
    {
        let mut v = self.hdr.as_bytes();
        push_u32(&mut v, self.reset_required);
        proof {
            lemma_le4(self.hdr.chksum);
            lemma_le4(self.hdr.fips_status);
            lemma_le4(self.reset_required);
        }
        v
    }

    pub fn read_from_bytes(bytes: &[u8]) -> (r: Option<DotUnlockResp>)
        ensures
            r == Self::spec_from_bytes(bytes@),
    {
        if bytes.len() != 12 {
            return None;
        }
        Some(
            DotUnlockResp {
                hdr: MailboxRespHeader { chksum: read_u32(bytes, 0), fips_status: read_u32(bytes, 4) },
                reset_required: read_u32(bytes, 8),
            },
        )
    }

    /// Reading the bytes of a response gives it back.
    pub proof fn lemma_roundtrip(&self)
        ensures
            Self::spec_from_bytes(self.spec_bytes()) == Some(*self),
    {
        lemma_le4(self.hdr.chksum);
        lemma_le4(self.hdr.fips_status);
        lemma_le4(self.reset_required);
        let b = self.spec_bytes();
        assert(b.subrange(0, 4) =~= le4(self.hdr.chksum));
        assert(b.subrange(4, 8) =~= le4(self.hdr.fips_status));
        assert(b.subrange(8, 12) =~= le4(self.reset_required));
    }
}

} // verus!
