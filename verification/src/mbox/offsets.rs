//! Where each field of the mailbox messages stands in their bytes: its
//! offset and width, read back from the bytes of the message.
use crate::mbox::layout::{FuseLockPartitionReq, FuseReadReq, FuseReadResp, GetAttestationReq, MailboxRespHeader, ProvisionOwnerPkHashReq};
use crate::mbox::dot_layout::{DotDisableReq, DotDisableResp, DotLockReq, DotLockResp, DotOverrideResp, DotRecoveryReq, DotRecoveryResp, DotRotateReq, DotRotateResp, DotStatusReq, DotStatusResp, DotUnlockChallengeReq, DotUnlockChallengeResp, DotUnlockResp, GetDotBackupBlobReq, GetDotBackupBlobResp};
use crate::mbox::fuse_layout::{FuseIncreaseCaliptraMinSvnReq, FuseRevokeVendorPkHashReq, FuseRevokeVendorPubKeyReq, FuseWriteReq, GetAuthCmdChallengeReq, McuFeProgReq, OcpLockRotateHekReq, OcpLockSetPermaHekReq, ProvisionVendorPkHashReq};
use crate::wire::{from_le2, from_le4, le2, le4, lemma_le2, lemma_le4};
use vstd::prelude::*;

verus! {

/// The bytes of MailboxRespHeader: 8 in all, chksum at 0, fips_status at 4; integers little-endian.
pub proof fn lemma_mailbox_resp_header_offsets(x: MailboxRespHeader)
    ensures
        x.spec_bytes().len() == 8,
        from_le4(x.spec_bytes().subrange(0, 4)) == x.chksum,
        from_le4(x.spec_bytes().subrange(4, 8)) == x.fips_status,
{
    lemma_le4(x.chksum);
    assert(x.spec_bytes().subrange(0, 4) =~= le4(x.chksum));
    lemma_le4(x.fips_status);
    assert(x.spec_bytes().subrange(4, 8) =~= le4(x.fips_status));
}

/// The bytes of FuseReadReq: 12 in all, chksum at 0, partition at 4, entry at 8; integers little-endian.
pub proof fn lemma_fuse_read_req_offsets(x: FuseReadReq)
    ensures
        x.spec_bytes().len() == 12,
        from_le4(x.spec_bytes().subrange(0, 4)) == x.hdr.chksum,
        from_le4(x.spec_bytes().subrange(4, 8)) == x.partition,
        from_le4(x.spec_bytes().subrange(8, 12)) == x.entry,
{
    lemma_le4(x.hdr.chksum);
    assert(x.spec_bytes().subrange(0, 4) =~= le4(x.hdr.chksum));
    lemma_le4(x.partition);
    assert(x.spec_bytes().subrange(4, 8) =~= le4(x.partition));
    lemma_le4(x.entry);
    assert(x.spec_bytes().subrange(8, 12) =~= le4(x.entry));
}

/// The bytes of FuseLockPartitionReq: 8 in all, chksum at 0, partition at 4; integers little-endian.
pub proof fn lemma_fuse_lock_partition_req_offsets(x: FuseLockPartitionReq)
    ensures
        x.spec_bytes().len() == 8,
        from_le4(x.spec_bytes().subrange(0, 4)) == x.hdr.chksum,
        from_le4(x.spec_bytes().subrange(4, 8)) == x.partition,
{
    lemma_le4(x.hdr.chksum);
    assert(x.spec_bytes().subrange(0, 4) =~= le4(x.hdr.chksum));
    lemma_le4(x.partition);
    assert(x.spec_bytes().subrange(4, 8) =~= le4(x.partition));
}

/// The bytes of ProvisionOwnerPkHashReq: 52 in all, chksum at 0, hash at 4; integers little-endian.
pub proof fn lemma_provision_owner_pk_hash_req_offsets(x: ProvisionOwnerPkHashReq)
    ensures
        x.spec_bytes().len() == 52,
        from_le4(x.spec_bytes().subrange(0, 4)) == x.hdr.chksum,
        x.spec_bytes().subrange(4, 52) == x.hash@,
{
    lemma_le4(x.hdr.chksum);
    assert(x.spec_bytes().subrange(0, 4) =~= le4(x.hdr.chksum));
    assert(x.spec_bytes().subrange(4, 52) =~= x.hash@);
}

/// The bytes of GetAttestationReq: 48 in all, chksum at 0, evidence_format at 4, algorithm at 8, pki_entity_slot at 12, nonce at 16; integers little-endian.
pub proof fn lemma_get_attestation_req_offsets(x: GetAttestationReq)
    ensures
        x.spec_bytes().len() == 48,
        from_le4(x.spec_bytes().subrange(0, 4)) == x.hdr.chksum,
        from_le4(x.spec_bytes().subrange(4, 8)) == x.evidence_format,
        from_le4(x.spec_bytes().subrange(8, 12)) == x.algorithm,
        from_le4(x.spec_bytes().subrange(12, 16)) == x.pki_entity_slot,
        x.spec_bytes().subrange(16, 48) == x.nonce@,
{
    lemma_le4(x.hdr.chksum);
    assert(x.spec_bytes().subrange(0, 4) =~= le4(x.hdr.chksum));
    lemma_le4(x.evidence_format);
    assert(x.spec_bytes().subrange(4, 8) =~= le4(x.evidence_format));
    lemma_le4(x.algorithm);
    assert(x.spec_bytes().subrange(8, 12) =~= le4(x.algorithm));
    lemma_le4(x.pki_entity_slot);
    assert(x.spec_bytes().subrange(12, 16) =~= le4(x.pki_entity_slot));
    assert(x.spec_bytes().subrange(16, 48) =~= x.nonce@);
}

/// The bytes of FuseReadResp: 144 in all, chksum at 0, fips_status at 4, data_len at 8, length_bits at 12, data at 16; integers little-endian.
pub proof fn lemma_fuse_read_resp_offsets(x: FuseReadResp)
    ensures
        x.spec_bytes().len() == 144,
        from_le4(x.spec_bytes().subrange(0, 4)) == x.hdr.chksum,
        from_le4(x.spec_bytes().subrange(4, 8)) == x.hdr.fips_status,
        from_le4(x.spec_bytes().subrange(8, 12)) == x.data_len,
        from_le4(x.spec_bytes().subrange(12, 16)) == x.length_bits,
        x.spec_bytes().subrange(16, 144) == x.data@,
{
    lemma_le4(x.hdr.chksum);
    assert(x.spec_bytes().subrange(0, 4) =~= le4(x.hdr.chksum));
    lemma_le4(x.hdr.fips_status);
    assert(x.spec_bytes().subrange(4, 8) =~= le4(x.hdr.fips_status));
    lemma_le4(x.data_len);
    assert(x.spec_bytes().subrange(8, 12) =~= le4(x.data_len));
    lemma_le4(x.length_bits);
    assert(x.spec_bytes().subrange(12, 16) =~= le4(x.length_bits));
    assert(x.spec_bytes().subrange(16, 144) =~= x.data@);
}

/// The bytes of DotLockReq: 104 in all, chksum at 0, subcommand at 4, cak at 8, lak_hash at 56; integers little-endian.
pub proof fn lemma_dot_lock_req_offsets(x: DotLockReq)
    ensures
        x.spec_bytes().len() == 104,
        from_le4(x.spec_bytes().subrange(0, 4)) == x.chksum,
        from_le4(x.spec_bytes().subrange(4, 8)) == x.subcommand,
        x.spec_bytes().subrange(8, 56) == x.cak@,
        x.spec_bytes().subrange(56, 104) == x.lak_hash@,
{
    lemma_le4(x.chksum);
    assert(x.spec_bytes().subrange(0, 4) =~= le4(x.chksum));
    lemma_le4(x.subcommand);
    assert(x.spec_bytes().subrange(4, 8) =~= le4(x.subcommand));
    assert(x.spec_bytes().subrange(8, 56) =~= x.cak@);
    assert(x.spec_bytes().subrange(56, 104) =~= x.lak_hash@);
}

/// The bytes of DotDisableReq: 56 in all, chksum at 0, subcommand at 4, lak_hash at 8; integers little-endian.
pub proof fn lemma_dot_disable_req_offsets(x: DotDisableReq)
    ensures
        x.spec_bytes().len() == 56,
        from_le4(x.spec_bytes().subrange(0, 4)) == x.chksum,
        from_le4(x.spec_bytes().subrange(4, 8)) == x.subcommand,
        x.spec_bytes().subrange(8, 56) == x.lak_hash@,
{
    lemma_le4(x.chksum);
    assert(x.spec_bytes().subrange(0, 4) =~= le4(x.chksum));
    lemma_le4(x.subcommand);
    assert(x.spec_bytes().subrange(4, 8) =~= le4(x.subcommand));
    assert(x.spec_bytes().subrange(8, 56) =~= x.lak_hash@);
}

/// The bytes of DotRotateReq: 108 in all, chksum at 0, subcommand at 4, min_fuse_count at 8, cak at 12, lak_hash at 60; integers little-endian.
pub proof fn lemma_dot_rotate_req_offsets(x: DotRotateReq)
    ensures
        x.spec_bytes().len() == 108,
        from_le4(x.spec_bytes().subrange(0, 4)) == x.chksum,
        from_le4(x.spec_bytes().subrange(4, 8)) == x.subcommand,
        from_le4(x.spec_bytes().subrange(8, 12)) == x.min_fuse_count,
        x.spec_bytes().subrange(12, 60) == x.cak@,
        x.spec_bytes().subrange(60, 108) == x.lak_hash@,
{
    lemma_le4(x.chksum);
    assert(x.spec_bytes().subrange(0, 4) =~= le4(x.chksum));
    lemma_le4(x.subcommand);
    assert(x.spec_bytes().subrange(4, 8) =~= le4(x.subcommand));
    lemma_le4(x.min_fuse_count);
    assert(x.spec_bytes().subrange(8, 12) =~= le4(x.min_fuse_count));
    assert(x.spec_bytes().subrange(12, 60) =~= x.cak@);
    assert(x.spec_bytes().subrange(60, 108) =~= x.lak_hash@);
}

/// The bytes of DotRecoveryReq: 176 in all, chksum at 0, subcommand at 4, blob at 8; integers little-endian.
pub proof fn lemma_dot_recovery_req_offsets(x: DotRecoveryReq)
    ensures
        x.spec_bytes().len() == 176,
        from_le4(x.spec_bytes().subrange(0, 4)) == x.chksum,
        from_le4(x.spec_bytes().subrange(4, 8)) == x.subcommand,
        x.spec_bytes().subrange(8, 176) == x.blob@,
{
    lemma_le4(x.chksum);
    assert(x.spec_bytes().subrange(0, 4) =~= le4(x.chksum));
    lemma_le4(x.subcommand);
    assert(x.spec_bytes().subrange(4, 8) =~= le4(x.subcommand));
    assert(x.spec_bytes().subrange(8, 176) =~= x.blob@);
}

/// The bytes of DotStatusReq: 8 in all, chksum at 0, subcommand at 4; integers little-endian.
pub proof fn lemma_dot_status_req_offsets(x: DotStatusReq)
    ensures
        x.spec_bytes().len() == 8,
        from_le4(x.spec_bytes().subrange(0, 4)) == x.chksum,
        from_le4(x.spec_bytes().subrange(4, 8)) == x.subcommand,
{
    lemma_le4(x.chksum);
    assert(x.spec_bytes().subrange(0, 4) =~= le4(x.chksum));
    lemma_le4(x.subcommand);
    assert(x.spec_bytes().subrange(4, 8) =~= le4(x.subcommand));
}

/// The bytes of DotUnlockChallengeReq: 8 in all, chksum at 0, subcommand at 4; integers little-endian.
pub proof fn lemma_dot_unlock_challenge_req_offsets(x: DotUnlockChallengeReq)
    ensures
        x.spec_bytes().len() == 8,
        from_le4(x.spec_bytes().subrange(0, 4)) == x.chksum,
        from_le4(x.spec_bytes().subrange(4, 8)) == x.subcommand,
{
    lemma_le4(x.chksum);
    assert(x.spec_bytes().subrange(0, 4) =~= le4(x.chksum));
    lemma_le4(x.subcommand);
    assert(x.spec_bytes().subrange(4, 8) =~= le4(x.subcommand));
}

/// The bytes of GetDotBackupBlobReq: 8 in all, chksum at 0, subcommand at 4; integers little-endian.
pub proof fn lemma_get_dot_backup_blob_req_offsets(x: GetDotBackupBlobReq)
    ensures
        x.spec_bytes().len() == 8,
        from_le4(x.spec_bytes().subrange(0, 4)) == x.chksum,
        from_le4(x.spec_bytes().subrange(4, 8)) == x.subcommand,
{
    lemma_le4(x.chksum);
    assert(x.spec_bytes().subrange(0, 4) =~= le4(x.chksum));
    lemma_le4(x.subcommand);
    assert(x.spec_bytes().subrange(4, 8) =~= le4(x.subcommand));
}

/// The bytes of DotStatusResp: 12 in all, chksum at 0, fips_status at 4, enabled at 8, locked at 9, burned at 10; integers little-endian.
pub proof fn lemma_dot_status_resp_offsets(x: DotStatusResp)
    ensures
        x.spec_bytes().len() == 12,
        from_le4(x.spec_bytes().subrange(0, 4)) == x.hdr.chksum,
        from_le4(x.spec_bytes().subrange(4, 8)) == x.hdr.fips_status,
        x.spec_bytes()[8] == x.enabled,
        x.spec_bytes()[9] == x.locked,
        from_le2(x.spec_bytes().subrange(10, 12)) == x.burned,
{
    lemma_le4(x.hdr.chksum);
    assert(x.spec_bytes().subrange(0, 4) =~= le4(x.hdr.chksum));
    lemma_le4(x.hdr.fips_status);
    assert(x.spec_bytes().subrange(4, 8) =~= le4(x.hdr.fips_status));
    lemma_le2(x.burned);
    assert(x.spec_bytes().subrange(10, 12) =~= le2(x.burned));
}

/// The bytes of DotUnlockChallengeResp: 56 in all, chksum at 0, fips_status at 4, challenge at 8; integers little-endian.
pub proof fn lemma_dot_unlock_challenge_resp_offsets(x: DotUnlockChallengeResp)
    ensures
        x.spec_bytes().len() == 56,
        from_le4(x.spec_bytes().subrange(0, 4)) == x.hdr.chksum,
        from_le4(x.spec_bytes().subrange(4, 8)) == x.hdr.fips_status,
        x.spec_bytes().subrange(8, 56) == x.challenge@,
{
    lemma_le4(x.hdr.chksum);
    assert(x.spec_bytes().subrange(0, 4) =~= le4(x.hdr.chksum));
    lemma_le4(x.hdr.fips_status);
    assert(x.spec_bytes().subrange(4, 8) =~= le4(x.hdr.fips_status));
    assert(x.spec_bytes().subrange(8, 56) =~= x.challenge@);
}

/// The bytes of GetDotBackupBlobResp: 176 in all, chksum at 0, fips_status at 4, blob at 8; integers little-endian.
pub proof fn lemma_get_dot_backup_blob_resp_offsets(x: GetDotBackupBlobResp)
    ensures
        x.spec_bytes().len() == 176,
        from_le4(x.spec_bytes().subrange(0, 4)) == x.hdr.chksum,
        from_le4(x.spec_bytes().subrange(4, 8)) == x.hdr.fips_status,
        x.spec_bytes().subrange(8, 176) == x.blob@,
{
    lemma_le4(x.hdr.chksum);
    assert(x.spec_bytes().subrange(0, 4) =~= le4(x.hdr.chksum));
    lemma_le4(x.hdr.fips_status);
    assert(x.spec_bytes().subrange(4, 8) =~= le4(x.hdr.fips_status));
    assert(x.spec_bytes().subrange(8, 176) =~= x.blob@);
}

/// The bytes of DotLockResp: 12 in all, chksum at 0, fips_status at 4, reset_required at 8; integers little-endian.
pub proof fn lemma_dot_lock_resp_offsets(x: DotLockResp)
    ensures
        x.spec_bytes().len() == 12,
        from_le4(x.spec_bytes().subrange(0, 4)) == x.hdr.chksum,
        from_le4(x.spec_bytes().subrange(4, 8)) == x.hdr.fips_status,
        from_le4(x.spec_bytes().subrange(8, 12)) == x.reset_required,
{
    lemma_le4(x.hdr.chksum);
    assert(x.spec_bytes().subrange(0, 4) =~= le4(x.hdr.chksum));
    lemma_le4(x.hdr.fips_status);
    assert(x.spec_bytes().subrange(4, 8) =~= le4(x.hdr.fips_status));
    lemma_le4(x.reset_required);
    assert(x.spec_bytes().subrange(8, 12) =~= le4(x.reset_required));
}

/// The bytes of DotDisableResp: 12 in all, chksum at 0, fips_status at 4, reset_required at 8; integers little-endian.
pub proof fn lemma_dot_disable_resp_offsets(x: DotDisableResp)
    ensures
        x.spec_bytes().len() == 12,
        from_le4(x.spec_bytes().subrange(0, 4)) == x.hdr.chksum,
        from_le4(x.spec_bytes().subrange(4, 8)) == x.hdr.fips_status,
        from_le4(x.spec_bytes().subrange(8, 12)) == x.reset_required,
{
    lemma_le4(x.hdr.chksum);
    assert(x.spec_bytes().subrange(0, 4) =~= le4(x.hdr.chksum));
    lemma_le4(x.hdr.fips_status);
    assert(x.spec_bytes().subrange(4, 8) =~= le4(x.hdr.fips_status));
    lemma_le4(x.reset_required);
    assert(x.spec_bytes().subrange(8, 12) =~= le4(x.reset_required));
}

/// The bytes of DotRotateResp: 12 in all, chksum at 0, fips_status at 4, reset_required at 8; integers little-endian.
pub proof fn lemma_dot_rotate_resp_offsets(x: DotRotateResp)
    ensures
        x.spec_bytes().len() == 12,
        from_le4(x.spec_bytes().subrange(0, 4)) == x.hdr.chksum,
        from_le4(x.spec_bytes().subrange(4, 8)) == x.hdr.fips_status,
        from_le4(x.spec_bytes().subrange(8, 12)) == x.reset_required,
{
    lemma_le4(x.hdr.chksum);
    assert(x.spec_bytes().subrange(0, 4) =~= le4(x.hdr.chksum));
    lemma_le4(x.hdr.fips_status);
    assert(x.spec_bytes().subrange(4, 8) =~= le4(x.hdr.fips_status));
    lemma_le4(x.reset_required);
    assert(x.spec_bytes().subrange(8, 12) =~= le4(x.reset_required));
}

/// The bytes of DotRecoveryResp: 12 in all, chksum at 0, fips_status at 4, reset_required at 8; integers little-endian.
pub proof fn lemma_dot_recovery_resp_offsets(x: DotRecoveryResp)
    ensures
        x.spec_bytes().len() == 12,
        from_le4(x.spec_bytes().subrange(0, 4)) == x.hdr.chksum,
        from_le4(x.spec_bytes().subrange(4, 8)) == x.hdr.fips_status,
        from_le4(x.spec_bytes().subrange(8, 12)) == x.reset_required,
{
    lemma_le4(x.hdr.chksum);
    assert(x.spec_bytes().subrange(0, 4) =~= le4(x.hdr.chksum));
    lemma_le4(x.hdr.fips_status);
    assert(x.spec_bytes().subrange(4, 8) =~= le4(x.hdr.fips_status));
    lemma_le4(x.reset_required);
    assert(x.spec_bytes().subrange(8, 12) =~= le4(x.reset_required));
}

/// The bytes of DotOverrideResp: 12 in all, chksum at 0, fips_status at 4, reset_required at 8; integers little-endian.
pub proof fn lemma_dot_override_resp_offsets(x: DotOverrideResp)
    ensures
        x.spec_bytes().len() == 12,
        from_le4(x.spec_bytes().subrange(0, 4)) == x.hdr.chksum,
        from_le4(x.spec_bytes().subrange(4, 8)) == x.hdr.fips_status,
        from_le4(x.spec_bytes().subrange(8, 12)) == x.reset_required,
{
    lemma_le4(x.hdr.chksum);
    assert(x.spec_bytes().subrange(0, 4) =~= le4(x.hdr.chksum));
    lemma_le4(x.hdr.fips_status);
    assert(x.spec_bytes().subrange(4, 8) =~= le4(x.hdr.fips_status));
    lemma_le4(x.reset_required);
    assert(x.spec_bytes().subrange(8, 12) =~= le4(x.reset_required));
}

/// The bytes of DotUnlockResp: 12 in all, chksum at 0, fips_status at 4, reset_required at 8; integers little-endian.
pub proof fn lemma_dot_unlock_resp_offsets(x: DotUnlockResp)
    ensures
        x.spec_bytes().len() == 12,
        from_le4(x.spec_bytes().subrange(0, 4)) == x.hdr.chksum,
        from_le4(x.spec_bytes().subrange(4, 8)) == x.hdr.fips_status,
        from_le4(x.spec_bytes().subrange(8, 12)) == x.reset_required,
{
    lemma_le4(x.hdr.chksum);
    assert(x.spec_bytes().subrange(0, 4) =~= le4(x.hdr.chksum));
    lemma_le4(x.hdr.fips_status);
    assert(x.spec_bytes().subrange(4, 8) =~= le4(x.hdr.fips_status));
    lemma_le4(x.reset_required);
    assert(x.spec_bytes().subrange(8, 12) =~= le4(x.reset_required));
}

/// The bytes of FuseWriteReq: 16 in all, chksum at 0, word_addr at 4, data at 8, mask at 12; integers little-endian.
pub proof fn lemma_fuse_write_req_offsets(x: FuseWriteReq)
    ensures
        x.spec_bytes().len() == 16,
        from_le4(x.spec_bytes().subrange(0, 4)) == x.hdr.chksum,
        from_le4(x.spec_bytes().subrange(4, 8)) == x.word_addr,
        from_le4(x.spec_bytes().subrange(8, 12)) == x.data,
        from_le4(x.spec_bytes().subrange(12, 16)) == x.mask,
{
    lemma_le4(x.hdr.chksum);
    assert(x.spec_bytes().subrange(0, 4) =~= le4(x.hdr.chksum));
    lemma_le4(x.word_addr);
    assert(x.spec_bytes().subrange(4, 8) =~= le4(x.word_addr));
    lemma_le4(x.data);
    assert(x.spec_bytes().subrange(8, 12) =~= le4(x.data));
    lemma_le4(x.mask);
    assert(x.spec_bytes().subrange(12, 16) =~= le4(x.mask));
}

/// The bytes of FuseIncreaseCaliptraMinSvnReq: 12 in all, chksum at 0, flags at 4, svn at 8; integers little-endian.
pub proof fn lemma_fuse_increase_caliptra_min_svn_req_offsets(x: FuseIncreaseCaliptraMinSvnReq)
    ensures
        x.spec_bytes().len() == 12,
        from_le4(x.spec_bytes().subrange(0, 4)) == x.hdr.chksum,
        from_le4(x.spec_bytes().subrange(4, 8)) == x.flags,
        from_le4(x.spec_bytes().subrange(8, 12)) == x.svn,
{
    lemma_le4(x.hdr.chksum);
    assert(x.spec_bytes().subrange(0, 4) =~= le4(x.hdr.chksum));
    lemma_le4(x.flags);
    assert(x.spec_bytes().subrange(4, 8) =~= le4(x.flags));
    lemma_le4(x.svn);
    assert(x.spec_bytes().subrange(8, 12) =~= le4(x.svn));
}

/// The bytes of McuFeProgReq: 8 in all, chksum at 0, partition at 4; integers little-endian.
pub proof fn lemma_mcu_fe_prog_req_offsets(x: McuFeProgReq)
    ensures
        x.spec_bytes().len() == 8,
        from_le4(x.spec_bytes().subrange(0, 4)) == x.hdr.chksum,
        from_le4(x.spec_bytes().subrange(4, 8)) == x.partition,
{
    lemma_le4(x.hdr.chksum);
    assert(x.spec_bytes().subrange(0, 4) =~= le4(x.hdr.chksum));
    lemma_le4(x.partition);
    assert(x.spec_bytes().subrange(4, 8) =~= le4(x.partition));
}

/// The bytes of GetAuthCmdChallengeReq: 12 in all, chksum at 0, flags at 4, reserved at 8; integers little-endian.
pub proof fn lemma_get_auth_cmd_challenge_req_offsets(x: GetAuthCmdChallengeReq)
    ensures
        x.spec_bytes().len() == 12,
        from_le4(x.spec_bytes().subrange(0, 4)) == x.hdr.chksum,
        from_le4(x.spec_bytes().subrange(4, 8)) == x.flags,
        from_le4(x.spec_bytes().subrange(8, 12)) == x.reserved,
{
    lemma_le4(x.hdr.chksum);
    assert(x.spec_bytes().subrange(0, 4) =~= le4(x.hdr.chksum));
    lemma_le4(x.flags);
    assert(x.spec_bytes().subrange(4, 8) =~= le4(x.flags));
    lemma_le4(x.reserved);
    assert(x.spec_bytes().subrange(8, 12) =~= le4(x.reserved));
}

/// The bytes of FuseRevokeVendorPubKeyReq: 20 in all, chksum at 0, reserved at 4, vendor_pk_hash_slot at 8, key_type at 12, key_index at 16; integers little-endian.
pub proof fn lemma_fuse_revoke_vendor_pub_key_req_offsets(x: FuseRevokeVendorPubKeyReq)
    ensures
        x.spec_bytes().len() == 20,
        from_le4(x.spec_bytes().subrange(0, 4)) == x.hdr.chksum,
        from_le4(x.spec_bytes().subrange(4, 8)) == x.reserved,
        from_le4(x.spec_bytes().subrange(8, 12)) == x.vendor_pk_hash_slot,
        from_le4(x.spec_bytes().subrange(12, 16)) == x.key_type,
        from_le4(x.spec_bytes().subrange(16, 20)) == x.key_index,
{
    lemma_le4(x.hdr.chksum);
    assert(x.spec_bytes().subrange(0, 4) =~= le4(x.hdr.chksum));
    lemma_le4(x.reserved);
    assert(x.spec_bytes().subrange(4, 8) =~= le4(x.reserved));
    lemma_le4(x.vendor_pk_hash_slot);
    assert(x.spec_bytes().subrange(8, 12) =~= le4(x.vendor_pk_hash_slot));
    lemma_le4(x.key_type);
    assert(x.spec_bytes().subrange(12, 16) =~= le4(x.key_type));
    lemma_le4(x.key_index);
    assert(x.spec_bytes().subrange(16, 20) =~= le4(x.key_index));
}

/// The bytes of ProvisionVendorPkHashReq: 56 in all, chksum at 0, slot at 4, hash at 8; integers little-endian.
pub proof fn lemma_provision_vendor_pk_hash_req_offsets(x: ProvisionVendorPkHashReq)
    ensures
        x.spec_bytes().len() == 56,
        from_le4(x.spec_bytes().subrange(0, 4)) == x.hdr.chksum,
        from_le4(x.spec_bytes().subrange(4, 8)) == x.slot,
        x.spec_bytes().subrange(8, 56) == x.hash@,
{
    lemma_le4(x.hdr.chksum);
    assert(x.spec_bytes().subrange(0, 4) =~= le4(x.hdr.chksum));
    lemma_le4(x.slot);
    assert(x.spec_bytes().subrange(4, 8) =~= le4(x.slot));
    assert(x.spec_bytes().subrange(8, 56) =~= x.hash@);
}

/// The bytes of FuseRevokeVendorPkHashReq: 12 in all, chksum at 0, reserved at 4, vendor_pk_hash_slot at 8; integers little-endian.
pub proof fn lemma_fuse_revoke_vendor_pk_hash_req_offsets(x: FuseRevokeVendorPkHashReq)
    ensures
        x.spec_bytes().len() == 12,
        from_le4(x.spec_bytes().subrange(0, 4)) == x.hdr.chksum,
        from_le4(x.spec_bytes().subrange(4, 8)) == x.reserved,
        from_le4(x.spec_bytes().subrange(8, 12)) == x.vendor_pk_hash_slot,
{
    lemma_le4(x.hdr.chksum);
    assert(x.spec_bytes().subrange(0, 4) =~= le4(x.hdr.chksum));
    lemma_le4(x.reserved);
    assert(x.spec_bytes().subrange(4, 8) =~= le4(x.reserved));
    lemma_le4(x.vendor_pk_hash_slot);
    assert(x.spec_bytes().subrange(8, 12) =~= le4(x.vendor_pk_hash_slot));
}

/// The bytes of OcpLockSetPermaHekReq: 8 in all, chksum at 0, subcommand at 4; integers little-endian.
pub proof fn lemma_ocp_lock_set_perma_hek_req_offsets(x: OcpLockSetPermaHekReq)
    ensures
        x.spec_bytes().len() == 8,
        from_le4(x.spec_bytes().subrange(0, 4)) == x.hdr.chksum,
        from_le4(x.spec_bytes().subrange(4, 8)) == x.subcommand,
{
    lemma_le4(x.hdr.chksum);
    assert(x.spec_bytes().subrange(0, 4) =~= le4(x.hdr.chksum));
    lemma_le4(x.subcommand);
    assert(x.spec_bytes().subrange(4, 8) =~= le4(x.subcommand));
}

/// The bytes of OcpLockRotateHekReq: 12 in all, chksum at 0, subcommand at 4, hek_slot at 8; integers little-endian.
pub proof fn lemma_ocp_lock_rotate_hek_req_offsets(x: OcpLockRotateHekReq)
    ensures
        x.spec_bytes().len() == 12,
        from_le4(x.spec_bytes().subrange(0, 4)) == x.hdr.chksum,
        from_le4(x.spec_bytes().subrange(4, 8)) == x.subcommand,
        from_le4(x.spec_bytes().subrange(8, 12)) == x.hek_slot,
{
    lemma_le4(x.hdr.chksum);
    assert(x.spec_bytes().subrange(0, 4) =~= le4(x.hdr.chksum));
    lemma_le4(x.subcommand);
    assert(x.spec_bytes().subrange(4, 8) =~= le4(x.subcommand));
    lemma_le4(x.hek_slot);
    assert(x.spec_bytes().subrange(8, 12) =~= le4(x.hek_slot));
}

} // verus!
