use mcu_common::mbox::checksum::{
    calc_checksum, populate_checksum, populate_response_chksum, verify_checksum,
};
use mcu_common::mbox::dot_layout::{
    DotDisableReq, DotDisableResp, DotLockReq, DotLockResp, DotOverrideResp, DotRecoveryReq,
    DotRecoveryResp, DotRotateReq, DotRotateResp, DotStatusReq, DotStatusResp,
    DotUnlockChallengeReq, DotUnlockChallengeResp, DotUnlockResp, GetDotBackupBlobReq,
    GetDotBackupBlobResp,
};
use mcu_common::mbox::fuse_layout::{
    FuseIncreaseCaliptraMinSvnReq, FuseRevokeVendorPkHashReq, FuseRevokeVendorPubKeyReq,
    FuseWriteReq, GetAuthCmdChallengeReq, McuFeProgReq, OcpLockRotateHekReq,
    OcpLockSetPermaHekReq, ProvisionVendorPkHashReq,
};
use mcu_common::mbox::layout::{
    FuseLockPartitionReq, FuseReadReq, FuseReadResp, GetAttestationReq, MailboxReqHeader,
    MailboxRespHeader, ProvisionOwnerPkHashReq, MAX_FUSE_DATA_SIZE,
};
use mcu_common::mbox::messages::CommandId;
use mcu_common::mbox::request::McuMailboxReqKind;
use mcu_common::mbox::requests::McuMailboxReq;

fn zero_resp_header() -> MailboxRespHeader {
    MailboxRespHeader { chksum: 0, fips_status: 0 }
}

#[test]
fn get_attestation_wire_layout() {
    assert_eq!(CommandId::MC_GET_ATTESTATION().0, 0x4D47_4154);
    let req = GetAttestationReq {
        hdr: MailboxReqHeader { chksum: 0xABCD },
        evidence_format: 2,
        algorithm: 1,
        pki_entity_slot: 0,
        nonce: [0x5A; 32],
    };
    assert_eq!(req.as_bytes().len(), 48);
    let parsed = GetAttestationReq::read_from_bytes(&req.as_bytes()).unwrap();
    assert_eq!(parsed.hdr.chksum, 0xABCD);
    assert_eq!(parsed.evidence_format, 2);
    assert_eq!(parsed.algorithm, 1);
    assert_eq!(parsed.pki_entity_slot, 0);
    assert_eq!(parsed.nonce, [0x5A; 32]);
}

#[test]
fn test_fuse_read_req_serialization() {
    let req = FuseReadReq {
        hdr: MailboxReqHeader { chksum: 0x1234 },
        partition: 5,
        entry: 2,
    };
    let bytes = req.as_bytes();
    assert_eq!(bytes.len(), 12);
    let parsed = FuseReadReq::read_from_bytes(&bytes).unwrap();
    assert_eq!(parsed.hdr.chksum, 0x1234);
    assert_eq!(parsed.partition, 5);
    assert_eq!(parsed.entry, 2);
}

#[test]
fn test_fuse_lock_partition_req_serialization() {
    let req = FuseLockPartitionReq {
        hdr: MailboxReqHeader { chksum: 0x5678 },
        partition: 7,
    };
    let bytes = req.as_bytes();
    let parsed = FuseLockPartitionReq::read_from_bytes(&bytes).unwrap();
    assert_eq!(parsed.hdr.chksum, 0x5678);
    assert_eq!(parsed.partition, 7);
}

#[test]
fn test_provision_owner_pk_hash_req_serialization() {
    let mut req = McuMailboxReq::ProvisionOwnerPkHash(ProvisionOwnerPkHashReq {
        hdr: MailboxReqHeader { chksum: 0 },
        hash: [0xA5; 48],
    });
    req.populate_chksum();
    assert_eq!(req.cmd_code(), CommandId::MC_PROVISION_OWNER_PK_HASH());
    let parsed = ProvisionOwnerPkHashReq::read_from_bytes(&req.as_bytes()).unwrap();
    assert_ne!(parsed.hdr.chksum, 0);
    assert_eq!(parsed.hash, [0xA5; 48]);
}

#[test]
fn test_fuse_req_checksum() {
    let mut req = McuMailboxReq::FuseRead(FuseReadReq {
        hdr: MailboxReqHeader { chksum: 0 },
        partition: 1,
        entry: 2,
    });
    req.populate_chksum();
    let bytes = req.as_bytes();
    let hdr = FuseReadReq::read_from_bytes(&bytes).unwrap().hdr;
    assert_ne!(hdr.chksum, 0);
    assert_eq!(req.cmd_code(), CommandId::MC_FUSE_READ());
}

#[test]
fn test_fuse_resp_checksum() {
    let mut hdr = zero_resp_header();
    hdr.populate_chksum();
    let parsed = MailboxRespHeader::read_from_bytes(&hdr.as_bytes()).unwrap();
    assert_eq!(parsed.chksum, 0);
}

#[test]
fn test_fuse_lock_partition_resp_checksum() {
    let mut hdr = zero_resp_header();
    hdr.populate_chksum();
    let parsed = MailboxRespHeader::read_from_bytes(&hdr.as_bytes()).unwrap();
    assert_eq!(parsed.chksum, 0);
}

#[test]
fn test_provision_owner_pk_hash_resp_checksum() {
    let mut hdr = zero_resp_header();
    hdr.populate_chksum();
    let parsed = MailboxRespHeader::read_from_bytes(&hdr.as_bytes()).unwrap();
    assert_eq!(parsed.chksum, 0);
}

fn zero_fuse_read_resp() -> FuseReadResp {
    FuseReadResp {
        hdr: zero_resp_header(),
        data_len: 0,
        length_bits: 0,
        data: [0; MAX_FUSE_DATA_SIZE],
    }
}

#[test]
fn test_fuse_read_resp_checksum_with_data() {
    let mut resp = zero_fuse_read_resp();
    resp.data_len = 4;
    resp.length_bits = 32;
    resp.data[0..4].copy_from_slice(&[0x01, 0x02, 0x03, 0x04]);

    resp.populate_chksum().unwrap();

    let bytes = resp.as_bytes_partial().unwrap();
    let hdr = MailboxRespHeader::read_from_bytes(&bytes[..8]).unwrap();
    assert_ne!(hdr.chksum, 0);
    let payload = &bytes[4..];
    assert!(verify_checksum(hdr.chksum, 0, payload));
}

#[test]
fn test_fuse_read_resp_serialization() {
    let mut resp = zero_fuse_read_resp();
    resp.hdr.fips_status = 0;
    resp.data_len = 8;
    resp.length_bits = 64;
    resp.data[0..8].copy_from_slice(&[0x01, 0x02, 0x03, 0x04, 0x05, 0x06, 0x07, 0x08]);

    let bytes = resp.as_bytes();
    let parsed = FuseReadResp::read_from_bytes(&bytes).unwrap();
    assert_eq!(parsed.hdr.fips_status, 0);
    assert_eq!(parsed.length_bits, 64);
    assert_eq!(
        &parsed.data[0..8],
        &[0x01, 0x02, 0x03, 0x04, 0x05, 0x06, 0x07, 0x08]
    );
}

#[test]
fn fuse_read_resp_puts_header_and_data_len_on_the_wire() {
    let mut resp = zero_fuse_read_resp();
    resp.data_len = 4;
    assert_eq!(resp.as_bytes_partial().unwrap().len(), 16);
    resp.data_len = 132;
    assert_eq!(resp.as_bytes_partial().unwrap().len(), 144);
    resp.data_len = 133;
    assert!(resp.as_bytes_partial().is_err());
    assert!(resp.populate_chksum().is_err());
    assert_eq!(resp.hdr.chksum, 0);
    // With a raw response: header, length in bits, data.
    let mut raw: Vec<u8> = Vec::new();
    raw.extend_from_slice(&0u32.to_le_bytes());
    raw.extend_from_slice(&0u32.to_le_bytes());
    raw.extend_from_slice(&4u32.to_le_bytes());
    raw.extend_from_slice(&32u32.to_le_bytes());
    populate_response_chksum(&mut raw);
    let chksum = u32::from_le_bytes([raw[0], raw[1], raw[2], raw[3]]);
    assert_eq!(chksum, 0u32.wrapping_sub(4 + 32));
    let mut typed = zero_fuse_read_resp();
    typed.data_len = 4;
    typed.length_bits = 32;
    typed.populate_chksum().unwrap();
    assert_eq!(typed.hdr.chksum, chksum);
}

#[test]
fn checksum_values_and_laws() {
    // 0x49 + 0x46 + 0x50 + 0x52 + 1 + 2 = 0x134; its negation modulo 2^32.
    let code = 0x4946_5052u32;
    let body = [1u8, 0, 0, 0, 2, 0, 0, 0];
    assert_eq!(calc_checksum(code, &body), 0u32.wrapping_sub(0x134));
    assert_eq!(calc_checksum(0, &[]), 0);
    assert!(verify_checksum(0u32.wrapping_sub(0x134), code, &body));
    assert!(!verify_checksum(0x134, code, &body));
    let mut message = [0xFFu8, 0xFF, 0xFF, 0xFF, 1, 0, 0, 0, 2, 0, 0, 0];
    populate_checksum(code, &mut message);
    assert_eq!(&message[..4], &0u32.wrapping_sub(0x134).to_le_bytes());
    assert_eq!(&message[4..], &body);
    let mut req = FuseReadReq { hdr: MailboxReqHeader { chksum: 0xFFFF_FFFF }, partition: 1, entry: 2 };
    req.populate_chksum();
    assert_eq!(req.as_bytes(), message.to_vec());
    assert_eq!(FuseReadReq::read_from_bytes(&message[..11]), None);
    let mut msg = message;
    McuMailboxReqKind::FuseRead.populate_chksum(&mut msg);
    assert_eq!(msg, message);
}

const REQ_HDR: usize = 4;
const RESP_HDR: usize = 8;
const WORD: usize = 4;
const DOT_KEY_HASH_SIZE: usize = 48;
const DOT_BLOB_SIZE: usize = 168;
const AUTH_CMD_NONCE_LEN: usize = 48;

#[test]
fn dot_lock_wire_contract() {
    assert_eq!(CommandId::MC_DEVICE_OWNERSHIP_TRANSFER().0, 0x11);
    assert_eq!(CommandId::MC_DOT_LOCK().0, 0x4D44_4C4B);
    assert_eq!(DotLockReq::default().as_bytes().len(), REQ_HDR + WORD + 2 * DOT_KEY_HASH_SIZE);
    assert_eq!(DotLockReq::default().subcommand, CommandId::MC_DOT_LOCK().0);
}

#[test]
fn dot_disable_wire_contract() {
    assert_eq!(CommandId::MC_DOT_DISABLE().0, 0x4D44_4453);
    assert_eq!(DotDisableReq::default().as_bytes().len(), REQ_HDR + WORD + DOT_KEY_HASH_SIZE);
    assert_eq!(DotDisableReq::default().subcommand, CommandId::MC_DOT_DISABLE().0);
}

#[test]
fn dot_rotate_wire_contract() {
    assert_eq!(CommandId::MC_DOT_ROTATE().0, 0x4D44_5254);
    assert_eq!(DotRotateReq::default().as_bytes().len(), REQ_HDR + 2 * WORD + 2 * DOT_KEY_HASH_SIZE);
    assert_eq!(DotRotateReq::default().subcommand, CommandId::MC_DOT_ROTATE().0);
}

#[test]
fn dot_recovery_wire_contract() {
    assert_eq!(CommandId::MC_DOT_RECOVERY().0, 0x4D44_5243);
    assert_eq!(DotRecoveryReq::default().as_bytes().len(), REQ_HDR + WORD + DOT_BLOB_SIZE);
    assert_eq!(DotRecoveryReq::default().subcommand, CommandId::MC_DOT_RECOVERY().0);
}

#[test]
fn dot_status_wire_contract() {
    assert_eq!(CommandId::MC_DOT_STATUS().0, 0x4D44_5354);
    assert_eq!(DotStatusReq::default().as_bytes().len(), REQ_HDR + WORD);
    assert_eq!(DotStatusReq::default().subcommand, CommandId::MC_DOT_STATUS().0);
    let resp = DotStatusResp { hdr: zero_resp_header(), enabled: 0, locked: 0, burned: 0 };
    assert_eq!(resp.as_bytes().len(), RESP_HDR + WORD);
}

#[test]
fn dot_unlock_challenge_wire_contract() {
    assert_eq!(CommandId::MC_DOT_UNLOCK_CHALLENGE().0, 0x4D44_5543);
    assert_eq!(DotUnlockChallengeReq::default().as_bytes().len(), REQ_HDR + WORD);
    assert_eq!(
        DotUnlockChallengeReq::default().subcommand,
        CommandId::MC_DOT_UNLOCK_CHALLENGE().0
    );
    let resp = DotUnlockChallengeResp { hdr: zero_resp_header(), challenge: [0; 48] };
    assert_eq!(resp.as_bytes().len(), RESP_HDR + AUTH_CMD_NONCE_LEN);
}

#[test]
fn get_dot_backup_blob_wire_contract() {
    assert_eq!(CommandId::MC_GET_DOT_BACKUP_BLOB().0, 0x4D44_4242);
    assert_eq!(GetDotBackupBlobReq::default().as_bytes().len(), REQ_HDR + WORD);
    assert_eq!(
        GetDotBackupBlobReq::default().subcommand,
        CommandId::MC_GET_DOT_BACKUP_BLOB().0
    );
    let resp = GetDotBackupBlobResp { hdr: zero_resp_header(), blob: [0; DOT_BLOB_SIZE] };
    assert_eq!(resp.as_bytes().len(), RESP_HDR + DOT_BLOB_SIZE);
}

#[test]
fn dot_messages_read_back_and_carry_their_checksum() {
    let mut req = DotLockReq::default();
    req.cak = [0x11; 48];
    req.populate_chksum();
    let bytes = req.as_bytes();
    let chksum = u32::from_le_bytes([bytes[0], bytes[1], bytes[2], bytes[3]]);
    assert_eq!(chksum, req.chksum);
    assert!(verify_checksum(chksum, 0x11, &bytes[4..]));
    assert_eq!(&bytes[4..8], &0x4D44_4C4Bu32.to_le_bytes());
    let status = DotStatusResp {
        hdr: MailboxRespHeader { chksum: 7, fips_status: 0 },
        enabled: 1,
        locked: 0,
        burned: 0x0203,
    };
    let raw = status.as_bytes();
    assert_eq!(&raw[8..], &[1, 0, 3, 2]);
    assert_eq!(DotStatusResp::read_from_bytes(&raw), Some(status));
    assert_eq!(DotStatusResp::read_from_bytes(&raw[..11]), None);
    let mut blob = GetDotBackupBlobResp { hdr: zero_resp_header(), blob: [0; DOT_BLOB_SIZE] };
    blob.blob[5] = 9;
    let back = GetDotBackupBlobResp::read_from_bytes(&blob.as_bytes()).unwrap();
    assert_eq!(back.blob[5], 9);
    let ch = DotUnlockChallengeResp { hdr: zero_resp_header(), challenge: [0x33; 48] };
    assert_eq!(DotUnlockChallengeResp::read_from_bytes(&ch.as_bytes()).unwrap().challenge, [0x33; 48]);
}

#[test]
fn mailbox_requests_carry_their_kind_code_and_checksum() {
    let mut req = McuMailboxReq::DotStatus(DotStatusReq::default());
    assert_eq!(req.kind(), McuMailboxReqKind::DotStatus);
    assert_eq!(req.cmd_code(), CommandId(0x11));
    req.populate_chksum();
    let bytes = req.as_bytes();
    assert_eq!(bytes.len(), 8);
    let chksum = u32::from_le_bytes([bytes[0], bytes[1], bytes[2], bytes[3]]);
    assert!(verify_checksum(chksum, 0x11, &bytes[4..]));
    // 0x11 + 0x54 + 0x53 + 0x44 + 0x4D = 0x149.
    assert_eq!(chksum, 0u32.wrapping_sub(0x149));
    let mut att = McuMailboxReq::GetAttestation(GetAttestationReq {
        hdr: MailboxReqHeader { chksum: 0 },
        evidence_format: 1,
        algorithm: 2,
        pki_entity_slot: 0,
        nonce: [0; 32],
    });
    att.populate_chksum();
    let raw = att.as_bytes();
    assert_eq!(raw.len(), 48);
    let chk = u32::from_le_bytes([raw[0], raw[1], raw[2], raw[3]]);
    assert!(verify_checksum(chk, 0x4D47_4154, &raw[4..]));
}

#[test]
fn test_ocp_lock_command_ids() {
    assert_eq!(CommandId::MC_OCP_LOCK().0, 0x13);
    assert_eq!(CommandId::MC_OCP_LOCK_ROTATE_HEK().0, 0x4F4C_5248);
    assert_eq!(CommandId::MC_OCP_LOCK_SET_PERMA_HEK().0, 0x4F4C_5350);
    assert_eq!(McuMailboxReqKind::OcpLockRotateHek.cmd_code(), CommandId::MC_OCP_LOCK());
    assert_eq!(McuMailboxReqKind::OcpLockSetPermaHek.cmd_code(), CommandId::MC_OCP_LOCK());
    assert_eq!(
        OcpLockRotateHekReq::default().subcommand,
        CommandId::MC_OCP_LOCK_ROTATE_HEK().0
    );
    assert_eq!(
        OcpLockSetPermaHekReq::default().subcommand,
        CommandId::MC_OCP_LOCK_SET_PERMA_HEK().0
    );
}

#[test]
fn fuse_requests_read_back_what_they_write() {
    let w = FuseWriteReq { hdr: MailboxReqHeader { chksum: 1 }, word_addr: 0x10, data: 0xAABB_CCDD, mask: 0xFF };
    let b = w.as_bytes();
    assert_eq!(b.len(), 16);
    assert_eq!(&b[8..12], &[0xDD, 0xCC, 0xBB, 0xAA]);
    assert_eq!(FuseWriteReq::read_from_bytes(&b), Some(w));
    assert_eq!(FuseWriteReq::read_from_bytes(&b[..15]), None);
    let svn = FuseIncreaseCaliptraMinSvnReq { hdr: MailboxReqHeader { chksum: 0 }, flags: 0, svn: 129 };
    assert_eq!(FuseIncreaseCaliptraMinSvnReq::read_from_bytes(&svn.as_bytes()), Some(svn));
    let fe = McuFeProgReq { hdr: MailboxReqHeader { chksum: 0 }, partition: 3 };
    assert_eq!(fe.as_bytes(), vec![0, 0, 0, 0, 3, 0, 0, 0]);
    let ch = GetAuthCmdChallengeReq { hdr: MailboxReqHeader { chksum: 0 }, flags: 1, reserved: 0 };
    assert_eq!(GetAuthCmdChallengeReq::read_from_bytes(&ch.as_bytes()), Some(ch));
    let rk = FuseRevokeVendorPubKeyReq {
        hdr: MailboxReqHeader { chksum: 0 },
        reserved: 0,
        vendor_pk_hash_slot: 1,
        key_type: 2,
        key_index: 3,
    };
    assert_eq!(rk.as_bytes().len(), 20);
    assert_eq!(FuseRevokeVendorPubKeyReq::read_from_bytes(&rk.as_bytes()), Some(rk));
    let rh = FuseRevokeVendorPkHashReq { hdr: MailboxReqHeader { chksum: 0 }, reserved: 0, vendor_pk_hash_slot: 2 };
    assert_eq!(FuseRevokeVendorPkHashReq::read_from_bytes(&rh.as_bytes()), Some(rh));
    let pv = ProvisionVendorPkHashReq { hdr: MailboxReqHeader { chksum: 0 }, slot: 1, hash: [0xA5; 48] };
    let back = ProvisionVendorPkHashReq::read_from_bytes(&pv.as_bytes()).unwrap();
    assert_eq!(back.slot, 1);
    assert_eq!(back.hash, [0xA5; 48]);
    let mut rot = McuMailboxReq::OcpLockRotateHek(OcpLockRotateHekReq { hek_slot: 1, ..OcpLockRotateHekReq::default() });
    rot.populate_chksum();
    let raw = rot.as_bytes();
    assert_eq!(&raw[4..], &[0x48, 0x52, 0x4C, 0x4F, 1, 0, 0, 0]);
    let chk = u32::from_le_bytes([raw[0], raw[1], raw[2], raw[3]]);
    assert!(verify_checksum(chk, 0x13, &raw[4..]));
}

#[test]
fn dot_transition_responses_read_back() {
    let lock = DotLockResp { hdr: MailboxRespHeader { chksum: 5, fips_status: 0 }, reset_required: 1 };
    let bytes = lock.as_bytes();
    assert_eq!(bytes.len(), 12);
    assert_eq!(&bytes[8..], &[1, 0, 0, 0]);
    assert_eq!(DotLockResp::read_from_bytes(&bytes), Some(lock));
    assert_eq!(DotLockResp::read_from_bytes(&bytes[..8]), None);
    let unlock = DotUnlockResp::read_from_bytes(&[0, 0, 0, 0, 0, 0, 0, 0, 0, 0, 0, 0]).unwrap();
    assert_eq!(unlock.reset_required, 0);
    let rotate = DotRotateResp { hdr: zero_resp_header(), reset_required: 2 };
    assert_eq!(DotRotateResp::read_from_bytes(&rotate.as_bytes()), Some(rotate));
    let disable = DotDisableResp { hdr: zero_resp_header(), reset_required: 1 };
    assert_eq!(DotDisableResp::read_from_bytes(&disable.as_bytes()), Some(disable));
    let recovery = DotRecoveryResp { hdr: zero_resp_header(), reset_required: 1 };
    assert_eq!(DotRecoveryResp::read_from_bytes(&recovery.as_bytes()), Some(recovery));
    let over = DotOverrideResp { hdr: zero_resp_header(), reset_required: 1 };
    assert_eq!(DotOverrideResp::read_from_bytes(&over.as_bytes()), Some(over));
}
