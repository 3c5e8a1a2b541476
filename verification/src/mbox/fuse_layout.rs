//! The wire layout of the fuse, authorization and OCP Lock requests: the
//! checksum, then the fields, integers little-endian.
use crate::mbox::checksum::{calc_checksum, mbox_checksum, with_checksum};
use crate::mbox::layout::{word_at, MailboxReqHeader};
use crate::mbox::messages::CommandId;
use crate::mbox::request::{spec_cmd_code, McuMailboxReqKind};
use crate::wire::{append_bytes, array_of, le4, lemma_array_of, lemma_le4, pad_copy, push_u32, read_bytes, read_u32};
use vstd::prelude::*;
use vstd::slice::slice_subrange;

verus! {

/// The checksum of a request's bytes after its checksum field.
fn tail_checksum(cmd: u32, bytes: &Vec<u8>) -> (r: u32)
    requires
        bytes@.len() >= 4,
    ensures
        r == mbox_checksum(cmd, bytes@.skip(4)),
{
    let len = bytes.len();
    let body = slice_subrange(bytes.as_slice(), 4, len);
    assert(body@ =~= bytes@.skip(4));
    calc_checksum(cmd, body)
}

/// FUSE_WRITE: the word address, the data, and the mask of the bits to write.
#[derive(Debug, Clone, Copy, PartialEq, Eq, Structural)]
pub struct FuseWriteReq {
    pub hdr: MailboxReqHeader,
    pub word_addr: u32,
    pub data: u32,
    pub mask: u32,
}

impl FuseWriteReq {
    /// The 16 bytes of the request.
    pub open spec fn spec_bytes(&self) -> Seq<u8> {
        le4(self.hdr.chksum) + le4(self.word_addr) + le4(self.data) + le4(self.mask)
    }

    /// The request read from exactly 16 bytes.
    pub open spec fn spec_from_bytes(bytes: Seq<u8>) -> Option<FuseWriteReq> {
        if bytes.len() == 16 {
            Some(
                FuseWriteReq {
                    hdr: MailboxReqHeader { chksum: word_at(bytes, 0) },
                    word_addr: word_at(bytes, 4),
                    data: word_at(bytes, 8),
                    mask: word_at(bytes, 12),
                },
            )
        } else {
            None
        }
    }

    pub fn as_bytes(&self) -> (r: Vec<u8>)
        ensures
            r@ == self.spec_bytes(),
            r@.len() == 16,
    {
        let mut v: Vec<u8> = Vec::new();
        push_u32(&mut v, self.hdr.chksum);
        push_u32(&mut v, self.word_addr);
        push_u32(&mut v, self.data);
        push_u32(&mut v, self.mask);
        v
    }

    pub fn read_from_bytes(bytes: &[u8]) -> (r: Option<FuseWriteReq>)
        ensures
            r == Self::spec_from_bytes(bytes@),
    {
        if bytes.len() != 16 {
            return None;
        }

        Some(
            FuseWriteReq {
                hdr: MailboxReqHeader { chksum: read_u32(bytes, 0) },
                word_addr: read_u32(bytes, 4),
                data: read_u32(bytes, 8),
                mask: read_u32(bytes, 12),
            },
        )
    }

    /// Sets the checksum to that of the rest of the request under the
    /// request's command code.
    pub fn populate_chksum(&mut self)
        ensures
            final(self).spec_bytes() == with_checksum(spec_cmd_code(McuMailboxReqKind::FuseWrite).0, old(self).spec_bytes()),
            final(self).word_addr == old(self).word_addr,
            final(self).data == old(self).data,
            final(self).mask == old(self).mask,
    {
        proof {
            lemma_le4(self.hdr.chksum);
        }
        let code = McuMailboxReqKind::FuseWrite.cmd_code().0;
        let bytes = self.as_bytes();
        let chk = tail_checksum(code, &bytes);
        self.hdr.chksum = chk;
        proof {
            lemma_le4(chk);
        }
        assert(self.spec_bytes() =~= with_checksum(code, old(self).spec_bytes()));
    }

    /// Reading the bytes of a request gives it back.
    pub proof fn lemma_roundtrip(&self)
        ensures
            Self::spec_from_bytes(self.spec_bytes()) == Some(*self),
    {
        lemma_le4(self.hdr.chksum);
        lemma_le4(self.word_addr);
        lemma_le4(self.data);
        lemma_le4(self.mask);
        let b = self.spec_bytes();
        assert(b.subrange(0, 4) =~= le4(self.hdr.chksum));
        assert(b.subrange(4, 8) =~= le4(self.word_addr));
        assert(b.subrange(8, 12) =~= le4(self.data));
        assert(b.subrange(12, 16) =~= le4(self.mask));
    }
}

/// FUSE_INCREASE_CALIPTRA_MIN_SVN: the flags and the new minimum SVN.
#[derive(Debug, Clone, Copy, PartialEq, Eq, Structural)]
pub struct FuseIncreaseCaliptraMinSvnReq {
    pub hdr: MailboxReqHeader,
    pub flags: u32,
    pub svn: u32,
}

impl FuseIncreaseCaliptraMinSvnReq {
    /// The 12 bytes of the request.
    pub open spec fn spec_bytes(&self) -> Seq<u8> {
        le4(self.hdr.chksum) + le4(self.flags) + le4(self.svn)
    }

    /// The request read from exactly 12 bytes.
    pub open spec fn spec_from_bytes(bytes: Seq<u8>) -> Option<FuseIncreaseCaliptraMinSvnReq> {
        if bytes.len() == 12 {
            Some(
                FuseIncreaseCaliptraMinSvnReq {
                    hdr: MailboxReqHeader { chksum: word_at(bytes, 0) },
                    flags: word_at(bytes, 4),
                    svn: word_at(bytes, 8),
                },
            )
        } else {
            None
        }
    }

    pub fn as_bytes(&self) -> (r: Vec<u8>)
        ensures
            r@ == self.spec_bytes(),
            r@.len() == 12,
    {
        let mut v: Vec<u8> = Vec::new();
        push_u32(&mut v, self.hdr.chksum);
        push_u32(&mut v, self.flags);
        push_u32(&mut v, self.svn);
        v
    }

    pub fn read_from_bytes(bytes: &[u8]) -> (r: Option<FuseIncreaseCaliptraMinSvnReq>)
        ensures
            r == Self::spec_from_bytes(bytes@),
    {
        if bytes.len() != 12 {
            return None;
        }

        Some(
            FuseIncreaseCaliptraMinSvnReq {
                hdr: MailboxReqHeader { chksum: read_u32(bytes, 0) },
                flags: read_u32(bytes, 4),
                svn: read_u32(bytes, 8),
            },
        )
    }

    /// Sets the checksum to that of the rest of the request under the
    /// request's command code.
    pub fn populate_chksum(&mut self)
        ensures
            final(self).spec_bytes() == with_checksum(spec_cmd_code(McuMailboxReqKind::FuseIncreaseCaliptraMinSvn).0, old(self).spec_bytes()),
            final(self).flags == old(self).flags,
            final(self).svn == old(self).svn,
    {
        proof {
            lemma_le4(self.hdr.chksum);
        }
        let code = McuMailboxReqKind::FuseIncreaseCaliptraMinSvn.cmd_code().0;
        let bytes = self.as_bytes();
        let chk = tail_checksum(code, &bytes);
        self.hdr.chksum = chk;
        proof {
            lemma_le4(chk);
        }
        assert(self.spec_bytes() =~= with_checksum(code, old(self).spec_bytes()));
    }

    /// Reading the bytes of a request gives it back.
    pub proof fn lemma_roundtrip(&self)
        ensures
            Self::spec_from_bytes(self.spec_bytes()) == Some(*self),
    {
        lemma_le4(self.hdr.chksum);
        lemma_le4(self.flags);
        lemma_le4(self.svn);
        let b = self.spec_bytes();
        assert(b.subrange(0, 4) =~= le4(self.hdr.chksum));
        assert(b.subrange(4, 8) =~= le4(self.flags));
        assert(b.subrange(8, 12) =~= le4(self.svn));
    }
}

/// FE_PROG: the field entropy partition to program.
#[derive(Debug, Clone, Copy, PartialEq, Eq, Structural)]
pub struct McuFeProgReq {
    pub hdr: MailboxReqHeader,
    pub partition: u32,
}

impl McuFeProgReq {
    /// The 8 bytes of the request.
    pub open spec fn spec_bytes(&self) -> Seq<u8> {
        le4(self.hdr.chksum) + le4(self.partition)
    }

    /// The request read from exactly 8 bytes.
    pub open spec fn spec_from_bytes(bytes: Seq<u8>) -> Option<McuFeProgReq> {
        if bytes.len() == 8 {
            Some(
                McuFeProgReq {
                    hdr: MailboxReqHeader { chksum: word_at(bytes, 0) },
                    partition: word_at(bytes, 4),
                },
            )
        } else {
            None
        }
    }

    pub fn as_bytes(&self) -> (r: Vec<u8>)
        ensures
            r@ == self.spec_bytes(),
            r@.len() == 8,
    {
        let mut v: Vec<u8> = Vec::new();
        push_u32(&mut v, self.hdr.chksum);
        push_u32(&mut v, self.partition);
        v
    }

    pub fn read_from_bytes(bytes: &[u8]) -> (r: Option<McuFeProgReq>)
        ensures
            r == Self::spec_from_bytes(bytes@),
    {
        if bytes.len() != 8 {
            return None;
        }

        Some(
            McuFeProgReq {
                hdr: MailboxReqHeader { chksum: read_u32(bytes, 0) },
                partition: read_u32(bytes, 4),
            },
        )
    }

    /// Sets the checksum to that of the rest of the request under the
    /// request's command code.
    pub fn populate_chksum(&mut self)
        ensures
            final(self).spec_bytes() == with_checksum(spec_cmd_code(McuMailboxReqKind::FeProg).0, old(self).spec_bytes()),
            final(self).partition == old(self).partition,
    {
        proof {
            lemma_le4(self.hdr.chksum);
        }
        let code = McuMailboxReqKind::FeProg.cmd_code().0;
        let bytes = self.as_bytes();
        let chk = tail_checksum(code, &bytes);
        self.hdr.chksum = chk;
        proof {
            lemma_le4(chk);
        }
        assert(self.spec_bytes() =~= with_checksum(code, old(self).spec_bytes()));
    }

    /// Reading the bytes of a request gives it back.
    pub proof fn lemma_roundtrip(&self)
        ensures
            Self::spec_from_bytes(self.spec_bytes()) == Some(*self),
    {
        lemma_le4(self.hdr.chksum);
        lemma_le4(self.partition);
        let b = self.spec_bytes();
        assert(b.subrange(0, 4) =~= le4(self.hdr.chksum));
        assert(b.subrange(4, 8) =~= le4(self.partition));
    }
}

/// GET_AUTH_CMD_CHALLENGE: flags and a reserved word.
#[derive(Debug, Clone, Copy, PartialEq, Eq, Structural)]
pub struct GetAuthCmdChallengeReq {
    pub hdr: MailboxReqHeader,
    pub flags: u32,
    pub reserved: u32,
}

impl GetAuthCmdChallengeReq {
    /// The 12 bytes of the request.
    pub open spec fn spec_bytes(&self) -> Seq<u8> {
        le4(self.hdr.chksum) + le4(self.flags) + le4(self.reserved)
    }

    /// The request read from exactly 12 bytes.
    pub open spec fn spec_from_bytes(bytes: Seq<u8>) -> Option<GetAuthCmdChallengeReq> {
        if bytes.len() == 12 {
            Some(
                GetAuthCmdChallengeReq {
                    hdr: MailboxReqHeader { chksum: word_at(bytes, 0) },
                    flags: word_at(bytes, 4),
                    reserved: word_at(bytes, 8),
                },
            )
        } else {
            None
        }
    }

    pub fn as_bytes(&self) -> (r: Vec<u8>)
        ensures
            r@ == self.spec_bytes(),
            r@.len() == 12,
    {
        let mut v: Vec<u8> = Vec::new();
        push_u32(&mut v, self.hdr.chksum);
        push_u32(&mut v, self.flags);
        push_u32(&mut v, self.reserved);
        v
    }

    pub fn read_from_bytes(bytes: &[u8]) -> (r: Option<GetAuthCmdChallengeReq>)
        ensures
            r == Self::spec_from_bytes(bytes@),
    {
        if bytes.len() != 12 {
            return None;
        }

        Some(
            GetAuthCmdChallengeReq {
                hdr: MailboxReqHeader { chksum: read_u32(bytes, 0) },
                flags: read_u32(bytes, 4),
                reserved: read_u32(bytes, 8),
            },
        )
    }

    /// Sets the checksum to that of the rest of the request under the
    /// request's command code.
    pub fn populate_chksum(&mut self)
        ensures
            final(self).spec_bytes() == with_checksum(spec_cmd_code(McuMailboxReqKind::GetAuthCmdChallenge).0, old(self).spec_bytes()),
            final(self).flags == old(self).flags,
            final(self).reserved == old(self).reserved,
    {
        proof {
            lemma_le4(self.hdr.chksum);
        }
        let code = McuMailboxReqKind::GetAuthCmdChallenge.cmd_code().0;
        let bytes = self.as_bytes();
        let chk = tail_checksum(code, &bytes);
        self.hdr.chksum = chk;
        proof {
            lemma_le4(chk);
        }
        assert(self.spec_bytes() =~= with_checksum(code, old(self).spec_bytes()));
    }

    /// Reading the bytes of a request gives it back.
    pub proof fn lemma_roundtrip(&self)
        ensures
            Self::spec_from_bytes(self.spec_bytes()) == Some(*self),
    {
        lemma_le4(self.hdr.chksum);
        lemma_le4(self.flags);
        lemma_le4(self.reserved);
        let b = self.spec_bytes();
        assert(b.subrange(0, 4) =~= le4(self.hdr.chksum));
        assert(b.subrange(4, 8) =~= le4(self.flags));
        assert(b.subrange(8, 12) =~= le4(self.reserved));
    }
}

/// FUSE_REVOKE_VENDOR_PUB_KEY: a reserved word, the vendor PK hash slot, the key type and the key index.
#[derive(Debug, Clone, Copy, PartialEq, Eq, Structural)]
pub struct FuseRevokeVendorPubKeyReq {
    pub hdr: MailboxReqHeader,
    pub reserved: u32,
    pub vendor_pk_hash_slot: u32,
    pub key_type: u32,
    pub key_index: u32,
}

impl FuseRevokeVendorPubKeyReq {
    /// The 20 bytes of the request.
    pub open spec fn spec_bytes(&self) -> Seq<u8> {
        le4(self.hdr.chksum) + le4(self.reserved) + le4(self.vendor_pk_hash_slot) + le4(self.key_type) + le4(self.key_index)
    }

    /// The request read from exactly 20 bytes.
    pub open spec fn spec_from_bytes(bytes: Seq<u8>) -> Option<FuseRevokeVendorPubKeyReq> {
        if bytes.len() == 20 {
            Some(
                FuseRevokeVendorPubKeyReq {
                    hdr: MailboxReqHeader { chksum: word_at(bytes, 0) },
                    reserved: word_at(bytes, 4),
                    vendor_pk_hash_slot: word_at(bytes, 8),
                    key_type: word_at(bytes, 12),
                    key_index: word_at(bytes, 16),
                },
            )
        } else {
            None
        }
    }

    pub fn as_bytes(&self) -> (r: Vec<u8>)
        ensures
            r@ == self.spec_bytes(),
            r@.len() == 20,
    {
        let mut v: Vec<u8> = Vec::new();
        push_u32(&mut v, self.hdr.chksum);
        push_u32(&mut v, self.reserved);
        push_u32(&mut v, self.vendor_pk_hash_slot);
        push_u32(&mut v, self.key_type);
        push_u32(&mut v, self.key_index);
        v
    }

    pub fn read_from_bytes(bytes: &[u8]) -> (r: Option<FuseRevokeVendorPubKeyReq>)
        ensures
            r == Self::spec_from_bytes(bytes@),
    {
        if bytes.len() != 20 {
            return None;
        }

        Some(
            FuseRevokeVendorPubKeyReq {
                hdr: MailboxReqHeader { chksum: read_u32(bytes, 0) },
                reserved: read_u32(bytes, 4),
                vendor_pk_hash_slot: read_u32(bytes, 8),
                key_type: read_u32(bytes, 12),
                key_index: read_u32(bytes, 16),
            },
        )
    }

    /// Sets the checksum to that of the rest of the request under the
    /// request's command code.
    pub fn populate_chksum(&mut self)
        ensures
            final(self).spec_bytes() == with_checksum(spec_cmd_code(McuMailboxReqKind::FuseRevokeVendorPubKey).0, old(self).spec_bytes()),
            final(self).reserved == old(self).reserved,
            final(self).vendor_pk_hash_slot == old(self).vendor_pk_hash_slot,
            final(self).key_type == old(self).key_type,
            final(self).key_index == old(self).key_index,
    {
        proof {
            lemma_le4(self.hdr.chksum);
        }
        let code = McuMailboxReqKind::FuseRevokeVendorPubKey.cmd_code().0;
        let bytes = self.as_bytes();
        let chk = tail_checksum(code, &bytes);
        self.hdr.chksum = chk;
        proof {
            lemma_le4(chk);
        }
        assert(self.spec_bytes() =~= with_checksum(code, old(self).spec_bytes()));
    }

    /// Reading the bytes of a request gives it back.
    pub proof fn lemma_roundtrip(&self)
        ensures
            Self::spec_from_bytes(self.spec_bytes()) == Some(*self),
    {
        lemma_le4(self.hdr.chksum);
        lemma_le4(self.reserved);
        lemma_le4(self.vendor_pk_hash_slot);
        lemma_le4(self.key_type);
        lemma_le4(self.key_index);
        let b = self.spec_bytes();
        assert(b.subrange(0, 4) =~= le4(self.hdr.chksum));
        assert(b.subrange(4, 8) =~= le4(self.reserved));
        assert(b.subrange(8, 12) =~= le4(self.vendor_pk_hash_slot));
        assert(b.subrange(12, 16) =~= le4(self.key_type));
        assert(b.subrange(16, 20) =~= le4(self.key_index));
    }
}

/// PROVISION_VENDOR_PK_HASH: the slot and the 48-byte hash.
#[derive(Debug, Clone, Copy)]
pub struct ProvisionVendorPkHashReq {
    pub hdr: MailboxReqHeader,
    pub slot: u32,
    pub hash: [u8; 48],
}

impl ProvisionVendorPkHashReq {
    /// The 56 bytes of the request.
    pub open spec fn spec_bytes(&self) -> Seq<u8> {
        le4(self.hdr.chksum) + le4(self.slot) + self.hash@
    }

    /// The request read from exactly 56 bytes.
    pub open spec fn spec_from_bytes(bytes: Seq<u8>) -> Option<ProvisionVendorPkHashReq> {
        if bytes.len() == 56 {
            Some(
                ProvisionVendorPkHashReq {
                    hdr: MailboxReqHeader { chksum: word_at(bytes, 0) },
                    slot: word_at(bytes, 4),
                    hash: array_of::<48>(bytes.subrange(8, 56)),
                },
            )
        } else {
            None
        }
    }

    pub fn as_bytes(&self) -> (r: Vec<u8>)
        ensures
            r@ == self.spec_bytes(),
            r@.len() == 56,
    {
        let mut v: Vec<u8> = Vec::new();
        push_u32(&mut v, self.hdr.chksum);
        push_u32(&mut v, self.slot);
        append_bytes(&mut v, self.hash.as_slice());
        v
    }

    pub fn read_from_bytes(bytes: &[u8]) -> (r: Option<ProvisionVendorPkHashReq>)
        ensures
            r == Self::spec_from_bytes(bytes@),
    {
        if bytes.len() != 56 {
            return None;
        }
        let raw_hash = read_bytes(bytes, 8, 48);
        let hash = pad_copy::<48>(raw_hash.as_slice());
        proof {
            assert(hash@ =~= bytes@.subrange(8, 56));
            lemma_array_of::<48>(hash);
        }
        Some(
            ProvisionVendorPkHashReq {
                hdr: MailboxReqHeader { chksum: read_u32(bytes, 0) },
                slot: read_u32(bytes, 4),
                hash,
            },
        )
    }

    /// Sets the checksum to that of the rest of the request under the
    /// request's command code.
    pub fn populate_chksum(&mut self)
        ensures
            final(self).spec_bytes() == with_checksum(spec_cmd_code(McuMailboxReqKind::ProvisionVendorPkHash).0, old(self).spec_bytes()),
            final(self).slot == old(self).slot,
            final(self).hash == old(self).hash,
    {
        proof {
            lemma_le4(self.hdr.chksum);
        }
        let code = McuMailboxReqKind::ProvisionVendorPkHash.cmd_code().0;
        let bytes = self.as_bytes();
        let chk = tail_checksum(code, &bytes);
        self.hdr.chksum = chk;
        proof {
            lemma_le4(chk);
        }
        assert(self.spec_bytes() =~= with_checksum(code, old(self).spec_bytes()));
    }

    /// Reading the bytes of a request gives it back.
    pub proof fn lemma_roundtrip(&self)
        ensures
            Self::spec_from_bytes(self.spec_bytes()) == Some(*self),
    {
        lemma_le4(self.hdr.chksum);
        lemma_le4(self.slot);
        lemma_array_of::<48>(self.hash);
        let b = self.spec_bytes();
        assert(b.subrange(0, 4) =~= le4(self.hdr.chksum));
        assert(b.subrange(4, 8) =~= le4(self.slot));
        assert(b.subrange(8, 56) =~= self.hash@);
    }
}

/// FUSE_REVOKE_VENDOR_PK_HASH: a reserved word and the vendor PK hash slot.
#[derive(Debug, Clone, Copy, PartialEq, Eq, Structural)]
pub struct FuseRevokeVendorPkHashReq {
    pub hdr: MailboxReqHeader,
    pub reserved: u32,
    pub vendor_pk_hash_slot: u32,
}

impl FuseRevokeVendorPkHashReq {
    /// The 12 bytes of the request.
    pub open spec fn spec_bytes(&self) -> Seq<u8> {
        le4(self.hdr.chksum) + le4(self.reserved) + le4(self.vendor_pk_hash_slot)
    }

    /// The request read from exactly 12 bytes.
    pub open spec fn spec_from_bytes(bytes: Seq<u8>) -> Option<FuseRevokeVendorPkHashReq> {
        if bytes.len() == 12 {
            Some(
                FuseRevokeVendorPkHashReq {
                    hdr: MailboxReqHeader { chksum: word_at(bytes, 0) },
                    reserved: word_at(bytes, 4),
                    vendor_pk_hash_slot: word_at(bytes, 8),
                },
            )
        } else {
            None
        }
    }

    pub fn as_bytes(&self) -> (r: Vec<u8>)
        ensures
            r@ == self.spec_bytes(),
            r@.len() == 12,
    {
        let mut v: Vec<u8> = Vec::new();
        push_u32(&mut v, self.hdr.chksum);
        push_u32(&mut v, self.reserved);
        push_u32(&mut v, self.vendor_pk_hash_slot);
        v
    }

    pub fn read_from_bytes(bytes: &[u8]) -> (r: Option<FuseRevokeVendorPkHashReq>)
        ensures
            r == Self::spec_from_bytes(bytes@),
    {
        if bytes.len() != 12 {
            return None;
        }

        Some(
            FuseRevokeVendorPkHashReq {
                hdr: MailboxReqHeader { chksum: read_u32(bytes, 0) },
                reserved: read_u32(bytes, 4),
                vendor_pk_hash_slot: read_u32(bytes, 8),
            },
        )
    }

    /// Sets the checksum to that of the rest of the request under the
    /// request's command code.
    pub fn populate_chksum(&mut self)
        ensures
            final(self).spec_bytes() == with_checksum(spec_cmd_code(McuMailboxReqKind::FuseRevokeVendorPkHash).0, old(self).spec_bytes()),
            final(self).reserved == old(self).reserved,
            final(self).vendor_pk_hash_slot == old(self).vendor_pk_hash_slot,
    {
        proof {
            lemma_le4(self.hdr.chksum);
        }
        let code = McuMailboxReqKind::FuseRevokeVendorPkHash.cmd_code().0;
        let bytes = self.as_bytes();
        let chk = tail_checksum(code, &bytes);
        self.hdr.chksum = chk;
        proof {
            lemma_le4(chk);
        }
        assert(self.spec_bytes() =~= with_checksum(code, old(self).spec_bytes()));
    }

    /// Reading the bytes of a request gives it back.
    pub proof fn lemma_roundtrip(&self)
        ensures
            Self::spec_from_bytes(self.spec_bytes()) == Some(*self),
    {
        lemma_le4(self.hdr.chksum);
        lemma_le4(self.reserved);
        lemma_le4(self.vendor_pk_hash_slot);
        let b = self.spec_bytes();
        assert(b.subrange(0, 4) =~= le4(self.hdr.chksum));
        assert(b.subrange(4, 8) =~= le4(self.reserved));
        assert(b.subrange(8, 12) =~= le4(self.vendor_pk_hash_slot));
    }
}

/// OCP Lock SET_PERMA_HEK: the subcommand.
#[derive(Debug, Clone, Copy, PartialEq, Eq, Structural)]
pub struct OcpLockSetPermaHekReq {
    pub hdr: MailboxReqHeader,
    pub subcommand: u32,
}

impl OcpLockSetPermaHekReq {
    /// The 8 bytes of the request.
    pub open spec fn spec_bytes(&self) -> Seq<u8> {
        le4(self.hdr.chksum) + le4(self.subcommand)
    }

    /// The request read from exactly 8 bytes.
    pub open spec fn spec_from_bytes(bytes: Seq<u8>) -> Option<OcpLockSetPermaHekReq> {
        if bytes.len() == 8 {
            Some(
                OcpLockSetPermaHekReq {
                    hdr: MailboxReqHeader { chksum: word_at(bytes, 0) },
                    subcommand: word_at(bytes, 4),
                },
            )
        } else {
            None
        }
    }

    pub fn as_bytes(&self) -> (r: Vec<u8>)
        ensures
            r@ == self.spec_bytes(),
            r@.len() == 8,
    {
        let mut v: Vec<u8> = Vec::new();
        push_u32(&mut v, self.hdr.chksum);
        push_u32(&mut v, self.subcommand);
        v
    }

    pub fn read_from_bytes(bytes: &[u8]) -> (r: Option<OcpLockSetPermaHekReq>)
        ensures
            r == Self::spec_from_bytes(bytes@),
    {
        if bytes.len() != 8 {
            return None;
        }

        Some(
            OcpLockSetPermaHekReq {
                hdr: MailboxReqHeader { chksum: read_u32(bytes, 0) },
                subcommand: read_u32(bytes, 4),
            },
        )
    }

    /// Sets the checksum to that of the rest of the request under the
    /// request's command code.
    pub fn populate_chksum(&mut self)
        ensures
            final(self).spec_bytes() == with_checksum(spec_cmd_code(McuMailboxReqKind::OcpLockSetPermaHek).0, old(self).spec_bytes()),
            final(self).subcommand == old(self).subcommand,
    {
        proof {
            lemma_le4(self.hdr.chksum);
        }
        let code = McuMailboxReqKind::OcpLockSetPermaHek.cmd_code().0;
        let bytes = self.as_bytes();
        let chk = tail_checksum(code, &bytes);
        self.hdr.chksum = chk;
        proof {
            lemma_le4(chk);
        }
        assert(self.spec_bytes() =~= with_checksum(code, old(self).spec_bytes()));
    }

    /// Reading the bytes of a request gives it back.
    pub proof fn lemma_roundtrip(&self)
        ensures
            Self::spec_from_bytes(self.spec_bytes()) == Some(*self),
    {
        lemma_le4(self.hdr.chksum);
        lemma_le4(self.subcommand);
        let b = self.spec_bytes();
        assert(b.subrange(0, 4) =~= le4(self.hdr.chksum));
        assert(b.subrange(4, 8) =~= le4(self.subcommand));
    }
}

impl Default for OcpLockSetPermaHekReq {
    /// A zero request carrying its subcommand.
    fn default() -> (r: Self)
        ensures
            r.hdr.chksum == 0,
            r.subcommand == 0x4f4c_5350,
    {
        OcpLockSetPermaHekReq {
            hdr: MailboxReqHeader { chksum: 0 },
            subcommand: CommandId::MC_OCP_LOCK_SET_PERMA_HEK().0,
        }
    }
}

/// OCP Lock ROTATE_HEK: the subcommand and the HEK slot.
#[derive(Debug, Clone, Copy, PartialEq, Eq, Structural)]
pub struct OcpLockRotateHekReq {
    pub hdr: MailboxReqHeader,
    pub subcommand: u32,
    pub hek_slot: u32,
}

impl OcpLockRotateHekReq {
    /// The 12 bytes of the request.
    pub open spec fn spec_bytes(&self) -> Seq<u8> {
        le4(self.hdr.chksum) + le4(self.subcommand) + le4(self.hek_slot)
    }

    /// The request read from exactly 12 bytes.
    pub open spec fn spec_from_bytes(bytes: Seq<u8>) -> Option<OcpLockRotateHekReq> {
        if bytes.len() == 12 {
            Some(
                OcpLockRotateHekReq {
                    hdr: MailboxReqHeader { chksum: word_at(bytes, 0) },
                    subcommand: word_at(bytes, 4),
                    hek_slot: word_at(bytes, 8),
                },
            )
        } else {
            None
        }
    }

    pub fn as_bytes(&self) -> (r: Vec<u8>)
        ensures
            r@ == self.spec_bytes(),
            r@.len() == 12,
    {
        let mut v: Vec<u8> = Vec::new();
        push_u32(&mut v, self.hdr.chksum);
        push_u32(&mut v, self.subcommand);
        push_u32(&mut v, self.hek_slot);
        v
    }

    pub fn read_from_bytes(bytes: &[u8]) -> (r: Option<OcpLockRotateHekReq>)
        ensures
            r == Self::spec_from_bytes(bytes@),
    {
        if bytes.len() != 12 {
            return None;
        }

        Some(
            OcpLockRotateHekReq {
                hdr: MailboxReqHeader { chksum: read_u32(bytes, 0) },
                subcommand: read_u32(bytes, 4),
                hek_slot: read_u32(bytes, 8),
            },
        )
    }

    /// Sets the checksum to that of the rest of the request under the
    /// request's command code.
    pub fn populate_chksum(&mut self)
        ensures
            final(self).spec_bytes() == with_checksum(spec_cmd_code(McuMailboxReqKind::OcpLockRotateHek).0, old(self).spec_bytes()),
            final(self).subcommand == old(self).subcommand,
            final(self).hek_slot == old(self).hek_slot,
    {
        proof {
            lemma_le4(self.hdr.chksum);
        }
        let code = McuMailboxReqKind::OcpLockRotateHek.cmd_code().0;
        let bytes = self.as_bytes();
        let chk = tail_checksum(code, &bytes);
        self.hdr.chksum = chk;
        proof {
            lemma_le4(chk);
        }
        assert(self.spec_bytes() =~= with_checksum(code, old(self).spec_bytes()));
    }

    /// Reading the bytes of a request gives it back.
    pub proof fn lemma_roundtrip(&self)
        ensures
            Self::spec_from_bytes(self.spec_bytes()) == Some(*self),
    {
        lemma_le4(self.hdr.chksum);
        lemma_le4(self.subcommand);
        lemma_le4(self.hek_slot);
        let b = self.spec_bytes();
        assert(b.subrange(0, 4) =~= le4(self.hdr.chksum));
        assert(b.subrange(4, 8) =~= le4(self.subcommand));
        assert(b.subrange(8, 12) =~= le4(self.hek_slot));
    }
}

impl Default for OcpLockRotateHekReq {
    /// A zero request carrying its subcommand.
    fn default() -> (r: Self)
        ensures
            r.hdr.chksum == 0,
            r.subcommand == 0x4f4c_5248,
            r.hek_slot == 0,
    {
        OcpLockRotateHekReq {
            hdr: MailboxReqHeader { chksum: 0 },
            subcommand: CommandId::MC_OCP_LOCK_ROTATE_HEK().0,
            hek_slot: 0,
        }
    }
}

} // verus!
