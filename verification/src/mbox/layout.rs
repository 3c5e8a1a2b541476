//! The wire layout of mailbox messages: a request starts with its checksum,
//! a response with its checksum and FIPS status, then the fields follow,
//! packed, integers little-endian.
use crate::mbox::checksum::{calc_checksum, mbox_checksum, with_checksum};
use crate::mbox::messages::McuMboxError;
use crate::mbox::request::{spec_cmd_code, McuMailboxReqKind};
use crate::wire::{
    append_bytes, array_of, from_le4, le4, lemma_array_of, lemma_le4, pad_copy, push_u32, read_bytes, read_u32,
};
use vstd::prelude::*;
use vstd::slice::slice_subrange;

verus! {

/// The header of a request: its checksum.
#[derive(Debug, Clone, Copy, PartialEq, Eq, Structural)]
pub struct MailboxReqHeader {
    pub chksum: u32,
}

/// The header of a response: its checksum and FIPS status.
#[derive(Debug, Clone, Copy, PartialEq, Eq, Structural)]
pub struct MailboxRespHeader {
    pub chksum: u32,
    pub fips_status: u32,
}

/// FUSE_READ: the partition and the entry within it.
#[derive(Debug, Clone, Copy, PartialEq, Eq, Structural)]
pub struct FuseReadReq {
    pub hdr: MailboxReqHeader,
    pub partition: u32,
    pub entry: u32,
}

/// FUSE_LOCK_PARTITION: the partition.
#[derive(Debug, Clone, Copy, PartialEq, Eq, Structural)]
pub struct FuseLockPartitionReq {
    pub hdr: MailboxReqHeader,
    pub partition: u32,
}

/// PROVISION_OWNER_PK_HASH: the 48-byte hash.
#[derive(Debug, Clone, Copy)]
pub struct ProvisionOwnerPkHashReq {
    pub hdr: MailboxReqHeader,
    pub hash: [u8; 48],
}

/// GET_ATTESTATION: the evidence format, the algorithm, the PKI entity slot
/// and a 32-byte nonce.
#[derive(Debug, Clone, Copy)]
pub struct GetAttestationReq {
    pub hdr: MailboxReqHeader,
    pub evidence_format: u32,
    pub algorithm: u32,
    pub pki_entity_slot: u32,
    pub nonce: [u8; 32],
}

/// The bytes of the message after the checksum.
pub open spec fn after_checksum(bytes: Seq<u8>) -> Seq<u8> {
    bytes.skip(4)
}

/// The four bytes at `off`, read little-endian.
pub open spec fn word_at(bytes: Seq<u8>, off: int) -> u32 {
    from_le4(bytes.subrange(off, off + 4))
}

/// The checksum of a message's bytes after its checksum field.
fn body_checksum(cmd: u32, bytes: &Vec<u8>) -> (r: u32)
    requires
        bytes@.len() >= 4,
    ensures
        r == mbox_checksum(cmd, bytes@.skip(4)),
{
    let len = bytes.len();
    let body = slice_subrange(bytes.as_slice(), 4, len);
    assert(body@ =~= bytes@.skip(4));
    calc_checksum(cmd, body)
}

impl MailboxRespHeader {
    /// The 8 bytes of the header.
    pub open spec fn spec_bytes(&self) -> Seq<u8> {
        le4(self.chksum) + le4(self.fips_status)
    }

    /// The header read from exactly 8 bytes.
    pub open spec fn spec_from_bytes(bytes: Seq<u8>) -> Option<MailboxRespHeader> {
        if bytes.len() == 8 {
            Some(MailboxRespHeader { chksum: word_at(bytes, 0), fips_status: word_at(bytes, 4) })
        } else {
            None
        }
    }

    pub fn as_bytes(&self) -> (r: Vec<u8>)
        ensures
            r@ == self.spec_bytes(),
    {
        let mut v: Vec<u8> = Vec::new();
        push_u32(&mut v, self.chksum);
        push_u32(&mut v, self.fips_status);
        v
    }

    pub fn read_from_bytes(bytes: &[u8]) -> (r: Option<MailboxRespHeader>)
        ensures
            r == Self::spec_from_bytes(bytes@),
    {
        if bytes.len() != 8 {
            return None;
        }
        Some(MailboxRespHeader { chksum: read_u32(bytes, 0), fips_status: read_u32(bytes, 4) })
    }

    /// Sets the checksum to that of the rest of the response (a response is
    /// summed with command code zero).
    pub fn populate_chksum(&mut self)
        ensures
            final(self).spec_bytes() == with_checksum(0, old(self).spec_bytes()),
            final(self).chksum == mbox_checksum(0, le4(old(self).fips_status)),
            final(self).fips_status == old(self).fips_status,
    {
        proof {
            lemma_le4(self.chksum);
            lemma_le4(self.fips_status);
        }
        let bytes = self.as_bytes();
        let chk = body_checksum(0, &bytes);
        assert(bytes@.skip(4) =~= le4(self.fips_status));
        self.chksum = chk;
        proof {
            lemma_le4(chk);
        }
        assert(self.spec_bytes() =~= with_checksum(0, old(self).spec_bytes()));
    }

    /// Reading the bytes of a header gives it back.
    pub proof fn lemma_roundtrip(&self)
        ensures
            Self::spec_from_bytes(self.spec_bytes()) == Some(*self),
    {
        lemma_le4(self.chksum);
        lemma_le4(self.fips_status);
        assert(self.spec_bytes().subrange(0, 4) =~= le4(self.chksum));
        assert(self.spec_bytes().subrange(4, 8) =~= le4(self.fips_status));
    }
}

impl FuseReadReq {
    /// The 12 bytes of the request.
    pub open spec fn spec_bytes(&self) -> Seq<u8> {
        le4(self.hdr.chksum) + le4(self.partition) + le4(self.entry)
    }

    /// The request read from exactly 12 bytes.
    pub open spec fn spec_from_bytes(bytes: Seq<u8>) -> Option<FuseReadReq> {
        if bytes.len() == 12 {
            Some(
                FuseReadReq {
                    hdr: MailboxReqHeader { chksum: word_at(bytes, 0) },
                    partition: word_at(bytes, 4),
                    entry: word_at(bytes, 8),
                },
            )
        } else {
            None
        }
    }

    pub fn as_bytes(&self) -> (r: Vec<u8>)
        ensures
            r@ == self.spec_bytes(),
    {
        let mut v: Vec<u8> = Vec::new();
        push_u32(&mut v, self.hdr.chksum);
        push_u32(&mut v, self.partition);
        push_u32(&mut v, self.entry);
        v
    }

    pub fn read_from_bytes(bytes: &[u8]) -> (r: Option<FuseReadReq>)
        ensures
            r == Self::spec_from_bytes(bytes@),
    {
        if bytes.len() != 12 {
            return None;
        }
        Some(
            FuseReadReq {
                hdr: MailboxReqHeader { chksum: read_u32(bytes, 0) },
                partition: read_u32(bytes, 4),
                entry: read_u32(bytes, 8),
            },
        )
    }

    /// Sets the checksum to that of the rest of the request under the
    /// FUSE_READ command code.
    pub fn populate_chksum(&mut self)
        ensures
            final(self).spec_bytes() == with_checksum(
                spec_cmd_code(McuMailboxReqKind::FuseRead).0,
                old(self).spec_bytes(),
            ),
            final(self).partition == old(self).partition,
            final(self).entry == old(self).entry,
    {
        proof {
            lemma_le4(self.hdr.chksum);
        }
        let code = McuMailboxReqKind::FuseRead.cmd_code().0;
        let bytes = self.as_bytes();
        let chk = body_checksum(code, &bytes);
        self.hdr.chksum = chk;
        proof {
            lemma_le4(chk);
        }
        assert(self.spec_bytes() =~= with_checksum(code, old(self).spec_bytes()));
    }

    /// Reading the bytes of a request gives it back.
    pub proof fn lemma_roundtrip(&self)
        ensures
            Self::spec_from_bytes(self.spec_bytes()) == Some(*self),
    {
        lemma_le4(self.hdr.chksum);
        lemma_le4(self.partition);
        lemma_le4(self.entry);
        assert(self.spec_bytes().subrange(0, 4) =~= le4(self.hdr.chksum));
        assert(self.spec_bytes().subrange(4, 8) =~= le4(self.partition));
        assert(self.spec_bytes().subrange(8, 12) =~= le4(self.entry));
    }
}

impl FuseLockPartitionReq {
    /// The 8 bytes of the request.
    pub open spec fn spec_bytes(&self) -> Seq<u8> {
        le4(self.hdr.chksum) + le4(self.partition)
    }

    /// The request read from exactly 8 bytes.
    pub open spec fn spec_from_bytes(bytes: Seq<u8>) -> Option<FuseLockPartitionReq> {
        if bytes.len() == 8 {
            Some(FuseLockPartitionReq { hdr: MailboxReqHeader { chksum: word_at(bytes, 0) }, partition: word_at(bytes, 4) })
        } else {
            None
        }
    }

    pub fn as_bytes(&self) -> (r: Vec<u8>)
        ensures
            r@ == self.spec_bytes(),
    {
        let mut v: Vec<u8> = Vec::new();
        push_u32(&mut v, self.hdr.chksum);
        push_u32(&mut v, self.partition);
        v
    }

    pub fn read_from_bytes(bytes: &[u8]) -> (r: Option<FuseLockPartitionReq>)
        ensures
            r == Self::spec_from_bytes(bytes@),
    {
        if bytes.len() != 8 {
            return None;
        }
        Some(FuseLockPartitionReq { hdr: MailboxReqHeader { chksum: read_u32(bytes, 0) }, partition: read_u32(bytes, 4) })
    }

    /// Sets the checksum to that of the rest of the request under the
    /// FUSE_LOCK_PARTITION command code.
    pub fn populate_chksum(&mut self)
        ensures
            final(self).spec_bytes() == with_checksum(
                spec_cmd_code(McuMailboxReqKind::FuseLockPartition).0,
                old(self).spec_bytes(),
            ),
            final(self).partition == old(self).partition,
    {
        proof {
            lemma_le4(self.hdr.chksum);
        }
        let code = McuMailboxReqKind::FuseLockPartition.cmd_code().0;
        let bytes = self.as_bytes();
        let chk = body_checksum(code, &bytes);
        self.hdr.chksum = chk;
        proof {
            lemma_le4(chk);
        }
        assert(self.spec_bytes() =~= with_checksum(code, old(self).spec_bytes()));
    }

    /// Reading the bytes of a request gives it back.
    pub proof fn lemma_roundtrip(&self)
        ensures
            Self::spec_from_bytes(self.spec_bytes()) == Some(*self),
    {
        lemma_le4(self.hdr.chksum);
        lemma_le4(self.partition);
        assert(self.spec_bytes().subrange(0, 4) =~= le4(self.hdr.chksum));
        assert(self.spec_bytes().subrange(4, 8) =~= le4(self.partition));
    }
}

impl ProvisionOwnerPkHashReq {
    /// The 52 bytes of the request.
    pub open spec fn spec_bytes(&self) -> Seq<u8> {
        le4(self.hdr.chksum) + self.hash@
    }

    /// The request read from exactly 52 bytes.
    pub open spec fn spec_from_bytes(bytes: Seq<u8>) -> Option<ProvisionOwnerPkHashReq> {
        if bytes.len() == 52 {
            Some(
                ProvisionOwnerPkHashReq {
                    hdr: MailboxReqHeader { chksum: word_at(bytes, 0) },
                    hash: array_of::<48>(bytes.subrange(4, 52)),
                },
            )
        } else {
            None
        }
    }

    pub fn as_bytes(&self) -> (r: Vec<u8>)
        ensures
            r@ == self.spec_bytes(),
    {
        let mut v: Vec<u8> = Vec::new();
        push_u32(&mut v, self.hdr.chksum);
        append_bytes(&mut v, self.hash.as_slice());
        v
    }

    pub fn read_from_bytes(bytes: &[u8]) -> (r: Option<ProvisionOwnerPkHashReq>)
        ensures
            r == Self::spec_from_bytes(bytes@),
    {
        if bytes.len() != 52 {
            return None;
        }
        let raw = read_bytes(bytes, 4, 48);
        let hash = pad_copy::<48>(raw.as_slice());
        proof {
            assert(hash@ =~= bytes@.subrange(4, 52));
            lemma_array_of::<48>(hash);
        }
        Some(ProvisionOwnerPkHashReq { hdr: MailboxReqHeader { chksum: read_u32(bytes, 0) }, hash })
    }

    /// Sets the checksum to that of the rest of the request under the
    /// PROVISION_OWNER_PK_HASH command code.
    pub fn populate_chksum(&mut self)
        ensures
            final(self).spec_bytes() == with_checksum(
                spec_cmd_code(McuMailboxReqKind::ProvisionOwnerPkHash).0,
                old(self).spec_bytes(),
            ),
            final(self).hash == old(self).hash,
    {
        proof {
            lemma_le4(self.hdr.chksum);
        }
        let code = McuMailboxReqKind::ProvisionOwnerPkHash.cmd_code().0;
        let bytes = self.as_bytes();
        let chk = body_checksum(code, &bytes);
        self.hdr.chksum = chk;
        proof {
            lemma_le4(chk);
        }
        assert(self.spec_bytes() =~= with_checksum(code, old(self).spec_bytes()));
    }

    /// Reading the bytes of a request gives it back.
    pub proof fn lemma_roundtrip(&self)
        ensures
            Self::spec_from_bytes(self.spec_bytes()) == Some(*self),
    {
        lemma_le4(self.hdr.chksum);
        lemma_array_of::<48>(self.hash);
        assert(self.spec_bytes().subrange(0, 4) =~= le4(self.hdr.chksum));
        assert(self.spec_bytes().subrange(4, 52) =~= self.hash@);
    }
}

impl GetAttestationReq {
    /// The 48 bytes of the request.
    pub open spec fn spec_bytes(&self) -> Seq<u8> {
        le4(self.hdr.chksum) + le4(self.evidence_format) + le4(self.algorithm) + le4(self.pki_entity_slot)
            + self.nonce@
    }

    /// The request read from exactly 48 bytes.
    pub open spec fn spec_from_bytes(bytes: Seq<u8>) -> Option<GetAttestationReq> {
        if bytes.len() == 48 {
            Some(
                GetAttestationReq {
                    hdr: MailboxReqHeader { chksum: word_at(bytes, 0) },
                    evidence_format: word_at(bytes, 4),
                    algorithm: word_at(bytes, 8),
                    pki_entity_slot: word_at(bytes, 12),
                    nonce: array_of::<32>(bytes.subrange(16, 48)),
                },
            )
        } else {
            None
        }
    }

    pub fn as_bytes(&self) -> (r: Vec<u8>)
        ensures
            r@ == self.spec_bytes(),
    {
        let mut v: Vec<u8> = Vec::new();
        push_u32(&mut v, self.hdr.chksum);
        push_u32(&mut v, self.evidence_format);
        push_u32(&mut v, self.algorithm);
        push_u32(&mut v, self.pki_entity_slot);
        append_bytes(&mut v, self.nonce.as_slice());
        v
    }

    pub fn read_from_bytes(bytes: &[u8]) -> (r: Option<GetAttestationReq>)
        ensures
            r == Self::spec_from_bytes(bytes@),
    {
        if bytes.len() != 48 {
            return None;
        }
        let raw = read_bytes(bytes, 16, 32);
        let nonce = pad_copy::<32>(raw.as_slice());
        proof {
            assert(nonce@ =~= bytes@.subrange(16, 48));
            lemma_array_of::<32>(nonce);
        }
        Some(
            GetAttestationReq {
                hdr: MailboxReqHeader { chksum: read_u32(bytes, 0) },
                evidence_format: read_u32(bytes, 4),
                algorithm: read_u32(bytes, 8),
                pki_entity_slot: read_u32(bytes, 12),
                nonce,
            },
        )
    }

    /// Sets the checksum to that of the rest of the request under the
    /// GET_ATTESTATION command code.
    pub fn populate_chksum(&mut self)
        ensures
            final(self).spec_bytes() == with_checksum(
                spec_cmd_code(McuMailboxReqKind::GetAttestation).0,
                old(self).spec_bytes(),
            ),
            final(self).evidence_format == old(self).evidence_format,
            final(self).algorithm == old(self).algorithm,
            final(self).pki_entity_slot == old(self).pki_entity_slot,
            final(self).nonce == old(self).nonce,
    {
        proof {
            lemma_le4(self.hdr.chksum);
        }
        let code = McuMailboxReqKind::GetAttestation.cmd_code().0;
        let bytes = self.as_bytes();
        let chk = body_checksum(code, &bytes);
        self.hdr.chksum = chk;
        proof {
            lemma_le4(chk);
        }
        assert(self.spec_bytes() =~= with_checksum(code, old(self).spec_bytes()));
    }

    /// Reading the bytes of a request gives it back.
    pub proof fn lemma_roundtrip(&self)
        ensures
            Self::spec_from_bytes(self.spec_bytes()) == Some(*self),
    {
        lemma_le4(self.hdr.chksum);
        lemma_le4(self.evidence_format);
        lemma_le4(self.algorithm);
        lemma_le4(self.pki_entity_slot);
        lemma_array_of::<32>(self.nonce);
        let b = self.spec_bytes();
        assert(b.subrange(0, 4) =~= le4(self.hdr.chksum));
        assert(b.subrange(4, 8) =~= le4(self.evidence_format));
        assert(b.subrange(8, 12) =~= le4(self.algorithm));
        assert(b.subrange(12, 16) =~= le4(self.pki_entity_slot));
        assert(b.subrange(16, 48) =~= self.nonce@);
    }
}

/// The number of fuse data bytes a FUSE_READ response can hold.
pub const MAX_FUSE_DATA_SIZE: usize = 128;

/// The response to FUSE_READ: a variable-size header (checksum, FIPS status,
/// and the length of what follows it), the number of valid bits, and the
/// fuse data.
#[derive(Debug, Clone, Copy)]
pub struct FuseReadResp {
    pub hdr: MailboxRespHeader,
    pub data_len: u32,
    pub length_bits: u32,
    pub data: [u8; 128],
}

impl FuseReadResp {
    /// The 144 bytes of the whole structure.
    pub open spec fn spec_bytes(&self) -> Seq<u8> {
        self.hdr.spec_bytes() + le4(self.data_len) + le4(self.length_bits) + self.data@
    }

    /// The bytes the response puts on the wire: the 12-byte header and the
    /// `data_len` bytes after it, when they fit in the structure.
    pub open spec fn spec_partial_bytes(&self) -> Option<Seq<u8>> {
        if 12 + self.data_len <= 144 {
            Some(self.spec_bytes().take(12 + self.data_len))
        } else {
            None
        }
    }

    /// The structure read from exactly 144 bytes.
    pub open spec fn spec_from_bytes(bytes: Seq<u8>) -> Option<FuseReadResp> {
        if bytes.len() == 144 {
            Some(
                FuseReadResp {
                    hdr: MailboxRespHeader { chksum: word_at(bytes, 0), fips_status: word_at(bytes, 4) },
                    data_len: word_at(bytes, 8),
                    length_bits: word_at(bytes, 12),
                    data: array_of::<128>(bytes.subrange(16, 144)),
                },
            )
        } else {
            None
        }
    }

    pub fn as_bytes(&self) -> (r: Vec<u8>)
        ensures
            r@ == self.spec_bytes(),
            r@.len() == 144,
    {
        let mut v = self.hdr.as_bytes();
        push_u32(&mut v, self.data_len);
        push_u32(&mut v, self.length_bits);
        append_bytes(&mut v, self.data.as_slice());
        proof {
            lemma_le4(self.hdr.chksum);
            lemma_le4(self.hdr.fips_status);
            lemma_le4(self.data_len);
            lemma_le4(self.length_bits);
        }
        v
    }

    pub fn read_from_bytes(bytes: &[u8]) -> (r: Option<FuseReadResp>)
        ensures
            r == Self::spec_from_bytes(bytes@),
    {
        if bytes.len() != 144 {
            return None;
        }
        let raw = read_bytes(bytes, 16, 128);
        let data = pad_copy::<128>(raw.as_slice());
        proof {
            assert(data@ =~= bytes@.subrange(16, 144));
            lemma_array_of::<128>(data);
        }
        Some(
            FuseReadResp {
                hdr: MailboxRespHeader { chksum: read_u32(bytes, 0), fips_status: read_u32(bytes, 4) },
                data_len: read_u32(bytes, 8),
                length_bits: read_u32(bytes, 12),
                data,
            },
        )
    }

    /// The bytes on the wire, or `MCU_MBOX_RESPONSE_DATA_LEN_TOO_LARGE` when
    /// the data length goes past the structure.
    pub fn as_bytes_partial(&self) -> (r: Result<Vec<u8>, McuMboxError>)
        ensures
            match self.spec_partial_bytes() {
                Some(b) => r matches Ok(v) && v@ == b,
                None => r matches Err(e) && e@ == 1,
            },
    {
        if self.data_len > 132 {
            return Err(McuMboxError::MCU_MBOX_RESPONSE_DATA_LEN_TOO_LARGE());
        }
        let all = self.as_bytes();
        let n: usize = 12 + self.data_len as usize;
        let v = read_bytes(all.as_slice(), 0, n);
        assert(v@ =~= self.spec_bytes().take(12 + self.data_len));
        Ok(v)
    }

    /// Sets the checksum to that of the bytes on the wire after it (summed
    /// with command code zero); fails as `as_bytes_partial` does, changing
    /// nothing.
    pub fn populate_chksum(&mut self) -> (r: Result<(), McuMboxError>)
        ensures
            match old(self).spec_partial_bytes() {
                Some(b) => r is Ok && final(self).spec_partial_bytes() == Some(with_checksum(0, b)),
                None => r matches Err(e) && e@ == 1 && *final(self) == *old(self),
            },
            final(self).data_len == old(self).data_len,
            final(self).length_bits == old(self).length_bits,
            final(self).data == old(self).data,
            final(self).hdr.fips_status == old(self).hdr.fips_status,
    {
        let bytes = match self.as_bytes_partial() {
            Ok(b) => b,
            Err(e) => return Err(e),
        };
        proof {
            lemma_le4(self.hdr.chksum);
        }
        let chk = body_checksum(0, &bytes);
        self.hdr.chksum = chk;
        proof {
            lemma_le4(chk);
            let b = old(self).spec_partial_bytes().unwrap();
            assert(self.spec_bytes().take(12 + self.data_len) =~= with_checksum(0, b));
        }
        Ok(())
    }

    /// Reading the bytes of the structure gives it back.
    pub proof fn lemma_roundtrip(&self)
        ensures
            Self::spec_from_bytes(self.spec_bytes()) == Some(*self),
    {
        lemma_le4(self.hdr.chksum);
        lemma_le4(self.hdr.fips_status);
        lemma_le4(self.data_len);
        lemma_le4(self.length_bits);
        lemma_array_of::<128>(self.data);
        let b = self.spec_bytes();
        assert(b.subrange(0, 4) =~= le4(self.hdr.chksum));
        assert(b.subrange(4, 8) =~= le4(self.hdr.fips_status));
        assert(b.subrange(8, 12) =~= le4(self.data_len));
        assert(b.subrange(12, 16) =~= le4(self.length_bits));
        assert(b.subrange(16, 144) =~= self.data@);
    }
}

} // verus!
