//! The vendor and owner public key hash provisioning checks: the 48-byte
//! hash given as hexadecimal text, and the payload the authorizer signs.
use crate::host::dot::{decode_hex, hex_decoded};
use crate::wire::{append_bytes, le4, push_u32};
use vstd::prelude::*;

verus! {

/// The length of a public key hash.
pub const PK_HASH_LEN: usize = 48;

/// Why a configured hash cannot be used.
#[derive(Debug, Clone, Copy, PartialEq, Eq, Structural)]
pub enum PkHashError {
    /// The text is not hexadecimal.
    InvalidHex,
    /// The text decodes to this many bytes, not 48.
    WrongLength(usize),
}

/// The hash written as hexadecimal text: its 48 bytes, or why it cannot be
/// used.
pub fn parse_pk_hash(hash_hex: &str) -> (r: Result<Vec<u8>, PkHashError>)
    ensures
        match hex_decoded(hash_hex@) {
            None => r == Err::<Vec<u8>, PkHashError>(PkHashError::InvalidHex),
            Some(b) => if b.len() == PK_HASH_LEN {
                r matches Ok(v) && v@ == b
            } else {
                r == Err::<Vec<u8>, PkHashError>(PkHashError::WrongLength(b.len() as usize))
            },
        },
{
    let bytes = match decode_hex(hash_hex) {
        Some(b) => b,
        None => return Err(PkHashError::InvalidHex),
    };
    if bytes.len() != PK_HASH_LEN {
        return Err(PkHashError::WrongLength(bytes.len()));
    }
    Ok(bytes)
}

/// The PROVISION_VENDOR_PK_HASH payload to authorize: the slot
/// (little-endian), then the hash.
pub fn vendor_pk_hash_payload(slot: u32, hash: &[u8]) -> (r: Vec<u8>)
    ensures
        r@ == le4(slot) + hash@,
{
    let mut v: Vec<u8> = Vec::new();
    push_u32(&mut v, slot);
    append_bytes(&mut v, hash);
    v
}

} // verus!
