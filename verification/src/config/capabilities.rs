//! Capability bitmaps that the MCU runtime reports: the features it runs,
//! the external commands it serves, and the authorized subcommands.
use crate::wire::be4;
use vstd::prelude::*;

verus! {

/// Features of the MCU runtime.
#[derive(Clone, Copy, Debug, PartialEq, Eq, Structural)]
pub struct McuRuntimeCapabilities {
    bits: u32,
}

impl View for McuRuntimeCapabilities {
    type V = u32;

    closed spec fn view(&self) -> u32 {
        self.bits
    }
}

impl McuRuntimeCapabilities {
    /// Boot from flash.
    #[allow(non_snake_case)]
    pub fn FLASH_BOOT() -> (r: McuRuntimeCapabilities)
        ensures
            r@ == 0x1,
    {
        McuRuntimeCapabilities { bits: 0x1 }
    }

    /// Streaming boot.
    #[allow(non_snake_case)]
    pub fn STREAMING_BOOT() -> (r: McuRuntimeCapabilities)
        ensures
            r@ == 0x2,
    {
        McuRuntimeCapabilities { bits: 0x2 }
    }

    /// Firmware update.
    #[allow(non_snake_case)]
    pub fn FIRMWARE_UPDATE() -> (r: McuRuntimeCapabilities)
        ensures
            r@ == 0x4,
    {
        McuRuntimeCapabilities { bits: 0x4 }
    }

    /// SPDM responder.
    #[allow(non_snake_case)]
    pub fn SPDM_RESPONDER() -> (r: McuRuntimeCapabilities)
        ensures
            r@ == 0x8,
    {
        McuRuntimeCapabilities { bits: 0x8 }
    }

    /// MCTP vendor-defined message responder.
    #[allow(non_snake_case)]
    pub fn MCTP_VDM_RESPONDER() -> (r: McuRuntimeCapabilities)
        ensures
            r@ == 0x10,
    {
        McuRuntimeCapabilities { bits: 0x10 }
    }

    /// Debug log from user space.
    #[allow(non_snake_case)]
    pub fn USERSPACE_DEBUG_LOG() -> (r: McuRuntimeCapabilities)
        ensures
            r@ == 0x20,
    {
        McuRuntimeCapabilities { bits: 0x20 }
    }

    /// MCI mailbox service.
    #[allow(non_snake_case)]
    pub fn MCI_MAILBOX_SERVICE() -> (r: McuRuntimeCapabilities)
        ensures
            r@ == 0x40,
    {
        McuRuntimeCapabilities { bits: 0x40 }
    }

    /// Data object exchange.
    #[allow(non_snake_case)]
    pub fn DOE() -> (r: McuRuntimeCapabilities)
        ensures
            r@ == 0x80,
    {
        McuRuntimeCapabilities { bits: 0x80 }
    }

    /// The bits of the set.
    pub fn bits(&self) -> (r: u32)
        ensures
            r == self@,
    {
        self.bits
    }

    /// The set with exactly the given bits.
    pub fn from_bits_retain(bits: u32) -> (r: Self)
        ensures
            r@ == bits,
    {
        McuRuntimeCapabilities { bits }
    }

    /// The set with no bit.
    pub fn empty() -> (r: Self)
        ensures
            r@ == 0,
    {
        McuRuntimeCapabilities { bits: 0 }
    }

    /// The bits of both sets.
    pub fn union(self, other: Self) -> (r: Self)
        ensures
            r@ == self@ | other@,
    {
        McuRuntimeCapabilities { bits: self.bits | other.bits }
    }

    /// Every bit of `other` is in `self`.
    pub fn contains(&self, other: Self) -> (r: bool)
        ensures
            r == (self@ & other@ == other@),
    {
        self.bits & other.bits == other.bits
    }
}

impl Default for McuRuntimeCapabilities {
    fn default() -> (r: Self)
        ensures
            r@ == 0,
    {
        McuRuntimeCapabilities { bits: 0 }
    }
}

/// External commands served, bit `code - 1` for command `code`.
#[derive(Clone, Copy, Debug, PartialEq, Eq, Structural)]
pub struct ExternalCommandCapabilities {
    bits: u32,
}

impl View for ExternalCommandCapabilities {
    type V = u32;

    closed spec fn view(&self) -> u32 {
        self.bits
    }
}

impl ExternalCommandCapabilities {
    /// Command 0x01.
    #[allow(non_snake_case)]
    pub fn FIRMWARE_VERSION() -> (r: ExternalCommandCapabilities)
        ensures
            r@ == 0x1,
    {
        ExternalCommandCapabilities { bits: 0x1 }
    }

    /// Command 0x02.
    #[allow(non_snake_case)]
    pub fn DEVICE_CAPABILITIES() -> (r: ExternalCommandCapabilities)
        ensures
            r@ == 0x2,
    {
        ExternalCommandCapabilities { bits: 0x2 }
    }

    /// Command 0x03.
    #[allow(non_snake_case)]
    pub fn GET_DEBUG_LOG() -> (r: ExternalCommandCapabilities)
        ensures
            r@ == 0x4,
    {
        ExternalCommandCapabilities { bits: 0x4 }
    }

    /// Command 0x04.
    #[allow(non_snake_case)]
    pub fn CLEAR_DEBUG_LOG() -> (r: ExternalCommandCapabilities)
        ensures
            r@ == 0x8,
    {
        ExternalCommandCapabilities { bits: 0x8 }
    }

    /// Command 0x05.
    #[allow(non_snake_case)]
    pub fn GET_ATTESTATION() -> (r: ExternalCommandCapabilities)
        ensures
            r@ == 0x10,
    {
        ExternalCommandCapabilities { bits: 0x10 }
    }

    /// Command 0x06.
    #[allow(non_snake_case)]
    pub fn REQUEST_DEBUG_UNLOCK() -> (r: ExternalCommandCapabilities)
        ensures
            r@ == 0x20,
    {
        ExternalCommandCapabilities { bits: 0x20 }
    }

    /// Command 0x07.
    #[allow(non_snake_case)]
    pub fn AUTHORIZE_DEBUG_UNLOCK_TOKEN() -> (r: ExternalCommandCapabilities)
        ensures
            r@ == 0x40,
    {
        ExternalCommandCapabilities { bits: 0x40 }
    }

    /// Command 0x08.
    #[allow(non_snake_case)]
    pub fn EXPORT_ATTESTED_CSR() -> (r: ExternalCommandCapabilities)
        ensures
            r@ == 0x80,
    {
        ExternalCommandCapabilities { bits: 0x80 }
    }

    /// Command 0x11.
    #[allow(non_snake_case)]
    pub fn DEVICE_OWNERSHIP_TRANSFER() -> (r: ExternalCommandCapabilities)
        ensures
            r@ == 0x10000,
    {
        ExternalCommandCapabilities { bits: 0x10000 }
    }

    /// Command 0x12.
    #[allow(non_snake_case)]
    pub fn AUTHORIZED_COMMAND() -> (r: ExternalCommandCapabilities)
        ensures
            r@ == 0x20000,
    {
        ExternalCommandCapabilities { bits: 0x20000 }
    }

    /// The bits of the set.
    pub fn bits(&self) -> (r: u32)
        ensures
            r == self@,
    {
        self.bits
    }

    /// The set with exactly the given bits.
    pub fn from_bits_retain(bits: u32) -> (r: Self)
        ensures
            r@ == bits,
    {
        ExternalCommandCapabilities { bits }
    }

    /// The set with no bit.
    pub fn empty() -> (r: Self)
        ensures
            r@ == 0,
    {
        ExternalCommandCapabilities { bits: 0 }
    }

    /// The bits of both sets.
    pub fn union(self, other: Self) -> (r: Self)
        ensures
            r@ == self@ | other@,
    {
        ExternalCommandCapabilities { bits: self.bits | other.bits }
    }

    /// Every bit of `other` is in `self`.
    pub fn contains(&self, other: Self) -> (r: bool)
        ensures
            r == (self@ & other@ == other@),
    {
        self.bits & other.bits == other.bits
    }
}

impl Default for ExternalCommandCapabilities {
    fn default() -> (r: Self)
        ensures
            r@ == 0,
    {
        ExternalCommandCapabilities { bits: 0 }
    }
}

/// Authorized subcommands served.
#[derive(Clone, Copy, Debug, PartialEq, Eq, Structural)]
pub struct AuthorizedSubcommandCapabilities {
    bits: u32,
}

impl View for AuthorizedSubcommandCapabilities {
    type V = u32;

    closed spec fn view(&self) -> u32 {
        self.bits
    }
}

impl AuthorizedSubcommandCapabilities {
    /// Get an authorization challenge.
    #[allow(non_snake_case)]
    pub fn GET_AUTH_CHALLENGE() -> (r: AuthorizedSubcommandCapabilities)
        ensures
            r@ == 0x1,
    {
        AuthorizedSubcommandCapabilities { bits: 0x1 }
    }

    /// Provision the vendor public key hash.
    #[allow(non_snake_case)]
    pub fn PROVISION_VENDOR_PK_HASH() -> (r: AuthorizedSubcommandCapabilities)
        ensures
            r@ == 0x2,
    {
        AuthorizedSubcommandCapabilities { bits: 0x2 }
    }

    /// Raise the minimum security version.
    #[allow(non_snake_case)]
    pub fn FUSE_INCREASE_CALIPTRA_MIN_SVN() -> (r: AuthorizedSubcommandCapabilities)
        ensures
            r@ == 0x4,
    {
        AuthorizedSubcommandCapabilities { bits: 0x4 }
    }

    /// Program field entropy.
    #[allow(non_snake_case)]
    pub fn PROGRAM_FIELD_ENTROPY() -> (r: AuthorizedSubcommandCapabilities)
        ensures
            r@ == 0x8,
    {
        AuthorizedSubcommandCapabilities { bits: 0x8 }
    }

    /// Revoke a vendor public key.
    #[allow(non_snake_case)]
    pub fn FUSE_REVOKE_VENDOR_PUBLIC_KEY() -> (r: AuthorizedSubcommandCapabilities)
        ensures
            r@ == 0x10,
    {
        AuthorizedSubcommandCapabilities { bits: 0x10 }
    }

    /// Revoke a vendor public key hash.
    #[allow(non_snake_case)]
    pub fn FUSE_REVOKE_VENDOR_PK_HASH() -> (r: AuthorizedSubcommandCapabilities)
        ensures
            r@ == 0x20,
    {
        AuthorizedSubcommandCapabilities { bits: 0x20 }
    }

    /// Lock a fuse partition.
    #[allow(non_snake_case)]
    pub fn FUSE_LOCK_PARTITION() -> (r: AuthorizedSubcommandCapabilities)
        ensures
            r@ == 0x40,
    {
        AuthorizedSubcommandCapabilities { bits: 0x40 }
    }

    /// Provision the owner public key hash.
    #[allow(non_snake_case)]
    pub fn PROVISION_OWNER_PK_HASH() -> (r: AuthorizedSubcommandCapabilities)
        ensures
            r@ == 0x80,
    {
        AuthorizedSubcommandCapabilities { bits: 0x80 }
    }

    /// Lock device ownership transfer.
    #[allow(non_snake_case)]
    pub fn DOT_LOCK() -> (r: AuthorizedSubcommandCapabilities)
        ensures
            r@ == 0x100,
    {
        AuthorizedSubcommandCapabilities { bits: 0x100 }
    }

    /// Disable device ownership transfer.
    #[allow(non_snake_case)]
    pub fn DOT_DISABLE() -> (r: AuthorizedSubcommandCapabilities)
        ensures
            r@ == 0x200,
    {
        AuthorizedSubcommandCapabilities { bits: 0x200 }
    }

    /// Rotate device ownership transfer.
    #[allow(non_snake_case)]
    pub fn DOT_ROTATE() -> (r: AuthorizedSubcommandCapabilities)
        ensures
            r@ == 0x400,
    {
        AuthorizedSubcommandCapabilities { bits: 0x400 }
    }

    /// Get the ownership backup blob.
    #[allow(non_snake_case)]
    pub fn GET_DOT_BACKUP_BLOB() -> (r: AuthorizedSubcommandCapabilities)
        ensures
            r@ == 0x800,
    {
        AuthorizedSubcommandCapabilities { bits: 0x800 }
    }

    /// Rotate the hardware encryption key.
    #[allow(non_snake_case)]
    pub fn OCP_LOCK_ROTATE_HEK() -> (r: AuthorizedSubcommandCapabilities)
        ensures
            r@ == 0x1000,
    {
        AuthorizedSubcommandCapabilities { bits: 0x1000 }
    }

    /// Set the permanent hardware encryption key.
    #[allow(non_snake_case)]
    pub fn OCP_LOCK_SET_PERMA_HEK() -> (r: AuthorizedSubcommandCapabilities)
        ensures
            r@ == 0x2000,
    {
        AuthorizedSubcommandCapabilities { bits: 0x2000 }
    }

    /// The bits of the set.
    pub fn bits(&self) -> (r: u32)
        ensures
            r == self@,
    {
        self.bits
    }

    /// The set with exactly the given bits.
    pub fn from_bits_retain(bits: u32) -> (r: Self)
        ensures
            r@ == bits,
    {
        AuthorizedSubcommandCapabilities { bits }
    }

    /// The set with no bit.
    pub fn empty() -> (r: Self)
        ensures
            r@ == 0,
    {
        AuthorizedSubcommandCapabilities { bits: 0 }
    }

    /// The bits of both sets.
    pub fn union(self, other: Self) -> (r: Self)
        ensures
            r@ == self@ | other@,
    {
        AuthorizedSubcommandCapabilities { bits: self.bits | other.bits }
    }

    /// Every bit of `other` is in `self`.
    pub fn contains(&self, other: Self) -> (r: bool)
        ensures
            r == (self@ & other@ == other@),
    {
        self.bits & other.bits == other.bits
    }
}

impl Default for AuthorizedSubcommandCapabilities {
    fn default() -> (r: Self)
        ensures
            r@ == 0,
    {
        AuthorizedSubcommandCapabilities { bits: 0 }
    }
}

/// The bit of command `command_code` (1 to 32) in the external command
/// bitmap: bit `command_code - 1`.
pub fn command_capability(command_code: u8) -> (r: u32)
    requires
        0x01 <= command_code <= 0x20,
    ensures
        r == 1u32 << ((command_code - 1) as u32),
{
    1u32 << (command_code as u32 - 1)
}

/// The big-endian bytes of a capability bitmap.
pub fn encode_capabilities(capabilities: u32) -> (r: [u8; 4])
    ensures
        r@ == be4(capabilities),
{
    let r = [
        (capabilities >> 24u32) as u8,
        ((capabilities >> 16u32) & 0xff) as u8,
        ((capabilities >> 8u32) & 0xff) as u8,
        (capabilities & 0xff) as u8,
    ];
    assert((capabilities >> 24u32) as u8 == capabilities / 16777216 && ((capabilities >> 16u32) & 0xff) as u8
        == capabilities / 65536 % 256 && ((capabilities >> 8u32) & 0xff) as u8 == capabilities / 256 % 256
        && (capabilities & 0xff) as u8 == capabilities % 256) by (bit_vector);
    assert(r@ =~= be4(capabilities));
    r
}

} // verus!
