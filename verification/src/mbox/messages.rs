//! Command codes, errors and payloads of the MCU mailbox.
use vstd::prelude::*;

verus! {

pub const MAX_RESP_DATA_SIZE: usize = 4096;

pub const MAX_ENDORSEMENT_CERT_SIZE: usize = 12288;

pub const MAX_FW_VERSION_STR_LEN: usize = 32;

pub const DEVICE_CAPS_SIZE: usize = 36;

pub const DOT_BLOB_SIZE: usize = 168;

pub const MAX_UUID_SIZE: usize = 32;

pub const MAX_FUSE_DATA_BYTES: usize = 512;

pub const MAX_FUSE_DATA_WORDS: usize = 128;

pub const DOT_KEY_HASH_SIZE: usize = 48;

pub const DOT_ECC_PUBLIC_KEY_COORD_SIZE: usize = 48;

pub const DOT_MLDSA_PUBLIC_KEY_SIZE: usize = 2592;

/// An error of the MCU mailbox: a nonzero code.
#[derive(Debug, Copy, Clone, Eq, PartialEq, Structural)]
pub struct McuMboxError(u32);

impl View for McuMboxError {
    type V = u32;

    closed spec fn view(&self) -> u32 {
        self.0
    }
}

impl McuMboxError {
    /// The error code.
    pub fn code(&self) -> (r: u32)
        ensures
            r == self@,
    {
        self.0
    }

    #[allow(non_snake_case)]
    pub fn MCU_MBOX_RESPONSE_DATA_LEN_TOO_LARGE() -> (r: McuMboxError)
        ensures
            r@ == 1,
    {
        McuMboxError(1)
    }

    #[allow(non_snake_case)]
    pub fn MCU_MBOX_RESPONSE_DATA_LEN_TOO_SHORT() -> (r: McuMboxError)
        ensures
            r@ == 2,
    {
        McuMboxError(2)
    }

    #[allow(non_snake_case)]
    pub fn MCU_RUNTIME_INSUFFICIENT_MEMORY() -> (r: McuMboxError)
        ensures
            r@ == 3,
    {
        McuMboxError(3)
    }

    #[allow(non_snake_case)]
    pub fn MCU_MBOX_REQUEST_DATA_LEN_TOO_LARGE() -> (r: McuMboxError)
        ensures
            r@ == 4,
    {
        McuMboxError(4)
    }
}

/// The code of a mailbox command (most spell four ASCII letters).
#[derive(Debug, Eq, PartialEq, Copy, Clone, Structural)]
pub struct CommandId(pub u32);

impl CommandId {
    /// "MFWV".
    #[allow(non_snake_case)]
    pub fn MC_FIRMWARE_VERSION() -> (r: CommandId)
        ensures
            r.0 == 0x4d465756,
    {
        CommandId(0x4d465756)
    }

    /// "MCAP".
    #[allow(non_snake_case)]
    pub fn MC_DEVICE_CAPABILITIES() -> (r: CommandId)
        ensures
            r.0 == 0x4d434150,
    {
        CommandId(0x4d434150)
    }

    /// "MGLG".
    #[allow(non_snake_case)]
    pub fn MC_GET_LOG() -> (r: CommandId)
        ensures
            r.0 == 0x4d474c47,
    {
        CommandId(0x4d474c47)
    }

    /// "MCLG".
    #[allow(non_snake_case)]
    pub fn MC_CLEAR_LOG() -> (r: CommandId)
        ensures
            r.0 == 0x4d434c47,
    {
        CommandId(0x4d434c47)
    }

    /// "MFST".
    #[allow(non_snake_case)]
    pub fn MC_FIPS_SELF_TEST_START() -> (r: CommandId)
        ensures
            r.0 == 0x4d465354,
    {
        CommandId(0x4d465354)
    }

    /// "MFGR".
    #[allow(non_snake_case)]
    pub fn MC_FIPS_SELF_TEST_GET_RESULTS() -> (r: CommandId)
        ensures
            r.0 == 0x4d464752,
    {
        CommandId(0x4d464752)
    }

    /// "MFPE".
    #[allow(non_snake_case)]
    pub fn MC_FIPS_PERIODIC_ENABLE() -> (r: CommandId)
        ensures
            r.0 == 0x4d465045,
    {
        CommandId(0x4d465045)
    }

    /// "MFPS".
    #[allow(non_snake_case)]
    pub fn MC_FIPS_PERIODIC_STATUS() -> (r: CommandId)
        ensures
            r.0 == 0x4d465053,
    {
        CommandId(0x4d465053)
    }

    /// "MCSI".
    #[allow(non_snake_case)]
    pub fn MC_SHA_INIT() -> (r: CommandId)
        ensures
            r.0 == 0x4d435349,
    {
        CommandId(0x4d435349)
    }

    /// "MCSU".
    #[allow(non_snake_case)]
    pub fn MC_SHA_UPDATE() -> (r: CommandId)
        ensures
            r.0 == 0x4d435355,
    {
        CommandId(0x4d435355)
    }

    /// "MCSF".
    #[allow(non_snake_case)]
    pub fn MC_SHA_FINAL() -> (r: CommandId)
        ensures
            r.0 == 0x4d435346,
    {
        CommandId(0x4d435346)
    }

    /// "MCHM".
    #[allow(non_snake_case)]
    pub fn MC_HMAC() -> (r: CommandId)
        ensures
            r.0 == 0x4d43484d,
    {
        CommandId(0x4d43484d)
    }

    /// "MCKC".
    #[allow(non_snake_case)]
    pub fn MC_HMAC_KDF_COUNTER() -> (r: CommandId)
        ensures
            r.0 == 0x4d434b43,
    {
        CommandId(0x4d434b43)
    }

    /// "MCKT".
    #[allow(non_snake_case)]
    pub fn MC_HKDF_EXTRACT() -> (r: CommandId)
        ensures
            r.0 == 0x4d434b54,
    {
        CommandId(0x4d434b54)
    }

    /// "MCKP".
    #[allow(non_snake_case)]
    pub fn MC_HKDF_EXPAND() -> (r: CommandId)
        ensures
            r.0 == 0x4d434b50,
    {
        CommandId(0x4d434b50)
    }

    /// "MCCI".
    #[allow(non_snake_case)]
    pub fn MC_AES_ENCRYPT_INIT() -> (r: CommandId)
        ensures
            r.0 == 0x4d434349,
    {
        CommandId(0x4d434349)
    }

    /// "MCCU".
    #[allow(non_snake_case)]
    pub fn MC_AES_ENCRYPT_UPDATE() -> (r: CommandId)
        ensures
            r.0 == 0x4d434355,
    {
        CommandId(0x4d434355)
    }

    /// "MCAJ".
    #[allow(non_snake_case)]
    pub fn MC_AES_DECRYPT_INIT() -> (r: CommandId)
        ensures
            r.0 == 0x4d43414a,
    {
        CommandId(0x4d43414a)
    }

    /// "MCAU".
    #[allow(non_snake_case)]
    pub fn MC_AES_DECRYPT_UPDATE() -> (r: CommandId)
        ensures
            r.0 == 0x4d434155,
    {
        CommandId(0x4d434155)
    }

    /// "MCGI".
    #[allow(non_snake_case)]
    pub fn MC_AES_GCM_ENCRYPT_INIT() -> (r: CommandId)
        ensures
            r.0 == 0x4d434749,
    {
        CommandId(0x4d434749)
    }

    /// "MCGU".
    #[allow(non_snake_case)]
    pub fn MC_AES_GCM_ENCRYPT_UPDATE() -> (r: CommandId)
        ensures
            r.0 == 0x4d434755,
    {
        CommandId(0x4d434755)
    }

    /// "MCGF".
    #[allow(non_snake_case)]
    pub fn MC_AES_GCM_ENCRYPT_FINAL() -> (r: CommandId)
        ensures
            r.0 == 0x4d434746,
    {
        CommandId(0x4d434746)
    }

    /// "MCDI".
    #[allow(non_snake_case)]
    pub fn MC_AES_GCM_DECRYPT_INIT() -> (r: CommandId)
        ensures
            r.0 == 0x4d434449,
    {
        CommandId(0x4d434449)
    }

    /// "MCDU".
    #[allow(non_snake_case)]
    pub fn MC_AES_GCM_DECRYPT_UPDATE() -> (r: CommandId)
        ensures
            r.0 == 0x4d434455,
    {
        CommandId(0x4d434455)
    }

    /// "MCDF".
    #[allow(non_snake_case)]
    pub fn MC_AES_GCM_DECRYPT_FINAL() -> (r: CommandId)
        ensures
            r.0 == 0x4d434446,
    {
        CommandId(0x4d434446)
    }

    /// "MCRS".
    #[allow(non_snake_case)]
    pub fn MC_RANDOM_STIR() -> (r: CommandId)
        ensures
            r.0 == 0x4d435253,
    {
        CommandId(0x4d435253)
    }

    /// "MCRG".
    #[allow(non_snake_case)]
    pub fn MC_RANDOM_GENERATE() -> (r: CommandId)
        ensures
            r.0 == 0x4d435247,
    {
        CommandId(0x4d435247)
    }

    /// "MCIM".
    #[allow(non_snake_case)]
    pub fn MC_IMPORT() -> (r: CommandId)
        ensures
            r.0 == 0x4d43494d,
    {
        CommandId(0x4d43494d)
    }

    /// "MCDL".
    #[allow(non_snake_case)]
    pub fn MC_DELETE() -> (r: CommandId)
        ensures
            r.0 == 0x4d43444c,
    {
        CommandId(0x4d43444c)
    }

    /// "MCST".
    #[allow(non_snake_case)]
    pub fn MC_CM_STATUS() -> (r: CommandId)
        ensures
            r.0 == 0x4d435354,
    {
        CommandId(0x4d435354)
    }

    /// "MCEG".
    #[allow(non_snake_case)]
    pub fn MC_ECDH_GENERATE() -> (r: CommandId)
        ensures
            r.0 == 0x4d434547,
    {
        CommandId(0x4d434547)
    }

    /// "MCEF".
    #[allow(non_snake_case)]
    pub fn MC_ECDH_FINISH() -> (r: CommandId)
        ensures
            r.0 == 0x4d434546,
    {
        CommandId(0x4d434546)
    }

    /// "MCEP".
    #[allow(non_snake_case)]
    pub fn MC_ECDSA_CMK_PUBLIC_KEY() -> (r: CommandId)
        ensures
            r.0 == 0x4d434550,
    {
        CommandId(0x4d434550)
    }

    /// "MCES".
    #[allow(non_snake_case)]
    pub fn MC_ECDSA_CMK_SIGN() -> (r: CommandId)
        ensures
            r.0 == 0x4d434553,
    {
        CommandId(0x4d434553)
    }

    /// "MCEV".
    #[allow(non_snake_case)]
    pub fn MC_ECDSA_CMK_VERIFY() -> (r: CommandId)
        ensures
            r.0 == 0x4d434556,
    {
        CommandId(0x4d434556)
    }

    /// "MECV".
    #[allow(non_snake_case)]
    pub fn MC_ECDSA384_SIG_VERIFY() -> (r: CommandId)
        ensures
            r.0 == 0x4d454356,
    {
        CommandId(0x4d454356)
    }

    /// "MLMV".
    #[allow(non_snake_case)]
    pub fn MC_LMS_SIG_VERIFY() -> (r: CommandId)
        ensures
            r.0 == 0x4d4c4d56,
    {
        CommandId(0x4d4c4d56)
    }

    /// "MMLP".
    #[allow(non_snake_case)]
    pub fn MC_MLDSA_CMK_PUBLIC_KEY() -> (r: CommandId)
        ensures
            r.0 == 0x4d4d4c50,
    {
        CommandId(0x4d4d4c50)
    }

    /// "MMLS".
    #[allow(non_snake_case)]
    pub fn MC_MLDSA_CMK_SIGN() -> (r: CommandId)
        ensures
            r.0 == 0x4d4d4c53,
    {
        CommandId(0x4d4d4c53)
    }

    /// "MMLV".
    #[allow(non_snake_case)]
    pub fn MC_MLDSA_CMK_VERIFY() -> (r: CommandId)
        ensures
            r.0 == 0x4d4d4c56,
    {
        CommandId(0x4d4d4c56)
    }

    /// "MPUR".
    #[allow(non_snake_case)]
    pub fn MC_PROD_DEBUG_UNLOCK_REQ() -> (r: CommandId)
        ensures
            r.0 == 0x4d505552,
    {
        CommandId(0x4d505552)
    }

    /// "MPUT".
    #[allow(non_snake_case)]
    pub fn MC_PROD_DEBUG_UNLOCK_TOKEN() -> (r: CommandId)
        ensures
            r.0 == 0x4d505554,
    {
        CommandId(0x4d505554)
    }

    /// "IFPR".
    #[allow(non_snake_case)]
    pub fn MC_FUSE_READ() -> (r: CommandId)
        ensures
            r.0 == 0x49465052,
    {
        CommandId(0x49465052)
    }

    /// "IFPW".
    #[allow(non_snake_case)]
    pub fn MC_FUSE_WRITE() -> (r: CommandId)
        ensures
            r.0 == 0x49465057,
    {
        CommandId(0x49465057)
    }

    /// "IFPK".
    #[allow(non_snake_case)]
    pub fn MC_FUSE_LOCK_PARTITION() -> (r: CommandId)
        ensures
            r.0 == 0x4946504b,
    {
        CommandId(0x4946504b)
    }

    /// "MACC".
    #[allow(non_snake_case)]
    pub fn MC_GET_AUTH_CMD_CHALLENGE() -> (r: CommandId)
        ensures
            r.0 == 0x4d414343,
    {
        CommandId(0x4d414343)
    }

    /// "PVPK".
    #[allow(non_snake_case)]
    pub fn MC_PROVISION_VENDOR_PK_HASH() -> (r: CommandId)
        ensures
            r.0 == 0x5056504b,
    {
        CommandId(0x5056504b)
    }

    /// "POPK".
    #[allow(non_snake_case)]
    pub fn MC_PROVISION_OWNER_PK_HASH() -> (r: CommandId)
        ensures
            r.0 == 0x504f504b,
    {
        CommandId(0x504f504b)
    }

    /// "MCMS".
    #[allow(non_snake_case)]
    pub fn MC_FUSE_INCREASE_CALIPTRA_MIN_SVN() -> (r: CommandId)
        ensures
            r.0 == 0x4d434d53,
    {
        CommandId(0x4d434d53)
    }

    /// "MCFP".
    #[allow(non_snake_case)]
    pub fn MC_FE_PROG() -> (r: CommandId)
        ensures
            r.0 == 0x4d434650,
    {
        CommandId(0x4d434650)
    }

    /// "MRVK".
    #[allow(non_snake_case)]
    pub fn MC_FUSE_REVOKE_VENDOR_PUB_KEY() -> (r: CommandId)
        ensures
            r.0 == 0x4d52564b,
    {
        CommandId(0x4d52564b)
    }

    /// "RVKH".
    #[allow(non_snake_case)]
    pub fn MC_FUSE_REVOKE_VENDOR_PK_HASH() -> (r: CommandId)
        ensures
            r.0 == 0x52564b48,
    {
        CommandId(0x52564b48)
    }

    /// "MEAC".
    #[allow(non_snake_case)]
    pub fn MC_EXPORT_ATTESTED_CSR() -> (r: CommandId)
        ensures
            r.0 == 0x4d454143,
    {
        CommandId(0x4d454143)
    }

    /// "MDSC".
    #[allow(non_snake_case)]
    pub fn MC_DPE_SIGNER_CONTEXT_CERT() -> (r: CommandId)
        ensures
            r.0 == 0x4d445343,
    {
        CommandId(0x4d445343)
    }

    /// "MDCC".
    #[allow(non_snake_case)]
    pub fn MC_GET_DPE_CERTIFICATE_CHAIN() -> (r: CommandId)
        ensures
            r.0 == 0x4d444343,
    {
        CommandId(0x4d444343)
    }

    /// command 0x00000013.
    #[allow(non_snake_case)]
    pub fn MC_OCP_LOCK() -> (r: CommandId)
        ensures
            r.0 == 0x00000013,
    {
        CommandId(0x00000013)
    }

    /// "OLRH".
    #[allow(non_snake_case)]
    pub fn MC_OCP_LOCK_ROTATE_HEK() -> (r: CommandId)
        ensures
            r.0 == 0x4f4c5248,
    {
        CommandId(0x4f4c5248)
    }

    /// "OLSP".
    #[allow(non_snake_case)]
    pub fn MC_OCP_LOCK_SET_PERMA_HEK() -> (r: CommandId)
        ensures
            r.0 == 0x4f4c5350,
    {
        CommandId(0x4f4c5350)
    }

    /// "OLEC".
    #[allow(non_snake_case)]
    pub fn MC_GET_OCP_LOCK_ENDORSEMENT_CERT() -> (r: CommandId)
        ensures
            r.0 == 0x4f4c4543,
    {
        CommandId(0x4f4c4543)
    }

    /// "OLEH".
    #[allow(non_snake_case)]
    pub fn MC_OCP_LOCK_ENUMERATE_HPKE_HANDLES() -> (r: CommandId)
        ensures
            r.0 == 0x4f4c4548,
    {
        CommandId(0x4f4c4548)
    }

    /// "OLER".
    #[allow(non_snake_case)]
    pub fn MC_GET_OCP_LOCK_EPOCH_KEY_REPORT() -> (r: CommandId)
        ensures
            r.0 == 0x4f4c4552,
    {
        CommandId(0x4f4c4552)
    }

    /// "MGAT".
    #[allow(non_snake_case)]
    pub fn MC_GET_ATTESTATION() -> (r: CommandId)
        ensures
            r.0 == 0x4d474154,
    {
        CommandId(0x4d474154)
    }

    /// command 0x00000011.
    #[allow(non_snake_case)]
    pub fn MC_DEVICE_OWNERSHIP_TRANSFER() -> (r: CommandId)
        ensures
            r.0 == 0x00000011,
    {
        CommandId(0x00000011)
    }

    /// "MDLK".
    #[allow(non_snake_case)]
    pub fn MC_DOT_LOCK() -> (r: CommandId)
        ensures
            r.0 == 0x4d444c4b,
    {
        CommandId(0x4d444c4b)
    }

    /// "MDDS".
    #[allow(non_snake_case)]
    pub fn MC_DOT_DISABLE() -> (r: CommandId)
        ensures
            r.0 == 0x4d444453,
    {
        CommandId(0x4d444453)
    }

    /// "MDRT".
    #[allow(non_snake_case)]
    pub fn MC_DOT_ROTATE() -> (r: CommandId)
        ensures
            r.0 == 0x4d445254,
    {
        CommandId(0x4d445254)
    }

    /// "MDRC".
    #[allow(non_snake_case)]
    pub fn MC_DOT_RECOVERY() -> (r: CommandId)
        ensures
            r.0 == 0x4d445243,
    {
        CommandId(0x4d445243)
    }

    /// "MDST".
    #[allow(non_snake_case)]
    pub fn MC_DOT_STATUS() -> (r: CommandId)
        ensures
            r.0 == 0x4d445354,
    {
        CommandId(0x4d445354)
    }

    /// "MDUC".
    #[allow(non_snake_case)]
    pub fn MC_DOT_UNLOCK_CHALLENGE() -> (r: CommandId)
        ensures
            r.0 == 0x4d445543,
    {
        CommandId(0x4d445543)
    }

    /// "MDUL".
    #[allow(non_snake_case)]
    pub fn MC_DOT_UNLOCK() -> (r: CommandId)
        ensures
            r.0 == 0x4d44554c,
    {
        CommandId(0x4d44554c)
    }

    /// "MDBB".
    #[allow(non_snake_case)]
    pub fn MC_GET_DOT_BACKUP_BLOB() -> (r: CommandId)
        ensures
            r.0 == 0x4d444242,
    {
        CommandId(0x4d444242)
    }

    /// "DOTW".
    #[allow(non_snake_case)]
    pub fn MC_DOT_OVERRIDE_CHALLENGE() -> (r: CommandId)
        ensures
            r.0 == 0x444f5457,
    {
        CommandId(0x444f5457)
    }

    /// "DOTX".
    #[allow(non_snake_case)]
    pub fn MC_DOT_OVERRIDE() -> (r: CommandId)
        ensures
            r.0 == 0x444f5458,
    {
        CommandId(0x444f5458)
    }

}

impl From<u32> for CommandId {
    fn from(value: u32) -> (r: CommandId) {
        CommandId(value)
    }
}

impl vstd::std_specs::convert::FromSpecImpl<u32> for CommandId {
    open spec fn obeys_from_spec() -> bool {
        true
    }

    open spec fn from_spec(value: u32) -> CommandId {
        CommandId(value)
    }
}

impl From<CommandId> for u32 {
    fn from(value: CommandId) -> (r: u32) {
        value.0
    }
}

impl vstd::std_specs::convert::FromSpecImpl<CommandId> for u32 {
    open spec fn obeys_from_spec() -> bool {
        true
    }

    open spec fn from_spec(value: CommandId) -> u32 {
        value.0
    }
}

/// Which firmware a version is asked for.
#[derive(Debug, Clone, Copy, PartialEq, Eq, Structural)]
pub enum FwIndex {
    CaliptraCore,
    McuRuntime,
    SoC,
}

impl FwIndex {
    /// The code of the value on the wire.
    #[verifier::allow_in_spec]
    pub fn to_u32(self) -> u32
        returns
            (match self {
                FwIndex::CaliptraCore => 0x0u32,
                FwIndex::McuRuntime => 0x1u32,
                FwIndex::SoC => 0x2u32,
            }),
    {
        match self {
            FwIndex::CaliptraCore => 0x0,
            FwIndex::McuRuntime => 0x1,
            FwIndex::SoC => 0x2,
        }
    }
}

/// Which log is asked for.
#[derive(Debug, Clone, Copy, PartialEq, Eq, Structural)]
pub enum LogType {
    DebugLog,
    AttestationLog,
}

impl LogType {
    /// The code of the value on the wire.
    #[verifier::allow_in_spec]
    pub fn to_u32(self) -> u32
        returns
            (match self {
                LogType::DebugLog => 0x0u32,
                LogType::AttestationLog => 0x1u32,
            }),
    {
        match self {
            LogType::DebugLog => 0x0,
            LogType::AttestationLog => 0x1,
        }
    }
}

/// The kind of vendor public key to revoke.
#[derive(Debug, Clone, Copy, PartialEq, Eq, Structural)]
pub enum RevokeVendorPubKeyType {
    Ecdsa384,
    Lms,
    Mldsa87,
}

impl RevokeVendorPubKeyType {
    /// The code of the value on the wire.
    #[verifier::allow_in_spec]
    pub fn to_u32(self) -> u32
        returns
            (match self {
                RevokeVendorPubKeyType::Ecdsa384 => 0x0u32,
                RevokeVendorPubKeyType::Lms => 0x1u32,
                RevokeVendorPubKeyType::Mldsa87 => 0x2u32,
            }),
    {
        match self {
            RevokeVendorPubKeyType::Ecdsa384 => 0x0,
            RevokeVendorPubKeyType::Lms => 0x1,
            RevokeVendorPubKeyType::Mldsa87 => 0x2,
        }
    }
}

impl core::convert::TryFrom<u32> for RevokeVendorPubKeyType {
    type Error = ();

    fn try_from(value: u32) -> (r: Result<RevokeVendorPubKeyType, ()>) {
        match value {
            0x0 => Ok(RevokeVendorPubKeyType::Ecdsa384),
            0x1 => Ok(RevokeVendorPubKeyType::Lms),
            0x2 => Ok(RevokeVendorPubKeyType::Mldsa87),
            _ => Err(()),
        }
    }
}

impl vstd::std_specs::convert::TryFromSpecImpl<u32> for RevokeVendorPubKeyType {
    open spec fn obeys_try_from_spec() -> bool {
        true
    }

    open spec fn try_from_spec(value: u32) -> Result<RevokeVendorPubKeyType, ()> {
        match value {
            0x0 => Ok(RevokeVendorPubKeyType::Ecdsa384),
            0x1 => Ok(RevokeVendorPubKeyType::Lms),
            0x2 => Ok(RevokeVendorPubKeyType::Mldsa87),
            _ => Err(()),
        }
    }
}

impl From<RevokeVendorPubKeyType> for u32 {
    fn from(value: RevokeVendorPubKeyType) -> (r: u32) {
        value.to_u32()
    }
}

impl vstd::std_specs::convert::FromSpecImpl<RevokeVendorPubKeyType> for u32 {
    open spec fn obeys_from_spec() -> bool {
        true
    }

    open spec fn from_spec(value: RevokeVendorPubKeyType) -> u32 {
        value.to_u32()
    }
}

/// The algorithm of an endorsement.
#[derive(Debug, Clone, Copy, PartialEq, Eq, Structural)]
pub struct EndorsementAlgorithm(pub u32);

impl EndorsementAlgorithm {
    #[allow(non_snake_case)]
    pub fn ECDSA_384() -> (r: EndorsementAlgorithm)
        ensures
            r.0 == 1,
    {
        EndorsementAlgorithm(1)
    }

    #[allow(non_snake_case)]
    pub fn MLDSA_87() -> (r: EndorsementAlgorithm)
        ensures
            r.0 == 2,
    {
        EndorsementAlgorithm(2)
    }
}

impl Default for EndorsementAlgorithm {
    fn default() -> (r: Self)
        ensures
            r.0 == 1,
    {
        EndorsementAlgorithm::ECDSA_384()
    }
}

/// The state of a stored encryption key.
#[derive(Debug, Clone, Copy, PartialEq, Eq, Structural)]
pub enum SekState {
    Unused,
    Programmed,
    Sanitized,
}

impl SekState {
    /// The code of the value on the wire.
    #[verifier::allow_in_spec]
    pub fn to_u16(self) -> u16
        returns
            (match self {
                SekState::Unused => 0x0u16,
                SekState::Programmed => 0x1u16,
                SekState::Sanitized => 0x2u16,
            }),
    {
        match self {
            SekState::Unused => 0x0,
            SekState::Programmed => 0x1,
            SekState::Sanitized => 0x2,
        }
    }
}

impl core::convert::TryFrom<u16> for SekState {
    type Error = ();

    fn try_from(value: u16) -> (r: Result<SekState, ()>) {
        match value {
            0x0 => Ok(SekState::Unused),
            0x1 => Ok(SekState::Programmed),
            0x2 => Ok(SekState::Sanitized),
            _ => Err(()),
        }
    }
}

impl vstd::std_specs::convert::TryFromSpecImpl<u16> for SekState {
    open spec fn obeys_try_from_spec() -> bool {
        true
    }

    open spec fn try_from_spec(value: u16) -> Result<SekState, ()> {
        match value {
            0x0 => Ok(SekState::Unused),
            0x1 => Ok(SekState::Programmed),
            0x2 => Ok(SekState::Sanitized),
            _ => Err(()),
        }
    }
}

impl Default for SekState {
    fn default() -> (r: Self)
        ensures
            r == SekState::Unused,
    {
        SekState::Unused
    }
}

/// The payload of a device ownership transfer lock: the code authentication
/// key and the hash of the lock authentication key.
#[derive(Debug, Clone, Copy, PartialEq, Eq)]
pub struct DotLockPayload {
    pub cak: [u8; DOT_KEY_HASH_SIZE],
    pub lak_hash: [u8; DOT_KEY_HASH_SIZE],
}

impl Default for DotLockPayload {
    fn default() -> (r: Self)
        ensures
            r.cak@ == Seq::new(DOT_KEY_HASH_SIZE as nat, |i: int| 0u8),
            r.lak_hash@ == Seq::new(DOT_KEY_HASH_SIZE as nat, |i: int| 0u8),
    {
        let r = Self { cak: [0; DOT_KEY_HASH_SIZE], lak_hash: [0; DOT_KEY_HASH_SIZE] };
        proof {
            vstd::array::axiom_spec_array_fill_for_copy_type::<u8, DOT_KEY_HASH_SIZE>(0u8);
        }
        assert(r.cak@ =~= Seq::new(DOT_KEY_HASH_SIZE as nat, |i: int| 0u8));
        assert(r.lak_hash@ =~= Seq::new(DOT_KEY_HASH_SIZE as nat, |i: int| 0u8));
        r
    }
}

/// The payload of a device ownership transfer disable: the hash of the lock
/// authentication key.
#[derive(Debug, Clone, Copy, PartialEq, Eq)]
pub struct DotDisablePayload {
    pub lak_hash: [u8; DOT_KEY_HASH_SIZE],
}

impl Default for DotDisablePayload {
    fn default() -> (r: Self)
        ensures
            r.lak_hash@ == Seq::new(DOT_KEY_HASH_SIZE as nat, |i: int| 0u8),
    {
        let r = Self { lak_hash: [0; DOT_KEY_HASH_SIZE] };
        proof {
            vstd::array::axiom_spec_array_fill_for_copy_type::<u8, DOT_KEY_HASH_SIZE>(0u8);
        }
        assert(r.lak_hash@ =~= Seq::new(DOT_KEY_HASH_SIZE as nat, |i: int| 0u8));
        r
    }
}

/// The payload of a device ownership transfer key rotation.
#[derive(Debug, Clone, Copy, PartialEq, Eq)]
pub struct DotRotatePayload {
    pub min_fuse_count: u32,
    pub cak: [u8; DOT_KEY_HASH_SIZE],
    pub lak_hash: [u8; DOT_KEY_HASH_SIZE],
}

impl Default for DotRotatePayload {
    fn default() -> (r: Self)
        ensures
            r.min_fuse_count == 0,
            r.cak@ == Seq::new(DOT_KEY_HASH_SIZE as nat, |i: int| 0u8),
            r.lak_hash@ == Seq::new(DOT_KEY_HASH_SIZE as nat, |i: int| 0u8),
    {
        let r = Self { min_fuse_count: 0, cak: [0; DOT_KEY_HASH_SIZE], lak_hash: [0; DOT_KEY_HASH_SIZE] };
        proof {
            vstd::array::axiom_spec_array_fill_for_copy_type::<u8, DOT_KEY_HASH_SIZE>(0u8);
        }
        assert(r.cak@ =~= Seq::new(DOT_KEY_HASH_SIZE as nat, |i: int| 0u8));
        assert(r.lak_hash@ =~= Seq::new(DOT_KEY_HASH_SIZE as nat, |i: int| 0u8));
        r
    }
}

/// The device ownership transfer status.
#[derive(Debug, Clone, Copy, PartialEq, Eq, Structural)]
pub struct DotStatus {
    pub enabled: u8,
    pub locked: u8,
    pub burned: u16,
}

impl Default for DotStatus {
    fn default() -> (r: Self)
        ensures
            r == (DotStatus { enabled: 0, locked: 0, burned: 0 }),
    {
        DotStatus { enabled: 0, locked: 0, burned: 0 }
    }
}

/// The payload of a device ownership transfer override challenge: the
/// recovery public keys.
#[derive(Debug, Clone, Copy, PartialEq, Eq)]
pub struct DotOverrideChallengePayload {
    pub recovery_ecc_pub_x: [u8; DOT_ECC_PUBLIC_KEY_COORD_SIZE],
    pub recovery_ecc_pub_y: [u8; DOT_ECC_PUBLIC_KEY_COORD_SIZE],
    pub recovery_mldsa_pub: [u8; DOT_MLDSA_PUBLIC_KEY_SIZE],
}

impl Default for DotOverrideChallengePayload {
    fn default() -> (r: Self)
        ensures
            r.recovery_ecc_pub_x@ == Seq::new(DOT_ECC_PUBLIC_KEY_COORD_SIZE as nat, |i: int| 0u8),
            r.recovery_ecc_pub_y@ == Seq::new(DOT_ECC_PUBLIC_KEY_COORD_SIZE as nat, |i: int| 0u8),
            r.recovery_mldsa_pub@ == Seq::new(DOT_MLDSA_PUBLIC_KEY_SIZE as nat, |i: int| 0u8),
    {
        let r = Self {
            recovery_ecc_pub_x: [0; DOT_ECC_PUBLIC_KEY_COORD_SIZE],
            recovery_ecc_pub_y: [0; DOT_ECC_PUBLIC_KEY_COORD_SIZE],
            recovery_mldsa_pub: [0; DOT_MLDSA_PUBLIC_KEY_SIZE],
        };
        proof {
            vstd::array::axiom_spec_array_fill_for_copy_type::<u8, DOT_ECC_PUBLIC_KEY_COORD_SIZE>(0u8);
            vstd::array::axiom_spec_array_fill_for_copy_type::<u8, DOT_MLDSA_PUBLIC_KEY_SIZE>(0u8);
        }
        assert(r.recovery_ecc_pub_x@ =~= Seq::new(DOT_ECC_PUBLIC_KEY_COORD_SIZE as nat, |i: int| 0u8));
        assert(r.recovery_ecc_pub_y@ =~= Seq::new(DOT_ECC_PUBLIC_KEY_COORD_SIZE as nat, |i: int| 0u8));
        assert(r.recovery_mldsa_pub@ =~= Seq::new(DOT_MLDSA_PUBLIC_KEY_SIZE as nat, |i: int| 0u8));
        r
    }
}

} // verus!
