//! The requests of the MCU mailbox by kind, and the command code each is
//! sent with.
use crate::mbox::messages::{CommandId, McuMboxError};
use vstd::prelude::*;

verus! {

/// The kinds of MCU mailbox request.
#[derive(Debug, Clone, Copy, PartialEq, Eq, Structural)]
pub enum McuMailboxReqKind {
    FirmwareVersion,
    DeviceCaps,
    GetLog,
    ClearLog,
    FipsSelfTestStart,
    FipsSelfTestGetResults,
    FipsPeriodicEnable,
    FipsPeriodicStatus,
    ShaInit,
    ShaUpdate,
    ShaFinal,
    Hmac,
    HmacKdfCounter,
    HkdfExtract,
    HkdfExpand,
    AesEncryptInit,
    AesEncryptUpdate,
    AesDecryptInit,
    AesDecryptUpdate,
    AesGcmEncryptInit,
    AesGcmEncryptUpdate,
    AesGcmEncryptFinal,
    AesGcmDecryptInit,
    AesGcmDecryptUpdate,
    AesGcmDecryptFinal,
    Import,
    Delete,
    CmStatus,
    RandomStir,
    RandomGenerate,
    EcdhGenerate,
    EcdhFinish,
    EcdsaCmkPublicKey,
    EcdsaCmkSign,
    EcdsaCmkVerify,
    Ecdsa384SigVerify,
    LmsSigVerify,
    MldsaCmkPublicKey,
    MldsaCmkSign,
    MldsaCmkVerify,
    ProdDebugUnlockReq,
    ProdDebugUnlockToken,
    FuseRead,
    FuseWrite,
    FuseLockPartition,
    FuseIncreaseCaliptraMinSvn,
    FeProg,
    GetAuthCmdChallenge,
    FuseRevokeVendorPubKey,
    ProvisionVendorPkHash,
    ProvisionOwnerPkHash,
    FuseRevokeVendorPkHash,
    ExportAttestedCsr,
    DpeSignerContextCert,
    GetDpeCertChain,
    GetAttestation,
    OcpLockSetPermaHek,
    OcpLockRotateHek,
    GetOcpLockEndorsementCert,
    OcpLockEnumerateHpkeHandles,
    GetOcpLockEpochKeyReport,
    DotLock,
    DotDisable,
    DotRotate,
    DotRecovery,
    DotStatus,
    DotOverrideChallenge,
    DotOverride,
    DotUnlockChallenge,
    DotUnlock,
    GetDotBackupBlob,
}

/// The command code of each kind of request: its own code, except that the
/// OCP Lock key commands share the OCP Lock family code and the device
/// ownership transfer commands share the DOT family code.
pub open spec fn spec_cmd_code(kind: McuMailboxReqKind) -> CommandId {
    match kind {
        McuMailboxReqKind::FirmwareVersion => CommandId(0x4d465756),
        McuMailboxReqKind::DeviceCaps => CommandId(0x4d434150),
        McuMailboxReqKind::GetLog => CommandId(0x4d474c47),
        McuMailboxReqKind::ClearLog => CommandId(0x4d434c47),
        McuMailboxReqKind::FipsSelfTestStart => CommandId(0x4d465354),
        McuMailboxReqKind::FipsSelfTestGetResults => CommandId(0x4d464752),
        McuMailboxReqKind::FipsPeriodicEnable => CommandId(0x4d465045),
        McuMailboxReqKind::FipsPeriodicStatus => CommandId(0x4d465053),
        McuMailboxReqKind::ShaInit => CommandId(0x4d435349),
        McuMailboxReqKind::ShaUpdate => CommandId(0x4d435355),
        McuMailboxReqKind::ShaFinal => CommandId(0x4d435346),
        McuMailboxReqKind::Hmac => CommandId(0x4d43484d),
        McuMailboxReqKind::HmacKdfCounter => CommandId(0x4d434b43),
        McuMailboxReqKind::HkdfExtract => CommandId(0x4d434b54),
        McuMailboxReqKind::HkdfExpand => CommandId(0x4d434b50),
        McuMailboxReqKind::AesEncryptInit => CommandId(0x4d434349),
        McuMailboxReqKind::AesEncryptUpdate => CommandId(0x4d434355),
        McuMailboxReqKind::AesDecryptInit => CommandId(0x4d43414a),
        McuMailboxReqKind::AesDecryptUpdate => CommandId(0x4d434155),
        McuMailboxReqKind::AesGcmEncryptInit => CommandId(0x4d434749),
        McuMailboxReqKind::AesGcmEncryptUpdate => CommandId(0x4d434755),
        McuMailboxReqKind::AesGcmEncryptFinal => CommandId(0x4d434746),
        McuMailboxReqKind::AesGcmDecryptInit => CommandId(0x4d434449),
        McuMailboxReqKind::AesGcmDecryptUpdate => CommandId(0x4d434455),
        McuMailboxReqKind::AesGcmDecryptFinal => CommandId(0x4d434446),
        McuMailboxReqKind::Import => CommandId(0x4d43494d),
        McuMailboxReqKind::Delete => CommandId(0x4d43444c),
        McuMailboxReqKind::CmStatus => CommandId(0x4d435354),
        McuMailboxReqKind::RandomStir => CommandId(0x4d435253),
        McuMailboxReqKind::RandomGenerate => CommandId(0x4d435247),
        McuMailboxReqKind::EcdhGenerate => CommandId(0x4d434547),
        McuMailboxReqKind::EcdhFinish => CommandId(0x4d434546),
        McuMailboxReqKind::EcdsaCmkPublicKey => CommandId(0x4d434550),
        McuMailboxReqKind::EcdsaCmkSign => CommandId(0x4d434553),
        McuMailboxReqKind::EcdsaCmkVerify => CommandId(0x4d434556),
        McuMailboxReqKind::Ecdsa384SigVerify => CommandId(0x4d454356),
        McuMailboxReqKind::LmsSigVerify => CommandId(0x4d4c4d56),
        McuMailboxReqKind::MldsaCmkPublicKey => CommandId(0x4d4d4c50),
        McuMailboxReqKind::MldsaCmkSign => CommandId(0x4d4d4c53),
        McuMailboxReqKind::MldsaCmkVerify => CommandId(0x4d4d4c56),
        McuMailboxReqKind::ProdDebugUnlockReq => CommandId(0x4d505552),
        McuMailboxReqKind::ProdDebugUnlockToken => CommandId(0x4d505554),
        McuMailboxReqKind::FuseRead => CommandId(0x49465052),
        McuMailboxReqKind::FuseWrite => CommandId(0x49465057),
        McuMailboxReqKind::FuseLockPartition => CommandId(0x4946504b),
        McuMailboxReqKind::FuseIncreaseCaliptraMinSvn => CommandId(0x4d434d53),
        McuMailboxReqKind::FeProg => CommandId(0x4d434650),
        McuMailboxReqKind::GetAuthCmdChallenge => CommandId(0x4d414343),
        McuMailboxReqKind::FuseRevokeVendorPubKey => CommandId(0x4d52564b),
        McuMailboxReqKind::ProvisionVendorPkHash => CommandId(0x5056504b),
        McuMailboxReqKind::ProvisionOwnerPkHash => CommandId(0x504f504b),
        McuMailboxReqKind::FuseRevokeVendorPkHash => CommandId(0x52564b48),
        McuMailboxReqKind::ExportAttestedCsr => CommandId(0x4d454143),
        McuMailboxReqKind::DpeSignerContextCert => CommandId(0x4d445343),
        McuMailboxReqKind::GetDpeCertChain => CommandId(0x4d444343),
        McuMailboxReqKind::GetAttestation => CommandId(0x4d474154),
        McuMailboxReqKind::OcpLockSetPermaHek => CommandId(0x00000013),
        McuMailboxReqKind::OcpLockRotateHek => CommandId(0x00000013),
        McuMailboxReqKind::GetOcpLockEndorsementCert => CommandId(0x4f4c4543),
        McuMailboxReqKind::OcpLockEnumerateHpkeHandles => CommandId(0x4f4c4548),
        McuMailboxReqKind::GetOcpLockEpochKeyReport => CommandId(0x4f4c4552),
        McuMailboxReqKind::DotLock => CommandId(0x00000011),
        McuMailboxReqKind::DotDisable => CommandId(0x00000011),
        McuMailboxReqKind::DotRotate => CommandId(0x00000011),
        McuMailboxReqKind::DotRecovery => CommandId(0x00000011),
        McuMailboxReqKind::DotStatus => CommandId(0x00000011),
        McuMailboxReqKind::DotOverrideChallenge => CommandId(0x00000011),
        McuMailboxReqKind::DotOverride => CommandId(0x00000011),
        McuMailboxReqKind::DotUnlockChallenge => CommandId(0x00000011),
        McuMailboxReqKind::DotUnlock => CommandId(0x00000011),
        McuMailboxReqKind::GetDotBackupBlob => CommandId(0x00000011),
    }
}

impl McuMailboxReqKind {
    /// The command code the request is sent with.
    pub fn cmd_code(&self) -> (r: CommandId)
        ensures
            r == spec_cmd_code(*self),
    {
        match self {
            McuMailboxReqKind::FirmwareVersion => CommandId::MC_FIRMWARE_VERSION(),
            McuMailboxReqKind::DeviceCaps => CommandId::MC_DEVICE_CAPABILITIES(),
            McuMailboxReqKind::GetLog => CommandId::MC_GET_LOG(),
            McuMailboxReqKind::ClearLog => CommandId::MC_CLEAR_LOG(),
            McuMailboxReqKind::FipsSelfTestStart => CommandId::MC_FIPS_SELF_TEST_START(),
            McuMailboxReqKind::FipsSelfTestGetResults => CommandId::MC_FIPS_SELF_TEST_GET_RESULTS(),
            McuMailboxReqKind::FipsPeriodicEnable => CommandId::MC_FIPS_PERIODIC_ENABLE(),
            McuMailboxReqKind::FipsPeriodicStatus => CommandId::MC_FIPS_PERIODIC_STATUS(),
            McuMailboxReqKind::ShaInit => CommandId::MC_SHA_INIT(),
            McuMailboxReqKind::ShaUpdate => CommandId::MC_SHA_UPDATE(),
            McuMailboxReqKind::ShaFinal => CommandId::MC_SHA_FINAL(),
            McuMailboxReqKind::Hmac => CommandId::MC_HMAC(),
            McuMailboxReqKind::HmacKdfCounter => CommandId::MC_HMAC_KDF_COUNTER(),
            McuMailboxReqKind::HkdfExtract => CommandId::MC_HKDF_EXTRACT(),
            McuMailboxReqKind::HkdfExpand => CommandId::MC_HKDF_EXPAND(),
            McuMailboxReqKind::AesEncryptInit => CommandId::MC_AES_ENCRYPT_INIT(),
            McuMailboxReqKind::AesEncryptUpdate => CommandId::MC_AES_ENCRYPT_UPDATE(),
            McuMailboxReqKind::AesDecryptInit => CommandId::MC_AES_DECRYPT_INIT(),
            McuMailboxReqKind::AesDecryptUpdate => CommandId::MC_AES_DECRYPT_UPDATE(),
            McuMailboxReqKind::AesGcmEncryptInit => CommandId::MC_AES_GCM_ENCRYPT_INIT(),
            McuMailboxReqKind::AesGcmEncryptUpdate => CommandId::MC_AES_GCM_ENCRYPT_UPDATE(),
            McuMailboxReqKind::AesGcmEncryptFinal => CommandId::MC_AES_GCM_ENCRYPT_FINAL(),
            McuMailboxReqKind::AesGcmDecryptInit => CommandId::MC_AES_GCM_DECRYPT_INIT(),
            McuMailboxReqKind::AesGcmDecryptUpdate => CommandId::MC_AES_GCM_DECRYPT_UPDATE(),
            McuMailboxReqKind::AesGcmDecryptFinal => CommandId::MC_AES_GCM_DECRYPT_FINAL(),
            McuMailboxReqKind::Import => CommandId::MC_IMPORT(),
            McuMailboxReqKind::Delete => CommandId::MC_DELETE(),
            McuMailboxReqKind::CmStatus => CommandId::MC_CM_STATUS(),
            McuMailboxReqKind::RandomStir => CommandId::MC_RANDOM_STIR(),
            McuMailboxReqKind::RandomGenerate => CommandId::MC_RANDOM_GENERATE(),
            McuMailboxReqKind::EcdhGenerate => CommandId::MC_ECDH_GENERATE(),
            McuMailboxReqKind::EcdhFinish => CommandId::MC_ECDH_FINISH(),
            McuMailboxReqKind::EcdsaCmkPublicKey => CommandId::MC_ECDSA_CMK_PUBLIC_KEY(),
            McuMailboxReqKind::EcdsaCmkSign => CommandId::MC_ECDSA_CMK_SIGN(),
            McuMailboxReqKind::EcdsaCmkVerify => CommandId::MC_ECDSA_CMK_VERIFY(),
            McuMailboxReqKind::Ecdsa384SigVerify => CommandId::MC_ECDSA384_SIG_VERIFY(),
            McuMailboxReqKind::LmsSigVerify => CommandId::MC_LMS_SIG_VERIFY(),
            McuMailboxReqKind::MldsaCmkPublicKey => CommandId::MC_MLDSA_CMK_PUBLIC_KEY(),
            McuMailboxReqKind::MldsaCmkSign => CommandId::MC_MLDSA_CMK_SIGN(),
            McuMailboxReqKind::MldsaCmkVerify => CommandId::MC_MLDSA_CMK_VERIFY(),
            McuMailboxReqKind::ProdDebugUnlockReq => CommandId::MC_PROD_DEBUG_UNLOCK_REQ(),
            McuMailboxReqKind::ProdDebugUnlockToken => CommandId::MC_PROD_DEBUG_UNLOCK_TOKEN(),
            McuMailboxReqKind::FuseRead => CommandId::MC_FUSE_READ(),
            McuMailboxReqKind::FuseWrite => CommandId::MC_FUSE_WRITE(),
            McuMailboxReqKind::FuseLockPartition => CommandId::MC_FUSE_LOCK_PARTITION(),
            McuMailboxReqKind::FuseIncreaseCaliptraMinSvn => CommandId::MC_FUSE_INCREASE_CALIPTRA_MIN_SVN(),
            McuMailboxReqKind::FeProg => CommandId::MC_FE_PROG(),
            McuMailboxReqKind::GetAuthCmdChallenge => CommandId::MC_GET_AUTH_CMD_CHALLENGE(),
            McuMailboxReqKind::FuseRevokeVendorPubKey => CommandId::MC_FUSE_REVOKE_VENDOR_PUB_KEY(),
            McuMailboxReqKind::ProvisionVendorPkHash => CommandId::MC_PROVISION_VENDOR_PK_HASH(),
            McuMailboxReqKind::ProvisionOwnerPkHash => CommandId::MC_PROVISION_OWNER_PK_HASH(),
            McuMailboxReqKind::FuseRevokeVendorPkHash => CommandId::MC_FUSE_REVOKE_VENDOR_PK_HASH(),
            McuMailboxReqKind::ExportAttestedCsr => CommandId::MC_EXPORT_ATTESTED_CSR(),
            McuMailboxReqKind::DpeSignerContextCert => CommandId::MC_DPE_SIGNER_CONTEXT_CERT(),
            McuMailboxReqKind::GetDpeCertChain => CommandId::MC_GET_DPE_CERTIFICATE_CHAIN(),
            McuMailboxReqKind::GetAttestation => CommandId::MC_GET_ATTESTATION(),
            McuMailboxReqKind::OcpLockSetPermaHek => CommandId::MC_OCP_LOCK(),
            McuMailboxReqKind::OcpLockRotateHek => CommandId::MC_OCP_LOCK(),
            McuMailboxReqKind::GetOcpLockEndorsementCert => CommandId::MC_GET_OCP_LOCK_ENDORSEMENT_CERT(),
            McuMailboxReqKind::OcpLockEnumerateHpkeHandles => CommandId::MC_OCP_LOCK_ENUMERATE_HPKE_HANDLES(),
            McuMailboxReqKind::GetOcpLockEpochKeyReport => CommandId::MC_GET_OCP_LOCK_EPOCH_KEY_REPORT(),
            McuMailboxReqKind::DotLock => CommandId::MC_DEVICE_OWNERSHIP_TRANSFER(),
            McuMailboxReqKind::DotDisable => CommandId::MC_DEVICE_OWNERSHIP_TRANSFER(),
            McuMailboxReqKind::DotRotate => CommandId::MC_DEVICE_OWNERSHIP_TRANSFER(),
            McuMailboxReqKind::DotRecovery => CommandId::MC_DEVICE_OWNERSHIP_TRANSFER(),
            McuMailboxReqKind::DotStatus => CommandId::MC_DEVICE_OWNERSHIP_TRANSFER(),
            McuMailboxReqKind::DotOverrideChallenge => CommandId::MC_DEVICE_OWNERSHIP_TRANSFER(),
            McuMailboxReqKind::DotOverride => CommandId::MC_DEVICE_OWNERSHIP_TRANSFER(),
            McuMailboxReqKind::DotUnlockChallenge => CommandId::MC_DEVICE_OWNERSHIP_TRANSFER(),
            McuMailboxReqKind::DotUnlock => CommandId::MC_DEVICE_OWNERSHIP_TRANSFER(),
            McuMailboxReqKind::GetDotBackupBlob => CommandId::MC_DEVICE_OWNERSHIP_TRANSFER(),
        }
    }
}

/// The device ownership transfer requests are all sent with the DOT family
/// code (0x11), and the OCP Lock key requests with the OCP Lock family code
/// (0x13).
pub proof fn lemma_family_codes(kind: McuMailboxReqKind)
    ensures
        is_dot_request(kind) ==> spec_cmd_code(kind) == CommandId(0x11),
        (kind == McuMailboxReqKind::OcpLockSetPermaHek || kind == McuMailboxReqKind::OcpLockRotateHek)
            ==> spec_cmd_code(kind) == CommandId(0x13),
{
}

/// The request belongs to the device ownership transfer family.
pub open spec fn is_dot_request(kind: McuMailboxReqKind) -> bool {
    ||| kind == McuMailboxReqKind::DotLock
    ||| kind == McuMailboxReqKind::DotDisable
    ||| kind == McuMailboxReqKind::DotRotate
    ||| kind == McuMailboxReqKind::DotRecovery
    ||| kind == McuMailboxReqKind::DotStatus
    ||| kind == McuMailboxReqKind::DotOverrideChallenge
    ||| kind == McuMailboxReqKind::DotOverride
    ||| kind == McuMailboxReqKind::DotUnlockChallenge
    ||| kind == McuMailboxReqKind::DotUnlock
    ||| kind == McuMailboxReqKind::GetDotBackupBlob
}


/// The kinds of request sent as variable-size messages: only the header and
/// the data in use go on the wire; every other request goes whole.
pub open spec fn request_is_variable_size(kind: McuMailboxReqKind) -> bool {
    ||| kind == McuMailboxReqKind::ShaInit
    ||| kind == McuMailboxReqKind::ShaUpdate
    ||| kind == McuMailboxReqKind::ShaFinal
    ||| kind == McuMailboxReqKind::Hmac
    ||| kind == McuMailboxReqKind::HmacKdfCounter
    ||| kind == McuMailboxReqKind::HkdfExpand
    ||| kind == McuMailboxReqKind::AesEncryptInit
    ||| kind == McuMailboxReqKind::AesEncryptUpdate
    ||| kind == McuMailboxReqKind::AesDecryptInit
    ||| kind == McuMailboxReqKind::AesDecryptUpdate
    ||| kind == McuMailboxReqKind::AesGcmEncryptInit
    ||| kind == McuMailboxReqKind::AesGcmEncryptUpdate
    ||| kind == McuMailboxReqKind::AesGcmEncryptFinal
    ||| kind == McuMailboxReqKind::AesGcmDecryptInit
    ||| kind == McuMailboxReqKind::AesGcmDecryptUpdate
    ||| kind == McuMailboxReqKind::AesGcmDecryptFinal
    ||| kind == McuMailboxReqKind::Import
    ||| kind == McuMailboxReqKind::RandomStir
    ||| kind == McuMailboxReqKind::EcdsaCmkSign
    ||| kind == McuMailboxReqKind::EcdsaCmkVerify
    ||| kind == McuMailboxReqKind::MldsaCmkSign
    ||| kind == McuMailboxReqKind::MldsaCmkVerify
}

impl McuMailboxReqKind {
    /// The request is sent as a variable-size message.
    pub fn is_variable_size(&self) -> (r: bool)
        ensures
            r == request_is_variable_size(*self),
    {
        match self {
            McuMailboxReqKind::ShaInit => true,
            McuMailboxReqKind::ShaUpdate => true,
            McuMailboxReqKind::ShaFinal => true,
            McuMailboxReqKind::Hmac => true,
            McuMailboxReqKind::HmacKdfCounter => true,
            McuMailboxReqKind::HkdfExpand => true,
            McuMailboxReqKind::AesEncryptInit => true,
            McuMailboxReqKind::AesEncryptUpdate => true,
            McuMailboxReqKind::AesDecryptInit => true,
            McuMailboxReqKind::AesDecryptUpdate => true,
            McuMailboxReqKind::AesGcmEncryptInit => true,
            McuMailboxReqKind::AesGcmEncryptUpdate => true,
            McuMailboxReqKind::AesGcmEncryptFinal => true,
            McuMailboxReqKind::AesGcmDecryptInit => true,
            McuMailboxReqKind::AesGcmDecryptUpdate => true,
            McuMailboxReqKind::AesGcmDecryptFinal => true,
            McuMailboxReqKind::Import => true,
            McuMailboxReqKind::RandomStir => true,
            McuMailboxReqKind::EcdsaCmkSign => true,
            McuMailboxReqKind::EcdsaCmkVerify => true,
            McuMailboxReqKind::MldsaCmkSign => true,
            McuMailboxReqKind::MldsaCmkVerify => true,
            _ => false,
        }
    }
}

/// The number of bytes a request puts on the wire, given the size of the
/// whole request structure and, for a variable-size request, the length of
/// its used part (`None` when its data length does not fit): the whole
/// structure, or the used part, or `MCU_MBOX_REQUEST_DATA_LEN_TOO_LARGE`.
pub fn request_wire_len(kind: McuMailboxReqKind, full_len: usize, partial_len: Option<usize>) -> (r: Result<usize, McuMboxError>)
    ensures
        !request_is_variable_size(kind) ==> r == Ok::<usize, McuMboxError>(full_len),
        request_is_variable_size(kind) ==> match partial_len {
            Some(n) => if n <= full_len {
                r == Ok::<usize, McuMboxError>(n)
            } else {
                r matches Err(e) && e@ == 4
            },
            None => r matches Err(e) && e@ == 4,
        },
{
    if !kind.is_variable_size() {
        return Ok(full_len);
    }
    match partial_len {
        Some(n) => if n <= full_len {
            Ok(n)
        } else {
            Err(McuMboxError::MCU_MBOX_REQUEST_DATA_LEN_TOO_LARGE())
        },
        None => Err(McuMboxError::MCU_MBOX_REQUEST_DATA_LEN_TOO_LARGE()),
    }
}

/// The kinds of MCU mailbox response.
#[derive(Debug, Clone, Copy, PartialEq, Eq, Structural)]
pub enum McuMailboxRespKind {
    Header,
    FirmwareVersion,
    DeviceCaps,
    GetLog,
    ClearLog,
    FipsSelfTestStart,
    FipsSelfTestGetResults,
    FipsPeriodicEnable,
    FipsPeriodicStatus,
    ShaInit,
    ShaUpdate,
    ShaFinal,
    Hmac,
    HmacKdfCounter,
    HkdfExtract,
    HkdfExpand,
    AesEncryptInit,
    AesEncryptUpdate,
    AesDecryptInit,
    AesDecryptUpdate,
    AesGcmEncryptInit,
    AesGcmEncryptUpdate,
    AesGcmEncryptFinal,
    AesGcmDecryptInit,
    AesGcmDecryptUpdate,
    AesGcmDecryptFinal,
    Import,
    Delete,
    CmStatus,
    RandomStir,
    RandomGenerate,
    EcdhGenerate,
    EcdhFinish,
    EcdsaCmkPublicKey,
    EcdsaCmkSign,
    EcdsaCmkVerify,
    Ecdsa384SigVerify,
    LmsSigVerify,
    MldsaCmkPublicKey,
    MldsaCmkSign,
    MldsaCmkVerify,
    ProdDebugUnlockReq,
    ProdDebugUnlockToken,
    FuseRead,
    FuseWrite,
    FuseLockPartition,
    GetAuthCmdChallenge,
    FuseRevokeVendorPubKey,
    ProvisionVendorPkHash,
    ProvisionOwnerPkHash,
    FuseRevokeVendorPkHash,
    ExportAttestedCsr,
    DpeSignerContextCert,
    GetDpeCertChain,
    OcpLockSetPermaHek,
    OcpLockRotateHek,
    GetOcpLockEndorsementCert,
    OcpLockEnumerateHpkeHandles,
    GetOcpLockEpochKeyReport,
    DotLock,
    DotDisable,
    DotRotate,
    DotRecovery,
    DotStatus,
    DotOverrideChallenge,
    DotOverride,
    DotUnlockChallenge,
    DotUnlock,
    GetDotBackupBlob,
}

/// The kinds of response sent as variable-size messages: the header, the
/// data length, and that many bytes of data.
pub open spec fn response_is_variable_size(kind: McuMailboxRespKind) -> bool {
    ||| kind == McuMailboxRespKind::FirmwareVersion
    ||| kind == McuMailboxRespKind::GetLog
    ||| kind == McuMailboxRespKind::ShaFinal
    ||| kind == McuMailboxRespKind::Hmac
    ||| kind == McuMailboxRespKind::AesEncryptUpdate
    ||| kind == McuMailboxRespKind::AesDecryptUpdate
    ||| kind == McuMailboxRespKind::AesGcmEncryptUpdate
    ||| kind == McuMailboxRespKind::AesGcmEncryptFinal
    ||| kind == McuMailboxRespKind::AesGcmDecryptUpdate
    ||| kind == McuMailboxRespKind::AesGcmDecryptFinal
    ||| kind == McuMailboxRespKind::RandomGenerate
    ||| kind == McuMailboxRespKind::FuseRead
    ||| kind == McuMailboxRespKind::ExportAttestedCsr
    ||| kind == McuMailboxRespKind::DpeSignerContextCert
    ||| kind == McuMailboxRespKind::GetDpeCertChain
    ||| kind == McuMailboxRespKind::GetOcpLockEndorsementCert
    ||| kind == McuMailboxRespKind::GetOcpLockEpochKeyReport
}

impl McuMailboxRespKind {
    /// The response is sent as a variable-size message.
    pub fn is_variable_size(&self) -> (r: bool)
        ensures
            r == response_is_variable_size(*self),
    {
        match self {
            McuMailboxRespKind::FirmwareVersion => true,
            McuMailboxRespKind::GetLog => true,
            McuMailboxRespKind::ShaFinal => true,
            McuMailboxRespKind::Hmac => true,
            McuMailboxRespKind::AesEncryptUpdate => true,
            McuMailboxRespKind::AesDecryptUpdate => true,
            McuMailboxRespKind::AesGcmEncryptUpdate => true,
            McuMailboxRespKind::AesGcmEncryptFinal => true,
            McuMailboxRespKind::AesGcmDecryptUpdate => true,
            McuMailboxRespKind::AesGcmDecryptFinal => true,
            McuMailboxRespKind::RandomGenerate => true,
            McuMailboxRespKind::FuseRead => true,
            McuMailboxRespKind::ExportAttestedCsr => true,
            McuMailboxRespKind::DpeSignerContextCert => true,
            McuMailboxRespKind::GetDpeCertChain => true,
            McuMailboxRespKind::GetOcpLockEndorsementCert => true,
            McuMailboxRespKind::GetOcpLockEpochKeyReport => true,
            _ => false,
        }
    }
}

/// The number of bytes a response puts on the wire, given the size of the
/// whole response structure, the size of the variable-size header and the
/// data length it holds: the whole structure, or the header and the data,
/// or `MCU_MBOX_RESPONSE_DATA_LEN_TOO_LARGE` when they exceed the structure.
pub fn response_wire_len(kind: McuMailboxRespKind, full_len: usize, header_len: usize, data_len: u32) -> (r: Result<usize, McuMboxError>)
    ensures
        !response_is_variable_size(kind) ==> r == Ok::<usize, McuMboxError>(full_len),
        response_is_variable_size(kind) ==> if header_len + data_len <= full_len {
            r == Ok::<usize, McuMboxError>((header_len + data_len) as usize)
        } else {
            r matches Err(e) && e@ == 1
        },
{
    if !kind.is_variable_size() {
        return Ok(full_len);
    }
    if header_len <= full_len && data_len as usize <= full_len - header_len {
        Ok(header_len + data_len as usize)
    } else {
        Err(McuMboxError::MCU_MBOX_RESPONSE_DATA_LEN_TOO_LARGE())
    }
}

} // verus!
