//! Command identifiers and common structures of the Caliptra utility host
//! library.
use vstd::prelude::*;

verus! {

/// Command identifiers of the utility host library.
#[derive(Debug, Clone, Copy, PartialEq, Eq, Structural)]
pub enum CaliptraCommandId {
    GetFirmwareVersion,
    GetDeviceCapabilities,
    GetIdevidCert,
    GetLdevidCert,
    GetFmcAliasCert,
    GetRtAliasCert,
    ExportAttestedCsr,
    ExportIdevidCsr,
    GetAttestation,
    GetCertChain,
    StoreCertificate,
    GetCertificate,
    SetCertificate,
    HashInit,
    HashUpdate,
    HashFinalize,
    Hmac,
    HmacKdfCounter,
    Import,
    Delete,
    AesEncryptInit,
    AesEncryptUpdate,
    AesDecryptInit,
    AesDecryptUpdate,
    AesGcmEncryptInit,
    AesGcmEncryptUpdate,
    AesGcmEncryptFinal,
    AesGcmDecryptInit,
    AesGcmDecryptUpdate,
    AesGcmDecryptFinal,
    EcdsaSign,
    EcdsaVerify,
    EcdhGenerate,
    EcdsaPublicKey,
    EcdhFinish,
    LmsKeygen,
    LmsSign,
    LmsVerify,
    MldsaKeygen,
    MldsaSign,
    MldsaVerify,
    DebugEcho,
    DebugGetStatus,
    DebugReadMemory,
    DebugWriteMemory,
    DebugGetLog,
    DebugSetConfig,
    DebugReset,
    DebugClearLog,
    ProdDebugUnlockReq,
    ProdDebugUnlockToken,
    FuseRead,
    FuseWrite,
    FuseLock,
    FuseGetInfo,
    FuseProvision,
    FuseGetManifest,
    GetAuthCmdChallenge,
    FeProg,
    ProvisionVendorPkHash,
    FuseIncreaseCaliptraMinSvn,
    FuseRevokeVendorPubKey,
    FuseRevokeVendorPkHash,
    FuseLockPartition,
    ProvisionOwnerPkHash,
    OcpLockRotateHek,
    OcpLockSetPermaHek,
    DotLock,
    DotDisable,
    DotUnlockChallenge,
    DotUnlock,
    DotRotate,
    GetDotBackupBlob,
    DotStatus,
    DotRecovery,
    DotOverrideChallenge,
    DotOverride,
}

impl CaliptraCommandId {
    /// The code of the value on the wire.
    #[verifier::allow_in_spec]
    pub fn to_u32(self) -> u32
        returns
            (match self {
                CaliptraCommandId::GetFirmwareVersion => 0x1u32,
                CaliptraCommandId::GetDeviceCapabilities => 0x2u32,
                CaliptraCommandId::GetIdevidCert => 0x1001u32,
                CaliptraCommandId::GetLdevidCert => 0x1002u32,
                CaliptraCommandId::GetFmcAliasCert => 0x1003u32,
                CaliptraCommandId::GetRtAliasCert => 0x1004u32,
                CaliptraCommandId::ExportAttestedCsr => 0x1005u32,
                CaliptraCommandId::ExportIdevidCsr => 0x1006u32,
                CaliptraCommandId::GetAttestation => 0x1007u32,
                CaliptraCommandId::GetCertChain => 0x1010u32,
                CaliptraCommandId::StoreCertificate => 0x1011u32,
                CaliptraCommandId::GetCertificate => 0x1012u32,
                CaliptraCommandId::SetCertificate => 0x1013u32,
                CaliptraCommandId::HashInit => 0x2001u32,
                CaliptraCommandId::HashUpdate => 0x2002u32,
                CaliptraCommandId::HashFinalize => 0x2003u32,
                CaliptraCommandId::Hmac => 0x2013u32,
                CaliptraCommandId::HmacKdfCounter => 0x2014u32,
                CaliptraCommandId::Import => 0x2015u32,
                CaliptraCommandId::Delete => 0x2016u32,
                CaliptraCommandId::AesEncryptInit => 0x3001u32,
                CaliptraCommandId::AesEncryptUpdate => 0x3002u32,
                CaliptraCommandId::AesDecryptInit => 0x3003u32,
                CaliptraCommandId::AesDecryptUpdate => 0x3004u32,
                CaliptraCommandId::AesGcmEncryptInit => 0x3010u32,
                CaliptraCommandId::AesGcmEncryptUpdate => 0x3011u32,
                CaliptraCommandId::AesGcmEncryptFinal => 0x3012u32,
                CaliptraCommandId::AesGcmDecryptInit => 0x3013u32,
                CaliptraCommandId::AesGcmDecryptUpdate => 0x3014u32,
                CaliptraCommandId::AesGcmDecryptFinal => 0x3015u32,
                CaliptraCommandId::EcdsaSign => 0x4001u32,
                CaliptraCommandId::EcdsaVerify => 0x4002u32,
                CaliptraCommandId::EcdhGenerate => 0x4003u32,
                CaliptraCommandId::EcdsaPublicKey => 0x4004u32,
                CaliptraCommandId::EcdhFinish => 0x4005u32,
                CaliptraCommandId::LmsKeygen => 0x4010u32,
                CaliptraCommandId::LmsSign => 0x4011u32,
                CaliptraCommandId::LmsVerify => 0x4012u32,
                CaliptraCommandId::MldsaKeygen => 0x4020u32,
                CaliptraCommandId::MldsaSign => 0x4021u32,
                CaliptraCommandId::MldsaVerify => 0x4022u32,
                CaliptraCommandId::DebugEcho => 0x7001u32,
                CaliptraCommandId::DebugGetStatus => 0x7002u32,
                CaliptraCommandId::DebugReadMemory => 0x7003u32,
                CaliptraCommandId::DebugWriteMemory => 0x7004u32,
                CaliptraCommandId::DebugGetLog => 0x7005u32,
                CaliptraCommandId::DebugSetConfig => 0x7006u32,
                CaliptraCommandId::DebugReset => 0x7007u32,
                CaliptraCommandId::DebugClearLog => 0x7008u32,
                CaliptraCommandId::ProdDebugUnlockReq => 0x7010u32,
                CaliptraCommandId::ProdDebugUnlockToken => 0x7011u32,
                CaliptraCommandId::FuseRead => 0x8001u32,
                CaliptraCommandId::FuseWrite => 0x8002u32,
                CaliptraCommandId::FuseLock => 0x8003u32,
                CaliptraCommandId::FuseGetInfo => 0x8004u32,
                CaliptraCommandId::FuseProvision => 0x8005u32,
                CaliptraCommandId::FuseGetManifest => 0x8006u32,
                CaliptraCommandId::GetAuthCmdChallenge => 0x8010u32,
                CaliptraCommandId::FeProg => 0x8011u32,
                CaliptraCommandId::ProvisionVendorPkHash => 0x8012u32,
                CaliptraCommandId::FuseIncreaseCaliptraMinSvn => 0x8013u32,
                CaliptraCommandId::FuseRevokeVendorPubKey => 0x8014u32,
                CaliptraCommandId::FuseRevokeVendorPkHash => 0x8015u32,
                CaliptraCommandId::FuseLockPartition => 0x8016u32,
                CaliptraCommandId::ProvisionOwnerPkHash => 0x8017u32,
                CaliptraCommandId::OcpLockRotateHek => 0x8018u32,
                CaliptraCommandId::OcpLockSetPermaHek => 0x8019u32,
                CaliptraCommandId::DotLock => 0x8020u32,
                CaliptraCommandId::DotDisable => 0x8021u32,
                CaliptraCommandId::DotUnlockChallenge => 0x8022u32,
                CaliptraCommandId::DotUnlock => 0x8023u32,
                CaliptraCommandId::DotRotate => 0x8024u32,
                CaliptraCommandId::GetDotBackupBlob => 0x8025u32,
                CaliptraCommandId::DotStatus => 0x8026u32,
                CaliptraCommandId::DotRecovery => 0x8027u32,
                CaliptraCommandId::DotOverrideChallenge => 0x8028u32,
                CaliptraCommandId::DotOverride => 0x8029u32,
            }),
    {
        match self {
            CaliptraCommandId::GetFirmwareVersion => 0x1,
            CaliptraCommandId::GetDeviceCapabilities => 0x2,
            CaliptraCommandId::GetIdevidCert => 0x1001,
            CaliptraCommandId::GetLdevidCert => 0x1002,
            CaliptraCommandId::GetFmcAliasCert => 0x1003,
            CaliptraCommandId::GetRtAliasCert => 0x1004,
            CaliptraCommandId::ExportAttestedCsr => 0x1005,
            CaliptraCommandId::ExportIdevidCsr => 0x1006,
            CaliptraCommandId::GetAttestation => 0x1007,
            CaliptraCommandId::GetCertChain => 0x1010,
            CaliptraCommandId::StoreCertificate => 0x1011,
            CaliptraCommandId::GetCertificate => 0x1012,
            CaliptraCommandId::SetCertificate => 0x1013,
            CaliptraCommandId::HashInit => 0x2001,
            CaliptraCommandId::HashUpdate => 0x2002,
            CaliptraCommandId::HashFinalize => 0x2003,
            CaliptraCommandId::Hmac => 0x2013,
            CaliptraCommandId::HmacKdfCounter => 0x2014,
            CaliptraCommandId::Import => 0x2015,
            CaliptraCommandId::Delete => 0x2016,
            CaliptraCommandId::AesEncryptInit => 0x3001,
            CaliptraCommandId::AesEncryptUpdate => 0x3002,
            CaliptraCommandId::AesDecryptInit => 0x3003,
            CaliptraCommandId::AesDecryptUpdate => 0x3004,
            CaliptraCommandId::AesGcmEncryptInit => 0x3010,
            CaliptraCommandId::AesGcmEncryptUpdate => 0x3011,
            CaliptraCommandId::AesGcmEncryptFinal => 0x3012,
            CaliptraCommandId::AesGcmDecryptInit => 0x3013,
            CaliptraCommandId::AesGcmDecryptUpdate => 0x3014,
            CaliptraCommandId::AesGcmDecryptFinal => 0x3015,
            CaliptraCommandId::EcdsaSign => 0x4001,
            CaliptraCommandId::EcdsaVerify => 0x4002,
            CaliptraCommandId::EcdhGenerate => 0x4003,
            CaliptraCommandId::EcdsaPublicKey => 0x4004,
            CaliptraCommandId::EcdhFinish => 0x4005,
            CaliptraCommandId::LmsKeygen => 0x4010,
            CaliptraCommandId::LmsSign => 0x4011,
            CaliptraCommandId::LmsVerify => 0x4012,
            CaliptraCommandId::MldsaKeygen => 0x4020,
            CaliptraCommandId::MldsaSign => 0x4021,
            CaliptraCommandId::MldsaVerify => 0x4022,
            CaliptraCommandId::DebugEcho => 0x7001,
            CaliptraCommandId::DebugGetStatus => 0x7002,
            CaliptraCommandId::DebugReadMemory => 0x7003,
            CaliptraCommandId::DebugWriteMemory => 0x7004,
            CaliptraCommandId::DebugGetLog => 0x7005,
            CaliptraCommandId::DebugSetConfig => 0x7006,
            CaliptraCommandId::DebugReset => 0x7007,
            CaliptraCommandId::DebugClearLog => 0x7008,
            CaliptraCommandId::ProdDebugUnlockReq => 0x7010,
            CaliptraCommandId::ProdDebugUnlockToken => 0x7011,
            CaliptraCommandId::FuseRead => 0x8001,
            CaliptraCommandId::FuseWrite => 0x8002,
            CaliptraCommandId::FuseLock => 0x8003,
            CaliptraCommandId::FuseGetInfo => 0x8004,
            CaliptraCommandId::FuseProvision => 0x8005,
            CaliptraCommandId::FuseGetManifest => 0x8006,
            CaliptraCommandId::GetAuthCmdChallenge => 0x8010,
            CaliptraCommandId::FeProg => 0x8011,
            CaliptraCommandId::ProvisionVendorPkHash => 0x8012,
            CaliptraCommandId::FuseIncreaseCaliptraMinSvn => 0x8013,
            CaliptraCommandId::FuseRevokeVendorPubKey => 0x8014,
            CaliptraCommandId::FuseRevokeVendorPkHash => 0x8015,
            CaliptraCommandId::FuseLockPartition => 0x8016,
            CaliptraCommandId::ProvisionOwnerPkHash => 0x8017,
            CaliptraCommandId::OcpLockRotateHek => 0x8018,
            CaliptraCommandId::OcpLockSetPermaHek => 0x8019,
            CaliptraCommandId::DotLock => 0x8020,
            CaliptraCommandId::DotDisable => 0x8021,
            CaliptraCommandId::DotUnlockChallenge => 0x8022,
            CaliptraCommandId::DotUnlock => 0x8023,
            CaliptraCommandId::DotRotate => 0x8024,
            CaliptraCommandId::GetDotBackupBlob => 0x8025,
            CaliptraCommandId::DotStatus => 0x8026,
            CaliptraCommandId::DotRecovery => 0x8027,
            CaliptraCommandId::DotOverrideChallenge => 0x8028,
            CaliptraCommandId::DotOverride => 0x8029,
        }
    }
}

/// The header common to every response: the FIPS status.
#[derive(Debug, Clone, Copy, PartialEq, Eq, Structural)]
pub struct CommonResponse {
    pub fips_status: u32,
}

impl Default for CommonResponse {
    fn default() -> (r: Self)
        ensures
            r.fips_status == 0,
    {
        CommonResponse { fips_status: 0 }
    }
}

} // verus!
